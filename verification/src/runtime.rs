//! The models that the conversion worker owns.

use vstd::prelude::*;

use crate::conversion::{EngineConfig, StrategyMode};
use crate::worker::InitRequest;

verus! {

/// The loaded models and what the worker has learned about them.
#[derive(Debug)]
pub struct WorkerRuntime<B> {
    pub main: Option<B>,
    pub light: Option<B>,
    pub config: EngineConfig,
    pub adaptive_use_light_model: bool,
}

/// The variant to load as the main model: in light mode the light one, if
/// there is one.
pub open spec fn main_variant_of(request: InitRequest) -> Seq<char> {
    match (request.strategy, request.light_variant) {
        (StrategyMode::Light, Some(light)) => light@,
        _ => request.main_variant@,
    }
}

/// The variant to load beside the main model: only in adaptive mode.
pub open spec fn light_variant_of(request: InitRequest) -> Option<Seq<char>> {
    match (request.strategy, request.light_variant) {
        (StrategyMode::Adaptive, Some(light)) => Some(light@),
        _ => None,
    }
}

/// The factory may yield this result for a variant.
pub open spec fn may_build<B, F: Fn(&str, u32) -> Result<B, String>>(
    factory: F,
    variant: Seq<char>,
    n_threads: u32,
    result: Result<B, String>,
) -> bool {
    exists|name: &str|
        name@ == variant && #[trigger] factory.ensures((name, n_threads), result)
}

/// The model that was built.
pub open spec fn built_model<B>(result: Result<B, String>) -> Option<B> {
    match result {
        Ok(model) => Some(model),
        Err(_) => None,
    }
}

/// The light model is what the factory made of its variant; a failure to
/// build it leaves none.
pub open spec fn may_be_light<B, F: Fn(&str, u32) -> Result<B, String>>(
    factory: F,
    request: InitRequest,
    light: Option<B>,
) -> bool {
    match light_variant_of(request) {
        None => light is None,
        Some(variant) => exists|result: Result<B, String>| #[trigger]
            may_build(factory, variant, request.n_threads, result) && light == built_model(result),
    }
}

/// A model with the name it shows.
#[derive(Debug, PartialEq, Eq)]
pub struct KanaKanjiBackend<C> {
    pub converter: C,
    pub name: String,
}

/// Opens the model of a variant. The number of threads is only set where one
/// is asked for, and before the model gives its name.
pub fn open_backend<
    C,
    O: Fn(&str) -> Result<C, String>,
    S: Fn(C, u32) -> C,
    N: Fn(&C) -> String,
>(variant_id: &str, n_threads: u32, open: &O, with_threads: &S, display_name: &N) -> (r: Result<
    KanaKanjiBackend<C>,
    String,
>)
    requires
        open.requires((variant_id,)),
        forall|converter: C| #[trigger] with_threads.requires((converter, n_threads)),
        forall|converter: &C| #[trigger] display_name.requires((converter,)),
    ensures
        match r {
            Ok(backend) => {
                &&& display_name.ensures((&backend.converter,), backend.name)
                &&& exists|opened: C| #[trigger]
                    open.ensures((variant_id,), Ok::<C, String>(opened)) && if n_threads > 0 {
                        with_threads.ensures((opened, n_threads), backend.converter)
                    } else {
                        backend.converter == opened
                    }
            },
            Err(error) => open.ensures((variant_id,), Err::<C, String>(error)),
        },
{
    let opened = match open(variant_id) {
        Ok(converter) => converter,
        Err(error) => {
            return Err(error);
        },
    };
    let converter = if n_threads > 0 {
        with_threads(opened, n_threads)
    } else {
        opened
    };
    let name = display_name(&converter);
    Ok(KanaKanjiBackend { converter, name })
}

/// Builds the light model of a request, if it wants one.
fn build_light<B, F: Fn(&str, u32) -> Result<B, String>>(factory: &F, request: &InitRequest) -> (r:
    Option<B>)
    requires
        forall|name: &str, n_threads: u32| #[trigger] factory.requires((name, n_threads)),
    ensures
        may_be_light(*factory, *request, r),
{
    match (&request.strategy, &request.light_variant) {
        (StrategyMode::Adaptive, Some(variant)) => {
            let built = factory(variant.as_str(), request.n_threads);
            proof {
                let wanted = light_variant_of(*request)->0;
                assert(wanted == variant@);
                assert(may_build(*factory, wanted, request.n_threads, built));
            }
            match built {
                Ok(model) => Some(model),
                Err(_error) => None,
            }
        },
        _ => None,
    }
}

/// Loads the models of a request. Whatever was loaded before is gone, also
/// where the main model cannot be built. Without a light model an adaptive
/// request still succeeds.
pub fn initialize_runtime<B, F: Fn(&str, u32) -> Result<B, String>>(
    runtime: &mut WorkerRuntime<B>,
    factory: &F,
    request: &InitRequest,
) -> (r: Result<(), String>)
    requires
        forall|name: &str, n_threads: u32| #[trigger] factory.requires((name, n_threads)),
    ensures
        !final(runtime).adaptive_use_light_model,
        match r {
            Ok(()) => {
                &&& final(runtime).config == request.config
                &&& final(runtime).main matches Some(model) && may_build(
                    *factory,
                    main_variant_of(*request),
                    request.n_threads,
                    Ok(model),
                )
                &&& may_be_light(*factory, *request, final(runtime).light)
            },
            Err(error) => {
                &&& final(runtime).config == old(runtime).config
                &&& final(runtime).main is None
                &&& final(runtime).light is None
                &&& may_build(
                    *factory,
                    main_variant_of(*request),
                    request.n_threads,
                    Err::<B, String>(error),
                )
            },
        },
{
    runtime.main = None;
    runtime.light = None;
    runtime.adaptive_use_light_model = false;
    let main_variant: &str = match (&request.strategy, &request.light_variant) {
        (StrategyMode::Light, Some(light)) => light.as_str(),
        _ => request.main_variant.as_str(),
    };
    let built = factory(main_variant, request.n_threads);
    proof {
        assert(may_build(*factory, main_variant_of(*request), request.n_threads, built));
    }
    let main = match built {
        Ok(model) => model,
        Err(error) => {
            return Err(error);
        },
    };
    let light = build_light(factory, request);
    runtime.main = Some(main);
    runtime.light = light;
    runtime.config = request.config;
    Ok(())
}

} // verus!
