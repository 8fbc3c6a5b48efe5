//! Which models, dictionaries and caches an initialization brings.

use vstd::prelude::*;

use crate::assets::{
    is_dictionaries_of, is_load_order, is_located, loaded, may_load_learning, may_load_system,
    may_merge, merged, name_before, none_usable, sorted_by_name, usable,
};
use crate::assets::{DictionaryFile, DictionaryLocation, FileLoad};
use crate::conversion::{EngineConfig, StrategyMode};
use crate::engine::InputMethodEngine;
use crate::init::{may_resolve, resolves_to, settings_request};
use crate::init::{AssetReport, InitAssets, InitError, QueuedInit, ResolvedModels, Settings};
use crate::runtime::{built_model, light_variant_of, main_variant_of, may_be_light, may_build};
use crate::worker::{text_view, InitRequest, WorkerView};

verus! {

/// With all configured models known, the request succeeds and the worker loads
/// what the strategy is for: the main model alone, the light model in its
/// place, or both beside each other.
pub proof fn law_strategy_decides_what_is_loaded(
    settings: Settings,
    models: ResolvedModels,
    config: EngineConfig,
)
    requires
        models.main is Ok,
        models.light is Ok,
    ensures
        settings_request(settings, models, config) matches Ok(request) && {
            let main = models.main->Ok_0@;
            let light = models.light->Ok_0@;
            match settings.conversion.strategy {
                StrategyMode::Main => {
                    &&& main_variant_of(request) == main
                    &&& light_variant_of(request) is None
                    &&& request.light_variant is None
                },
                StrategyMode::Light => {
                    &&& main_variant_of(request) == light
                    &&& light_variant_of(request) is None
                    &&& request.light_variant matches Some(variant) && variant@ == light
                    &&& request.main_variant@ == main
                },
                StrategyMode::Adaptive => {
                    &&& main_variant_of(request) == main
                    &&& light_variant_of(request) == Some(light)
                },
            }
        },
{
}

/// Whatever the settings, a request names the main model, keeps the strategy
/// and the number of threads of the settings, and carries the configuration.
/// Only an unknown main model, or an unknown light model that has to take its
/// place, is an error, and it is reported with its own words.
pub proof fn law_what_the_settings_ask_for(
    settings: Settings,
    models: ResolvedModels,
    config: EngineConfig,
)
    ensures
        ({
            let asked = settings_request(settings, models, config);
            let light_needed = settings.conversion.strategy == StrategyMode::Light;
            &&& asked is Ok <==> models.main is Ok && !(light_needed && models.light is Err)
            &&& asked matches Ok(request) ==> {
                &&& request.main_variant == models.main->Ok_0
                &&& request.strategy == settings.conversion.strategy
                &&& request.n_threads == settings.conversion.n_threads
                &&& request.config == config
            }
            &&& models.main matches Err(error) ==> asked == Err::<InitRequest, InitError>(
                InitError::InvalidModel(error),
            )
            &&& models.main is Ok && light_needed ==> (models.light matches Err(error) ==> asked
                == Err::<InitRequest, InitError>(InitError::InvalidLightModel(error)))
        }),
{
}

/// The registry is asked for the configured main model, and for the configured
/// light model where the strategy has one.
pub proof fn law_configured_models_are_looked_up<F: Fn(Option<&str>) -> Result<String, String>>(
    resolve: F,
    settings: Settings,
    models: ResolvedModels,
)
    requires
        resolves_to(resolve, settings, models),
    ensures
        exists|name: Option<&str>|
            {
                &&& #[trigger] resolve.ensures((name,), models.main)
                &&& name is Some <==> settings.conversion.model is Some
                &&& name is Some ==> name->0@ == settings.conversion.model->0@
            },
        models.main is Ok && settings.conversion.strategy != StrategyMode::Main ==> exists|
            name: Option<&str>,
        |
            {
                &&& #[trigger] resolve.ensures((name,), models.light)
                &&& name is Some <==> settings.conversion.light_model is Some
                &&& name is Some ==> name->0@ == settings.conversion.light_model->0@
            },
{
    let name = choose|name: Option<&str>|
        text_view(settings.conversion.model) == (match name {
            Some(name) => Some(name@),
            None => None,
        }) && #[trigger] resolve.ensures((name,), models.main);
    assert(resolve.ensures((name,), models.main));
    if models.main is Ok && settings.conversion.strategy != StrategyMode::Main {
        let name = choose|name: Option<&str>|
            text_view(settings.conversion.light_model) == (match name {
                Some(name) => Some(name@),
                None => None,
            }) && #[trigger] resolve.ensures((name,), models.light);
        assert(resolve.ensures((name,), models.light));
    }
}

/// A queued initialization hands the worker the request of the settings under
/// a new epoch, and waits for a loader of what is missing. An error leaves
/// engine and worker as they were.
pub proof fn law_queued_initialization<D, L>(
    engine: InputMethodEngine<D, L>,
    worker: WorkerView,
    settings: Settings,
    models: ResolvedModels,
    config: EngineConfig,
    report: AssetReport<D, L>,
    after: InputMethodEngine<D, L>,
    worker_after: WorkerView,
    queued: Result<QueuedInit, InitError>,
)
    requires
        engine.queues_init(
            worker,
            settings,
            models,
            config,
            report,
            after,
            worker_after,
            queued,
        ),
    ensures
        queued is Ok <==> settings_request(settings, models, config) is Ok,
        queued matches Ok(init) ==> {
            let polled = engine.after_assets(report);
            &&& worker_after == worker.begin_init(settings_request(settings, models, config)->Ok_0)
            &&& init.epoch == worker_after.current_init_epoch
            &&& after.pending_init_assets
            &&& after == (InputMethodEngine { pending_init_assets: true, ..polled })
            &&& init.assets is None <==> polled.pending_init_assets
            &&& init.assets matches Some(plan) ==> {
                &&& plan.load_system <==> polled.dicts.system is None
                &&& plan.load_user <==> polled.dicts.user is None
                &&& plan.load_learning <==> settings.learning.enabled && polled.learning is None
            }
        },
        queued matches Err(error) ==> {
            &&& after == engine
            &&& worker_after == worker
            &&& settings_request(settings, models, config) == Err::<InitRequest, InitError>(error)
        },
{
}

/// A single model is loaded as the main model, and a light model beside the
/// default one in adaptive mode, with the configuration of the engine. A model
/// that is not known changes nothing.
pub proof fn law_single_models<D, L>(
    engine: InputMethodEngine<D, L>,
    worker: WorkerView,
    model: Result<String, String>,
    default_model: String,
    n_threads: u32,
    main_after: WorkerView,
    main_started: Result<u64, InitError>,
    light_after: WorkerView,
    light_started: Result<u64, InitError>,
)
    requires
        engine.loads_model(worker, model, n_threads, main_after, main_started),
        engine.loads_light_model(
            worker,
            default_model,
            model,
            n_threads,
            light_after,
            light_started,
        ),
    ensures
        model matches Ok(variant) ==> {
            &&& main_after.pending_init matches Some((epoch, request)) && {
                &&& main_after == worker.begin_init(request)
                &&& main_started == Ok::<u64, InitError>(epoch)
                &&& main_variant_of(request) == variant@
                &&& light_variant_of(request) is None
                &&& request.n_threads == n_threads
                &&& request.config == engine.config
            }
            &&& light_after.pending_init matches Some((epoch, request)) && {
                &&& light_after == worker.begin_init(request)
                &&& light_started == Ok::<u64, InitError>(epoch)
                &&& main_variant_of(request) == default_model@
                &&& light_variant_of(request) == Some(variant@)
                &&& request.n_threads == n_threads
                &&& request.config == engine.config
            }
        },
        model matches Err(error) ==> {
            &&& main_after == worker && light_after == worker
            &&& main_started == Err::<u64, InitError>(InitError::UnknownVariant(error))
            &&& light_started == Err::<u64, InitError>(InitError::UnknownVariant(error))
        },
{
}

/// The worker loads the light variant in place of the main one exactly in
/// light mode, and beside it exactly in adaptive mode, where there is one.
pub proof fn law_variants_to_load(request: InitRequest)
    ensures
        ({
            let light = request.light_variant;
            &&& request.strategy == StrategyMode::Light && light is Some ==> main_variant_of(
                request,
            ) == light->0@
            &&& request.strategy != StrategyMode::Light || light is None ==> main_variant_of(
                request,
            ) == request.main_variant@
            &&& request.strategy == StrategyMode::Adaptive && light is Some ==> light_variant_of(
                request,
            ) == Some(light->0@)
            &&& request.strategy != StrategyMode::Adaptive || light is None ==> light_variant_of(
                request,
            ) is None
        }),
{
}

/// A model comes from the factory for its variant and number of threads. The
/// light model is there exactly if the factory could build it.
pub proof fn law_models_come_from_the_factory<B, F: Fn(&str, u32) -> Result<B, String>>(
    factory: F,
    variant: Seq<char>,
    n_threads: u32,
    result: Result<B, String>,
    request: InitRequest,
    light: Option<B>,
)
    requires
        may_build(factory, variant, n_threads, result),
        may_be_light(factory, request, light),
    ensures
        exists|name: &str| name@ == variant && #[trigger] factory.ensures((name, n_threads), result),
        light_variant_of(request) is None ==> light is None,
        light_variant_of(request) matches Some(wanted) ==> exists|
            name: &str,
            built: Result<B, String>,
        |
            {
                &&& name@ == wanted
                &&& #[trigger] factory.ensures((name, request.n_threads), built)
                &&& built matches Ok(model) ==> light == Some(model)
                &&& built is Err ==> light is None
            },
{
    if let Some(wanted) = light_variant_of(request) {
        let built = choose|built: Result<B, String>| #[trigger]
            may_build(factory, wanted, request.n_threads, built) && light == built_model(built);
        let name = choose|name: &str|
            name@ == wanted && #[trigger] factory.ensures((name, request.n_threads), built);
        assert(factory.ensures((name, request.n_threads), built));
    }
}

/// A loader that is awaited and done fills what is missing, each from what it
/// brought, and is awaited no longer. A loader at work, or one that nobody
/// waits for, changes nothing; one that broke down brings nothing. Nothing but
/// dictionaries and learning cache changes, and a report that was heard is
/// gone.
pub proof fn law_what_a_loader_brings<D, L>(
    engine: InputMethodEngine<D, L>,
    report: AssetReport<D, L>,
    assets: InitAssets<D, L>,
)
    ensures
        ({
            let after = engine.after_assets(report);
            &&& !engine.pending_init_assets || report is Running ==> after == engine
            &&& engine.pending_init_assets && report is Failed ==> after == (InputMethodEngine {
                pending_init_assets: false,
                ..engine
            })
            &&& engine.pending_init_assets && report == AssetReport::Finished(assets) ==> {
                &&& !after.pending_init_assets
                &&& engine.dicts.system is None ==> after.dicts.system == assets.system
                &&& engine.dicts.user is None ==> after.dicts.user == assets.user
                &&& engine.learning is None ==> after.learning == assets.learning
                &&& engine.dicts.system is Some ==> after.dicts.system == engine.dicts.system
                &&& engine.dicts.user is Some ==> after.dicts.user == engine.dicts.user
                &&& engine.learning is Some ==> after.learning == engine.learning
            }
            &&& after == (InputMethodEngine {
                dicts: after.dicts,
                learning: after.learning,
                pending_init_assets: after.pending_init_assets,
                ..engine
            })
        }),
        engine.pending_init_assets ==> engine.report_left(report) is Running,
        !engine.pending_init_assets ==> engine.report_left(report) == report,
{
}

/// The system dictionary is looked for at the configured path, or else in the
/// data directory, and nowhere without either. It is there exactly if it could
/// be loaded from there.
pub proof fn law_system_dictionary<D, F: FnOnce(DictionaryLocation) -> FileLoad<D>>(
    dict_path: Option<&str>,
    has_data_dir: bool,
    load: F,
    dictionary: Option<D>,
    location: Option<DictionaryLocation>,
)
    requires
        may_load_system(dict_path, has_data_dir, load, dictionary),
        is_located(dict_path, has_data_dir, location),
    ensures
        dict_path matches Some(path) ==> location matches Some(DictionaryLocation::Configured(own))
            && own@ == path@,
        dict_path is None && has_data_dir ==> location == Some(DictionaryLocation::DataDir),
        dict_path is None && !has_data_dir ==> location is None && dictionary is None,
        dict_path is Some || has_data_dir ==> exists|place: DictionaryLocation, read: FileLoad<D>|
            {
                &&& #[trigger] load.ensures((place,), read)
                &&& dict_path matches Some(path) ==> place matches DictionaryLocation::Configured(
                    own,
                ) && own@ == path@
                &&& dict_path is None ==> place is DataDir
                &&& read matches FileLoad::Loaded(found) ==> dictionary == Some(found)
                &&& !(read is Loaded) ==> dictionary is None
            },
{
    if dict_path is Some || has_data_dir {
        let (place, read) = choose|place: DictionaryLocation, read: FileLoad<D>|
            is_located(dict_path, has_data_dir, Some(place)) && #[trigger] load.ensures(
                (place,),
                read,
            ) && dictionary == loaded(read);
        assert(load.ensures((place,), read));
    }
}

/// With learning on there is always a cache: the stored one if it could be
/// loaded, and an empty one of the same size otherwise. With learning off
/// there is none.
pub proof fn law_learning_cache<L, F: FnOnce(usize) -> FileLoad<L>, N: FnOnce(usize) -> L>(
    enabled: bool,
    max_entries: usize,
    load: F,
    new_cache: N,
    cache: Option<L>,
)
    requires
        may_load_learning(enabled, max_entries, load, new_cache, cache),
    ensures
        cache is Some <==> enabled,
        enabled ==> exists|read: FileLoad<L>|
            {
                &&& #[trigger] load.ensures((max_entries,), read)
                &&& read matches FileLoad::Loaded(stored) ==> cache == Some(stored)
                &&& !(read is Loaded) ==> new_cache.ensures((max_entries,), cache->0)
            },
{
    if enabled {
        let read = choose|read: FileLoad<L>| #[trigger]
            load.ensures((max_entries,), read) && match read {
                FileLoad::Loaded(stored) => cache == Some(stored),
                _ => cache matches Some(empty) && new_cache.ensures((max_entries,), empty),
            };
        assert(load.ensures((max_entries,), read));
    }
}

/// A name comes before another if, at the first place where they differ, it
/// has ended or has the smaller byte.
pub proof fn law_names_are_compared_by_their_bytes(a: Seq<u8>, b: Seq<u8>, k: int)
    requires
        0 <= k <= a.len(),
        k <= b.len(),
        forall|i: int| 0 <= i < k ==> #[trigger] a[i] == b[i],
    ensures
        k == a.len() ==> (name_before(a, b) <==> k < b.len()),
        k < a.len() && k == b.len() ==> !name_before(a, b),
        k < a.len() && k < b.len() && a[k] != b[k] ==> (name_before(a, b) <==> a[k] < b[k]),
    decreases k,
{
    if k > 0 {
        assert(a[0] == b[0]);
        let (x, y) = (a.drop_first(), b.drop_first());
        assert forall|i: int| 0 <= i < k - 1 implies #[trigger] x[i] == y[i] by {
            assert(a[i + 1] == b[i + 1]);
        }
        law_names_are_compared_by_their_bytes(x, y, k - 1);
    }
}

/// The dictionaries of files are those that could be loaded, file by file;
/// there is none exactly if no file could be loaded.
pub proof fn law_usable_files<D>(
    a: Seq<DictionaryFile<D>>,
    b: Seq<DictionaryFile<D>>,
    file: DictionaryFile<D>,
)
    ensures
        usable(Seq::<DictionaryFile<D>>::empty()) == Seq::<D>::empty(),
        usable(seq![file]) == match file.load {
            Ok(dictionary) => seq![dictionary],
            Err(_) => Seq::empty(),
        },
        usable(a + b) == usable(a) + usable(b),
        none_usable(b) <==> forall|i: int| 0 <= i < b.len() ==> (#[trigger] b[i]).load is Err,
    decreases b.len(),
{
    reveal_with_fuel(Seq::<_>::filter_map::<_>, 2);
    assert(seq![file].drop_last() =~= Seq::empty());
    assert(seq![file].last() == file);
    assert(usable(Seq::<DictionaryFile<D>>::empty()) =~= Seq::<D>::empty());
    if b.len() == 0 {
        assert(a + b =~= a);
        assert(usable(a) + usable(b) =~= usable(a));
    } else {
        law_usable_files(a, b.drop_last(), file);
        assert((a + b).drop_last() =~= a + b.drop_last());
        assert((a + b).last() == b.last());
        assert(usable(a + b) =~= usable(a) + usable(b));
    }
}

/// The dictionaries to merge come from the same files, each as often, put in
/// the order of their names. The merged dictionary is what merging them gave;
/// a failure gives none.
pub proof fn law_user_dictionaries<D, M: FnOnce(Vec<D>) -> Result<Option<D>, String>>(
    files: Seq<DictionaryFile<D>>,
    merge: M,
    dictionary: Option<D>,
)
    requires
        may_merge(files, merge, dictionary),
    ensures
        exists|order: Seq<DictionaryFile<D>>, dictionaries: Vec<D>, result: Result<
            Option<D>,
            String,
        >|
            {
                &&& #[trigger] order.to_multiset() == files.to_multiset()
                &&& forall|i: int, j: int|
                    0 <= i < j < order.len() ==> !name_before(
                        (#[trigger] order[j]).name@,
                        (#[trigger] order[i]).name@,
                    )
                &&& dictionaries@ == usable(order)
                &&& #[trigger] merge.ensures((dictionaries,), result)
                &&& result matches Ok(found) ==> dictionary == found
                &&& result is Err ==> dictionary is None
            },
{
    let (dictionaries, result) = choose|dictionaries: Vec<D>, result: Result<Option<D>, String>|
        is_dictionaries_of(files, dictionaries@) && #[trigger] merge.ensures(
            (dictionaries,),
            result,
        ) && dictionary == merged(result);
    let order = choose|order: Seq<DictionaryFile<D>>| #[trigger]
        is_load_order(files, order) && dictionaries@ == usable(order);
    assert(order.to_multiset() == files.to_multiset());
    assert(sorted_by_name(order));
    assert(merge.ensures((dictionaries,), result));
}

/// A model id, or its absence, is what the registry is asked for.
pub proof fn law_registry_is_asked_for_the_id<F: Fn(Option<&str>) -> Result<String, String>>(
    resolve: F,
    id: Option<Seq<char>>,
    resolved: Result<String, String>,
)
    requires
        may_resolve(resolve, id, resolved),
    ensures
        exists|name: Option<&str>|
            {
                &&& #[trigger] resolve.ensures((name,), resolved)
                &&& name is Some <==> id is Some
                &&& name is Some ==> name->0@ == id->0
            },
{
    let name = choose|name: Option<&str>|
        id == (match name {
            Some(name) => Some(name@),
            None => None,
        }) && #[trigger] resolve.ensures((name,), resolved);
    assert(resolve.ensures((name,), resolved));
}

/// An initialization from the settings is queued with the models that the
/// registry has for them and with the given default, and a model is loaded by
/// its id as the registry resolves it.
pub proof fn law_registry_decides<D, L, F: Fn(Option<&str>) -> Result<String, String>>(
    engine: InputMethodEngine<D, L>,
    worker: WorkerView,
    settings: Settings,
    resolve: F,
    default_model: String,
    config: EngineConfig,
    report: AssetReport<D, L>,
    after: InputMethodEngine<D, L>,
    worker_after: WorkerView,
    queued: Result<QueuedInit, InitError>,
    id: Seq<char>,
    n_threads: u32,
    loading: WorkerView,
    started: Result<u64, InitError>,
)
    requires
        engine.queues_settings(
            worker,
            settings,
            resolve,
            default_model,
            config,
            report,
            after,
            worker_after,
            queued,
        ),
        engine.loads_model_by_id(worker, resolve, id, n_threads, loading, started),
    ensures
        exists|models: ResolvedModels|
            {
                &&& #[trigger] resolves_to(resolve, settings, models)
                &&& models.default_model == default_model
                &&& engine.queues_init(
                    worker,
                    settings,
                    models,
                    config,
                    report,
                    after,
                    worker_after,
                    queued,
                )
            },
        exists|main: Result<String, String>|
            {
                &&& #[trigger] may_resolve(resolve, Some(id), main)
                &&& engine.loads_model(worker, main, n_threads, loading, started)
            },
{
}

} // verus!
