//! Initialization of the engine: models, dictionaries and learning cache.
//!
//! Models are loaded by the conversion worker; dictionaries and the learning
//! cache by a loader of their own. The engine decides what to load and takes
//! what they bring.

use vstd::prelude::*;

use crate::conversion::{EngineConfig, StrategyMode};
use crate::engine::{Dictionaries, InputMethodEngine};
use crate::worker::{text_view, InitRequest, WorkerState, WorkerView};

verus! {

/// Settings of the conversion models and the system dictionary.
#[derive(Debug, PartialEq, Eq)]
pub struct ConversionSettings {
    pub strategy: StrategyMode,
    pub model: Option<String>,
    pub light_model: Option<String>,
    /// Zero leaves the number of threads to the model.
    pub n_threads: u32,
    pub dict_path: Option<String>,
}

/// Settings of the learning cache.
#[derive(Debug, Clone, Copy, PartialEq, Eq, Structural)]
pub struct LearningSettings {
    pub enabled: bool,
    pub max_entries: usize,
}

/// The user's settings.
#[derive(Debug, PartialEq, Eq)]
pub struct Settings {
    pub conversion: ConversionSettings,
    pub learning: LearningSettings,
}

/// Why an initialization did not succeed.
#[derive(Debug, PartialEq, Eq)]
pub enum InitError {
    /// The configured main model is not known.
    InvalidModel(String),
    /// The configured light model is not known.
    InvalidLightModel(String),
    /// The requested model is not known.
    UnknownVariant(String),
    /// The models could not be loaded.
    Failed(String),
}

/// The configured models, looked up in the registry.
#[derive(Debug, PartialEq, Eq)]
pub struct ResolvedModels {
    pub main: Result<String, String>,
    pub light: Result<String, String>,
    pub default_model: String,
}

/// What the loader is to load.
#[derive(Debug, Clone, Copy, PartialEq, Eq, Structural)]
pub struct AssetPlan {
    pub load_system: bool,
    pub load_user: bool,
    pub load_learning: bool,
}

/// An initialization under way.
#[derive(Debug, Clone, Copy, PartialEq, Eq, Structural)]
pub struct QueuedInit {
    /// The epoch of the worker's part.
    pub epoch: u64,
    /// What a new loader is to load; nothing if one is at work already.
    pub assets: Option<AssetPlan>,
}

/// What the loader brought.
#[derive(Debug)]
pub struct InitAssets<D, L> {
    pub system: Option<D>,
    pub user: Option<D>,
    pub learning: Option<L>,
}

/// How far the loader is.
#[derive(Debug)]
pub enum AssetReport<D, L> {
    /// It is still at work, or there is none.
    Running,
    Finished(InitAssets<D, L>),
    /// It broke down.
    Failed,
}

/// What is there already stays; otherwise the new one is taken.
pub open spec fn keep_or<T>(present: Option<T>, loaded: Option<T>) -> Option<T> {
    match present {
        Some(_) => present,
        None => loaded,
    }
}

/// The variant to load as the light model. In adaptive mode the default
/// stands in for one that is not known.
pub open spec fn light_choice(strategy: StrategyMode, models: ResolvedModels) -> Result<
    Option<String>,
    String,
> {
    match (strategy, models.light) {
        (StrategyMode::Main, _) => Ok(None),
        (_, Ok(variant)) => Ok(Some(variant)),
        (StrategyMode::Adaptive, Err(_)) => Ok(Some(models.default_model)),
        (StrategyMode::Light, Err(error)) => Err(error),
    }
}

/// The request to the worker that the settings amount to.
pub open spec fn settings_request(
    settings: Settings,
    models: ResolvedModels,
    config: EngineConfig,
) -> Result<InitRequest, InitError> {
    match (models.main, light_choice(settings.conversion.strategy, models)) {
        (Err(error), _) => Err(InitError::InvalidModel(error)),
        (Ok(_), Err(error)) => Err(InitError::InvalidLightModel(error)),
        (Ok(main_variant), Ok(light_variant)) => Ok(
            InitRequest {
                main_variant,
                light_variant,
                strategy: settings.conversion.strategy,
                n_threads: settings.conversion.n_threads,
                config,
            },
        ),
    }
}

/// The registry may resolve the id of a model, or the absence of one, like
/// this.
pub open spec fn may_resolve<F: Fn(Option<&str>) -> Result<String, String>>(
    resolve: F,
    id: Option<Seq<char>>,
    resolved: Result<String, String>,
) -> bool {
    exists|name: Option<&str>|
        id == (match name {
            Some(name) => Some(name@),
            None => None,
        }) && #[trigger] resolve.ensures((name,), resolved)
}

/// The models are what the registry made of the settings. The light model is
/// only looked up where it is wanted.
pub open spec fn resolves_to<F: Fn(Option<&str>) -> Result<String, String>>(
    resolve: F,
    settings: Settings,
    models: ResolvedModels,
) -> bool {
    &&& may_resolve(resolve, text_view(settings.conversion.model), models.main)
    &&& models.main is Ok && settings.conversion.strategy != StrategyMode::Main ==> may_resolve(
        resolve,
        text_view(settings.conversion.light_model),
        models.light,
    )
}

fn resolve_setting<F: Fn(Option<&str>) -> Result<String, String>>(
    resolve: &F,
    id: &Option<String>,
) -> (r: Result<String, String>)
    requires
        forall|name: Option<&str>| #[trigger] resolve.requires((name,)),
    ensures
        may_resolve(*resolve, text_view(*id), r),
{
    let name: Option<&str> = match id {
        Some(id) => Some(id.as_str()),
        None => None,
    };
    resolve(name)
}

/// Looks up the configured models.
fn resolve_models<F: Fn(Option<&str>) -> Result<String, String>>(
    settings: &Settings,
    resolve: &F,
    default_model: String,
) -> (r: ResolvedModels)
    requires
        forall|name: Option<&str>| #[trigger] resolve.requires((name,)),
    ensures
        resolves_to(*resolve, *settings, r),
        r.default_model == default_model,
{
    let main = resolve_setting(resolve, &settings.conversion.model);
    let light = if main.is_ok() && settings.conversion.strategy != StrategyMode::Main {
        resolve_setting(resolve, &settings.conversion.light_model)
    } else {
        Ok(default_model.clone())
    };
    ResolvedModels { main, light, default_model }
}

/// The request to the worker that the settings amount to, or what is wrong
/// with them.
pub fn init_request(settings: &Settings, models: ResolvedModels, config: EngineConfig) -> (r: Result<
    InitRequest,
    InitError,
>)
    ensures
        r == settings_request(*settings, models, config),
{
    let strategy = settings.conversion.strategy;
    let main_variant = match models.main {
        Ok(variant) => variant,
        Err(error) => {
            return Err(InitError::InvalidModel(error));
        },
    };
    let light_variant = match strategy {
        StrategyMode::Main => None,
        StrategyMode::Adaptive | StrategyMode::Light => match models.light {
            Ok(variant) => Some(variant),
            Err(error) => {
                if strategy == StrategyMode::Light {
                    return Err(InitError::InvalidLightModel(error));
                }
                Some(models.default_model)
            },
        },
    };
    Ok(
        InitRequest {
            main_variant,
            light_variant,
            strategy,
            n_threads: settings.conversion.n_threads,
            config,
        },
    )
}

/// What the worker's report on an initialization means to the caller.
pub fn init_outcome(outcome: Result<(), String>) -> (r: Result<(), InitError>)
    ensures
        r == match outcome {
            Ok(()) => Ok(()),
            Err(error) => Err(InitError::Failed(error)),
        },
{
    match outcome {
        Ok(()) => Ok(()),
        Err(error) => Err(InitError::Failed(error)),
    }
}

impl<D, L> InputMethodEngine<D, L> {
    /// The engine with the assets, no longer waiting for a loader.
    pub open spec fn with_assets(self, assets: InitAssets<D, L>) -> Self {
        InputMethodEngine {
            dicts: Dictionaries {
                system: keep_or(self.dicts.system, assets.system),
                user: keep_or(self.dicts.user, assets.user),
            },
            learning: keep_or(self.learning, assets.learning),
            pending_init_assets: false,
            ..self
        }
    }

    /// The engine once it has heard from the loader it waits for.
    pub open spec fn after_assets(self, report: AssetReport<D, L>) -> Self {
        match report {
            AssetReport::Finished(assets) if self.pending_init_assets => self.with_assets(assets),
            AssetReport::Failed if self.pending_init_assets => InputMethodEngine {
                pending_init_assets: false,
                ..self
            },
            _ => self,
        }
    }

    /// What is left of the report once the engine has heard it.
    pub open spec fn report_left(self, report: AssetReport<D, L>) -> AssetReport<D, L> {
        if self.pending_init_assets {
            AssetReport::Running
        } else {
            report
        }
    }

    /// What a loader started now would load: what is missing and wanted.
    pub open spec fn missing_assets(self, settings: Settings) -> AssetPlan {
        AssetPlan {
            load_system: self.dicts.system is None,
            load_user: self.dicts.user is None,
            load_learning: settings.learning.enabled && self.learning is None,
        }
    }

    /// The loader to start: none while another is at work.
    pub open spec fn asset_plan(self, settings: Settings) -> Option<AssetPlan> {
        if self.pending_init_assets {
            None
        } else {
            Some(self.missing_assets(settings))
        }
    }

    fn install_assets(&mut self, assets: InitAssets<D, L>)
        ensures
            *final(self) == old(self).with_assets(assets),
    {
        if self.dicts.system.is_none() {
            self.dicts.system = assets.system;
        }
        if self.dicts.user.is_none() {
            self.dicts.user = assets.user;
        }
        if self.learning.is_none() {
            self.learning = assets.learning;
        }
        self.pending_init_assets = false;
    }

    /// Takes what the loader brought, if the engine waits for it and it is
    /// done. What is there already stays.
    pub fn poll_init_assets(&mut self, report: &mut AssetReport<D, L>)
        ensures
            *final(self) == old(self).after_assets(*old(report)),
            *final(report) == old(self).report_left(*old(report)),
    {
        if !self.pending_init_assets {
            return ;
        }
        let mut heard: AssetReport<D, L> = AssetReport::Running;
        std::mem::swap(report, &mut heard);
        match heard {
            AssetReport::Finished(assets) => self.install_assets(assets),
            AssetReport::Failed => {
                self.pending_init_assets = false;
            },
            AssetReport::Running => {},
        }
    }

    /// Takes what the loader brought in the end; nothing if it broke down.
    pub fn wait_for_init_assets(&mut self, assets: Option<InitAssets<D, L>>)
        ensures
            *final(self) == old(self).after_assets(
                match assets {
                    Some(assets) => AssetReport::Finished(assets),
                    None => AssetReport::Failed,
                },
            ),
    {
        let mut report = match assets {
            Some(assets) => AssetReport::Finished(assets),
            None => AssetReport::Failed,
        };
        self.poll_init_assets(&mut report);
    }

    /// Waits for a loader from now on: the one at work, or the one that the
    /// returned plan is for.
    pub fn queue_init_assets(&mut self, settings: &Settings, report: &mut AssetReport<D, L>) -> (r:
        Option<AssetPlan>)
        ensures
            r == old(self).after_assets(*old(report)).asset_plan(*settings),
            *final(self) == (InputMethodEngine {
                pending_init_assets: true,
                ..old(self).after_assets(*old(report))
            }),
            *final(report) == old(self).report_left(*old(report)),
    {
        self.poll_init_assets(report);
        if self.pending_init_assets {
            return None;
        }
        self.pending_init_assets = true;
        Some(
            AssetPlan {
                load_system: self.dicts.system.is_none(),
                load_user: self.dicts.user.is_none(),
                load_learning: settings.learning.enabled && self.learning.is_none(),
            },
        )
    }
}

impl<D, L> InputMethodEngine<D, L> {
    /// What queueing an initialization does to the engine and the worker, and
    /// what it answers. Invalid settings change nothing.
    pub open spec fn queues_init(
        self,
        worker: WorkerView,
        settings: Settings,
        models: ResolvedModels,
        config: EngineConfig,
        report: AssetReport<D, L>,
        after: Self,
        worker_after: WorkerView,
        queued: Result<QueuedInit, InitError>,
    ) -> bool {
        match settings_request(settings, models, config) {
            Ok(request) => {
                let polled = self.after_assets(report);
                &&& worker_after == worker.begin_init(request)
                &&& after == (InputMethodEngine { pending_init_assets: true, ..polled })
                &&& queued == Ok::<QueuedInit, InitError>(
                    QueuedInit {
                        epoch: worker_after.current_init_epoch,
                        assets: polled.asset_plan(settings),
                    },
                )
            },
            Err(error) => {
                &&& worker_after == worker
                &&& after == self
                &&& queued == Err::<QueuedInit, InitError>(error)
            },
        }
    }

    /// Queues an initialization with models that have been looked up: a
    /// loader, and the worker's part. Invalid settings change nothing.
    pub fn queue_resolved_init(
        &mut self,
        worker: &mut WorkerState,
        settings: &Settings,
        models: ResolvedModels,
        config: EngineConfig,
        report: &mut AssetReport<D, L>,
    ) -> (r: Result<QueuedInit, InitError>)
        ensures
            old(self).queues_init(
                old(worker)@,
                *settings,
                models,
                config,
                *old(report),
                *final(self),
                final(worker)@,
                r,
            ),
            *final(report) == if r is Ok {
                old(self).report_left(*old(report))
            } else {
                *old(report)
            },
    {
        let request = match init_request(settings, models, config) {
            Ok(request) => request,
            Err(error) => {
                return Err(error);
            },
        };
        let assets = self.queue_init_assets(settings, report);
        let epoch: u64 = worker.begin_init(request);
        Ok(QueuedInit { epoch, assets })
    }

    /// What queueing an initialization from the settings does, with whatever
    /// models the registry has for them.
    pub open spec fn queues_settings<F: Fn(Option<&str>) -> Result<String, String>>(
        self,
        worker: WorkerView,
        settings: Settings,
        resolve: F,
        default_model: String,
        config: EngineConfig,
        report: AssetReport<D, L>,
        after: Self,
        worker_after: WorkerView,
        queued: Result<QueuedInit, InitError>,
    ) -> bool {
        exists|models: ResolvedModels| #[trigger]
            resolves_to(resolve, settings, models) && models.default_model == default_model
                && self.queues_init(
                worker,
                settings,
                models,
                config,
                report,
                after,
                worker_after,
                queued,
            )
    }

    /// Queues an initialization from the user's settings; `resolve` looks up
    /// the id of a model. In adaptive mode a light model that is not known is
    /// replaced by the default model. Invalid settings change nothing.
    pub fn queue_init_from_settings<F: Fn(Option<&str>) -> Result<String, String>>(
        &mut self,
        worker: &mut WorkerState,
        settings: &Settings,
        resolve: &F,
        default_model: String,
        config: EngineConfig,
        report: &mut AssetReport<D, L>,
    ) -> (r: Result<QueuedInit, InitError>)
        requires
            forall|name: Option<&str>| #[trigger] resolve.requires((name,)),
        ensures
            old(self).queues_settings(
                old(worker)@,
                *settings,
                *resolve,
                default_model,
                config,
                *old(report),
                *final(self),
                final(worker)@,
                r,
            ),
            *final(report) == if r is Ok {
                old(self).report_left(*old(report))
            } else {
                *old(report)
            },
    {
        let models = resolve_models(settings, resolve, default_model);
        self.queue_resolved_init(worker, settings, models, config, report)
    }

    /// Starts an initialization that the caller waits for: for the worker to
    /// know the outcome of the epoch, then for the loader. Both go to
    /// [`InputMethodEngine::complete_init`].
    pub fn init_from_settings<F: Fn(Option<&str>) -> Result<String, String>>(
        &mut self,
        worker: &mut WorkerState,
        settings: &Settings,
        resolve: &F,
        default_model: String,
        config: EngineConfig,
        report: &mut AssetReport<D, L>,
    ) -> (r: Result<QueuedInit, InitError>)
        requires
            forall|name: Option<&str>| #[trigger] resolve.requires((name,)),
        ensures
            old(self).queues_settings(
                old(worker)@,
                *settings,
                *resolve,
                default_model,
                config,
                *old(report),
                *final(self),
                final(worker)@,
                r,
            ),
            *final(report) == if r is Ok {
                old(self).report_left(*old(report))
            } else {
                *old(report)
            },
    {
        self.queue_init_from_settings(worker, settings, resolve, default_model, config, report)
    }

    /// Ends an initialization that was waited for: takes what the loader
    /// brought, also where the models failed, and says how it went.
    pub fn complete_init(
        &mut self,
        outcome: Result<(), String>,
        assets: Option<InitAssets<D, L>>,
    ) -> (r: Result<(), InitError>)
        ensures
            *final(self) == old(self).after_assets(
                match assets {
                    Some(assets) => AssetReport::Finished(assets),
                    None => AssetReport::Failed,
                },
            ),
            r == match outcome {
                Ok(()) => Ok(()),
                Err(error) => Err(InitError::Failed(error)),
            },
    {
        self.wait_for_init_assets(assets);
        init_outcome(outcome)
    }

    /// Starts an initialization that nobody waits for. Returns what a new
    /// loader is to load, if one is needed.
    pub fn begin_init_from_settings<F: Fn(Option<&str>) -> Result<String, String>>(
        &mut self,
        worker: &mut WorkerState,
        settings: &Settings,
        resolve: &F,
        default_model: String,
        config: EngineConfig,
        report: &mut AssetReport<D, L>,
    ) -> (r: Result<Option<AssetPlan>, InitError>)
        requires
            forall|name: Option<&str>| #[trigger] resolve.requires((name,)),
        ensures
            old(self).queues_settings(
                old(worker)@,
                *settings,
                *resolve,
                default_model,
                config,
                *old(report),
                *final(self),
                final(worker)@,
                match r {
                    Ok(assets) => Ok(
                        QueuedInit { epoch: final(worker)@.current_init_epoch, assets },
                    ),
                    Err(error) => Err(error),
                },
            ),
            *final(report) == if r is Ok {
                old(self).report_left(*old(report))
            } else {
                *old(report)
            },
    {
        match self.queue_init_from_settings(
            worker,
            settings,
            resolve,
            default_model,
            config,
            report,
        ) {
            Ok(queued) => Ok(queued.assets),
            Err(error) => Err(error),
        }
    }

    /// What starting to load a model does to the worker, and what it answers.
    pub open spec fn loads_model(
        self,
        worker: WorkerView,
        main: Result<String, String>,
        n_threads: u32,
        worker_after: WorkerView,
        started: Result<u64, InitError>,
    ) -> bool {
        match main {
            Ok(main_variant) => {
                &&& worker_after == worker.begin_init(
                    InitRequest {
                        main_variant,
                        light_variant: None,
                        strategy: StrategyMode::Main,
                        n_threads,
                        config: self.config,
                    },
                )
                &&& started == Ok::<u64, InitError>(worker_after.current_init_epoch)
            },
            Err(error) => {
                &&& worker_after == worker
                &&& started == Err::<u64, InitError>(InitError::UnknownVariant(error))
            },
        }
    }

    /// Starts to load a model that has been looked up. Returns the epoch to
    /// wait for; a model that is not known changes nothing.
    pub fn begin_model_init(
        &self,
        worker: &mut WorkerState,
        main: Result<String, String>,
        n_threads: u32,
    ) -> (r: Result<u64, InitError>)
        ensures
            self.loads_model(old(worker)@, main, n_threads, final(worker)@, r),
    {
        match main {
            Ok(main_variant) => Ok(
                worker.begin_init(
                    InitRequest {
                        main_variant,
                        light_variant: None,
                        strategy: StrategyMode::Main,
                        n_threads,
                        config: self.config,
                    },
                ),
            ),
            Err(error) => Err(InitError::UnknownVariant(error)),
        }
    }

    /// What starting to load the model with this id does, whatever the
    /// registry has for it.
    pub open spec fn loads_model_by_id<F: Fn(Option<&str>) -> Result<String, String>>(
        self,
        worker: WorkerView,
        resolve: F,
        id: Seq<char>,
        n_threads: u32,
        worker_after: WorkerView,
        started: Result<u64, InitError>,
    ) -> bool {
        exists|main: Result<String, String>| #[trigger]
            may_resolve(resolve, Some(id), main) && self.loads_model(
                worker,
                main,
                n_threads,
                worker_after,
                started,
            )
    }

    /// Starts to load the default model, with as many threads as it likes.
    /// Returns the epoch to wait for.
    pub fn init_kanji_converter<F: Fn(Option<&str>) -> Result<String, String>>(
        &self,
        worker: &mut WorkerState,
        resolve: &F,
        default_model: &str,
    ) -> (r: Result<u64, InitError>)
        requires
            forall|name: Option<&str>| #[trigger] resolve.requires((name,)),
        ensures
            self.loads_model_by_id(
                old(worker)@,
                *resolve,
                default_model@,
                0,
                final(worker)@,
                r,
            ),
    {
        self.init_kanji_converter_with_model(worker, resolve, default_model, 0)
    }

    /// Starts to load a model. Returns the epoch to wait for.
    pub fn init_kanji_converter_with_model<F: Fn(Option<&str>) -> Result<String, String>>(
        &self,
        worker: &mut WorkerState,
        resolve: &F,
        variant_id: &str,
        n_threads: u32,
    ) -> (r: Result<u64, InitError>)
        requires
            forall|name: Option<&str>| #[trigger] resolve.requires((name,)),
        ensures
            self.loads_model_by_id(
                old(worker)@,
                *resolve,
                variant_id@,
                n_threads,
                final(worker)@,
                r,
            ),
    {
        let main = resolve(Some(variant_id));
        proof {
            assert(may_resolve(*resolve, Some(variant_id@), main));
        }
        self.begin_model_init(worker, main, n_threads)
    }

    /// What starting to load a light model beside the default one does to the
    /// worker, and what it answers.
    pub open spec fn loads_light_model(
        self,
        worker: WorkerView,
        default_model: String,
        light: Result<String, String>,
        n_threads: u32,
        worker_after: WorkerView,
        started: Result<u64, InitError>,
    ) -> bool {
        match light {
            Ok(light_variant) => {
                &&& worker_after == worker.begin_init(
                    InitRequest {
                        main_variant: default_model,
                        light_variant: Some(light_variant),
                        strategy: StrategyMode::Adaptive,
                        n_threads,
                        config: self.config,
                    },
                )
                &&& started == Ok::<u64, InitError>(worker_after.current_init_epoch)
            },
            Err(error) => {
                &&& worker_after == worker
                &&& started == Err::<u64, InitError>(InitError::UnknownVariant(error))
            },
        }
    }

    /// Starts to load a light model that has been looked up, beside the
    /// default model.
    pub fn begin_light_model_init(
        &self,
        worker: &mut WorkerState,
        default_model: String,
        light: Result<String, String>,
        n_threads: u32,
    ) -> (r: Result<u64, InitError>)
        ensures
            self.loads_light_model(
                old(worker)@,
                default_model,
                light,
                n_threads,
                final(worker)@,
                r,
            ),
    {
        match light {
            Ok(light_variant) => Ok(
                worker.begin_init(
                    InitRequest {
                        main_variant: default_model,
                        light_variant: Some(light_variant),
                        strategy: StrategyMode::Adaptive,
                        n_threads,
                        config: self.config,
                    },
                ),
            ),
            Err(error) => Err(InitError::UnknownVariant(error)),
        }
    }

    /// Starts to load a light model for several candidates, beside the
    /// default model. Returns the epoch to wait for.
    pub fn init_light_kanji_converter<F: Fn(Option<&str>) -> Result<String, String>>(
        &self,
        worker: &mut WorkerState,
        resolve: &F,
        default_model: String,
        variant_id: &str,
        n_threads: u32,
    ) -> (r: Result<u64, InitError>)
        requires
            forall|name: Option<&str>| #[trigger] resolve.requires((name,)),
        ensures
            exists|light: Result<String, String>| #[trigger]
                may_resolve(*resolve, Some(variant_id@), light) && self.loads_light_model(
                    old(worker)@,
                    default_model,
                    light,
                    n_threads,
                    final(worker)@,
                    r,
                ),
    {
        let light = resolve(Some(variant_id));
        proof {
            assert(may_resolve(*resolve, Some(variant_id@), light));
        }
        self.begin_light_model_init(worker, default_model, light, n_threads)
    }
}

} // verus!
