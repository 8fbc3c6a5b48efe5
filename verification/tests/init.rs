use std::cell::RefCell;

use karukan::assets::{
    load_assets, load_learning_cache, load_order, load_system_dictionary, load_user_dictionaries,
    system_dictionary_location, DictionaryFile, DictionaryLocation, FileLoad,
};
use karukan::conversion::{EngineConfig, InputMode, StrategyMode};
use karukan::engine::{
    Converters, Dictionaries, InputBuffer, InputMethodEngine, InputState, LiveConversion, Metrics,
    ModeState,
};
use karukan::init::{
    init_outcome, init_request, AssetPlan, AssetReport, ConversionSettings, InitAssets, InitError,
    LearningSettings, QueuedInit, ResolvedModels, Settings,
};
use karukan::worker::{InitRequest, WorkerState, WorkerStep};

type Engine = InputMethodEngine<String, String>;

fn config() -> EngineConfig {
    EngineConfig {
        strategy: StrategyMode::Main,
        num_candidates: 9,
        max_latency_ms: 0,
    }
}

fn engine() -> Engine {
    InputMethodEngine {
        input_buf: InputBuffer {
            text: String::new(),
            cursor_pos: 0,
        },
        mode: ModeState {
            current: InputMode::Hiragana,
        },
        state: InputState::Empty,
        live: LiveConversion {
            enabled: false,
            text: String::new(),
        },
        chunks: Vec::new(),
        chunk_cache_epoch: 0,
        context: String::new(),
        generation: 0,
        config: config(),
        metrics: Metrics {
            conversion_ms: 0,
            model_name: String::new(),
            adaptive_use_light_model: false,
            token_count: None,
        },
        converters: Converters { kanji: None },
        pending_async_request: None,
        dicts: Dictionaries {
            system: None,
            user: None,
        },
        learning: None,
        pending_init_assets: false,
    }
}

fn settings(strategy: StrategyMode) -> Settings {
    Settings {
        conversion: ConversionSettings {
            strategy,
            model: Some("big".to_string()),
            light_model: Some("small".to_string()),
            n_threads: 4,
            dict_path: None,
        },
        learning: LearningSettings {
            enabled: true,
            max_entries: 100,
        },
    }
}

/// Knows every model but the one called `unknown`.
fn resolve(id: Option<&str>) -> Result<String, String> {
    match id {
        Some("unknown") => Err("no such model".to_string()),
        Some(id) => Ok(format!("{id}-variant")),
        None => Ok("default".to_string()),
    }
}

fn queued_request(worker: &mut WorkerState) -> (u64, InitRequest) {
    match worker.next_step() {
        WorkerStep::Init(epoch, request) => (epoch, request),
        other => panic!("expected an initialization, got {other:?}"),
    }
}

fn file(name: &str, load: Result<&str, &str>) -> DictionaryFile<String> {
    DictionaryFile {
        name: name.as_bytes().to_vec(),
        load: load.map(str::to_string).map_err(str::to_string),
    }
}

fn join(dictionaries: Vec<String>) -> Result<Option<String>, String> {
    if dictionaries.iter().any(|dictionary| dictionary == "broken") {
        Err("cannot merge".to_string())
    } else if dictionaries.is_empty() {
        Ok(None)
    } else {
        Ok(Some(dictionaries.join("+")))
    }
}

#[test]
fn rapid_retries_retain_the_in_flight_asset_loader() {
    let mut engine = engine();
    engine.dicts.system = Some("試験".to_string());
    engine.dicts.user = Some("試験".to_string());
    let mut settings = settings(StrategyMode::Main);
    settings.learning.enabled = false;
    engine.pending_init_assets = true;

    let mut report = AssetReport::Running;
    for _ in 0..8 {
        assert_eq!(engine.queue_init_assets(&settings, &mut report), None);
    }
    assert!(engine.pending_init_assets, "asset loader remains owned");

    engine.wait_for_init_assets(Some(InitAssets {
        system: None,
        user: None,
        learning: None,
    }));
    assert!(!engine.pending_init_assets);
    assert_eq!(engine.dicts.system, Some("試験".to_string()));
}

#[test]
fn initialization_queues_models_and_missing_assets() {
    let mut engine = engine();
    engine.dicts.user = Some("user".to_string());
    let mut worker = WorkerState::new();
    let queued = engine.init_from_settings(
        &mut worker,
        &settings(StrategyMode::Adaptive),
        &resolve,
        "default".to_string(),
        config(),
        &mut AssetReport::Running,
    );
    assert_eq!(
        queued,
        Ok(QueuedInit {
            epoch: 1,
            assets: Some(AssetPlan {
                load_system: true,
                load_user: false,
                load_learning: true,
            }),
        })
    );
    assert!(engine.pending_init_assets);
    assert_eq!(
        queued_request(&mut worker),
        (
            1,
            InitRequest {
                main_variant: "big-variant".to_string(),
                light_variant: Some("small-variant".to_string()),
                strategy: StrategyMode::Adaptive,
                n_threads: 4,
                config: config(),
            }
        )
    );

    let assets = InitAssets {
        system: Some("system".to_string()),
        user: Some("other".to_string()),
        learning: Some("cache".to_string()),
    };
    assert_eq!(
        engine.complete_init(Err("no memory".to_string()), Some(assets)),
        Err(InitError::Failed("no memory".to_string()))
    );
    assert_eq!(engine.dicts.system, Some("system".to_string()));
    assert_eq!(engine.dicts.user, Some("user".to_string()));
    assert_eq!(engine.learning, Some("cache".to_string()));
    assert!(!engine.pending_init_assets);
}

#[test]
fn nonblocking_initialization_starts_one_loader() {
    let mut engine = engine();
    let mut worker = WorkerState::new();
    let mut settings = settings(StrategyMode::Main);
    settings.conversion.model = None;
    let mut report = AssetReport::Running;
    let mut begin = |engine: &mut Engine, report: &mut AssetReport<String, String>| {
        engine.begin_init_from_settings(
            &mut worker,
            &settings,
            &resolve,
            "default".to_string(),
            config(),
            report,
        )
    };
    let first = begin(&mut engine, &mut report);
    assert!(matches!(first, Ok(Some(plan)) if plan.load_learning));
    assert_eq!(begin(&mut engine, &mut report), Ok(None));
    report = AssetReport::Failed;
    let third = begin(&mut engine, &mut report);
    assert!(matches!(third, Ok(Some(_))));
    assert!(matches!(report, AssetReport::Running));
    let (epoch, request) = queued_request(&mut worker);
    assert_eq!(epoch, 3);
    assert_eq!(request.main_variant, "default");
    assert_eq!(request.light_variant, None);
}

#[test]
fn invalid_models_change_nothing() {
    let mut engine = engine();
    engine.pending_init_assets = true;
    let mut worker = WorkerState::new();
    let mut report = AssetReport::Finished(InitAssets {
        system: Some("system".to_string()),
        user: None,
        learning: None,
    });
    let mut bad_main = settings(StrategyMode::Main);
    bad_main.conversion.model = Some("unknown".to_string());
    let result = engine.queue_init_from_settings(
        &mut worker,
        &bad_main,
        &resolve,
        "default".to_string(),
        config(),
        &mut report,
    );
    assert_eq!(
        result,
        Err(InitError::InvalidModel("no such model".to_string()))
    );
    let mut bad_light = settings(StrategyMode::Light);
    bad_light.conversion.light_model = Some("unknown".to_string());
    let result = engine.begin_init_from_settings(
        &mut worker,
        &bad_light,
        &resolve,
        "default".to_string(),
        config(),
        &mut report,
    );
    assert_eq!(
        result,
        Err(InitError::InvalidLightModel("no such model".to_string()))
    );
    assert!(matches!(report, AssetReport::Finished(_)));
    assert_eq!(engine.dicts.system, None);
    assert_eq!(worker.next_step(), WorkerStep::Wait);
}

#[test]
fn adaptive_mode_replaces_an_unknown_light_model() {
    let models = ResolvedModels {
        main: Ok("big".to_string()),
        light: Err("no such model".to_string()),
        default_model: "default".to_string(),
    };
    let request = init_request(&settings(StrategyMode::Adaptive), models, config()).unwrap();
    assert_eq!(request.main_variant, "big");
    assert_eq!(request.light_variant, Some("default".to_string()));
}

#[test]
fn main_mode_looks_up_no_light_model() {
    let asked = RefCell::new(Vec::new());
    let recording = |id: Option<&str>| {
        asked.borrow_mut().push(id.map(str::to_string));
        resolve(id)
    };
    let mut engine = engine();
    let mut worker = WorkerState::new();
    let queued = engine.queue_init_from_settings(
        &mut worker,
        &settings(StrategyMode::Main),
        &recording,
        "default".to_string(),
        config(),
        &mut AssetReport::Running,
    );
    assert!(queued.is_ok());
    assert_eq!(*asked.borrow(), vec![Some("big".to_string())]);
}

#[test]
fn single_models_are_loaded_by_id() {
    let engine = engine();
    let mut worker = WorkerState::new();
    assert_eq!(
        engine.init_kanji_converter(&mut worker, &resolve, "default"),
        Ok(1)
    );
    let (_, request) = queued_request(&mut worker);
    assert_eq!(request.main_variant, "default-variant");
    assert_eq!(request.n_threads, 0);
    assert_eq!(request.strategy, StrategyMode::Main);

    assert_eq!(
        engine.init_kanji_converter_with_model(&mut worker, &resolve, "big", 2),
        Ok(2)
    );
    let (_, request) = queued_request(&mut worker);
    assert_eq!(request.main_variant, "big-variant");
    assert_eq!(request.n_threads, 2);

    assert_eq!(
        engine.init_light_kanji_converter(
            &mut worker,
            &resolve,
            "default".to_string(),
            "small",
            3
        ),
        Ok(3)
    );
    let (_, request) = queued_request(&mut worker);
    assert_eq!(request.main_variant, "default");
    assert_eq!(request.light_variant, Some("small-variant".to_string()));
    assert_eq!(request.strategy, StrategyMode::Adaptive);
    assert_eq!(request.n_threads, 3);

    let unknown = Err(InitError::UnknownVariant("no such model".to_string()));
    assert_eq!(
        engine.init_kanji_converter_with_model(&mut worker, &resolve, "unknown", 2),
        unknown
    );
    assert_eq!(
        engine.init_light_kanji_converter(
            &mut worker,
            &resolve,
            "default".to_string(),
            "unknown",
            2
        ),
        unknown
    );
    assert_eq!(worker.next_step(), WorkerStep::Wait);
    assert_eq!(init_outcome(Ok(())), Ok(()));
}

#[test]
fn system_dictionary_is_configured_or_in_the_data_directory() {
    assert_eq!(
        system_dictionary_location(Some("/dict"), false),
        Some(DictionaryLocation::Configured("/dict".to_string()))
    );
    assert_eq!(
        system_dictionary_location(None, true),
        Some(DictionaryLocation::DataDir)
    );
    assert_eq!(system_dictionary_location(None, false), None);

    let load = |location: DictionaryLocation| match location {
        DictionaryLocation::Configured(path) => FileLoad::Loaded(path),
        DictionaryLocation::DataDir => FileLoad::<String>::Absent,
    };
    assert_eq!(
        load_system_dictionary(Some("/dict"), true, load),
        Some("/dict".to_string())
    );
    assert_eq!(load_system_dictionary(None, true, load), None);
    assert_eq!(load_system_dictionary(None, false, load), None);

    let mut engine = engine();
    engine.init_system_dictionary(None, true, |_| FileLoad::Failed);
    assert_eq!(engine.dicts.system, None);
    engine.init_system_dictionary(Some("/dict"), true, load);
    assert_eq!(engine.dicts.system, Some("/dict".to_string()));
    engine.init_system_dictionary(Some("/other"), true, load);
    assert_eq!(engine.dicts.system, Some("/dict".to_string()));
}

#[test]
fn learning_cache_is_stored_or_new() {
    let new = |max_entries: usize| format!("new {max_entries}");
    let stored = |max_entries: usize| FileLoad::Loaded(format!("stored {max_entries}"));
    let failed = |_: usize| FileLoad::<String>::Failed;
    let absent = |_: usize| FileLoad::<String>::Absent;
    assert_eq!(load_learning_cache(false, 7, stored, new), None);
    assert_eq!(
        load_learning_cache(true, 7, stored, new),
        Some("stored 7".to_string())
    );
    assert_eq!(
        load_learning_cache(true, 7, failed, new),
        Some("new 7".to_string())
    );
    assert_eq!(
        load_learning_cache(true, 7, absent, new),
        Some("new 7".to_string())
    );

    let mut engine = engine();
    engine.init_learning_cache(false, 7, stored, new);
    assert_eq!(engine.learning, None);
    engine.init_learning_cache(true, 7, absent, new);
    assert_eq!(engine.learning, Some("new 7".to_string()));
    engine.init_learning_cache(true, 8, stored, new);
    assert_eq!(engine.learning, Some("new 7".to_string()));
}

#[test]
fn user_dictionaries_are_merged_in_the_order_of_their_names() {
    let files = || {
        vec![
            file("b.tsv", Ok("second")),
            file("ab", Ok("first of two")),
            file("z", Err("unreadable")),
            file("a", Ok("first")),
            file("B", Ok("capital")),
        ]
    };
    assert_eq!(
        load_order(files()),
        vec!["capital", "first", "first of two", "second"]
    );
    assert_eq!(
        load_user_dictionaries(files(), join),
        Some("capital+first+first of two+second".to_string())
    );
    assert_eq!(load_user_dictionaries(Vec::new(), join), None);
    assert_eq!(
        load_user_dictionaries(vec![file("a", Ok("broken"))], join),
        None
    );

    let mut engine = engine();
    engine.init_user_dictionaries(vec![file("a", Err("unreadable"))], |_| {
        panic!("nothing to merge")
    });
    assert_eq!(engine.dicts.user, None);
    engine.init_user_dictionaries(vec![file("a", Ok("broken"))], join);
    assert_eq!(engine.dicts.user, None);
    engine.init_user_dictionaries(files(), join);
    assert_eq!(
        engine.dicts.user,
        Some("capital+first+first of two+second".to_string())
    );
    engine.init_user_dictionaries(vec![file("a", Ok("other"))], join);
    assert_eq!(
        engine.dicts.user,
        Some("capital+first+first of two+second".to_string())
    );
}

#[test]
fn loader_loads_what_is_planned() {
    let plan = AssetPlan {
        load_system: true,
        load_user: false,
        load_learning: true,
    };
    let assets: InitAssets<String, String> = load_assets(
        plan,
        || Some("system".to_string()),
        || panic!("not planned"),
        || None,
    );
    assert_eq!(assets.system, Some("system".to_string()));
    assert_eq!(assets.user, None);
    assert_eq!(assets.learning, None);
}

#[test]
fn default_model_is_loaded_like_any_other() {
    let engine = engine();
    let mut by_default = WorkerState::new();
    let mut by_id = WorkerState::new();
    assert_eq!(
        engine.init_kanji_converter(&mut by_default, &resolve, "default"),
        engine.init_kanji_converter_with_model(&mut by_id, &resolve, "default", 0)
    );
    assert_eq!(by_default, by_id);
}
