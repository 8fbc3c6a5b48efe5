use std::cell::RefCell;
use std::collections::VecDeque;
use std::rc::Rc;

use karukan::conversion::{
    AsyncInputState, AsyncRequestKind, ChunkRequest, ConversionRequest,
    ConversionSnapshot, ConversionStrategy, EngineConfig, InputMode, ProposedCompletion,
    StrategyMode,
};
use karukan::job::{start_request, JobAction, JobEvent, RequestStart, StrategyInputs};
use karukan::runtime::{initialize_runtime, open_backend, WorkerRuntime};
use karukan::worker::{
    remember_init_result, InitRequest, InitWait, WorkerState, WorkerStep, INIT_LOST, INIT_SUPERSEDED, MAX_INIT_RESULTS,
};

type Calls = Rc<RefCell<Vec<(String, String, usize)>>>;

/// A model that records what it is asked and answers with its label in front
/// of the reading.
struct RecordingModel {
    name: String,
    label: String,
    calls: Calls,
}

impl RecordingModel {
    fn new(name: &str, label: &str, calls: &Calls) -> Self {
        RecordingModel {
            name: name.to_string(),
            label: label.to_string(),
            calls: Rc::clone(calls),
        }
    }

    fn convert(&mut self, reading: &str, context: &str, count: usize) -> Vec<String> {
        self.calls.borrow_mut().push((
            "convert".to_string(),
            format!("{reading}|{context}"),
            count,
        ));
        vec![format!("{}:{reading}", self.label)]
    }

    fn count_input_tokens(&mut self, reading: &str) -> usize {
        self.calls
            .borrow_mut()
            .push(("count".to_string(), reading.to_string(), 0));
        reading.chars().count()
    }
}

fn config() -> EngineConfig {
    EngineConfig {
        strategy: StrategyMode::Main,
        num_candidates: 9,
        max_latency_ms: 0,
    }
}

fn empty_runtime() -> WorkerRuntime<RecordingModel> {
    WorkerRuntime {
        main: None,
        light: None,
        config: config(),
        adaptive_use_light_model: false,
    }
}

fn runtime_with(model: RecordingModel) -> WorkerRuntime<RecordingModel> {
    WorkerRuntime {
        main: Some(model),
        ..empty_runtime()
    }
}

/// One candidate from the main model; several from both, or from the main
/// model alone; the light model once it has taken over.
fn choose_strategy(inputs: &StrategyInputs) -> ConversionStrategy {
    if inputs.adaptive_use_light_model {
        ConversionStrategy::LightModelOnly
    } else if inputs.candidate_count == 1 {
        ConversionStrategy::MainModelOnly
    } else if inputs.has_light_model {
        ConversionStrategy::ParallelBeam {
            beam_width: inputs.candidate_count,
        }
    } else {
        ConversionStrategy::MainModelBeam {
            beam_width: inputs.candidate_count,
        }
    }
}

fn convert(
    runtime: &mut WorkerRuntime<RecordingModel>,
    request: ConversionRequest,
    elapsed_ms: u64,
) -> ProposedCompletion {
    let mut job = match start_request(
        request,
        runtime.main.is_some(),
        runtime.light.is_some(),
        runtime.adaptive_use_light_model,
    ) {
        RequestStart::Job(job) => job,
        RequestStart::Unanswered(completion) => return completion,
    };
    loop {
        let event = match job.action() {
            JobAction::CountTokens(text) => JobEvent::Tokens(
                runtime
                    .main
                    .as_mut()
                    .map(|model| model.count_input_tokens(&text)),
            ),
            JobAction::ChooseStrategy(inputs) => JobEvent::Strategy(choose_strategy(&inputs)),
            JobAction::Infer(query, calls) => {
                let main = match (calls.main, runtime.main.as_mut()) {
                    (Some(count), Some(model)) => {
                        model.convert(&query.reading, &query.context, count)
                    }
                    _ => Vec::new(),
                };
                let light = match (calls.light, runtime.light.as_mut()) {
                    (Some(count), Some(model)) => {
                        model.convert(&query.reading, &query.context, count)
                    }
                    _ => Vec::new(),
                };
                JobEvent::Replies(main, light)
            }
            JobAction::Finish => break,
        };
        job = job.step(event);
    }
    let name = |model: &Option<RecordingModel>| {
        model
            .as_ref()
            .map(|model| model.name.clone())
            .unwrap_or_default()
    };
    let (main_name, light_name) = (name(&runtime.main), name(&runtime.light));
    job.finish(elapsed_ms, main_name, light_name)
}

fn worker_request(generation: u64) -> ConversionRequest {
    ConversionRequest {
        snapshot: ConversionSnapshot {
            generation,
            reading: "あ".to_string(),
            context: String::new(),
            mode: InputMode::Hiragana,
            input_state: AsyncInputState::Composing,
            request_kind: AsyncRequestKind::AutoSuggest,
            candidate_count: 1,
            skip_learning: false,
            chunk_cache_epoch: generation,
        },
        chunks: vec![ChunkRequest {
            position: 0,
            reading: "あ".to_string(),
            context: String::new(),
            converted: "あ".to_string(),
            should_convert: true,
        }],
        config: config(),
    }
}

fn init_request_named(main_variant: &str) -> InitRequest {
    InitRequest {
        main_variant: main_variant.to_string(),
        light_variant: None,
        strategy: StrategyMode::Main,
        n_threads: 0,
        config: config(),
    }
}

fn take_conversion(worker: &mut WorkerState) -> (u64, ConversionRequest) {
    match worker.next_step() {
        WorkerStep::Convert(epoch, request) => (epoch, request),
        other => panic!("expected a conversion, got {other:?}"),
    }
}

fn take_init(worker: &mut WorkerState) -> (u64, InitRequest) {
    match worker.next_step() {
        WorkerStep::Init(epoch, request) => (epoch, request),
        other => panic!("expected an initialization, got {other:?}"),
    }
}

fn name_of(runtime: &WorkerRuntime<RecordingModel>) -> String {
    runtime
        .main
        .as_ref()
        .map(|model| model.name.clone())
        .unwrap_or_default()
}

#[test]
fn conversion_mailbox_is_capacity_one_latest_wins() {
    let calls: Calls = Rc::default();
    let mut runtime = runtime_with(RecordingModel::new("test", "converted", &calls));
    let mut worker = WorkerState::with_model("test".to_string());

    worker.submit(worker_request(0));
    let (epoch, in_flight) = take_conversion(&mut worker);
    for generation in 1..=4 {
        worker.submit(worker_request(generation));
    }
    assert_eq!(worker.pending_conversion_count(), 1);
    assert_eq!(worker.pending_conversion_generation(), Some(4));

    let completion = convert(&mut runtime, in_flight, 0);
    worker.finish_conversion(epoch, completion, false);
    assert_eq!(
        worker
            .poll()
            .map(|completion| completion.snapshot.generation),
        None,
        "an in-flight old completion must not occupy the mailbox ahead of newer pending work"
    );

    let (epoch, latest) = take_conversion(&mut worker);
    let completion = convert(&mut runtime, latest, 0);
    worker.finish_conversion(epoch, completion, false);
    let completion = worker.poll().unwrap();
    assert_eq!(completion.snapshot.generation, 4);
    assert_eq!(worker.poll(), None);
}

#[test]
fn nonblocking_initialization_results_are_bounded() {
    let mut worker = WorkerState::new();
    let mut runtime = empty_runtime();
    let factory = |_variant: &str, _threads: u32| -> Result<RecordingModel, String> {
        Err("test initialization failure".to_string())
    };

    for _ in 0..32 {
        worker.begin_init(init_request_named("main"));
    }
    assert_eq!(worker.init_result_count(), MAX_INIT_RESULTS);
    while worker.is_initializing() {
        let (epoch, request) = take_init(&mut worker);
        let result = initialize_runtime(&mut runtime, &factory, &request);
        worker.finish_init(epoch, result.map(|()| name_of(&runtime)));
    }

    assert!(
        worker.init_result_count() <= 4,
        "nonblocking init retries must keep bounded outcomes"
    );
    assert_eq!(
        worker.wait_for_init(32),
        InitWait::Known(Err("test initialization failure".to_string()))
    );
    assert_eq!(
        worker.wait_for_init(31),
        InitWait::Known(Err(INIT_SUPERSEDED.to_string()))
    );
    assert_eq!(
        worker.wait_for_init(28),
        InitWait::Known(Err(INIT_LOST.to_string()))
    );
}

#[test]
fn hiragana_to_katakana_is_used_for_inference_and_token_count() {
    let calls: Calls = Rc::default();
    let mut runtime = runtime_with(RecordingModel::new("recording", "model", &calls));
    let mut worker = WorkerState::with_model("recording".to_string());
    let mut request = worker_request(1);
    request.snapshot.reading = "ひらがな".to_string();
    request.snapshot.request_kind = AsyncRequestKind::Explicit;
    request.snapshot.candidate_count = 3;
    worker.submit(request);

    let (epoch, request) = take_conversion(&mut worker);
    let completion = convert(&mut runtime, request, 0);
    worker.finish_conversion(epoch, completion, false);
    let completion = worker.poll().unwrap();
    assert_eq!(completion.model_candidates, vec!["model:ヒラガナ"]);
    assert_eq!(completion.metrics.token_count, Some(4));

    let calls = calls.borrow().clone();
    assert!(
        calls
            .iter()
            .any(|(kind, reading, _)| kind == "count" && reading == "ヒラガナ"),
        "token counter did not receive normalized katakana: {calls:?}"
    );
    assert!(
        calls.iter().any(|(kind, reading, _)| {
            kind == "convert" && reading.split('|').next() == Some("ヒラガナ")
        }),
        "inference backend did not receive normalized katakana: {calls:?}"
    );
}

#[test]
fn worker_preserves_handler_chunk_positions_duplicates_boundaries_and_context() {
    let calls: Calls = Rc::default();
    let mut runtime = runtime_with(RecordingModel::new("chunk-recording", "model", &calls));
    let mut worker = WorkerState::with_model("chunk-recording".to_string());
    let mut request = worker_request(1);
    request.snapshot.request_kind = AsyncRequestKind::AutoSuggest;
    request.chunks = vec![
        ChunkRequest {
            position: 0,
            reading: "あ".to_string(),
            context: "左".to_string(),
            converted: "あ".to_string(),
            should_convert: true,
        },
        ChunkRequest {
            position: 1,
            reading: "123,".to_string(),
            context: "左あ".to_string(),
            converted: "123,".to_string(),
            should_convert: false,
        },
        ChunkRequest {
            position: 5,
            reading: "あ".to_string(),
            context: "左あ123,".to_string(),
            converted: "あ".to_string(),
            should_convert: true,
        },
    ];
    worker.submit(request);

    let (epoch, request) = take_conversion(&mut worker);
    let completion = convert(&mut runtime, request, 0);
    worker.finish_conversion(epoch, completion, false);
    let completion = worker.poll().unwrap();
    assert_eq!(
        completion
            .chunk_cache
            .iter()
            .map(|chunk| (chunk.position, chunk.reading.clone()))
            .collect::<Vec<_>>(),
        vec![
            (0, "あ".to_string()),
            (1, "123,".to_string()),
            (5, "あ".to_string())
        ]
    );
    assert_eq!(
        completion
            .chunk_cache
            .iter()
            .map(|chunk| chunk.converted.clone())
            .collect::<Vec<_>>(),
        vec![
            "model:ア".to_string(),
            "123,".to_string(),
            "model:ア".to_string()
        ]
    );
    assert_eq!(
        completion.model_candidates,
        vec!["model:ア123,model:ア".to_string()]
    );
    let calls = calls.borrow().clone();
    assert!(calls.iter().any(|(_, value, _)| value == "ア|左"));
    assert!(calls.iter().any(|(_, value, _)| value == "ア|左あ123,"));
    assert_eq!(
        calls.iter().filter(|(_, value, _)| value == "123,").count(),
        0
    );
}

#[test]
fn overlapping_init_requests_return_own_tokens_and_publish_only_latest_state() {
    let calls: Calls = Rc::default();
    let mut worker = WorkerState::new();
    let mut runtime = empty_runtime();
    let factory =
        |variant: &str, _threads: u32| Ok(RecordingModel::new(variant, variant, &calls));
    let first = worker.begin_init(init_request_named("main"));
    let second = worker.begin_init(init_request_named("main"));

    assert!(
        matches!(worker.wait_for_init(first), InitWait::Known(Err(_))),
        "superseded init must not wait for the newer request"
    );
    assert_eq!(worker.wait_for_init(second), InitWait::Pending);
    let (epoch, request) = take_init(&mut worker);
    let result = initialize_runtime(&mut runtime, &factory, &request);
    worker.finish_init(epoch, result.map(|()| name_of(&runtime)));
    assert_eq!(worker.wait_for_init(second), InitWait::Known(Ok(())));
    assert_eq!(worker.model_name(), "main");
    assert!(!worker.is_initializing());
}

#[test]
fn in_flight_init_is_superseded_before_it_can_publish_success() {
    let calls: Calls = Rc::default();
    let mut worker = WorkerState::new();
    let mut runtime = empty_runtime();
    let factory =
        |variant: &str, _threads: u32| Ok(RecordingModel::new(variant, variant, &calls));

    let first = worker.begin_init(init_request_named("first"));
    let (first_epoch, first_request) = take_init(&mut worker);
    let second = worker.begin_init(init_request_named("second"));

    assert!(
        matches!(worker.wait_for_init(first), InitWait::Known(Err(_))),
        "an in-flight init must publish a superseded outcome for its own token"
    );
    assert!(!worker.is_ready(), "superseded init must not publish ready");
    assert_eq!(worker.model_name(), "unknown");

    let result = initialize_runtime(&mut runtime, &factory, &first_request);
    worker.finish_init(first_epoch, result.map(|()| name_of(&runtime)));
    assert!(!worker.is_ready(), "superseded init must not publish ready");
    assert!(worker.is_initializing());

    let (epoch, request) = take_init(&mut worker);
    let result = initialize_runtime(&mut runtime, &factory, &request);
    worker.finish_init(epoch, result.map(|()| name_of(&runtime)));
    assert_eq!(worker.wait_for_init(second), InitWait::Known(Ok(())));
    assert_eq!(worker.model_name(), "second");
    assert!(worker.is_ready());
}

#[test]
fn failed_initialization_can_be_retried_without_publishing_success() {
    let attempts = RefCell::new(0);
    let calls: Calls = Rc::default();
    let mut worker = WorkerState::new();
    let mut runtime = empty_runtime();
    let factory = |_variant: &str, _threads: u32| {
        *attempts.borrow_mut() += 1;
        if *attempts.borrow() == 1 {
            return Err("first initialization failed".to_string());
        }
        Ok(RecordingModel::new("retried-model", "retried", &calls))
    };

    let first = worker.begin_init(init_request_named("first"));
    let (epoch, request) = take_init(&mut worker);
    let result = initialize_runtime(&mut runtime, &factory, &request);
    worker.finish_init(epoch, result.map(|()| name_of(&runtime)));
    assert_eq!(
        worker.init_error(),
        Some("first initialization failed".to_string())
    );
    assert_eq!(
        worker.wait_for_init(first),
        InitWait::Known(Err("first initialization failed".to_string()))
    );
    assert!(
        !worker.is_ready(),
        "failed initialization must not publish ready"
    );
    assert!(!worker.is_initializing());

    let retry = worker.begin_init(init_request_named("retry"));
    let (epoch, request) = take_init(&mut worker);
    let result = initialize_runtime(&mut runtime, &factory, &request);
    worker.finish_init(epoch, result.map(|()| name_of(&runtime)));
    assert_eq!(worker.wait_for_init(retry), InitWait::Known(Ok(())));
    assert!(worker.is_ready());
    assert_eq!(worker.model_name(), "retried-model");
    assert_eq!(worker.init_error(), None);
    assert_eq!(*attempts.borrow(), 2);
}

fn adaptive_init() -> InitRequest {
    InitRequest {
        light_variant: Some("light".to_string()),
        strategy: StrategyMode::Adaptive,
        ..init_request_named("main")
    }
}

fn explicit_request(generation: u64, max_latency_ms: u64) -> ConversionRequest {
    let mut request = worker_request(generation);
    request.snapshot.request_kind = AsyncRequestKind::Explicit;
    request.snapshot.candidate_count = 3;
    request.config.strategy = StrategyMode::Adaptive;
    request.config.max_latency_ms = max_latency_ms;
    request
}

#[test]
fn parallel_beam_asks_both_models_and_joins_their_names() {
    let calls: Calls = Rc::default();
    let mut worker = WorkerState::new();
    let mut runtime = empty_runtime();
    let factory = |variant: &str, _threads: u32| {
        let name = if variant == "light" {
            "light-model"
        } else {
            "main-model"
        };
        Ok(RecordingModel::new(name, name, &calls))
    };
    let token = worker.begin_init(adaptive_init());
    let (epoch, request) = take_init(&mut worker);
    let result = initialize_runtime(&mut runtime, &factory, &request);
    worker.finish_init(epoch, result.map(|()| name_of(&runtime)));
    assert_eq!(worker.wait_for_init(token), InitWait::Known(Ok(())));

    worker.submit(explicit_request(1, 0));
    let (epoch, request) = take_conversion(&mut worker);
    let completion = convert(&mut runtime, request, 0);
    worker.finish_conversion(epoch, completion, false);
    let completion = worker.poll().unwrap();
    assert_eq!(completion.metrics.model_name, "main-model + light-model");
    assert_eq!(
        completion.model_candidates,
        vec!["main-model:ア", "light-model:ア"]
    );
    let counts: Vec<usize> = calls
        .borrow()
        .iter()
        .filter(|(kind, _, _)| kind == "convert")
        .map(|(_, _, count)| *count)
        .collect();
    assert_eq!(counts, vec![1, 3]);
}

#[test]
fn stale_inference_does_not_commit_adaptive_model_selection() {
    let main_calls: Calls = Rc::default();
    let light_calls: Calls = Rc::default();
    let mut worker = WorkerState::new();
    let mut runtime = empty_runtime();
    let factory = |variant: &str, _threads: u32| {
        let calls = if variant == "main" {
            &main_calls
        } else {
            &light_calls
        };
        Ok(RecordingModel::new(variant, variant, calls))
    };
    let token = worker.begin_init(adaptive_init());
    let (epoch, request) = take_init(&mut worker);
    let result = initialize_runtime(&mut runtime, &factory, &request);
    worker.finish_init(epoch, result.map(|()| name_of(&runtime)));
    assert_eq!(worker.wait_for_init(token), InitWait::Known(Ok(())));

    worker.submit(explicit_request(1, 1));
    let (epoch, old) = take_conversion(&mut worker);
    let completion = convert(&mut runtime, old, 60);
    assert!(completion.metrics.adaptive_use_light_model);
    worker.submit(explicit_request(2, 1));
    runtime.adaptive_use_light_model =
        worker.finish_conversion(epoch, completion, runtime.adaptive_use_light_model);

    let (epoch, latest) = take_conversion(&mut worker);
    let completion = convert(&mut runtime, latest, 60);
    runtime.adaptive_use_light_model =
        worker.finish_conversion(epoch, completion, runtime.adaptive_use_light_model);
    let completion = worker.poll().unwrap();
    assert_eq!(completion.snapshot.generation, 2);
    let converted = |calls: &Calls| {
        calls
            .borrow()
            .iter()
            .filter(|(kind, _, _)| kind == "convert")
            .count()
    };
    assert_eq!(
        converted(&main_calls),
        2,
        "stale slow inference incorrectly forced latest work to light model"
    );
    assert_eq!(
        converted(&light_calls),
        2,
        "latest ParallelBeam call did not retain both model calls"
    );

    // The completion that was wanted does count.
    assert!(runtime.adaptive_use_light_model);
    worker.submit(explicit_request(3, 1));
    let (_, request) = take_conversion(&mut worker);
    let completion = convert(&mut runtime, request, 60);
    assert_eq!(completion.metrics.model_name, "light");
    assert!(completion.metrics.adaptive_use_light_model);
    assert_eq!(converted(&main_calls), 2);
    assert_eq!(converted(&light_calls), 3);
}

#[test]
fn adaptive_initialization_does_without_a_broken_light_model() {
    let calls: Calls = Rc::default();
    let mut runtime = empty_runtime();
    let factory = |variant: &str, _threads: u32| {
        if variant == "light" {
            Err("no light model".to_string())
        } else {
            Ok(RecordingModel::new(variant, variant, &calls))
        }
    };
    let request = adaptive_init();
    assert_eq!(initialize_runtime(&mut runtime, &factory, &request), Ok(()));
    assert_eq!(name_of(&runtime), "main");
    assert!(runtime.light.is_none());
}

#[test]
fn light_mode_loads_the_light_variant_as_the_main_model() {
    let calls: Calls = Rc::default();
    let mut runtime = empty_runtime();
    let factory =
        |variant: &str, _threads: u32| Ok(RecordingModel::new(variant, variant, &calls));
    let mut request = adaptive_init();
    request.strategy = StrategyMode::Light;
    assert_eq!(initialize_runtime(&mut runtime, &factory, &request), Ok(()));
    assert_eq!(name_of(&runtime), "light");
    assert!(runtime.light.is_none());
    assert_eq!(runtime.config, request.config);
}

#[test]
fn failed_main_model_leaves_no_model() {
    let calls: Calls = Rc::default();
    let mut runtime = runtime_with(RecordingModel::new("old", "old", &calls));
    runtime.adaptive_use_light_model = true;
    let factory = |_variant: &str, _threads: u32| Err("broken".to_string());
    assert_eq!(
        initialize_runtime(&mut runtime, &factory, &adaptive_init()),
        Err("broken".to_string())
    );
    assert!(runtime.main.is_none());
    assert!(!runtime.adaptive_use_light_model);
}

#[test]
fn request_without_a_model_is_not_ready() {
    let completion = convert(&mut empty_runtime(), worker_request(7), 5);
    assert!(!completion.ready);
    assert_eq!(completion.snapshot.generation, 7);
    assert!(completion.model_candidates.is_empty());
    assert_eq!(completion.chunk_cache.len(), 1);
    assert_eq!(completion.chunk_cache[0].converted, "あ");
    assert!(!completion.chunk_cache[0].fresh);
    assert_eq!(completion.metrics.conversion_ms, 0);
    assert_eq!(completion.metrics.token_count, None);
}

#[test]
fn invalidation_drops_waiting_running_and_finished_conversions() {
    let calls: Calls = Rc::default();
    let mut runtime = runtime_with(RecordingModel::new("test", "converted", &calls));
    let mut worker = WorkerState::with_model("test".to_string());

    worker.submit(worker_request(1));
    worker.invalidate();
    assert_eq!(worker.next_step(), WorkerStep::Wait);

    worker.submit(worker_request(2));
    let (epoch, request) = take_conversion(&mut worker);
    worker.invalidate();
    let completion = convert(&mut runtime, request, 0);
    worker.finish_conversion(epoch, completion, false);
    assert_eq!(worker.poll(), None);

    worker.submit(worker_request(3));
    let (epoch, request) = take_conversion(&mut worker);
    let completion = convert(&mut runtime, request, 0);
    worker.finish_conversion(epoch, completion, false);
    assert_eq!(worker.published_completion_generation(), Some(3));
    worker.invalidate();
    assert_eq!(worker.published_completion_generation(), None);
    assert!(!worker.has_pending_work());
}

#[test]
fn initialization_goes_before_a_waiting_conversion() {
    let mut worker = WorkerState::new();
    worker.submit(worker_request(1));
    worker.begin_init(init_request_named("main"));
    assert!(worker.has_pending_work());
    let (epoch, _) = take_init(&mut worker);
    assert_eq!(worker.pending_conversion_generation(), Some(1));
    worker.finish_init(epoch, Ok("main".to_string()));
    let (_, request) = take_conversion(&mut worker);
    assert_eq!(request.snapshot.generation, 1);
    worker.stop();
    assert_eq!(worker.next_step(), WorkerStep::Stop);
}

#[test]
fn outcome_of_an_initialization_is_handed_out_once() {
    let mut worker = WorkerState::new();
    let epoch = worker.begin_init(init_request_named("main"));
    assert_eq!(epoch, 1);
    take_init(&mut worker);
    worker.finish_init(epoch, Ok("main".to_string()));
    assert_eq!(worker.wait_for_init(epoch), InitWait::Known(Ok(())));
    assert_eq!(worker.wait_for_init(epoch), InitWait::Pending);
    worker.begin_init(init_request_named("main"));
    assert_eq!(
        worker.wait_for_init(epoch),
        InitWait::Known(Err("initialization outcome superseded or evicted".to_string()))
    );
}

#[test]
fn opened_model_gets_threads_only_when_asked() {
    let open = |variant: &str| {
        if variant == "broken" {
            Err("cannot open".to_string())
        } else {
            Ok((variant.to_string(), 0))
        }
    };
    let with_threads = |model: (String, u32), n_threads: u32| (model.0, n_threads);
    let name = |model: &(String, u32)| format!("{}/{}", model.0, model.1);
    let backend = open_backend("small", 0, &open, &with_threads, &name).unwrap();
    assert_eq!(backend.name, "small/0");
    let backend = open_backend("small", 4, &open, &with_threads, &name).unwrap();
    assert_eq!(backend.converter, ("small".to_string(), 4));
    assert_eq!(backend.name, "small/4");
    assert_eq!(
        open_backend("broken", 4, &open, &with_threads, &name),
        Err("cannot open".to_string())
    );
}

#[test]
fn outcomes_keep_their_place_or_go_to_the_back() {
    let mut results = VecDeque::new();
    for epoch in 1..=4 {
        remember_init_result(&mut results, epoch, Ok(()));
    }
    remember_init_result(&mut results, 2, Err("late".to_string()));
    assert_eq!(results.len(), 4);
    assert_eq!(results[1], (2, Err("late".to_string())));
    remember_init_result(&mut results, 5, Ok(()));
    let epochs: Vec<u64> = results.iter().map(|(epoch, _)| *epoch).collect();
    assert_eq!(epochs, vec![2, 3, 4, 5]);
}
