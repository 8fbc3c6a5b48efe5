use karukan::candidates::{
    append_candidates_dedup, Candidate, CandidateList, CandidateSource,
};
use karukan::completion::{AutoSources, ExplicitSources};
use karukan::conversion::{
    AsyncRequestKind, ChunkRequest, ComposingChunk, EngineConfig, InputMode, ProposedCompletion,
    ProposedMetrics, StrategyMode,
};
use karukan::engine::{
    AcceptedCompletion, AuxText, CompatibilityTokenCounter, Converters, Dictionaries, EngineAction,
    EngineResult, InputBuffer, InputMethodEngine, InputState, LiveConversion, Metrics, ModeState,
};
use karukan::half_katakana::HalfWidthKatakanaRewriter;
use karukan::init::{AssetReport, InitAssets};
use karukan::preedit::Preedit;
use karukan::worker::{WorkerState, WorkerStep};

type Engine = InputMethodEngine<&'static str, &'static str>;

fn engine() -> Engine {
    InputMethodEngine {
        input_buf: InputBuffer {
            text: String::new(),
            cursor_pos: 0,
        },
        mode: ModeState {
            current: InputMode::Hiragana,
        },
        state: InputState::Empty,
        live: LiveConversion {
            enabled: true,
            text: String::new(),
        },
        chunks: Vec::new(),
        chunk_cache_epoch: 0,
        context: String::new(),
        generation: 0,
        config: EngineConfig {
            strategy: StrategyMode::Main,
            num_candidates: 9,
            max_latency_ms: 0,
        },
        metrics: Metrics {
            conversion_ms: 0,
            model_name: String::new(),
            adaptive_use_light_model: false,
            token_count: None,
        },
        converters: Converters { kanji: None },
        pending_async_request: None,
        dicts: Dictionaries {
            system: None,
            user: None,
        },
        learning: None,
        pending_init_assets: false,
    }
}

fn composing_engine(reading: &str) -> Engine {
    let mut engine = engine();
    engine.input_buf.text = reading.to_string();
    engine.input_buf.cursor_pos = reading.chars().count();
    engine.state = InputState::Composing {
        preedit: Preedit::with_text_underlined(reading),
    };
    engine
}

fn explicit_completion_engine() -> Engine {
    let mut engine = engine();
    engine.state = InputState::Conversion {
        preedit: Preedit::with_text_highlighted("sync-first"),
        candidates: CandidateList::new(vec![
            Candidate::with_reading("sync-first", "あ"),
            Candidate::with_reading("sync-second", "あ"),
        ]),
    };
    engine.input_buf.text = "あ".to_string();
    engine.input_buf.cursor_pos = 1;
    engine
}

fn select(engine: &mut Engine, index: usize) {
    match &mut engine.state {
        InputState::Conversion { candidates, .. } => assert!(candidates.select(index)),
        _ => panic!("not in conversion"),
    }
}

fn candidates(engine: &Engine) -> &CandidateList {
    engine.state.candidates().expect("in conversion")
}

fn candidate_texts(engine: &Engine) -> Vec<String> {
    candidates(engine)
        .candidates()
        .iter()
        .map(|candidate| candidate.text.clone())
        .collect()
}

fn preedit_text(result: &EngineResult) -> Option<String> {
    result.actions.iter().find_map(|action| match action {
        EngineAction::UpdatePreedit(preedit) => Some(preedit.text()),
        _ => None,
    })
}

fn strings(texts: &[&str]) -> Vec<String> {
    texts.iter().map(|text| text.to_string()).collect()
}

fn no_explicit_sources() -> ExplicitSources {
    ExplicitSources {
        dictionary: Vec::new(),
        filter_script_variants: false,
        script_variants: Vec::new(),
    }
}

fn no_auto_sources() -> AutoSources {
    AutoSources {
        learning: Vec::new(),
        dictionary: Vec::new(),
        rewriter: Vec::new(),
        counter_surface: None,
    }
}

/// Lets the worker answer the request at hand with these model candidates.
fn answer(worker: &mut WorkerState, model_candidates: &[&str], chunk_cache: Vec<ComposingChunk>) {
    match worker.next_step() {
        WorkerStep::Convert(epoch, request) => {
            let completion = ProposedCompletion {
                snapshot: request.snapshot,
                model_candidates: strings(model_candidates),
                chunk_cache,
                metrics: ProposedMetrics {
                    conversion_ms: 12,
                    model_name: "fixed-candidates".to_string(),
                    adaptive_use_light_model: true,
                    token_count: Some(5),
                },
                ready: true,
            };
            worker.finish_conversion(epoch, completion, false);
        }
        other => panic!("expected a conversion, got {other:?}"),
    }
}

fn poll(engine: &mut Engine, worker: &mut WorkerState) -> Option<AcceptedCompletion> {
    engine.poll_completion(worker, &mut AssetReport::Running)
}

fn explicit_completion(engine: &mut Engine, worker: &mut WorkerState) -> ProposedCompletion {
    match poll(engine, worker) {
        Some(AcceptedCompletion::Explicit(completion)) => completion,
        other => panic!("expected an explicit completion, got {other:?}"),
    }
}

fn auto_completion(engine: &mut Engine, worker: &mut WorkerState) -> ProposedCompletion {
    match poll(engine, worker) {
        Some(AcceptedCompletion::AutoSuggest(completion)) => completion,
        other => panic!("expected an automatic completion, got {other:?}"),
    }
}

/// Runs an explicit conversion to its end.
fn convert_explicitly(engine: &mut Engine, model_candidates: &[&str], sources: ExplicitSources) -> EngineResult {
    let mut worker = WorkerState::with_model("fixed-candidates".to_string());
    engine.submit_async_conversion(&mut worker, AsyncRequestKind::Explicit, false, Vec::new());
    answer(&mut worker, model_candidates, Vec::new());
    let completion = explicit_completion(engine, &mut worker);
    engine.apply_explicit_completion(completion, sources)
}

/// Draws live text where there is any, and the input otherwise.
fn render(engine: &Engine) -> Preedit {
    if engine.live.enabled && !engine.live.text.is_empty() {
        Preedit::with_text_underlined(&engine.live.text)
    } else {
        Preedit::with_text_underlined(&engine.input_buf.text)
    }
}

/// Runs an automatic conversion to its end.
fn convert_automatically(engine: &mut Engine, model_candidates: &[&str], sources: AutoSources) -> EngineResult {
    let mut worker = WorkerState::with_model("fixed-candidates".to_string());
    engine.submit_async_conversion(&mut worker, AsyncRequestKind::AutoSuggest, false, Vec::new());
    answer(&mut worker, model_candidates, Vec::new());
    let completion = auto_completion(engine, &mut worker);
    engine.apply_auto_completion(completion, sources, render)
}

#[test]
fn explicit_completion_appends_model_candidates_after_sync_candidates() {
    let mut engine = explicit_completion_engine();
    let _ = convert_explicitly(&mut engine, &["model-first", "model-second"], no_explicit_sources());

    assert_eq!(
        candidate_texts(&engine),
        vec!["sync-first", "sync-second", "model-first", "model-second",]
    );
}

#[test]
fn explicit_completion_deduplicates_model_text_without_reordering_sync_candidates() {
    let mut engine = explicit_completion_engine();
    let _ = convert_explicitly(&mut engine, &["sync-first", "model-only"], no_explicit_sources());

    assert_eq!(
        candidate_texts(&engine),
        vec!["sync-first", "sync-second", "model-only"]
    );
}

#[test]
fn explicit_completion_preserves_selected_candidate_identity() {
    let mut engine = explicit_completion_engine();
    select(&mut engine, 1);
    let _ = convert_explicitly(&mut engine, &["model-first", "model-second"], no_explicit_sources());

    let candidates = candidates(&engine);
    assert_eq!(candidates.selected().unwrap().text, "sync-second");
    assert_eq!(candidates.cursor(), 1);
}

#[test]
fn completion_matching_uses_current_engine_request_metadata() {
    let mut engine = explicit_completion_engine();
    let mut worker = WorkerState::with_model("fixed-candidates".to_string());
    engine.submit_async_conversion(&mut worker, AsyncRequestKind::Explicit, false, Vec::new());
    engine.pending_async_request.as_mut().unwrap().skip_learning = true;

    answer(&mut worker, &["model-only"], Vec::new());
    assert!(
        poll(&mut engine, &mut worker).is_none(),
        "completion was accepted from stale request metadata"
    );
}

#[test]
fn counter_auto_completion_prefers_closed_table_live_text_when_model_returns_homonym_first() {
    for num_candidates in [3, 9] {
        let mut engine = composing_engine("10けん");
        engine.config.num_candidates = num_candidates;
        let sources = AutoSources {
            counter_surface: Some("10件".to_string()),
            ..no_auto_sources()
        };
        let result = convert_automatically(&mut engine, &["10軒", "model-only"], sources);
        assert_eq!(engine.live.text, "10件", "num_candidates={num_candidates}");
        assert_eq!(preedit_text(&result).as_deref(), Some("10件"));
    }
}

#[test]
fn counter_preference_is_scoped_while_non_counter_remains_model_first() {
    let mut non_counter = composing_engine("あいう");
    let result = convert_automatically(
        &mut non_counter,
        &["model-first", "model-second"],
        no_auto_sources(),
    );
    assert_eq!(non_counter.live.text, "model-first");
    assert_eq!(preedit_text(&result).as_deref(), Some("model-first"));

    let mut counter = composing_engine("10けん");
    let sources = AutoSources {
        counter_surface: Some("10件".to_string()),
        ..no_auto_sources()
    };
    let _ = convert_automatically(&mut counter, &["10軒", "model-second"], sources);
    assert_eq!(counter.live.text, "10件");
}

#[test]
fn live_text_is_shown_in_the_preedit_and_hides_candidates() {
    let mut engine = composing_engine("あいう");
    let result = convert_automatically(&mut engine, &["model-first", "model-second"], no_auto_sources());
    assert_eq!(engine.live.text, "model-first");
    assert_eq!(preedit_text(&result).as_deref(), Some("model-first"));
    assert!(!result.consumed);
    assert_eq!(
        result.actions[1],
        EngineAction::UpdateAuxText(AuxText::Suggest {
            reading: "あいう".to_string()
        })
    );
    assert_eq!(result.actions[2], EngineAction::HideCandidates);
}

#[test]
fn delayed_model_preserves_counter_selection_and_page_identity() {
    let sync_candidates = (0..9)
        .map(|index| {
            let mut candidate = Candidate::with_reading(&format!("10件-{index:02}"), "10けん");
            candidate.source = Some(CandidateSource::Rewriter);
            candidate.description = Some("件".to_string());
            candidate
        })
        .collect();
    let mut engine = engine();
    engine.state = InputState::Conversion {
        preedit: Preedit::with_text_highlighted("10件-08"),
        candidates: CandidateList::new(sync_candidates),
    };
    engine.input_buf.text = "10けん".to_string();
    engine.input_buf.cursor_pos = "10けん".chars().count();
    select(&mut engine, 8);
    let before = candidates(&engine).selected().unwrap().clone();
    assert_eq!(candidates(&engine).page_size(), 9);
    assert_eq!(candidates(&engine).total_pages(), 1);
    assert_eq!(candidates(&engine).cursor(), 8);
    assert_eq!(before.text, "10件-08");
    assert_eq!(before.source, Some(CandidateSource::Rewriter));

    let result = convert_explicitly(
        &mut engine,
        &["10件-08", "10件-09", "10件-10"],
        no_explicit_sources(),
    );
    let after = candidates(&engine);
    assert_eq!(after.page_size(), 9);
    assert_eq!(after.total_pages(), 2);
    assert_eq!(after.cursor(), 8);
    assert_eq!(after.current_page(), 0);
    assert_eq!(after.selected().unwrap().text, "10件-08");
    assert_eq!(after.selected().unwrap(), &before);
    assert_eq!(after.candidates()[9].text, "10件-09");
    assert_eq!(preedit_text(&result).as_deref(), Some("10件-08"));

    // The first candidate of the next page.
    select(&mut engine, 9);
    let shown = candidates(&engine);
    assert_eq!(shown.page_size(), 9);
    assert_eq!(shown.total_pages(), 2);
    assert_eq!(shown.current_page(), 1);
    assert_eq!(shown.selected().unwrap().text, "10件-09");
}

#[test]
fn explicit_completion_preserves_live_candidate_as_selected_identity() {
    let mut engine = composing_engine("あい");
    engine.live.text = "愛".to_string();
    engine.state = InputState::Conversion {
        preedit: Preedit::with_text_highlighted("愛"),
        candidates: CandidateList::new(vec![
            Candidate::with_reading(&engine.live.text, "あい"),
            Candidate::with_reading("あい", "あい"),
            Candidate::with_reading("アイ", "あい"),
        ]),
    };

    assert_eq!(
        candidate_texts(&engine).first().map(String::as_str),
        Some("愛")
    );
    assert_eq!(candidates(&engine).cursor(), 0);
    assert_eq!(candidates(&engine).selected().unwrap().text, "愛");

    let _ = convert_explicitly(&mut engine, &["gated:アイ"], no_explicit_sources());
    let candidates = candidates(&engine);
    assert_eq!(candidates.candidates().first().unwrap().text, "愛");
    assert_eq!(candidates.cursor(), 0);
    assert_eq!(candidates.selected().unwrap().text, "愛");
}

#[test]
fn delayed_counter_auto_completion_preserves_candidates_selection_and_page_identity() {
    let dictionary = || -> Vec<Candidate> {
        (0..8)
            .map(|index| {
                let mut candidate = Candidate::with_reading(&format!("辞書{index:02}"), "10けん");
                candidate.source = Some(CandidateSource::Dictionary);
                candidate
            })
            .collect()
    };
    let rewriter = || -> Vec<Candidate> {
        HalfWidthKatakanaRewriter
            .rewrite("10けん")
            .into_iter()
            .map(|(text, description)| {
                let mut candidate = Candidate::with_reading(&text, "10けん");
                candidate.source = Some(CandidateSource::Rewriter);
                candidate.description = description;
                candidate
            })
            .collect()
    };
    let mut engine = composing_engine("10けん");
    let sources = AutoSources {
        dictionary: dictionary(),
        rewriter: rewriter(),
        counter_surface: Some("10件".to_string()),
        ..no_auto_sources()
    };
    let _ = convert_automatically(&mut engine, &["10軒"], sources);
    assert_eq!(engine.live.text, "10件");

    let mut offered = vec![
        Candidate::with_reading(&engine.live.text, "10けん"),
        Candidate::with_reading("10軒", "10けん"),
        Candidate::with_reading("10けん", "10けん"),
    ];
    append_candidates_dedup(&mut offered, dictionary());
    append_candidates_dedup(&mut offered, rewriter());
    engine.state = InputState::Conversion {
        preedit: Preedit::with_text_highlighted("10件"),
        candidates: CandidateList::new(offered),
    };
    let before = candidates(&engine).clone();
    assert_eq!(before.page_size(), 9);
    assert_eq!(before.current_page(), 0);
    assert_eq!(before.total_pages(), 2);
    assert_eq!(before.cursor(), 0);
    assert_eq!(before.selected().unwrap().text, "10件");
    for expected in ["10けん", "10ケン", "10ｹﾝ", "10件", "10軒"] {
        assert!(
            candidate_texts(&engine).iter().any(|text| text == expected),
            "missing deterministic candidate before delayed merge: {expected}"
        );
    }
    select(&mut engine, 8);
    let selected_before = candidates(&engine).selected().unwrap().clone();
    let page_before = candidates(&engine).current_page();

    let sources = ExplicitSources {
        dictionary: dictionary(),
        ..no_explicit_sources()
    };
    let _ = convert_explicitly(
        &mut engine,
        &["10件", "10軒", "10軒", "model-only"],
        sources,
    );
    let after = candidates(&engine);
    assert_eq!(after.page_size(), 9);
    assert_eq!(after.current_page(), page_before);
    assert_eq!(after.cursor(), 8);
    assert_eq!(after.selected().unwrap().text, selected_before.text);
    assert_eq!(after.selected().unwrap().reading, selected_before.reading);
    assert_eq!(after.total_pages(), 2);

    let after_texts = candidate_texts(&engine);
    assert_eq!(after_texts.iter().filter(|text| *text == "10件").count(), 1);
    assert_eq!(after_texts.iter().filter(|text| *text == "10軒").count(), 1);
    assert!(after_texts.iter().any(|text| text == "model-only"));
    for candidate in before.candidates() {
        assert!(
            after.candidates().contains(candidate),
            "deterministic candidate identity changed after delayed merge: {}",
            candidate.text
        );
    }
}

#[test]
fn polling_shows_an_automatic_completion() {
    let mut engine = composing_engine("あいう");
    let mut worker = WorkerState::with_model("fixed-candidates".to_string());
    engine.submit_async_conversion(&mut worker, AsyncRequestKind::AutoSuggest, false, Vec::new());
    let cache = vec![ComposingChunk {
        position: 0,
        reading: "あいう".to_string(),
        converted: "合う".to_string(),
        fresh: true,
    }];
    answer(&mut worker, &["合う"], cache);
    let result = engine
        .poll_async_conversion(
            &mut worker,
            &mut AssetReport::Running,
            |engine, completion| {
                assert!(engine.pending_async_request.is_none());
                assert_eq!(completion.snapshot.reading, "あいう");
                no_auto_sources()
            },
            |_, _| panic!("not an explicit completion"),
            render,
        )
        .unwrap();
    assert!(!result.consumed);
    assert_eq!(preedit_text(&result).as_deref(), Some("合う"));
    assert_eq!(engine.live.text, "合う");
    assert_eq!(engine.chunks[0].converted, "合う");
    assert_eq!(engine.pending_async_request, None);
}

#[test]
fn polling_shows_an_explicit_completion() {
    let mut engine = explicit_completion_engine();
    let mut worker = WorkerState::with_model("fixed-candidates".to_string());
    engine.submit_async_conversion(&mut worker, AsyncRequestKind::Explicit, false, Vec::new());
    answer(&mut worker, &["model"], Vec::new());
    let result = engine
        .poll_async_conversion(
            &mut worker,
            &mut AssetReport::Running,
            |_, _| panic!("not an automatic completion"),
            |_, _| ExplicitSources {
                dictionary: vec![Candidate::with_reading("late-dict", "あ")],
                ..no_explicit_sources()
            },
            |_| panic!("nothing to draw"),
        )
        .unwrap();
    assert!(!result.consumed);
    assert_eq!(
        candidate_texts(&engine),
        vec!["sync-first", "sync-second", "late-dict", "model"]
    );
    assert_eq!(engine.pending_async_request, None);
}

#[test]
fn polling_shows_nothing_stale() {
    let mut engine = composing_engine("あいう");
    let mut worker = WorkerState::with_model("fixed-candidates".to_string());
    engine.submit_async_conversion(&mut worker, AsyncRequestKind::AutoSuggest, false, Vec::new());
    answer(&mut worker, &["合う"], Vec::new());
    engine.generation += 1;
    let result = engine.poll_async_conversion(
        &mut worker,
        &mut AssetReport::Running,
        |_, _| panic!("nothing to look up"),
        |_, _| panic!("nothing to look up"),
        |_| panic!("nothing to draw"),
    );
    assert_eq!(result, None);
    assert_eq!(engine.live.text, "");
    assert!(engine.pending_async_request.is_some());
}

#[test]
fn late_dictionary_candidates_are_merged_before_the_model() {
    let mut engine = explicit_completion_engine();
    select(&mut engine, 1);
    let sources = ExplicitSources {
        dictionary: vec![
            Candidate::with_reading("late-dict", "あ"),
            Candidate::with_reading("gated:ア", "あ"),
            Candidate::with_reading("sync-first", "あ"),
        ],
        ..no_explicit_sources()
    };
    let result = convert_explicitly(&mut engine, &["gated:ア", "model"], sources);
    assert_eq!(
        candidate_texts(&engine),
        vec!["sync-first", "sync-second", "late-dict", "gated:ア", "model"]
    );
    assert_eq!(candidates(&engine).cursor(), 1);
    assert_eq!(preedit_text(&result).as_deref(), Some("sync-second"));
    assert!(engine.pending_async_request.is_none());
}

#[test]
fn script_variants_are_left_out_only_where_that_is_wanted() {
    for (filter, expected) in [
        (true, vec!["sync-first", "sync-second", "亜"]),
        (false, vec!["sync-first", "sync-second", "ア", "亜"]),
    ] {
        let mut engine = explicit_completion_engine();
        let sources = ExplicitSources {
            filter_script_variants: filter,
            script_variants: strings(&["ア"]),
            ..no_explicit_sources()
        };
        let _ = convert_explicitly(&mut engine, &["ア", "亜"], sources);
        assert_eq!(candidate_texts(&engine), expected);
    }
}

#[test]
fn explicit_completion_shows_the_selected_candidate() {
    let mut engine = explicit_completion_engine();
    let result = convert_explicitly(&mut engine, &["model"], no_explicit_sources());
    let list = candidates(&engine).clone();
    assert_eq!(
        result,
        EngineResult {
            consumed: false,
            actions: vec![
                EngineAction::UpdatePreedit(Preedit::with_text_highlighted("sync-first")),
                EngineAction::ShowCandidates(list.clone()),
                EngineAction::UpdateAuxText(AuxText::Conversion {
                    reading: "あ".to_string(),
                    page: Some(list),
                }),
            ],
        }
    );
}

#[test]
fn explicit_completion_without_candidates_shows_the_reading() {
    let mut engine = explicit_completion_engine();
    engine.state = InputState::Conversion {
        preedit: Preedit::with_text_underlined("あ"),
        candidates: CandidateList::new(Vec::new()),
    };
    let result = convert_explicitly(&mut engine, &[], no_explicit_sources());
    assert_eq!(
        result.actions,
        vec![
            EngineAction::UpdatePreedit(Preedit::with_text_underlined("あ")),
            EngineAction::HideCandidates,
            EngineAction::UpdateAuxText(AuxText::Conversion {
                reading: "あ".to_string(),
                page: None,
            }),
        ]
    );
    assert!(candidates(&engine).is_empty());
}

#[test]
fn explicit_completion_outside_of_conversion_does_nothing() {
    let mut engine = composing_engine("あ");
    let result = convert_explicitly(&mut engine, &["model"], no_explicit_sources());
    assert_eq!(result, EngineResult::not_consumed());
    assert_eq!(
        engine.state,
        InputState::Composing {
            preedit: Preedit::with_text_underlined("あ")
        }
    );
}

#[test]
fn suggestions_come_from_all_sources_without_repeats() {
    let mut engine = composing_engine("あい");
    engine.live.enabled = false;
    let sources = AutoSources {
        learning: vec![Candidate::with_reading("藍", "あい")],
        dictionary: vec![
            Candidate::with_reading("愛", "あい"),
            Candidate::with_reading("相", "あい"),
        ],
        rewriter: vec![
            Candidate::with_reading("アイ", "あい"),
            Candidate::with_reading("藍", "あい"),
        ],
        counter_surface: None,
    };
    let result = convert_automatically(&mut engine, &["あい", "愛"], sources);
    assert_eq!(engine.live.text, "");
    match &result.actions[2] {
        EngineAction::ShowCandidates(list) => {
            let texts: Vec<&str> = list
                .candidates()
                .iter()
                .map(|candidate| candidate.text.as_str())
                .collect();
            assert_eq!(texts, vec!["藍", "愛", "相", "アイ"]);
            assert_eq!(list.candidates()[1].source, Some(CandidateSource::Model));
        }
        other => panic!("expected candidates, got {other:?}"),
    }
    let result = convert_automatically(&mut engine, &[], no_auto_sources());
    assert_eq!(result.actions[2], EngineAction::HideCandidates);
}

#[test]
fn live_conversion_hides_candidates_in_kana_and_alphabet_modes_only() {
    for (mode, hidden) in [
        (InputMode::Hiragana, true),
        (InputMode::Alphabet, true),
        (InputMode::Emoji, false),
    ] {
        let mut engine = composing_engine("あいう");
        engine.mode.set(mode);
        let result = convert_automatically(&mut engine, &["愛"], no_auto_sources());
        assert_eq!(engine.live.text, "愛");
        assert_eq!(
            matches!(result.actions[2], EngineAction::HideCandidates),
            hidden
        );
    }
}

#[test]
fn accepted_completion_leaves_measurements_and_ends_the_wait() {
    let mut engine = composing_engine("あいう");
    let mut worker = WorkerState::with_model("fixed-candidates".to_string());
    let plan = vec![ChunkRequest {
        position: 0,
        reading: "あいう".to_string(),
        context: String::new(),
        converted: "あいう".to_string(),
        should_convert: true,
    }];
    engine.submit_async_conversion(&mut worker, AsyncRequestKind::AutoSuggest, true, plan);
    assert_eq!(engine.pending_async_request.unwrap().candidate_count, 1);
    assert_eq!(worker.pending_conversion_generation(), Some(0));
    let cache = vec![ComposingChunk {
        position: 0,
        reading: "あいう".to_string(),
        converted: "合う".to_string(),
        fresh: true,
    }];
    answer(&mut worker, &["合う"], cache);
    let completion = auto_completion(&mut engine, &mut worker);
    assert!(completion.snapshot.skip_learning);
    assert_eq!(engine.pending_async_request, None);
    assert_eq!(engine.metrics.conversion_ms, 12);
    assert_eq!(engine.metrics.model_name, "fixed-candidates");
    assert!(engine.metrics.adaptive_use_light_model);
    assert_eq!(engine.metrics.token_count, Some(5));
    assert_eq!(
        engine.converters.kanji,
        Some(CompatibilityTokenCounter { token_count: 5 })
    );
    let _ = engine.apply_auto_completion(completion, no_auto_sources(), render);
    assert_eq!(engine.chunks[0].converted, "合う");
    assert!(poll(&mut engine, &mut worker).is_none());
}

#[test]
fn any_change_makes_a_completion_stale() {
    let changes: Vec<fn(&mut Engine)> = vec![
        |engine| engine.generation += 1,
        |engine| engine.input_buf.text = "あいうえ".to_string(),
        |engine| engine.context = "新しい左文脈".to_string(),
        |engine| engine.mode.set(InputMode::Katakana),
        |engine| engine.state = InputState::Empty,
        |engine| engine.chunk_cache_epoch += 1,
        |engine| engine.pending_async_request = None,
    ];
    for change in changes {
        let mut engine = composing_engine("あいう");
        let mut worker = WorkerState::with_model("fixed-candidates".to_string());
        engine.submit_async_conversion(
            &mut worker,
            AsyncRequestKind::AutoSuggest,
            false,
            Vec::new(),
        );
        answer(&mut worker, &["合う"], Vec::new());
        change(&mut engine);
        assert!(poll(&mut engine, &mut worker).is_none());
        assert_eq!(engine.live.text, "");
        assert_eq!(engine.metrics.conversion_ms, 0);
        assert!(engine.chunks.is_empty());
    }
}

#[test]
fn completion_without_a_model_is_not_accepted() {
    let mut engine = composing_engine("あいう");
    let mut worker = WorkerState::new();
    engine.submit_async_conversion(&mut worker, AsyncRequestKind::AutoSuggest, false, Vec::new());
    match worker.next_step() {
        WorkerStep::Convert(epoch, request) => {
            let completion = karukan::conversion::unanswered_completion(request);
            worker.finish_conversion(epoch, completion, false);
        }
        other => panic!("expected a conversion, got {other:?}"),
    }
    assert!(poll(&mut engine, &mut worker).is_none());
    assert!(engine.pending_async_request.is_some());
}

#[test]
fn nothing_is_submitted_without_kana_or_in_katakana_mode() {
    for (reading, mode) in [
        ("", InputMode::Hiragana),
        ("123", InputMode::Hiragana),
        ("あいう", InputMode::Katakana),
    ] {
        let mut engine = composing_engine(reading);
        engine.mode.set(mode);
        let mut worker = WorkerState::with_model("fixed-candidates".to_string());
        engine.submit_async_conversion(&mut worker, AsyncRequestKind::Explicit, false, Vec::new());
        assert_eq!(worker.pending_conversion_count(), 0);
        assert_eq!(engine.pending_async_request, None);
    }
}

#[test]
fn polling_takes_loaded_assets_even_without_a_completion() {
    let mut engine = engine();
    engine.dicts.user = Some("user dictionary");
    engine.pending_init_assets = true;
    let mut worker = WorkerState::new();
    let mut report = AssetReport::Finished(InitAssets {
        system: Some("system dictionary"),
        user: Some("another user dictionary"),
        learning: Some("learning cache"),
    });
    assert!(engine.poll_completion(&mut worker, &mut report).is_none());
    assert_eq!(engine.dicts.system, Some("system dictionary"));
    assert_eq!(engine.dicts.user, Some("user dictionary"));
    assert_eq!(engine.learning, Some("learning cache"));
    assert!(!engine.pending_init_assets);
    assert!(matches!(report, AssetReport::Running));
}

#[test]
fn loaded_assets_do_not_disturb_a_request() {
    let mut engine = composing_engine("あいう");
    engine.pending_init_assets = true;
    let mut worker = WorkerState::with_model("fixed-candidates".to_string());
    engine.submit_async_conversion(&mut worker, AsyncRequestKind::AutoSuggest, false, Vec::new());
    answer(&mut worker, &["合う"], Vec::new());
    let mut report = AssetReport::Finished(InitAssets {
        system: None,
        user: Some("user dictionary"),
        learning: None,
    });
    let accepted = engine.poll_completion(&mut worker, &mut report);
    assert!(matches!(accepted, Some(AcceptedCompletion::AutoSuggest(_))));
    assert_eq!(engine.dicts.user, Some("user dictionary"));
}

#[test]
fn selection_moves_to_an_earlier_listing_of_the_same_candidate() {
    let mut engine = explicit_completion_engine();
    engine.state = InputState::Conversion {
        preedit: Preedit::with_text_highlighted("愛"),
        candidates: CandidateList::new(vec![
            Candidate::with_reading("愛", "あい"),
            Candidate::with_reading("愛", "あ"),
            Candidate::with_reading("愛", "あ"),
        ]),
    };
    select(&mut engine, 2);
    let _ = convert_explicitly(&mut engine, &["愛"], no_explicit_sources());
    assert_eq!(candidates(&engine).candidates().len(), 3);
    assert_eq!(candidates(&engine).cursor(), 1);
    assert_eq!(
        candidates(&engine).selected().unwrap().reading,
        Some("あ".to_string())
    );
}
