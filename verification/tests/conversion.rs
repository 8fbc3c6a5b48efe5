use karukan::candidates::{
    append_candidates_dedup, contains_text, merge_candidates_dedup, model_proposals, Candidate,
    CandidateList, CandidateSource, PAGE_SIZE,
};
use karukan::conversion::{
    adaptive_choice, backend_calls, chunk_query, convert_chunks, convert_request,
    convert_with_strategy, model_label, reading_query, AsyncInputState, AsyncRequestKind,
    BackendCalls, ChunkRequest, ConversionRequest, ConversionSnapshot, ConversionStrategy,
    EngineConfig, InferenceOutcome, InputMode, StrategyMode,
};
use karukan::job::{start_request, ConversionJob, JobAction, JobEvent, RequestStart};
use karukan::kana::{contains_kana, hiragana_to_katakana, katakana_to_half_width};
use karukan::preedit::{Preedit, PreeditAttribute, PreeditSegment};

fn strings(texts: &[&str]) -> Vec<String> {
    texts.iter().map(|text| text.to_string()).collect()
}

fn candidates(texts: &[&str]) -> Vec<Candidate> {
    texts
        .iter()
        .map(|text| Candidate::with_reading(text, "よみ"))
        .collect()
}

fn texts(candidates: &[Candidate]) -> Vec<String> {
    candidates
        .iter()
        .map(|candidate| candidate.text.clone())
        .collect()
}

fn chunk(position: usize, reading: &str, converted: &str, should_convert: bool) -> ChunkRequest {
    ChunkRequest {
        position,
        reading: reading.to_string(),
        context: "左".to_string(),
        converted: converted.to_string(),
        should_convert,
    }
}

fn request(kind: AsyncRequestKind, reading: &str, chunks: Vec<ChunkRequest>) -> ConversionRequest {
    ConversionRequest {
        snapshot: ConversionSnapshot {
            generation: 1,
            reading: reading.to_string(),
            context: "文脈".to_string(),
            mode: InputMode::Hiragana,
            input_state: AsyncInputState::Composing,
            request_kind: kind,
            candidate_count: 3,
            skip_learning: false,
            chunk_cache_epoch: 0,
        },
        chunks,
        config: config(StrategyMode::Adaptive, 10),
    }
}

fn config(strategy: StrategyMode, max_latency_ms: u64) -> EngineConfig {
    EngineConfig {
        strategy,
        num_candidates: 9,
        max_latency_ms,
    }
}

fn outcome(strategy: ConversionStrategy, chunk_replies: Vec<Vec<String>>) -> InferenceOutcome {
    InferenceOutcome {
        token_count: Some(2),
        strategy,
        candidates: strings(&["愛", "藍"]),
        chunk_replies,
        elapsed_ms: 11,
        main_name: "main".to_string(),
        light_name: "light".to_string(),
    }
}

#[test]
fn katakana_forms() {
    assert_eq!(hiragana_to_katakana("ぁゖん漢abcア"), "ァヶン漢abcア");
    assert_eq!(katakana_to_half_width("ガパヴヲッー・漢"), "ｶﾞﾊﾟｳﾞｦｯｰ･漢");
    assert_eq!(
        katakana_to_half_width("アカサタナハマヤラワン"),
        "ｱｶｻﾀﾅﾊﾏﾔﾗﾜﾝ"
    );
    assert!(contains_kana("漢字とa"));
    assert!(!contains_kana("漢字123"));
    assert!(!contains_kana(""));
}

#[test]
fn appending_skips_known_texts_and_keeps_the_order() {
    let mut list = candidates(&["一", "二"]);
    append_candidates_dedup(&mut list, candidates(&["三", "一", "三", "四"]));
    assert_eq!(texts(&list), strings(&["一", "二", "三", "四"]));
    assert!(contains_text(&list, &"四".to_string()));
    assert!(!contains_text(&list, &"五".to_string()));
    append_candidates_dedup(&mut list, Vec::new());
    assert_eq!(list.len(), 4);
}

#[test]
fn merging_takes_the_first_list_first_and_keeps_to_the_limit() {
    let main = strings(&["a", "b", "a"]);
    let light = strings(&["b", "c", "d"]);
    assert_eq!(
        merge_candidates_dedup(main, light, 3),
        strings(&["a", "b", "c"])
    );
    assert_eq!(
        merge_candidates_dedup(strings(&["a"]), strings(&["a"]), 3),
        strings(&["a"])
    );
    assert_eq!(
        merge_candidates_dedup(strings(&["a"]), strings(&["b"]), 0),
        Vec::<String>::new()
    );
}

#[test]
fn model_texts_become_candidates_unless_dropped() {
    let reading = "あい".to_string();
    let list = model_proposals(
        strings(&["愛", "あい", "藍"]),
        &reading,
        &strings(&["あい"]),
    );
    assert_eq!(texts(&list), strings(&["愛", "藍"]));
    assert_eq!(list[0].reading, Some(reading));
    assert_eq!(list[0].source, Some(CandidateSource::Model));
    assert_eq!(list[0].description, None);
}

#[test]
fn candidate_list_selects_and_counts_pages() {
    let mut list = CandidateList::new(candidates(&["0", "1", "2", "3", "4", "5", "6", "7", "8"]));
    assert_eq!(list.page_size(), PAGE_SIZE);
    assert_eq!(list.total_pages(), 1);
    assert_eq!(list.cursor(), 0);
    assert!(list.select(8));
    assert!(!list.select(9));
    assert_eq!(list.cursor(), 8);
    assert_eq!(list.selected().unwrap().text, "8");
    assert_eq!(list.current_page(), 0);
    let mut more = list.candidates().clone();
    more.push(Candidate::with_reading("9", "よみ"));
    let mut list = CandidateList::new(more);
    assert_eq!(list.total_pages(), 2);
    assert!(list.select(9));
    assert_eq!(list.current_page(), 1);
    let list = CandidateList::new(Vec::new());
    assert!(list.is_empty());
    assert_eq!(list.selected(), None);
    assert_eq!(list.total_pages(), 0);
}

#[test]
fn preedit_text_joins_its_segments() {
    let preedit = Preedit::with_text_underlined("あい");
    assert_eq!(preedit.text(), "あい");
    assert_eq!(preedit.caret, 2);
    assert_eq!(preedit.segments[0].attribute, PreeditAttribute::Underline);
    let preedit = Preedit::with_text_highlighted("愛");
    assert_eq!(preedit.caret, 1);
    assert_eq!(preedit.segments[0].attribute, PreeditAttribute::Highlight);
    let preedit = Preedit::from_segments(
        vec![
            PreeditSegment::highlighted("愛"),
            PreeditSegment::highlighted("です"),
        ],
        3,
    );
    assert_eq!(preedit.text(), "愛です");
}

#[test]
fn queries_are_in_katakana() {
    let request = request(AsyncRequestKind::Explicit, "ひらがな", Vec::new());
    let query = reading_query(&request.snapshot);
    assert_eq!(query.reading, "ヒラガナ");
    assert_eq!(query.context, "文脈");
    assert_eq!(query.candidate_count, 3);
    let query = chunk_query(&chunk(0, "けん", "けん", true));
    assert_eq!(query.reading, "ケン");
    assert_eq!(query.context, "左");
    assert_eq!(query.candidate_count, 1);
}

#[test]
fn strategies_ask_the_models_that_are_there() {
    let beam = ConversionStrategy::ParallelBeam { beam_width: 5 };
    let wide = ConversionStrategy::MainModelBeam { beam_width: 4 };
    let calls = |main, light| BackendCalls { main, light };
    assert_eq!(backend_calls(beam, true, true), calls(Some(1), Some(5)));
    assert_eq!(backend_calls(beam, true, false), calls(Some(1), None));
    assert_eq!(
        backend_calls(ConversionStrategy::LightModelOnly, true, true),
        calls(None, Some(1))
    );
    assert_eq!(
        backend_calls(ConversionStrategy::LightModelOnly, true, false),
        calls(Some(1), None)
    );
    assert_eq!(
        backend_calls(ConversionStrategy::MainModelOnly, true, true),
        calls(Some(1), None)
    );
    assert_eq!(backend_calls(wide, true, true), calls(Some(4), None));
    assert_eq!(backend_calls(wide, false, true), calls(None, None));
}

#[test]
fn replies_amount_to_candidates() {
    let (main, light) = (strings(&["a"]), strings(&["b", "a"]));
    let with = |strategy, has_light| {
        convert_with_strategy(strategy, has_light, main.clone(), light.clone())
    };
    assert_eq!(
        with(ConversionStrategy::ParallelBeam { beam_width: 2 }, true),
        strings(&["a", "b"])
    );
    assert_eq!(with(ConversionStrategy::LightModelOnly, true), light);
    assert_eq!(with(ConversionStrategy::LightModelOnly, false), main);
    assert_eq!(with(ConversionStrategy::MainModelOnly, true), main);
    assert_eq!(
        with(ConversionStrategy::MainModelBeam { beam_width: 2 }, true),
        main
    );
}

#[test]
fn labels_name_the_models_behind_a_conversion() {
    let label = |strategy, main: &str, light: &str| {
        model_label(strategy, main.to_string(), light.to_string())
    };
    let beam = ConversionStrategy::ParallelBeam { beam_width: 3 };
    assert_eq!(label(beam, "main", "light"), "main + light");
    assert_eq!(label(beam, "main", ""), "main");
    assert_eq!(label(beam, "", "light"), "light");
    assert_eq!(label(beam, "", ""), "");
    assert_eq!(
        label(ConversionStrategy::LightModelOnly, "main", "light"),
        "light"
    );
    assert_eq!(
        label(ConversionStrategy::LightModelOnly, "main", ""),
        "main"
    );
    assert_eq!(
        label(
            ConversionStrategy::MainModelBeam { beam_width: 3 },
            "main",
            "light"
        ),
        "light"
    );
    assert_eq!(
        label(ConversionStrategy::MainModelOnly, "main", "light"),
        "main"
    );
}

#[test]
fn slow_main_model_hands_over_to_the_light_one() {
    let main = ConversionStrategy::MainModelOnly;
    let adaptive = config(StrategyMode::Adaptive, 10);
    assert!(adaptive_choice(adaptive, main, true, 11, false));
    assert!(!adaptive_choice(adaptive, main, true, 10, true));
    assert!(!adaptive_choice(adaptive, main, false, 11, false));
    assert!(adaptive_choice(
        adaptive,
        ConversionStrategy::LightModelOnly,
        true,
        1,
        true
    ));
    assert!(!adaptive_choice(
        config(StrategyMode::Main, 10),
        main,
        true,
        11,
        false
    ));
    assert!(!adaptive_choice(
        config(StrategyMode::Adaptive, 0),
        main,
        true,
        11,
        false
    ));
}

#[test]
fn chunks_keep_their_place_and_fall_back_to_what_is_known() {
    let chunks = vec![
        chunk(0, "あい", "愛", true),
        chunk(2, "12", "12", false),
        chunk(4, "けん", "件", true),
    ];
    let replies = vec![strings(&["藍", "愛"]), strings(&["ignored"]), Vec::new()];
    let (converted, combined) = convert_chunks(&chunks, &replies);
    assert_eq!(combined, "藍12件");
    let kept: Vec<(usize, &str, &str)> = converted
        .iter()
        .map(|c| (c.position, c.reading.as_str(), c.converted.as_str()))
        .collect();
    assert_eq!(
        kept,
        vec![(0, "あい", "藍"), (2, "12", "12"), (4, "けん", "件")]
    );
    assert!(converted.iter().all(|c| c.fresh));
}

#[test]
fn explicit_completion_carries_the_candidates() {
    let request = request(AsyncRequestKind::Explicit, "あい", Vec::new());
    let strategy = ConversionStrategy::ParallelBeam { beam_width: 3 };
    let completion = convert_request(request, outcome(strategy, Vec::new()), true, false);
    assert!(completion.ready);
    assert_eq!(completion.model_candidates, strings(&["愛", "藍"]));
    assert!(completion.chunk_cache.is_empty());
    assert_eq!(completion.metrics.conversion_ms, 11);
    assert_eq!(completion.metrics.model_name, "main + light");
    assert!(completion.metrics.adaptive_use_light_model);
    assert_eq!(completion.metrics.token_count, Some(2));
}

#[test]
fn automatic_completion_proposes_only_what_differs_from_the_reading() {
    let strategy = ConversionStrategy::LightModelOnly;
    let changed = request(
        AsyncRequestKind::AutoSuggest,
        "あい",
        vec![chunk(0, "あい", "あい", true)],
    );
    let replies = vec![strings(&["愛"])];
    let completion = convert_request(changed, outcome(strategy, replies), true, false);
    assert_eq!(completion.model_candidates, strings(&["愛"]));
    assert!(!completion.metrics.adaptive_use_light_model);

    let unchanged = request(
        AsyncRequestKind::AutoSuggest,
        "あい",
        vec![chunk(0, "あい", "あい", true)],
    );
    let completion = convert_request(unchanged, outcome(strategy, vec![Vec::new()]), true, false);
    assert!(completion.model_candidates.is_empty());
    assert_eq!(completion.chunk_cache.len(), 1);
}

#[test]
fn job_skips_chunks_that_are_up_to_date() {
    let chunks = vec![
        chunk(0, "12", "12", false),
        chunk(2, "けん", "けん", true),
        chunk(4, "34", "34", false),
    ];
    let job = ConversionJob::new(
        request(AsyncRequestKind::AutoSuggest, "12けん34", chunks),
        false,
        false,
    );
    assert_eq!(
        job.action(),
        JobAction::CountTokens("12ケン34".to_string())
    );
    // An event that the job does not wait for changes nothing.
    let job = job.step(JobEvent::Replies(Vec::new(), Vec::new()));
    let job = job.step(JobEvent::Tokens(None));
    match job.action() {
        JobAction::ChooseStrategy(inputs) => {
            assert_eq!(inputs.token_count, 0);
            assert_eq!(inputs.candidate_count, 3);
            assert!(!inputs.has_light_model);
        }
        other => panic!("unexpected action {other:?}"),
    }
    let job = job.step(JobEvent::Strategy(ConversionStrategy::MainModelOnly));
    assert_eq!(job.action(), JobAction::CountTokens("ケン".to_string()));
    let job = job.step(JobEvent::Tokens(Some(2)));
    match job.action() {
        JobAction::ChooseStrategy(inputs) => {
            assert_eq!(inputs.token_count, 2);
            assert_eq!(inputs.candidate_count, 1);
        }
        other => panic!("unexpected action {other:?}"),
    }
    let job = job.step(JobEvent::Strategy(ConversionStrategy::MainModelOnly));
    match job.action() {
        JobAction::Infer(query, calls) => {
            assert_eq!(query.reading, "ケン");
            assert_eq!(calls.main, Some(1));
            assert_eq!(calls.light, None);
        }
        other => panic!("unexpected action {other:?}"),
    }
    let job = job.step(JobEvent::Replies(strings(&["軒"]), Vec::new()));
    assert_eq!(job.action(), JobAction::Finish);
    let completion = job.finish(3, "main".to_string(), String::new());
    assert_eq!(completion.model_candidates, strings(&["12軒34"]));
    assert_eq!(completion.metrics.token_count, None);
    assert_eq!(completion.metrics.model_name, "main");
}

#[test]
fn job_without_changed_chunks_infers_nothing() {
    let job = ConversionJob::new(
        request(
            AsyncRequestKind::AutoSuggest,
            "12",
            vec![chunk(0, "12", "12", false)],
        ),
        true,
        false,
    );
    let job = job.step(JobEvent::Tokens(Some(1)));
    let job = job.step(JobEvent::Strategy(ConversionStrategy::MainModelOnly));
    assert_eq!(job.action(), JobAction::Finish);
    let completion = job.finish(1, "main".to_string(), "light".to_string());
    assert!(completion.model_candidates.is_empty());
    assert_eq!(completion.chunk_cache[0].converted, "12");
}

#[test]
fn job_ends_after_three_answers_for_the_reading_and_each_chunk() {
    let chunks = vec![
        chunk(0, "あ", "あ", true),
        chunk(1, "い", "い", true),
        chunk(2, "う", "う", true),
    ];
    let mut job = ConversionJob::new(
        request(AsyncRequestKind::AutoSuggest, "あいう", chunks),
        false,
        false,
    );
    let mut answers = 0;
    loop {
        let event = match job.action() {
            JobAction::CountTokens(_) => JobEvent::Tokens(Some(1)),
            JobAction::ChooseStrategy(_) => JobEvent::Strategy(ConversionStrategy::MainModelOnly),
            JobAction::Infer(query, _) => JobEvent::Replies(vec![query.reading], Vec::new()),
            JobAction::Finish => break,
        };
        job = job.step(event);
        answers += 1;
    }
    assert_eq!(answers, 11);
    let completion = job.finish(0, String::new(), String::new());
    assert_eq!(completion.model_candidates, strings(&["アイウ"]));
}

#[test]
fn explicit_job_takes_three_answers() {
    let job = ConversionJob::new(
        request(AsyncRequestKind::Explicit, "あい", Vec::new()),
        true,
        false,
    );
    let strategy = ConversionStrategy::ParallelBeam { beam_width: 2 };
    let job = job.step(JobEvent::Tokens(Some(2)));
    let job = job.step(JobEvent::Strategy(strategy));
    match job.action() {
        JobAction::Infer(query, calls) => {
            assert_eq!(query.reading, "アイ");
            assert_eq!(query.context, "文脈");
            assert_eq!((calls.main, calls.light), (Some(1), Some(2)));
        }
        other => panic!("unexpected action {other:?}"),
    }
    let job = job.step(JobEvent::Replies(
        strings(&["愛"]),
        strings(&["愛", "藍", "相"]),
    ));
    assert_eq!(job.action(), JobAction::Finish);
    let completion = job.finish(5, "main".to_string(), "light".to_string());
    assert_eq!(completion.model_candidates, strings(&["愛", "藍"]));
}

#[test]
fn request_starts_a_job_only_with_a_main_model() {
    let chunks = || vec![chunk(0, "あ", "亜", true)];
    let auto = || request(AsyncRequestKind::AutoSuggest, "あ", chunks());
    match start_request(auto(), false, true, true) {
        RequestStart::Unanswered(completion) => {
            assert!(!completion.ready);
            assert!(completion.model_candidates.is_empty());
            assert_eq!(completion.chunk_cache[0].converted, "亜");
            assert!(!completion.chunk_cache[0].fresh);
            assert!(!completion.metrics.adaptive_use_light_model);
        }
        other => panic!("expected no job, got {other:?}"),
    }
    match start_request(auto(), true, false, false) {
        RequestStart::Job(job) => {
            assert_eq!(job.action(), JobAction::CountTokens("ア".to_string()));
        }
        other => panic!("expected a job, got {other:?}"),
    }
}
