use ai_debate::config::choose_provider;
use ai_debate::session::Session;
use ai_debate::config::provider_registry;
use ai_debate::events::BackendEvent;
use ai_debate::events::DebateEvent;
use ai_debate::events::event_frame;
use ai_debate::events::normalize_backend_event;
use ai_debate::events::round_failure_event;
use ai_debate::prompts::MessageKind;
use ai_debate::prompts::build_judge_prompt;
use ai_debate::prompts::build_side_prompt;
use ai_debate::prompts::build_side_prompt_with_tools;
use ai_debate::rounds::DecideOutcome;
use ai_debate::rounds::RoundStage;
use ai_debate::rounds::ToolRound;
use ai_debate::rounds::assemble_judge_output;
use ai_debate::rounds::plan_round;
use ai_debate::tools::SearchItem;
use ai_debate::tools::SearchResult;
use ai_debate::tools::failed_search_placeholder;
use ai_debate::tools::format_search_results;
use ai_debate::tools::search_tool_definition;
use ai_debate::types::ClientInfo;
use ai_debate::types::DebatePhase;
use ai_debate::types::Position;
use ai_debate::types::RoleBindings;
use ai_debate::types::TranscriptEntry;
use ai_debate::types::client_for_side;

#[test]
fn role_and_phase_wire_identifiers() {
    assert_eq!(Position::Pro.role_str(), "pro");
    assert_eq!(Position::Con.role_str(), "con");
    assert_eq!(Position::Judge.role_str(), "judge");
    assert_eq!(Position::Pro.label(), "Pro");
    assert_eq!(DebatePhase::Opening.as_str(), "opening");
    assert_eq!(DebatePhase::Judgement.as_str(), "judgement");
    assert_eq!(DebatePhase::Opening.title(), "一辩开篇");
    assert_eq!(DebatePhase::Judgement.title(), "裁判裁决");
}

#[test]
fn delta_event_frame_is_one_json_line() {
    let e = DebateEvent::Delta {
        side: Position::Pro,
        phase: DebatePhase::Opening,
        provider: "groq".to_string(),
        content: "你好".to_string(),
    };
    assert_eq!(
        event_frame(&e),
        "data: {\"type\":\"delta\",\"side\":\"pro\",\"phase\":\"opening\",\"provider\":\"groq\",\"content\":\"你好\"}\n\n"
    );
}

#[test]
fn frame_escapes_quotes_backslashes_and_controls() {
    let e = DebateEvent::Error { message: "a\"b\\c\nd\te\r\u{1}".to_string() };
    assert_eq!(
        event_frame(&e),
        "data: {\"type\":\"error\",\"message\":\"a\\\"b\\\\c\\nd\\te\\r\\u0001\"}\n\n"
    );
}

#[test]
fn done_and_init_frames() {
    assert_eq!(event_frame(&DebateEvent::Done), "data: {\"type\":\"done\"}\n\n");
    let init = DebateEvent::Init {
        message: "辩论开始".to_string(),
        pro_model: "m1".to_string(),
        con_model: "m2".to_string(),
        judge_model: "m3".to_string(),
    };
    assert_eq!(
        event_frame(&init),
        "data: {\"type\":\"phase\",\"phase\":\"init\",\"message\":\"辩论开始\",\"pro_model\":\"m1\",\"con_model\":\"m2\",\"judge_model\":\"m3\"}\n\n"
    );
}

#[test]
fn phase_start_and_done_frames_carry_title_and_provider() {
    let start = DebateEvent::PhaseStart {
        phase: DebatePhase::Rebuttal,
        side: Position::Con,
        provider: "deepseek".to_string(),
    };
    assert_eq!(
        event_frame(&start),
        "data: {\"type\":\"phase_start\",\"phase\":\"rebuttal\",\"side\":\"con\",\"title\":\"二辩反驳\",\"provider\":\"deepseek\"}\n\n"
    );
    let done = DebateEvent::PhaseDone {
        phase: DebatePhase::Rebuttal,
        side: Position::Con,
        provider: "deepseek".to_string(),
    };
    assert_eq!(
        event_frame(&done),
        "data: {\"type\":\"phase_done\",\"phase\":\"rebuttal\",\"side\":\"con\",\"provider\":\"deepseek\"}\n\n"
    );
}

#[test]
fn search_event_frame() {
    let e = DebateEvent::Search {
        side: Position::Pro,
        phase: DebatePhase::Defense,
        provider: "openai".to_string(),
        query: "jobs 2025".to_string(),
        results: "Direct Answer: yes\n".to_string(),
    };
    assert_eq!(
        event_frame(&e),
        "data: {\"type\":\"search\",\"side\":\"pro\",\"phase\":\"defense\",\"provider\":\"openai\",\"query\":\"jobs 2025\",\"results\":\"Direct Answer: yes\\n\"}\n\n"
    );
}

#[test]
fn unknown_backend_events_degrade_to_empty_delta() {
    let provider = "groq".to_string();
    let r = normalize_backend_event(
        Position::Con,
        DebatePhase::Closing,
        &provider,
        BackendEvent::Unknown,
    );
    match r {
        DebateEvent::Delta { side, phase, provider: p, content } => {
            assert_eq!(side, Position::Con);
            assert_eq!(phase, DebatePhase::Closing);
            assert_eq!(p, "groq");
            assert_eq!(content, "");
        }
        _ => panic!("unknown events must become content deltas"),
    }
}

#[test]
fn normalization_maps_each_backend_kind() {
    let provider = "zhipu".to_string();
    let cases: Vec<(BackendEvent, &str)> = vec![
        (BackendEvent::Content { text: "a".to_string() }, "delta"),
        (BackendEvent::Reasoning { text: "b".to_string() }, "thinking"),
        (BackendEvent::Usage { info: "c".to_string() }, "usage"),
        (BackendEvent::Failed { message: "d".to_string() }, "error"),
    ];
    for (ev, kind) in cases {
        let r = normalize_backend_event(Position::Pro, DebatePhase::Opening, &provider, ev);
        let frame = event_frame(&r);
        assert!(frame.starts_with(&format!("data: {{\"type\":\"{}\"", kind)));
    }
}

#[test]
fn round_failure_messages_name_the_stage() {
    let detail = "boom".to_string();
    let e = round_failure_event(DebatePhase::Opening, &detail);
    assert_eq!(
        event_frame(&e),
        "data: {\"type\":\"error\",\"message\":\"辩论轮次失败: boom\"}\n\n"
    );
    let e = round_failure_event(DebatePhase::Judgement, &detail);
    assert_eq!(
        event_frame(&e),
        "data: {\"type\":\"error\",\"message\":\"裁判阶段失败: boom\"}\n\n"
    );
}

#[test]
fn side_prompt_without_history_has_system_and_instruction() {
    let topic = "远程办公".to_string();
    let transcript: Vec<TranscriptEntry> = Vec::new();
    let msgs = build_side_prompt(Position::Pro, DebatePhase::Opening, &topic, &transcript);
    assert_eq!(msgs.len(), 2);
    assert_eq!(msgs[0].kind, MessageKind::System);
    assert_eq!(
        msgs[0].content,
        "你是正方，支持该议题。\n议题：远程办公\n当前阶段：开篇陈词：阐述立场与核心论点。\n要求：\n- 用 Markdown 输出。\n- 必须包含 `## Reasoning`（推理过程，精简列点）和 `## Final Position`（本轮结论）。\n- 语言简洁有力，避免重复。\n- 字数建议 120-220 中文字。\n"
    );
    assert_eq!(msgs[1].kind, MessageKind::User);
    assert_eq!(msgs[1].content, "请完成本轮 `一辩开篇` 发言。");
}

#[test]
fn side_prompt_serializes_history() {
    let topic = "t".to_string();
    let transcript = vec![TranscriptEntry::new(
        Position::Pro,
        DebatePhase::Opening,
        "我方认为。".to_string(),
        "groq".to_string(),
    )];
    let msgs = build_side_prompt(Position::Con, DebatePhase::Opening, &topic, &transcript);
    assert_eq!(msgs.len(), 3);
    assert_eq!(msgs[1].kind, MessageKind::User);
    assert_eq!(
        msgs[1].content,
        "已进行的辩论记录：\n[Pro - 一辩开篇 - groq]\n我方认为。\n\n"
    );
}

#[test]
fn tool_prompt_declares_tool_and_carries_evidence() {
    let topic = "t".to_string();
    let transcript: Vec<TranscriptEntry> = Vec::new();
    let ctx = "Source: x\n".to_string();
    let msgs = build_side_prompt_with_tools(
        Position::Pro,
        DebatePhase::Rebuttal,
        &topic,
        &transcript,
        Some(&ctx),
    );
    assert_eq!(msgs.len(), 3);
    assert!(msgs[0].content.contains("web_search"));
    assert_eq!(
        msgs[1].content,
        "以下是搜索到的参考资料，请将相关内容自然地融入你的论点：\n\nSource: x\n"
    );
    assert_eq!(msgs[2].content, "请完成本轮 `二辩反驳` 发言。");
}

#[test]
fn judge_prompt_gets_full_uncompressed_transcript() {
    let topic = "议题".to_string();
    let transcript = vec![
        TranscriptEntry::new(
            Position::Pro,
            DebatePhase::Opening,
            "甲".to_string(),
            "a".to_string(),
        ),
        TranscriptEntry::new(
            Position::Con,
            DebatePhase::Opening,
            "乙".to_string(),
            "b".to_string(),
        ),
    ];
    let msgs = build_judge_prompt(&topic, &transcript);
    assert_eq!(msgs.len(), 2);
    assert_eq!(msgs[0].kind, MessageKind::System);
    assert!(msgs[0].content.starts_with("你是中立裁判"));
    assert!(msgs[0].content.contains("Winner: Pro"));
    assert_eq!(
        msgs[1].content,
        "完整辩论记录：\n[Pro - 一辩开篇 - a]\n甲\n\n[Con - 一辩开篇 - b]\n乙\n\n"
    );
}

#[test]
fn judge_never_gets_search_capability() {
    // even with search enabled, a judge round is plain: straight to streaming
    let plan = plan_round(Position::Judge, DebatePhase::Judgement, true);
    assert!(!plan.tools_enabled);
    let round = ToolRound::begin(
        Position::Judge,
        DebatePhase::Judgement,
        true,
        "groq".to_string(),
    );
    assert!(!round.plan.tools_enabled);
    assert_eq!(round.stage, RoundStage::Streaming);
}

#[test]
fn debater_round_parameters() {
    let plan = plan_round(Position::Pro, DebatePhase::Opening, true);
    assert!(plan.tools_enabled);
    assert_eq!(plan.temperature_tenths, 7);
    assert_eq!(plan.max_output_tokens, 2048);
    let judge = plan_round(Position::Judge, DebatePhase::Judgement, false);
    assert_eq!(judge.temperature_tenths, 3);
    assert_eq!(judge.max_output_tokens, 1024);
}

#[test]
fn tool_round_runs_decide_search_stream() {
    let mut round = ToolRound::begin(
        Position::Pro,
        DebatePhase::Defense,
        true,
        "openai".to_string(),
    );
    assert_eq!(round.stage, RoundStage::Deciding);
    let evs = round.on_decision(DecideOutcome::ToolCalls {
        queries: vec!["q1".to_string()],
    });
    assert!(evs.is_empty());
    assert_eq!(round.stage, RoundStage::Searching);
    let results = vec![SearchResult {
        query: "q1".to_string(),
        results: "evidence".to_string(),
    }];
    let evs = round.on_search_results(&results);
    assert_eq!(evs.len(), 1);
    match &evs[0] {
        DebateEvent::Search { query, results, .. } => {
            assert_eq!(query, "q1");
            assert_eq!(results, "evidence");
        }
        _ => panic!("searching stage must emit search events"),
    }
    assert_eq!(round.stage, RoundStage::Streaming);
    let ev = round.on_stream_event(BackendEvent::Content { text: "best".to_string() });
    match ev {
        DebateEvent::Delta { content, .. } => assert_eq!(content, "best"),
        _ => panic!("stream content must become a delta"),
    }
}

#[test]
fn decide_content_ends_round_with_delta_and_usage() {
    let mut round = ToolRound::begin(
        Position::Con,
        DebatePhase::Opening,
        true,
        "qwen".to_string(),
    );
    let evs = round.on_decision(DecideOutcome::Content {
        text: "直接回答".to_string(),
        usage: Some("{\"t\":3}".to_string()),
    });
    assert_eq!(round.stage, RoundStage::Finished);
    assert_eq!(evs.len(), 2);
    assert!(matches!(&evs[0], DebateEvent::Delta { content, .. } if content == "直接回答"));
    assert!(matches!(&evs[1], DebateEvent::Usage { info, .. } if info == "{\"t\":3}"));
}

#[test]
fn decide_failure_is_terminal_error() {
    let mut round = ToolRound::begin(
        Position::Pro,
        DebatePhase::Opening,
        true,
        "qwen".to_string(),
    );
    let evs = round.on_decision(DecideOutcome::CallFailed { message: "no api".to_string() });
    assert_eq!(round.stage, RoundStage::Finished);
    assert_eq!(evs.len(), 1);
    assert!(matches!(&evs[0], DebateEvent::Error { message } if message == "no api"));
}

#[test]
fn judge_output_assembly_fills_missing_sections() {
    let reasoning = "因为如此。".to_string();
    let verdict = "Winner: Pro".to_string();
    assert_eq!(
        assemble_judge_output(Some(&reasoning), Some(&verdict)),
        "## Reasoning\n因为如此。\n\n## Verdict\nWinner: Pro"
    );
    assert_eq!(
        assemble_judge_output(None, None),
        "## Reasoning\n\n\n## Verdict\nNo verdict provided."
    );
}

#[test]
fn search_tool_schema_declares_one_query_parameter() {
    let spec = search_tool_definition();
    assert_eq!(spec.tool_type, "function");
    assert_eq!(spec.name, "web_search");
    assert!(spec.description.starts_with("Search the web"));
    assert!(spec.parameters_json.contains("\"required\":[\"query\"]"));
}

#[test]
fn search_results_format_with_answer_and_items() {
    let answer = "Yes.".to_string();
    let items = vec![
        SearchItem {
            title: "T1".to_string(),
            content: "C1".to_string(),
            url: "u1".to_string(),
        },
        SearchItem {
            title: "T2".to_string(),
            content: "C2".to_string(),
            url: "u2".to_string(),
        },
    ];
    assert_eq!(
        format_search_results(Some(&answer), &items),
        "Direct Answer: Yes.\n\nSource: T1\nC1\nURL: u1\n\nSource: T2\nC2\nURL: u2\n"
    );
}

#[test]
fn search_results_content_clipped_to_300_chars() {
    let items = vec![SearchItem {
        title: "T".to_string(),
        content: "z".repeat(400),
        url: "u".to_string(),
    }];
    let text = format_search_results(None, &items);
    assert_eq!(text, format!("Source: T\n{}\nURL: u\n", "z".repeat(300)));
}

#[test]
fn empty_search_results_give_fixed_notice() {
    let items: Vec<SearchItem> = Vec::new();
    assert_eq!(format_search_results(None, &items), "No relevant results found.");
    let empty_answer = "".to_string();
    assert_eq!(
        format_search_results(Some(&empty_answer), &items),
        "No relevant results found."
    );
    assert_eq!(failed_search_placeholder(), "Search failed.");
}

#[test]
fn provider_registry_lists_eight_known_providers() {
    let reg = provider_registry();
    assert_eq!(reg.len(), 8);
    assert_eq!(reg[0].key, "groq");
    assert_eq!(reg[0].env_var, "GROQ_API_KEY");
    assert_eq!(reg[7].key, "anthropic");
    assert_eq!(reg[7].env_var, "ANTHROPIC_API_KEY");
}

#[test]
fn provider_choice_honors_override_then_falls_back_round_robin() {
    let candidates = vec![
        "deepseek".to_string(),
        "groq".to_string(),
        "openai".to_string(),
    ];
    let wanted = "openai".to_string();
    assert_eq!(choose_provider(&candidates, Some(&wanted), 0, 0), 2);
    let missing = "gemini".to_string();
    assert_eq!(choose_provider(&candidates, Some(&missing), 1, 1), 2);
    assert_eq!(choose_provider(&candidates, None, 0, 0), 0);
    assert_eq!(choose_provider(&candidates, None, 1, 0), 1);
    assert_eq!(choose_provider(&candidates, None, 2, 2), 1);
}

#[test]
fn client_for_side_picks_the_matching_binding() {
    let bindings = RoleBindings {
        pro: ClientInfo { name: "groq".to_string(), default_model: "g1".to_string() },
        con: ClientInfo { name: "mistral".to_string(), default_model: "m1".to_string() },
        judge: ClientInfo { name: "openai".to_string(), default_model: "o1".to_string() },
    };
    assert_eq!(client_for_side(&bindings, Position::Pro).name, "groq");
    assert_eq!(client_for_side(&bindings, Position::Con).name, "mistral");
    assert_eq!(client_for_side(&bindings, Position::Judge).default_model, "o1");
}

#[test]
fn full_session_event_sequence_with_search_disabled() {
    let mut session = Session::start(
        "u1".to_string(),
        "s1".to_string(),
        "Remote work improves productivity".to_string(),
    )
    .unwrap_or_else(|_| panic!("valid topic rejected"));
    let provider = "groq".to_string();
    let mut kinds: Vec<String> = Vec::new();
    let push_kind = |kinds: &mut Vec<String>, e: &DebateEvent| {
        let frame = event_frame(e);
        let rest = &frame["data: {\"type\":\"".len()..];
        kinds.push(rest[..rest.find('"').unwrap()].to_string());
    };
    push_kind(
        &mut kinds,
        &DebateEvent::Init {
            message: "辩论开始".to_string(),
            pro_model: "m".to_string(),
            con_model: "m".to_string(),
            judge_model: "m".to_string(),
        },
    );
    while let Some((side, phase)) = session.current_turn() {
        push_kind(
            &mut kinds,
            &DebateEvent::PhaseStart { phase, side, provider: provider.clone() },
        );
        let mut round = ToolRound::begin(side, phase, false, provider.clone());
        assert_eq!(round.stage, RoundStage::Streaming);
        let ev = round.on_stream_event(BackendEvent::Content { text: "论点。".to_string() });
        push_kind(&mut kinds, &ev);
        session.complete_turn("论点。".to_string(), provider.clone());
        push_kind(
            &mut kinds,
            &DebateEvent::PhaseDone { phase, side, provider: provider.clone() },
        );
    }
    assert!(session.is_completed());
    push_kind(&mut kinds, &DebateEvent::Done);
    let mut expected: Vec<String> = vec!["phase".to_string()];
    for _ in 0..9 {
        expected.push("phase_start".to_string());
        expected.push("delta".to_string());
        expected.push("phase_done".to_string());
    }
    expected.push("done".to_string());
    assert_eq!(kinds, expected);
    // no search event anywhere, judge turn included
    assert!(kinds.iter().all(|k| k != "search"));
}
