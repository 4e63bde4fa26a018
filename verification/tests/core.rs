use ai_debate::compress::compress_transcript_to_budget;
use ai_debate::compress::compress_transcript_for_role;
use ai_debate::compress::estimate_tokens_from_text;
use ai_debate::config::allowed_history_tokens;
use ai_debate::config::max_tokens_for_role;
use ai_debate::config::reserved_tokens_for_role;
use ai_debate::ratelimit::RateLimiter;
use ai_debate::ratelimit::RateWindow;
use ai_debate::session::DebateError;
use ai_debate::session::Session;
use ai_debate::session::turn_at;
use ai_debate::session::turn_count;
use ai_debate::session::validate_topic;
use ai_debate::storage::TranscriptStore;
use ai_debate::storage::fetch_history;
use ai_debate::storage::save_message;
use ai_debate::types::DebatePhase;
use ai_debate::types::Position;
use ai_debate::types::TranscriptEntry;
use ai_debate::types::rate_limit_window;

fn entry(side: Position, phase: DebatePhase, content: &str) -> TranscriptEntry {
    TranscriptEntry::new(side, phase, content.to_string(), "groq".to_string())
}

#[test]
fn estimate_is_one_token_per_four_chars_floored_at_one() {
    assert_eq!(estimate_tokens_from_text(""), 1);
    assert_eq!(estimate_tokens_from_text("abc"), 1);
    assert_eq!(estimate_tokens_from_text("abcd"), 1);
    assert_eq!(estimate_tokens_from_text("abcdefgh"), 2);
    assert_eq!(estimate_tokens_from_text("abcdefghi"), 2);
    // characters, not bytes: four Chinese characters are one token
    assert_eq!(estimate_tokens_from_text("你好世界"), 1);
}

#[test]
fn compressor_keeps_largest_fitting_suffix() {
    // each entry: 8 chars = 2 tokens
    let t: Vec<TranscriptEntry> = (0..5)
        .map(|i| entry(Position::Pro, DebatePhase::Opening, &format!("entry{:03}", i)))
        .collect();
    // budget of 5 tokens keeps the last two entries (2 + 2 = 4; a third would make 6)
    let out = compress_transcript_to_budget(&t, 5);
    assert_eq!(out.len(), 2);
    assert_eq!(out[0].content, "entry003");
    assert_eq!(out[1].content, "entry004");
}

#[test]
fn compressor_returns_whole_transcript_when_it_fits() {
    let t: Vec<TranscriptEntry> = (0..3)
        .map(|i| entry(Position::Con, DebatePhase::Rebuttal, &format!("text {}", i)))
        .collect();
    let out = compress_transcript_to_budget(&t, 1000);
    assert_eq!(out.len(), 3);
    assert_eq!(out[0].content, "text 0");
    assert_eq!(out[2].content, "text 2");
}

#[test]
fn compressor_always_keeps_one_entry_when_input_nonempty() {
    // newest entry costs 25 tokens, budget allows 3: truncation fallback
    let big = "x".repeat(100);
    let t = vec![entry(Position::Pro, DebatePhase::Opening, &big)];
    let out = compress_transcript_to_budget(&t, 3);
    assert_eq!(out.len(), 1);
    // content cut to 3 * 4 = 12 characters plus the fixed marker
    assert_eq!(out[0].content, format!("{}\n\n[...已截断]", "x".repeat(12)));
}

#[test]
fn compressor_truncation_bounded_by_budget_times_four() {
    let big = "y".repeat(4000);
    let t = vec![entry(Position::Judge, DebatePhase::Judgement, &big)];
    let budget = 10u64;
    let out = compress_transcript_to_budget(&t, budget);
    assert_eq!(out.len(), 1);
    let marker = "\n\n[...已截断]";
    let kept_chars = out[0].content.chars().count() - marker.chars().count();
    assert!(kept_chars as u64 <= budget * 4);
    assert!(out[0].content.ends_with(marker));
}

#[test]
fn compressor_empty_transcript_gives_empty_output() {
    let t: Vec<TranscriptEntry> = Vec::new();
    let out = compress_transcript_to_budget(&t, 100);
    assert_eq!(out.len(), 0);
}

#[test]
fn compressor_output_fits_role_budget() {
    let t: Vec<TranscriptEntry> = (0..200)
        .map(|i| entry(Position::Pro, DebatePhase::Defense, &format!("{:0>80}", i)))
        .collect();
    for role in [Position::Pro, Position::Con, Position::Judge] {
        let out = compress_transcript_for_role(&t, role);
        let cost: u64 = out
            .iter()
            .map(|e| estimate_tokens_from_text(&e.content))
            .sum();
        assert!(cost <= allowed_history_tokens(role));
        assert!(!out.is_empty());
    }
}

#[test]
fn role_budgets_reserve_output_tokens() {
    assert_eq!(max_tokens_for_role(Position::Pro), 8192);
    assert_eq!(reserved_tokens_for_role(Position::Pro), 2048);
    assert_eq!(reserved_tokens_for_role(Position::Judge), 1024);
    assert_eq!(allowed_history_tokens(Position::Con), 6144);
    assert_eq!(allowed_history_tokens(Position::Judge), 7168);
}

#[test]
fn rate_window_admits_up_to_max_then_rejects() {
    let (window, max) = rate_limit_window();
    let mut w = RateWindow::new();
    for _ in 0..max {
        assert!(w.check(100, window, max));
    }
    assert!(!w.check(100, window, max));
}

#[test]
fn ninth_request_in_same_window_is_rejected() {
    let (window, max) = rate_limit_window();
    assert_eq!((window, max), (10, 8));
    let mut limiter = RateLimiter::new();
    let identity = "u1".to_string();
    let mut decisions = Vec::new();
    for k in 0..9u64 {
        decisions.push(limiter.check(&identity, 1000 + k, window, max));
    }
    assert_eq!(decisions[..8], [true; 8]);
    assert!(!decisions[8]);
}

#[test]
fn rate_window_admits_again_after_window_elapses() {
    let (window, max) = rate_limit_window();
    let mut w = RateWindow::new();
    for _ in 0..max {
        assert!(w.check(100, window, max));
    }
    assert!(!w.check(105, window, max));
    // a full window after the recorded stamps, the next check is admitted
    assert!(w.check(110, window, max));
}

#[test]
fn rate_limiter_tracks_identities_independently() {
    let (window, max) = rate_limit_window();
    let mut limiter = RateLimiter::new();
    let a = "alice".to_string();
    let b = "bob".to_string();
    for _ in 0..max {
        assert!(limiter.check(&a, 50, window, max));
    }
    assert!(!limiter.check(&a, 50, window, max));
    assert!(limiter.check(&b, 50, window, max));
}

#[test]
fn topic_validation_rejects_blank_and_oversized() {
    assert!(!validate_topic(""));
    assert!(!validate_topic("   \t\n"));
    assert!(validate_topic("Remote work improves productivity"));
    let exactly_2000 = "a".repeat(2000);
    assert!(validate_topic(&exactly_2000));
    let too_long = "a".repeat(2001);
    assert!(!validate_topic(&too_long));
}

#[test]
fn empty_topic_gives_single_error_and_no_rows() {
    let store = TranscriptStore::new();
    let r = Session::start("u1".to_string(), "s1".to_string(), "".to_string());
    match r {
        Err(e) => assert_eq!(e.message(), "invalid_topic"),
        Ok(_) => panic!("blank topic must be rejected"),
    }
    let rows = fetch_history(&store, &"u1".to_string(), &"s1".to_string());
    assert_eq!(rows.len(), 0);
}

#[test]
fn rate_limited_error_message() {
    assert_eq!(DebateError::RateLimited.message(), "rate_limited");
}

#[test]
fn schedule_is_fixed_and_nine_turns_long() {
    assert_eq!(turn_count(), 9);
    let expected = [
        (Position::Pro, DebatePhase::Opening),
        (Position::Con, DebatePhase::Opening),
        (Position::Pro, DebatePhase::Rebuttal),
        (Position::Con, DebatePhase::Rebuttal),
        (Position::Pro, DebatePhase::Defense),
        (Position::Con, DebatePhase::Defense),
        (Position::Pro, DebatePhase::Closing),
        (Position::Con, DebatePhase::Closing),
        (Position::Judge, DebatePhase::Judgement),
    ];
    for (i, e) in expected.iter().enumerate() {
        assert_eq!(turn_at(i), *e);
    }
}

#[test]
fn completed_session_persists_nine_rows_in_schedule_order() {
    let mut store = TranscriptStore::new();
    let user = "u1".to_string();
    let sess = "s1".to_string();
    let mut session = Session::start(
        user.clone(),
        sess.clone(),
        "Remote work improves productivity".to_string(),
    )
    .unwrap_or_else(|_| panic!("valid topic rejected"));
    let provider = "groq".to_string();
    let mut turns = 0usize;
    while let Some((side, phase)) = session.current_turn() {
        let content = format!("turn {} text", turns);
        session.complete_turn(content.clone(), provider.clone());
        save_message(&mut store, &user, &sess, side, phase, Some(&provider), &content);
        turns += 1;
    }
    assert_eq!(turns, 9);
    assert!(session.is_completed());
    let rows = fetch_history(&store, &user, &sess);
    assert_eq!(rows.len(), 9);
    let expected = [
        ("pro", "opening"),
        ("con", "opening"),
        ("pro", "rebuttal"),
        ("con", "rebuttal"),
        ("pro", "defense"),
        ("con", "defense"),
        ("pro", "closing"),
        ("con", "closing"),
        ("judge", "judgement"),
    ];
    for (i, (role, phase)) in expected.iter().enumerate() {
        assert_eq!(rows[i].role, *role);
        assert_eq!(rows[i].phase, *phase);
        assert_eq!(rows[i].content, format!("turn {} text", i));
        assert_eq!(rows[i].provider.as_deref(), Some("groq"));
    }
}

#[test]
fn failed_session_stops_scheduling() {
    let mut session = Session::start("u".to_string(), "s".to_string(), "t".to_string())
        .unwrap_or_else(|_| panic!("valid topic rejected"));
    assert!(session.current_turn().is_some());
    session.mark_failed();
    assert!(session.current_turn().is_none());
    assert!(!session.is_completed());
}

#[test]
fn history_is_ordered_capped_and_isolated_per_session() {
    let mut store = TranscriptStore::new();
    let user = "u1".to_string();
    let sess = "s1".to_string();
    let other = "s2".to_string();
    for i in 0..55 {
        let content = format!("row {}", i);
        save_message(
            &mut store,
            &user,
            &sess,
            Position::Pro,
            DebatePhase::Opening,
            None,
            &content,
        );
    }
    save_message(
        &mut store,
        &user,
        &other,
        Position::Con,
        DebatePhase::Closing,
        Some(&"mistral".to_string()),
        &"elsewhere".to_string(),
    );
    let rows = fetch_history(&store, &user, &sess);
    // capped to the most recent 50, oldest-first, no duplication
    assert_eq!(rows.len(), 50);
    for (i, row) in rows.iter().enumerate() {
        assert_eq!(row.content, format!("row {}", i + 5));
        assert_eq!(row.provider, None);
    }
    let other_rows = fetch_history(&store, &user, &other);
    assert_eq!(other_rows.len(), 1);
    assert_eq!(other_rows[0].content, "elsewhere");
    assert_eq!(other_rows[0].provider.as_deref(), Some("mistral"));
    let nothing = fetch_history(&store, &"u2".to_string(), &sess);
    assert_eq!(nothing.len(), 0);
}
