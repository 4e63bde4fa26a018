//! The unified outward event taxonomy and its wire framing.
//!
//! Heterogeneous backend event shapes (content deltas, reasoning deltas,
//! usage metadata, errors, unknown kinds) are normalized into one closed
//! tagged-variant type, and every outward event is framed as one JSON object
//! per line — `data: {...}` followed by a blank line. The framing, including
//! JSON string escaping, is specified character by character and proved.

use vstd::prelude::*;
use crate::types::DebatePhase;
use crate::types::Position;
use crate::types::spec_phase_str;
use crate::types::spec_role_str;
use crate::types::spec_title;

verus! {

/// One item of a backend stream, already reduced to plain values by the
/// transport layer.
pub enum BackendEvent {
    /// A piece of generated prose.
    Content { text: String },
    /// A piece of the backend's reasoning/"thinking" trace.
    Reasoning { text: String },
    /// Usage metadata, carried as text.
    Usage { info: String },
    /// An event kind this library does not know.
    Unknown,
    /// The stream failed.
    Failed { message: String },
}

/// One outward event of the debate stream.
pub enum DebateEvent {
    /// Stream opening: greeting and the resolved model per role.
    Init { message: String, pro_model: String, con_model: String, judge_model: String },
    /// A turn begins.
    PhaseStart { phase: DebatePhase, side: Position, provider: String },
    /// A piece of a turn's prose.
    Delta { side: Position, phase: DebatePhase, provider: String, content: String },
    /// A piece of a turn's reasoning trace.
    Thinking { side: Position, phase: DebatePhase, provider: String, content: String },
    /// Usage metadata for a turn.
    Usage { side: Position, phase: DebatePhase, provider: String, info: String },
    /// A web search performed during a tool-augmented turn.
    Search { side: Position, phase: DebatePhase, provider: String, query: String, results: String },
    /// A turn completed.
    PhaseDone { phase: DebatePhase, side: Position, provider: String },
    /// Terminal error: the stream ends here.
    Error { message: String },
    /// Terminal success marker.
    Done,
}

/// The hexadecimal digit character for a value below 16.
pub open spec fn hex_digit(d: int) -> char
    recommends
        0 <= d < 16,
{
    "0123456789abcdef"@[d]
}

/// JSON escaping of one character: quote, backslash, and the common control
/// characters get two-character escapes; other control characters get a
/// `\u00XX` escape; everything else stands for itself.
pub open spec fn json_escape_char(c: char) -> Seq<char> {
    if c == '"' {
        "\\\""@
    } else if c == '\\' {
        "\\\\"@
    } else if c == '\n' {
        "\\n"@
    } else if c == '\r' {
        "\\r"@
    } else if c == '\t' {
        "\\t"@
    } else if (c as u32) < 32 {
        "\\u00"@ + seq![hex_digit((c as u32 / 16) as int), hex_digit((c as u32 % 16) as int)]
    } else {
        seq![c]
    }
}

/// JSON escaping of a whole string.
pub open spec fn json_escape(s: Seq<char>) -> Seq<char>
    decreases s.len(),
{
    if s.len() == 0 {
        Seq::empty()
    } else {
        json_escape(s.drop_last()) + json_escape_char(s.last())
    }
}

fn append_hex_digit(out: &mut String, d: u32)
    requires
        d < 16,
    ensures
        final(out)@ == old(out)@ + seq![hex_digit(d as int)],
{
    let hs = "0123456789abcdef";
    proof {
        reveal_strlit("0123456789abcdef");
    }
    let piece = hs.substring_char(d as usize, (d + 1) as usize);
    proof {
        assert(piece@ =~= seq![hex_digit(d as int)]);
    }
    out.append(piece);
}

/// Append the JSON-escaped form of `s` to `out`.
pub fn append_json_escaped(out: &mut String, s: &str)
    ensures
        final(out)@ == old(out)@ + json_escape(s@),
{
    let n = s.unicode_len();
    let mut i: usize = 0;
    proof {
        assert(s@.take(0) =~= Seq::<char>::empty());
        assert(out@ + json_escape(s@.take(0)) =~= out@);
    }
    while i < n
        invariant
            i <= n,
            n == s@.len(),
            out@ == old(out)@ + json_escape(s@.take(i as int)),
        decreases n - i,
    {
        let ghost out_entry = out@;
        let c = s.get_char(i);
        proof {
            assert(s@.take(i + 1).drop_last() =~= s@.take(i as int));
            assert(s@.take(i + 1).last() == s@[i as int]);
        }
        if c == '"' {
            out.append("\\\"");
        } else if c == '\\' {
            out.append("\\\\");
        } else if c == '\n' {
            out.append("\\n");
        } else if c == '\r' {
            out.append("\\r");
        } else if c == '\t' {
            out.append("\\t");
        } else if (c as u32) < 32 {
            out.append("\\u00");
            append_hex_digit(out, (c as u32) / 16);
            append_hex_digit(out, (c as u32) % 16);
            proof {
                assert(out@ =~= out_entry + ("\\u00"@ + seq![
                    hex_digit((c as u32 / 16) as int),
                    hex_digit((c as u32 % 16) as int),
                ]));
            }
        } else {
            let piece = s.substring_char(i, i + 1);
            proof {
                assert(piece@ =~= seq![c]);
            }
            out.append(piece);
        }
        proof {
            assert(out@ =~= out_entry + json_escape_char(c));
            assert(out@ =~= old(out)@ + json_escape(s@.take(i + 1)));
        }
        i = i + 1;
    }
    proof {
        assert(s@.take(n as int) =~= s@);
    }
}

/// The JSON body of an event that carries one tagged payload value for one
/// turn: a content delta, a reasoning delta, or usage metadata.
pub open spec fn spec_turn_payload_json(
    kind: Seq<char>,
    value_key: Seq<char>,
    side: Position,
    phase: DebatePhase,
    provider: Seq<char>,
    value: Seq<char>,
) -> Seq<char> {
    "{\"type\":\""@ + kind + "\",\"side\":\""@ + spec_role_str(side) + "\",\"phase\":\""@
        + spec_phase_str(phase) + "\",\"provider\":\""@ + json_escape(provider) + "\",\""@
        + value_key + "\":\""@ + json_escape(value) + "\"}"@
}

/// The JSON body of one outward event.
pub open spec fn spec_event_json(e: DebateEvent) -> Seq<char> {
    match e {
        DebateEvent::Init { message, pro_model, con_model, judge_model } =>
            "{\"type\":\"phase\",\"phase\":\"init\",\"message\":\""@ + json_escape(message@)
            + "\",\"pro_model\":\""@ + json_escape(pro_model@) + "\",\"con_model\":\""@
            + json_escape(con_model@) + "\",\"judge_model\":\""@ + json_escape(judge_model@)
            + "\"}"@,
        DebateEvent::PhaseStart { phase, side, provider } => "{\"type\":\"phase_start\",\"phase\":\""@
            + spec_phase_str(phase) + "\",\"side\":\""@ + spec_role_str(side) + "\",\"title\":\""@
            + spec_title(phase) + "\",\"provider\":\""@ + json_escape(provider@) + "\"}"@,
        DebateEvent::Delta { side, phase, provider, content } => spec_turn_payload_json(
            "delta"@,
            "content"@,
            side,
            phase,
            provider@,
            content@,
        ),
        DebateEvent::Thinking { side, phase, provider, content } => spec_turn_payload_json(
            "thinking"@,
            "content"@,
            side,
            phase,
            provider@,
            content@,
        ),
        DebateEvent::Usage { side, phase, provider, info } => spec_turn_payload_json(
            "usage"@,
            "usage"@,
            side,
            phase,
            provider@,
            info@,
        ),
        DebateEvent::Search { side, phase, provider, query, results } => "{\"type\":\"search\",\"side\":\""@
            + spec_role_str(side) + "\",\"phase\":\""@ + spec_phase_str(phase)
            + "\",\"provider\":\""@ + json_escape(provider@) + "\",\"query\":\""@ + json_escape(
            query@,
        ) + "\",\"results\":\""@ + json_escape(results@) + "\"}"@,
        DebateEvent::PhaseDone { phase, side, provider } => "{\"type\":\"phase_done\",\"phase\":\""@
            + spec_phase_str(phase) + "\",\"side\":\""@ + spec_role_str(side)
            + "\",\"provider\":\""@ + json_escape(provider@) + "\"}"@,
        DebateEvent::Error { message } => "{\"type\":\"error\",\"message\":\""@ + json_escape(
            message@,
        ) + "\"}"@,
        DebateEvent::Done => "{\"type\":\"done\"}"@,
    }
}

/// One wire frame: the JSON body between `data: ` and a blank line.
pub open spec fn spec_event_frame(e: DebateEvent) -> Seq<char> {
    "data: "@ + spec_event_json(e) + "\n\n"@
}

fn append_init_json(
    out: &mut String,
    message: &String,
    pro_model: &String,
    con_model: &String,
    judge_model: &String,
)
    ensures
        final(out)@ == old(out)@ + spec_event_json(
            (DebateEvent::Init {
                message: *message,
                pro_model: *pro_model,
                con_model: *con_model,
                judge_model: *judge_model,
            }),
        ),
{
    out.append("{\"type\":\"phase\",\"phase\":\"init\",\"message\":\"");
    append_json_escaped(out, message.as_str());
    out.append("\",\"pro_model\":\"");
    append_json_escaped(out, pro_model.as_str());
    out.append("\",\"con_model\":\"");
    append_json_escaped(out, con_model.as_str());
    out.append("\",\"judge_model\":\"");
    append_json_escaped(out, judge_model.as_str());
    out.append("\"}");
    proof {
        assert(out@ =~= old(out)@ + spec_event_json(
            (DebateEvent::Init {
                message: *message,
                pro_model: *pro_model,
                con_model: *con_model,
                judge_model: *judge_model,
            }),
        ));
    }
}

fn append_phase_start_json(out: &mut String, phase: DebatePhase, side: Position, provider: &String)
    ensures
        final(out)@ == old(out)@ + spec_event_json(
            (DebateEvent::PhaseStart { phase, side, provider: *provider }),
        ),
{
    out.append("{\"type\":\"phase_start\",\"phase\":\"");
    out.append(phase.as_str());
    out.append("\",\"side\":\"");
    out.append(side.role_str());
    out.append("\",\"title\":\"");
    out.append(phase.title());
    out.append("\",\"provider\":\"");
    append_json_escaped(out, provider.as_str());
    out.append("\"}");
    proof {
        assert(out@ =~= old(out)@ + spec_event_json(
            (DebateEvent::PhaseStart { phase, side, provider: *provider }),
        ));
    }
}

fn append_turn_payload_json(
    out: &mut String,
    kind: &str,
    value_key: &str,
    side: Position,
    phase: DebatePhase,
    provider: &String,
    value: &String,
)
    ensures
        final(out)@ == old(out)@ + spec_turn_payload_json(
            kind@,
            value_key@,
            side,
            phase,
            provider@,
            value@,
        ),
{
    out.append("{\"type\":\"");
    out.append(kind);
    out.append("\",\"side\":\"");
    out.append(side.role_str());
    out.append("\",\"phase\":\"");
    out.append(phase.as_str());
    out.append("\",\"provider\":\"");
    append_json_escaped(out, provider.as_str());
    out.append("\",\"");
    out.append(value_key);
    out.append("\":\"");
    append_json_escaped(out, value.as_str());
    out.append("\"}");
    proof {
        assert(out@ =~= old(out)@ + spec_turn_payload_json(
            kind@,
            value_key@,
            side,
            phase,
            provider@,
            value@,
        ));
    }
}

fn append_search_json(
    out: &mut String,
    side: Position,
    phase: DebatePhase,
    provider: &String,
    query: &String,
    results: &String,
)
    ensures
        final(out)@ == old(out)@ + spec_event_json(
            (DebateEvent::Search { side, phase, provider: *provider, query: *query, results: *results }),
        ),
{
    out.append("{\"type\":\"search\",\"side\":\"");
    out.append(side.role_str());
    out.append("\",\"phase\":\"");
    out.append(phase.as_str());
    out.append("\",\"provider\":\"");
    append_json_escaped(out, provider.as_str());
    out.append("\",\"query\":\"");
    append_json_escaped(out, query.as_str());
    out.append("\",\"results\":\"");
    append_json_escaped(out, results.as_str());
    out.append("\"}");
    proof {
        assert(out@ =~= old(out)@ + spec_event_json(
            (DebateEvent::Search {
                side,
                phase,
                provider: *provider,
                query: *query,
                results: *results,
            }),
        ));
    }
}

fn append_phase_done_json(out: &mut String, phase: DebatePhase, side: Position, provider: &String)
    ensures
        final(out)@ == old(out)@ + spec_event_json(
            (DebateEvent::PhaseDone { phase, side, provider: *provider }),
        ),
{
    out.append("{\"type\":\"phase_done\",\"phase\":\"");
    out.append(phase.as_str());
    out.append("\",\"side\":\"");
    out.append(side.role_str());
    out.append("\",\"provider\":\"");
    append_json_escaped(out, provider.as_str());
    out.append("\"}");
    proof {
        assert(out@ =~= old(out)@ + spec_event_json(
            (DebateEvent::PhaseDone { phase, side, provider: *provider }),
        ));
    }
}

fn append_error_json(out: &mut String, message: &String)
    ensures
        final(out)@ == old(out)@ + spec_event_json((DebateEvent::Error { message: *message })),
{
    out.append("{\"type\":\"error\",\"message\":\"");
    append_json_escaped(out, message.as_str());
    out.append("\"}");
    proof {
        assert(out@ =~= old(out)@ + spec_event_json((DebateEvent::Error { message: *message })));
    }
}

/// Serialize one outward event as one newline-delimited stream frame.
pub fn event_frame(e: &DebateEvent) -> (r: String)
    ensures
        r@ == spec_event_frame(*e),
{
    let mut out = String::new();
    out.append("data: ");
    match e {
        DebateEvent::Init { message, pro_model, con_model, judge_model } => {
            append_init_json(&mut out, message, pro_model, con_model, judge_model);
            proof {
                assert(out@ =~= "data: "@ + spec_event_json(*e));
            }
        },
        DebateEvent::PhaseStart { phase, side, provider } => {
            append_phase_start_json(&mut out, *phase, *side, provider);
            proof {
                assert(out@ =~= "data: "@ + spec_event_json(*e));
            }
        },
        DebateEvent::Delta { side, phase, provider, content } => {
            append_turn_payload_json(&mut out, "delta", "content", *side, *phase, provider, content);
            proof {
                assert(out@ =~= "data: "@ + spec_event_json(*e));
            }
        },
        DebateEvent::Thinking { side, phase, provider, content } => {
            append_turn_payload_json(
                &mut out,
                "thinking",
                "content",
                *side,
                *phase,
                provider,
                content,
            );
            proof {
                assert(out@ =~= "data: "@ + spec_event_json(*e));
            }
        },
        DebateEvent::Usage { side, phase, provider, info } => {
            append_turn_payload_json(&mut out, "usage", "usage", *side, *phase, provider, info);
            proof {
                assert(out@ =~= "data: "@ + spec_event_json(*e));
            }
        },
        DebateEvent::Search { side, phase, provider, query, results } => {
            append_search_json(&mut out, *side, *phase, provider, query, results);
            proof {
                assert(out@ =~= "data: "@ + spec_event_json(*e));
            }
        },
        DebateEvent::PhaseDone { phase, side, provider } => {
            append_phase_done_json(&mut out, *phase, *side, provider);
            proof {
                assert(out@ =~= "data: "@ + spec_event_json(*e));
            }
        },
        DebateEvent::Error { message } => {
            append_error_json(&mut out, message);
            proof {
                assert(out@ =~= "data: "@ + spec_event_json(*e));
            }
        },
        DebateEvent::Done => {
            out.append("{\"type\":\"done\"}");
            proof {
                assert(out@ =~= "data: "@ + spec_event_json(*e));
            }
        },
    }
    out.append("\n\n");
    proof {
        assert(out@ =~= spec_event_frame(*e));
    }
    out
}

/// Normalize one backend stream item into the outward taxonomy, tagged with
/// the turn's side, phase and backend. Unknown backend event kinds degrade
/// to an empty content delta — never silently dropped, never fatal.
pub fn normalize_backend_event(
    side: Position,
    phase: DebatePhase,
    provider: &String,
    ev: BackendEvent,
) -> (r: DebateEvent)
    ensures
        !(r is Search),
        ev matches BackendEvent::Content { text } ==> r == (DebateEvent::Delta {
            side,
            phase,
            provider: *provider,
            content: text,
        }),
        ev matches BackendEvent::Reasoning { text } ==> r == (DebateEvent::Thinking {
            side,
            phase,
            provider: *provider,
            content: text,
        }),
        ev matches BackendEvent::Usage { info } ==> r == (DebateEvent::Usage {
            side,
            phase,
            provider: *provider,
            info: info,
        }),
        ev is Unknown ==> (r matches DebateEvent::Delta { side: s2, phase: p2, provider: pv, content: c }
            && s2 == side && p2 == phase && pv == *provider && c@ == Seq::<char>::empty()),
        ev matches BackendEvent::Failed { message } ==> r == (DebateEvent::Error {
            message: message,
        }),
{
    match ev {
        BackendEvent::Content { text } => DebateEvent::Delta {
            side,
            phase,
            provider: provider.clone(),
            content: text,
        },
        BackendEvent::Reasoning { text } => DebateEvent::Thinking {
            side,
            phase,
            provider: provider.clone(),
            content: text,
        },
        BackendEvent::Usage { info } => DebateEvent::Usage {
            side,
            phase,
            provider: provider.clone(),
            info,
        },
        BackendEvent::Unknown => DebateEvent::Delta {
            side,
            phase,
            provider: provider.clone(),
            content: String::new(),
        },
        BackendEvent::Failed { message } => DebateEvent::Error { message },
    }
}

/// The terminal error message when a turn fails: the judge phase and the
/// debate phases fail with different prefixes.
pub open spec fn spec_failure_message(phase: DebatePhase, detail: Seq<char>) -> Seq<char> {
    if phase is Judgement {
        "裁判阶段失败: "@ + detail
    } else {
        "辩论轮次失败: "@ + detail
    }
}

/// Build the terminal error event for a failed turn.
pub fn round_failure_event(phase: DebatePhase, detail: &String) -> (r: DebateEvent)
    ensures
        r matches DebateEvent::Error { message } && message@ == spec_failure_message(
            phase,
            detail@,
        ),
{
    let mut message = match phase {
        DebatePhase::Judgement => String::from_str("裁判阶段失败: "),
        _ => String::from_str("辩论轮次失败: "),
    };
    message.append(detail.as_str());
    DebateEvent::Error { message }
}

} // verus!
