//! Prompt construction: turn (role, phase, topic, compressed transcript,
//! optional search evidence) into the structured instruction payload for a
//! backend call.
//!
//! A prompt is a list of plain messages — one system instruction (stance,
//! phase goal, output-format requirement), then the serialized prior
//! transcript, then optional search evidence, then the explicit instruction
//! to produce this phase's remark. The transport layer converts these plain
//! messages to its wire shape.

use vstd::prelude::*;
use crate::compress::compress_transcript_for_role;
use crate::compress::entry_tokens;
use crate::compress::kept_count;
use crate::compress::truncation_marker;
use crate::config::spec_allowed_history_tokens;
use crate::types::DebatePhase;
use crate::types::Position;
use crate::types::TranscriptEntry;
use crate::types::spec_label;
use crate::types::spec_title;

verus! {

/// Who a prompt message speaks as.
#[derive(Clone, Copy, PartialEq, Eq, Structural, Debug)]
pub enum MessageKind {
    System,
    User,
}

/// One plain prompt message.
pub struct PromptMessage {
    pub kind: MessageKind,
    pub content: String,
}

/// A debater's stance line; the judge argues no side.
pub open spec fn spec_stance(side: Position) -> Seq<char> {
    match side {
        Position::Pro => "你是正方，支持该议题。"@,
        Position::Con => "你是反方，反对该议题。"@,
        Position::Judge => ""@,
    }
}

/// The goal line of a debate phase; the judge's phase has its own prompt.
pub open spec fn spec_phase_goal(phase: DebatePhase) -> Seq<char> {
    match phase {
        DebatePhase::Opening => "开篇陈词：阐述立场与核心论点。"@,
        DebatePhase::Rebuttal => "反驳：针对对方论点逐条反驳，并补充论据。"@,
        DebatePhase::Defense => "防守：回应对方反驳，巩固自身论据。"@,
        DebatePhase::Closing => "总结陈词：总结关键论点，强调结论。"@,
        DebatePhase::Judgement => ""@,
    }
}

/// The extra instruction lines when the search capability is declared: use
/// the tool for evidence, and keep the tool call invisible in the prose.
pub open spec fn spec_tool_instruction(tools_enabled: bool) -> Seq<char> {
    if tools_enabled {
        "\n- 当需要事实、数据、统计或最新信息来支持论点时，请调用 web_search 工具搜索证据。\n- 搜索结果要自然融入你的论点，不要提及工具调用过程。\n"@
    } else {
        ""@
    }
}

/// One transcript entry serialized for a prompt, from its parts.
pub open spec fn spec_entry_block(
    side: Position,
    phase: DebatePhase,
    provider: Seq<char>,
    content: Seq<char>,
) -> Seq<char> {
    "["@ + spec_label(side) + " - "@ + spec_title(phase) + " - "@ + provider + "]\n"@ + content
        + "\n\n"@
}

/// A whole transcript serialized for a prompt, oldest first.
pub open spec fn spec_history_block(ts: Seq<TranscriptEntry>) -> Seq<char>
    decreases ts.len(),
{
    if ts.len() == 0 {
        Seq::empty()
    } else {
        spec_history_block(ts.drop_last()) + spec_entry_block(
            ts.last().side,
            ts.last().phase,
            ts.last().provider@,
            ts.last().content@,
        )
    }
}

/// A debater turn's system instruction.
pub open spec fn spec_side_system(
    side: Position,
    phase: DebatePhase,
    topic: Seq<char>,
    tools_enabled: bool,
) -> Seq<char> {
    spec_stance(side) + "\n议题："@ + topic + "\n当前阶段："@ + spec_phase_goal(phase)
        + "\n要求：\n- 用 Markdown 输出。\n- 必须包含 `## Reasoning`（推理过程，精简列点）和 `## Final Position`（本轮结论）。\n- 语言简洁有力，避免重复。\n- 字数建议 120-220 中文字。"@
        + spec_tool_instruction(tools_enabled) + "\n"@
}

/// The judge turn's system instruction.
pub open spec fn spec_judge_system(topic: Seq<char>) -> Seq<char> {
    "你是中立裁判，请根据完整辩论记录做出裁决。\n议题："@ + topic
        + "\n要求：\n- 用 Markdown 输出。\n- 必须包含 `## Reasoning`（裁判推理过程，条理清晰）和 `## Verdict`（结论）。\n- 在结论中用 `Winner: Pro` 或 `Winner: Con` 指明胜方。\n- 简洁客观，避免复读。\n"@
}

/// The user message that carries the prior transcript.
pub open spec fn spec_history_message(history: Seq<char>) -> Seq<char> {
    "已进行的辩论记录：\n"@ + history
}

/// The user message that carries search evidence.
pub open spec fn spec_context_message(ctx: Seq<char>) -> Seq<char> {
    "以下是搜索到的参考资料，请将相关内容自然地融入你的论点：\n\n"@ + ctx
}

/// The closing instruction to produce this phase's remark.
pub open spec fn spec_remark_instruction(phase: DebatePhase) -> Seq<char> {
    "请完成本轮 `"@ + spec_title(phase) + "` 发言。"@
}

fn append_entry_block(out: &mut String, e: &TranscriptEntry)
    ensures
        final(out)@ == old(out)@ + spec_entry_block(e.side, e.phase, e.provider@, e.content@),
{
    out.append("[");
    out.append(e.side.label());
    out.append(" - ");
    out.append(e.phase.title());
    out.append(" - ");
    out.append(e.provider.as_str());
    out.append("]\n");
    out.append(e.content.as_str());
    out.append("\n\n");
    proof {
        assert(out@ =~= old(out)@ + spec_entry_block(e.side, e.phase, e.provider@, e.content@));
    }
}

fn append_history_block(out: &mut String, ts: &Vec<TranscriptEntry>)
    ensures
        final(out)@ == old(out)@ + spec_history_block(ts@),
{
    let n = ts.len();
    let mut i: usize = 0;
    proof {
        assert(ts@.take(0) =~= Seq::<TranscriptEntry>::empty());
        assert(out@ + spec_history_block(ts@.take(0)) =~= out@);
    }
    while i < n
        invariant
            i <= n,
            n == ts@.len(),
            out@ == old(out)@ + spec_history_block(ts@.take(i as int)),
        decreases n - i,
    {
        append_entry_block(out, &ts[i]);
        proof {
            assert(ts@.take(i + 1).drop_last() =~= ts@.take(i as int));
            assert(ts@.take(i + 1).last() == ts@[i as int]);
            assert(out@ =~= old(out)@ + spec_history_block(ts@.take(i + 1)));
        }
        i = i + 1;
    }
    proof {
        assert(ts@.take(n as int) =~= ts@);
    }
}

fn build_side_system(side: Position, phase: DebatePhase, topic: &String, tools_enabled: bool) -> (r:
    String)
    ensures
        r@ == spec_side_system(side, phase, topic@, tools_enabled),
{
    let mut out = String::new();
    let stance = match side {
        Position::Pro => "你是正方，支持该议题。",
        Position::Con => "你是反方，反对该议题。",
        Position::Judge => "",
    };
    out.append(stance);
    out.append("\n议题：");
    out.append(topic.as_str());
    out.append("\n当前阶段：");
    let goal = match phase {
        DebatePhase::Opening => "开篇陈词：阐述立场与核心论点。",
        DebatePhase::Rebuttal => "反驳：针对对方论点逐条反驳，并补充论据。",
        DebatePhase::Defense => "防守：回应对方反驳，巩固自身论据。",
        DebatePhase::Closing => "总结陈词：总结关键论点，强调结论。",
        DebatePhase::Judgement => "",
    };
    out.append(goal);
    out.append(
        "\n要求：\n- 用 Markdown 输出。\n- 必须包含 `## Reasoning`（推理过程，精简列点）和 `## Final Position`（本轮结论）。\n- 语言简洁有力，避免重复。\n- 字数建议 120-220 中文字。",
    );
    if tools_enabled {
        out.append(
            "\n- 当需要事实、数据、统计或最新信息来支持论点时，请调用 web_search 工具搜索证据。\n- 搜索结果要自然融入你的论点，不要提及工具调用过程。\n",
        );
    }
    out.append("\n");
    proof {
        reveal_strlit("");
        assert(out@ =~= spec_side_system(side, phase, topic@, tools_enabled));
    }
    out
}

fn build_remark_instruction(phase: DebatePhase) -> (r: String)
    ensures
        r@ == spec_remark_instruction(phase),
{
    let mut out = String::from_str("请完成本轮 `");
    out.append(phase.title());
    out.append("` 发言。");
    proof {
        assert(out@ =~= spec_remark_instruction(phase));
    }
    out
}

/// Build a debater turn's messages from an already-compressed transcript:
/// the system instruction, the serialized history when there is any, the
/// search evidence when there is any, and the closing instruction.
pub fn build_side_prompt_inner(
    side: Position,
    phase: DebatePhase,
    topic: &String,
    compressed: &Vec<TranscriptEntry>,
    tools_enabled: bool,
    search_context: Option<&String>,
) -> (r: Vec<PromptMessage>)
    ensures
        ({
            let has_history = compressed@.len() > 0;
            let hist_extra: int = if has_history {
                1
            } else {
                0
            };
            let ctx_extra: int = if search_context is Some {
                1
            } else {
                0
            };
            &&& r@.len() == 2 + hist_extra + ctx_extra
            &&& r@[0].kind == MessageKind::System
            &&& r@[0].content@ == spec_side_system(side, phase, topic@, tools_enabled)
            &&& (has_history ==> r@[1].kind == MessageKind::User && r@[1].content@
                == spec_history_message(spec_history_block(compressed@)))
            &&& (search_context matches Some(ctx) ==> r@[1 + hist_extra].kind == MessageKind::User
                && r@[1 + hist_extra].content@ == spec_context_message(ctx@))
            &&& r@.last().kind == MessageKind::User
            &&& r@.last().content@ == spec_remark_instruction(phase)
        }),
{
    let mut r: Vec<PromptMessage> = Vec::new();
    let system = build_side_system(side, phase, topic, tools_enabled);
    r.push(PromptMessage { kind: MessageKind::System, content: system });
    if compressed.len() > 0 {
        let mut history = String::from_str("已进行的辩论记录：\n");
        append_history_block(&mut history, compressed);
        r.push(PromptMessage { kind: MessageKind::User, content: history });
    }
    match search_context {
        Some(ctx) => {
            let mut text = String::from_str(
                "以下是搜索到的参考资料，请将相关内容自然地融入你的论点：\n\n",
            );
            text.append(ctx.as_str());
            r.push(PromptMessage { kind: MessageKind::User, content: text });
        },
        None => (),
    }
    r.push(PromptMessage { kind: MessageKind::User, content: build_remark_instruction(phase) });
    r
}

/// What the serialized history of a debater prompt holds, given the raw
/// transcript: the kept suffix, or the single truncated newest entry when
/// even it alone exceeds the budget.
pub open spec fn spec_compressed_history(ts: Seq<TranscriptEntry>, side: Position) -> Seq<char> {
    let allowed = spec_allowed_history_tokens(side) as nat;
    if entry_tokens(ts.last()) <= allowed {
        spec_history_block(ts.subrange(ts.len() - kept_count(ts, allowed), ts.len() as int))
    } else {
        spec_entry_block(
            ts.last().side,
            ts.last().phase,
            ts.last().provider@,
            ts.last().content@.subrange(0, 4 * (spec_allowed_history_tokens(side) as int))
                + truncation_marker(),
        )
    }
}

/// Build a plain (non-tool) debater turn's messages from the raw transcript,
/// compressing it to the role's history budget first.
pub fn build_side_prompt(
    side: Position,
    phase: DebatePhase,
    topic: &String,
    transcript: &Vec<TranscriptEntry>,
) -> (r: Vec<PromptMessage>)
    ensures
        ({
            let hist_extra: int = if transcript@.len() > 0 {
                1
            } else {
                0
            };
            &&& r@.len() == 2 + hist_extra
            &&& r@[0].kind == MessageKind::System
            &&& r@[0].content@ == spec_side_system(side, phase, topic@, false)
            &&& (transcript@.len() > 0 ==> r@[1].kind == MessageKind::User && r@[1].content@
                == spec_history_message(spec_compressed_history(transcript@, side)))
            &&& r@.last().kind == MessageKind::User
            &&& r@.last().content@ == spec_remark_instruction(phase)
        }),
{
    let compressed = compress_transcript_for_role(transcript, side);
    proof {
        lemma_compressed_history(transcript@, compressed@, side);
    }
    build_side_prompt_inner(side, phase, topic, &compressed, false, None)
}

/// Build a tool-augmented debater turn's messages: the search capability is
/// declared in the system instruction, and gathered evidence, if any, is
/// appended as reference material.
pub fn build_side_prompt_with_tools(
    side: Position,
    phase: DebatePhase,
    topic: &String,
    transcript: &Vec<TranscriptEntry>,
    search_context: Option<&String>,
) -> (r: Vec<PromptMessage>)
    ensures
        ({
            let hist_extra: int = if transcript@.len() > 0 {
                1
            } else {
                0
            };
            let ctx_extra: int = if search_context is Some {
                1
            } else {
                0
            };
            &&& r@.len() == 2 + hist_extra + ctx_extra
            &&& r@[0].kind == MessageKind::System
            &&& r@[0].content@ == spec_side_system(side, phase, topic@, true)
            &&& (transcript@.len() > 0 ==> r@[1].kind == MessageKind::User && r@[1].content@
                == spec_history_message(spec_compressed_history(transcript@, side)))
            &&& (search_context matches Some(ctx) ==> r@[1 + hist_extra].kind == MessageKind::User
                && r@[1 + hist_extra].content@ == spec_context_message(ctx@))
            &&& r@.last().kind == MessageKind::User
            &&& r@.last().content@ == spec_remark_instruction(phase)
        }),
{
    let compressed = compress_transcript_for_role(transcript, side);
    proof {
        lemma_compressed_history(transcript@, compressed@, side);
    }
    build_side_prompt_inner(side, phase, topic, &compressed, true, search_context)
}

proof fn lemma_compressed_history(
    ts: Seq<TranscriptEntry>,
    compressed: Seq<TranscriptEntry>,
    side: Position,
)
    requires
        ts.len() == 0 ==> compressed.len() == 0,
        ts.len() > 0 ==> compressed.len() >= 1,
        ts.len() > 0 && entry_tokens(ts.last()) <= spec_allowed_history_tokens(side)
            ==> compressed == ts.subrange(
            ts.len() - kept_count(ts, spec_allowed_history_tokens(side) as nat),
            ts.len() as int,
        ),
        ts.len() > 0 && entry_tokens(ts.last()) > spec_allowed_history_tokens(side) ==> {
            &&& compressed.len() == 1
            &&& compressed[0].side == ts.last().side
            &&& compressed[0].phase == ts.last().phase
            &&& compressed[0].provider@ == ts.last().provider@
            &&& compressed[0].content@ == ts.last().content@.subrange(
                0,
                4 * (spec_allowed_history_tokens(side) as int),
            ) + truncation_marker()
        },
    ensures
        ts.len() > 0 ==> spec_history_block(compressed) == spec_compressed_history(ts, side),
{
    if ts.len() > 0 && entry_tokens(ts.last()) > spec_allowed_history_tokens(side) {
        assert(compressed.drop_last() =~= Seq::<TranscriptEntry>::empty());
        assert(spec_history_block(Seq::<TranscriptEntry>::empty()) == Seq::<char>::empty());
        assert(compressed.last() == compressed[0]);
        assert(spec_history_block(compressed) =~= spec_compressed_history(ts, side));
    }
}

/// Build the judge turn's messages: the neutral verdict instruction and the
/// complete, uncompressed transcript.
pub fn build_judge_prompt(topic: &String, transcript: &Vec<TranscriptEntry>) -> (r: Vec<
    PromptMessage,
>)
    ensures
        r@.len() == 2,
        r@[0].kind == MessageKind::System,
        r@[0].content@ == spec_judge_system(topic@),
        r@[1].kind == MessageKind::User,
        r@[1].content@ == "完整辩论记录：\n"@ + spec_history_block(transcript@),
{
    let mut r: Vec<PromptMessage> = Vec::new();
    let mut system = String::from_str("你是中立裁判，请根据完整辩论记录做出裁决。\n议题：");
    system.append(topic.as_str());
    system.append(
        "\n要求：\n- 用 Markdown 输出。\n- 必须包含 `## Reasoning`（裁判推理过程，条理清晰）和 `## Verdict`（结论）。\n- 在结论中用 `Winner: Pro` 或 `Winner: Con` 指明胜方。\n- 简洁客观，避免复读。\n",
    );
    proof {
        assert(system@ =~= spec_judge_system(topic@));
    }
    r.push(PromptMessage { kind: MessageKind::System, content: system });
    let mut history = String::from_str("完整辩论记录：\n");
    append_history_block(&mut history, transcript);
    r.push(PromptMessage { kind: MessageKind::User, content: history });
    r
}

} // verus!
