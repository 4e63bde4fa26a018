//! Core data model: debate roles, phases, transcript entries, and the
//! request/response shapes of the public interface.

use vstd::prelude::*;

verus! {

/// One of the three fixed debate participants.
#[derive(Clone, Copy, PartialEq, Eq, Structural, Debug)]
pub enum Position {
    Pro,
    Con,
    Judge,
}

/// One step of the fixed debate sequence.
#[derive(Clone, Copy, PartialEq, Eq, Structural, Debug)]
pub enum DebatePhase {
    Opening,
    Rebuttal,
    Defense,
    Closing,
    Judgement,
}

/// The wire identifier of a role, as persisted and as sent on the stream.
pub open spec fn spec_role_str(p: Position) -> Seq<char> {
    match p {
        Position::Pro => "pro"@,
        Position::Con => "con"@,
        Position::Judge => "judge"@,
    }
}

/// The human-facing label of a role, used inside prompts.
pub open spec fn spec_label(p: Position) -> Seq<char> {
    match p {
        Position::Pro => "Pro"@,
        Position::Con => "Con"@,
        Position::Judge => "Judge"@,
    }
}

/// The wire identifier of a phase, as persisted and as sent on the stream.
pub open spec fn spec_phase_str(p: DebatePhase) -> Seq<char> {
    match p {
        DebatePhase::Opening => "opening"@,
        DebatePhase::Rebuttal => "rebuttal"@,
        DebatePhase::Defense => "defense"@,
        DebatePhase::Closing => "closing"@,
        DebatePhase::Judgement => "judgement"@,
    }
}

/// The display title of a phase, used in prompts and start-of-turn events.
pub open spec fn spec_title(p: DebatePhase) -> Seq<char> {
    match p {
        DebatePhase::Opening => "一辩开篇"@,
        DebatePhase::Rebuttal => "二辩反驳"@,
        DebatePhase::Defense => "三辩防守"@,
        DebatePhase::Closing => "总结陈词"@,
        DebatePhase::Judgement => "裁判裁决"@,
    }
}

impl Position {
    pub fn role_str(&self) -> (r: &'static str)
        ensures
            r@ == spec_role_str(*self),
    {
        match self {
            Position::Pro => "pro",
            Position::Con => "con",
            Position::Judge => "judge",
        }
    }

    pub fn label(&self) -> (r: &'static str)
        ensures
            r@ == spec_label(*self),
    {
        match self {
            Position::Pro => "Pro",
            Position::Con => "Con",
            Position::Judge => "Judge",
        }
    }
}

impl DebatePhase {
    pub fn as_str(&self) -> (r: &'static str)
        ensures
            r@ == spec_phase_str(*self),
    {
        match self {
            DebatePhase::Opening => "opening",
            DebatePhase::Rebuttal => "rebuttal",
            DebatePhase::Defense => "defense",
            DebatePhase::Closing => "closing",
            DebatePhase::Judgement => "judgement",
        }
    }

    pub fn title(&self) -> (r: &'static str)
        ensures
            r@ == spec_title(*self),
    {
        match self {
            DebatePhase::Opening => "一辩开篇",
            DebatePhase::Rebuttal => "二辩反驳",
            DebatePhase::Defense => "三辩防守",
            DebatePhase::Closing => "总结陈词",
            DebatePhase::Judgement => "裁判裁决",
        }
    }
}

/// One completed turn: who spoke, in which phase, the full text produced,
/// and the backend that produced it.
pub struct TranscriptEntry {
    pub side: Position,
    pub phase: DebatePhase,
    pub content: String,
    pub provider: String,
}

impl TranscriptEntry {
    pub fn new(side: Position, phase: DebatePhase, content: String, provider: String) -> (r:
        TranscriptEntry)
        ensures
            r.side == side,
            r.phase == phase,
            r.content == content,
            r.provider == provider,
    {
        TranscriptEntry { side, phase, content, provider }
    }
}

/// A request to start a debate session.
pub struct DebateRequest {
    pub user_id: String,
    pub session_id: String,
    pub topic: String,
}

/// A request for the persisted history of one session.
pub struct HistoryQuery {
    pub user_id: String,
    pub session_id: String,
}

/// One persisted turn as returned by a history query.
pub struct HistoryMessage {
    pub role: String,
    pub phase: String,
    pub provider: Option<String>,
    pub content: String,
}

/// One resolved backend binding: its registry name and the model it answers
/// with. Immutable once resolved; safe to share read-only across sessions.
/// The live connection handle belongs to the transport layer.
#[derive(Clone)]
pub struct ClientInfo {
    pub name: String,
    pub default_model: String,
}

/// The three bindings of one session, one per role.
pub struct RoleBindings {
    pub pro: ClientInfo,
    pub con: ClientInfo,
    pub judge: ClientInfo,
}

/// Pick the binding that speaks for a side.
pub fn client_for_side(bindings: &RoleBindings, side: Position) -> (r: &ClientInfo)
    ensures
        *r == match side {
            Position::Pro => bindings.pro,
            Position::Con => bindings.con,
            Position::Judge => bindings.judge,
        },
{
    match side {
        Position::Pro => &bindings.pro,
        Position::Con => &bindings.con,
        Position::Judge => &bindings.judge,
    }
}

/// The sliding-window rate-limit parameters: window width in seconds and the
/// maximum number of admitted session starts within one window.
pub fn rate_limit_window() -> (r: (u64, usize))
    ensures
        r.0 == 10,
        r.1 == 8,
{
    (10, 8)
}

} // verus!
