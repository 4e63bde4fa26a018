//! Session orchestration state: topic validation, the fixed phase/role turn
//! schedule, and the transcript accumulated turn by turn.
//!
//! A session runs exactly nine turns: Proponent then Opponent through the
//! four debate phases, then the Judge alone in the terminal phase. No phase
//! is skipped, reordered, or repeated; the first error fails the whole
//! session (fail-fast — later turns need the failed turn's text as context).

use vstd::prelude::*;
use crate::types::DebatePhase;
use crate::types::Position;
use crate::types::TranscriptEntry;

verus! {

/// Number of turns in one completed session: two sides in each of the four
/// debate phases, then the judge.
pub open spec fn spec_turn_count() -> nat {
    9
}

/// The fixed (side, phase) pair of the i-th turn.
pub open spec fn spec_turn_at(i: int) -> (Position, DebatePhase) {
    if i == 0 {
        (Position::Pro, DebatePhase::Opening)
    } else if i == 1 {
        (Position::Con, DebatePhase::Opening)
    } else if i == 2 {
        (Position::Pro, DebatePhase::Rebuttal)
    } else if i == 3 {
        (Position::Con, DebatePhase::Rebuttal)
    } else if i == 4 {
        (Position::Pro, DebatePhase::Defense)
    } else if i == 5 {
        (Position::Con, DebatePhase::Defense)
    } else if i == 6 {
        (Position::Pro, DebatePhase::Closing)
    } else if i == 7 {
        (Position::Con, DebatePhase::Closing)
    } else {
        (Position::Judge, DebatePhase::Judgement)
    }
}

/// The whole schedule as one sequence.
pub open spec fn spec_turn_order() -> Seq<(Position, DebatePhase)> {
    seq![
        (Position::Pro, DebatePhase::Opening),
        (Position::Con, DebatePhase::Opening),
        (Position::Pro, DebatePhase::Rebuttal),
        (Position::Con, DebatePhase::Rebuttal),
        (Position::Pro, DebatePhase::Defense),
        (Position::Con, DebatePhase::Defense),
        (Position::Pro, DebatePhase::Closing),
        (Position::Con, DebatePhase::Closing),
        (Position::Judge, DebatePhase::Judgement),
    ]
}

pub fn turn_count() -> (n: usize)
    ensures
        n == spec_turn_count(),
{
    9
}

pub fn turn_at(i: usize) -> (r: (Position, DebatePhase))
    requires
        i < spec_turn_count(),
    ensures
        r == spec_turn_at(i as int),
{
    if i == 0 {
        (Position::Pro, DebatePhase::Opening)
    } else if i == 1 {
        (Position::Con, DebatePhase::Opening)
    } else if i == 2 {
        (Position::Pro, DebatePhase::Rebuttal)
    } else if i == 3 {
        (Position::Con, DebatePhase::Rebuttal)
    } else if i == 4 {
        (Position::Pro, DebatePhase::Defense)
    } else if i == 5 {
        (Position::Con, DebatePhase::Defense)
    } else if i == 6 {
        (Position::Pro, DebatePhase::Closing)
    } else if i == 7 {
        (Position::Con, DebatePhase::Closing)
    } else {
        (Position::Judge, DebatePhase::Judgement)
    }
}

/// Whitespace for topic-blankness purposes.
pub open spec fn is_space(c: char) -> bool {
    c == ' ' || c == '\t' || c == '\n' || c == '\r'
}

/// A topic is valid when it is at most 2000 characters long and not blank.
pub open spec fn topic_valid(t: Seq<char>) -> bool {
    &&& t.len() <= 2000
    &&& exists|i: int| 0 <= i < t.len() && !is_space(t[i])
}

pub fn validate_topic(topic: &str) -> (ok: bool)
    ensures
        ok == topic_valid(topic@),
{
    let n = topic.unicode_len();
    if n > 2000 {
        return false;
    }
    let mut i: usize = 0;
    while i < n
        invariant
            i <= n,
            n <= 2000,
            n == topic@.len(),
            forall|j: int| 0 <= j < i ==> is_space(topic@[j]),
        decreases n - i,
    {
        let c = topic.get_char(i);
        if !(c == ' ' || c == '\t' || c == '\n' || c == '\r') {
            return true;
        }
        i = i + 1;
    }
    false
}

/// Rejections decided before any backend call.
#[derive(Clone, Copy, PartialEq, Eq, Structural, Debug)]
pub enum DebateError {
    InvalidTopic,
    RateLimited,
}

pub open spec fn spec_error_message(e: DebateError) -> Seq<char> {
    match e {
        DebateError::InvalidTopic => "invalid_topic"@,
        DebateError::RateLimited => "rate_limited"@,
    }
}

impl DebateError {
    pub fn message(&self) -> (r: &'static str)
        ensures
            r@ == spec_error_message(*self),
    {
        match self {
            DebateError::InvalidTopic => "invalid_topic",
            DebateError::RateLimited => "rate_limited",
        }
    }
}

/// One debate session: identity, validated topic, and the transcript built
/// strictly in schedule order. The session alone owns its transcript.
pub struct Session {
    pub user_id: String,
    pub session_id: String,
    pub topic: String,
    pub transcript: Vec<TranscriptEntry>,
    pub next_turn: usize,
    pub failed: bool,
}

impl Session {
    pub open spec fn wf(self) -> bool {
        &&& self.next_turn == self.transcript@.len()
        &&& self.next_turn <= spec_turn_count()
        &&& topic_valid(self.topic@)
        &&& forall|i: int|
            0 <= i < self.transcript@.len() ==> ((#[trigger] self.transcript@[i]).side,
            self.transcript@[i].phase) == spec_turn_at(i)
    }

    /// Validate the topic and open a session. Rejected exactly when the
    /// topic is blank or longer than 2000 characters; rejection happens
    /// before any backend resource is committed.
    pub fn start(user_id: String, session_id: String, topic: String) -> (r: Result<
        Session,
        DebateError,
    >)
        ensures
            r is Ok <==> topic_valid(topic@),
            r matches Ok(s) ==> {
                &&& s.wf()
                &&& !s.failed
                &&& s.next_turn == 0
                &&& s.transcript@.len() == 0
                &&& s.user_id == user_id
                &&& s.session_id == session_id
                &&& s.topic == topic
            },
            r matches Err(e) ==> e == DebateError::InvalidTopic,
    {
        if validate_topic(topic.as_str()) {
            Ok(
                Session {
                    user_id,
                    session_id,
                    topic,
                    transcript: Vec::new(),
                    next_turn: 0,
                    failed: false,
                },
            )
        } else {
            Err(DebateError::InvalidTopic)
        }
    }

    /// The (side, phase) of the turn to run next, or None once the session
    /// has completed all nine turns or failed.
    pub fn current_turn(&self) -> (r: Option<(Position, DebatePhase)>)
        ensures
            r == if !self.failed && self.next_turn < spec_turn_count() {
                Some(spec_turn_at(self.next_turn as int))
            } else {
                None::<(Position, DebatePhase)>
            },
    {
        if self.failed || self.next_turn >= 9 {
            None
        } else {
            Some(turn_at(self.next_turn))
        }
    }

    /// Record one completed turn: exactly one transcript entry is appended,
    /// carrying the side and phase the schedule fixes for this position.
    pub fn complete_turn(&mut self, content: String, provider: String)
        requires
            old(self).wf(),
            !old(self).failed,
            old(self).next_turn < spec_turn_count(),
        ensures
            final(self).wf(),
            !final(self).failed,
            final(self).next_turn == old(self).next_turn + 1,
            final(self).transcript@ == old(self).transcript@.push(
                (TranscriptEntry {
                    side: spec_turn_at(old(self).next_turn as int).0,
                    phase: spec_turn_at(old(self).next_turn as int).1,
                    content: content,
                    provider: provider,
                }),
            ),
            final(self).user_id == old(self).user_id,
            final(self).session_id == old(self).session_id,
            final(self).topic == old(self).topic,
    {
        let (side, phase) = turn_at(self.next_turn);
        self.transcript.push(TranscriptEntry { side, phase, content, provider });
        self.next_turn = self.next_turn + 1;
    }

    /// Mark the session failed: the stream ends with a terminal error event
    /// and no further turn runs.
    pub fn mark_failed(&mut self)
        ensures
            final(self).failed,
            final(self).user_id == old(self).user_id,
            final(self).session_id == old(self).session_id,
            final(self).topic == old(self).topic,
            final(self).transcript == old(self).transcript,
            final(self).next_turn == old(self).next_turn,
    {
        self.failed = true;
    }

    /// Whether all nine turns completed without failure.
    pub fn is_completed(&self) -> (r: bool)
        ensures
            r == (self.next_turn == spec_turn_count() && !self.failed),
    {
        self.next_turn == 9 && !self.failed
    }
}

/// Law: the phase/role turn order is invariant — any completed session's
/// transcript carries exactly the fixed sequence Opening/Pro, Opening/Con,
/// Rebuttal/Pro, Rebuttal/Con, Defense/Pro, Defense/Con, Closing/Pro,
/// Closing/Con, Judgement/Judge.
pub proof fn lemma_completed_session_order(s: Session)
    requires
        s.wf(),
        s.next_turn == spec_turn_count(),
    ensures
        s.transcript@.map_values(|e: TranscriptEntry| (e.side, e.phase)) == spec_turn_order(),
{
    let m = s.transcript@.map_values(|e: TranscriptEntry| (e.side, e.phase));
    assert forall|i: int| 0 <= i < 9 implies m[i] == spec_turn_order()[i] by {
        assert((s.transcript@[i].side, s.transcript@[i].phase) == spec_turn_at(i));
    }
    assert(m =~= spec_turn_order());
}

} // verus!
