//! One role's turn: the call plan and the two-phase tool protocol.
//!
//! A plain round is a single streaming call. A tool-augmented round runs a
//! three-stage sub-state machine — Deciding (one non-streaming call with the
//! search capability declared), Searching (execute requested searches, one
//! search event each), Streaming (a second, streaming call with the evidence
//! appended) — so the protocol can be reasoned about apart from any
//! transport. The search capability is never offered to the judge: judge
//! turns are always plain, to preserve evaluative neutrality.

use vstd::prelude::*;
use crate::config::spec_max_output_tokens;
use crate::config::spec_temperature_tenths;
use crate::config::max_output_tokens;
use crate::config::temperature_tenths;
use crate::events::BackendEvent;
use crate::events::DebateEvent;
use crate::events::normalize_backend_event;
use crate::tools::SearchResult;
use crate::types::DebatePhase;
use crate::types::Position;

verus! {

/// The fixed parameters of one turn's backend call.
#[derive(Clone, Copy, PartialEq, Eq, Structural, Debug)]
pub struct RoundPlan {
    pub side: Position,
    pub phase: DebatePhase,
    pub temperature_tenths: u8,
    pub max_output_tokens: u32,
    pub tools_enabled: bool,
}

/// Plan one turn's call: per-role temperature and output ceiling, and the
/// search capability offered only to debaters, and only when it is enabled.
pub fn plan_round(side: Position, phase: DebatePhase, search_enabled: bool) -> (r: RoundPlan)
    ensures
        r.side == side,
        r.phase == phase,
        r.temperature_tenths == spec_temperature_tenths(side),
        r.max_output_tokens == spec_max_output_tokens(side),
        r.tools_enabled == (search_enabled && !(side is Judge)),
{
    let tools_enabled = search_enabled && !matches!(side, Position::Judge);
    RoundPlan {
        side,
        phase,
        temperature_tenths: temperature_tenths(side),
        max_output_tokens: max_output_tokens(side),
        tools_enabled,
    }
}

/// What the decide call of a tool-augmented round came back with.
pub enum DecideOutcome {
    /// The backend answered directly: its content and, if present, usage
    /// metadata.
    Content { text: String, usage: Option<String> },
    /// The backend requested searches: the queries, in request order.
    ToolCalls { queries: Vec<String> },
    /// The call failed to start or errored; fatal to the turn.
    CallFailed { message: String },
}

/// The stage of one turn's protocol.
#[derive(Clone, Copy, PartialEq, Eq, Structural, Debug)]
pub enum RoundStage {
    Deciding,
    Searching,
    Streaming,
    Finished,
}

/// One turn in flight.
pub struct ToolRound {
    pub plan: RoundPlan,
    pub provider: String,
    pub stage: RoundStage,
}

impl ToolRound {
    pub open spec fn wf(self) -> bool {
        &&& (self.plan.side is Judge ==> !self.plan.tools_enabled)
        &&& ((self.stage is Deciding || self.stage is Searching) ==> self.plan.tools_enabled)
    }

    /// Open one turn: a tool-augmented round starts by letting the backend
    /// decide; a plain round goes straight to the streaming call.
    pub fn begin(side: Position, phase: DebatePhase, search_enabled: bool, provider: String) -> (r:
        ToolRound)
        ensures
            r.wf(),
            r.plan.side == side,
            r.plan.phase == phase,
            r.plan.temperature_tenths == spec_temperature_tenths(side),
            r.plan.max_output_tokens == spec_max_output_tokens(side),
            r.plan.tools_enabled == (search_enabled && !(side is Judge)),
            r.provider == provider,
            r.stage == if search_enabled && !(side is Judge) {
                RoundStage::Deciding
            } else {
                RoundStage::Streaming
            },
    {
        let plan = plan_round(side, phase, search_enabled);
        let stage = if plan.tools_enabled {
            RoundStage::Deciding
        } else {
            RoundStage::Streaming
        };
        ToolRound { plan, provider, stage }
    }

    /// Consume the decide call's outcome. Content ends the turn with a
    /// single delta (plus usage if present); requested tool calls move the
    /// round to Searching; a failed call ends the turn with a terminal
    /// error. No search event is emitted here.
    pub fn on_decision(&mut self, d: DecideOutcome) -> (evs: Vec<DebateEvent>)
        requires
            old(self).wf(),
            old(self).stage is Deciding,
        ensures
            final(self).wf(),
            final(self).plan == old(self).plan,
            final(self).provider == old(self).provider,
            forall|i: int| 0 <= i < evs@.len() ==> !((#[trigger] evs@[i]) is Search),
            d matches DecideOutcome::ToolCalls { queries } ==> final(self).stage
                is Searching && evs@.len() == 0,
            d matches DecideOutcome::Content { text, usage: None } ==> {
                &&& final(self).stage is Finished
                &&& evs@.len() == 1
                &&& evs@[0] == (DebateEvent::Delta {
                    side: old(self).plan.side,
                    phase: old(self).plan.phase,
                    provider: old(self).provider,
                    content: text,
                })
            },
            d matches DecideOutcome::Content { text, usage: Some(u) } ==> {
                &&& final(self).stage is Finished
                &&& evs@.len() == 2
                &&& evs@[0] == (DebateEvent::Delta {
                    side: old(self).plan.side,
                    phase: old(self).plan.phase,
                    provider: old(self).provider,
                    content: text,
                })
                &&& evs@[1] == (DebateEvent::Usage {
                    side: old(self).plan.side,
                    phase: old(self).plan.phase,
                    provider: old(self).provider,
                    info: u,
                })
            },
            d matches DecideOutcome::CallFailed { message } ==> {
                &&& final(self).stage is Finished
                &&& evs@.len() == 1
                &&& evs@[0] == (DebateEvent::Error { message })
            },
    {
        let mut evs: Vec<DebateEvent> = Vec::new();
        match d {
            DecideOutcome::ToolCalls { queries: _ } => {
                self.stage = RoundStage::Searching;
            },
            DecideOutcome::Content { text, usage } => {
                evs.push(
                    DebateEvent::Delta {
                        side: self.plan.side,
                        phase: self.plan.phase,
                        provider: self.provider.clone(),
                        content: text,
                    },
                );
                match usage {
                    Some(u) => {
                        evs.push(
                            DebateEvent::Usage {
                                side: self.plan.side,
                                phase: self.plan.phase,
                                provider: self.provider.clone(),
                                info: u,
                            },
                        );
                    },
                    None => (),
                }
                self.stage = RoundStage::Finished;
            },
            DecideOutcome::CallFailed { message } => {
                evs.push(DebateEvent::Error { message });
                self.stage = RoundStage::Finished;
            },
        }
        evs
    }

    /// Surface the executed searches: one search event per result, in order,
    /// then move to the streaming call. This is the only place a search
    /// event is produced — and it requires the Searching stage, which only a
    /// tool-augmented (never a judge) round reaches.
    pub fn on_search_results(&mut self, results: &Vec<SearchResult>) -> (evs: Vec<DebateEvent>)
        requires
            old(self).wf(),
            old(self).stage is Searching,
        ensures
            final(self).wf(),
            final(self).plan == old(self).plan,
            final(self).provider == old(self).provider,
            final(self).stage is Streaming,
            evs@.len() == results@.len(),
            forall|i: int|
                0 <= i < results@.len() ==> ((#[trigger] evs@[i]) matches DebateEvent::Search {
                    side,
                    phase,
                    provider,
                    query,
                    results: rs,
                } && side == old(self).plan.side && phase == old(self).plan.phase && provider
                    == old(self).provider && query@ == results@[i].query@ && rs@
                    == results@[i].results@),
    {
        let mut evs: Vec<DebateEvent> = Vec::new();
        let n = results.len();
        let mut i: usize = 0;
        while i < n
            invariant
                i <= n,
                n == results@.len(),
                *self == *old(self),
                evs@.len() == i,
                forall|k: int|
                    0 <= k < i ==> ((#[trigger] evs@[k]) matches DebateEvent::Search {
                        side,
                        phase,
                        provider,
                        query,
                        results: rs,
                    } && side == old(self).plan.side && phase == old(self).plan.phase && provider
                        == old(self).provider && query@ == results@[k].query@ && rs@
                        == results@[k].results@),
            decreases n - i,
        {
            evs.push(
                DebateEvent::Search {
                    side: self.plan.side,
                    phase: self.plan.phase,
                    provider: self.provider.clone(),
                    query: results[i].query.clone(),
                    results: results[i].results.clone(),
                },
            );
            i = i + 1;
        }
        self.stage = RoundStage::Streaming;
        evs
    }

    /// Relay one item of the streaming call, normalized and tagged. Never a
    /// search event.
    pub fn on_stream_event(&mut self, ev: BackendEvent) -> (r: DebateEvent)
        requires
            old(self).wf(),
            old(self).stage is Streaming,
        ensures
            *final(self) == *old(self),
            !(r is Search),
            ev matches BackendEvent::Failed { message } ==> r == (DebateEvent::Error { message }),
            ev matches BackendEvent::Content { text } ==> r == (DebateEvent::Delta {
                side: old(self).plan.side,
                phase: old(self).plan.phase,
                provider: old(self).provider,
                content: text,
            }),
    {
        normalize_backend_event(self.plan.side, self.plan.phase, &self.provider, ev)
    }
}

/// Law: judge turns never receive the search capability, and a judge round
/// can never stand in the deciding or searching stages — so no search event
/// is ever produced for a judge turn, whether or not search is enabled.
pub proof fn lemma_judge_round_no_search(r: ToolRound)
    requires
        r.wf(),
        r.plan.side is Judge,
    ensures
        !r.plan.tools_enabled,
        !(r.stage is Searching),
        !(r.stage is Deciding),
{
}

/// The judge's verdict text when the backend supplied none.
pub open spec fn spec_no_verdict() -> Seq<char> {
    "No verdict provided."@
}

/// The judge turn's final text, assembled from the parsed reasoning and
/// verdict sections; a missing verdict is replaced by a fixed notice, a
/// missing reasoning by nothing.
pub open spec fn spec_judge_output(reasoning: Option<Seq<char>>, verdict: Option<Seq<char>>) -> Seq<
    char,
> {
    "## Reasoning\n"@ + (match reasoning {
        Some(t) => t,
        None => Seq::empty(),
    }) + "\n\n## Verdict\n"@ + (match verdict {
        Some(t) => t,
        None => spec_no_verdict(),
    })
}

/// Assemble the judge's final output from its parsed sections.
pub fn assemble_judge_output(reasoning: Option<&String>, verdict: Option<&String>) -> (r: String)
    ensures
        r@ == spec_judge_output(
            match reasoning {
                Some(t) => Some(t@),
                None => None,
            },
            match verdict {
                Some(t) => Some(t@),
                None => None,
            },
        ),
{
    let mut out = String::from_str("## Reasoning\n");
    match reasoning {
        Some(t) => out.append(t.as_str()),
        None => (),
    }
    out.append("\n\n## Verdict\n");
    match verdict {
        Some(t) => out.append(t.as_str()),
        None => out.append("No verdict provided."),
    }
    proof {
        assert(out@ =~= spec_judge_output(
            match reasoning {
                Some(t) => Some(t@),
                None => None,
            },
            match verdict {
                Some(t) => Some(t@),
                None => None,
            },
        ));
    }
    out
}

} // verus!
