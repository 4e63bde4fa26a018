//! Context compression: fit a growing transcript into a role's token budget.
//!
//! The token estimate is a deliberate, deterministic proxy — one token per
//! four characters of content, floored at one token — not a real tokenizer.
//! Compression keeps the largest suffix of the transcript that fits the
//! budget left after reserving the role's own output tokens (recency bias:
//! later turns depend most on the immediately preceding ones). If even the
//! most recent entry alone exceeds the budget, its content is cut to
//! `budget × 4` characters and a fixed truncation marker is appended, so
//! every role always receives some context.

use vstd::prelude::*;
use crate::types::TranscriptEntry;
use crate::types::Position;
use crate::config::allowed_history_tokens;
use crate::config::spec_allowed_history_tokens;

verus! {

/// Estimated token cost of a text: one token per four characters, at least one.
pub open spec fn est_tokens(content: Seq<char>) -> nat {
    if content.len() / 4 < 1 {
        1
    } else {
        content.len() / 4
    }
}

/// Estimated token cost of one transcript entry's content.
pub open spec fn entry_tokens(e: TranscriptEntry) -> nat {
    est_tokens(e.content@)
}

/// Estimated token cost of a whole transcript.
pub open spec fn transcript_tokens(ts: Seq<TranscriptEntry>) -> nat
    decreases ts.len(),
{
    if ts.len() == 0 {
        0
    } else {
        transcript_tokens(ts.drop_last()) + entry_tokens(ts.last())
    }
}

/// How many of the most recent entries the greedy budget walk keeps: walking
/// from the newest entry backwards, an entry is kept while its estimate still
/// fits the remaining budget, and the walk stops at the first entry that
/// does not fit.
pub open spec fn kept_count(ts: Seq<TranscriptEntry>, allowed: nat) -> nat
    decreases ts.len(),
{
    if ts.len() == 0 {
        0
    } else if entry_tokens(ts.last()) > allowed {
        0
    } else {
        1 + kept_count(ts.drop_last(), (allowed - entry_tokens(ts.last())) as nat)
    }
}

/// The marker appended to content cut by the single-entry truncation fallback.
pub open spec fn truncation_marker() -> Seq<char> {
    "\n\n[...已截断]"@
}

/// Estimate tokens from text (about one token per four characters, at least
/// one). This is a conservative, deterministic heuristic, not a tokenizer.
pub fn estimate_tokens_from_text(text: &str) -> (t: u64)
    ensures
        t == est_tokens(text@),
{
    let n = text.unicode_len();
    let q = n / 4;
    if q < 1 {
        1
    } else {
        q as u64
    }
}

fn clone_entry(e: &TranscriptEntry) -> (r: TranscriptEntry)
    ensures
        r == *e,
{
    TranscriptEntry {
        side: e.side,
        phase: e.phase,
        content: e.content.clone(),
        provider: e.provider.clone(),
    }
}

pub proof fn lemma_kept_count_le_len(ts: Seq<TranscriptEntry>, allowed: nat)
    ensures
        kept_count(ts, allowed) <= ts.len(),
    decreases ts.len(),
{
    if ts.len() > 0 && entry_tokens(ts.last()) <= allowed {
        lemma_kept_count_le_len(ts.drop_last(), (allowed - entry_tokens(ts.last())) as nat);
    }
}

/// Law: the suffix kept by the greedy budget walk always fits the allowed
/// budget — the compressor never hands a role more estimated tokens than the
/// budget left after reserving its output.
pub proof fn lemma_compressor_output_fits(ts: Seq<TranscriptEntry>, allowed: nat)
    ensures
        kept_count(ts, allowed) <= ts.len(),
        transcript_tokens(ts.subrange(ts.len() - kept_count(ts, allowed), ts.len() as int))
            <= allowed,
    decreases ts.len(),
{
    lemma_kept_count_le_len(ts, allowed);
    let k = kept_count(ts, allowed);
    if ts.len() == 0 || entry_tokens(ts.last()) > allowed {
        assert(ts.subrange(ts.len() - k, ts.len() as int) =~= Seq::<TranscriptEntry>::empty());
        assert(transcript_tokens(Seq::<TranscriptEntry>::empty()) == 0);
    } else {
        let et = entry_tokens(ts.last());
        let dl = ts.drop_last();
        let rest = (allowed - et) as nat;
        lemma_compressor_output_fits(dl, rest);
        let k1 = kept_count(dl, rest);
        assert(k == k1 + 1);
        let kept = ts.subrange(ts.len() - k, ts.len() as int);
        assert(kept.len() == k);
        assert(kept.drop_last() =~= dl.subrange(dl.len() - k1, dl.len() as int));
        assert(kept.last() == ts.last());
        assert(transcript_tokens(kept) == transcript_tokens(kept.drop_last()) + et);
    }
}

/// Law: the greedy walk is maximal — if it dropped anything, keeping one
/// entry more would already exceed the budget.
pub proof fn lemma_compressor_maximal(ts: Seq<TranscriptEntry>, allowed: nat)
    requires
        kept_count(ts, allowed) < ts.len(),
    ensures
        transcript_tokens(
            ts.subrange(ts.len() - kept_count(ts, allowed) - 1, ts.len() as int),
        ) > allowed,
    decreases ts.len(),
{
    let k = kept_count(ts, allowed);
    if entry_tokens(ts.last()) > allowed {
        assert(k == 0);
        let one = ts.subrange(ts.len() - 1, ts.len() as int);
        assert(one.len() == 1);
        assert(one.last() == ts.last());
        assert(one.drop_last() =~= Seq::<TranscriptEntry>::empty());
        assert(transcript_tokens(Seq::<TranscriptEntry>::empty()) == 0);
        assert(transcript_tokens(one) == entry_tokens(ts.last()));
    } else {
        let et = entry_tokens(ts.last());
        let dl = ts.drop_last();
        let rest = (allowed - et) as nat;
        let k1 = kept_count(dl, rest);
        assert(k == k1 + 1);
        lemma_compressor_maximal(dl, rest);
        let ext = ts.subrange(ts.len() - k - 1, ts.len() as int);
        assert(ext.drop_last() =~= dl.subrange(dl.len() - k1 - 1, dl.len() as int));
        assert(ext.last() == ts.last());
        assert(transcript_tokens(ext) == transcript_tokens(ext.drop_last()) + et);
    }
}

/// Law: when the transcript is non-empty and its most recent entry fits the
/// budget, the greedy walk keeps at least that entry.
pub proof fn lemma_compressor_keeps_newest(ts: Seq<TranscriptEntry>, allowed: nat)
    requires
        ts.len() > 0,
        entry_tokens(ts.last()) <= allowed,
    ensures
        kept_count(ts, allowed) >= 1,
{
}

/// Compress a transcript to an explicit token budget. The result is the
/// largest suffix of the transcript whose estimated cost fits `allowed`;
/// if even the most recent entry alone exceeds the budget, that single entry
/// is returned with its content cut to `allowed × 4` characters plus the
/// truncation marker. Output order is chronological, as in the input.
pub fn compress_transcript_to_budget(transcript: &Vec<TranscriptEntry>, allowed: u64) -> (r: Vec<
    TranscriptEntry,
>)
    ensures
        transcript@.len() == 0 ==> r@.len() == 0,
        transcript@.len() > 0 ==> r@.len() >= 1,
        transcript@.len() > 0 && entry_tokens(transcript@.last()) <= allowed ==> {
            &&& r@ == transcript@.subrange(
                transcript@.len() - kept_count(transcript@, allowed as nat),
                transcript@.len() as int,
            )
            &&& transcript_tokens(r@) <= allowed
        },
        transcript@.len() > 0 && entry_tokens(transcript@.last()) > allowed ==> {
            &&& r@.len() == 1
            &&& r@[0].side == transcript@.last().side
            &&& r@[0].phase == transcript@.last().phase
            &&& r@[0].provider@ == transcript@.last().provider@
            &&& r@[0].content@ == transcript@.last().content@.subrange(0, 4 * (allowed as int))
                + truncation_marker()
        },
{
    let n = transcript.len();
    if n == 0 {
        return Vec::new();
    }
    let last = &transcript[n - 1];
    let n_chars = last.content.as_str().unicode_len();
    let last_est = estimate_tokens_from_text(last.content.as_str());
    if last_est > allowed {
        // Single-entry truncation fallback: even the newest entry does not fit.
        proof {
            if allowed > 0 {
                assert(est_tokens(last.content@) > allowed);
                assert(last.content@.len() / 4 > allowed as nat);
                assert(n_chars as nat == last.content@.len());
                assert(4 * (allowed as nat) + 4 <= n_chars as nat);
            }
        }
        let allowed_chars: usize = (4 * allowed) as usize;
        let cut = last.content.as_str().substring_char(0, allowed_chars);
        let mut content = cut.to_owned();
        content.append("\n\n[...已截断]");
        let entry = TranscriptEntry {
            side: last.side,
            phase: last.phase,
            content,
            provider: last.provider.clone(),
        };
        let mut out: Vec<TranscriptEntry> = Vec::new();
        out.push(entry);
        return out;
    }
    // Greedy walk from the newest entry backwards, spending the budget.
    let ghost ts = transcript@;
    let mut k: usize = 0;
    let mut remaining: u64 = allowed;
    proof {
        assert(ts.take(n as int) =~= ts);
    }
    loop
        invariant
            n >= 1,
            n == ts.len(),
            ts == transcript@,
            k <= n,
            remaining <= allowed,
            entry_tokens(ts.last()) <= allowed,
            k == 0 ==> remaining == allowed,
            kept_count(ts, allowed as nat) == k + kept_count(ts.take(n - k), remaining as nat),
        ensures
            1 <= k <= n,
            kept_count(ts, allowed as nat) == k,
        decreases n - k,
    {
        if k == n {
            proof {
                assert(ts.take(0) =~= Seq::<TranscriptEntry>::empty());
                assert(kept_count(Seq::<TranscriptEntry>::empty(), remaining as nat) == 0);
            }
            break;
        }
        let est = estimate_tokens_from_text(transcript[n - 1 - k].content.as_str());
        proof {
            let pre = ts.take(n - k);
            assert(pre.len() == n - k);
            assert(pre.last() == ts[n - 1 - k as int]);
        }
        if est > remaining {
            proof {
                assert(k != 0) by {
                    if k == 0 {
                        assert(ts.take(n as int) =~= ts);
                        assert(ts.take(n - k).last() == ts.last());
                    }
                }
                assert(kept_count(ts.take(n - k), remaining as nat) == 0);
            }
            break;
        }
        proof {
            let pre = ts.take(n - k);
            assert(pre.drop_last() =~= ts.take(n - k - 1));
            assert(kept_count(pre, remaining as nat) == 1 + kept_count(
                ts.take(n - k - 1),
                (remaining - est) as nat,
            ));
        }
        remaining = remaining - est;
        k = k + 1;
    }
    // Copy the kept suffix in chronological order.
    let start = n - k;
    let mut out: Vec<TranscriptEntry> = Vec::new();
    let mut i: usize = start;
    while i < n
        invariant
            start <= i <= n,
            n == transcript@.len(),
            out@ == transcript@.subrange(start as int, i as int),
        decreases n - i,
    {
        out.push(clone_entry(&transcript[i]));
        proof {
            assert(transcript@.subrange(start as int, i + 1) =~= transcript@.subrange(
                start as int,
                i as int,
            ).push(transcript@[i as int]));
        }
        i = i + 1;
    }
    proof {
        lemma_compressor_output_fits(transcript@, allowed as nat);
    }
    out
}

/// Compress a transcript to fit the history budget of `role`: the role's
/// total token budget minus the tokens reserved for its own output.
pub fn compress_transcript_for_role(transcript: &Vec<TranscriptEntry>, role: Position) -> (r: Vec<
    TranscriptEntry,
>)
    ensures
        transcript@.len() == 0 ==> r@.len() == 0,
        transcript@.len() > 0 ==> r@.len() >= 1,
        transcript@.len() > 0 && entry_tokens(transcript@.last())
            <= spec_allowed_history_tokens(role) ==> {
            &&& r@ == transcript@.subrange(
                transcript@.len() - kept_count(
                    transcript@,
                    spec_allowed_history_tokens(role) as nat,
                ),
                transcript@.len() as int,
            )
            &&& transcript_tokens(r@) <= spec_allowed_history_tokens(role)
        },
        transcript@.len() > 0 && entry_tokens(transcript@.last())
            > spec_allowed_history_tokens(role) ==> {
            &&& r@.len() == 1
            &&& r@[0].side == transcript@.last().side
            &&& r@[0].phase == transcript@.last().phase
            &&& r@[0].provider@ == transcript@.last().provider@
            &&& r@[0].content@ == transcript@.last().content@.subrange(
                0,
                4 * (spec_allowed_history_tokens(role) as int),
            ) + truncation_marker()
        },
{
    let allowed = allowed_history_tokens(role);
    compress_transcript_to_budget(transcript, allowed)
}

} // verus!
