//! The persistence contract for replayable history: an append-only keyed
//! store of completed turns.
//!
//! One row per completed turn, keyed by (caller identity, session
//! identifier), in insertion order. A history query returns that session's
//! rows oldest-first, capped to the most recent 50. This module states and
//! proves what the storage engine must do; the engine itself (its
//! transactions, its files) lives outside the library and must refine this
//! contract.

use vstd::prelude::*;
use crate::types::DebatePhase;
use crate::types::HistoryMessage;
use crate::types::Position;
use crate::types::spec_phase_str;
use crate::types::spec_role_str;

verus! {

/// One persisted row: caller identity, session identifier, who spoke, in
/// which phase, through which backend, and the full text.
pub struct StoredTurn {
    pub user_id: String,
    pub session_id: String,
    pub role: Position,
    pub phase: DebatePhase,
    pub provider: Option<String>,
    pub content: String,
}

/// Whether a row belongs to the given (identity, session) key.
pub open spec fn row_matches(t: StoredTurn, user: Seq<char>, session: Seq<char>) -> bool {
    t.user_id@ == user && t.session_id@ == session
}

/// The rows of one session, oldest first, in insertion order.
pub open spec fn matching_rows(rows: Seq<StoredTurn>, user: Seq<char>, session: Seq<char>) -> Seq<
    StoredTurn,
>
    decreases rows.len(),
{
    if rows.len() == 0 {
        Seq::empty()
    } else {
        let rest = matching_rows(rows.drop_last(), user, session);
        if row_matches(rows.last(), user, session) {
            rest.push(rows.last())
        } else {
            rest
        }
    }
}

/// At most the last `limit` elements, keeping order.
pub open spec fn capped(s: Seq<StoredTurn>, limit: nat) -> Seq<StoredTurn> {
    if s.len() <= limit {
        s
    } else {
        s.subrange(s.len() - limit, s.len() as int)
    }
}

/// How a history answer reflects a stored row: role and phase as their wire
/// identifiers, provider and content carried through.
pub open spec fn reflects_row(m: HistoryMessage, t: StoredTurn) -> bool {
    &&& m.role@ == spec_role_str(t.role)
    &&& m.phase@ == spec_phase_str(t.phase)
    &&& m.content@ == t.content@
    &&& match (m.provider, t.provider) {
        (Some(a), Some(b)) => a@ == b@,
        (None, None) => true,
        _ => false,
    }
}

/// The most recent rows a history query returns for a key.
pub open spec fn spec_history(rows: Seq<StoredTurn>, user: Seq<char>, session: Seq<char>) -> Seq<
    StoredTurn,
> {
    capped(matching_rows(rows, user, session), 50)
}

/// The append-only transcript store: rows in insertion order; the implicit
/// row identifier is the index.
pub struct TranscriptStore {
    pub rows: Vec<StoredTurn>,
}

impl TranscriptStore {
    pub fn new() -> (r: TranscriptStore)
        ensures
            r.rows@ == Seq::<StoredTurn>::empty(),
    {
        TranscriptStore { rows: Vec::new() }
    }
}

/// Persist one completed turn: exactly one row is appended, after every row
/// already stored.
pub fn save_message(
    store: &mut TranscriptStore,
    user_id: &String,
    session_id: &String,
    role: Position,
    phase: DebatePhase,
    provider: Option<&String>,
    content: &String,
)
    ensures
        final(store).rows@.len() == old(store).rows@.len() + 1,
        final(store).rows@.subrange(0, old(store).rows@.len() as int) == old(store).rows@,
        final(store).rows@.last().user_id@ == user_id@,
        final(store).rows@.last().session_id@ == session_id@,
        final(store).rows@.last().role == role,
        final(store).rows@.last().phase == phase,
        final(store).rows@.last().content@ == content@,
        match (final(store).rows@.last().provider, provider) {
            (Some(a), Some(b)) => a@ == b@,
            (None, None) => true,
            _ => false,
        },
{
    let prov = match provider {
        Some(p) => Some(p.clone()),
        None => None,
    };
    store.rows.push(
        StoredTurn {
            user_id: user_id.clone(),
            session_id: session_id.clone(),
            role,
            phase,
            provider: prov,
            content: content.clone(),
        },
    );
    proof {
        assert(store.rows@.subrange(0, old(store).rows@.len() as int) =~= old(store).rows@);
    }
}

/// Read one session's history: its rows oldest-first, capped to the most
/// recent 50, each reflected as its wire shape.
pub fn fetch_history(store: &TranscriptStore, user_id: &String, session_id: &String) -> (r: Vec<
    HistoryMessage,
>)
    ensures
        r@.len() == spec_history(store.rows@, user_id@, session_id@).len(),
        forall|i: int|
            0 <= i < r@.len() ==> reflects_row(
                #[trigger] r@[i],
                spec_history(store.rows@, user_id@, session_id@)[i],
            ),
{
    let ghost rows = store.rows@;
    let n = store.rows.len();
    let mut selected: Vec<usize> = Vec::new();
    let mut i: usize = 0;
    while i < n
        invariant
            i <= n,
            n == rows.len(),
            rows == store.rows@,
            selected@.len() == matching_rows(rows.take(i as int), user_id@, session_id@).len(),
            forall|k: int|
                0 <= k < selected@.len() ==> #[trigger] selected@[k] < i && rows[
                    selected@[k] as int
                ] == matching_rows(rows.take(i as int), user_id@, session_id@)[k],
        decreases n - i,
    {
        proof {
            assert(rows.take(i + 1).drop_last() =~= rows.take(i as int));
            assert(rows.take(i + 1).last() == rows[i as int]);
        }
        let matches_user = store.rows[i].user_id.eq(user_id);
        let matches_session = store.rows[i].session_id.eq(session_id);
        if matches_user && matches_session {
            selected.push(i);
        }
        i = i + 1;
    }
    proof {
        assert(rows.take(n as int) =~= rows);
    }
    let m = selected.len();
    let start: usize = if m > 50 {
        m - 50
    } else {
        0
    };
    let ghost hist = spec_history(rows, user_id@, session_id@);
    proof {
        let mr = matching_rows(rows, user_id@, session_id@);
        if m > 50 {
            assert(hist =~= mr.subrange(m - 50, m as int));
        } else {
            assert(hist =~= mr);
        }
    }
    let mut r: Vec<HistoryMessage> = Vec::new();
    let mut j: usize = start;
    while j < m
        invariant
            start <= j <= m,
            m == selected@.len(),
            m == matching_rows(rows, user_id@, session_id@).len(),
            start == if m > 50 {
                m - 50
            } else {
                0
            },
            rows == store.rows@,
            n == rows.len(),
            hist == spec_history(rows, user_id@, session_id@),
            hist.len() == m - start,
            forall|k: int|
                0 <= k < hist.len() ==> hist[k] == matching_rows(rows, user_id@, session_id@)[
                    k + start
                ],
            forall|k: int|
                0 <= k < selected@.len() ==> #[trigger] selected@[k] < n && rows[
                    selected@[k] as int
                ] == matching_rows(rows, user_id@, session_id@)[k],
            r@.len() == j - start,
            forall|k: int| 0 <= k < r@.len() ==> reflects_row(#[trigger] r@[k], hist[k]),
        decreases m - j,
    {
        let idx = selected[j];
        let row = &store.rows[idx];
        let prov = match &row.provider {
            Some(p) => Some(p.clone()),
            None => None,
        };
        let msg = HistoryMessage {
            role: row.role.role_str().to_owned(),
            phase: row.phase.as_str().to_owned(),
            provider: prov,
            content: row.content.clone(),
        };
        r.push(msg);
        j = j + 1;
    }
    r
}

/// Appending a row leaves every other session's history untouched and puts
/// the new row last among its own session's rows.
pub proof fn lemma_matching_rows_append(
    rows: Seq<StoredTurn>,
    t: StoredTurn,
    user: Seq<char>,
    session: Seq<char>,
)
    ensures
        row_matches(t, user, session) ==> matching_rows(rows.push(t), user, session)
            == matching_rows(rows, user, session).push(t),
        !row_matches(t, user, session) ==> matching_rows(rows.push(t), user, session)
            == matching_rows(rows, user, session),
{
    assert(rows.push(t).drop_last() =~= rows);
    assert(rows.push(t).last() == t);
}

/// Law (round trip): persisting a turn and then querying its session returns
/// the rows in original chronological order with the new turn last, capped
/// to the most recent 50, without duplication — each answer position simply
/// reflects one distinct stored row, in order.
pub proof fn lemma_history_round_trip(
    rows: Seq<StoredTurn>,
    t: StoredTurn,
    user: Seq<char>,
    session: Seq<char>,
)
    requires
        row_matches(t, user, session),
    ensures
        spec_history(rows.push(t), user, session).len() >= 1,
        spec_history(rows.push(t), user, session).last() == t,
        spec_history(rows.push(t), user, session).drop_last() == if matching_rows(
            rows,
            user,
            session,
        ).len() < 50 {
            matching_rows(rows, user, session)
        } else {
            matching_rows(rows, user, session).subrange(
                matching_rows(rows, user, session).len() - 49,
                matching_rows(rows, user, session).len() as int,
            )
        },
{
    lemma_matching_rows_append(rows, t, user, session);
    let mr = matching_rows(rows, user, session);
    let m2 = mr.push(t);
    let h = capped(m2, 50);
    if m2.len() <= 50 {
        assert(h == m2);
        assert(h.last() == t);
        assert(h.drop_last() =~= mr);
    } else {
        assert(h == m2.subrange(m2.len() - 50, m2.len() as int));
        assert(h.last() == m2[m2.len() - 1]);
        assert(h.drop_last() =~= mr.subrange(mr.len() - 49, mr.len() as int));
    }
}

} // verus!
