//! The append-only play history.  Entries are never mutated or
//! deleted, and reads come back ordered by timestamp descending; the
//! store keeps its rows in that order, inserting each new entry at its
//! place (after any entry with the same timestamp).

use vstd::prelude::*;
use crate::error::ServiceError;
use crate::identity::{get_custom_uuids, resolve_spec};
use crate::strutil::str_eq;

verus! {

/// One play-history entry.
pub struct History {
    pub uuid: String,
    pub song: String,
    pub tst: i64,
}

impl Clone for History {
    fn clone(&self) -> (r: Self)
        ensures
            r == *self,
    {
        History { uuid: self.uuid.clone(), song: self.song.clone(), tst: self.tst }
    }
}

/// Body of an append-history request.
pub struct HistoryPayload {
    pub id: String,
    pub song: String,
    pub key: String,
    pub tst: i64,
}

/// Timestamps never increase along the sequence.
pub open spec fn sorted_desc(rows: Seq<History>) -> bool {
    forall|i: int, j: int| 0 <= i < j < rows.len() ==> rows[i].tst >= rows[j].tst
}

/// Where a new entry with timestamp `tst` goes: after every entry with
/// a timestamp at least as large.
pub open spec fn insert_pos(rows: Seq<History>, tst: i64) -> int
    decreases rows.len(),
{
    if rows.len() == 0 {
        0
    } else if rows[0].tst < tst {
        0
    } else {
        1 + insert_pos(rows.subrange(1, rows.len() as int), tst)
    }
}

/// `insert_pos` is the first index whose timestamp is below `tst`.
pub proof fn lemma_insert_pos_props(rows: Seq<History>, tst: i64)
    ensures
        0 <= insert_pos(rows, tst) <= rows.len(),
        forall|j: int| 0 <= j < insert_pos(rows, tst) ==> rows[j].tst >= tst,
        insert_pos(rows, tst) < rows.len() ==> rows[insert_pos(rows, tst)].tst < tst,
    decreases rows.len(),
{
    if rows.len() > 0 && !(rows[0].tst < tst) {
        let rest = rows.subrange(1, rows.len() as int);
        lemma_insert_pos_props(rest, tst);
        assert(forall|j: int| 0 <= j < rest.len() ==> rest[j] == rows[j + 1]);
        assert forall|j: int| 0 <= j < insert_pos(rows, tst) implies rows[j].tst >= tst by {
            if j > 0 {
                assert(rows[j] == rest[j - 1]);
            }
        }
    }
}

/// Tenant `t`'s entries, in row order.
pub open spec fn history_for(rows: Seq<History>, t: Seq<char>) -> Seq<History>
    decreases rows.len(),
{
    if rows.len() == 0 {
        Seq::empty()
    } else {
        let p = history_for(rows.drop_last(), t);
        if rows.last().uuid@ == t {
            p.push(rows.last())
        } else {
            p
        }
    }
}

/// Filtering one tenant out of a timestamp-sorted log keeps the order.
pub proof fn lemma_history_for_sorted(rows: Seq<History>, t: Seq<char>)
    requires
        sorted_desc(rows),
    ensures
        sorted_desc(history_for(rows, t)),
    decreases rows.len(),
{
    if rows.len() > 0 {
        let prefix = rows.drop_last();
        let p = history_for(prefix, t);
        let q = history_for(rows, t);
        assert(forall|i: int| 0 <= i < prefix.len() ==> prefix[i] == rows[i]);
        lemma_history_for_sorted(prefix, t);
        lemma_history_for_bounded(prefix, t, rows.last().tst);
        assert forall|k: int, m: int| 0 <= k < m < q.len() implies q[k].tst >= q[m].tst by {
            if rows.last().uuid@ == t && m == q.len() - 1 {
                assert(q[m] == rows.last());
                assert(q[k] == p[k]);
            } else {
                assert(q[k] == p[k] && q[m] == p[m]);
            }
        }
    }
}

/// In a sorted log whose entries all have timestamps at least `b`, so
/// does any tenant's filtered view.
pub proof fn lemma_history_for_bounded(rows: Seq<History>, t: Seq<char>, b: i64)
    requires
        forall|i: int| 0 <= i < rows.len() ==> (#[trigger] rows[i]).tst >= b,
    ensures
        forall|k: int|
            0 <= k < history_for(rows, t).len() ==> (#[trigger] history_for(rows, t)[k]).tst >= b,
    decreases rows.len(),
{
    if rows.len() > 0 {
        let prefix = rows.drop_last();
        assert(forall|i: int| 0 <= i < prefix.len() ==> prefix[i] == rows[i]);
        lemma_history_for_bounded(prefix, t, b);
        let p = history_for(prefix, t);
        let q = history_for(rows, t);
        assert forall|k: int| 0 <= k < q.len() implies q[k].tst >= b by {
            if rows.last().uuid@ == t && k == q.len() - 1 {
                assert(q[k] == rows.last());
            } else {
                assert(q[k] == p[k]);
            }
        }
    }
}

/// The play-history store, kept ordered by timestamp descending.
pub struct HistoryStore {
    rows: Vec<History>,
}

impl View for HistoryStore {
    type V = Seq<History>;

    closed spec fn view(&self) -> Seq<History> {
        self.rows@
    }
}

impl HistoryStore {
    pub open spec fn wf(&self) -> bool {
        sorted_desc(self@)
    }

    /// An empty store.
    pub fn new() -> (s: Self)
        ensures
            s@ == Seq::<History>::empty(),
            s.wf(),
    {
        let s = HistoryStore { rows: Vec::new() };
        proof {
            assert(s@ =~= Seq::<History>::empty());
        }
        s
    }
}

impl History {
    /// Appends one play event; the row is slotted by its timestamp so
    /// reads stay ordered.  Nothing is ever overwritten.
    pub fn set_history(history: History, store: &mut HistoryStore) -> (r: Result<
        (),
        ServiceError,
    >)
        requires
            old(store).wf(),
        ensures
            r is Ok,
            final(store).wf(),
            final(store)@ == old(store)@.insert(
                insert_pos(old(store)@, history.tst),
                history,
            ),
    {
        let ghost rows0 = store@;
        let n = store.rows.len();
        let mut p: usize = 0;
        while p < n && store.rows[p].tst >= history.tst
            invariant
                n == store@.len(),
                store@ == rows0,
                p <= n,
                forall|j: int| 0 <= j < p ==> rows0[j].tst >= history.tst,
            decreases n - p,
        {
            p = p + 1;
        }
        proof {
            lemma_insert_pos_props(rows0, history.tst);
            assert(p as int == insert_pos(rows0, history.tst));
        }
        store.rows.insert(p, history);
        Ok(())
    }

    /// Tenant `id`'s play history (the id goes through the alias table
    /// first), newest first.
    pub fn get_history(id: String, store: &HistoryStore) -> (r: Result<Vec<History>, ServiceError>)
        requires
            store.wf(),
        ensures
            r is Ok,
            r->Ok_0@ == history_for(store@, resolve_spec(id@)),
            sorted_desc(r->Ok_0@),
    {
        let uuid = get_custom_uuids(id.as_str());
        let rows = &store.rows;
        let n = rows.len();
        let mut out: Vec<History> = Vec::new();
        let mut i: usize = 0;
        while i < n
            invariant
                n == rows@.len(),
                i <= n,
                uuid@ == resolve_spec(id@),
                out@ == history_for(rows@.take(i as int), uuid@),
            decreases n - i,
        {
            proof {
                assert(rows@.take(i as int + 1).drop_last() =~= rows@.take(i as int));
                assert(rows@.take(i as int + 1).last() == rows@[i as int]);
            }
            if str_eq(rows[i].uuid.as_str(), uuid) {
                out.push(rows[i].clone());
            }
            i = i + 1;
        }
        proof {
            assert(rows@.take(n as int) =~= rows@);
            lemma_history_for_sorted(rows@, uuid@);
        }
        Ok(out)
    }
}

} // verus!
