//! Operator-authored banner messages.  This core only reads them —
//! filtered to the active ones or in full — ordered by creation time
//! descending; rows are loaded in through a sorted insert.

use vstd::prelude::*;
use crate::error::ServiceError;
use crate::usage::clone_opt_string;

verus! {

/// One banner message.
pub struct Motd {
    pub id: i32,
    pub message_text: String,
    pub severity: String,
    pub created_at: i64,
    pub start_date: Option<i64>,
    pub end_date: Option<i64>,
    pub is_active: bool,
    pub author: String,
}

impl Clone for Motd {
    fn clone(&self) -> (r: Self)
        ensures
            r == *self,
    {
        Motd {
            id: self.id,
            message_text: self.message_text.clone(),
            severity: self.severity.clone(),
            created_at: self.created_at,
            start_date: self.start_date,
            end_date: self.end_date,
            is_active: self.is_active,
            author: self.author.clone(),
        }
    }
}

/// Creation times never increase along the sequence.
pub open spec fn sorted_desc(rows: Seq<Motd>) -> bool {
    forall|i: int, j: int| 0 <= i < j < rows.len() ==> rows[i].created_at >= rows[j].created_at
}

/// Where a message created at `at` goes: after every message created
/// at least as recently.
pub open spec fn insert_pos(rows: Seq<Motd>, at: i64) -> int
    decreases rows.len(),
{
    if rows.len() == 0 {
        0
    } else if rows[0].created_at < at {
        0
    } else {
        1 + insert_pos(rows.subrange(1, rows.len() as int), at)
    }
}

/// `insert_pos` is the first index created before `at`.
pub proof fn lemma_insert_pos_props(rows: Seq<Motd>, at: i64)
    ensures
        0 <= insert_pos(rows, at) <= rows.len(),
        forall|j: int| 0 <= j < insert_pos(rows, at) ==> rows[j].created_at >= at,
        insert_pos(rows, at) < rows.len() ==> rows[insert_pos(rows, at)].created_at < at,
    decreases rows.len(),
{
    if rows.len() > 0 && !(rows[0].created_at < at) {
        let rest = rows.subrange(1, rows.len() as int);
        lemma_insert_pos_props(rest, at);
        assert(forall|j: int| 0 <= j < rest.len() ==> rest[j] == rows[j + 1]);
        assert forall|j: int| 0 <= j < insert_pos(rows, at) implies rows[j].created_at >= at by {
            if j > 0 {
                assert(rows[j] == rest[j - 1]);
            }
        }
    }
}

/// The messages whose active flag is set, in row order.
pub open spec fn active_motds(rows: Seq<Motd>) -> Seq<Motd>
    decreases rows.len(),
{
    if rows.len() == 0 {
        Seq::empty()
    } else {
        let p = active_motds(rows.drop_last());
        if rows.last().is_active {
            p.push(rows.last())
        } else {
            p
        }
    }
}

/// In a sorted board whose messages were all created at `b` or later,
/// so were all the active ones.
pub proof fn lemma_active_bounded(rows: Seq<Motd>, b: i64)
    requires
        forall|i: int| 0 <= i < rows.len() ==> (#[trigger] rows[i]).created_at >= b,
    ensures
        forall|k: int|
            0 <= k < active_motds(rows).len() ==> (#[trigger] active_motds(rows)[k]).created_at
                >= b,
    decreases rows.len(),
{
    if rows.len() > 0 {
        let prefix = rows.drop_last();
        assert(forall|i: int| 0 <= i < prefix.len() ==> prefix[i] == rows[i]);
        lemma_active_bounded(prefix, b);
        let p = active_motds(prefix);
        let q = active_motds(rows);
        assert forall|k: int| 0 <= k < q.len() implies q[k].created_at >= b by {
            if rows.last().is_active && k == q.len() - 1 {
                assert(q[k] == rows.last());
            } else {
                assert(q[k] == p[k]);
            }
        }
    }
}

/// Filtering the active messages out of a sorted board keeps the order.
pub proof fn lemma_active_sorted(rows: Seq<Motd>)
    requires
        sorted_desc(rows),
    ensures
        sorted_desc(active_motds(rows)),
    decreases rows.len(),
{
    if rows.len() > 0 {
        let prefix = rows.drop_last();
        let p = active_motds(prefix);
        let q = active_motds(rows);
        assert(forall|i: int| 0 <= i < prefix.len() ==> prefix[i] == rows[i]);
        lemma_active_sorted(prefix);
        lemma_active_bounded(prefix, rows.last().created_at);
        assert forall|k: int, m: int| 0 <= k < m < q.len() implies q[k].created_at
            >= q[m].created_at by {
            if rows.last().is_active && m == q.len() - 1 {
                assert(q[m] == rows.last());
                assert(q[k] == p[k]);
            } else {
                assert(q[k] == p[k] && q[m] == p[m]);
            }
        }
    }
}

/// The message board, kept ordered by creation time descending.
pub struct MotdStore {
    rows: Vec<Motd>,
}

impl View for MotdStore {
    type V = Seq<Motd>;

    closed spec fn view(&self) -> Seq<Motd> {
        self.rows@
    }
}

impl MotdStore {
    pub open spec fn wf(&self) -> bool {
        sorted_desc(self@)
    }

    /// An empty board.
    pub fn new() -> (s: Self)
        ensures
            s@ == Seq::<Motd>::empty(),
            s.wf(),
    {
        let s = MotdStore { rows: Vec::new() };
        proof {
            assert(s@ =~= Seq::<Motd>::empty());
        }
        s
    }

    /// Loads one operator-authored message onto the board (creation
    /// and editing are an administrative concern outside this core).
    pub fn insert_message(&mut self, msg: Motd) -> (r: Result<(), ServiceError>)
        requires
            old(self).wf(),
        ensures
            r is Ok,
            final(self).wf(),
            final(self)@ == old(self)@.insert(insert_pos(old(self)@, msg.created_at), msg),
    {
        let ghost rows0 = self@;
        let n = self.rows.len();
        let mut p: usize = 0;
        while p < n && self.rows[p].created_at >= msg.created_at
            invariant
                n == self@.len(),
                self@ == rows0,
                p <= n,
                forall|j: int| 0 <= j < p ==> rows0[j].created_at >= msg.created_at,
            decreases n - p,
        {
            p = p + 1;
        }
        proof {
            lemma_insert_pos_props(rows0, msg.created_at);
            assert(p as int == insert_pos(rows0, msg.created_at));
        }
        self.rows.insert(p, msg);
        Ok(())
    }
}

impl Motd {
    /// The active banner messages, newest first.
    pub fn get_active_motds(store: &MotdStore) -> (r: Result<Vec<Motd>, ServiceError>)
        requires
            store.wf(),
        ensures
            r is Ok,
            r->Ok_0@ == active_motds(store@),
            sorted_desc(r->Ok_0@),
    {
        let rows = &store.rows;
        let n = rows.len();
        let mut out: Vec<Motd> = Vec::new();
        let mut i: usize = 0;
        while i < n
            invariant
                n == rows@.len(),
                i <= n,
                out@ == active_motds(rows@.take(i as int)),
            decreases n - i,
        {
            proof {
                assert(rows@.take(i as int + 1).drop_last() =~= rows@.take(i as int));
                assert(rows@.take(i as int + 1).last() == rows@[i as int]);
            }
            if rows[i].is_active {
                out.push(rows[i].clone());
            }
            i = i + 1;
        }
        proof {
            assert(rows@.take(n as int) =~= rows@);
            lemma_active_sorted(rows@);
        }
        Ok(out)
    }

    /// Every banner message, newest first.
    pub fn get_all_motds(store: &MotdStore) -> (r: Result<Vec<Motd>, ServiceError>)
        requires
            store.wf(),
        ensures
            r is Ok,
            r->Ok_0@ == store@,
            sorted_desc(r->Ok_0@),
    {
        let rows = &store.rows;
        let n = rows.len();
        let mut out: Vec<Motd> = Vec::new();
        let mut i: usize = 0;
        while i < n
            invariant
                n == rows@.len(),
                i <= n,
                out@ == rows@.take(i as int),
            decreases n - i,
        {
            out.push(rows[i].clone());
            proof {
                assert(rows@.take(i as int + 1) =~= rows@.take(i as int).push(rows@[i as int]));
            }
            i = i + 1;
        }
        proof {
            assert(rows@.take(n as int) =~= rows@);
        }
        Ok(out)
    }
}

} // verus!
