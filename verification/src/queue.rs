//! The per-tenant song-request queue.
//!
//! Entries are only ever appended and soft-deleted: consumption flips a
//! `played` flag, it never removes a row, so the table doubles as an
//! audit log.  The store assigns strictly increasing queue ids, which
//! makes the pending view of any tenant come out in request order.

use vstd::prelude::*;
use crate::error::ServiceError;
use crate::identity::{QueueParam, read_target, resolve_read_target};
use crate::strutil::str_eq;
use crate::usage::{UsageStore, clone_opt_string};

verus! {

/// One queue row.  `queue_id` and `uuid` are `None` only on the way in:
/// the store materializes both on insert.
pub struct QueueSong {
    pub queue_id: Option<u64>,
    pub uuid: Option<String>,
    pub track_id: String,
    pub artist: String,
    pub title: String,
    pub length: String,
    pub requester: String,
    pub played: bool,
    pub album_cover: Option<String>,
}

impl Clone for QueueSong {
    fn clone(&self) -> (r: Self)
        ensures
            r == *self,
    {
        QueueSong {
            queue_id: self.queue_id,
            uuid: clone_opt_string(&self.uuid),
            track_id: self.track_id.clone(),
            artist: self.artist.clone(),
            title: self.title.clone(),
            length: self.length.clone(),
            requester: self.requester.clone(),
            played: self.played,
            album_cover: clone_opt_string(&self.album_cover),
        }
    }
}

/// Body of a queue-append request: the entry plus the tenant id.
pub struct QueuePostPayload {
    pub queue_item: QueueSong,
    pub uuid: String,
}

/// Body of a mark-played request.
pub struct QueueUpdatePayload {
    pub queueid: u64,
    pub uuid: String,
}

/// Body of a clear-queue request.
pub struct QueueClearPayload {
    pub uuid: String,
    pub key: String,
}

/// A materialized entry: ids present.
pub open spec fn entry_wf(e: QueueSong) -> bool {
    e.queue_id is Some && e.uuid is Some
}

/// The queue id of a materialized entry.
pub open spec fn entry_qid(e: QueueSong) -> u64 {
    e.queue_id->0
}

/// Is `e` a not-yet-played entry of tenant `t`?
pub open spec fn entry_pending_for(e: QueueSong, t: Seq<char>) -> bool {
    e.uuid matches Some(u) && u@ == t && !e.played
}

/// Does `e` belong to tenant `t`?
pub open spec fn entry_of_tenant(e: QueueSong, t: Seq<char>) -> bool {
    e.uuid matches Some(u) && u@ == t
}

/// Is `e` the entry of tenant `t` with queue id `qid`?
pub open spec fn entry_key_matches(e: QueueSong, t: Seq<char>, qid: u64) -> bool {
    entry_of_tenant(e, t) && (e.queue_id matches Some(q) && q == qid)
}

/// The pending entries of tenant `t`, in row order.
pub open spec fn pending_for(rows: Seq<QueueSong>, t: Seq<char>) -> Seq<QueueSong>
    decreases rows.len(),
{
    if rows.len() == 0 {
        Seq::empty()
    } else {
        let p = pending_for(rows.drop_last(), t);
        if entry_pending_for(rows.last(), t) {
            p.push(rows.last())
        } else {
            p
        }
    }
}

/// `rows` after marking tenant `t`'s entry `qid` as played.
pub open spec fn mark_played_seq(rows: Seq<QueueSong>, t: Seq<char>, qid: u64) -> Seq<QueueSong> {
    Seq::new(
        rows.len(),
        |i: int|
            if entry_key_matches(rows[i], t, qid) {
                QueueSong { played: true, ..rows[i] }
            } else {
                rows[i]
            },
    )
}

/// `rows` after marking every entry of tenant `t` as played.
pub open spec fn clear_seq(rows: Seq<QueueSong>, t: Seq<char>) -> Seq<QueueSong> {
    Seq::new(
        rows.len(),
        |i: int|
            if entry_of_tenant(rows[i], t) {
                QueueSong { played: true, ..rows[i] }
            } else {
                rows[i]
            },
    )
}

/// Store well-formedness: every row is materialized, ids stay below the
/// next free id, and ids strictly increase in row order.
pub open spec fn rows_wf(rows: Seq<QueueSong>, next: u64) -> bool {
    &&& forall|i: int|
        0 <= i < rows.len() ==> entry_wf(#[trigger] rows[i]) && entry_qid(rows[i]) < next
    &&& forall|i: int, j: int|
        0 <= i < j < rows.len() ==> entry_qid(rows[i]) < entry_qid(rows[j])
}

/// Queue-ordering law: in a well-formed store, any tenant's pending
/// view carries strictly increasing queue ids (all below the next free
/// id), so entries come out in exactly the order they were appended.
pub proof fn lemma_pending_ordered(rows: Seq<QueueSong>, next: u64, t: Seq<char>)
    requires
        rows_wf(rows, next),
    ensures
        forall|k: int|
            0 <= k < pending_for(rows, t).len() ==> entry_qid(
                #[trigger] pending_for(rows, t)[k],
            ) < next,
        forall|k: int, m: int|
            0 <= k < m < pending_for(rows, t).len() ==> entry_qid(pending_for(rows, t)[k])
                < entry_qid(pending_for(rows, t)[m]),
    decreases rows.len(),
{
    if rows.len() > 0 {
        let prefix = rows.drop_last();
        let last = rows.last();
        let p = pending_for(prefix, t);
        let q = pending_for(rows, t);
        assert(forall|i: int| 0 <= i < prefix.len() ==> prefix[i] == rows[i]);
        assert(rows_wf(prefix, entry_qid(last)));
        lemma_pending_ordered(prefix, entry_qid(last), t);
        assert(entry_qid(last) < next);
        assert forall|k: int| 0 <= k < q.len() implies entry_qid(q[k]) < next by {
            if k < p.len() {
                assert(q[k] == p[k]);
            } else {
                assert(q[k] == last);
            }
        }
        assert forall|k: int, m: int| 0 <= k < m < q.len() implies entry_qid(q[k]) < entry_qid(
            q[m],
        ) by {
            if m < p.len() {
                assert(q[k] == p[k] && q[m] == p[m]);
            } else {
                assert(q[m] == last && q[k] == p[k]);
            }
        }
    }
}

/// Appending a request extends the tenant's pending view at its end —
/// with `lemma_pending_ordered`, entries come back exactly in the
/// order enqueued — and leaves every other tenant's view alone.
pub proof fn lemma_pending_push(rows: Seq<QueueSong>, e: QueueSong, t: Seq<char>)
    ensures
        entry_pending_for(e, t) ==> pending_for(rows.push(e), t) == pending_for(rows, t).push(e),
        !entry_pending_for(e, t) ==> pending_for(rows.push(e), t) == pending_for(rows, t),
{
    assert(rows.push(e).drop_last() =~= rows);
    assert(rows.push(e).last() == e);
}

/// Soft-delete idempotence law, first half: marking the same entry
/// twice is exactly the same as marking it once.
pub proof fn lemma_mark_idempotent(rows: Seq<QueueSong>, t: Seq<char>, qid: u64)
    ensures
        mark_played_seq(mark_played_seq(rows, t, qid), t, qid) == mark_played_seq(rows, t, qid),
{
    assert(mark_played_seq(mark_played_seq(rows, t, qid), t, qid) =~= mark_played_seq(
        rows,
        t,
        qid,
    ));
}

/// Soft-delete idempotence law, second half: once marked, the entry
/// never reappears in the tenant's pending view.
pub proof fn lemma_marked_not_pending(rows: Seq<QueueSong>, t: Seq<char>, qid: u64)
    ensures
        forall|k: int|
            0 <= k < pending_for(mark_played_seq(rows, t, qid), t).len() ==> !(
            #[trigger] pending_for(mark_played_seq(rows, t, qid), t)[k].queue_id matches Some(q)
                && q == qid),
    decreases rows.len(),
{
    let m = mark_played_seq(rows, t, qid);
    if rows.len() > 0 {
        lemma_marked_not_pending(rows.drop_last(), t, qid);
        assert(m.drop_last() =~= mark_played_seq(rows.drop_last(), t, qid));
        if entry_pending_for(m.last(), t) {
            assert(!(m.last().queue_id matches Some(q) && q == qid)) by {
                if entry_key_matches(rows.last(), t, qid) {
                    assert(m.last().played);
                }
            }
        }
    } else {
        assert(m =~= Seq::<QueueSong>::empty());
    }
}

/// Clear-all law: after clearing a tenant, its pending view is empty,
/// no matter how many entries there were.
pub proof fn lemma_clear_empties(rows: Seq<QueueSong>, t: Seq<char>)
    ensures
        pending_for(clear_seq(rows, t), t) == Seq::<QueueSong>::empty(),
    decreases rows.len(),
{
    let c = clear_seq(rows, t);
    if rows.len() > 0 {
        lemma_clear_empties(rows.drop_last(), t);
        assert(c.drop_last() =~= clear_seq(rows.drop_last(), t));
        assert(!entry_pending_for(c.last(), t));
    } else {
        assert(c =~= Seq::<QueueSong>::empty());
    }
}

/// Clearing one tenant's queue leaves every other tenant's pending
/// view exactly as it was.
pub proof fn lemma_clear_keeps_others(rows: Seq<QueueSong>, t: Seq<char>, t2: Seq<char>)
    requires
        t2 != t,
    ensures
        pending_for(clear_seq(rows, t), t2) == pending_for(rows, t2),
    decreases rows.len(),
{
    let c = clear_seq(rows, t);
    if rows.len() > 0 {
        lemma_clear_keeps_others(rows.drop_last(), t, t2);
        assert(c.drop_last() =~= clear_seq(rows.drop_last(), t));
        assert(c.last() == (if entry_of_tenant(rows.last(), t) {
            QueueSong { played: true, ..rows.last() }
        } else {
            rows.last()
        }));
    } else {
        assert(c =~= Seq::<QueueSong>::empty());
    }
}

/// The queue store: all rows of all tenants plus the next free id.
pub struct QueueStore {
    rows: Vec<QueueSong>,
    next_id: u64,
}

impl View for QueueStore {
    type V = Seq<QueueSong>;

    closed spec fn view(&self) -> Seq<QueueSong> {
        self.rows@
    }
}

impl QueueStore {
    /// The id the next inserted entry will get.
    pub closed spec fn next_id_spec(&self) -> u64 {
        self.next_id
    }

    pub open spec fn wf(&self) -> bool {
        rows_wf(self@, self.next_id_spec())
    }

    /// An empty store; ids start at 1.
    pub fn new() -> (s: Self)
        ensures
            s@ == Seq::<QueueSong>::empty(),
            s.next_id_spec() == 1,
            s.wf(),
    {
        let s = QueueStore { rows: Vec::new(), next_id: 1 };
        proof {
            assert(s@ =~= Seq::<QueueSong>::empty());
        }
        s
    }
}

impl QueueSong {
    /// The pending queue of the tenant a read parameter names: by id
    /// directly, or by display name through the alias table and the
    /// usage sessions.  An unknown name yields the empty queue.
    pub fn get_queue(param: QueueParam, store: &QueueStore, usage: &UsageStore) -> (r: Result<
        Vec<QueueSong>,
        ServiceError,
    >)
        ensures
            r is Ok,
            match read_target(param, usage@) {
                Some(t) => r->Ok_0@ == pending_for(store@, t),
                None => r->Ok_0@ == Seq::<QueueSong>::empty(),
            },
    {
        let target = resolve_read_target(&param, usage);
        let mut out: Vec<QueueSong> = Vec::new();
        match target {
            None => {
                proof {
                    assert(out@ =~= Seq::<QueueSong>::empty());
                }
                Ok(out)
            },
            Some(id) => {
                let rows = &store.rows;
                let n = rows.len();
                let mut i: usize = 0;
                while i < n
                    invariant
                        n == rows@.len(),
                        i <= n,
                        id@ == read_target(param, usage@)->0,
                        out@ == pending_for(rows@.take(i as int), id@),
                    decreases n - i,
                {
                    proof {
                        assert(rows@.take(i as int + 1).drop_last() =~= rows@.take(i as int));
                        assert(rows@.take(i as int + 1).last() == rows@[i as int]);
                    }
                    let e = &rows[i];
                    let is_mine = match &e.uuid {
                        Some(u) => str_eq(u.as_str(), id.as_str()),
                        None => false,
                    };
                    if is_mine && !e.played {
                        out.push(e.clone());
                    }
                    i = i + 1;
                }
                proof {
                    assert(rows@.take(n as int) =~= rows@);
                }
                Ok(out)
            },
        }
    }

    /// Appends a request for tenant `id`: the store stamps the next
    /// queue id onto it, stores it unplayed, and returns the
    /// materialized entry.  Fails only when the id space is exhausted.
    pub fn add_to_queue(id: String, song: QueueSong, store: &mut QueueStore) -> (r: Result<
        QueueSong,
        ServiceError,
    >)
        requires
            old(store).wf(),
        ensures
            final(store).wf(),
            r is Ok <==> old(store).next_id_spec() < u64::MAX,
            r matches Err(e) ==> e == ServiceError::Internal && final(store)@ == old(store)@
                && final(store).next_id_spec() == old(store).next_id_spec(),
            r matches Ok(e) ==> {
                &&& e == (QueueSong {
                    queue_id: Some(old(store).next_id_spec()),
                    uuid: Some(id),
                    played: false,
                    ..song
                })
                &&& final(store)@ == old(store)@.push(e)
                &&& final(store).next_id_spec() == old(store).next_id_spec() + 1
            },
    {
        if store.next_id == u64::MAX {
            return Err(ServiceError::Internal);
        }
        let e = QueueSong {
            queue_id: Some(store.next_id),
            uuid: Some(id),
            track_id: song.track_id,
            artist: song.artist,
            title: song.title,
            length: song.length,
            requester: song.requester,
            played: false,
            album_cover: song.album_cover,
        };
        let out = e.clone();
        store.rows.push(e);
        store.next_id = store.next_id + 1;
        Ok(out)
    }

    /// Marks tenant `uuid`'s entry `queueid` as played.  Idempotent:
    /// an already-played or absent entry leaves the store as it is.
    pub fn remove_from_queue(uuid: String, queueid: u64, store: &mut QueueStore) -> (r: Result<
        (),
        ServiceError,
    >)
        requires
            old(store).wf(),
        ensures
            r is Ok,
            final(store).wf(),
            final(store)@ == mark_played_seq(old(store)@, uuid@, queueid),
            final(store).next_id_spec() == old(store).next_id_spec(),
    {
        let ghost rows0 = store@;
        let n = store.rows.len();
        let mut i: usize = 0;
        while i < n
            invariant
                n == store@.len(),
                rows0.len() == n,
                i <= n,
                store.next_id_spec() == old(store).next_id_spec(),
                forall|j: int|
                    0 <= j < n ==> #[trigger] store@[j] == (if j < i && entry_key_matches(
                        rows0[j],
                        uuid@,
                        queueid,
                    ) {
                        QueueSong { played: true, ..rows0[j] }
                    } else {
                        rows0[j]
                    }),
            decreases n - i,
        {
            let hit = {
                let e = &store.rows[i];
                let tenant_ok = match &e.uuid {
                    Some(u) => str_eq(u.as_str(), uuid.as_str()),
                    None => false,
                };
                let id_ok = match &e.queue_id {
                    Some(q) => *q == queueid,
                    None => false,
                };
                tenant_ok && id_ok
            };
            if hit {
                let nr = {
                    let e = &store.rows[i];
                    QueueSong { played: true, ..e.clone() }
                };
                store.rows[i] = nr;
            }
            i = i + 1;
        }
        proof {
            assert(store@ =~= mark_played_seq(rows0, uuid@, queueid));
        }
        Ok(())
    }

    /// Marks every entry of tenant `uuid` as played, emptying the
    /// pending view in one stroke without deleting history.
    pub fn clear_queue(uuid: String, store: &mut QueueStore) -> (r: Result<(), ServiceError>)
        requires
            old(store).wf(),
        ensures
            r is Ok,
            final(store).wf(),
            final(store)@ == clear_seq(old(store)@, uuid@),
            final(store).next_id_spec() == old(store).next_id_spec(),
    {
        let ghost rows0 = store@;
        let n = store.rows.len();
        let mut i: usize = 0;
        while i < n
            invariant
                n == store@.len(),
                rows0.len() == n,
                i <= n,
                store.next_id_spec() == old(store).next_id_spec(),
                forall|j: int|
                    0 <= j < n ==> #[trigger] store@[j] == (if j < i && entry_of_tenant(
                        rows0[j],
                        uuid@,
                    ) {
                        QueueSong { played: true, ..rows0[j] }
                    } else {
                        rows0[j]
                    }),
            decreases n - i,
        {
            let hit = {
                let e = &store.rows[i];
                match &e.uuid {
                    Some(u) => str_eq(u.as_str(), uuid.as_str()),
                    None => false,
                }
            };
            if hit {
                let nr = {
                    let e = &store.rows[i];
                    QueueSong { played: true, ..e.clone() }
                };
                store.rows[i] = nr;
            }
            i = i + 1;
        }
        proof {
            assert(store@ =~= clear_seq(rows0, uuid@));
        }
        Ok(())
    }
}

} // verus!
