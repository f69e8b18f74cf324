//! The read-through artwork cache: track id to cover/canvas URL.
//!
//! A hit is served straight from the cache (no TTL).  On a miss the
//! transport layer asks the origin service and hands whatever came
//! back to `canvas_admit`, which caches and returns a URL, or reports
//! `NotFound` without caching anything — there is no negative caching,
//! so a failed lookup is retried in full next time.

use vstd::prelude::*;
use crate::error::ServiceError;
use crate::strutil::str_eq;

verus! {

/// One cache row.
pub struct CanvasEntry {
    pub track_id: String,
    pub canvas_url: String,
}

impl Clone for CanvasEntry {
    fn clone(&self) -> (r: Self)
        ensures
            r == *self,
    {
        CanvasEntry { track_id: self.track_id.clone(), canvas_url: self.canvas_url.clone() }
    }
}

/// Index of track `t`'s row, if any.
pub open spec fn idx_for(rows: Seq<CanvasEntry>, t: Seq<char>) -> Option<int>
    decreases rows.len(),
{
    if rows.len() == 0 {
        None
    } else {
        match idx_for(rows.drop_last(), t) {
            Some(i) => Some(i),
            None => if rows.last().track_id@ == t {
                Some(rows.len() - 1)
            } else {
                None
            },
        }
    }
}

/// The URL cached for track `t`, if any.
pub open spec fn url_of(rows: Seq<CanvasEntry>, t: Seq<char>) -> Option<Seq<char>> {
    match idx_for(rows, t) {
        Some(i) => Some(rows[i].canvas_url@),
        None => None,
    }
}

/// At most one row per track.
pub open spec fn rows_unique(rows: Seq<CanvasEntry>) -> bool {
    forall|i: int, j: int| 0 <= i < j < rows.len() ==> rows[i].track_id@ != rows[j].track_id@
}

/// Basic facts about `idx_for`.
pub proof fn lemma_idx_for_props(rows: Seq<CanvasEntry>, t: Seq<char>)
    ensures
        match idx_for(rows, t) {
            Some(i) => 0 <= i < rows.len() && rows[i].track_id@ == t,
            None => forall|j: int| 0 <= j < rows.len() ==> rows[j].track_id@ != t,
        },
    decreases rows.len(),
{
    if rows.len() > 0 {
        lemma_idx_for_props(rows.drop_last(), t);
        assert(forall|j: int| 0 <= j < rows.len() - 1 ==> rows[j] == rows.drop_last()[j]);
    }
}

/// Replacing a row with one for the same track moves no index.
pub proof fn lemma_idx_for_update(rows: Seq<CanvasEntry>, i: int, r2: CanvasEntry)
    requires
        0 <= i < rows.len(),
        r2.track_id@ == rows[i].track_id@,
    ensures
        forall|t: Seq<char>| #[trigger] idx_for(rows.update(i, r2), t) == idx_for(rows, t),
    decreases rows.len(),
{
    let u = rows.update(i, r2);
    if i == rows.len() - 1 {
        assert(u.drop_last() =~= rows.drop_last());
        assert(u.last() == r2);
        assert forall|t: Seq<char>| #[trigger] idx_for(u, t) == idx_for(rows, t) by {
            assert((u.last().track_id@ == t) == (rows.last().track_id@ == t));
        }
    } else {
        lemma_idx_for_update(rows.drop_last(), i, r2);
        assert(u.drop_last() =~= rows.drop_last().update(i, r2));
        assert(u.last() == rows.last());
        assert forall|t: Seq<char>| #[trigger] idx_for(u, t) == idx_for(rows, t) by {
            assert(idx_for(u.drop_last(), t) == idx_for(rows.drop_last(), t));
        }
    }
}

/// Finds the index of track `t`'s row, if it has one.
fn find_row_index(rows: &Vec<CanvasEntry>, t: &str) -> (r: Option<usize>)
    ensures
        match r {
            Some(i) => i < rows@.len() && idx_for(rows@, t@) == Some(i as int),
            None => idx_for(rows@, t@) is None,
        },
{
    let n = rows.len();
    let mut found: Option<usize> = None;
    let mut i: usize = 0;
    while i < n
        invariant
            n == rows@.len(),
            i <= n,
            match found {
                Some(k) => k < i && idx_for(rows@.take(i as int), t@) == Some(k as int),
                None => idx_for(rows@.take(i as int), t@) is None,
            },
        decreases n - i,
    {
        proof {
            assert(rows@.take(i as int + 1).drop_last() =~= rows@.take(i as int));
            assert(rows@.take(i as int + 1).last() == rows@[i as int]);
        }
        if found.is_none() {
            if str_eq(rows[i].track_id.as_str(), t) {
                found = Some(i);
            }
        }
        i = i + 1;
    }
    proof {
        assert(rows@.take(n as int) =~= rows@);
    }
    found
}

/// The artwork cache: at most one row per track, never expired.
pub struct CanvasStore {
    rows: Vec<CanvasEntry>,
}

impl View for CanvasStore {
    type V = Seq<CanvasEntry>;

    closed spec fn view(&self) -> Seq<CanvasEntry> {
        self.rows@
    }
}

impl CanvasStore {
    pub open spec fn wf(&self) -> bool {
        rows_unique(self@)
    }

    /// An empty cache.
    pub fn new() -> (s: Self)
        ensures
            s@ == Seq::<CanvasEntry>::empty(),
            s.wf(),
    {
        let s = CanvasStore { rows: Vec::new() };
        proof {
            assert(s@ =~= Seq::<CanvasEntry>::empty());
        }
        s
    }
}

/// A pure cache probe: the URL stored for `track_id`, if any.  It
/// reads only — a hit never goes back to the origin.
pub fn canvas_lookup(track_id: &str, store: &CanvasStore) -> (r: Option<String>)
    ensures
        match r {
            Some(u) => url_of(store@, track_id@) == Some(u@),
            None => url_of(store@, track_id@) is None,
        },
{
    match find_row_index(&store.rows, track_id) {
        Some(i) => Some(store.rows[i].canvas_url.clone()),
        None => None,
    }
}

/// Settles a cache miss with what the origin answered: a URL is cached
/// (upsert) and returned; no answer leaves the cache untouched and
/// reports `NotFound`, so the next call retries in full.
pub fn canvas_admit(track_id: String, origin_url: Option<String>, store: &mut CanvasStore) -> (r:
    Result<String, ServiceError>)
    requires
        old(store).wf(),
    ensures
        final(store).wf(),
        r is Ok <==> origin_url is Some,
        r matches Err(e) ==> e == ServiceError::NotFound && final(store)@ == old(store)@,
        origin_url matches Some(u) ==> {
            &&& r->Ok_0 == u
            &&& url_of(final(store)@, track_id@) == Some(u@)
            &&& match idx_for(old(store)@, track_id@) {
                Some(i) => final(store)@ == old(store)@.update(
                    i,
                    CanvasEntry { track_id: old(store)@[i].track_id, canvas_url: u },
                ),
                None => final(store)@ == old(store)@.push(
                    CanvasEntry { track_id, canvas_url: u },
                ),
            }
            &&& forall|t2: Seq<char>|
                t2 != track_id@ ==> #[trigger] url_of(final(store)@, t2) == url_of(old(store)@, t2)
        },
{
    let ghost rows0 = store@;
    match origin_url {
        None => Err(ServiceError::NotFound),
        Some(url) => {
            let out = url.clone();
            match find_row_index(&store.rows, track_id.as_str()) {
                Some(i) => {
                    let nr = {
                        let e = &store.rows[i];
                        CanvasEntry { track_id: e.track_id.clone(), canvas_url: url }
                    };
                    proof {
                        lemma_idx_for_props(rows0, track_id@);
                        lemma_idx_for_update(rows0, i as int, nr);
                    }
                    store.rows[i] = nr;
                    proof {
                        assert forall|t2: Seq<char>| t2 != track_id@ implies #[trigger] url_of(
                            store@,
                            t2,
                        ) == url_of(rows0, t2) by {
                            lemma_idx_for_props(rows0, t2);
                        }
                    }
                    Ok(out)
                },
                None => {
                    proof {
                        lemma_idx_for_props(rows0, track_id@);
                    }
                    store.rows.push(CanvasEntry { track_id, canvas_url: url });
                    proof {
                        assert(store@.drop_last() =~= rows0);
                        assert forall|t2: Seq<char>| t2 != track_id@ implies #[trigger] url_of(
                            store@,
                            t2,
                        ) == url_of(rows0, t2) by {
                            lemma_idx_for_props(rows0, t2);
                            assert(store@.last().track_id@ != t2);
                        }
                    }
                    Ok(out)
                },
            }
        },
    }
}

} // verus!
