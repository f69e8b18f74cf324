//! The current-song record of each tenant: replaced wholesale on every
//! write, and read with a soft-miss policy — a tenant without a record
//! yields a renderable sentinel ("No song found"), never an error.

use vstd::prelude::*;
use crate::error::ServiceError;
use crate::identity::{QueueParam, read_target, resolve_read_target};
use crate::strutil::str_eq;
use crate::usage::{UsageStore, clone_opt_string};

verus! {

/// The current-song record of one tenant.
pub struct Song {
    pub uuid: String,
    pub song: String,
    pub cover_url: String,
    pub song_id: Option<String>,
    pub playertype: Option<String>,
    pub artist: Option<String>,
    pub title: Option<String>,
    pub requester: Option<String>,
}

impl Clone for Song {
    fn clone(&self) -> (r: Self)
        ensures
            r == *self,
    {
        Song {
            uuid: self.uuid.clone(),
            song: self.song.clone(),
            cover_url: self.cover_url.clone(),
            song_id: clone_opt_string(&self.song_id),
            playertype: clone_opt_string(&self.playertype),
            artist: clone_opt_string(&self.artist),
            title: clone_opt_string(&self.title),
            requester: clone_opt_string(&self.requester),
        }
    }
}

/// Body of a replace-current-song request.
pub struct SongPayload {
    pub uuid: String,
    pub key: String,
    pub song: String,
    pub cover: Option<String>,
    pub song_id: Option<String>,
    pub playertype: Option<String>,
    pub artist: Option<String>,
    pub title: Option<String>,
    pub requester: Option<String>,
}

/// Index of tenant `id`'s record, if any.
pub open spec fn idx_for(rows: Seq<Song>, id: Seq<char>) -> Option<int>
    decreases rows.len(),
{
    if rows.len() == 0 {
        None
    } else {
        match idx_for(rows.drop_last(), id) {
            Some(i) => Some(i),
            None => if rows.last().uuid@ == id {
                Some(rows.len() - 1)
            } else {
                None
            },
        }
    }
}

/// Tenant `id`'s record, if any.
pub open spec fn row_for(rows: Seq<Song>, id: Seq<char>) -> Option<Song> {
    match idx_for(rows, id) {
        Some(i) => Some(rows[i]),
        None => None,
    }
}

/// At most one record per tenant.
pub open spec fn rows_unique(rows: Seq<Song>) -> bool {
    forall|i: int, j: int| 0 <= i < j < rows.len() ==> rows[i].uuid@ != rows[j].uuid@
}

/// The soft-miss sentinel: the token as queried, a "No song found"
/// text, and everything else blank.
pub open spec fn sentinel_song(s: Song, token: Seq<char>) -> bool {
    &&& s.uuid@ == token
    &&& s.song@ == "No song found"@
    &&& s.cover_url@ == Seq::<char>::empty()
    &&& s.song_id is None
    &&& s.playertype is None
    &&& s.artist is None
    &&& s.title is None
    &&& s.requester is None
}

/// The record a replace-current-song request writes: every field as
/// sent, with a missing cover defaulting to the empty string.
pub open spec fn is_song_of_payload(s: Song, p: SongPayload) -> bool {
    &&& s.uuid == p.uuid
    &&& s.song == p.song
    &&& (match p.cover {
        Some(c) => s.cover_url == c,
        None => s.cover_url@ == Seq::<char>::empty(),
    })
    &&& s.song_id == p.song_id
    &&& s.playertype == p.playertype
    &&& s.artist == p.artist
    &&& s.title == p.title
    &&& s.requester == p.requester
}

/// The token a read parameter carries, before any resolution.
pub open spec fn param_token(param: QueueParam) -> Seq<char> {
    match param {
        QueueParam::Id(u) => u@,
        QueueParam::Name(n) => n@,
    }
}

/// Basic facts about `idx_for`.
pub proof fn lemma_idx_for_props(rows: Seq<Song>, id: Seq<char>)
    ensures
        match idx_for(rows, id) {
            Some(i) => 0 <= i < rows.len() && rows[i].uuid@ == id,
            None => forall|j: int| 0 <= j < rows.len() ==> rows[j].uuid@ != id,
        },
    decreases rows.len(),
{
    if rows.len() > 0 {
        lemma_idx_for_props(rows.drop_last(), id);
        assert(forall|j: int| 0 <= j < rows.len() - 1 ==> rows[j] == rows.drop_last()[j]);
    }
}

/// Replacing a record with one for the same tenant moves no index.
pub proof fn lemma_idx_for_update(rows: Seq<Song>, i: int, r2: Song)
    requires
        0 <= i < rows.len(),
        r2.uuid@ == rows[i].uuid@,
    ensures
        forall|id: Seq<char>| #[trigger] idx_for(rows.update(i, r2), id) == idx_for(rows, id),
    decreases rows.len(),
{
    let u = rows.update(i, r2);
    if i == rows.len() - 1 {
        assert(u.drop_last() =~= rows.drop_last());
        assert(u.last() == r2);
        assert forall|id: Seq<char>| #[trigger] idx_for(u, id) == idx_for(rows, id) by {
            assert((u.last().uuid@ == id) == (rows.last().uuid@ == id));
        }
    } else {
        lemma_idx_for_update(rows.drop_last(), i, r2);
        assert(u.drop_last() =~= rows.drop_last().update(i, r2));
        assert(u.last() == rows.last());
        assert forall|id: Seq<char>| #[trigger] idx_for(u, id) == idx_for(rows, id) by {
            assert(idx_for(u.drop_last(), id) == idx_for(rows.drop_last(), id));
        }
    }
}

/// Finds the index of tenant `id`'s record, if it has one.
fn find_row_index(rows: &Vec<Song>, id: &str) -> (r: Option<usize>)
    ensures
        match r {
            Some(i) => i < rows@.len() && idx_for(rows@, id@) == Some(i as int),
            None => idx_for(rows@, id@) is None,
        },
{
    let n = rows.len();
    let mut found: Option<usize> = None;
    let mut i: usize = 0;
    while i < n
        invariant
            n == rows@.len(),
            i <= n,
            match found {
                Some(k) => k < i && idx_for(rows@.take(i as int), id@) == Some(k as int),
                None => idx_for(rows@.take(i as int), id@) is None,
            },
        decreases n - i,
    {
        proof {
            assert(rows@.take(i as int + 1).drop_last() =~= rows@.take(i as int));
            assert(rows@.take(i as int + 1).last() == rows@[i as int]);
        }
        if found.is_none() {
            if str_eq(rows[i].uuid.as_str(), id) {
                found = Some(i);
            }
        }
        i = i + 1;
    }
    proof {
        assert(rows@.take(n as int) =~= rows@);
    }
    found
}

/// The store of current-song records: at most one per tenant.
pub struct SongStore {
    rows: Vec<Song>,
}

impl View for SongStore {
    type V = Seq<Song>;

    closed spec fn view(&self) -> Seq<Song> {
        self.rows@
    }
}

impl SongStore {
    pub open spec fn wf(&self) -> bool {
        rows_unique(self@)
    }

    /// An empty store.
    pub fn new() -> (s: Self)
        ensures
            s@ == Seq::<Song>::empty(),
            s.wf(),
    {
        let s = SongStore { rows: Vec::new() };
        proof {
            assert(s@ =~= Seq::<Song>::empty());
        }
        s
    }
}

impl Song {
    /// Replaces tenant `song.uuid`'s record wholesale (upsert, not
    /// merge): any prior record is overwritten, none is required.
    pub fn set_song(song: Song, store: &mut SongStore) -> (r: Result<(), ServiceError>)
        requires
            old(store).wf(),
        ensures
            r is Ok,
            final(store).wf(),
            match idx_for(old(store)@, song.uuid@) {
                Some(i) => final(store)@ == old(store)@.update(i, song),
                None => final(store)@ == old(store)@.push(song),
            },
    {
        let ghost rows0 = store@;
        let idx = find_row_index(&store.rows, song.uuid.as_str());
        match idx {
            Some(i) => {
                proof {
                    lemma_idx_for_props(rows0, song.uuid@);
                    lemma_idx_for_update(rows0, i as int, song);
                }
                store.rows[i] = song;
            },
            None => {
                proof {
                    lemma_idx_for_props(rows0, song.uuid@);
                }
                store.rows.push(song);
                proof {
                    assert(store@.drop_last() =~= rows0);
                }
            },
        }
        Ok(())
    }

    /// The current song of the tenant a read parameter names.  A tenant
    /// (or name) without a record yields the sentinel record carrying
    /// the queried token — a renderable state, never an error.
    pub fn get_song(param: QueueParam, songs: &SongStore, usage: &UsageStore) -> (r: Result<
        Song,
        ServiceError,
    >)
        ensures
            r is Ok,
            match read_target(param, usage@) {
                Some(t) => match row_for(songs@, t) {
                    Some(row) => r->Ok_0 == row,
                    None => sentinel_song(r->Ok_0, param_token(param)),
                },
                None => sentinel_song(r->Ok_0, param_token(param)),
            },
    {
        let target = resolve_read_target(&param, usage);
        let token = match param {
            QueueParam::Id(u) => u,
            QueueParam::Name(n) => n,
        };
        let hit = match &target {
            Some(id) => find_row_index(&songs.rows, id.as_str()),
            None => None,
        };
        match hit {
            Some(i) => Ok(songs.rows[i].clone()),
            None => Ok(
                Song {
                    uuid: token,
                    song: "No song found".to_owned(),
                    cover_url: String::new(),
                    song_id: None,
                    playertype: None,
                    artist: None,
                    title: None,
                    requester: None,
                },
            ),
        }
    }
}

} // verus!
