//! The service core: one value holding every store, with one method
//! per endpoint.  Every mutating method authorizes first (trust on
//! first use, keyed by the tenant id taken straight from the request
//! payload) and only then applies its effect; read methods resolve
//! identity and read, with the soft-miss policy of each store.

use vstd::prelude::*;
use crate::canvas::{CanvasEntry, CanvasStore, canvas_admit, canvas_lookup, url_of};
use crate::error::ServiceError;
use crate::history::{History, HistoryPayload, HistoryStore, history_for, insert_pos};
use crate::identity::{QueueParam, read_target};
use crate::motd::{Motd, MotdStore, active_motds};
use crate::queue::{
    QueueClearPayload, QueuePostPayload, QueueSong, QueueStore, QueueUpdatePayload, clear_seq,
    mark_played_seq, pending_for,
};
use crate::song::{Song, SongPayload, SongStore, is_song_of_payload, param_token, sentinel_song};
use crate::usage::{
    Telemetry, Usage, UsageStore, authorize_effect, binding_of, name_of, row_of_telemetry,
    tofu_ok, verify_access_key,
};

verus! {

/// The history entry an append request creates.
pub open spec fn history_of_payload(p: HistoryPayload) -> History {
    History { uuid: p.id, song: p.song, tst: p.tst }
}

/// The whole service state: every store, one value.
pub struct Service {
    usage: UsageStore,
    queue: QueueStore,
    songs: SongStore,
    history: HistoryStore,
    motds: MotdStore,
    canvas: CanvasStore,
}

impl Service {
    pub closed spec fn usage_view(&self) -> Seq<Usage> {
        self.usage@
    }

    pub closed spec fn queue_view(&self) -> Seq<QueueSong> {
        self.queue@
    }

    /// The id the next enqueued entry will get.
    pub closed spec fn queue_next(&self) -> u64 {
        self.queue.next_id_spec()
    }

    pub closed spec fn songs_view(&self) -> Seq<Song> {
        self.songs@
    }

    pub closed spec fn history_view(&self) -> Seq<History> {
        self.history@
    }

    pub closed spec fn motds_view(&self) -> Seq<Motd> {
        self.motds@
    }

    pub closed spec fn canvas_view(&self) -> Seq<CanvasEntry> {
        self.canvas@
    }

    /// Every store is well-formed.
    pub open spec fn wf(&self) -> bool {
        &&& crate::usage::rows_unique(self.usage_view())
        &&& crate::queue::rows_wf(self.queue_view(), self.queue_next())
        &&& crate::song::rows_unique(self.songs_view())
        &&& crate::history::sorted_desc(self.history_view())
        &&& crate::motd::sorted_desc(self.motds_view())
        &&& crate::canvas::rows_unique(self.canvas_view())
    }

    /// A fresh service with every store empty.
    pub fn new() -> (s: Self)
        ensures
            s.wf(),
            s.usage_view() == Seq::<Usage>::empty(),
            s.queue_view() == Seq::<QueueSong>::empty(),
            s.queue_next() == 1,
            s.songs_view() == Seq::<Song>::empty(),
            s.history_view() == Seq::<History>::empty(),
            s.motds_view() == Seq::<Motd>::empty(),
            s.canvas_view() == Seq::<CanvasEntry>::empty(),
    {
        Service {
            usage: UsageStore::new(),
            queue: QueueStore::new(),
            songs: SongStore::new(),
            history: HistoryStore::new(),
            motds: MotdStore::new(),
            canvas: CanvasStore::new(),
        }
    }

    /// Current song of the tenant the parameter names; soft miss.
    pub fn get_song(&self, param: QueueParam) -> (r: Result<Song, ServiceError>)
        ensures
            r is Ok,
            match read_target(param, self.usage_view()) {
                Some(t) => match crate::song::row_for(self.songs_view(), t) {
                    Some(row) => r->Ok_0 == row,
                    None => sentinel_song(r->Ok_0, param_token(param)),
                },
                None => sentinel_song(r->Ok_0, param_token(param)),
            },
    {
        Song::get_song(param, &self.songs, &self.usage)
    }

    /// Current song's cover URL; the soft miss yields an empty string.
    pub fn get_cover(&self, param: QueueParam) -> (r: Result<String, ServiceError>)
        ensures
            r is Ok,
            match read_target(param, self.usage_view()) {
                Some(t) => match crate::song::row_for(self.songs_view(), t) {
                    Some(row) => r->Ok_0@ == row.cover_url@,
                    None => r->Ok_0@ == Seq::<char>::empty(),
                },
                None => r->Ok_0@ == Seq::<char>::empty(),
            },
    {
        match Song::get_song(param, &self.songs, &self.usage) {
            Ok(song) => Ok(song.cover_url),
            Err(e) => Err(e),
        }
    }

    /// Pending queue of the tenant the parameter names; an unknown
    /// name yields the empty list.
    pub fn get_queue(&self, param: QueueParam) -> (r: Result<Vec<QueueSong>, ServiceError>)
        ensures
            r is Ok,
            match read_target(param, self.usage_view()) {
                Some(t) => r->Ok_0@ == pending_for(self.queue_view(), t),
                None => r->Ok_0@ == Seq::<QueueSong>::empty(),
            },
    {
        QueueSong::get_queue(param, &self.queue, &self.usage)
    }

    /// Authorizes, then appends the request to the tenant's queue.
    pub fn add_to_queue(&mut self, api_key: &str, song: QueuePostPayload) -> (r: Result<
        QueueSong,
        ServiceError,
    >)
        requires
            old(self).wf(),
        ensures
            final(self).wf(),
            authorize_effect(old(self).usage_view(), final(self).usage_view(), song.uuid@, api_key@),
            final(self).songs_view() == old(self).songs_view(),
            final(self).history_view() == old(self).history_view(),
            final(self).motds_view() == old(self).motds_view(),
            final(self).canvas_view() == old(self).canvas_view(),
            !tofu_ok(binding_of(old(self).usage_view(), song.uuid@), api_key@) ==> r == Err::<
                QueueSong,
                ServiceError,
            >(ServiceError::Unauthorized) && final(self).queue_view() == old(self).queue_view()
                && final(self).queue_next() == old(self).queue_next(),
            tofu_ok(binding_of(old(self).usage_view(), song.uuid@), api_key@) ==> {
                &&& (r is Ok <==> old(self).queue_next() < u64::MAX)
                &&& (r matches Err(e) ==> e == ServiceError::Internal && final(self).queue_view()
                    == old(self).queue_view()
                    && final(self).queue_next() == old(self).queue_next())
                &&& (r matches Ok(e) ==> {
                    &&& e == (QueueSong {
                        queue_id: Some(old(self).queue_next()),
                        uuid: Some(song.uuid),
                        played: false,
                        ..song.queue_item
                    })
                    &&& final(self).queue_view() == old(self).queue_view().push(e)
                    &&& final(self).queue_next() == old(self).queue_next() + 1
                })
            },
    {
        match verify_access_key(song.uuid.as_str(), api_key, &mut self.usage) {
            Err(e) => Err(e),
            Ok(_) => QueueSong::add_to_queue(song.uuid, song.queue_item, &mut self.queue),
        }
    }

    /// Authorizes, then marks one queue entry played (idempotent).
    pub fn set_queue_song_played(&mut self, api_key: &str, song: QueueUpdatePayload) -> (r: Result<
        (),
        ServiceError,
    >)
        requires
            old(self).wf(),
        ensures
            final(self).wf(),
            authorize_effect(old(self).usage_view(), final(self).usage_view(), song.uuid@, api_key@),
            final(self).songs_view() == old(self).songs_view(),
            final(self).history_view() == old(self).history_view(),
            final(self).motds_view() == old(self).motds_view(),
            final(self).canvas_view() == old(self).canvas_view(),
            final(self).queue_next() == old(self).queue_next(),
            r is Ok <==> tofu_ok(binding_of(old(self).usage_view(), song.uuid@), api_key@),
            r matches Err(e) ==> e == ServiceError::Unauthorized
                && final(self).queue_view() == old(self).queue_view(),
            r is Ok ==> final(self).queue_view() == mark_played_seq(
                old(self).queue_view(),
                song.uuid@,
                song.queueid,
            ),
    {
        match verify_access_key(song.uuid.as_str(), api_key, &mut self.usage) {
            Err(e) => Err(e),
            Ok(_) => QueueSong::remove_from_queue(song.uuid, song.queueid, &mut self.queue),
        }
    }

    /// Authorizes, then marks every entry of the tenant played.
    pub fn clear_queue(&mut self, api_key: &str, queue: QueueClearPayload) -> (r: Result<
        (),
        ServiceError,
    >)
        requires
            old(self).wf(),
        ensures
            final(self).wf(),
            authorize_effect(
                old(self).usage_view(),
                final(self).usage_view(),
                queue.uuid@,
                api_key@,
            ),
            final(self).songs_view() == old(self).songs_view(),
            final(self).history_view() == old(self).history_view(),
            final(self).motds_view() == old(self).motds_view(),
            final(self).canvas_view() == old(self).canvas_view(),
            final(self).queue_next() == old(self).queue_next(),
            r is Ok <==> tofu_ok(binding_of(old(self).usage_view(), queue.uuid@), api_key@),
            r matches Err(e) ==> e == ServiceError::Unauthorized
                && final(self).queue_view() == old(self).queue_view(),
            r is Ok ==> final(self).queue_view() == clear_seq(old(self).queue_view(), queue.uuid@),
    {
        match verify_access_key(queue.uuid.as_str(), api_key, &mut self.usage) {
            Err(e) => Err(e),
            Ok(_) => QueueSong::clear_queue(queue.uuid, &mut self.queue),
        }
    }

    /// Validates the tenant id, authorizes with the reported key, then
    /// replaces the tenant's usage row wholesale (latest wins).
    pub fn set_telemetry(&mut self, telemetry: Telemetry) -> (r: Result<(), ServiceError>)
        requires
            old(self).wf(),
        ensures
            final(self).wf(),
            final(self).queue_view() == old(self).queue_view(),
            final(self).queue_next() == old(self).queue_next(),
            final(self).songs_view() == old(self).songs_view(),
            final(self).history_view() == old(self).history_view(),
            final(self).motds_view() == old(self).motds_view(),
            final(self).canvas_view() == old(self).canvas_view(),
            telemetry.uuid@.len() == 0 ==> r == Err::<(), ServiceError>(ServiceError::Validation)
                && final(self).usage_view() == old(self).usage_view(),
            telemetry.uuid@.len() > 0 ==> {
                &&& (r is Ok <==> tofu_ok(
                    binding_of(old(self).usage_view(), telemetry.uuid@),
                    telemetry.key@,
                ))
                &&& (r matches Err(e) ==> e == ServiceError::Unauthorized
                    && final(self).usage_view() == old(self).usage_view())
                &&& (r is Ok ==> match crate::usage::idx_for(
                    old(self).usage_view(),
                    telemetry.uuid@,
                ) {
                    Some(i) => final(self).usage_view() == old(self).usage_view().update(
                        i,
                        row_of_telemetry(telemetry),
                    ),
                    None => final(self).usage_view() == old(self).usage_view().push(
                        row_of_telemetry(telemetry),
                    ),
                })
            },
    {
        if telemetry.uuid.as_str().is_empty() {
            return Err(ServiceError::Validation);
        }
        let ghost usage0 = self.usage@;
        match verify_access_key(telemetry.uuid.as_str(), telemetry.key.as_str(), &mut self.usage) {
            Err(e) => Err(e),
            Ok(_) => {
                let ghost mid = self.usage@;
                let ghost uuid = telemetry.uuid@;
                let r = Usage::set_telemetry(telemetry, &mut self.usage);
                proof {
                    crate::usage::lemma_idx_for_props(usage0, uuid);
                    if binding_of(usage0, uuid) is Some {
                        assert(mid == usage0);
                    } else {
                        match crate::usage::idx_for(usage0, uuid) {
                            Some(i) => {
                                assert(mid =~= usage0.update(i, mid[i]));
                                crate::usage::lemma_idx_for_update(usage0, i, mid[i]);
                                assert(self.usage@ =~= usage0.update(
                                    i,
                                    row_of_telemetry(telemetry),
                                ));
                            },
                            None => {
                                assert(mid =~= usage0.push(mid.last()));
                                assert(self.usage@ =~= usage0.push(row_of_telemetry(telemetry)));
                            },
                        }
                    }
                }
                r
            },
        }
    }

    /// Builds the current-song record from the payload (a missing
    /// cover becomes the empty string), authorizes with the payload's
    /// own key, then replaces the tenant's record wholesale.  The
    /// query-string key is carried but, as ever, the payload decides.
    pub fn set_song(&mut self, _api_key: String, song: SongPayload) -> (r: Result<
        (),
        ServiceError,
    >)
        requires
            old(self).wf(),
        ensures
            final(self).wf(),
            authorize_effect(old(self).usage_view(), final(self).usage_view(), song.uuid@, song.key@),
            final(self).queue_view() == old(self).queue_view(),
            final(self).queue_next() == old(self).queue_next(),
            final(self).history_view() == old(self).history_view(),
            final(self).motds_view() == old(self).motds_view(),
            final(self).canvas_view() == old(self).canvas_view(),
            r is Ok <==> tofu_ok(binding_of(old(self).usage_view(), song.uuid@), song.key@),
            r matches Err(e) ==> e == ServiceError::Unauthorized
                && final(self).songs_view() == old(self).songs_view(),
            r is Ok ==> match crate::song::idx_for(old(self).songs_view(), song.uuid@) {
                Some(i) => {
                    &&& final(self).songs_view().len() == old(self).songs_view().len()
                    &&& (forall|j: int|
                        0 <= j < old(self).songs_view().len() && j != i
                            ==> final(self).songs_view()[j] == old(self).songs_view()[j])
                    &&& is_song_of_payload(final(self).songs_view()[i], song)
                },
                None => {
                    &&& final(self).songs_view().len() == old(self).songs_view().len() + 1
                    &&& final(self).songs_view().drop_last() == old(self).songs_view()
                    &&& is_song_of_payload(final(self).songs_view().last(), song)
                },
            },
    {
        let cover = match song.cover {
            Some(c) => c,
            None => String::new(),
        };
        let record = Song {
            uuid: song.uuid,
            song: song.song,
            cover_url: cover,
            song_id: song.song_id,
            playertype: song.playertype,
            artist: song.artist,
            title: song.title,
            requester: song.requester,
        };
        match verify_access_key(record.uuid.as_str(), song.key.as_str(), &mut self.usage) {
            Err(e) => Err(e),
            Ok(_) => {
                let ghost songs0 = self.songs@;
                let r = Song::set_song(record, &mut self.songs);
                proof {
                    crate::song::lemma_idx_for_props(songs0, song.uuid@);
                }
                r
            },
        }
    }

    /// Authorizes with the query-string key (as this endpoint does),
    /// then appends one play event to the tenant's history.
    pub fn set_history(&mut self, api_key: String, payload: HistoryPayload) -> (r: Result<
        (),
        ServiceError,
    >)
        requires
            old(self).wf(),
        ensures
            final(self).wf(),
            authorize_effect(
                old(self).usage_view(),
                final(self).usage_view(),
                payload.id@,
                api_key@,
            ),
            final(self).queue_view() == old(self).queue_view(),
            final(self).queue_next() == old(self).queue_next(),
            final(self).songs_view() == old(self).songs_view(),
            final(self).motds_view() == old(self).motds_view(),
            final(self).canvas_view() == old(self).canvas_view(),
            r is Ok <==> tofu_ok(binding_of(old(self).usage_view(), payload.id@), api_key@),
            r matches Err(e) ==> e == ServiceError::Unauthorized
                && final(self).history_view() == old(self).history_view(),
            r is Ok ==> final(self).history_view() == old(self).history_view().insert(
                insert_pos(old(self).history_view(), payload.tst),
                history_of_payload(payload),
            ),
    {
        match verify_access_key(payload.id.as_str(), api_key.as_str(), &mut self.usage) {
            Err(e) => Err(e),
            Ok(_) => {
                let entry = History { uuid: payload.id, song: payload.song, tst: payload.tst };
                History::set_history(entry, &mut self.history)
            },
        }
    }

    /// The tenant's play history, newest first; the id goes through
    /// the alias table first.
    pub fn get_history_data(&self, id: String) -> (r: Result<Vec<History>, ServiceError>)
        requires
            self.wf(),
        ensures
            r is Ok,
            r->Ok_0@ == history_for(self.history_view(), crate::identity::resolve_spec(id@)),
            crate::history::sorted_desc(r->Ok_0@),
    {
        History::get_history(id, &self.history)
    }

    /// The active banner messages, newest first.
    pub fn motd(&self) -> (r: Result<Vec<Motd>, ServiceError>)
        requires
            self.wf(),
        ensures
            r is Ok,
            r->Ok_0@ == active_motds(self.motds_view()),
            crate::motd::sorted_desc(r->Ok_0@),
    {
        Motd::get_active_motds(&self.motds)
    }

    /// Every banner message, newest first.
    pub fn motd_all(&self) -> (r: Result<Vec<Motd>, ServiceError>)
        requires
            self.wf(),
        ensures
            r is Ok,
            r->Ok_0@ == self.motds_view(),
            crate::motd::sorted_desc(r->Ok_0@),
    {
        Motd::get_all_motds(&self.motds)
    }

    /// Loads one operator-authored banner message.
    pub fn insert_motd(&mut self, msg: Motd) -> (r: Result<(), ServiceError>)
        requires
            old(self).wf(),
        ensures
            r is Ok,
            final(self).wf(),
            final(self).motds_view() == old(self).motds_view().insert(
                crate::motd::insert_pos(old(self).motds_view(), msg.created_at),
                msg,
            ),
            final(self).usage_view() == old(self).usage_view(),
            final(self).queue_view() == old(self).queue_view(),
            final(self).queue_next() == old(self).queue_next(),
            final(self).songs_view() == old(self).songs_view(),
            final(self).history_view() == old(self).history_view(),
            final(self).canvas_view() == old(self).canvas_view(),
    {
        self.motds.insert_message(msg)
    }

    /// Probes the artwork cache; a hit never goes back to the origin.
    pub fn get_canvas(&self, id: &str) -> (r: Option<String>)
        ensures
            match r {
                Some(u) => url_of(self.canvas_view(), id@) == Some(u@),
                None => url_of(self.canvas_view(), id@) is None,
            },
    {
        canvas_lookup(id, &self.canvas)
    }

    /// Settles an artwork cache miss with the origin's answer: caches
    /// and returns a URL, or reports `NotFound` and caches nothing.
    pub fn admit_canvas(&mut self, id: String, origin_url: Option<String>) -> (r: Result<
        String,
        ServiceError,
    >)
        requires
            old(self).wf(),
        ensures
            final(self).wf(),
            final(self).usage_view() == old(self).usage_view(),
            final(self).queue_view() == old(self).queue_view(),
            final(self).queue_next() == old(self).queue_next(),
            final(self).songs_view() == old(self).songs_view(),
            final(self).history_view() == old(self).history_view(),
            final(self).motds_view() == old(self).motds_view(),
            r is Ok <==> origin_url is Some,
            r matches Err(e) ==> e == ServiceError::NotFound
                && final(self).canvas_view() == old(self).canvas_view(),
            origin_url matches Some(u) ==> {
                &&& r->Ok_0 == u
                &&& url_of(final(self).canvas_view(), id@) == Some(u@)
                &&& match crate::canvas::idx_for(old(self).canvas_view(), id@) {
                    Some(i) => final(self).canvas_view() == old(self).canvas_view().update(
                        i,
                        CanvasEntry {
                            track_id: old(self).canvas_view()[i].track_id,
                            canvas_url: u,
                        },
                    ),
                    None => final(self).canvas_view() == old(self).canvas_view().push(
                        CanvasEntry { track_id: id, canvas_url: u },
                    ),
                }
                &&& forall|t2: Seq<char>|
                    t2 != id@ ==> #[trigger] url_of(final(self).canvas_view(), t2) == url_of(
                        old(self).canvas_view(),
                        t2,
                    )
            },
    {
        canvas_admit(id, origin_url, &mut self.canvas)
    }

    /// Latest display name reported for the tenant; a tenant without a
    /// row yields the empty string, not an error.
    pub fn get_twitch_name(&self, id: String) -> (r: Result<String, ServiceError>)
        ensures
            r is Ok,
            match name_of(self.usage_view(), id@) {
                Some(n) => r->Ok_0@ == n,
                None => r->Ok_0@ == Seq::<char>::empty(),
            },
    {
        match Usage::get_twitch_name(id, &self.usage) {
            Ok(Some(name)) => Ok(name),
            Ok(None) => Ok(String::new()),
            Err(e) => Err(e),
        }
    }
}

} // verus!
