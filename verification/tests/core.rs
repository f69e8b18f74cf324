use songify_core::error::ServiceError;
use songify_core::identity::QueueParam;
use songify_core::queue::{QueueClearPayload, QueuePostPayload, QueueSong, QueueUpdatePayload};
use songify_core::service::Service;
use songify_core::song::SongPayload;
use songify_core::usage::{Telemetry, Usage, UsageStore, verify_access_key};

fn request(track: &str, title: &str, requester: &str) -> QueueSong {
    QueueSong {
        queue_id: None,
        uuid: None,
        track_id: track.to_string(),
        artist: "artist".to_string(),
        title: title.to_string(),
        length: "3:20".to_string(),
        requester: requester.to_string(),
        played: false,
        album_cover: None,
    }
}

fn enqueue(s: &mut Service, key: &str, tenant: &str, track: &str) -> QueueSong {
    s.add_to_queue(
        key,
        QueuePostPayload { queue_item: request(track, "title", "chat"), uuid: tenant.to_string() },
    )
    .expect("enqueue should succeed")
}

#[test]
fn tofu_first_key_binds() {
    let mut store = UsageStore::new();
    assert!(verify_access_key("tenant-1", "secret-a", &mut store).is_ok());
    let bound = Usage::get_access_key("tenant-1".to_string(), &store).unwrap();
    assert_eq!(bound.as_deref(), Some("secret-a"));
}

#[test]
fn tofu_same_key_keeps_succeeding() {
    let mut store = UsageStore::new();
    assert!(verify_access_key("tenant-1", "secret-a", &mut store).is_ok());
    assert!(verify_access_key("tenant-1", "secret-a", &mut store).is_ok());
    assert!(verify_access_key("tenant-1", "secret-a", &mut store).is_ok());
}

#[test]
fn tofu_other_key_rejected_binding_unchanged() {
    let mut store = UsageStore::new();
    assert!(verify_access_key("tenant-1", "secret-a", &mut store).is_ok());
    let r = verify_access_key("tenant-1", "secret-b", &mut store);
    assert_eq!(r, Err(ServiceError::Unauthorized));
    let bound = Usage::get_access_key("tenant-1".to_string(), &store).unwrap();
    assert_eq!(bound.as_deref(), Some("secret-a"));
    assert!(verify_access_key("tenant-1", "secret-a", &mut store).is_ok());
}

#[test]
fn tofu_bindings_are_per_tenant() {
    let mut store = UsageStore::new();
    assert!(verify_access_key("tenant-1", "secret-a", &mut store).is_ok());
    assert!(verify_access_key("tenant-2", "secret-b", &mut store).is_ok());
    assert_eq!(
        verify_access_key("tenant-1", "secret-b", &mut store),
        Err(ServiceError::Unauthorized)
    );
    assert!(verify_access_key("tenant-2", "secret-b", &mut store).is_ok());
}

#[test]
fn queue_fifo_order_and_increasing_ids() {
    let mut s = Service::new();
    let e1 = enqueue(&mut s, "k", "t1", "track-1");
    let e2 = enqueue(&mut s, "k", "t1", "track-2");
    let e3 = enqueue(&mut s, "k", "t1", "track-3");
    assert!(e1.queue_id.unwrap() < e2.queue_id.unwrap());
    assert!(e2.queue_id.unwrap() < e3.queue_id.unwrap());
    let pending = s.get_queue(QueueParam::Id("t1".to_string())).unwrap();
    let tracks: Vec<&str> = pending.iter().map(|e| e.track_id.as_str()).collect();
    assert_eq!(tracks, vec!["track-1", "track-2", "track-3"]);
    for w in pending.windows(2) {
        assert!(w[0].queue_id.unwrap() < w[1].queue_id.unwrap());
    }
}

#[test]
fn queue_enqueue_needs_authorization() {
    let mut s = Service::new();
    enqueue(&mut s, "good-key", "t1", "track-1");
    let r = s.add_to_queue(
        "bad-key",
        QueuePostPayload { queue_item: request("track-2", "x", "y"), uuid: "t1".to_string() },
    );
    assert_eq!(r.err(), Some(ServiceError::Unauthorized));
    let pending = s.get_queue(QueueParam::Id("t1".to_string())).unwrap();
    assert_eq!(pending.len(), 1);
}

#[test]
fn mark_played_removes_entry_and_is_idempotent() {
    let mut s = Service::new();
    let e1 = enqueue(&mut s, "k", "t1", "track-1");
    let e2 = enqueue(&mut s, "k", "t1", "track-2");
    let qid = e1.queue_id.unwrap();
    let patch = QueueUpdatePayload { queueid: qid, uuid: "t1".to_string() };
    s.set_queue_song_played("k", patch).unwrap();
    let pending = s.get_queue(QueueParam::Id("t1".to_string())).unwrap();
    assert_eq!(pending.len(), 1);
    assert_eq!(pending[0].track_id, "track-2");
    // marking again changes nothing and is not an error
    let patch_again = QueueUpdatePayload { queueid: qid, uuid: "t1".to_string() };
    s.set_queue_song_played("k", patch_again).unwrap();
    let pending2 = s.get_queue(QueueParam::Id("t1".to_string())).unwrap();
    assert_eq!(pending2.len(), 1);
    assert_eq!(pending2[0].queue_id, e2.queue_id);
}

#[test]
fn clear_queue_empties_pending_only_for_that_tenant() {
    let mut s = Service::new();
    enqueue(&mut s, "k", "t1", "a");
    enqueue(&mut s, "k", "t1", "b");
    enqueue(&mut s, "k", "t1", "c");
    enqueue(&mut s, "k2", "t2", "other");
    let clear = QueueClearPayload { uuid: "t1".to_string(), key: "k".to_string() };
    s.clear_queue("k", clear).unwrap();
    assert!(s.get_queue(QueueParam::Id("t1".to_string())).unwrap().is_empty());
    assert_eq!(s.get_queue(QueueParam::Id("t2".to_string())).unwrap().len(), 1);
}

#[test]
fn song_soft_miss_returns_sentinel() {
    let s = Service::new();
    let song = s.get_song(QueueParam::Id("nobody".to_string())).unwrap();
    assert_eq!(song.song, "No song found");
    assert_eq!(song.cover_url, "");
    assert_eq!(song.uuid, "nobody");
    let cover = s.get_cover(QueueParam::Id("nobody".to_string())).unwrap();
    assert_eq!(cover, "");
}

#[test]
fn song_set_then_get_replaces_wholesale() {
    let mut s = Service::new();
    let first = SongPayload {
        uuid: "t1".to_string(),
        key: "k".to_string(),
        song: "artist - first".to_string(),
        cover: Some("http://cover/1".to_string()),
        song_id: Some("sid-1".to_string()),
        playertype: Some("spotify".to_string()),
        artist: Some("artist".to_string()),
        title: Some("first".to_string()),
        requester: None,
    };
    s.set_song(String::new(), first).unwrap();
    let second = SongPayload {
        uuid: "t1".to_string(),
        key: "k".to_string(),
        song: "artist - second".to_string(),
        cover: None,
        song_id: None,
        playertype: None,
        artist: None,
        title: None,
        requester: None,
    };
    s.set_song(String::new(), second).unwrap();
    let got = s.get_song(QueueParam::Id("t1".to_string())).unwrap();
    assert_eq!(got.song, "artist - second");
    // replace, not merge: the old cover and metadata are gone
    assert_eq!(got.cover_url, "");
    assert!(got.song_id.is_none());
    assert!(got.artist.is_none());
}

#[test]
fn song_write_with_wrong_key_is_rejected() {
    let mut s = Service::new();
    let mk = |song: &str, key: &str| SongPayload {
        uuid: "t1".to_string(),
        key: key.to_string(),
        song: song.to_string(),
        cover: None,
        song_id: None,
        playertype: None,
        artist: None,
        title: None,
        requester: None,
    };
    s.set_song(String::new(), mk("first", "good")).unwrap();
    let r = s.set_song(String::new(), mk("evil", "bad"));
    assert_eq!(r, Err(ServiceError::Unauthorized));
    let got = s.get_song(QueueParam::Id("t1".to_string())).unwrap();
    assert_eq!(got.song, "first");
}

#[test]
fn telemetry_empty_tenant_is_validation_error() {
    let mut s = Service::new();
    let t = Telemetry {
        uuid: String::new(),
        key: "k".to_string(),
        tst: 1,
        twitch_id: "1".to_string(),
        twitch_name: "name".to_string(),
        vs: None,
        playertype: "spotify".to_string(),
    };
    assert_eq!(s.set_telemetry(t), Err(ServiceError::Validation));
}

#[test]
fn telemetry_upserts_latest_wins() {
    let mut s = Service::new();
    let report = |tst: i64, name: &str| Telemetry {
        uuid: "t1".to_string(),
        key: "k".to_string(),
        tst,
        twitch_id: "42".to_string(),
        twitch_name: name.to_string(),
        vs: Some("1.0".to_string()),
        playertype: "spotify".to_string(),
    };
    s.set_telemetry(report(10, "old_name")).unwrap();
    s.set_telemetry(report(20, "new_name")).unwrap();
    assert_eq!(s.get_twitch_name("t1".to_string()).unwrap(), "new_name");
}

#[test]
fn twitch_name_soft_miss_is_empty_string() {
    let s = Service::new();
    assert_eq!(s.get_twitch_name("nobody".to_string()).unwrap(), "");
}

#[test]
fn reads_by_display_name_use_latest_session() {
    let mut s = Service::new();
    let report = |uuid: &str, tst: i64, name: &str| Telemetry {
        uuid: uuid.to_string(),
        key: "k".to_string(),
        tst,
        twitch_id: "42".to_string(),
        twitch_name: name.to_string(),
        vs: None,
        playertype: "spotify".to_string(),
    };
    s.set_telemetry(report("t-old", 10, "Streamer")).unwrap();
    s.set_telemetry(report("t-new", 20, "streamer")).unwrap();
    enqueue(&mut s, "k", "t-new", "track-1");
    // case-insensitive name match picks the most recent session
    let pending = s.get_queue(QueueParam::Name("STREAMER".to_string())).unwrap();
    assert_eq!(pending.len(), 1);
    assert_eq!(pending[0].track_id, "track-1");
}

#[test]
fn cache_round_trip_hits_without_origin() {
    let mut s = Service::new();
    assert!(s.get_canvas("track-1").is_none());
    let url = s
        .admit_canvas("track-1".to_string(), Some("http://canvas/1".to_string()))
        .unwrap();
    assert_eq!(url, "http://canvas/1");
    // second read is a pure cache probe: no origin answer is needed
    assert_eq!(s.get_canvas("track-1").as_deref(), Some("http://canvas/1"));
}

#[test]
fn cache_miss_without_origin_answer_is_not_found_and_not_cached() {
    let mut s = Service::new();
    let r = s.admit_canvas("track-1".to_string(), None);
    assert_eq!(r, Err(ServiceError::NotFound));
    // no negative caching: the track is still a miss
    assert!(s.get_canvas("track-1").is_none());
}

#[test]
fn cache_refresh_overwrites_url() {
    let mut s = Service::new();
    s.admit_canvas("track-1".to_string(), Some("http://old".to_string())).unwrap();
    s.admit_canvas("track-1".to_string(), Some("http://new".to_string())).unwrap();
    assert_eq!(s.get_canvas("track-1").as_deref(), Some("http://new"));
}

#[test]
fn cover_returned_when_present() {
    let mut s = Service::new();
    let payload = SongPayload {
        uuid: "t1".to_string(),
        key: "k".to_string(),
        song: "artist - song".to_string(),
        cover: Some("http://cover/art.jpg".to_string()),
        song_id: None,
        playertype: None,
        artist: None,
        title: None,
        requester: None,
    };
    s.set_song(String::new(), payload).unwrap();
    let cover = s.get_cover(QueueParam::Id("t1".to_string())).unwrap();
    assert_eq!(cover, "http://cover/art.jpg");
}

#[test]
fn song_read_by_display_name() {
    let mut s = Service::new();
    let t = Telemetry {
        uuid: "t1".to_string(),
        key: "k".to_string(),
        tst: 5,
        twitch_id: "42".to_string(),
        twitch_name: "Streamer".to_string(),
        vs: None,
        playertype: "spotify".to_string(),
    };
    s.set_telemetry(t).unwrap();
    let payload = SongPayload {
        uuid: "t1".to_string(),
        key: "k".to_string(),
        song: "now playing".to_string(),
        cover: None,
        song_id: None,
        playertype: None,
        artist: None,
        title: None,
        requester: None,
    };
    s.set_song(String::new(), payload).unwrap();
    let got = s.get_song(QueueParam::Name("streamer".to_string())).unwrap();
    assert_eq!(got.song, "now playing");
}

#[test]
fn unknown_display_name_reads_soft_miss() {
    let s = Service::new();
    let pending = s.get_queue(QueueParam::Name("whoever".to_string())).unwrap();
    assert!(pending.is_empty());
    let song = s.get_song(QueueParam::Name("whoever".to_string())).unwrap();
    assert_eq!(song.song, "No song found");
    assert_eq!(song.uuid, "whoever");
}

#[test]
fn scenario_alias_queue_and_history() {
    let mut s = Service::new();
    let canonical = "f6d9a390-7d48-4da6-a177-c378a7a33c1e";
    let e = enqueue(&mut s, "k", canonical, "T1");
    // the alias resolves to the canonical id even with no session data
    let pending = s.get_queue(QueueParam::Name("sluckz".to_string())).unwrap();
    assert_eq!(pending.len(), 1);
    assert_eq!(pending[0].track_id, "T1");
    let patch = QueueUpdatePayload { queueid: e.queue_id.unwrap(), uuid: canonical.to_string() };
    s.set_queue_song_played("k", patch).unwrap();
    assert!(s.get_queue(QueueParam::Name("sluckz".to_string())).unwrap().is_empty());
    let play = songify_core::history::HistoryPayload {
        id: canonical.to_string(),
        song: "artist - T1".to_string(),
        key: "k".to_string(),
        tst: 100,
    };
    s.set_history("k".to_string(), play).unwrap();
    let history = s.get_history_data("sluckz".to_string()).unwrap();
    assert_eq!(history.len(), 1);
    assert_eq!(history[0].song, "artist - T1");
    assert_eq!(history[0].uuid, canonical);
}
