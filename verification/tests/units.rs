use songify_core::history::{History, HistoryPayload, HistoryStore};
use songify_core::identity::get_custom_uuids;
use songify_core::motd::{Motd, MotdStore};
use songify_core::service::Service;
use songify_core::strutil::{eq_ignore_case, str_eq};

#[test]
fn known_aliases_resolve_to_canonical_ids() {
    assert_eq!(get_custom_uuids("sluckz"), "f6d9a390-7d48-4da6-a177-c378a7a33c1e");
    assert_eq!(get_custom_uuids("inzaniity"), "43efb299-2504-4365-8ac6-a301f0d7c7aa");
    assert_eq!(get_custom_uuids("thejaydizzle"), "5d07c1d6-6dcc-4185-a6bd-284fe0480b79");
    assert_eq!(get_custom_uuids("vigilsc"), "2580091a-aec1-44be-afbd-274523c1b3d2");
    assert_eq!(get_custom_uuids("itsbustre"), "c90b6e0e-6706-4036-bf25-327b2d981082");
    assert_eq!(get_custom_uuids("rocketstarrl"), "de8a9f85-2919-474c-9845-6534ec54dc7f");
    assert_eq!(get_custom_uuids("preheet"), "4aa39d0a-1bf6-4705-bfb5-512dd8afc1e2");
    assert_eq!(get_custom_uuids("highitsky"), "630e6596-a833-42d9-a905-7a5bf1a75d0e");
}

#[test]
fn unknown_token_passes_through_unchanged() {
    assert_eq!(get_custom_uuids("not-an-alias"), "not-an-alias");
    assert_eq!(
        get_custom_uuids("f6d9a390-7d48-4da6-a177-c378a7a33c1e"),
        "f6d9a390-7d48-4da6-a177-c378a7a33c1e"
    );
    assert_eq!(get_custom_uuids(""), "");
}

#[test]
fn str_eq_is_exact() {
    assert!(str_eq("abc", "abc"));
    assert!(!str_eq("abc", "abd"));
    assert!(!str_eq("abc", "ABC"));
    assert!(!str_eq("abc", "abcd"));
    assert!(str_eq("", ""));
}

#[test]
fn eq_ignore_case_folds_ascii_only() {
    assert!(eq_ignore_case("Streamer", "sTREAMER"));
    assert!(eq_ignore_case("abc", "abc"));
    assert!(!eq_ignore_case("abc", "abd"));
    assert!(!eq_ignore_case("abc", "abcd"));
    assert!(eq_ignore_case("", ""));
    // non-ASCII letters are not folded
    assert!(!eq_ignore_case("ä", "Ä"));
}

#[test]
fn history_reads_come_back_newest_first() {
    let mut store = HistoryStore::new();
    let entry = |tst: i64, song: &str| History {
        uuid: "t1".to_string(),
        song: song.to_string(),
        tst,
    };
    History::set_history(entry(20, "second"), &mut store).unwrap();
    History::set_history(entry(10, "first"), &mut store).unwrap();
    History::set_history(entry(30, "third"), &mut store).unwrap();
    let got = History::get_history("t1".to_string(), &store).unwrap();
    let songs: Vec<&str> = got.iter().map(|h| h.song.as_str()).collect();
    assert_eq!(songs, vec!["third", "second", "first"]);
}

#[test]
fn history_is_per_tenant_and_append_only() {
    let mut s = Service::new();
    let play = |id: &str, tst: i64, song: &str| HistoryPayload {
        id: id.to_string(),
        song: song.to_string(),
        key: "k".to_string(),
        tst,
    };
    s.set_history("k".to_string(), play("t1", 1, "one")).unwrap();
    s.set_history("k".to_string(), play("t1", 2, "two")).unwrap();
    s.set_history("k2".to_string(), play("t2", 3, "other")).unwrap();
    assert_eq!(s.get_history_data("t1".to_string()).unwrap().len(), 2);
    assert_eq!(s.get_history_data("t2".to_string()).unwrap().len(), 1);
    assert_eq!(s.get_history_data("t3".to_string()).unwrap().len(), 0);
}

#[test]
fn motd_active_filter_and_order() {
    let mut store = MotdStore::new();
    let msg = |id: i32, created_at: i64, active: bool| Motd {
        id,
        message_text: format!("message {id}"),
        severity: "info".to_string(),
        created_at,
        start_date: None,
        end_date: None,
        is_active: active,
        author: "op".to_string(),
    };
    store.insert_message(msg(1, 100, true)).unwrap();
    store.insert_message(msg(2, 300, false)).unwrap();
    store.insert_message(msg(3, 200, true)).unwrap();
    let active = Motd::get_active_motds(&store).unwrap();
    let ids: Vec<i32> = active.iter().map(|m| m.id).collect();
    assert_eq!(ids, vec![3, 1]);
    let all = Motd::get_all_motds(&store).unwrap();
    let all_ids: Vec<i32> = all.iter().map(|m| m.id).collect();
    assert_eq!(all_ids, vec![2, 3, 1]);
}

#[test]
fn motd_through_service() {
    let mut s = Service::new();
    s.insert_motd(Motd {
        id: 7,
        message_text: "maintenance tonight".to_string(),
        severity: "warning".to_string(),
        created_at: 50,
        start_date: Some(40),
        end_date: Some(60),
        is_active: true,
        author: "op".to_string(),
    })
    .unwrap();
    assert_eq!(s.motd().unwrap().len(), 1);
    assert_eq!(s.motd_all().unwrap().len(), 1);
    assert_eq!(s.motd().unwrap()[0].message_text, "maintenance tonight");
}
