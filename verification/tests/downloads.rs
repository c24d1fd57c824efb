use mutui::api::{Client, Track};
use mutui::db::{DownloadRow, DownloadStatus};
use mutui::downloads::{check_hash, hex_encode, DownloadEvent, StreamDigest};
use mutui::storage::{cache_dir, db_path, join_path, tmp_dir, tracks_dir};
use mutui::ui::transfers::{
    playlist_download_message, track_url, DownloadPlan, DownloadState, DownloadTable, RemovalPlan,
};

fn track(id: i64, hash: Option<&str>) -> Track {
    Track {
        id,
        hash: hash.map(|h| h.to_string()),
        original_filename: None,
        title: Some(format!("T{id}")),
        album: None,
        artist: Some(format!("A{id}")),
        album_artist: None,
        track_no: None,
        disc_no: None,
        duration_ms: None,
        year: None,
        bitrate: None,
        sample_rate: None,
        channels: None,
        added_at: 0,
    }
}

fn row(track_id: i64, status: DownloadStatus, local: Option<&str>) -> DownloadRow {
    DownloadRow {
        library_id: 1,
        track_id,
        hash: "h".to_string(),
        status,
        bytes_downloaded: 0,
        total_bytes: 0,
        local_path: local.map(|s| s.to_string()),
        error: None,
    }
}

#[test]
fn sha256_of_known_inputs() {
    let mut d = StreamDigest::new();
    d.update(b"abc");
    assert_eq!(d.finish_hex(), "ba7816bf8f01cfea414140de5dae2223b00361a396177a9cb410ff61f20015ad");
    let d = StreamDigest::new();
    assert_eq!(d.finish_hex(), "e3b0c44298fc1c149afbf4c8996fb92427ae41e4649b934ca495991b7852b855");
}

#[test]
fn digest_of_chunks_is_digest_of_whole() {
    let data: Vec<u8> = (0..10_000u32).map(|i| (i * 7 % 251) as u8).collect();
    let mut whole = StreamDigest::new();
    whole.update(&data);
    let mut parts = StreamDigest::new();
    for chunk in data.chunks(977) {
        parts.update(chunk);
    }
    assert_eq!(whole.finish_hex(), parts.finish_hex());
}

#[test]
fn hex_is_lower_case_two_digits_per_byte() {
    assert_eq!(hex_encode(&[0x00, 0x0f, 0xa0, 0xff]), "000fa0ff");
    assert_eq!(hex_encode(&[]), "");
}

#[test]
fn hash_check_accepts_match_or_empty() {
    assert!(check_hash("abc", "abc").is_ok());
    assert!(check_hash("", "anything").is_ok());
    assert_eq!(check_hash("abc", "abd").unwrap_err(), "hash mismatch: expected abc, got abd");
}

#[test]
fn statuses_round_trip_through_names() {
    for s in [DownloadStatus::Queued, DownloadStatus::Downloading, DownloadStatus::Downloaded, DownloadStatus::Failed] {
        assert_eq!(DownloadStatus::from_str(s.as_str()), s);
    }
    assert_eq!(DownloadStatus::Downloaded.as_str(), "downloaded");
    assert_eq!(DownloadStatus::from_str("bogus"), DownloadStatus::Queued);
}

#[test]
fn storage_paths() {
    assert_eq!(cache_dir(Some("/x/cache"), Some("/home/u")), "/x/cache/muserv");
    assert_eq!(cache_dir(Some(""), Some("/home/u")), "/home/u/.cache/muserv");
    assert_eq!(cache_dir(None, Some("/home/u/")), "/home/u/.cache/muserv");
    assert_eq!(cache_dir(None, None), "./.cache/muserv");
    assert_eq!(db_path("/c"), "/c/metadata.db");
    assert_eq!(tracks_dir("/c"), "/c/tracks");
    assert_eq!(tmp_dir("/c"), "/c/tracks/tmp");
    assert_eq!(join_path("", "a"), "a");
    assert_eq!(join_path("/a", "/b"), "/b");
}

#[test]
fn table_keeps_ids_sorted_and_unique() {
    let mut t = DownloadTable::new();
    t.insert(5, DownloadState::from(row(5, DownloadStatus::Queued, None)));
    t.insert(2, DownloadState::from(row(2, DownloadStatus::Failed, None)));
    t.insert(9, DownloadState::from(row(9, DownloadStatus::Downloaded, Some("/c/h9"))));
    t.insert(5, DownloadState::from(row(5, DownloadStatus::Downloading, None)));
    assert_eq!(t.sorted_ids(), vec![2, 5, 9]);
    assert_eq!(t.len(), 3);
    assert_eq!(t.status_of(5), Some(DownloadStatus::Downloading));
    t.remove(5);
    assert_eq!(t.sorted_ids(), vec![2, 9]);
    assert!(t.get(5).is_none());
    t.remove(77);
    assert_eq!(t.len(), 2);
}

#[test]
fn table_from_rows_keeps_last_row_per_track() {
    let rows = vec![
        row(3, DownloadStatus::Queued, None),
        row(1, DownloadStatus::Failed, None),
        row(3, DownloadStatus::Downloaded, Some("/p")),
    ];
    let t = DownloadTable::from_rows(&rows);
    assert_eq!(t.sorted_ids(), vec![1, 3]);
    assert_eq!(t.status_of(3), Some(DownloadStatus::Downloaded));
    assert_eq!(t.local_copy(3), Some("/p".to_string()));
    assert_eq!(t.local_copy(1), None);
}

#[test]
fn planning_a_download() {
    let client = Client::new("http://srv/".to_string(), Some("k".to_string()));
    let tracks = vec![track(1, Some("abc")), track(2, None)];
    let mut t = DownloadTable::new();
    assert!(matches!(t.plan_download(None, &tracks, 1, &client, "/c"), DownloadPlan::Skip));
    assert!(matches!(t.plan_download(Some(7), &tracks, 99, &client, "/c"), DownloadPlan::Skip));
    match t.plan_download(Some(7), &tracks, 2, &client, "/c") {
        DownloadPlan::Refused { message } => assert_eq!(message, "cannot download: track has no hash"),
        _ => panic!("expected a refusal"),
    }
    match t.plan_download(Some(7), &tracks, 1, &client, "/c") {
        DownloadPlan::Start { row, job } => {
            assert_eq!(row.library_id, 7);
            assert_eq!(row.status, DownloadStatus::Queued);
            assert_eq!(row.hash, "abc");
            assert_eq!(job.url, "http://srv/api/libraries/7/tracks/1/stream");
            assert_eq!(job.auth_header, Some("Bearer k".to_string()));
            assert_eq!(job.expected_hash, "abc");
            assert_eq!(job.dest_path, "/c/tracks/abc");
            assert_eq!(job.tmp_path, "/c/tracks/tmp/1-abc.part");
            t.insert(1, DownloadState::from(row));
        }
        _ => panic!("expected a start"),
    }
    // Queued already: asking again does nothing.
    assert!(matches!(t.plan_download(Some(7), &tracks, 1, &client, "/c"), DownloadPlan::Skip));
}

#[test]
fn worker_reports_update_the_table() {
    let tracks = vec![track(1, Some("abc"))];
    let mut t = DownloadTable::new();
    t.insert(1, DownloadState::from(row(1, DownloadStatus::Queued, None)));
    // No library: dropped.
    let e = t.apply_event(None, &tracks, DownloadEvent::Done { track_id: 1, local_path: "/x".to_string() });
    assert!(e.persist.is_none() && e.message.is_none());
    assert_eq!(t.status_of(1), Some(DownloadStatus::Queued));
    // Progress on an unknown track: nothing.
    t.apply_event(Some(1), &tracks, DownloadEvent::Progress { track_id: 4, bytes: 1, total: 2 });
    assert_eq!(t.len(), 1);
    // Progress on a known track.
    t.apply_event(Some(1), &tracks, DownloadEvent::Progress { track_id: 1, bytes: 50, total: 200 });
    let st = t.get(1).unwrap();
    assert_eq!((st.status, st.bytes, st.total), (DownloadStatus::Downloading, 50, 200));
    // Done.
    let e = t.apply_event(Some(1), &tracks, DownloadEvent::Done { track_id: 1, local_path: "/c/tracks/abc".to_string() });
    let r = e.persist.unwrap();
    assert_eq!((r.status, r.hash.as_str()), (DownloadStatus::Downloaded, "abc"));
    assert_eq!(t.local_copy(1), Some("/c/tracks/abc".to_string()));
    // Failed on a track outside the library: recorded with an empty hash.
    let e = t.apply_event(Some(1), &tracks, DownloadEvent::Failed { track_id: 8, error: "boom".to_string() });
    assert_eq!(e.message, Some("download failed: boom".to_string()));
    let r = e.persist.unwrap();
    assert_eq!((r.status, r.hash.as_str(), r.error.as_deref()), (DownloadStatus::Failed, "", Some("boom")));
    assert_eq!(t.sorted_ids(), vec![1, 8]);
}

#[test]
fn retry_and_removal() {
    let mut t = DownloadTable::new();
    t.insert(1, DownloadState::from(row(1, DownloadStatus::Failed, None)));
    t.insert(2, DownloadState::from(row(2, DownloadStatus::Downloading, None)));
    t.insert(3, DownloadState::from(row(3, DownloadStatus::Downloaded, Some("/f3"))));
    assert_eq!(t.retry_target(0), Some(1));
    assert_eq!(t.retry_target(1), None);
    assert_eq!(t.retry_target(9), None);
    assert!(matches!(t.plan_removal(0, None), RemovalPlan::Nothing));
    assert!(matches!(t.plan_removal(5, Some(1)), RemovalPlan::Nothing));
    match t.plan_removal(1, Some(1)) {
        RemovalPlan::Refused { message } => assert_eq!(message, "cannot remove: download in progress"),
        _ => panic!("expected a refusal"),
    }
    match t.plan_removal(2, Some(1)) {
        RemovalPlan::Remove { library_id, track_id, local_path } => {
            assert_eq!((library_id, track_id, local_path.as_deref()), (1, 3, Some("/f3")));
        }
        _ => panic!("expected a removal"),
    }
}

#[test]
fn playing_from_local_copies() {
    let mut t = DownloadTable::new();
    t.insert(4, DownloadState::from(row(4, DownloadStatus::Downloaded, Some("/c/tracks/h4"))));
    assert_eq!(t.now_playing_id("http://h/api/libraries/1/tracks/12/stream"), Some(12));
    assert_eq!(t.now_playing_id("file:///c/tracks/h4"), Some(4));
    assert_eq!(t.now_playing_id("/c/tracks/h4"), Some(4));
    assert_eq!(t.now_playing_id("/elsewhere"), None);
    let client = Client::new("http://h".to_string(), None);
    assert_eq!(track_url(&client, 1, 4, Some("/c/tracks/h4")), "file:///c/tracks/h4");
    assert_eq!(track_url(&client, 1, 4, None), "http://h/api/libraries/1/tracks/4/stream");
    assert_eq!(playlist_download_message(3, "Mix"), "queued 3 track(s) from Mix for download");
}
