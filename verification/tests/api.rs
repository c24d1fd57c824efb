use mutui::api::{
    add_to_playlist_request, add_user_tag_request, check_status, delete_playlist_request,
    downloader_job_status_request, get_playlist_tracks_request, list_downloaders_request,
    list_libraries_request, list_track_tags_request, percent_encode, playlists_containing_track_request,
    remove_from_playlist_request, remove_user_tag_request, rename_playlist_request,
    run_downloader_request, search_request, set_playlist_tracks_request, Client, DownloaderJob,
    Method, PlaylistTrack, Track, TrackPager, TrackTag, TRACKS_PAGE_LIMIT,
};
use mutui::tags::{fmt_tag, parse_tag_input, track_id_from_url};

fn track(id: i64) -> Track {
    Track {
        id,
        hash: None,
        original_filename: None,
        title: None,
        album: None,
        artist: None,
        album_artist: None,
        track_no: None,
        disc_no: None,
        duration_ms: None,
        year: None,
        bitrate: None,
        sample_rate: None,
        channels: None,
        added_at: 0,
    }
}

#[test]
fn query_values_are_percent_encoded() {
    assert_eq!(percent_encode("abc-_.~XYZ019"), "abc-_.~XYZ019");
    assert_eq!(percent_encode("a b&c=d"), "a%20b%26c%3Dd");
    assert_eq!(percent_encode("é"), "%C3%A9");
    assert_eq!(percent_encode("genre:rock/pop"), "genre%3Arock%2Fpop");
    assert_eq!(percent_encode(""), "");
}

#[test]
fn client_base_url_drops_trailing_slashes() {
    let a = Client::new("http://host:8080/".to_string(), None);
    let b = Client::new("http://host:8080".to_string(), None);
    let c = Client::new("http://host:8080///".to_string(), None);
    assert_eq!(a.url("/api/libraries"), "http://host:8080/api/libraries");
    assert_eq!(b.url("/api/libraries"), a.url("/api/libraries"));
    assert_eq!(c.url("/x"), "http://host:8080/x");
}

#[test]
fn client_auth_header_and_stream_url() {
    let c = Client::new("http://h".to_string(), Some("tok".to_string()));
    assert_eq!(c.auth_header_value(), Some("Bearer tok".to_string()));
    assert_eq!(c.stream_url(3, 42), "http://h/api/libraries/3/tracks/42/stream");
    let anon = Client::new("http://h".to_string(), None);
    assert_eq!(anon.auth_header_value(), None);
    assert_eq!(anon.stream_url(-1, 0), "http://h/api/libraries/-1/tracks/0/stream");
}

#[test]
fn request_paths_and_methods() {
    let r = list_libraries_request();
    assert_eq!((r.method, r.path.as_str()), (Method::Get, "/api/libraries"));
    let r = search_request(2, "artist:Daft Punk");
    assert_eq!(r.method, Method::Get);
    assert_eq!(r.path, "/api/libraries/2/search?q=artist%3ADaft%20Punk");
    let r = list_track_tags_request(2, 7);
    assert_eq!((r.method, r.path.as_str()), (Method::Get, "/api/libraries/2/tracks/7/tags"));
    let r = add_user_tag_request(2, 7);
    assert_eq!((r.method, r.path.as_str()), (Method::Post, "/api/libraries/2/tracks/7/tags"));
    let r = remove_user_tag_request(2, 7, 9);
    assert_eq!((r.method, r.path.as_str()), (Method::Delete, "/api/libraries/2/tracks/7/tags/9"));
    let r = rename_playlist_request(2, 5);
    assert_eq!(r.path, "/api/libraries/2/playlists/5");
    let r = delete_playlist_request(2, 5);
    assert_eq!((r.method, r.path.as_str()), (Method::Delete, "/api/libraries/2/playlists/5"));
    let r = get_playlist_tracks_request(2, 5);
    assert_eq!((r.method, r.path.as_str()), (Method::Get, "/api/libraries/2/playlists/5/tracks"));
    let r = playlists_containing_track_request(2, 7);
    assert_eq!(r.path, "/api/libraries/2/tracks/7/playlists");
    let r = add_to_playlist_request(2, 5);
    assert_eq!((r.method, r.path.as_str()), (Method::Post, "/api/libraries/2/playlists/5/tracks"));
    let r = set_playlist_tracks_request(2, 5);
    assert_eq!((r.method, r.path.as_str()), (Method::Put, "/api/libraries/2/playlists/5/tracks"));
    let r = remove_from_playlist_request(2, 5, 7);
    assert_eq!((r.method, r.path.as_str()), (Method::Delete, "/api/libraries/2/playlists/5/tracks/7"));
    let r = list_downloaders_request(2);
    assert_eq!(r.path, "/api/libraries/2/downloaders");
    let r = run_downloader_request(2, "yt");
    assert_eq!((r.method, r.path.as_str()), (Method::Post, "/api/libraries/2/downloaders/yt/run"));
    let r = downloader_job_status_request(2, "job-1");
    assert_eq!(r.path, "/api/libraries/2/downloaders/jobs/job-1");
}

#[test]
fn status_codes_are_judged() {
    assert!(check_status(200, String::new()).is_ok());
    assert!(check_status(204, String::new()).is_ok());
    assert!(check_status(299, String::new()).is_ok());
    let e = check_status(404, "not found".to_string()).unwrap_err();
    assert_eq!(e.status, 404);
    assert_eq!(e.message(), "status 404: not found");
    assert!(check_status(199, String::new()).is_err());
    assert!(check_status(300, String::new()).is_err());
}

#[test]
fn pager_collects_until_short_page() {
    let mut p = TrackPager::new(4);
    assert!(!p.finished());
    assert_eq!(p.next_request().path, "/api/libraries/4/tracks?limit=1000&offset=0");
    let full: Vec<Track> = (0..TRACKS_PAGE_LIMIT).map(track).collect();
    p.receive(full);
    assert!(!p.finished());
    assert_eq!(p.next_request().path, "/api/libraries/4/tracks?limit=1000&offset=1000");
    p.receive(vec![track(5000), track(5001)]);
    assert!(p.finished());
    let all = p.into_tracks();
    assert_eq!(all.len(), 1002);
    assert_eq!(all[0].id, 0);
    assert_eq!(all[1001].id, 5001);
}

#[test]
fn track_display_fallbacks() {
    let mut t = track(1);
    assert_eq!(t.display_title(), "(untitled)");
    assert_eq!(t.display_artist(), "—");
    assert_eq!(t.display_album(), "—");
    t.original_filename = Some("a.flac".to_string());
    t.album_artist = Some("VA".to_string());
    assert_eq!(t.display_title(), "a.flac");
    assert_eq!(t.display_artist(), "VA");
    t.title = Some("Song".to_string());
    t.artist = Some("Band".to_string());
    t.album = Some("LP".to_string());
    assert_eq!(t.display_title(), "Song");
    assert_eq!(t.display_artist(), "Band");
    assert_eq!(t.display_album(), "LP");
}

#[test]
fn playlist_track_display() {
    let mut pt = PlaylistTrack {
        track_id: 1,
        position: 0,
        added_at: 0,
        title: None,
        album: None,
        artist: None,
        album_artist: Some("AA".to_string()),
        duration_ms: None,
    };
    assert_eq!(pt.display_title(), "(untitled)");
    assert_eq!(pt.display_artist(), "AA");
    pt.artist = Some("A".to_string());
    pt.title = Some("T".to_string());
    assert_eq!(pt.display_artist(), "A");
    assert_eq!(pt.display_title(), "T");
}

#[test]
fn downloader_job_done_states() {
    let mut j = DownloaderJob {
        id: "1".to_string(),
        script: "s".to_string(),
        urls: vec![],
        current_index: None,
        status: "running".to_string(),
        log: vec![],
        summary: None,
        started_at: String::new(),
        finished_at: None,
    };
    assert!(!j.is_done());
    j.status = "completed".to_string();
    assert!(j.is_done());
    j.status = "failed".to_string();
    assert!(j.is_done());
}

#[test]
fn tags_are_shown_and_read_back() {
    let tag = TrackTag { tag_id: 1, namespace: "genre".to_string(), value: "rock".to_string() };
    assert_eq!(tag.display(), "genre:rock");
    assert_eq!(fmt_tag("", "loud"), ":loud");
    assert_eq!(parse_tag_input("  genre : rock "), Some(("genre".to_string(), "rock".to_string())));
    assert_eq!(parse_tag_input("mood"), Some((String::new(), "mood".to_string())));
    assert_eq!(parse_tag_input("a:b:c"), Some(("a".to_string(), "b:c".to_string())));
    assert_eq!(parse_tag_input("genre:"), None);
    assert_eq!(parse_tag_input("   "), None);
    // What is shown reads back as the same tag.
    let shown = fmt_tag("genre", "rock");
    assert_eq!(parse_tag_input(&shown), Some(("genre".to_string(), "rock".to_string())));
}

#[test]
fn track_ids_are_read_from_stream_urls() {
    assert_eq!(track_id_from_url("http://h/api/libraries/1/tracks/42/stream"), Some(42));
    assert_eq!(track_id_from_url("http://h/api/libraries/1/tracks/-3/stream"), Some(-3));
    assert_eq!(track_id_from_url("http://h/api/libraries/1/tracks/x/stream"), None);
    assert_eq!(track_id_from_url("http://h/api/libraries/1/tracks"), None);
    assert_eq!(track_id_from_url("file:///music/a.flac"), None);
    assert_eq!(track_id_from_url("/tracks/9223372036854775807"), Some(i64::MAX));
    assert_eq!(track_id_from_url("/tracks/9223372036854775808"), None);
    assert_eq!(track_id_from_url("/tracks/+7"), Some(7));
}
