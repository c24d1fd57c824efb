use mutui::api::{Client, Library, PlaylistTrack, Track};
use mutui::db::{DownloadRow, DownloadStatus};
use mutui::tags::{fmt_tag, parse_tag_input, track_id_from_url};
use mutui::ui::input::{InputState, Mode};
use mutui::ui::layout::{centered_rect, Area};
use mutui::ui::marks::Marks;
use mutui::ui::model::{KeyCode, RepeatMode, SortKey, Tab};
use mutui::ui::notices::removed_marked_message;
use mutui::ui::order::cmp_tracks;
use mutui::ui::screens::{detail_rows, entry_number, mark_glyph, playlists_title, tracks_title};
use mutui::ui::select::move_playlist_entry;
use mutui::ui::session::switch_library_name;
use mutui::ui::tabkeys::marks_key;
use mutui::ui::transfers::DownloadTable;
use std::cmp::Ordering;

fn row(track_id: i64) -> DownloadRow {
    DownloadRow {
        library_id: 1,
        track_id,
        hash: String::new(),
        status: DownloadStatus::Queued,
        bytes_downloaded: 0,
        total_bytes: 0,
        local_path: None,
        error: None,
    }
}

fn song(id: i64, artist: &str, title: &str) -> Track {
    Track {
        id,
        hash: None,
        original_filename: None,
        title: Some(title.to_string()),
        album: None,
        artist: Some(artist.to_string()),
        album_artist: None,
        track_no: None,
        disc_no: None,
        duration_ms: None,
        year: None,
        bitrate: None,
        sample_rate: None,
        channels: None,
        added_at: 0,
    }
}

#[test]
fn download_rows_ascend_by_track_id() {
    let t = DownloadTable::from_rows(&vec![row(5), row(3)]);
    assert_eq!(t.sorted_ids(), vec![3, 5]);
    assert_eq!(t.len(), 2);
}

#[test]
fn marks_toggle_and_clear() {
    let mut m = Marks::new();
    assert_eq!(m.count(), 0);
    m.toggle(7);
    m.toggle(9);
    assert!(m.is_marked(7) && m.is_marked(9));
    assert_eq!(m.count(), 2);
    m.toggle(7);
    assert!(!m.is_marked(7));
    assert_eq!(m.marked_rows(&[9, 8, 7]), vec![0]);
    m.clear();
    assert_eq!(m.count(), 0);
}

#[test]
fn marks_follow_a_run() {
    let keys = [10, 11, 12, 13, 14];
    let mut m = Marks::new();
    m.toggle(14);
    m.start_range(1, 11);
    assert!(m.in_range());
    m.follow(3, &keys);
    assert_eq!(m.marked_rows(&keys), vec![1, 2, 3, 4]);
    m.follow(0, &keys);
    assert_eq!(m.marked_rows(&keys), vec![0, 1, 4]);
    m.end_range();
    assert!(!m.in_range());
    m.follow(4, &keys);
    assert_eq!(m.marked_rows(&keys), vec![0, 1, 4]);
}

#[test]
fn marking_keys() {
    let keys = [0, 1, 2];
    let mut m = Marks::new();
    assert_eq!(marks_key(&mut m, true, KeyCode::Char('x'), Some(1), &keys), (false, true));
    assert!(m.is_marked(1));
    assert_eq!(marks_key(&mut m, false, KeyCode::Char('x'), Some(2), &keys), (false, false));
    assert!(!m.is_marked(2));
    assert_eq!(marks_key(&mut m, true, KeyCode::Char('V'), Some(2), &keys), (false, true));
    assert!(m.in_range() && m.is_marked(2));
    assert_eq!(marks_key(&mut m, true, KeyCode::Esc, Some(2), &keys), (true, false));
    assert!(!m.in_range() && m.count() == 2);
    assert_eq!(marks_key(&mut m, true, KeyCode::Esc, Some(2), &keys), (true, false));
    assert_eq!(m.count(), 0);
    assert_eq!(marks_key(&mut m, true, KeyCode::Esc, Some(2), &keys), (false, false));
    assert_eq!(marks_key(&mut m, true, KeyCode::Tab, Some(2), &keys), (false, false));
    assert_eq!(marks_key(&mut m, true, KeyCode::Char('x'), None, &keys), (false, true));
    assert_eq!(m.count(), 0);
}

#[test]
fn songs_marking_needs_the_list() {
    let mut s = InputState {
        mode: Mode::Normal,
        tab: Tab::Songs,
        show_help: false,
        show_tags: false,
        show_details: false,
        repeat: RepeatMode::Off,
    };
    assert!(s.songs_marks_active());
    s.show_tags = true;
    assert!(!s.songs_marks_active());
    s.show_tags = false;
    s.mode = Mode::Filter(String::new());
    assert!(!s.songs_marks_active());
}

#[test]
fn playlist_pane_labels() {
    assert_eq!(playlists_title(4), " Playlists (4) ");
    assert_eq!(entry_number(0), "  1. ");
    assert_eq!(entry_number(41), " 42. ");
    assert_eq!(entry_number(999), "1000. ");
    assert_eq!(entry_number(-5), " -4. ");
    assert_eq!(mark_glyph(true), "✔ ");
    assert_eq!(mark_glyph(false), "  ");
    assert_eq!(tracks_title("Road", 3, 2), " Road (3)  [2 selected] ");
    assert_eq!(removed_marked_message(2, 3), "removed 2/3 from playlist");
}

#[test]
fn overlays_stay_inside_the_screen() {
    let r = Area { x: 3, y: 2, width: 81, height: 27 };
    let c = centered_rect(60, 70, r);
    assert!(c.x >= r.x && c.x + c.width <= r.x + r.width);
    assert!(c.y >= r.y && c.y + c.height <= r.y + r.height);
}

#[test]
fn stream_urls_give_back_their_track() {
    let c = Client::new("http://host:7700/".to_string(), None);
    for (lib, tid) in [(1, 2), (-3, 0), (i64::MAX, i64::MIN), (7, -42)] {
        assert_eq!(track_id_from_url(&c.stream_url(lib, tid)), Some(tid));
    }
}

#[test]
fn parsed_tags_format_and_parse_back() {
    for input in ["  genre : rock ", "rock", ":x", "a:b:c", " mood:  calm  down "] {
        let (ns, val) = parse_tag_input(input).unwrap();
        assert_eq!(parse_tag_input(&fmt_tag(&ns, &val)), Some((ns, val)));
    }
}

#[test]
fn track_comparison_is_a_total_preorder() {
    let ts = [song(1, "b", "x"), song(2, "A", "y"), song(3, "b", "x"), song(4, "c", "a")];
    for key in [SortKey::Default, SortKey::Title, SortKey::Artist] {
        for a in &ts {
            assert_eq!(cmp_tracks(a, a, key), Ordering::Equal);
            for b in &ts {
                assert_eq!(cmp_tracks(a, b, key), cmp_tracks(b, a, key).reverse());
                for c in &ts {
                    if cmp_tracks(a, b, key) != Ordering::Greater && cmp_tracks(b, c, key) != Ordering::Greater {
                        assert_ne!(cmp_tracks(a, c, key), Ordering::Greater);
                    }
                }
            }
        }
    }
}

#[test]
fn overlay_takes_the_middle_share() {
    let full = Area { x: 0, y: 0, width: 100, height: 100 };
    assert_eq!(centered_rect(60, 60, full), Area { x: 20, y: 20, width: 60, height: 60 });
    for (px, py, r) in [
        (60u16, 70u16, Area { x: 3, y: 2, width: 81, height: 27 }),
        (50, 50, Area { x: 0, y: 0, width: 7, height: 3 }),
        (70, 80, Area { x: 10, y: 5, width: 200, height: 61 }),
        (33, 99, Area { x: 1, y: 1, width: 33, height: 17 }),
    ] {
        let c = centered_rect(px, py, r);
        let near = |cells: i64, hundredths: i64| (100 * cells - hundredths).abs() < 100;
        let (mx, my) = (((100 - px) / 2) as i64, ((100 - py) / 2) as i64);
        assert!(near(c.x as i64, 100 * r.x as i64 + r.width as i64 * mx));
        assert!(near((c.x + c.width) as i64, 100 * r.x as i64 + r.width as i64 * (mx + px as i64)));
        assert!(near(c.y as i64, 100 * r.y as i64 + r.height as i64 * my));
        assert!(near((c.y + c.height) as i64, 100 * r.y as i64 + r.height as i64 * (my + py as i64)));
    }
}

#[test]
fn moving_an_entry_moves_it_whole() {
    let mk = |id: i64, title: &str| PlaylistTrack {
        track_id: id,
        position: 7,
        added_at: id * 10,
        title: Some(title.to_string()),
        album: None,
        artist: Some(format!("artist {id}")),
        album_artist: None,
        duration_ms: Some(id),
    };
    let mut v = vec![mk(1, "one"), mk(2, "two"), mk(3, "three")];
    assert_eq!(move_playlist_entry(&mut v, 2, -1), Some(1));
    let mut want = vec![mk(1, "one"), mk(3, "three"), mk(2, "two")];
    for (k, e) in want.iter_mut().enumerate() {
        e.position = k as i64;
    }
    let fields = |e: &PlaylistTrack| {
        (e.track_id, e.position, e.added_at, e.title.clone(), e.album.clone(), e.artist.clone(), e.album_artist.clone(), e.duration_ms)
    };
    assert_eq!(v.iter().map(fields).collect::<Vec<_>>(), want.iter().map(fields).collect::<Vec<_>>());
}

#[test]
fn stream_urls_of_untrimmed_bases() {
    for base in ["http://h:1", "http://h:1///", "https://music.example/root/"] {
        let c = Client::new(base.to_string(), Some("t".to_string()));
        assert_eq!(track_id_from_url(&c.stream_url(3, 77)), Some(77));
    }
}

#[test]
fn switching_library_records_its_name() {
    let libs = vec![
        Library { id: 1, name: "Main".to_string(), path: String::new() },
        Library { id: 2, name: "Pods".to_string(), path: String::new() },
    ];
    assert_eq!(switch_library_name(&libs, Some(2), 2), None);
    assert_eq!(switch_library_name(&libs, Some(1), 2), Some("Pods".to_string()));
    assert_eq!(switch_library_name(&libs, None, 9), Some(String::new()));
}

#[test]
fn file_formats_follow_path_extensions() {
    for name in [
        "song.flac", "dir/song.mp3", ".hidden", "a/.hidden", "no_ext", "a.b.c", "...", "..", "a/..", "a/.",
        "./x.ogg", "dir.d/", "dir.d//", "/", "", "x.", "a/b.tar.gz/", "./", ".", "/r/./t.wav/.",
    ] {
        let mut t = song(1, "a", "b");
        t.original_filename = Some(name.to_string());
        let rows = detail_rows(&t, None, None);
        let format = rows.iter().find(|r| r.label == "Format").unwrap().value.clone();
        let want = std::path::Path::new(name)
            .extension()
            .and_then(|e| e.to_str())
            .map(|e| e.to_uppercase())
            .unwrap_or_else(|| "—".to_string());
        assert_eq!(format, want, "path {name:?}");
    }
}
