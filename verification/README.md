# mutui

A terminal client for a Muserv music library server: browse and filter a
library's tracks, sort them, search by tag, manage playlists and tags, queue
tracks in mpv, keep local copies of tracks, and run the server's downloader
scripts.

The decisions of the client are a library whose behaviour is stated in
contracts and proved with Verus; the program around it does the input and
output.

## Layout

- `src/` — the verified library.
  - `api.rs` — the server's data model, request paths, reply statuses,
    paged track listing, query percent-encoding.
  - `tags.rs` — tags as typed and shown; track ids in stream URLs.
  - `db.rs` — download states as stored.
  - `downloads.rs` — download jobs and reports, the SHA-256 content check.
  - `storage.rs` — the cache directory and the paths inside it.
  - `text.rs` — trimming, splitting, searching, decimal formatting and
    parsing.
  - `ui/` — the interface's decisions: key handling (`input.rs`,
    `tabkeys.rs`), the songs list (`songs.rs`, `order.rs`), selections
    (`select.rs`), marks on list rows (`marks.rs`), downloads (`transfers.rs`), the uploads tab
    (`uploads.rs`), libraries, start-up, reloads and settings
    (`session.rs`), overlay placement (`layout.rs`), and the texts shown
    (`screens.rs`, `format.rs`, `notices.rs`).
- `app/` — the program: command line, settings file, HTTP, SQLite cache,
  download threads, the mpv player, and drawing with ratatui.
- `tests/` — tests of the library on concrete values.
