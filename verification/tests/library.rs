use kopuz::config::{AppConfig, FetchStrategy, MusicService, SavedLocalSource, Source, YtdlpOptions};
use kopuz::error::ErrorCode;
use kopuz::library::{
    apple_catalog_id, assemble, lyrics_found, lyrics_target, matches_search, narrow_rows, normalize_album_id, order_by_keys, radio_track,
    recent_rows, scan_roots, window, LyricsView, Page, RowFacts, StationFacts, TransientTracks,
    DEFAULT_PAGE_LIMIT, LIVE_RADIO, MAX_TRANSIENT_TRACKS,
};
use kopuz::library::{matches_lowered, narrow_lowered, plan_missing, playlist_index};

fn keys(items: &[&str]) -> Vec<String> {
    items.iter().map(|s| s.to_string()).collect()
}

fn found(items: &[(&str, &str)]) -> Vec<(String, String)> {
    items.iter().map(|(k, t)| (k.to_string(), t.to_string())).collect()
}

#[test]
fn a_default_page_starts_at_the_top() {
    let page = Page::default();
    assert_eq!(page.offset, 0);
    assert_eq!(page.limit, DEFAULT_PAGE_LIMIT);
}

#[test]
fn tracks_pages_and_searches_the_database() {
    let rows: Vec<u32> = (0..5).collect();
    let (total, items) = window(&rows, Page { offset: 0, limit: 2 });
    assert_eq!(total, 5);
    assert_eq!(items.len(), 2);
    let (total, items) = window(&rows, Page { offset: 4, limit: 200 });
    assert_eq!(total, 5);
    assert_eq!(items, vec![4]);
    let (_, items) = window(&rows, Page { offset: 9, limit: 2 });
    assert!(items.is_empty());

    assert!(matches_search("song 4", "Ada", "album 0", "song 4"));
    assert!(matches_search("Song 4", "Ada", "album 0", "SONG"));
    assert!(matches_search("x", "Boris", "y", "bor"));
    assert!(!matches_search("song 3", "Ada", "album 1", "song 4"));
}

#[test]
fn a_server_album_id_keeps_its_service_and_id() {
    assert_eq!(normalize_album_id("subsonic:al-1:extra"), "subsonic:al-1");
    assert_eq!(normalize_album_id("jellyfin:abc"), "jellyfin:abc");
    assert_eq!(normalize_album_id("custom:x:y:z"), "custom:x");
    assert_eq!(normalize_album_id("ytmusic:a:b"), "ytmusic:a:b");
    assert_eq!(normalize_album_id("plain"), "plain");
}

#[test]
fn materialize_resolves_database_contexts() {
    let library = found(&[("/lib/0.flac", "song 0"), ("/lib/2.flac", "song 2")]);
    let tracks = assemble(&keys(&["/lib/2.flac", "/lib/0.flac", "/nope"]), library);
    assert_eq!(tracks.len(), 2);
    assert_eq!(tracks[0], "song 2");
    assert_eq!(tracks[1], "song 0");

    let radio = radio_track("st", "hi", None);
    assert_eq!(radio.duration, u64::MAX);
    assert_eq!(radio.title, "hi");
    assert_eq!(radio.key, "radio:st:hi");
    assert_eq!(radio.artist, LIVE_RADIO);
    assert_eq!(radio.album, LIVE_RADIO);
}

/// A row from a live listing is not in the database and is not a file on
/// disk, so without the transient cache it would silently vanish from a
/// queue built by key.
#[test]
fn materialize_resolves_a_track_the_database_has_never_seen() {
    let mut transient: TransientTracks<String> = TransientTracks::new();
    let from_cache = |cache: &TransientTracks<String>, key: &str| -> Vec<(String, String)> {
        cache
            .get(key)
            .map(|t| vec![(key.to_string(), t.clone())])
            .unwrap_or_default()
    };
    let library = found(&[("/lib/0.flac", "song 0")]);

    let tracks = assemble(&keys(&["vid-1"]), from_cache(&transient, "vid-1"));
    assert!(tracks.is_empty(), "an unregistered catalog key resolves to nothing");

    transient.register("vid-1".to_string(), "from the catalog".to_string());
    let mut rows = library.clone();
    rows.extend(from_cache(&transient, "vid-1"));
    let tracks = assemble(&keys(&["vid-1", "/lib/0.flac"]), rows);
    assert_eq!(tracks.len(), 2, "the catalog row joins the library one");
    assert_eq!(tracks[0], "from the catalog");
    assert_eq!(tracks[1], "song 0");
}

#[test]
fn a_key_named_twice_is_queued_once_and_the_last_find_wins() {
    let rows = found(&[("a", "old a"), ("b", "b"), ("a", "new a")]);
    let tracks = assemble(&keys(&["a", "b", "a", "c"]), rows);
    assert_eq!(tracks, vec!["new a".to_string(), "b".to_string()]);
}

#[test]
fn the_transient_cache_forgets_the_least_recent_first() {
    let mut cache: TransientTracks<usize> = TransientTracks::new();
    for n in 0..MAX_TRANSIENT_TRACKS {
        cache.register(format!("k{n}"), n);
    }
    assert_eq!(cache.get("k0"), Some(&0));
    cache.register("k0".to_string(), 100);
    assert_eq!(cache.get("k0"), Some(&100), "a re-registered key is refreshed");
    assert_eq!(cache.get("k1"), Some(&1), "full, but the key was not new");
    cache.register("new".to_string(), 7);
    assert_eq!(cache.get("new"), Some(&7));
    assert_eq!(cache.get("k1"), None, "the least recently registered went");
    assert_eq!(cache.get("k0"), Some(&100));
    assert_eq!(cache.get("k2"), Some(&2));
    assert_eq!(cache.len(), MAX_TRANSIENT_TRACKS);
}

#[test]
fn recents_come_back_in_play_order() {
    let played = keys(&["c", "a", "missing", "b"]);
    let rows = keys(&["a", "b", "c", "a"]);
    assert_eq!(order_by_keys(&played, &rows), vec![2, 0, 1]);
    let (total, page) = recent_rows(&played, &rows, Page { offset: 1, limit: 1 });
    assert_eq!(total, 3);
    assert_eq!(page, vec![0]);
}

#[test]
fn narrowed_listings_filter_by_search_and_favorites() {
    let row = |key: &str, title: &str| RowFacts {
        key: key.to_string(),
        title: title.to_string(),
        artist: "Ada".to_string(),
        album: "First".to_string(),
    };
    let rows = vec![row("k0", "song 0"), row("k1", "song 1"), row("k2", "other")];
    let favorites = keys(&["k1", "k2"]);
    assert_eq!(narrow_rows(&rows, None, None, &favorites), vec![0, 1, 2]);
    assert_eq!(narrow_rows(&rows, Some(""), None, &favorites), vec![0, 1, 2]);
    assert_eq!(narrow_rows(&rows, Some("SONG"), None, &favorites), vec![0, 1]);
    assert_eq!(narrow_rows(&rows, Some("song"), Some(true), &favorites), vec![1]);
    assert_eq!(narrow_rows(&rows, None, Some(false), &favorites), vec![0]);
}

#[test]
fn a_radio_row_is_seeded_from_the_station() {
    let station = StationFacts {
        name: "Nightwave".to_string(),
        static_artist: None,
        streams: vec![
            ("lo".to_string(), "Low bitrate".to_string()),
            ("hi".to_string(), "High bitrate".to_string()),
        ],
    };
    let row = radio_track("nw", "hi", Some(&station));
    assert_eq!(row.title, "Nightwave");
    assert_eq!(row.artist, "High bitrate");

    let blank = StationFacts {
        name: "  ".to_string(),
        static_artist: Some(" ".to_string()),
        streams: Vec::new(),
    };
    let row = radio_track("nw", "hi", Some(&blank));
    assert_eq!(row.title, "hi");
    assert_eq!(row.artist, LIVE_RADIO);

    let fixed = StationFacts {
        name: "N".to_string(),
        static_artist: Some("DJ".to_string()),
        streams: vec![("hi".to_string(), "High".to_string())],
    };
    assert_eq!(radio_track("nw", "hi", Some(&fixed)).artist, "DJ");
}

#[test]
fn a_scan_walks_the_default_library_then_each_named_one() {
    let config = AppConfig {
        active_source: Source::Local,
        server: None,
        servers: Vec::new(),
        local_sources: vec![SavedLocalSource {
            id: "local:v".to_string(),
            name: "Vinyl".to_string(),
            directories: keys(&["/vinyl"]),
        }],
        music_directory: keys(&["/music", "/more"]),
        server_folders: Vec::new(),
        spotify_browser: None,
        spotify_prefer_active_device: false,
        auto_fetch_covers: true,
        cover_fetch_strategy: FetchStrategy::MusicBrainzFirst,
        ytdlp_output_dir: String::new(),
        ytdlp_options: YtdlpOptions {
            embed_metadata: false,
            embed_thumbnail: false,
            embed_chapters: false,
            embed_subs: false,
            embed_info_json: false,
            write_thumbnail: false,
            write_description: false,
            write_info_json: false,
            write_subs: false,
            write_auto_subs: false,
            write_comments: false,
            sponsorblock: false,
            sponsorblock_mark: false,
            split_chapters: false,
            postprocess_thumbnail_square: false,
            no_playlist: false,
            xattrs: false,
            no_mtime: false,
            convert_thumbnail: String::new(),
            rate_limit: String::new(),
            cookies_from_browser: String::new(),
            js_runtimes: String::new(),
            audio_quality: 0,
        },
        ytdlp_history: Vec::new(),
        offline_tracks: Vec::new(),
    };
    let roots = scan_roots(&config);
    assert_eq!(
        roots,
        vec![
            (Source::Local, keys(&["/music", "/more"])),
            (Source::LocalLibrary("local:v".to_string()), keys(&["/vinyl"])),
        ]
    );
}

#[test]
fn lyrics_are_asked_for_known_tracks_that_are_not_radio() {
    assert!(lyrics_target(Some(200)).is_ok());
    let e = lyrics_target(None).expect_err("unknown");
    assert_eq!(e.code, ErrorCode::NotFound);
    assert_eq!(e.message, "unknown track key");
    let e = lyrics_target(Some(u64::MAX)).expect_err("radio");
    assert_eq!(e.code, ErrorCode::InvalidInput);
    assert_eq!(
        apple_catalog_id(Some(MusicService::AppleMusic), true, "applemusic:123").as_deref(),
        Some("123")
    );
    assert_eq!(apple_catalog_id(Some(MusicService::AppleMusic), false, "applemusic:123"), None);
    assert_eq!(apple_catalog_id(Some(MusicService::Jellyfin), true, "applemusic:123"), None);
    assert_eq!(apple_catalog_id(Some(MusicService::AppleMusic), true, "/lib/a.flac"), None);
    let words = LyricsView { plain: Some("la".to_string()), synced: Vec::new() };
    assert_eq!(lyrics_found(Some(words.clone())), Ok(words));
    assert_eq!(lyrics_found(None).expect_err("none").message, "no lyrics found");
}

#[test]
fn a_playlist_queue_plays_the_first_playlist_of_that_id() {
    let ids = vec!["p1".to_string(), "p2".to_string(), "p2".to_string()];
    assert_eq!(playlist_index(&ids, "p2").expect("stored"), 1);
    let e = playlist_index(&ids, "p9").expect_err("unknown");
    assert_eq!(e.code, ErrorCode::NotFound);
    assert_eq!(e.message, "playlist not found");
}

#[test]
fn a_lowercased_search_matches_as_given() {
    assert!(matches_lowered("song 4", "ada", "album 0", "song"));
    assert!(!matches_lowered("song 4", "ada", "album 0", "SONG"), "the needle is taken as lowercased");
    assert!(matches_lowered("x", "boris", "y", "bor"));
    let row = |key: &str, title: &str| RowFacts {
        key: key.to_string(),
        title: title.to_string(),
        artist: "ada".to_string(),
        album: "first".to_string(),
    };
    let rows = vec![row("k0", "song 0"), row("k1", "song 1"), row("k2", "other")];
    let favorites = keys(&["k1"]);
    assert_eq!(narrow_lowered(&rows, Some("song"), None, &favorites), vec![0, 1]);
    assert_eq!(narrow_lowered(&rows, Some("song"), Some(false), &favorites), vec![0]);
    assert_eq!(narrow_lowered(&rows, None, Some(true), &favorites), vec![1]);
}

#[test]
fn keys_the_database_missed_come_from_the_registry_or_from_disk() {
    let mut held: TransientTracks<String> = TransientTracks::new();
    held.register("yt:1".to_string(), "Remote song".to_string());
    let asked = keys(&["db:1", "yt:1", "/music/a.flac", "yt:1"]);
    let known = keys(&["db:1"]);
    assert_eq!(plan_missing(&asked, &known, &held), (vec![1, 3], vec![2]));
    assert_eq!(plan_missing(&asked, &asked, &held), (Vec::new(), Vec::new()));
}
