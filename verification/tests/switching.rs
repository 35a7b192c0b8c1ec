use kopuz::config::{
    AppConfig, FetchStrategy, MusicService, OfflineTrack, SavedLocalSource, SavedServer, Source,
    YtdlpOptions,
};
use kopuz::config_service::{find_saved_server, set_offline_track, switch_source, StoredCredentials};
use kopuz::error::ErrorCode;
use kopuz::source_service::{check_local_delete, delete_server, remove_local_source, store_local_source};
use kopuz::source_service::{AlbumType, ArtistView, Capabilities, FavoritesSync, PlaylistOps, RadioSupport};
use kopuz::source_service::{check_provision, describe, provisioned};
use kopuz::sources::{CredentialProvision, SignInKind};

fn options() -> YtdlpOptions {
    YtdlpOptions {
        embed_metadata: false,
        embed_thumbnail: false,
        embed_chapters: false,
        embed_subs: false,
        embed_info_json: false,
        write_thumbnail: false,
        write_description: false,
        write_info_json: false,
        write_subs: false,
        write_auto_subs: false,
        write_comments: false,
        sponsorblock: false,
        sponsorblock_mark: false,
        split_chapters: false,
        postprocess_thumbnail_square: false,
        no_playlist: false,
        xattrs: false,
        no_mtime: false,
        convert_thumbnail: String::new(),
        rate_limit: String::new(),
        cookies_from_browser: String::new(),
        js_runtimes: String::new(),
        audio_quality: 0,
    }
}

fn server(id: &str, service: MusicService) -> SavedServer {
    let mut s = SavedServer::new(format!("{id} name"), format!("https://{id}"), service);
    s.id = id.to_string();
    s
}

fn configured() -> AppConfig {
    AppConfig {
        active_source: Source::Local,
        server: None,
        servers: vec![server("jf", MusicService::Jellyfin), server("yt", MusicService::YtMusic)],
        local_sources: vec![SavedLocalSource {
            id: "local:v".to_string(),
            name: "Vinyl".to_string(),
            directories: vec!["/vinyl".to_string()],
        }],
        music_directory: vec!["/music".to_string()],
        server_folders: Vec::new(),
        spotify_browser: None,
        spotify_prefer_active_device: false,
        auto_fetch_covers: true,
        cover_fetch_strategy: FetchStrategy::MusicBrainzFirst,
        ytdlp_output_dir: String::new(),
        ytdlp_options: options(),
        ytdlp_history: Vec::new(),
        offline_tracks: Vec::new(),
    }
}

#[test]
fn a_switch_loads_the_credentials_kept_for_the_server() {
    let mut config = configured();
    let usable = switch_source(
        &mut config,
        Source::Server("jf".to_string()),
        Some(StoredCredentials { access_token: Some("tok".to_string()), user_id: Some("u".to_string()) }),
    )
    .expect("configured")
    .0;
    assert!(usable);
    assert_eq!(config.active_source, Source::Server("jf".to_string()));
    let active = config.server.clone().expect("hydrated");
    assert_eq!(active.access_token.as_deref(), Some("tok"));
    assert_eq!(active.user_id.as_deref(), Some("u"));
    assert_eq!(active.url, "https://jf");

    let (usable, changed) = switch_source(&mut config, Source::Server("jf".to_string()), None).expect("configured");
    assert_eq!(changed, vec!["active_source".to_string(), "server".to_string()]);
    assert!(!usable, "no token means a sign-in is needed");

    let e = switch_source(&mut config, Source::Server("nope".to_string()), None).expect_err("unknown");
    assert_eq!(e.code, ErrorCode::NotFound);
    assert_eq!(config.active_source, Source::Server("jf".to_string()), "a refused switch changes nothing");

    assert!(switch_source(&mut config, Source::Local, None).expect("local").0);
    assert!(config.server.is_none());
}

#[test]
fn an_anonymous_youtube_server_is_usable_without_a_token() {
    let mut config = configured();
    config.servers[1].yt_anonymous = true;
    assert!(switch_source(&mut config, Source::Server("yt".to_string()), None).expect("configured").0);
    assert_eq!(config.server.as_ref().and_then(|s| s.access_token.as_deref()), Some(""));
    assert!(find_saved_server(&config, "yt").is_some());
    assert!(find_saved_server(&config, "zz").is_none());
}

#[test]
fn local_libraries_are_stored_by_id_and_the_default_cannot_go() {
    let mut config = configured();
    let renamed = SavedLocalSource {
        id: "local:v".to_string(),
        name: "Records".to_string(),
        directories: vec!["/records".to_string()],
    };
    store_local_source(&mut config, renamed.clone());
    assert_eq!(config.local_sources, vec![renamed]);
    store_local_source(
        &mut config,
        SavedLocalSource { id: "local:w".to_string(), name: "W".to_string(), directories: Vec::new() },
    );
    assert_eq!(config.local_sources.len(), 2);

    let e = check_local_delete(&config, "local").expect_err("default");
    assert_eq!(e.code, ErrorCode::InvalidInput);
    let e = check_local_delete(&config, "local:zz").expect_err("unknown");
    assert_eq!(e.code, ErrorCode::NotFound);
    assert_eq!(check_local_delete(&config, "local:v").ok(), Some(false));

    config.active_source = Source::LocalLibrary("local:v".to_string());
    assert_eq!(check_local_delete(&config, "local:v").ok(), Some(true));
    remove_local_source(&mut config, "local:v");
    assert_eq!(config.active_source, Source::Local, "the default takes over");
    assert_eq!(config.local_sources.len(), 1);
}

#[test]
fn deleting_the_active_server_falls_back_to_the_library() {
    let mut config = configured();
    switch_source(&mut config, Source::Server("jf".to_string()), None).expect("configured");
    assert_eq!(delete_server(&mut config, "jf"), (Some(MusicService::Jellyfin), true));
    assert_eq!(config.active_source, Source::Local);
    assert!(config.server.is_none());
    assert_eq!(config.servers.len(), 1);
    assert_eq!(delete_server(&mut config, "zz"), (None, false));
    assert_eq!(config.servers.len(), 1);
}

#[test]
fn offline_copies_are_registered_and_forgotten() {
    let mut config = configured();
    set_offline_track(&mut config, "a", Some("/x/a.opus".to_string()));
    set_offline_track(&mut config, "b", Some("/x/b.opus".to_string()));
    set_offline_track(&mut config, "a", Some("/y/a.opus".to_string()));
    let find = |c: &AppConfig, id: &str| -> Option<String> {
        c.offline_tracks.iter().rev().find(|t: &&OfflineTrack| t.item_id == id).map(|t| t.path.clone())
    };
    assert_eq!(find(&config, "a").as_deref(), Some("/y/a.opus"));
    assert_eq!(config.offline_tracks.iter().filter(|t| t.item_id == "a").count(), 1);
    set_offline_track(&mut config, "b", None);
    assert_eq!(find(&config, "b"), None);
    assert_eq!(find(&config, "a").as_deref(), Some("/y/a.opus"));
}

fn caps() -> kopuz::source_service::Capabilities {
    Capabilities {
        edit_tags: false,
        delete_from_disk: false,
        scan_folders: false,
        folders: true,
        browse_folders: true,
        external_devices: false,
        sync: true,
        downloads: true,
        discover: false,
        radio: RadioSupport { track: false, playlist: false },
        playlists: PlaylistOps::Reorder,
        artist_view: ArtistView::Library,
        albums: AlbumType::Standard,
        favorites_sync: FavoritesSync::Instant,
    }
}

#[test]
fn the_secret_a_server_holds_never_reaches_its_description() {
    let mut first = configured();
    let creds = |token: &str| StoredCredentials { access_token: Some(token.to_string()), user_id: Some("u".to_string()) };
    switch_source(&mut first, Source::Server("jf".to_string()), Some(creds("first-secret"))).expect("configured");
    let mut second = configured();
    switch_source(&mut second, Source::Server("jf".to_string()), Some(creds("another-secret"))).expect("configured");
    let a = describe(&first, &first, caps()).expect("described");
    let b = describe(&second, &second, caps()).expect("described");
    assert_eq!(a, b);
    assert!(a.authenticated);
    let shown = format!("{a:?}");
    assert!(!shown.contains("first-secret"));
}

#[test]
fn two_provisions_that_differ_only_in_the_secret_are_described_alike() {
    let mut config = configured();
    switch_source(&mut config, Source::Server("jf".to_string()), None).expect("configured");
    let server = config.server.clone().expect("active");
    let provision = |secret: &str| CredentialProvision {
        server_id: "jf".to_string(),
        secret: secret.to_string(),
        user_id: Some("u".to_string()),
        browser: None,
    };
    let e = check_provision(&provision("")).expect_err("empty");
    assert_eq!(e.code, ErrorCode::InvalidInput);
    let mut first = config.clone();
    first.server = Some(provisioned(server.clone(), provision("one-secret")).expect("provisioned"));
    let mut second = config.clone();
    second.server = Some(provisioned(server, provision("two-secret")).expect("provisioned"));
    let a = describe(&first, &first, caps()).expect("described");
    let b = describe(&second, &second, caps()).expect("described");
    assert_eq!(a, b);
    assert!(a.authenticated);
    assert_eq!(a.sign_in, SignInKind::NotNeeded);
}
