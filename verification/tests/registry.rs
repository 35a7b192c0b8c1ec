use kopuz::config::{MusicService, SavedServer};
use kopuz::schema::{spec_value, toggle_of, value_of, FieldSpec, FieldValue, Icon, Problem, Text};
use kopuz::services::{add_fields, all, detail, problem_text, service_ref, ServerView, URL};
use kopuz::spotify::{
    device_icon, devices, host_error_message, media_key, MediaCommand, SpotifyDevice,
};
use kopuz::schema::{picked_answer, toggled_answer, CUSTOM};

#[test]
fn every_service_is_offered_with_its_form() {
    let services = all();
    assert_eq!(services.len(), 8);
    assert_eq!(services[0].id, "jellyfin");
    assert!(services.iter().any(|s| s.id == "spotify" && s.experimental));
    assert!(services.iter().filter(|s| s.experimental).count() == 1);
    let jellyfin = add_fields(MusicService::Jellyfin);
    assert!(jellyfin.iter().any(|f| f.key == URL));
    let r = service_ref(MusicService::YtMusic);
    assert_eq!(r.id, "ytmusic");
}

#[test]
fn answers_are_read_by_key() {
    let values = vec![FieldValue::new("a", "1"), FieldValue::new("flag", "true"), FieldValue::new("a", "2")];
    assert_eq!(value_of(&values, "a"), Some("1"), "the first answer counts");
    assert_eq!(value_of(&values, "b"), None);
    assert!(values[1].is_on());
    assert!(!values[0].is_on());
    assert!(toggle_of(&values, "flag", false));
    assert!(toggle_of(&values, "missing", true), "unanswered keeps what was held");
    assert!(!toggle_of(&values, "a", true));

    let field = FieldSpec { key: "x".to_string(), value: Some("v".to_string()), ..FieldSpec::default() };
    let fields = vec![FieldSpec::default(), field];
    assert_eq!(spec_value(&fields, "x"), Some("v"));
    assert_eq!(spec_value(&fields, "y"), None);
}

#[test]
fn a_problem_reads_as_its_label() {
    assert_eq!(problem_text(&Problem::on("url", Text::key("server_url_required"))), "server_url_required");
    assert_eq!(problem_text(&Problem::on("url", Text::literal("bad url"))), "bad url");
    assert!(Text::key("a").same_as(&Text::key("a")));
    assert!(!Text::key("a").same_as(&Text::literal("a")));
}

#[test]
fn media_keys_become_player_commands() {
    assert_eq!(media_key("play", None), Some(MediaCommand::Play));
    assert_eq!(media_key("prev", None), Some(MediaCommand::Previous));
    assert_eq!(media_key("seek", Some(42)), Some(MediaCommand::Seek { position_ms: 42 }));
    assert_eq!(media_key("seek", None), None);
    assert_eq!(media_key("shuffle", None), None);
}

#[test]
fn spotify_errors_read_as_advice() {
    assert_eq!(
        host_error_message("account", "x".to_string()),
        "Spotify playback needs a Premium account."
    );
    assert_eq!(host_error_message("license", "L".to_string()), "L");
    assert_eq!(host_error_message("other", "boom".to_string()), "Spotify player error: boom");
}

#[test]
fn the_picker_lists_the_account_devices_but_this_app() {
    assert_eq!(device_icon("Smartphone"), Icon::Class("fa-solid fa-mobile-screen".to_string()));
    assert_eq!(device_icon("AVR"), Icon::Class("fa-solid fa-volume-high".to_string()));
    assert_eq!(device_icon("TV"), Icon::Class("fa-solid fa-tv".to_string()));
    assert_eq!(device_icon("Computer"), Icon::Class("fa-solid fa-computer".to_string()));
    let device = |id: &str, kind: &str, active: bool| SpotifyDevice {
        id: id.to_string(),
        name: format!("{id} name"),
        kind: kind.to_string(),
        is_active: active,
    };
    let listed = devices(
        vec![device("own", "Computer", false), device("phone", "Smartphone", true), device("tv", "TV", false)],
        Some("own"),
        Some("tv"),
    );
    assert_eq!(listed.len(), 2);
    assert_eq!(listed[0].id, "phone");
    assert!(listed[0].active, "the one playing");
    assert!(listed[1].active, "the one picked");
}

#[test]
fn a_source_line_shows_its_address_or_storefront() {
    let mut apple = SavedServer::new("Apple".to_string(), String::new(), MusicService::AppleMusic);
    apple.apple_music_storefront = "de".to_string();
    assert_eq!(detail(&ServerView::of_saved(&apple)).as_deref(), Some("DE"));
    let jf = SavedServer::new("Home".to_string(), "https://jf".to_string(), MusicService::Jellyfin);
    assert_eq!(detail(&ServerView::of_saved(&jf)).as_deref(), Some("https://jf"));
    let yt = SavedServer::new("YT".to_string(), String::new(), MusicService::YtMusic);
    assert_eq!(detail(&ServerView::of_saved(&yt)), None);
}

#[test]
fn a_choice_picker_sends_the_entry_or_an_empty_typed_answer() {
    assert_eq!(picked_answer("storefront", "de"), FieldValue::new("storefront", "de"));
    assert_eq!(picked_answer("storefront", CUSTOM), FieldValue::new("storefront", ""));
    assert_eq!(toggled_answer("prefer_active_device", true), FieldValue::new("prefer_active_device", "true"));
    assert_eq!(toggled_answer("prefer_active_device", false).value, "false");
}
