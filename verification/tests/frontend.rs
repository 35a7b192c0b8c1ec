use kopuz::error::ErrorCode;
use kopuz::frontend::{
    chosen_service, is_secret_answer, record_answer, save_blocked,
    after_stream, connection_status, favorites_to_change, lyrics_answer, lyrics_wanted,
    toggle_target, ConnStatus, DevicePoll, PollAnswer, PollStep, StreamEnd, StreamStep,
};
use kopuz::schema::{FieldKind, FieldSpec, FieldValue};
use kopuz::services::all;
use kopuz::sources::{DraftCheck, SignInKind, SourceKind};
use kopuz::frontend::{offered_auth_methods, shown_auth_method, YtAuthMethod};
use kopuz::frontend::oauth_ready;
use kopuz::frontend::reorder_target;
use kopuz::frontend::selected_device;
use kopuz::schema::Icon;
use kopuz::spotify::ExternalDevice;

fn strings(items: &[&str]) -> Vec<String> {
    items.iter().map(|s| s.to_string()).collect()
}

#[test]
fn a_heart_turns_a_track_the_other_way() {
    let current = strings(&["a", "b"]);
    assert_eq!(toggle_target("a", &current), Some(false));
    assert_eq!(toggle_target("c", &current), Some(true));
    assert_eq!(toggle_target("  ", &current), None, "a blank key touches nothing");
}

#[test]
fn a_bulk_heart_skips_tracks_already_there() {
    let current = strings(&["a", "b"]);
    assert_eq!(
        favorites_to_change(&strings(&["a", "c", "b", "d"]), &current, true),
        strings(&["c", "d"])
    );
    assert_eq!(
        favorites_to_change(&strings(&["a", "c", "b"]), &current, false),
        strings(&["a", "b"])
    );
}

#[test]
fn the_indicator_follows_the_probe() {
    assert_eq!(connection_status(SourceKind::Local, None), ConnStatus::Online);
    assert_eq!(connection_status(SourceKind::LocalLibrary, Some(false)), ConnStatus::Online);
    assert_eq!(connection_status(SourceKind::Server, None), ConnStatus::Connecting);
    assert_eq!(connection_status(SourceKind::Server, Some(true)), ConnStatus::Online);
    assert_eq!(connection_status(SourceKind::Server, Some(false)), ConnStatus::Offline);
}

#[test]
fn a_stale_lyrics_answer_is_dropped() {
    assert!(lyrics_wanted("k", false));
    assert!(!lyrics_wanted("", false));
    assert!(!lyrics_wanted("k", true), "radio has no lyrics");
    assert_eq!(lyrics_answer("k", "k", Some("words"), "none"), Some("words"));
    assert_eq!(lyrics_answer("k", "k", None, "none"), Some("none"));
    assert_eq!(lyrics_answer("k", "other", Some("words"), "none"), None);
}

#[test]
fn the_event_stream_reattaches_unless_the_daemon_is_gone() {
    assert_eq!(after_stream(StreamEnd::Closed, false), StreamStep::Stop);
    assert_eq!(after_stream(StreamEnd::Failed(ErrorCode::DaemonGone), false), StreamStep::Stop);
    assert_eq!(after_stream(StreamEnd::Failed(ErrorCode::Internal), false), StreamStep::Reattach);
    assert_eq!(after_stream(StreamEnd::Failed(ErrorCode::Internal), true), StreamStep::Stop);
}

#[test]
fn a_device_code_sign_in_is_paced_and_expires() {
    let mut poll = DevicePoll::new(1, 60);
    assert_eq!(poll.interval, 2);
    assert_eq!(poll.deadline, 300);
    assert_eq!(poll.answered(PollAnswer::SlowDown), PollStep::Again);
    assert_eq!(poll.interval, 7);
    assert!(!poll.slept());
    assert_eq!(poll.waited, 7);
    assert_eq!(poll.answered(PollAnswer::Pending), PollStep::Again);
    assert_eq!(poll.answered(PollAnswer::Authorized), PollStep::Done);
    assert_eq!(poll.answered(PollAnswer::Failed), PollStep::Stop);
    let mut short = DevicePoll::new(200, 300);
    assert!(!short.slept());
    assert!(short.slept(), "400 seconds is past the deadline");
}

#[test]
fn the_add_server_form_holds_the_last_answer_per_field() {
    let services = all();
    assert_eq!(chosen_service(&services, "ytmusic").map(|i| services[i].id.as_str()), Some("ytmusic"));
    assert_eq!(chosen_service(&services, "winamp"), Some(0), "the first offered");
    assert_eq!(chosen_service(&Vec::new(), "ytmusic"), None);

    let browser = DraftCheck { sign_in: SignInKind::Browser, problems: Vec::new() };
    assert!(save_blocked(Some(&browser), false));
    assert!(!save_blocked(Some(&browser), true));
    let password = DraftCheck { sign_in: SignInKind::Password, problems: Vec::new() };
    assert!(!save_blocked(Some(&password), false));
    assert!(!save_blocked(None, false));

    let fields = vec![
        FieldSpec { key: "url".to_string(), kind: FieldKind::Url, ..FieldSpec::default() },
        FieldSpec { key: "token".to_string(), kind: FieldKind::Secret, ..FieldSpec::default() },
    ];
    assert!(is_secret_answer(&fields, "token"));
    assert!(!is_secret_answer(&fields, "url"));
    assert!(!is_secret_answer(&fields, "other"));

    let mut held = vec![FieldValue::new("url", "a")];
    record_answer(&mut held, FieldValue::new("name", "n"));
    record_answer(&mut held, FieldValue::new("url", "b"));
    assert_eq!(held, vec![FieldValue::new("url", "b"), FieldValue::new("name", "n")]);
}

#[test]
fn the_youtube_sign_in_methods_on_offer() {
    assert_eq!(YtAuthMethod::default_for_platform(), YtAuthMethod::BrowserSignin);
    assert_eq!(shown_auth_method(YtAuthMethod::OAuth), YtAuthMethod::PasteCookies);
    assert_eq!(shown_auth_method(YtAuthMethod::Anonymous), YtAuthMethod::Anonymous);
    assert_eq!(
        offered_auth_methods(),
        vec![YtAuthMethod::BrowserSignin, YtAuthMethod::PasteCookies, YtAuthMethod::Anonymous]
    );
}

#[test]
fn oauth_sign_in_needs_both_halves_of_the_client() {
    assert!(oauth_ready(false, "id.apps.googleusercontent.com", "GOCSPX-x"));
    assert!(!oauth_ready(true, "id", "secret"), "one sign-in at a time");
    assert!(!oauth_ready(false, "  ", "secret"));
    assert!(!oauth_ready(false, "id", ""));
}

#[test]
fn a_row_moves_only_within_the_playlist() {
    assert_eq!(reorder_target(2, 5, true, true), Some((2, 1)));
    assert_eq!(reorder_target(0, 5, true, true), None);
    assert_eq!(reorder_target(3, 5, true, false), Some((3, 4)));
    assert_eq!(reorder_target(4, 5, true, false), None);
    assert_eq!(reorder_target(2, 5, false, true), None, "a source that cannot reorder");
    assert_eq!(reorder_target(7, 5, true, false), None);
}

#[test]
fn the_picker_marks_the_first_active_device() {
    let device = |id: &str, active: bool| ExternalDevice {
        id: id.to_string(),
        name: id.to_string(),
        kind: "Speaker".to_string(),
        icon: Icon::Class("fa-solid fa-volume-high".to_string()),
        active,
    };
    assert_eq!(selected_device(&vec![device("a", false), device("b", true), device("c", true)]), Some(1));
    assert_eq!(selected_device(&vec![device("a", false)]), None, "this app plays");
    assert_eq!(selected_device(&Vec::new()), None);
}
