use kopuz::config_service::{
    changed_keys, ensure_unlocked, is_daemon_owned, lookup, stripped, with_daemon_owned_fields,
    ConfigDoc, ConfigEntry,
};
use kopuz::error::ErrorCode;

fn doc(entries: &[(&str, &str)]) -> ConfigDoc {
    ConfigDoc {
        entries: entries
            .iter()
            .map(|(k, v)| ConfigEntry { key: k.to_string(), value: v.to_string() })
            .collect(),
    }
}

fn edit(d: &ConfigDoc, key: &str, value: &str) -> ConfigDoc {
    let mut d = d.clone();
    for e in d.entries.iter_mut() {
        if e.key == key {
            e.value = value.to_string();
        }
    }
    d
}

fn defaults() -> ConfigDoc {
    doc(&[
        ("volume", "1.0"),
        ("crossfade_seconds", "0"),
        ("lastfm_session_key", "\"\""),
        ("offline_tracks", "{}"),
        ("theme", "\"dark\""),
    ])
}

#[test]
fn a_write_back_keeps_credentials_the_caller_never_saw() {
    let current = edit(&edit(&defaults(), "lastfm_session_key", "\"secret\""), "offline_tracks", "{\"a\":\"/x\"}");
    let view = stripped(&current, &defaults());
    assert_eq!(lookup(&view, "lastfm_session_key"), Some("\"\""));
    assert_eq!(lookup(&view, "offline_tracks"), Some("{\"a\":\"/x\"}"), "not a secret");

    let next = edit(&edit(&view, "volume", "0.25"), "crossfade_seconds", "4");
    let (kept, changed) = kopuz::config_service::set(next, &current, &[]).expect("set");
    assert_eq!(changed, vec!["volume".to_string(), "crossfade_seconds".to_string()]);
    assert_eq!(
        lookup(&kept, "lastfm_session_key"),
        Some("\"secret\""),
        "writing back a blanked view must not erase the credential"
    );
    assert_eq!(lookup(&kept, "crossfade_seconds"), Some("4"));
}

#[test]
fn an_unchanged_write_reports_nothing_and_is_never_refused() {
    let current = defaults();
    let locked = vec!["theme".to_string()];
    let (kept, changed) = kopuz::config_service::set(stripped(&current, &defaults()), &current, &locked).expect("idempotent");
    assert!(changed.is_empty());
    assert_eq!(kept, current);
}

#[test]
fn a_locked_key_is_refused_only_when_it_changes() {
    let current = defaults();
    let locked = vec!["theme".to_string()];
    let err = kopuz::config_service::set(edit(&current, "theme", "\"other\""), &current, &locked)
        .expect_err("changing a locked key is refused");
    assert_eq!(err.code, ErrorCode::InvalidInput);
    assert_eq!(err.message, "keys locked by a managed settings file: theme");
    let (_, changed) = kopuz::config_service::set(edit(&current, "crossfade_seconds", "6"), &current, &locked)
        .expect("untouched locked key");
    assert_eq!(changed, vec!["crossfade_seconds".to_string()]);
    assert!(ensure_unlocked(&["volume"], &locked).is_ok());
    assert!(ensure_unlocked(&["volume", "theme"], &locked).is_err());
}

#[test]
fn the_daemon_owns_credentials_and_its_own_field_lists() {
    for key in ["server", "servers", "lastfm_session_key", "ytdlp_options", "discord_presence"] {
        assert!(is_daemon_owned(key), "{key}");
    }
    assert!(!is_daemon_owned("volume"));
    let current = doc(&[("servers", "[1]"), ("volume", "1")]);
    let incoming = doc(&[("servers", "[]"), ("volume", "0.5")]);
    assert_eq!(
        with_daemon_owned_fields(incoming, &current),
        doc(&[("servers", "[1]"), ("volume", "0.5")])
    );
    assert_eq!(
        changed_keys(&current, &doc(&[("servers", "[1]"), ("volume", "0.5"), ("new", "1")])),
        vec!["volume".to_string(), "new".to_string()]
    );
}

#[test]
fn a_document_says_whether_a_key_repeats() {
    assert!(doc(&[("volume", "0.5"), ("crossfade", "3")]).has_unique_keys());
    assert!(doc(&[]).has_unique_keys());
    assert!(!doc(&[("volume", "0.5"), ("crossfade", "3"), ("volume", "1")]).has_unique_keys());
}
