use kopuz::error::ErrorCode;
use kopuz::source_service::{
    check_directories, checked_local_source, drafted_service, fresh_local_id,
    validate_server_id, UpkeepClock, SPOTIFY_EVERY,
};
use kopuz::sources::{LocalSourceDraft, ServerDraft};
use kopuz::schema::FieldValue;
use kopuz::source_service::{local_id_from, server_from_draft, uuid_from};

/// Local source ids live in their own namespace; a server that claimed
/// one would shadow a library.
#[test]
fn a_server_cannot_take_a_local_source_id() {
    for id in ["", "local", "local:library"] {
        let error = validate_server_id(id).expect_err("reserved");
        assert_eq!(error.code, ErrorCode::InvalidInput);
    }
    assert!(validate_server_id("jellyfin-1").is_ok());
}

#[test]
fn a_fresh_local_id_is_a_new_uuid_in_the_local_namespace() {
    let a = fresh_local_id().expect("the system gives random bytes");
    let b = fresh_local_id().expect("the system gives random bytes");
    assert!(a.starts_with("local:"));
    assert_eq!(a.len(), 42);
    assert!(a[6..]
        .chars()
        .all(|c| c.is_ascii_digit() || ('a'..='f').contains(&c) || c == '-'));
    assert_ne!(a, b, "two libraries never share an id");
    assert!(validate_server_id(&a).is_err());
}

#[test]
fn a_local_source_needs_a_name_and_directories() {
    let ok = checked_local_source(
        LocalSourceDraft {
            id: None,
            name: "Vinyl rips".to_string(),
            directories: vec!["/music/vinyl".to_string()],
        },
        "local:x".to_string(),
    )
    .expect("valid");
    assert_eq!(ok.id, "local:x");
    assert_eq!(ok.directories, vec!["/music/vinyl".to_string()]);

    let no_dirs = checked_local_source(
        LocalSourceDraft { id: None, name: "V".to_string(), directories: Vec::new() },
        "local:x".to_string(),
    )
    .expect_err("no directories");
    assert_eq!(no_dirs.code, ErrorCode::InvalidInput);

    assert!(check_directories(&vec!["/a".to_string()]).is_ok());
    assert!(check_directories(&Vec::new()).is_ok(), "no directories is not a blank one");
    assert!(check_directories(&vec!["  ".to_string()]).is_err());
}

#[test]
fn a_draft_must_name_a_known_service() {
    let draft = |service: &str| ServerDraft {
        id: None,
        name: "Home".to_string(),
        service: service.to_string(),
        values: Vec::new(),
        secrets: Vec::new(),
    };
    assert!(drafted_service(&draft("jellyfin")).is_ok());
    let e = drafted_service(&draft("winamp")).expect_err("unknown");
    assert_eq!(e.code, ErrorCode::InvalidInput);
    assert_eq!(e.message, "no such service");
}

#[test]
fn spotify_upkeep_runs_every_sixth_tick() {
    let mut clock = UpkeepClock::new();
    let fired: Vec<bool> = (0..(2 * SPOTIFY_EVERY)).map(|_| clock.tick()).collect();
    assert_eq!(fired.iter().filter(|f| **f).count(), 2);
}

#[test]
fn a_new_server_draws_a_fresh_id_and_an_edited_one_keeps_its_own() {
    let draft = |id: Option<&str>| ServerDraft {
        id: id.map(|s| s.to_string()),
        name: "Home".to_string(),
        service: "jellyfin".to_string(),
        values: vec![FieldValue::new("url", "https://music.example.com")],
        secrets: Vec::new(),
    };
    let (saved, _) = server_from_draft(&draft(None)).expect("a valid new server");
    assert_eq!(saved.id.len(), 36);
    assert!(saved.id.chars().all(|c| c.is_ascii_digit() || ('a'..='f').contains(&c) || c == '-'));
    let (again, _) = server_from_draft(&draft(None)).expect("a valid new server");
    assert_ne!(saved.id, again.id);
    let (kept, _) = server_from_draft(&draft(Some("jf-1"))).expect("a valid edit");
    assert_eq!(kept.id, "jf-1");
    assert_eq!(kept.name, "Home");
    assert_eq!(saved.name, kept.name);
    assert_eq!(saved.url, kept.url);
}

#[test]
fn an_id_is_the_version_4_text_of_its_random_bytes() {
    let bytes = [70, 235, 208, 238, 14, 109, 67, 201, 185, 13, 204, 195, 90, 145, 63, 62];
    assert_eq!(uuid_from(bytes), "46ebd0ee-0e6d-43c9-b90d-ccc35a913f3e");
    assert_eq!(uuid_from([0xff; 16]), "ffffffff-ffff-4fff-bfff-ffffffffffff");
    assert_eq!(local_id_from(bytes), "local:46ebd0ee-0e6d-43c9-b90d-ccc35a913f3e");
}
