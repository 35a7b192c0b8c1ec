use kopuz::artwork::{ArtworkTarget, CoverRef};
use kopuz::config::{MusicService, OfflineTrack};
use kopuz::wire::{format_of, track_format, track_info, TrackKind, TrackRow};

fn row(duration: u64, local_path: Option<&str>) -> TrackRow {
    TrackRow {
        key: "/lib/a.flac".to_string(),
        uid: "uid-a".to_string(),
        title: "A".to_string(),
        artist: "Ada".to_string(),
        album: "First".to_string(),
        album_id: "al".to_string(),
        duration,
        khz: 44,
        bitrate: 320,
        track_number: Some(1),
        disc_number: None,
        local_path: local_path.map(str::to_string),
        service: None,
        artists: vec!["Ada".to_string()],
        musicbrainz_release_id: Some("mb".to_string()),
        musicbrainz_recording_id: None,
        musicbrainz_track_id: None,
        playlist_item_id: None,
    }
}

#[test]
fn a_library_row_becomes_a_wire_row() {
    let offline = vec![OfflineTrack { item_id: "item-1".to_string(), path: "/x".to_string() }];
    let info = track_info(
        &row(61, Some("/lib/a.flac")),
        Some("item-1"),
        &offline,
        &CoverRef::Local("/c.jpg".to_string()),
        9,
    );
    assert_eq!(info.key, "/lib/a.flac");
    assert_eq!(info.kind, TrackKind::Normal);
    assert!(info.seekable);
    assert_eq!(info.duration_ms, Some(61_000));
    assert_eq!(info.duration_secs(), Some(61));
    assert!(!info.is_radio());
    assert!(info.offline);
    assert_eq!(info.format.as_deref(), Some("FLAC"));
    assert_eq!(info.musicbrainz_release_id.as_deref(), Some("mb"));
    let art = info.artwork.expect("a cover");
    assert_eq!(art.target, ArtworkTarget::Track("/lib/a.flac".to_string()));
    assert_eq!(art.version, 9);
}

#[test]
fn a_radio_row_has_no_duration_and_cannot_seek() {
    let info = track_info(&row(u64::MAX, None), None, &Vec::new(), &CoverRef::Absent, 0);
    assert_eq!(info.kind, TrackKind::Radio);
    assert!(!info.seekable);
    assert_eq!(info.duration_ms, None);
    assert_eq!(info.duration_secs(), None);
    assert!(info.is_radio());
    assert!(!info.offline);
    assert!(info.artwork.is_none());
    assert!(info.format.is_none());
    let huge = track_info(&row(u64::MAX / 10, None), Some("x"), &Vec::new(), &CoverRef::Absent, 0);
    assert_eq!(huge.duration_ms, Some(u64::MAX), "a huge length saturates");
    assert!(!huge.offline);
    let service = TrackRow { service: Some(MusicService::Jellyfin), ..row(1, None) };
    assert_eq!(
        track_info(&service, None, &Vec::new(), &CoverRef::Absent, 0).service,
        Some(MusicService::Jellyfin)
    );
}

#[test]
fn only_decoded_containers_get_a_badge() {
    assert_eq!(format_of(Some("song.MP3")).as_deref(), Some("MP3"));
    assert_eq!(format_of(Some("song.opus")).as_deref(), Some("OPUS"));
    assert_eq!(format_of(Some("archive.tar.mka")).as_deref(), Some("MKA"));
    assert_eq!(format_of(Some("notes.txt")), None);
    assert_eq!(format_of(Some(".flac")), None, "a dot file has no extension");
    assert_eq!(format_of(Some("flac")), None);
    assert_eq!(format_of(None), None);
    assert_eq!(track_format(Some("/music/Album/01 - Song.m4a")).as_deref(), Some("M4A"));
    assert_eq!(track_format(Some("/music/Album/")), None);
    assert_eq!(track_format(None), None);
}
