use kopuz::presence::{
    build_release_query, cover_art_url, direct_cover_url, escape_lucene, format_clock,
    itunes_hires, paused_state, playing_timestamps, score_accepted, worth_guessing, ConnectStep,
    PresenceLink, IDLE_RECONNECT_MS, RECONNECT_THROTTLE_MS,
};
use kopuz::presence::cover_plan;

/// The paused position is the one number Discord will hold still, so it has
/// to read as a position rather than as a raw second count.
#[test]
fn a_paused_position_is_formatted_the_way_a_player_shows_it() {
    assert_eq!(format_clock(0), "0:00");
    assert_eq!(format_clock(9), "0:09");
    assert_eq!(format_clock(184), "3:04");
    assert_eq!(format_clock(3 * 60 + 4), "3:04");
    assert_eq!(format_clock(3600), "1:00:00");
    assert_eq!(format_clock(3661), "1:01:01");
    assert_eq!(format_clock(7384), "2:03:04");
}

#[test]
fn a_paused_activity_names_the_frozen_position() {
    assert_eq!(paused_state("Ada", 65, 184), "Ada \u{2022} \u{23f8} 1:05 / 3:04");
    assert_eq!(paused_state("Ada", 65, 0), "Ada \u{2022} \u{23f8} 1:05");
    assert_eq!(paused_state("Ada", 65, u64::MAX), "Ada \u{2022} \u{23f8} 1:05");
}

#[test]
fn a_playing_activity_ends_unless_it_is_radio() {
    assert_eq!(playing_timestamps(1000, 10, 200), (990, Some(1190)));
    assert_eq!(playing_timestamps(1000, 10, u64::MAX), (990, None));
}

#[test]
fn covers_come_from_the_archive_or_the_video() {
    assert_eq!(
        cover_art_url("abc-123"),
        "https://coverartarchive.org/release/abc-123/front"
    );
    assert_eq!(
        direct_cover_url("ytmusic:dQw4w9WgXcQ:extra").as_deref(),
        Some("https://i.ytimg.com/vi/dQw4w9WgXcQ/mqdefault.jpg")
    );
    assert_eq!(direct_cover_url("ytmusic:"), None);
    assert_eq!(direct_cover_url("ytmusic:bad id"), None);
    assert_eq!(direct_cover_url("/music/a.flac"), None);
}

#[test]
fn release_searches_escape_their_terms() {
    assert_eq!(escape_lucene("AC/DC: (live)"), "AC\\/DC\\: \\(live\\)");
    assert_eq!(build_release_query("", ""), None);
    assert_eq!(
        build_release_query("Ada", "Best+Of").as_deref(),
        Some("release:\"Best\\+Of\" AND artist:\"Ada\"")
    );
    assert_eq!(
        build_release_query("Ada", "").as_deref(),
        Some("artist:\"Ada\"")
    );
    assert!(score_accepted(Some(80)));
    assert!(!score_accepted(Some(79)));
    assert!(!score_accepted(None));
    assert!(worth_guessing(" Album "));
    assert!(!worth_guessing("   "));
}

#[test]
fn itunes_artwork_is_asked_for_large() {
    assert_eq!(
        itunes_hires("https://a/100x100bb.jpg?x=100x100bb"),
        "https://a/600x600bb.jpg?x=600x600bb"
    );
    assert_eq!(itunes_hires("https://a/b.jpg"), "https://a/b.jpg");
}

#[test]
fn reconnects_are_throttled() {
    let mut link = PresenceLink::new();
    assert!(!link.is_connected());
    assert_eq!(link.ensure_connected(10_000), ConnectStep::Attempt);
    link.connect_result(false);
    assert_eq!(
        link.ensure_connected(10_000 + RECONNECT_THROTTLE_MS - 1),
        ConnectStep::Throttled
    );
    assert_eq!(
        link.ensure_connected(10_000 + RECONNECT_THROTTLE_MS),
        ConnectStep::Attempt
    );
    link.connect_result(true);
    assert!(link.is_connected());
    assert_eq!(link.ensure_connected(20_000), ConnectStep::Connected);
    link.wrote(true, 20_000);
    assert!(!link.drop_if_stale(20_000 + IDLE_RECONNECT_MS));
    assert!(link.drop_if_stale(20_000 + IDLE_RECONNECT_MS + 1));
    assert!(!link.is_connected());
}

#[test]
fn a_cover_is_looked_up_by_its_release_id_then_guessed_by_album() {
    assert_eq!(cover_plan(Some("mbid-1"), "Abbey Road"), (Some("mbid-1".to_string()), true));
    assert_eq!(cover_plan(Some(""), "Abbey Road"), (None, true), "an empty id is no id");
    assert_eq!(cover_plan(None, "  "), (None, false), "no album, no guess");
    assert_eq!(cover_plan(Some("mbid-2"), ""), (Some("mbid-2".to_string()), false));
}
