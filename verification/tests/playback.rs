use kopuz::android_exo::{
    item_source, offline_copy, offline_key, parse_slot, radio_seed_key, video_id, Cmd, EndedStep,
    ErrorStep, ExoCall, ExoState, ItemSource,
};
use kopuz::config::OfflineTrack;
use kopuz::player_task::{
    autoradio_prefetch_due, crossfade_display, crossfade_due, jellyfin_progress_due,
    jellyfin_ticks, paused_presence, playing_presence, recent_due, recent_entry, seek_detected,
    skip_due, stream_prefetch, CrossfadeUi, EndGuard, EndStep, JellyfinTracker, PresenceStep,
};

fn queue(n: usize) -> Vec<String> {
    (0..n).map(|i| format!("/lib/{i}.flac")).collect()
}

#[test]
fn transport_commands_reach_the_engine() {
    let mut exo = ExoState::new();
    assert_eq!(exo.resume(), ExoCall::Resume);
    assert!(exo.playing());
    assert_eq!(exo.pause(), ExoCall::Pause);
    assert!(!exo.playing());
    assert_eq!(exo.next(), ExoCall::Next);
    assert_eq!(exo.prev(), ExoCall::Prev);
    assert_eq!(exo.seek_ms(-5), ExoCall::Seek(-5));
    assert_eq!(exo.position_ms(), 0, "a seek before the start lands on it");
    assert_eq!(exo.seek_ms(1500), ExoCall::Seek(1500));
    assert_eq!(exo.position_ms(), 1500);
    exo.resume();
    assert_eq!(exo.stop(), ExoCall::Stop);
    assert!(!exo.playing());
    exo.set_autoradio(false);
    assert!(!exo.autoradio_on());
}

#[test]
fn playing_a_queue_clamps_the_start() {
    let mut exo = ExoState::new();
    let (reset, cmd) = exo.play(queue(3), 9, 0);
    assert!(reset);
    assert_eq!(cmd, Cmd::PlayFrom { position_ms: 0 });
    assert_eq!(exo.index(), 2);
    assert_eq!(*exo.attempts(), vec![0, 0, 0]);
}

#[test]
fn the_end_of_a_track_moves_on_or_ends_the_queue() {
    let mut exo = ExoState::new();
    exo.set_autoradio(false);
    exo.play(queue(2), 0, 0);
    exo.slot_resolved(1);
    assert_eq!(exo.on_ended(), EndedStep::Advance);
    assert_eq!(exo.index(), 1);
    assert_eq!(exo.on_ended(), EndedStep::Finished);
    assert!(exo.ended_dirty());
    exo.set_autoradio(true);
    assert_eq!(exo.on_ended(), EndedStep::TryAutoradio);
}

#[test]
fn a_failing_item_is_retried_once_then_skipped() {
    let mut exo = ExoState::new();
    exo.play(queue(3), 0, 0);
    match exo.on_error("0") {
        ErrorStep::Reresolve { slot, .. } => assert_eq!(slot, Some(0)),
        other => panic!("expected a retry, got {other:?}"),
    }
    assert_eq!(exo.on_error("0"), ErrorStep::Skip);
    assert_eq!(exo.index(), 1);
    assert_eq!(parse_slot("2", 3), Some(2));
    assert_eq!(parse_slot("3", 3), None);
    assert_eq!(parse_slot("x", 3), None);
    assert_eq!(radio_seed_key(&queue(2)), "2:/lib/1.flac");
    assert_eq!(radio_seed_key(&Vec::new()), "0:");
}

#[test]
fn plays_are_recorded_under_the_item_id_or_the_path() {
    assert_eq!(recent_entry("jellyfin:abc:x"), ("abc".to_string(), true));
    assert_eq!(recent_entry("ytmusic:vid"), ("vid".to_string(), true));
    assert_eq!(recent_entry("/lib/a.flac"), ("/lib/a.flac".to_string(), false));
    assert!(recent_due(Some("a"), true, None));
    assert!(!recent_due(Some("a"), true, Some("a")));
    assert!(!recent_due(Some("a"), false, Some("b")));
    assert!(!recent_due(None, true, None));
}

#[test]
fn the_next_youtube_stream_is_warmed_once() {
    assert_eq!(stream_prefetch("ytmusic:vid:x", None), Some(Some("vid".to_string())));
    assert_eq!(stream_prefetch("ytmusic:vid:x", Some("ytmusic:vid:x")), None);
    assert_eq!(stream_prefetch("ytmusic:", None), Some(None));
    assert_eq!(stream_prefetch("/lib/a.flac", None), None);
}

#[test]
fn a_pending_crossfade_holds_the_outgoing_position() {
    assert_eq!(crossfade_display(5, 5, 100, 200), CrossfadeUi::Commit);
    assert_eq!(crossfade_display(2, 5, 100, 200), CrossfadeUi::Show(102));
    assert_eq!(crossfade_display(2, 5, 199, 200), CrossfadeUi::Show(200));
    assert!(crossfade_due(200, 195, true, true, 6, None, 1, false, false));
    assert!(!crossfade_due(200, 195, true, true, 6, Some(1), 1, false, false));
    assert!(!crossfade_due(200, 190, true, true, 6, None, 1, false, false));
    assert!(!crossfade_due(200, 195, true, false, 6, None, 1, false, false));
}

#[test]
fn autoradio_is_fetched_ahead_of_the_last_track() {
    assert!(autoradio_prefetch_due(true, true, 3, 2, 200, 175, 4, None));
    assert!(!autoradio_prefetch_due(true, true, 3, 2, 200, 100, 4, None));
    assert!(autoradio_prefetch_due(true, true, 3, 2, 0, 0, 4, None), "unknown length");
    assert!(!autoradio_prefetch_due(true, true, 3, 1, 200, 175, 4, None));
    assert!(!autoradio_prefetch_due(true, true, 3, 2, u64::MAX, 175, 4, None));
    assert!(!autoradio_prefetch_due(true, true, 3, 2, 200, 175, 4, Some((4, 3))));
    assert!(autoradio_prefetch_due(true, true, 3, 2, 200, 175, 5, Some((4, 3))));
    assert!(!autoradio_prefetch_due(false, true, 3, 2, 200, 175, 4, None));
}

#[test]
fn streams_that_die_early_three_times_stop_playback() {
    assert!(skip_due(200, true, 0));
    assert!(skip_due(200, false, 205));
    assert!(!skip_due(200, false, 204));
    assert!(!skip_due(u64::MAX, true, 0), "radio never ends");

    let mut guard = EndGuard::new();
    assert_eq!(guard.on_end(true, 1, 200, 0, false, false), EndStep::Advance { record: false });
    assert_eq!(guard.on_end(true, 2, 200, 1, false, false), EndStep::Advance { record: false });
    assert_eq!(guard.on_end(true, 3, 200, 0, false, false), EndStep::Halt);
    assert_eq!(guard.halted_on, Some(3));
    assert_eq!(guard.on_end(true, 3, 200, 0, false, false), EndStep::Wait);
    assert_eq!(guard.on_end(true, 4, 200, 199, false, false), EndStep::Advance { record: true });
    assert_eq!(guard.on_end(true, 5, 200, 0, true, false), EndStep::Wait, "loading");
    assert_eq!(guard.consecutive_dead, 0);
}

#[test]
fn discord_is_told_what_changed() {
    assert!(!seek_detected(200, Some(5), 10, 15));
    assert!(seek_detected(200, Some(5), 10, 60));
    assert!(!seek_detected(200, Some(2), 10, 60), "inside the cooldown");
    assert!(!seek_detected(u64::MAX, Some(5), 10, 60), "radio has no position");
    assert!(!seek_detected(200, None, 10, 60));

    assert_eq!(
        playing_presence(true, true, false, false, false, false, false),
        PresenceStep::Nothing
    );
    assert_eq!(
        playing_presence(true, true, false, false, false, true, false),
        PresenceStep::Send,
        "a failed send is retried"
    );
    assert_eq!(
        playing_presence(false, true, true, false, false, false, false),
        PresenceStep::Clear
    );
    assert_eq!(
        paused_presence(true, true, true, true, false, Some(1), true),
        PresenceStep::Send
    );
    assert_eq!(
        paused_presence(true, true, true, false, false, Some(1), true),
        PresenceStep::Nothing
    );
    assert_eq!(
        paused_presence(true, true, true, false, false, Some(8), true),
        PresenceStep::Send,
        "re-anchored"
    );
    assert_eq!(
        paused_presence(true, false, true, true, false, None, true),
        PresenceStep::Clear
    );
}

#[test]
fn jellyfin_hears_of_every_item_change() {
    let mut tracker = JellyfinTracker::new();
    let step = tracker.on_track(Some("jellyfin:one:x"));
    assert_eq!(step.started.as_deref(), Some("one"));
    assert_eq!(step.stopped, None);
    let step = tracker.on_track(Some("jellyfin:one:x"));
    assert!(step.started.is_none() && step.stopped.is_none());
    let step = tracker.on_track(Some("jellyfin:two"));
    assert_eq!(step.stopped.as_deref(), Some("one"));
    assert_eq!(step.started.as_deref(), Some("two"));
    let step = tracker.on_track(Some("/lib/a.flac"));
    assert_eq!(step.stopped.as_deref(), Some("two"));
    assert!(tracker.last.is_none());
    assert!(jellyfin_progress_due(5, true, true));
    assert!(jellyfin_progress_due(0, false, true));
    assert!(!jellyfin_progress_due(4, true, true));
    assert_eq!(jellyfin_ticks(1_500_000), 15_000_000);
}

#[test]
fn a_downloaded_copy_wins_over_streaming() {
    let offline = vec![
        OfflineTrack { item_id: "vid".to_string(), path: "/old.opus".to_string() },
        OfflineTrack { item_id: "vid".to_string(), path: "/dl/vid.opus".to_string() },
    ];
    assert_eq!(offline_key("ytmusic:vid:x").as_deref(), Some("vid"));
    assert_eq!(offline_key("soundcloud:abc").as_deref(), Some("abc"));
    assert_eq!(offline_key("/lib/a.flac"), None);
    assert_eq!(video_id("ytmusic:vid:x").as_deref(), Some("vid"));
    assert_eq!(video_id("soundcloud:abc"), None);
    assert_eq!(offline_copy("ytmusic:vid:x", &offline).as_deref(), Some("/dl/vid.opus"));
    assert_eq!(offline_copy("ytmusic:other", &offline), None);

    assert_eq!(
        item_source("ytmusic:vid:x", Some("/dl/vid.opus"), false),
        ItemSource::File("/dl/vid.opus".to_string())
    );
    assert_eq!(item_source("ytmusic:vid:x", None, false), ItemSource::YouTube("vid".to_string()));
    assert_eq!(
        item_source("soundcloud:abc", None, false),
        ItemSource::SoundCloud("soundcloud:abc".to_string())
    );
    assert_eq!(item_source("/lib/a.flac", None, true), ItemSource::File("/lib/a.flac".to_string()));
    assert_eq!(item_source("/gone.flac", None, false), ItemSource::Unplayable);
}

#[test]
fn a_queue_the_engine_seeded_is_reported_once() {
    let mut exo = ExoState::new();
    exo.play(queue(2), 1, 0);
    let seeded = vec!["radio-1".to_string(), "radio-2".to_string()];
    exo.adopt_radio(seeded.clone());
    let first = exo.take_ui_update();
    assert_eq!(first.new_queue, Some(seeded));
    let second = exo.take_ui_update();
    assert_eq!(second.new_queue, None);
    assert_eq!(second.current_index, None);
    assert!(!second.ended);
    assert_eq!(second.playing, first.playing);
    assert_eq!(second.position_ms, first.position_ms);
    assert_eq!(second.duration_ms, first.duration_ms);
}
