use pano_native_components::cache::PlayerCache;
use pano_native_components::debounce::{SeekDebouncer, SEEK_IDLE_WINDOW_MS};
use pano_native_components::media_info::{
    IncomingPlayerEvent, MediaRemoteEvent, MetadataInfo, PlaybackInfo, PlaybackState,
};
use pano_native_components::mpris::{Metadata, MetadataEntry, MetadataValue};
use pano_native_components::tracker::{PlayerTracker, TrackerAction, TrackerPhase, SILENCE};

fn info(title: &str, artist: &str, duration: i64) -> MetadataInfo {
    MetadataInfo {
        track_id: String::new(),
        title: title.to_string(),
        artist: artist.to_string(),
        album: String::new(),
        album_artist: String::new(),
        track_number: 0,
        duration,
        art_url: String::new(),
        track_url: String::new(),
    }
}

fn metadata(title: &str, length_micros: Option<u64>) -> Metadata {
    let mut entries = vec![MetadataEntry {
        key: "xesam:title".to_string(),
        value: MetadataValue::Str(title.to_string()),
    }];
    if let Some(l) = length_micros {
        entries.push(MetadataEntry {
            key: "mpris:length".to_string(),
            value: MetadataValue::U64(l),
        });
    }
    Metadata::from_entries(entries)
}

fn active_tracker() -> PlayerTracker {
    let mut tracker = PlayerTracker::new("app.Foo", 80);
    let first = tracker.start(&metadata("A", None), "Playing".to_string(), true, Some(0));
    assert!(first.is_some());
    tracker
}

fn state(s: PlaybackState, position: i64, can_skip: bool) -> PlaybackInfo {
    PlaybackInfo {
        state: s,
        position,
        can_skip,
    }
}

#[test]
fn late_duration_is_emitted_with_the_same_title() {
    let mut cache = PlayerCache::new();
    let first = cache.merge_metadata(info("A", "B", -1));
    assert_eq!(first, info("A", "B", -1));
    let second = cache.late_duration(180_000);
    assert_eq!(second, Some(info("A", "B", 180_000)));
    assert_eq!(cache.duration(), 180_000);
}

#[test]
fn unchanged_duration_is_not_emitted_again() {
    let mut cache = PlayerCache::new();
    cache.merge_metadata(info("A", "B", -1));
    assert!(cache.late_duration(180_000).is_some());
    assert_eq!(cache.late_duration(180_000), None);
    assert_eq!(cache.late_duration(-1), None);
    assert_eq!(cache.duration(), 180_000);
    assert_eq!(cache.late_duration(200_000), Some(info("A", "B", 200_000)));
}

#[test]
fn late_duration_without_metadata_is_not_emitted() {
    let mut cache = PlayerCache::new();
    assert_eq!(cache.late_duration(180_000), None);
    assert_eq!(cache.duration(), -1);
}

#[test]
fn known_duration_survives_metadata_without_duration() {
    let mut cache = PlayerCache::new();
    cache.merge_metadata(info("A", "B", 180_000));
    for title in ["A", "A2", "A3"] {
        let emitted = cache.merge_metadata(info(title, "B", -1));
        assert_eq!(emitted, info(title, "B", 180_000));
    }
    // A duration of its own replaces the cached one.
    assert_eq!(cache.merge_metadata(info("C", "D", 5)), info("C", "D", 5));
    assert_eq!(cache.merge_metadata(info("C", "D", -1)).duration, 5);
}

#[test]
fn cleared_cache_knows_no_duration() {
    let mut cache = PlayerCache::new();
    cache.merge_metadata(info("A", "B", 180_000));
    cache.merge_playback(state(PlaybackState::Playing, 10, true));
    cache.clear();
    assert_eq!(cache.merge_metadata(info("A", "B", -1)).duration, -1);
    assert_eq!(cache.playback(), None);
    let mut fresh = PlayerCache::new();
    fresh.merge_metadata(info("A", "B", -1));
    assert_eq!(cache, fresh);
}

#[test]
fn known_position_survives_state_without_position() {
    let mut cache = PlayerCache::new();
    assert_eq!(
        cache.merge_playback(state(PlaybackState::Playing, -1, true)),
        state(PlaybackState::Playing, -1, true)
    );
    assert_eq!(
        cache.merge_playback(state(PlaybackState::Playing, 4000, true)),
        state(PlaybackState::Playing, 4000, true)
    );
    assert_eq!(
        cache.merge_playback(state(PlaybackState::Paused, -1, false)),
        state(PlaybackState::Paused, 4000, false)
    );
}

#[test]
fn late_position_follows_the_symmetric_rule() {
    let mut cache = PlayerCache::new();
    // Without a cached state only the position is said, and nothing is cached.
    assert_eq!(
        cache.late_position(700),
        Some(state(PlaybackState::Absent, 700, false))
    );
    assert_eq!(cache.playback(), None);
    cache.merge_playback(state(PlaybackState::Playing, -1, true));
    assert_eq!(
        cache.late_position(700),
        Some(state(PlaybackState::Playing, 700, true))
    );
    assert_eq!(cache.late_position(700), None);
    assert_eq!(cache.late_position(-1), None);
    assert_eq!(
        cache.late_position(9000),
        Some(state(PlaybackState::Playing, 9000, true))
    );
    assert_eq!(cache.playback(), Some(state(PlaybackState::Playing, 9000, true)));
}

#[test]
fn debouncer_holds_back_until_the_window_has_passed() {
    let mut seeks = SeekDebouncer::new(1000);
    assert_eq!(seeks.due(), None);
    assert_eq!(seeks.poll(5), None);
    seeks.on_seek(42, 100);
    assert_eq!(seeks.due(), Some(1100));
    assert_eq!(seeks.poll(100), None);
    assert_eq!(seeks.poll(1099), None);
    assert_eq!(seeks.poll(1100), Some(42));
    assert_eq!(seeks.poll(1101), None);
    assert_eq!(seeks.due(), None);
}

#[test]
fn debouncer_restarts_the_window_with_every_seek() {
    let mut seeks = SeekDebouncer::new(1000);
    seeks.on_seek(1, 0);
    seeks.on_seek(2, 900);
    assert_eq!(seeks.poll(1000), None);
    assert_eq!(seeks.poll(1899), None);
    assert_eq!(seeks.poll(1900), Some(2));
}

#[test]
fn debouncer_at_the_end_of_time() {
    let mut seeks = SeekDebouncer::new(1000);
    seeks.on_seek(7, u64::MAX - 10);
    assert_eq!(seeks.due(), Some(u64::MAX));
    assert_eq!(seeks.poll(u64::MAX - 1), None);
    assert_eq!(seeks.poll(u64::MAX), Some(7));
    let mut zero = SeekDebouncer::new(0);
    zero.on_seek(3, 50);
    assert_eq!(zero.poll(50), Some(3));
}

#[test]
fn debouncer_cancel_drops_what_is_held_back() {
    let mut seeks = SeekDebouncer::new(1000);
    seeks.on_seek(1, 0);
    seeks.cancel();
    assert_eq!(seeks.poll(5000), None);
}

#[test]
fn idle_window_is_one_second() {
    assert_eq!(SEEK_IDLE_WINDOW_MS, 1000);
}

#[test]
fn tracker_starts_under_the_logical_identity() {
    let tracker = PlayerTracker::new("org.mpris.MediaPlayer2.chromium.instance7", 0);
    assert_eq!(tracker.app_id(), "org.mpris.MediaPlayer2.chromium.instancen");
    assert_eq!(tracker.phase(), TrackerPhase::Starting);
    assert!(!tracker.is_active());
    assert_eq!(tracker.next_tick(), None);
}

#[test]
fn start_emits_the_first_events_and_activates() {
    let mut tracker = PlayerTracker::new("app.Foo", 0);
    let (m, p) = tracker
        .start(
            &metadata("A", Some(180_000_000)),
            "Paused".to_string(),
            true,
            Some(2_500_000),
        )
        .unwrap();
    assert_eq!(m, info("A", "", 180_000));
    assert_eq!(p, state(PlaybackState::Paused, 2500, true));
    assert_eq!(tracker.phase(), TrackerPhase::Active);
    // A second start is ignored.
    assert_eq!(
        tracker.start(&metadata("B", None), "Playing".to_string(), false, None),
        None
    );
}

#[test]
fn start_with_unreadable_position_emits_unknown() {
    let mut tracker = PlayerTracker::new("app.Foo", 0);
    let (m, p) = tracker
        .start(&metadata("A", None), "Weird".to_string(), false, None)
        .unwrap();
    assert_eq!(m.duration, -1);
    assert_eq!(p, state(PlaybackState::Other, -1, false));
}

#[test]
fn events_before_start_are_ignored() {
    let mut tracker = PlayerTracker::new("app.Foo", 0);
    assert_eq!(tracker.on_metadata_changed(&metadata("A", None)), None);
    assert_eq!(
        tracker.on_playback_status_changed("Playing".to_string(), Some(1)),
        None
    );
    assert_eq!(tracker.on_can_go_next_changed(true, Some(1)), None);
    tracker.on_seeked(1_000_000, 0);
    assert_eq!(tracker.next_tick(), None);
    assert_eq!(tracker.on_tick(10_000), None);
    assert_eq!(
        tracker.on_command(&IncomingPlayerEvent::Skip("app.Foo".to_string()), 5),
        TrackerAction::Nothing
    );
}

#[test]
fn tracker_metadata_keeps_the_known_duration() {
    let mut tracker = PlayerTracker::new("app.Foo", 0);
    tracker.start(
        &metadata("A", Some(180_000_000)),
        "Playing".to_string(),
        true,
        Some(0),
    );
    assert_eq!(
        tracker.on_metadata_changed(&metadata("A", None)),
        Some(info("A", "", 180_000))
    );
    assert_eq!(
        tracker.on_metadata_changed(&metadata("B", Some(60_000_000))),
        Some(info("B", "", 60_000))
    );
}

#[test]
fn status_and_skip_capability_change_independently() {
    let mut tracker = active_tracker();
    assert_eq!(
        tracker.on_playback_status_changed("Paused".to_string(), Some(3_000_000)),
        Some(state(PlaybackState::Paused, 3000, true))
    );
    assert_eq!(
        tracker.on_can_go_next_changed(false, Some(3_100_000)),
        Some(state(PlaybackState::Paused, 3100, false))
    );
    // A position that cannot be read leaves the known one in place.
    assert_eq!(
        tracker.on_playback_status_changed("Playing".to_string(), None),
        Some(state(PlaybackState::Playing, 3100, false))
    );
}

#[test]
fn ten_seeks_collapse_into_one_event() {
    let mut tracker = active_tracker();
    let mut emitted: Vec<PlaybackInfo> = Vec::new();
    let mut now = 0u64;
    for i in 1..=10i64 {
        tracker.on_seeked(i * 1000 * 1000, now);
        // The clock is polled in between; nothing is due yet.
        for tick in [now, now + 100, now + 199] {
            if let Some(p) = tracker.on_tick(tick) {
                emitted.push(p);
            }
        }
        now += 200;
    }
    let last_seek = now - 200;
    assert_eq!(tracker.next_tick(), Some(last_seek + 1000));
    assert!(emitted.is_empty());
    for tick in [last_seek + 999, last_seek + 1000, last_seek + 1001, last_seek + 5000] {
        if let Some(p) = tracker.on_tick(tick) {
            emitted.push(p);
        }
    }
    assert_eq!(emitted, vec![state(PlaybackState::Playing, 10_000, true)]);
    assert_eq!(tracker.next_tick(), None);
}

#[test]
fn a_single_seek_is_emitted_once_after_the_window() {
    let mut tracker = active_tracker();
    tracker.on_seeked(7_000_000, 50);
    assert_eq!(tracker.on_tick(1049), None);
    assert_eq!(
        tracker.on_tick(1050),
        Some(state(PlaybackState::Playing, 7000, true))
    );
    assert_eq!(tracker.on_tick(1051), None);
    // The released position is the known one from now on.
    assert_eq!(
        tracker.on_playback_status_changed("Paused".to_string(), None),
        Some(state(PlaybackState::Paused, 7000, true))
    );
}

#[test]
fn skip_asks_for_the_next_track() {
    let mut tracker = active_tracker();
    assert_eq!(
        tracker.on_command(&IncomingPlayerEvent::Skip("app.Foo".to_string()), 0),
        TrackerAction::NextTrack
    );
}

#[test]
fn mute_then_unmute_restores_the_volume() {
    let mut tracker = active_tracker();
    let id = "app.Foo".to_string();
    assert_eq!(
        tracker.on_command(&IncomingPlayerEvent::Mute(id.clone()), 0x3FE0_0000_0000_0000),
        TrackerAction::SetVolume(SILENCE)
    );
    assert_eq!(
        tracker.on_command(&IncomingPlayerEvent::Unmute(id), SILENCE),
        TrackerAction::SetVolume(0x3FE0_0000_0000_0000)
    );
}

#[test]
fn double_mute_keeps_the_first_volume() {
    let mut tracker = active_tracker();
    let id = "app.Foo".to_string();
    tracker.on_command(&IncomingPlayerEvent::Mute(id.clone()), 77);
    // The player is silent by now: that is what a second mute finds.
    assert_eq!(
        tracker.on_command(&IncomingPlayerEvent::Mute(id.clone()), SILENCE),
        TrackerAction::SetVolume(SILENCE)
    );
    assert_eq!(
        tracker.on_command(&IncomingPlayerEvent::Mute(id.clone()), 5),
        TrackerAction::SetVolume(SILENCE)
    );
    assert_eq!(
        tracker.on_command(&IncomingPlayerEvent::Unmute(id.clone()), SILENCE),
        TrackerAction::SetVolume(77)
    );
    // After the unmute a mute remembers anew.
    tracker.on_command(&IncomingPlayerEvent::Mute(id.clone()), 33);
    assert_eq!(
        tracker.on_command(&IncomingPlayerEvent::Unmute(id), SILENCE),
        TrackerAction::SetVolume(33)
    );
}

#[test]
fn unmute_without_mute_sets_the_initial_volume() {
    let mut tracker = active_tracker();
    assert_eq!(
        tracker.on_command(&IncomingPlayerEvent::Unmute("app.Foo".to_string()), 12),
        TrackerAction::SetVolume(80)
    );
}

#[test]
fn shutdown_command_stops_the_tracker() {
    let mut tracker = active_tracker();
    tracker.on_seeked(1_000_000, 0);
    assert_eq!(
        tracker.on_command(&IncomingPlayerEvent::Shutdown, 0),
        TrackerAction::Stop
    );
    assert_eq!(tracker.phase(), TrackerPhase::Stopping);
    assert_eq!(tracker.next_tick(), None);
    assert_eq!(tracker.on_tick(10_000), None);
    assert_eq!(tracker.on_metadata_changed(&metadata("B", None)), None);
    assert_eq!(
        tracker.on_command(&IncomingPlayerEvent::Skip("app.Foo".to_string()), 0),
        TrackerAction::Nothing
    );
    tracker.finish();
    assert_eq!(tracker.phase(), TrackerPhase::Stopped);
    tracker.finish();
    assert_eq!(tracker.phase(), TrackerPhase::Stopped);
}

#[test]
fn registry_wide_commands_mean_nothing_to_a_tracker() {
    let mut tracker = active_tracker();
    assert_eq!(
        tracker.on_command(&IncomingPlayerEvent::RefreshSessions, 0),
        TrackerAction::Nothing
    );
    assert_eq!(
        tracker.on_command(
            &IncomingPlayerEvent::MediaRemote(
                MediaRemoteEvent::kMRNowPlayingPlaybackQueueChangedNotification
            ),
            0
        ),
        TrackerAction::Nothing
    );
    assert!(tracker.is_active());
}

#[test]
fn stop_is_asked_for_once() {
    let mut tracker = PlayerTracker::new("app.Foo", 0);
    assert!(tracker.stop());
    assert_eq!(tracker.phase(), TrackerPhase::Stopping);
    assert!(!tracker.stop());
    tracker.finish();
    assert!(!tracker.stop());
    assert_eq!(tracker.phase(), TrackerPhase::Stopped);
    // A stopped tracker does not start again.
    assert_eq!(
        tracker.start(&metadata("A", None), "Playing".to_string(), true, None),
        None
    );
    let mut active = active_tracker();
    assert!(active.stop());
    assert!(!active.is_active());
}

#[test]
fn finish_before_stop_changes_nothing() {
    let mut tracker = active_tracker();
    tracker.finish();
    assert_eq!(tracker.phase(), TrackerPhase::Active);
}

#[test]
fn unreadable_metadata_is_passed_over() {
    let mut tracker = active_tracker();
    tracker.on_metadata_changed(&metadata("A", Some(180_000_000)));
    assert_eq!(tracker.on_metadata_read(None), None);
    assert_eq!(tracker.phase(), TrackerPhase::Active);
    // The cache is as it was: the known duration is still merged in.
    assert_eq!(
        tracker.on_metadata_read(Some(&metadata("B", None))),
        Some(info("B", "", 180_000))
    );
}

#[test]
fn unreadable_status_is_passed_over() {
    let mut tracker = active_tracker();
    assert_eq!(tracker.on_playback_status_read(None, Some(5_000_000)), None);
    assert_eq!(tracker.phase(), TrackerPhase::Active);
    // Neither the state nor the position of the failed read was taken over.
    assert_eq!(
        tracker.on_can_go_next_read(Some(false), None),
        Some(state(PlaybackState::Playing, 0, false))
    );
    assert_eq!(
        tracker.on_playback_status_read(Some("Paused".to_string()), Some(7_000_000)),
        Some(state(PlaybackState::Paused, 7_000, false))
    );
}

#[test]
fn unreadable_skip_capability_is_passed_over() {
    let mut tracker = active_tracker();
    assert_eq!(tracker.on_can_go_next_read(None, Some(5_000_000)), None);
    assert_eq!(
        tracker.on_playback_status_read(Some("Stopped".to_string()), None),
        Some(state(PlaybackState::Stopped, 0, true))
    );
}

#[test]
fn unreadable_seek_leaves_the_held_position_alone() {
    let mut tracker = active_tracker();
    tracker.on_seek_read(None, 100);
    assert_eq!(tracker.next_tick(), None);
    tracker.on_seek_read(Some(3_000_000), 200);
    assert_eq!(tracker.next_tick(), Some(200 + SEEK_IDLE_WINDOW_MS));
    // A report that cannot be read does not restart the window.
    tracker.on_seek_read(None, 900);
    assert_eq!(tracker.next_tick(), Some(200 + SEEK_IDLE_WINDOW_MS));
    assert_eq!(
        tracker.on_tick(200 + SEEK_IDLE_WINDOW_MS),
        Some(state(PlaybackState::Playing, 3_000, true))
    );
}

#[test]
fn reads_before_start_are_ignored() {
    let mut tracker = PlayerTracker::new("app.Foo", 80);
    assert_eq!(tracker.on_metadata_read(Some(&metadata("A", None))), None);
    assert_eq!(tracker.on_playback_status_read(Some("Playing".to_string()), None), None);
    assert_eq!(tracker.on_can_go_next_read(Some(true), None), None);
    tracker.on_seek_read(Some(1), 0);
    assert_eq!(tracker.next_tick(), None);
    assert_eq!(tracker.phase(), TrackerPhase::Starting);
}
