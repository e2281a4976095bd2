use pano_native_components::media_info::{MetadataInfo, PlaybackInfo, PlaybackState, SessionInfo};
use pano_native_components::mpris::{
    normalize_active_players, parse_metadata, parse_playback_state, position_millis, LoopStatus,
    Metadata, MetadataEntry, MetadataValue, ParseErr,
};

fn entry(key: &str, value: MetadataValue) -> MetadataEntry {
    MetadataEntry { key: key.to_string(), value }
}

fn text(s: &str) -> MetadataValue {
    MetadataValue::Str(s.to_string())
}

fn texts(items: &[&str]) -> MetadataValue {
    MetadataValue::StrList(items.iter().map(|s| s.to_string()).collect())
}

fn full_metadata() -> Metadata {
    Metadata::from_entries(vec![
        entry("mpris:trackid", text("/org/mpris/track/7")),
        entry("xesam:title", text("A")),
        entry("xesam:artist", texts(&["B", "C"])),
        entry("xesam:album", text("D")),
        entry("xesam:albumArtist", texts(&["E"])),
        entry("xesam:trackNumber", MetadataValue::I32(3)),
        entry("xesam:discNumber", MetadataValue::I32(2)),
        entry("mpris:length", MetadataValue::U64(180_000_999)),
        entry("mpris:artUrl", text("file:///cover.png")),
        entry("xesam:url", text("file:///song.flac")),
    ])
}

#[test]
fn status_words_are_parsed() {
    assert_eq!(PlaybackState::parse("Playing"), Ok(PlaybackState::Playing));
    assert_eq!(PlaybackState::parse("Paused"), Ok(PlaybackState::Paused));
    assert_eq!(PlaybackState::parse("Stopped"), Ok(PlaybackState::Stopped));
}

#[test]
fn unknown_status_word_is_rejected_with_the_word() {
    assert_eq!(
        PlaybackState::parse("playing"),
        Err(ParseErr("playing".to_string()))
    );
    assert_eq!(PlaybackState::parse(""), Err(ParseErr(String::new())));
    assert_eq!(
        PlaybackState::parse("Waiting"),
        Err(ParseErr("Waiting".to_string()))
    );
}

#[test]
fn status_is_read_through_from_str() {
    assert_eq!("Paused".parse::<PlaybackState>(), Ok(PlaybackState::Paused));
    assert!("Nope".parse::<PlaybackState>().is_err());
    assert_eq!("Track".parse::<LoopStatus>(), Ok(LoopStatus::Track));
}

#[test]
fn parse_error_message_quotes_the_word() {
    assert_eq!(
        ParseErr("Buffering".to_string()).message(),
        "Couldn't parse `Buffering`"
    );
}

#[test]
fn state_names_are_what_the_host_reads() {
    assert_eq!(PlaybackState::Absent.name(), "None");
    assert_eq!(PlaybackState::Stopped.name(), "Stopped");
    assert_eq!(PlaybackState::Paused.name(), "Paused");
    assert_eq!(PlaybackState::Playing.name(), "Playing");
    assert_eq!(PlaybackState::Waiting.name(), "Waiting");
    assert_eq!(PlaybackState::Other.name(), "Other");
}

#[test]
fn loop_status_words_are_parsed() {
    assert_eq!(LoopStatus::parse("None"), Ok(LoopStatus::Off));
    assert_eq!(LoopStatus::parse("Track"), Ok(LoopStatus::Track));
    assert_eq!(LoopStatus::parse("Playlist"), Ok(LoopStatus::Playlist));
    assert_eq!(
        LoopStatus::parse("Shuffle"),
        Err(ParseErr("Shuffle".to_string()))
    );
}

#[test]
fn playback_report_is_normalized() {
    assert_eq!(
        parse_playback_state("Playing".to_string(), true, 1234),
        PlaybackInfo {
            state: PlaybackState::Playing,
            position: 1234,
            can_skip: true
        }
    );
}

#[test]
fn unknown_status_maps_to_other() {
    assert_eq!(
        parse_playback_state("Buffering".to_string(), false, -1),
        PlaybackInfo {
            state: PlaybackState::Other,
            position: -1,
            can_skip: false
        }
    );
    assert_eq!(
        parse_playback_state(String::new(), false, 0).state,
        PlaybackState::Other
    );
}

#[test]
fn position_is_whole_milliseconds_towards_zero() {
    assert_eq!(position_millis(Some(1_500_999)), 1500);
    assert_eq!(position_millis(Some(999)), 0);
    assert_eq!(position_millis(Some(0)), 0);
    assert_eq!(position_millis(Some(-1_500)), -1);
    assert_eq!(position_millis(Some(-999)), 0);
    assert_eq!(position_millis(Some(i64::MAX)), i64::MAX / 1000);
    assert_eq!(position_millis(Some(i64::MIN)), i64::MIN / 1000);
}

#[test]
fn missing_position_is_unknown() {
    assert_eq!(position_millis(None), -1);
}

#[test]
fn metadata_getters_read_their_keys() {
    let m = full_metadata();
    assert_eq!(m.track_id(), Some("/org/mpris/track/7"));
    assert_eq!(m.title(), Some("A"));
    assert_eq!(
        m.artists(),
        Some(&vec!["B".to_string(), "C".to_string()])
    );
    assert_eq!(m.album_name(), Some("D"));
    assert_eq!(m.album_artists(), Some(&vec!["E".to_string()]));
    assert_eq!(m.track_number(), Some(3));
    assert_eq!(m.disc_number(), Some(2));
    assert_eq!(m.length_in_microseconds(), Some(180_000_999));
    assert_eq!(m.length(), Some(180_000));
    assert_eq!(m.art_url(), Some("file:///cover.png"));
    assert_eq!(m.url(), Some("file:///song.flac"));
    assert!(!m.is_empty());
    assert_eq!(m.keys().len(), 10);
    assert_eq!(m.keys()[1], "xesam:title");
    assert_eq!(m.entries().len(), 10);
}

#[test]
fn metadata_getters_refuse_other_types() {
    let m = Metadata::from_entries(vec![
        entry("xesam:title", MetadataValue::I32(5)),
        entry("xesam:artist", text("solo")),
        entry("xesam:trackNumber", MetadataValue::I64(4)),
        entry("mpris:length", text("long")),
        entry("xesam:album", MetadataValue::Other),
    ]);
    assert_eq!(m.title(), None);
    assert_eq!(m.artists(), None);
    assert_eq!(m.track_number(), None);
    assert_eq!(m.length_in_microseconds(), None);
    assert_eq!(m.length(), None);
    assert_eq!(m.album_name(), None);
    assert_eq!(m.get("xesam:album"), Some(&MetadataValue::Other));
    assert_eq!(m.get("xesam:genre"), None);
}

#[test]
fn first_entry_of_a_key_counts() {
    let m = Metadata::from_entries(vec![
        entry("xesam:title", text("first")),
        entry("xesam:title", text("second")),
    ]);
    assert_eq!(m.title(), Some("first"));
}

#[test]
fn signed_length_is_read_as_unsigned() {
    let m = Metadata::from_entries(vec![entry("mpris:length", MetadataValue::I64(5_000_000))]);
    assert_eq!(m.length_in_microseconds(), Some(5_000_000));
    let m = Metadata::from_entries(vec![entry("mpris:length", MetadataValue::I64(-1))]);
    assert_eq!(m.length_in_microseconds(), Some(u64::MAX));
    let m = Metadata::from_entries(vec![entry("mpris:length", MetadataValue::I64(i64::MIN))]);
    assert_eq!(m.length_in_microseconds(), Some(1u64 << 63));
}

#[test]
fn full_metadata_is_normalized() {
    assert_eq!(
        parse_metadata(&full_metadata()),
        MetadataInfo {
            track_id: "/org/mpris/track/7".to_string(),
            title: "A".to_string(),
            artist: "B".to_string(),
            album: "D".to_string(),
            album_artist: "E".to_string(),
            track_number: 3,
            duration: 180_000,
            art_url: "file:///cover.png".to_string(),
            track_url: "file:///song.flac".to_string(),
        }
    );
}

#[test]
fn empty_metadata_gives_defaults_and_unknown_duration() {
    let m = Metadata::from_entries(Vec::new());
    assert!(m.is_empty());
    assert_eq!(
        parse_metadata(&m),
        MetadataInfo {
            track_id: String::new(),
            title: String::new(),
            artist: String::new(),
            album: String::new(),
            album_artist: String::new(),
            track_number: 0,
            duration: -1,
            art_url: String::new(),
            track_url: String::new(),
        }
    );
    assert_eq!(parse_metadata(&Metadata::default()).duration, -1);
}

#[test]
fn empty_artist_list_gives_empty_artist() {
    let m = Metadata::from_entries(vec![
        entry("xesam:artist", texts(&[])),
        entry("xesam:albumArtist", texts(&["", "x"])),
    ]);
    let info = parse_metadata(&m);
    assert_eq!(info.artist, "");
    assert_eq!(info.album_artist, "");
}

#[test]
fn art_url_below_the_limit_is_kept() {
    let url = "a".repeat(999);
    let m = Metadata::from_entries(vec![entry("mpris:artUrl", text(&url))]);
    assert_eq!(parse_metadata(&m).art_url, url);
}

#[test]
fn art_url_at_the_limit_is_dropped() {
    let url = "a".repeat(1000);
    let m = Metadata::from_entries(vec![entry("mpris:artUrl", text(&url))]);
    assert_eq!(parse_metadata(&m).art_url, "");
    let url = "a".repeat(5000);
    let m = Metadata::from_entries(vec![entry("mpris:artUrl", text(&url))]);
    assert_eq!(parse_metadata(&m).art_url, "");
}

#[test]
fn art_url_limit_counts_bytes() {
    // 500 characters of two bytes each are 1000 bytes.
    let url = "é".repeat(500);
    let m = Metadata::from_entries(vec![entry("mpris:artUrl", text(&url))]);
    assert_eq!(parse_metadata(&m).art_url, "");
    let url = format!("{}a", "é".repeat(499));
    let m = Metadata::from_entries(vec![entry("mpris:artUrl", text(&url))]);
    assert_eq!(parse_metadata(&m).art_url, url);
}

#[test]
fn duration_of_extreme_lengths() {
    let m = Metadata::from_entries(vec![entry("mpris:length", MetadataValue::U64(u64::MAX))]);
    assert_eq!(parse_metadata(&m).duration, 18_446_744_073_709_551);
    let m = Metadata::from_entries(vec![entry("mpris:length", MetadataValue::U64(999))]);
    assert_eq!(parse_metadata(&m).duration, 0);
    let m = Metadata::from_entries(vec![entry("mpris:length", MetadataValue::U64(0))]);
    assert_eq!(parse_metadata(&m).duration, 0);
}

#[test]
fn active_players_are_listed_under_logical_identities() {
    let players = vec![
        SessionInfo {
            app_id: "org.mpris.MediaPlayer2.chromium.instance42".to_string(),
            app_name: "Chromium".to_string(),
        },
        SessionInfo {
            app_id: "org.mpris.MediaPlayer2.vlc".to_string(),
            app_name: String::new(),
        },
    ];
    assert_eq!(
        normalize_active_players(&players),
        vec![
            SessionInfo {
                app_id: "org.mpris.MediaPlayer2.chromium.instancen".to_string(),
                app_name: "Chromium".to_string(),
            },
            SessionInfo {
                app_id: "org.mpris.MediaPlayer2.vlc".to_string(),
                app_name: String::new(),
            },
        ]
    );
    assert!(normalize_active_players(&Vec::new()).is_empty());
}

#[test]
fn instances_of_one_player_are_listed_once() {
    let players = vec![
        SessionInfo {
            app_id: "org.mpris.MediaPlayer2.chromium.instance1".to_string(),
            app_name: "Chromium".to_string(),
        },
        SessionInfo {
            app_id: "org.mpris.MediaPlayer2.chromium.instance2".to_string(),
            app_name: "Chromium".to_string(),
        },
    ];
    assert_eq!(
        normalize_active_players(&players),
        vec![SessionInfo {
            app_id: "org.mpris.MediaPlayer2.chromium.instancen".to_string(),
            app_name: "Chromium".to_string(),
        }]
    );
}

#[test]
fn first_display_name_of_a_logical_identity_stays() {
    let players = vec![
        SessionInfo {
            app_id: "org.mpris.MediaPlayer2.firefox.instance_1_7".to_string(),
            app_name: "Firefox".to_string(),
        },
        SessionInfo {
            app_id: "org.mpris.MediaPlayer2.vlc".to_string(),
            app_name: "VLC".to_string(),
        },
        SessionInfo {
            app_id: "org.mpris.MediaPlayer2.firefox.instance_1_9".to_string(),
            app_name: "Nightly".to_string(),
        },
    ];
    let listed = normalize_active_players(&players);
    assert_eq!(listed.len(), 2);
    assert_eq!(listed[0].app_name, "Firefox");
    assert_eq!(listed[0].app_id, pano_native_components::identity::normalize_dbus_name(
        "org.mpris.MediaPlayer2.firefox.instance_1_7"
    ));
    assert_eq!(listed[1].app_id, "org.mpris.MediaPlayer2.vlc");
}
