use pano_native_components::dispatcher::{
    metadata_changed, playback_state_changed, sessions_changed, BoundedQueue, Offered,
    INLET_CAPACITY, OUTBOUND_CAPACITY, TRACKER_INLET_CAPACITY,
};
use pano_native_components::events::{
    is_dark_mode, log_info, log_warn, loop_step, media_remote_step, on_active_sessions_changed,
    on_metadata_changed, on_playback_state_changed, on_tray_menu_item_clicked, on_webview_cookies,
    on_webview_page_load, single_instance_outcome, theme_change_to_report, tray_step, LoopStep,
    MediaRemoteStep, SingleInstanceError, TrayStep, UserEvent,
};
use pano_native_components::ipc::{
    frame_command, ipc_callback, parse_command, pipe_name, reports_send_failure, IpcCommand,
};
use pano_native_components::machine_uid::{
    dbus_path, dbus_path_etc, extract_id, get_machine_id, machine_guid, MachineIdError,
};
use pano_native_components::media_info::{
    IncomingPlayerEvent, JniCallback, MediaRemoteEvent, MetadataInfo, PlaybackInfo, PlaybackState,
    SessionInfo,
};
use pano_native_components::tray::PanoTray;
use pano_native_components::webview::{
    cookie_pair, navigation, webview_step, Navigation, WebViewIncomingEvent, WebViewStep,
};

fn callback(name: &str, argument: &str) -> UserEvent {
    UserEvent::JniCallback(name.to_string(), argument.to_string())
}

fn command(c: &str, a: &str) -> Option<IpcCommand> {
    Some(IpcCommand {
        command: c.to_string(),
        arg: a.to_string(),
    })
}

const IDLE: MediaRemoteStep = MediaRemoteStep {
    poll_app_info: false,
    poll_now_playing: false,
    send_skip: false,
    leave: false,
};

#[test]
fn queue_hands_out_in_arrival_order() {
    let mut queue: BoundedQueue<u32> = BoundedQueue::new(3);
    assert!(queue.is_empty());
    assert_eq!(queue.offer(1), Offered::Queued);
    assert_eq!(queue.offer(2), Offered::Queued);
    assert_eq!(queue.offer(3), Offered::Queued);
    assert_eq!(queue.len(), 3);
    assert_eq!(queue.take(), Some(1));
    assert_eq!(queue.take(), Some(2));
    assert_eq!(queue.offer(4), Offered::Queued);
    assert_eq!(queue.take(), Some(3));
    assert_eq!(queue.take(), Some(4));
    assert_eq!(queue.take(), None);
}

#[test]
fn full_queue_drops_the_offered_item() {
    let mut queue: BoundedQueue<&str> = BoundedQueue::new(2);
    assert_eq!(queue.capacity(), 2);
    assert_eq!(queue.offer("a"), Offered::Queued);
    assert!(!queue.is_full());
    assert_eq!(queue.offer("b"), Offered::Queued);
    assert!(queue.is_full());
    assert_eq!(queue.offer("c"), Offered::Dropped);
    assert_eq!(queue.len(), 2);
    assert_eq!(queue.take(), Some("a"));
    assert_eq!(queue.offer("d"), Offered::Queued);
    assert_eq!(queue.take(), Some("b"));
    assert_eq!(queue.take(), Some("d"));
}

#[test]
fn queue_without_room_drops_everything() {
    let mut queue: BoundedQueue<u8> = BoundedQueue::new(0);
    assert!(queue.is_full());
    assert!(queue.is_empty());
    assert_eq!(queue.offer(1), Offered::Dropped);
    assert_eq!(queue.take(), None);
}

#[test]
fn cleared_queue_is_empty_and_keeps_its_capacity() {
    let mut queue: BoundedQueue<u8> = BoundedQueue::new(OUTBOUND_CAPACITY);
    for i in 0..20u8 {
        queue.offer(i);
    }
    assert_eq!(queue.len(), 10);
    queue.clear();
    assert!(queue.is_empty());
    assert_eq!(queue.capacity(), 10);
    assert_eq!(INLET_CAPACITY, 100);
    assert_eq!(TRACKER_INLET_CAPACITY, 1);
}

#[test]
fn outbound_events_carry_identity_and_payload() {
    let playback = PlaybackInfo {
        state: PlaybackState::Playing,
        position: 5,
        can_skip: false,
    };
    assert_eq!(
        playback_state_changed("app.Foo", playback),
        JniCallback::PlaybackStateChanged("app.Foo".to_string(), playback)
    );
    let metadata = MetadataInfo {
        track_id: "t".to_string(),
        title: "A".to_string(),
        artist: "B".to_string(),
        album: String::new(),
        album_artist: String::new(),
        track_number: 1,
        duration: -1,
        art_url: String::new(),
        track_url: String::new(),
    };
    assert_eq!(
        metadata_changed("app.Foo", metadata.clone()),
        JniCallback::MetadataChanged("app.Foo".to_string(), metadata)
    );
    let sessions = vec![SessionInfo {
        app_id: "app.Foo".to_string(),
        app_name: "Foo".to_string(),
    }];
    assert_eq!(
        sessions_changed(sessions.clone()),
        JniCallback::SessionsChanged(sessions)
    );
}

#[test]
fn host_callbacks_are_named() {
    assert_eq!(log_info("hello"), callback("onLogInfo", "hello"));
    assert_eq!(log_warn("careful"), callback("onLogWarn", "careful"));
    assert_eq!(
        on_active_sessions_changed("[]".to_string()),
        callback("onActiveSessionsChanged", "[]")
    );
    assert_eq!(
        on_metadata_changed("{}".to_string()),
        callback("onMetadataChanged", "{}")
    );
    assert_eq!(
        on_playback_state_changed("{\"p\":1}".to_string()),
        callback("onPlaybackStateChanged", "{\"p\":1}")
    );
    assert_eq!(
        on_tray_menu_item_clicked("quit".to_string()),
        callback("onTrayMenuItemClicked", "quit")
    );
    assert_eq!(
        on_webview_page_load("https://x".to_string()),
        callback("onWebViewPageLoad", "https://x")
    );
    assert_eq!(
        on_webview_cookies("{}".to_string()),
        callback("onWebViewCookies", "{}")
    );
}

#[test]
fn event_loop_steps() {
    let tray = UserEvent::UpdateTray(PanoTray::initial());
    let launch = UserEvent::LaunchWebview("u".to_string(), "p".to_string(), "d".to_string());
    assert_eq!(loop_step(&callback("a", "b"), false, false), LoopStep::CallHost);
    assert_eq!(loop_step(&tray, true, false), LoopStep::UpdateTray);
    assert_eq!(loop_step(&tray, false, true), LoopStep::Ignore);
    assert_eq!(loop_step(&launch, true, false), LoopStep::StartWindowLoop);
    assert_eq!(loop_step(&launch, true, true), LoopStep::ForwardToWindowLoop);
    assert_eq!(loop_step(&UserEvent::QuitWebview, true, false), LoopStep::Ignore);
    assert_eq!(
        loop_step(&UserEvent::QuitWebview, true, true),
        LoopStep::ForwardToWindowLoop
    );
    assert_eq!(
        loop_step(&UserEvent::WebViewCookiesFor("u".to_string()), false, false),
        LoopStep::Ignore
    );
    assert_eq!(
        loop_step(&UserEvent::WebViewCookiesFor("u".to_string()), false, true),
        LoopStep::ForwardToWindowLoop
    );
    assert_eq!(loop_step(&UserEvent::ShutdownEventLoop, true, true), LoopStep::Exit);
}

#[test]
fn tray_is_spawned_once() {
    assert_eq!(tray_step(false, false), TrayStep::Spawn);
    assert_eq!(tray_step(false, true), TrayStep::Spawn);
    assert_eq!(tray_step(true, true), TrayStep::Update);
    assert_eq!(tray_step(true, false), TrayStep::Skip);
}

#[test]
fn media_remote_notifications_lead_to_polls() {
    let notified = |e| media_remote_step(Some(&IncomingPlayerEvent::MediaRemote(e)), None);
    assert_eq!(
        notified(MediaRemoteEvent::kMRMediaRemoteNowPlayingApplicationDidChangeNotification),
        MediaRemoteStep {
            poll_app_info: true,
            ..IDLE
        }
    );
    for e in [
        MediaRemoteEvent::kMRMediaRemoteNowPlayingApplicationIsPlayingDidChangeNotification,
        MediaRemoteEvent::kMRMediaRemoteNowPlayingApplicationClientStateDidChange,
        MediaRemoteEvent::kMRPlaybackQueueContentItemsChangedNotification,
    ] {
        assert_eq!(
            notified(e),
            MediaRemoteStep {
                poll_now_playing: true,
                ..IDLE
            }
        );
    }
    assert_eq!(
        notified(MediaRemoteEvent::kMRNowPlayingPlaybackQueueChangedNotification),
        IDLE
    );
}

#[test]
fn media_remote_commands() {
    assert_eq!(
        media_remote_step(Some(&IncomingPlayerEvent::RefreshSessions), Some("app.Foo")),
        MediaRemoteStep {
            poll_app_info: true,
            poll_now_playing: true,
            ..IDLE
        }
    );
    let skip = IncomingPlayerEvent::Skip("app.Foo".to_string());
    assert_eq!(
        media_remote_step(Some(&skip), Some("app.Foo")),
        MediaRemoteStep {
            send_skip: true,
            ..IDLE
        }
    );
    assert_eq!(media_remote_step(Some(&skip), Some("app.Bar")), IDLE);
    assert_eq!(media_remote_step(Some(&skip), None), IDLE);
    assert_eq!(
        media_remote_step(Some(&IncomingPlayerEvent::Mute("app.Foo".to_string())), Some("app.Foo")),
        IDLE
    );
    assert_eq!(
        media_remote_step(Some(&IncomingPlayerEvent::Unmute("app.Foo".to_string())), None),
        IDLE
    );
    let leave = MediaRemoteStep {
        leave: true,
        ..IDLE
    };
    assert_eq!(media_remote_step(Some(&IncomingPlayerEvent::Shutdown), None), leave);
    assert_eq!(media_remote_step(None, Some("app.Foo")), leave);
}

#[test]
fn dark_mode_is_read_from_the_light_theme_value() {
    assert!(is_dark_mode(Some(0)));
    assert!(!is_dark_mode(Some(1)));
    assert!(!is_dark_mode(Some(2)));
    assert!(!is_dark_mode(None));
}

#[test]
fn theme_is_reported_when_it_changes() {
    assert_eq!(theme_change_to_report(false, true), Some(true));
    assert_eq!(theme_change_to_report(true, false), Some(false));
    assert_eq!(theme_change_to_report(true, true), None);
    assert_eq!(theme_change_to_report(false, false), None);
}

#[test]
fn single_instance_outcomes() {
    assert_eq!(single_instance_outcome(Some(true), false), Ok(()));
    assert_eq!(
        single_instance_outcome(Some(true), true),
        Err(SingleInstanceError::MutexError)
    );
    assert_eq!(
        single_instance_outcome(Some(false), false),
        Err(SingleInstanceError::MutexError)
    );
    assert_eq!(single_instance_outcome(None, false), Err(SingleInstanceError::Nul));
    assert_eq!(single_instance_outcome(None, true), Err(SingleInstanceError::Nul));
    assert_eq!(SingleInstanceError::Nul.message(), "Wide string null error");
    assert_eq!(SingleInstanceError::MutexError.message(), "CreateMutex failed");
}

#[test]
fn ipc_line_is_split_at_the_first_space() {
    assert_eq!(parse_command("focus-existing now\n"), command("focus-existing", "now"));
    assert_eq!(parse_command("open a b  c \n"), command("open", "a b  c"));
    assert_eq!(parse_command("cmd \n"), command("cmd", ""));
    assert_eq!(parse_command(" arg"), command("", "arg"));
    assert_eq!(parse_command("  x"), command("", "x"));
    assert_eq!(parse_command("\tcmd\t arg\r\n"), command("cmd", "arg"));
}

#[test]
fn ipc_line_without_space_holds_no_command() {
    assert_eq!(parse_command("focus-existing\n"), None);
    assert_eq!(parse_command(""), None);
    assert_eq!(parse_command("a\tb\n"), None);
}

#[test]
fn ipc_command_is_framed_and_read_back() {
    assert_eq!(frame_command("focus-existing", "x y"), "focus-existing x y\n");
    assert_eq!(frame_command("", ""), " \n");
    assert_eq!(
        parse_command(&frame_command("scrobble", " now playing ")),
        command("scrobble", "now playing")
    );
    assert_eq!(pipe_name(), "pano-scrobbler-ipc");
}

#[test]
fn ipc_command_becomes_a_callback() {
    assert_eq!(
        ipc_callback(IpcCommand {
            command: "c".to_string(),
            arg: "a".to_string()
        }),
        JniCallback::IpcCallback("c".to_string(), "a".to_string())
    );
    assert!(reports_send_failure("scrobble"));
    assert!(!reports_send_failure("focus-existing"));
    assert!(reports_send_failure("focus-existing "));
}

#[test]
fn machine_id_is_the_trimmed_first_readable_file() {
    assert_eq!(
        get_machine_id(Some("  abc123\n"), Some("other\n")),
        Ok("abc123".to_string())
    );
    assert_eq!(get_machine_id(Some(""), Some("other\n")), Ok(String::new()));
    assert_eq!(get_machine_id(None, Some("\tdef456 \r\n")), Ok("def456".to_string()));
    assert_eq!(get_machine_id(Some("a b"), None), Ok("a b".to_string()));
    assert_eq!(get_machine_id(Some(" \n\t "), None), Ok(String::new()));
    assert_eq!(
        get_machine_id(Some("\u{a0}\u{2003}id\u{3000}"), None),
        Ok("id".to_string())
    );
}

#[test]
fn machine_id_without_a_readable_file_is_an_error() {
    assert_eq!(get_machine_id(None, None), Err(MachineIdError::Unreadable));
    assert_eq!(
        MachineIdError::Unreadable.message(),
        "No machine id could be read."
    );
    assert_eq!(dbus_path(), "/var/lib/dbus/machine-id");
    assert_eq!(dbus_path_etc(), "/etc/machine-id");
}

#[test]
fn machine_guid_is_trimmed() {
    assert_eq!(machine_guid(" 1234-abcd \n"), "1234-abcd");
    assert_eq!(machine_guid(""), "");
}

#[test]
fn platform_uuid_is_extracted() {
    let listing = "+-o Root  <class IOPlatformExpertDevice>\n    {\n      \"IOPolledInterface\" = \"x\"\n      \"IOPlatformUUID\" = \"ABCD-1234\"\n      \"IOPlatformSerialNumber\" = \"S\"\n    }\n";
    assert_eq!(extract_id(listing), Ok("ABCD-1234".to_string()));
}

#[test]
fn platform_uuid_edge_cases() {
    assert_eq!(
        extract_id("IOPlatformUUID=first\nIOPlatformUUID=second"),
        Ok("first".to_string())
    );
    assert_eq!(extract_id("x IOPlatformUUID y"), Ok("x IOPlatformUUID y".to_string()));
    assert_eq!(extract_id("IOPlatformUUID = a=\"b\" "), Ok("b".to_string()));
    assert_eq!(extract_id("\"IOPlatformUUID\" = \"\""), Ok(String::new()));
    assert_eq!(extract_id("a\n\n\"IOPlatformUUID\"=\t\"q\"\t\n"), Ok("q".to_string()));
}

#[test]
fn listing_without_platform_uuid_is_an_error() {
    assert_eq!(extract_id(""), Err(MachineIdError::NoPlatformUuid));
    assert_eq!(
        extract_id("\"IOPlatformSerialNumber\" = \"S\"\nIOPlatform\nUUID\n"),
        Err(MachineIdError::NoPlatformUuid)
    );
    assert_eq!(
        MachineIdError::NoPlatformUuid.message(),
        "No matching IOPlatformUUID in `ioreg -rd1 -c IOPlatformExpertDevice` command."
    );
}

#[test]
fn callback_urls_are_intercepted() {
    assert_eq!(
        navigation("https://app/callback?token=1", "https://app/callback"),
        Navigation::Intercept
    );
    assert_eq!(
        navigation("https://app/login", "https://app/callback"),
        Navigation::Follow
    );
    assert_eq!(navigation("https://app", "https://app/callback"), Navigation::Follow);
    assert_eq!(navigation("anything", ""), Navigation::Intercept);
}

#[test]
fn cookies_are_written_as_pairs() {
    assert_eq!(cookie_pair("session", "abc"), "session=abc");
    assert_eq!(cookie_pair("", ""), "=");
    assert_eq!(cookie_pair("a", "b=c"), "a=b=c");
}

#[test]
fn webview_loop_steps() {
    let launch = WebViewIncomingEvent::LaunchWebView("u".to_string(), "p".to_string(), "d".to_string());
    assert_eq!(webview_step(&launch, false), WebViewStep::Open);
    assert_eq!(webview_step(&launch, true), WebViewStep::Open);
    assert_eq!(
        webview_step(&WebViewIncomingEvent::WebViewUrlLoaded("u".to_string()), false),
        WebViewStep::ReportUrl
    );
    assert_eq!(
        webview_step(&WebViewIncomingEvent::WebViewCookiesFor("u".to_string()), true),
        WebViewStep::ReportCookies
    );
    assert_eq!(
        webview_step(&WebViewIncomingEvent::WebViewCookiesFor("u".to_string()), false),
        WebViewStep::Ignore
    );
    assert_eq!(webview_step(&WebViewIncomingEvent::QuitWebView, true), WebViewStep::Close);
}
