use pano_native_components::discord::{
    discord_rpc, end_time_of, non_empty, pair_buttons, playing_plan, recovery, status_display,
    ActivityPlan, DiscordActivity as PresenceActivity, PresenceRequest, Recovery, SendFailure,
    StatusDisplay,
};
use pano_native_components::discord_rpc::{clear, update, ClearSteps, DiscordActivity};
use pano_native_components::notifications::{filter_label, notify, picked_uri};
use pano_native_components::text::{char_is_whitespace, chars_of, trim_str, TrimSet};
use pano_native_components::tray::{
    argb_to_rgba, dummy_icon, menu_entry, pixels_to_rgba, pixels_to_tray_icon, PanoTray,
    PanoTrayData, TrayIcon, TrayMenuEntry,
};
use pano_native_components::windows_utils::{
    add_remove_startup, aumid, aumid_key_path, is_added_to_startup, is_file_locked, reg_name,
    reg_path, register_aumid_if_needed, startup_command, AumidValue, StartupChange,
};

fn strings(items: &[&str]) -> Vec<String> {
    items.iter().map(|s| s.to_string()).collect()
}

fn pair(a: &str, b: &str) -> (String, String) {
    (a.to_string(), b.to_string())
}

fn activity() -> DiscordActivity {
    DiscordActivity {
        client_id: "1".to_string(),
        name: "Pano".to_string(),
        state: "B".to_string(),
        details: "A".to_string(),
        large_text: "Album".to_string(),
        start_time: 100,
        end_time: Some(200),
        details_url: "https://track".to_string(),
        art_url: "https://art".to_string(),
        status_line: 1,
        is_playing: true,
        button_text: "Open".to_string(),
        button_url: "https://open".to_string(),
    }
}

#[test]
fn dummy_icon_has_four_bytes_for_each_pixel() {
    assert_eq!(dummy_icon(2), vec![200u8; 16]);
    assert_eq!(dummy_icon(64).len(), 16384);
    assert!(dummy_icon(64).iter().all(|b| *b == 200));
    assert!(dummy_icon(0).is_empty());
    assert_eq!(dummy_icon(1), vec![200u8; 4]);
}

#[test]
fn menu_entries_follow_the_item_identity() {
    assert_eq!(menu_entry("Separator", "ignored"), TrayMenuEntry::Separator);
    assert_eq!(
        menu_entry("Dummy", "Initializing"),
        TrayMenuEntry::Standard {
            id: "Dummy".to_string(),
            label: "Initializing".to_string(),
            enabled: false
        }
    );
    assert_eq!(
        menu_entry("quit", "Quit"),
        TrayMenuEntry::Standard {
            id: "quit".to_string(),
            label: "Quit".to_string(),
            enabled: true
        }
    );
    assert_eq!(
        menu_entry("separator", ""),
        TrayMenuEntry::Standard {
            id: "separator".to_string(),
            label: String::new(),
            enabled: true
        }
    );
}

#[test]
fn initial_tray_is_a_placeholder() {
    let tray = PanoTray::initial();
    assert_eq!(tray.tooltip, "Pano Scrobbler");
    assert_eq!(tray.icon_dim, 64);
    assert_eq!(tray.icon_argb, vec![200u8; 16384]);
    assert_eq!(tray.menu_items, vec![pair("Dummy", "Initializing Pano Scrobbler")]);
    assert_eq!(tray.id(), "com.arn.scrobble.tray");
    assert_eq!(tray.title(), "Pano Scrobbler");
    assert_eq!(
        tray.menu(),
        vec![TrayMenuEntry::Standard {
            id: "Dummy".to_string(),
            label: "Initializing Pano Scrobbler".to_string(),
            enabled: false
        }]
    );
}

#[test]
fn tray_shows_what_the_host_handed_over() {
    let tray = PanoTray::from_data(PanoTrayData {
        tooltip: "Now playing".to_string(),
        icon_argb: vec![1, 2, 3, 4],
        icon_dim: 1,
        menu_items: vec![pair("open", "Open"), pair("Separator", ""), pair("quit", "Quit")],
    });
    assert_eq!(tray.tooltip, "Now playing");
    assert_eq!(
        tray.icon_pixmap(),
        TrayIcon {
            width: 1,
            height: 1,
            data: vec![1, 2, 3, 4]
        }
    );
    let menu = tray.menu();
    assert_eq!(menu.len(), 3);
    assert_eq!(menu[1], TrayMenuEntry::Separator);
    assert_eq!(
        menu[2],
        TrayMenuEntry::Standard {
            id: "quit".to_string(),
            label: "Quit".to_string(),
            enabled: true
        }
    );
}

#[test]
fn icon_dimension_wraps_like_a_signed_number() {
    let mut tray = PanoTray::initial();
    tray.icon_dim = i32::MAX as u32;
    assert_eq!(tray.icon_pixmap().width, i32::MAX);
    tray.icon_dim = 1u32 << 31;
    assert_eq!(tray.icon_pixmap().width, i32::MIN);
    tray.icon_dim = u32::MAX;
    assert_eq!(tray.icon_pixmap().height, -1);
}

#[test]
fn packed_pixels_become_rgba_bytes() {
    assert_eq!(
        pixels_to_rgba(&vec![0x11223344, 0xFF000080]),
        vec![0x22, 0x33, 0x44, 0x11, 0x00, 0x00, 0x80, 0xFF]
    );
    assert!(pixels_to_rgba(&Vec::new()).is_empty());
}

#[test]
fn packed_pixels_become_tray_icon_bytes() {
    // Alpha, then red, then blue, then green.
    assert_eq!(
        pixels_to_tray_icon(&vec![0x11223344, 0xFF000080]),
        vec![0x11, 0x22, 0x44, 0x33, 0xFF, 0x00, 0x80, 0x00]
    );
    assert!(pixels_to_tray_icon(&Vec::new()).is_empty());
}

#[test]
fn argb_bytes_become_rgba_bytes() {
    assert_eq!(
        argb_to_rgba(&vec![1, 2, 3, 4, 5, 6, 7, 8]),
        vec![2, 3, 4, 1, 6, 7, 8, 5]
    );
    // Bytes beyond the last whole pixel are left out.
    assert_eq!(argb_to_rgba(&vec![1, 2, 3, 4, 5, 6]), vec![2, 3, 4, 1]);
    assert!(argb_to_rgba(&vec![9, 9, 9]).is_empty());
}

#[test]
fn status_line_chooses_the_display() {
    assert_eq!(status_display(2), StatusDisplay::State);
    assert_eq!(status_display(1), StatusDisplay::Details);
    assert_eq!(status_display(0), StatusDisplay::Name);
    assert_eq!(status_display(3), StatusDisplay::Name);
    assert_eq!(status_display(-1), StatusDisplay::Name);
}

#[test]
fn empty_texts_and_times_are_left_out() {
    assert_eq!(non_empty(""), None);
    assert_eq!(non_empty(" "), Some(" ".to_string()));
    assert_eq!(end_time_of(0), None);
    assert_eq!(end_time_of(-5), None);
    assert_eq!(end_time_of(1), Some(1));
}

#[test]
fn buttons_are_paired_where_both_parts_are_there() {
    assert_eq!(
        pair_buttons(
            &strings(&["a", "", "c", "d"]),
            &strings(&["1", "2", "", "4", "5"])
        ),
        vec![pair("a", "1"), pair("d", "4")]
    );
    assert!(pair_buttons(&strings(&["a"]), &Vec::new()).is_empty());
    assert!(pair_buttons(&Vec::new(), &strings(&["1"])).is_empty());
}

#[test]
fn playing_track_is_planned() {
    let buttons = vec![pair("One", "u1"), pair("Two", "u2"), pair("Three", "u3")];
    let plan = playing_plan("B", "A", "Album", 100, Some(200), Some("https://art"), 2, true, &buttons);
    assert_eq!(
        plan,
        ActivityPlan {
            name: None,
            state: "B".to_string(),
            details: "A".to_string(),
            status_display: StatusDisplay::State,
            large_image: "https://art".to_string(),
            large_text: Some("Album".to_string()),
            small_image: None,
            small_text: None,
            details_url: Some("u1".to_string()),
            buttons: vec![pair("One", "u1"), pair("Two", "u2")],
            start: 100,
            end: Some(200),
        }
    );
}

#[test]
fn paused_track_without_art_is_planned() {
    let plan = playing_plan("B", "A", "", 0, None, None, 7, false, &Vec::new());
    assert_eq!(plan.large_image, "graphic_eq");
    assert_eq!(plan.large_text, None);
    assert_eq!(plan.small_image, Some("pause_circle".to_string()));
    assert_eq!(plan.small_text, Some("Paused".to_string()));
    assert_eq!(plan.details_url, None);
    assert!(plan.buttons.is_empty());
    assert_eq!(plan.status_display, StatusDisplay::Name);
    assert_eq!(plan.end, None);
    let one = playing_plan("B", "A", "", 0, None, None, 7, false, &vec![pair("One", "u1")]);
    assert_eq!(one.buttons, vec![pair("One", "u1")]);
}

#[test]
fn failures_are_recovered_from() {
    assert_eq!(recovery(SendFailure::NotConnected), Recovery::ConnectAndRetry);
    assert_eq!(recovery(SendFailure::IpcConnectionFailed), Recovery::ReconnectAndRetry);
    assert_eq!(recovery(SendFailure::WriteError), Recovery::ReconnectAndRetry);
    assert_eq!(recovery(SendFailure::Other), Recovery::LogOnly);
}

#[test]
fn presence_requests() {
    assert_eq!(discord_rpc(&PresenceActivity::Clear, true), PresenceRequest::Clear);
    assert_eq!(discord_rpc(&PresenceActivity::Clear, false), PresenceRequest::NotConnected);
    assert_eq!(discord_rpc(&PresenceActivity::Stop, true), PresenceRequest::Close);
    assert_eq!(discord_rpc(&PresenceActivity::Stop, false), PresenceRequest::NotConnected);
    let playing = PresenceActivity::Playing {
        client_id: "42".to_string(),
        state: "B".to_string(),
        details: "A".to_string(),
        large_text: String::new(),
        start_time: 5,
        end_time: None,
        art_url: None,
        status_line: 1,
        is_playing: true,
        buttons_texts_and_urls: Vec::new(),
    };
    assert_eq!(
        discord_rpc(&playing, false),
        PresenceRequest::Show {
            client_id: "42".to_string(),
            plan: playing_plan("B", "A", "", 5, None, None, 1, true, &Vec::new()),
        }
    );
}

#[test]
fn update_plans_the_whole_activity() {
    assert_eq!(
        update(&activity()),
        ActivityPlan {
            name: Some("Pano".to_string()),
            state: "B".to_string(),
            details: "A".to_string(),
            status_display: StatusDisplay::Details,
            large_image: "https://art".to_string(),
            large_text: Some("Album".to_string()),
            small_image: None,
            small_text: None,
            details_url: Some("https://track".to_string()),
            buttons: vec![pair("Open", "https://open")],
            start: 100,
            end: Some(200),
        }
    );
}

#[test]
fn update_leaves_out_what_is_empty() {
    let mut da = activity();
    da.name = String::new();
    da.large_text = String::new();
    da.details_url = String::new();
    da.art_url = String::new();
    da.button_url = String::new();
    da.is_playing = false;
    da.end_time = None;
    let plan = update(&da);
    assert_eq!(plan.name, None);
    assert_eq!(plan.large_text, None);
    assert_eq!(plan.details_url, None);
    assert_eq!(plan.large_image, "graphic_eq");
    assert!(plan.buttons.is_empty());
    assert_eq!(plan.small_image, Some("pause_circle".to_string()));
    assert_eq!(plan.small_text, Some("Paused".to_string()));
    assert_eq!(plan.end, None);
    da.button_url = "u".to_string();
    da.button_text = String::new();
    assert!(update(&da).buttons.is_empty());
}

#[test]
fn clearing_needs_a_client() {
    assert_eq!(clear(false, false), None);
    assert_eq!(clear(false, true), None);
    assert_eq!(
        clear(true, false),
        Some(ClearSteps {
            clear_activity: true,
            close: false
        })
    );
    assert_eq!(
        clear(true, true),
        Some(ClearSteps {
            clear_activity: true,
            close: true
        })
    );
}

#[test]
fn startup_entry() {
    assert_eq!(startup_command("C:\\pano.exe"), "\"C:\\pano.exe\" -m");
    assert_eq!(
        add_remove_startup("C:\\pano.exe", true),
        StartupChange::Write("\"C:\\pano.exe\" -m".to_string())
    );
    assert_eq!(add_remove_startup("C:\\pano.exe", false), StartupChange::Remove);
    assert!(is_added_to_startup(Some("\"C:\\pano.exe\" -m"), "C:\\pano.exe"));
    assert!(!is_added_to_startup(Some("\"C:\\pano.exe\""), "C:\\pano.exe"));
    assert!(!is_added_to_startup(Some("\"C:\\other.exe\" -m"), "C:\\pano.exe"));
    assert!(!is_added_to_startup(None, "C:\\pano.exe"));
    assert_eq!(reg_path(), "Software\\Microsoft\\Windows\\CurrentVersion\\Run");
    assert_eq!(reg_name(), "Pano Scrobbler");
}

#[test]
fn aumid_is_registered_once() {
    assert_eq!(aumid(), "com.arn.scrobble");
    assert_eq!(aumid_key_path(), "Software\\Classes\\AppUserModelId\\com.arn.scrobble");
    assert!(register_aumid_if_needed(true, "icon.png").is_empty());
    assert_eq!(
        register_aumid_if_needed(false, "icon.png"),
        vec![
            AumidValue {
                name: "DisplayName".to_string(),
                value: "Pano Scrobbler".to_string(),
                expand: true
            },
            AumidValue {
                name: "IconUri".to_string(),
                value: "icon.png".to_string(),
                expand: true
            },
            AumidValue {
                name: "IconBackgroundColor".to_string(),
                value: "0".to_string(),
                expand: false
            },
        ]
    );
}

#[test]
fn file_is_locked_on_a_sharing_violation() {
    assert!(is_file_locked(Some(Some(32))));
    assert!(!is_file_locked(Some(Some(5))));
    assert!(!is_file_locked(Some(None)));
    assert!(!is_file_locked(None));
}

#[test]
fn notification_is_planned() {
    let plan = notify("Title", "Body", false);
    assert_eq!(plan.app_name, "Pano Scrobbler");
    assert_eq!(plan.summary, "Title");
    assert_eq!(plan.body, "Body");
    assert_eq!(plan.timeout_ms, 10000);
    assert!(!plan.auto_icon);
    assert_eq!(plan.desktop_entry, Some("pano-scrobbler".to_string()));
    let plan = notify("", "", true);
    assert!(plan.auto_icon);
    assert_eq!(plan.desktop_entry, None);
}

#[test]
fn filter_label_joins_the_patterns() {
    assert_eq!(filter_label(&strings(&["*.json", "*.csv", "*"])), "*.json, *.csv, *");
    assert_eq!(filter_label(&strings(&["*.json"])), "*.json");
    assert_eq!(filter_label(&Vec::new()), "");
    assert_eq!(filter_label(&strings(&["", ""])), ", ");
}

#[test]
fn picked_uri_is_the_first_or_empty() {
    assert_eq!(picked_uri(Some(&strings(&["file:///a", "file:///b"]))), "file:///a");
    assert_eq!(picked_uri(Some(&Vec::new())), "");
    assert_eq!(picked_uri(None), "");
}

#[test]
fn whitespace_is_what_unicode_says() {
    for c in ['\u{0}', 'a', '"', '\u{200b}', '\u{feff}', '\u{180e}', '\u{1c}'] {
        assert!(!char_is_whitespace(c));
    }
    let mut count = 0;
    for u in 0..=0x10FFFFu32 {
        if let Some(c) = char::from_u32(u) {
            assert_eq!(char_is_whitespace(c), c.is_whitespace());
            if c.is_whitespace() {
                count += 1;
            }
        }
    }
    assert_eq!(count, 25);
}

#[test]
fn trimming_takes_from_both_ends_only() {
    assert_eq!(trim_str("  a b \t\n", TrimSet::Whitespace), "a b");
    assert_eq!(trim_str("\" a \"", TrimSet::Whitespace), "\" a \"");
    assert_eq!(trim_str("\" a\"b \" ", TrimSet::QuoteOrWhitespace), "a\"b");
    assert_eq!(trim_str("\"\" \"", TrimSet::QuoteOrWhitespace), "");
    assert_eq!(trim_str("", TrimSet::Whitespace), "");
    assert_eq!(chars_of("aé\u{1F600}"), vec!['a', 'é', '\u{1F600}']);
}
