//! The events of the host's event loop and the decisions that the loops take
//! on them.
//!
//! A loop receives an event, asks here what it means, and does it. What the
//! host is to be called with is a pair of the callback's name and one text
//! argument.

use vstd::prelude::*;
use vstd::string::*;
use crate::media_info::{IncomingPlayerEvent, MediaRemoteEvent};
use crate::text::str_is;
use crate::tray::PanoTray;

verus! {

/// An event of the host's event loop.
#[derive(Clone, Debug, PartialEq, Eq)]
pub enum UserEvent {
    UpdateTray(PanoTray),
    /// The name of a callback of the host, and its argument.
    JniCallback(String, String),
    /// URL, callback prefix, data directory.
    LaunchWebview(String, String, String),
    WebViewCookiesFor(String),
    QuitWebview,
    ShutdownEventLoop,
}

/// The call of the host's callback `name` with the argument `argument`.
pub open spec fn is_callback(event: UserEvent, name: Seq<char>, argument: Seq<char>) -> bool {
    event matches UserEvent::JniCallback(n, a) && n@ == name && a@ == argument
}

/// The event that logs `msg` at the host as information.
pub fn log_info(msg: &str) -> (r: UserEvent)
    ensures
        is_callback(r, "onLogInfo"@, msg@),
{
    UserEvent::JniCallback("onLogInfo".to_owned(), msg.to_owned())
}

/// The event that logs `msg` at the host as a warning.
pub fn log_warn(msg: &str) -> (r: UserEvent)
    ensures
        is_callback(r, "onLogWarn"@, msg@),
{
    UserEvent::JniCallback("onLogWarn".to_owned(), msg.to_owned())
}

/// The event that hands the serialized session list to the host.
pub fn on_active_sessions_changed(json_data: String) -> (r: UserEvent)
    ensures
        is_callback(r, "onActiveSessionsChanged"@, json_data@),
{
    UserEvent::JniCallback("onActiveSessionsChanged".to_owned(), json_data)
}

/// The event that hands serialized metadata to the host.
pub fn on_metadata_changed(json_data: String) -> (r: UserEvent)
    ensures
        is_callback(r, "onMetadataChanged"@, json_data@),
{
    UserEvent::JniCallback("onMetadataChanged".to_owned(), json_data)
}

/// The event that hands a serialized playback state to the host.
pub fn on_playback_state_changed(json_data: String) -> (r: UserEvent)
    ensures
        is_callback(r, "onPlaybackStateChanged"@, json_data@),
{
    UserEvent::JniCallback("onPlaybackStateChanged".to_owned(), json_data)
}

/// The event that tells the host which tray menu item was chosen.
pub fn on_tray_menu_item_clicked(item_id: String) -> (r: UserEvent)
    ensures
        is_callback(r, "onTrayMenuItemClicked"@, item_id@),
{
    UserEvent::JniCallback("onTrayMenuItemClicked".to_owned(), item_id)
}

/// The event that tells the host which page the web view loads.
pub fn on_webview_page_load(url: String) -> (r: UserEvent)
    ensures
        is_callback(r, "onWebViewPageLoad"@, url@),
{
    UserEvent::JniCallback("onWebViewPageLoad".to_owned(), url)
}

/// The event that hands serialized cookies to the host.
pub fn on_webview_cookies(json_data: String) -> (r: UserEvent)
    ensures
        is_callback(r, "onWebViewCookies"@, json_data@),
{
    UserEvent::JniCallback("onWebViewCookies".to_owned(), json_data)
}

/// What the event loop does with an event.
#[derive(Clone, Copy, Debug, PartialEq, Eq, Structural)]
pub enum LoopStep {
    /// Call the host's callback.
    CallHost,
    /// Show the new tray.
    UpdateTray,
    /// Start the window loop with this event as its first.
    StartWindowLoop,
    /// Hand the event to the window loop.
    ForwardToWindowLoop,
    /// Leave the loop.
    Exit,
    /// Nothing.
    Ignore,
}

/// What the event loop does with an event. The tray is updated only where it
/// could be created. The window loop is started by the first launch of a web
/// view; before that, events for the web view are ignored.
pub open spec fn spec_loop_step(event: UserEvent, tray_ready: bool, window_loop_running: bool) -> LoopStep {
    match event {
        UserEvent::JniCallback(_, _) => LoopStep::CallHost,
        UserEvent::UpdateTray(_) => if tray_ready {
            LoopStep::UpdateTray
        } else {
            LoopStep::Ignore
        },
        UserEvent::LaunchWebview(_, _, _) => if window_loop_running {
            LoopStep::ForwardToWindowLoop
        } else {
            LoopStep::StartWindowLoop
        },
        UserEvent::WebViewCookiesFor(_) | UserEvent::QuitWebview => if window_loop_running {
            LoopStep::ForwardToWindowLoop
        } else {
            LoopStep::Ignore
        },
        UserEvent::ShutdownEventLoop => LoopStep::Exit,
    }
}

/// What the event loop does with an event.
pub fn loop_step(event: &UserEvent, tray_ready: bool, window_loop_running: bool) -> (r: LoopStep)
    ensures
        r == spec_loop_step(*event, tray_ready, window_loop_running),
{
    match event {
        UserEvent::JniCallback(_, _) => LoopStep::CallHost,
        UserEvent::UpdateTray(_) => {
            if tray_ready {
                LoopStep::UpdateTray
            } else {
                LoopStep::Ignore
            }
        },
        UserEvent::LaunchWebview(_, _, _) => {
            if window_loop_running {
                LoopStep::ForwardToWindowLoop
            } else {
                LoopStep::StartWindowLoop
            }
        },
        UserEvent::WebViewCookiesFor(_) | UserEvent::QuitWebview => {
            if window_loop_running {
                LoopStep::ForwardToWindowLoop
            } else {
                LoopStep::Ignore
            }
        },
        UserEvent::ShutdownEventLoop => LoopStep::Exit,
    }
}

/// What the tray listener does with new tray data.
#[derive(Clone, Copy, Debug, PartialEq, Eq, Structural)]
pub enum TrayStep {
    /// Create the tray with the data.
    Spawn,
    /// Put the data into the tray that exists.
    Update,
    /// Nothing: the tray could not be created.
    Skip,
}

/// What the tray listener does with new tray data: the first data create the
/// tray; later data update it, where it exists.
pub fn tray_step(init_attempted: bool, tray_exists: bool) -> (r: TrayStep)
    ensures
        r == if !init_attempted {
            TrayStep::Spawn
        } else if tray_exists {
            TrayStep::Update
        } else {
            TrayStep::Skip
        },
{
    if !init_attempted {
        TrayStep::Spawn
    } else if tray_exists {
        TrayStep::Update
    } else {
        TrayStep::Skip
    }
}

/// What the listener of the macOS now-playing service does next.
#[derive(Clone, Copy, Debug, PartialEq, Eq, Structural)]
pub struct MediaRemoteStep {
    /// Ask which application is playing.
    pub poll_app_info: bool,
    /// Ask what is playing.
    pub poll_now_playing: bool,
    /// Send the command for the next track.
    pub send_skip: bool,
    /// Unregister and leave the loop.
    pub leave: bool,
}

/// What the listener of the macOS now-playing service does with what it
/// received; `None` stands for the closed inlet. `now_playing` is the
/// identity of the application that plays, if one is known.
pub open spec fn spec_media_remote_step(
    event: Option<IncomingPlayerEvent>,
    now_playing: Option<Seq<char>>,
) -> MediaRemoteStep {
    let idle = MediaRemoteStep {
        poll_app_info: false,
        poll_now_playing: false,
        send_skip: false,
        leave: false,
    };
    match event {
        Some(IncomingPlayerEvent::MediaRemote(e)) => match e {
            MediaRemoteEvent::kMRMediaRemoteNowPlayingApplicationDidChangeNotification =>
            MediaRemoteStep { poll_app_info: true, ..idle },
            MediaRemoteEvent::kMRNowPlayingPlaybackQueueChangedNotification => idle,
            _ => MediaRemoteStep { poll_now_playing: true, ..idle },
        },
        Some(IncomingPlayerEvent::RefreshSessions) => MediaRemoteStep {
            poll_app_info: true,
            poll_now_playing: true,
            ..idle
        },
        Some(IncomingPlayerEvent::Skip(app_id)) => MediaRemoteStep {
            send_skip: now_playing == Some(app_id@),
            ..idle
        },
        Some(IncomingPlayerEvent::Mute(_)) | Some(IncomingPlayerEvent::Unmute(_)) => idle,
        Some(IncomingPlayerEvent::Shutdown) | None => MediaRemoteStep { leave: true, ..idle },
    }
}

/// What the listener of the macOS now-playing service does with what it
/// received. A skip is sent only for the application that plays; a command
/// for another one is stale.
pub fn media_remote_step(event: Option<&IncomingPlayerEvent>, now_playing: Option<&str>) -> (r:
    MediaRemoteStep)
    ensures
        r == spec_media_remote_step(
            match event {
                Some(e) => Some(*e),
                None => None,
            },
            match now_playing {
                Some(s) => Some(s@),
                None => None,
            },
        ),
{
    let idle = MediaRemoteStep {
        poll_app_info: false,
        poll_now_playing: false,
        send_skip: false,
        leave: false,
    };
    match event {
        Some(IncomingPlayerEvent::MediaRemote(e)) => match e {
            MediaRemoteEvent::kMRMediaRemoteNowPlayingApplicationDidChangeNotification => {
                MediaRemoteStep {
                    poll_app_info: true,
                    poll_now_playing: false,
                    send_skip: false,
                    leave: false,
                }
            },
            MediaRemoteEvent::kMRNowPlayingPlaybackQueueChangedNotification => idle,
            _ => MediaRemoteStep {
                poll_app_info: false,
                poll_now_playing: true,
                send_skip: false,
                leave: false,
            },
        },
        Some(IncomingPlayerEvent::RefreshSessions) => MediaRemoteStep {
            poll_app_info: true,
            poll_now_playing: true,
            send_skip: false,
            leave: false,
        },
        Some(IncomingPlayerEvent::Skip(app_id)) => {
            let send_skip = match now_playing {
                Some(playing) => str_is(playing, app_id.as_str()),
                None => false,
            };
            MediaRemoteStep { poll_app_info: false, poll_now_playing: false, send_skip, leave: false }
        },
        Some(IncomingPlayerEvent::Mute(_)) | Some(IncomingPlayerEvent::Unmute(_)) => idle,
        Some(IncomingPlayerEvent::Shutdown) | None => MediaRemoteStep {
            poll_app_info: false,
            poll_now_playing: false,
            send_skip: false,
            leave: true,
        },
    }
}

/// Whether the desktop prefers a dark appearance, out of the registry value
/// that says whether applications use the light theme: dark exactly where
/// the value is there and zero.
pub fn is_dark_mode(apps_use_light_theme: Option<u32>) -> (dark: bool)
    ensures
        dark == (apps_use_light_theme == Some(0u32)),
{
    match apps_use_light_theme {
        Some(v) => v == 0,
        None => false,
    }
}

/// Whether a change of the theme is reported: only where the appearance
/// differs from the one reported last.
pub fn theme_change_to_report(last_is_dark: bool, is_dark: bool) -> (r: Option<bool>)
    ensures
        r == if is_dark != last_is_dark {
            Some(is_dark)
        } else {
            None
        },
{
    if is_dark != last_is_dark {
        Some(is_dark)
    } else {
        None
    }
}

/// Why no instance lock could be had.
#[derive(Clone, Copy, Debug, PartialEq, Eq, Structural)]
pub enum SingleInstanceError {
    /// The name could not be turned into the platform's form, or the lock
    /// could not be created at all.
    Nul,
    /// The lock is held by another instance.
    MutexError,
}

impl SingleInstanceError {
    /// The text of the error.
    pub fn message(&self) -> (s: String)
        ensures
            s@ == match *self {
                SingleInstanceError::Nul => "Wide string null error"@,
                SingleInstanceError::MutexError => "CreateMutex failed"@,
            },
    {
        match self {
            SingleInstanceError::Nul => "Wide string null error".to_owned(),
            SingleInstanceError::MutexError => "CreateMutex failed".to_owned(),
        }
    }
}

/// What the attempt to create the named lock means. `created` says whether
/// the platform returned a lock and, if so, whether it is valid;
/// `already_exists` whether the platform reported that the name was taken.
/// The instance is the only one exactly where a valid lock was returned and
/// the name was free.
pub fn single_instance_outcome(created: Option<bool>, already_exists: bool) -> (r: Result<
    (),
    SingleInstanceError,
>)
    ensures
        r == match created {
            Some(valid) => if !valid || already_exists {
                Err(SingleInstanceError::MutexError)
            } else {
                Ok(())
            },
            None => Err(SingleInstanceError::Nul),
        },
{
    match created {
        Some(valid) => {
            if !valid || already_exists {
                Err(SingleInstanceError::MutexError)
            } else {
                Ok(())
            }
        },
        None => Err(SingleInstanceError::Nul),
    }
}

} // verus!
