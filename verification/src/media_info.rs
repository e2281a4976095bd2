//! The cross-platform schema: what a player is, what it plays and where it
//! stands, and the commands the host can issue.
//!
//! Durations and positions are whole milliseconds; `UNKNOWN` (-1) stands for a
//! value the platform did not report.

use vstd::prelude::*;

verus! {

/// The duration or position that is not known.
pub const UNKNOWN: i64 = -1;

/// The six playback states of the schema.
#[derive(Clone, Copy, Debug, PartialEq, Eq, Hash, Structural)]
pub enum PlaybackState {
    /// No session, or a closed one. The host reads it as `None`.
    Absent,
    Stopped,
    Paused,
    Playing,
    Waiting,
    Other,
}

impl PlaybackState {
    /// The state's name as the host reads it.
    pub open spec fn spec_name(self) -> Seq<char> {
        match self {
            PlaybackState::Absent => "None"@,
            PlaybackState::Stopped => "Stopped"@,
            PlaybackState::Paused => "Paused"@,
            PlaybackState::Playing => "Playing"@,
            PlaybackState::Waiting => "Waiting"@,
            PlaybackState::Other => "Other"@,
        }
    }

    /// The state's name as the host reads it.
    pub fn name(&self) -> (s: String)
        ensures
            s@ == self.spec_name(),
    {
        match self {
            PlaybackState::Absent => "None".to_owned(),
            PlaybackState::Stopped => "Stopped".to_owned(),
            PlaybackState::Paused => "Paused".to_owned(),
            PlaybackState::Playing => "Playing".to_owned(),
            PlaybackState::Waiting => "Waiting".to_owned(),
            PlaybackState::Other => "Other".to_owned(),
        }
    }
}

/// A player that is visible on the platform.
#[derive(Clone, Debug, PartialEq, Eq, Hash)]
pub struct SessionInfo {
    pub app_id: String,
    pub app_name: String,
}

/// The mathematical content of a `SessionInfo`.
pub struct SessionInfoView {
    pub app_id: Seq<char>,
    pub app_name: Seq<char>,
}

impl View for SessionInfo {
    type V = SessionInfoView;

    open spec fn view(&self) -> SessionInfoView {
        SessionInfoView { app_id: self.app_id@, app_name: self.app_name@ }
    }
}

impl DeepView for SessionInfo {
    type V = SessionInfoView;

    open spec fn deep_view(&self) -> SessionInfoView {
        self@
    }
}

impl SessionInfo {
    /// A copy with the same identity and display name.
    pub fn duplicate(&self) -> (r: SessionInfo)
        ensures
            r@ == self@,
    {
        SessionInfo { app_id: self.app_id.clone(), app_name: self.app_name.clone() }
    }
}

/// What a player is playing.
#[derive(Clone, Debug, PartialEq, Eq)]
pub struct MetadataInfo {
    pub track_id: String,
    pub title: String,
    pub artist: String,
    pub album: String,
    pub album_artist: String,
    pub track_number: i32,
    pub duration: i64,
    pub art_url: String,
    pub track_url: String,
}

/// The mathematical content of a `MetadataInfo`.
pub struct MetadataInfoView {
    pub track_id: Seq<char>,
    pub title: Seq<char>,
    pub artist: Seq<char>,
    pub album: Seq<char>,
    pub album_artist: Seq<char>,
    pub track_number: int,
    pub duration: int,
    pub art_url: Seq<char>,
    pub track_url: Seq<char>,
}

impl View for MetadataInfo {
    type V = MetadataInfoView;

    open spec fn view(&self) -> MetadataInfoView {
        MetadataInfoView {
            track_id: self.track_id@,
            title: self.title@,
            artist: self.artist@,
            album: self.album@,
            album_artist: self.album_artist@,
            track_number: self.track_number as int,
            duration: self.duration as int,
            art_url: self.art_url@,
            track_url: self.track_url@,
        }
    }
}

impl MetadataInfoView {
    /// The same metadata with another duration.
    pub open spec fn with_duration(self, duration: int) -> MetadataInfoView {
        MetadataInfoView { duration, ..self }
    }
}

impl MetadataInfo {
    /// A copy with the same content.
    pub fn duplicate(&self) -> (r: MetadataInfo)
        ensures
            r@ == self@,
    {
        MetadataInfo {
            track_id: self.track_id.clone(),
            title: self.title.clone(),
            artist: self.artist.clone(),
            album: self.album.clone(),
            album_artist: self.album_artist.clone(),
            track_number: self.track_number,
            duration: self.duration,
            art_url: self.art_url.clone(),
            track_url: self.track_url.clone(),
        }
    }
}

/// Where a player stands.
#[derive(Clone, Copy, Debug, PartialEq, Eq, Structural)]
pub struct PlaybackInfo {
    pub state: PlaybackState,
    pub position: i64,
    pub can_skip: bool,
}

/// Duration and position as a timeline channel reports them.
#[derive(Clone, Copy, Debug, PartialEq, Eq, Structural)]
pub struct TimelineInfo {
    pub duration: i64,
    pub position: i64,
    pub last_updated: i64,
}

/// A notification of the macOS now-playing service.
#[allow(non_camel_case_types)]
#[derive(Clone, Copy, Debug, PartialEq, Eq, Structural)]
pub enum MediaRemoteEvent {
    kMRMediaRemoteNowPlayingApplicationDidChangeNotification,
    kMRMediaRemoteNowPlayingApplicationClientStateDidChange,
    kMRNowPlayingPlaybackQueueChangedNotification,
    kMRPlaybackQueueContentItemsChangedNotification,
    kMRMediaRemoteNowPlayingApplicationIsPlayingDidChangeNotification,
}

/// A command that concerns players, or a notification that is queued with
/// the commands.
#[derive(Clone, Debug, PartialEq, Eq)]
pub enum IncomingPlayerEvent {
    Skip(String),
    Mute(String),
    Unmute(String),
    RefreshSessions,
    Shutdown,
    MediaRemote(MediaRemoteEvent),
}

/// Every command the host can issue.
#[derive(Clone, Debug, PartialEq, Eq)]
pub enum IncomingEvent {
    Skip(String),
    Mute(String),
    Unmute(String),
    RefreshSessions,
    Shutdown,
    /// Request id, save, title, file name, filters.
    LaunchFilePicker(i32, bool, String, String, Vec<String>),
    /// Title and body.
    Notification(String, String),
}

/// What crosses the boundary towards the host.
#[derive(Clone, Debug, PartialEq, Eq)]
pub enum JniCallback {
    TrayItemClicked(String),
    FilePicked(i32, String),
    SessionsChanged(Vec<SessionInfo>),
    MetadataChanged(String, MetadataInfo),
    PlaybackStateChanged(String, PlaybackInfo),
    IpcCallback(String, String),
    DarkModeChanged(bool),
    IsAppIdAllowed(String),
}

/// The content of each `SessionInfo` of a list.
pub open spec fn sessions_view(v: Seq<SessionInfo>) -> Seq<SessionInfoView> {
    v.map_values(|s: SessionInfo| s@)
}

/// The characters of each string of a list.
pub open spec fn names_view(v: Seq<String>) -> Seq<Seq<char>> {
    v.map_values(|s: String| s@)
}

} // verus!
