//! The per-player tracker: one player's life from the start of its
//! subscriptions to their end.
//!
//! The tracker decides; its caller acts. The caller feeds it what the
//! player's change streams deliver and what the host commands, reads the
//! clock, and carries out what the tracker answers: events to emit and calls
//! to make on the player.
//!
//! A volume is held as the platform encodes it, an opaque 64-bit pattern; the
//! pattern `SILENCE` mutes the player.

use vstd::prelude::*;
use vstd::string::*;
use crate::cache::{spec_merge_metadata, spec_merge_playback, PlayerCache, PlayerCacheView};
use crate::debounce::{
    spec_after_seek, spec_released, PendingSeek, SeekDebouncer, SEEK_IDLE_WINDOW_MS,
};
use crate::identity::{normalize_dbus_name, spec_normalize_dbus_name};
use crate::media_info::{
    IncomingPlayerEvent, MetadataInfo, PlaybackInfo, PlaybackState,
};
use crate::mpris::{
    parse_metadata, parse_playback_state, position_millis, spec_parse_metadata,
    spec_position_millis, spec_state_of, Metadata,
};

verus! {

/// The volume that mutes a player.
pub const SILENCE: u64 = 0;

/// Where a tracker stands in its life.
#[derive(Clone, Copy, Debug, PartialEq, Eq, Structural)]
pub enum TrackerPhase {
    /// The subscriptions are being set up.
    Starting,
    /// The tracker listens.
    Active,
    /// The subscriptions are being cancelled.
    Stopping,
    /// The end: everything is released.
    Stopped,
}

impl TrackerPhase {
    /// The place of the phase in a tracker's life.
    pub open spec fn rank(self) -> int {
        match self {
            TrackerPhase::Starting => 0,
            TrackerPhase::Active => 1,
            TrackerPhase::Stopping => 2,
            TrackerPhase::Stopped => 3,
        }
    }

    /// A tracker in this phase may be in the phase `next` afterwards: a
    /// tracker stays where it is, becomes active after starting, begins to
    /// stop before it has stopped, and stops for good after that. No phase
    /// is ever gone back to.
    pub open spec fn may_become(self, next: TrackerPhase) -> bool {
        ||| next == self
        ||| self == TrackerPhase::Starting && next == TrackerPhase::Active
        ||| self == TrackerPhase::Starting && next == TrackerPhase::Stopping
        ||| self == TrackerPhase::Active && next == TrackerPhase::Stopping
        ||| self == TrackerPhase::Stopping && next == TrackerPhase::Stopped
    }
}

/// What the caller has to do on the player.
#[derive(Clone, Copy, Debug, PartialEq, Eq, Structural)]
pub enum TrackerAction {
    /// Nothing.
    Nothing,
    /// Ask the player for its next track.
    NextTrack,
    /// Set the player's volume.
    SetVolume(u64),
    /// Cancel the subscriptions and end the tracker's task.
    Stop,
}

/// The volume to go back to, and whether the tracker has muted the player.
#[derive(Clone, Copy, Debug, PartialEq, Eq, Structural)]
pub struct VolumeMemory {
    pub previous: u64,
    pub muted: bool,
}

/// The memory after a mute command, given the player's volume at that
/// moment: the first mute remembers the volume; a further one, while the
/// player is muted, leaves the memory alone.
pub open spec fn spec_mute(memory: VolumeMemory, live_volume: u64) -> VolumeMemory {
    if memory.muted {
        memory
    } else {
        VolumeMemory { previous: live_volume, muted: true }
    }
}

/// The memory after an unmute command.
pub open spec fn spec_unmute(memory: VolumeMemory) -> VolumeMemory {
    VolumeMemory { previous: memory.previous, muted: false }
}

/// The memory after a run of mute commands, each with the player's volume at
/// its moment.
pub open spec fn spec_mute_all(memory: VolumeMemory, live_volumes: Seq<u64>) -> VolumeMemory
    decreases live_volumes.len(),
{
    if live_volumes.len() == 0 {
        memory
    } else {
        spec_mute(spec_mute_all(memory, live_volumes.drop_last()), live_volumes.last())
    }
}

/// Mute and unmute are a round trip: after one mute or several in a row, the
/// unmute sets the volume that the player had before the first of them.
pub proof fn lemma_mute_unmute_round_trip(memory: VolumeMemory, live_volumes: Seq<u64>)
    requires
        !memory.muted,
        live_volumes.len() > 0,
    ensures
        spec_mute_all(memory, live_volumes).muted,
        spec_mute_all(memory, live_volumes).previous == live_volumes[0],
        spec_unmute(spec_mute_all(memory, live_volumes)) == (VolumeMemory {
            previous: live_volumes[0],
            muted: false,
        }),
    decreases live_volumes.len(),
{
    let head = live_volumes.drop_last();
    if head.len() > 0 {
        lemma_mute_unmute_round_trip(memory, head);
        assert(head[0] == live_volumes[0]);
    } else {
        assert(spec_mute_all(memory, head) == memory);
    }
}

/// The mathematical content of a tracker.
pub struct TrackerView {
    pub app_id: Seq<char>,
    pub phase: TrackerPhase,
    pub memory: VolumeMemory,
    pub cache: PlayerCacheView,
    pub pending: Option<PendingSeek>,
    /// The idle window of the seek debouncing, in milliseconds.
    pub window: u64,
}

/// The tracker of one player.
#[derive(Debug)]
pub struct PlayerTracker {
    app_id: String,
    phase: TrackerPhase,
    memory: VolumeMemory,
    cache: PlayerCache,
    seeks: SeekDebouncer,
}

/// The playback state that a status report leads to, before the merge: the
/// word's state, the position in milliseconds, and the skip capability that
/// was emitted last (none where nothing was emitted yet).
pub open spec fn spec_status_report(
    cached: Option<PlaybackInfo>,
    status: Seq<char>,
    position_micros: Option<i64>,
) -> PlaybackInfo {
    PlaybackInfo {
        state: spec_state_of(status),
        position: spec_position_millis(position_micros) as i64,
        can_skip: match cached {
            Some(p) => p.can_skip,
            None => false,
        },
    }
}

/// The playback state that a report of the skip capability leads to, before
/// the merge: the capability, the position in milliseconds, and the state
/// that was emitted last (`Other` where nothing was emitted yet).
pub open spec fn spec_skip_report(
    cached: Option<PlaybackInfo>,
    can_go_next: bool,
    position_micros: Option<i64>,
) -> PlaybackInfo {
    PlaybackInfo {
        state: match cached {
            Some(p) => p.state,
            None => PlaybackState::Other,
        },
        position: spec_position_millis(position_micros) as i64,
        can_skip: can_go_next,
    }
}

/// The playback state that a released seek position is emitted with: the
/// position, with the state and skip capability that were emitted last.
pub open spec fn spec_seek_report(cached: Option<PlaybackInfo>, position: i64) -> PlaybackInfo {
    match cached {
        Some(p) => PlaybackInfo { position, ..p },
        None => PlaybackInfo { state: PlaybackState::Other, position, can_skip: false },
    }
}

impl View for PlayerTracker {
    type V = TrackerView;

    closed spec fn view(&self) -> TrackerView {
        TrackerView {
            app_id: self.app_id@,
            phase: self.phase,
            memory: self.memory,
            cache: self.cache@,
            pending: self.seeks.pending(),
            window: self.seeks.window(),
        }
    }
}

impl PlayerTracker {
    /// A tracker for the player with the raw identity `identity`, before its
    /// subscriptions are set up. `initial_volume` is the player's volume at
    /// this moment.
    pub fn new(identity: &str, initial_volume: u64) -> (r: PlayerTracker)
        ensures
            r@.app_id == spec_normalize_dbus_name(identity@),
            r@.phase == TrackerPhase::Starting,
            r@.memory == (VolumeMemory { previous: initial_volume, muted: false }),
            r@.cache.metadata is None,
            r@.cache.playback is None,
            r@.pending is None,
            r@.window == SEEK_IDLE_WINDOW_MS,
    {
        PlayerTracker {
            app_id: normalize_dbus_name(identity),
            phase: TrackerPhase::Starting,
            memory: VolumeMemory { previous: initial_volume, muted: false },
            cache: PlayerCache::new(),
            seeks: SeekDebouncer::new(SEEK_IDLE_WINDOW_MS),
        }
    }

    /// The logical identity under which the tracker's events are emitted.
    pub fn app_id(&self) -> (r: &str)
        ensures
            r@ == self@.app_id,
    {
        self.app_id.as_str()
    }

    /// Where the tracker stands in its life.
    pub fn phase(&self) -> (r: TrackerPhase)
        ensures
            r == self@.phase,
    {
        self.phase
    }

    /// Whether the tracker listens.
    pub fn is_active(&self) -> (b: bool)
        ensures
            b == (self@.phase == TrackerPhase::Active),
    {
        match self.phase {
            TrackerPhase::Active => true,
            _ => false,
        }
    }

    /// The time at which `on_tick` should be called next, if a seek position
    /// is held back.
    pub fn next_tick(&self) -> (r: Option<u64>)
        ensures
            r == match self@.pending {
                Some(p) => Some(p.due),
                None => None,
            },
    {
        self.seeks.due()
    }

    /// The subscriptions are set up, and this is what the player reports at
    /// first. A starting tracker becomes active and emits the normalized
    /// metadata and playback state; any other tracker ignores the call.
    pub fn start(
        &mut self,
        metadata: &Metadata,
        playback_status: String,
        can_go_next: bool,
        position_micros: Option<i64>,
    ) -> (emitted: Option<(MetadataInfo, PlaybackInfo)>)
        ensures
            old(self)@.phase.may_become(final(self)@.phase),
            match emitted {
                Some((m, p)) => {
                    &&& old(self)@.phase == TrackerPhase::Starting
                    &&& m@ == spec_merge_metadata(
                        old(self)@.cache.metadata,
                        spec_parse_metadata(metadata@),
                    )
                    &&& p == spec_merge_playback(
                        old(self)@.cache.playback,
                        PlaybackInfo {
                            state: spec_state_of(playback_status@),
                            position: spec_position_millis(position_micros) as i64,
                            can_skip: can_go_next,
                        },
                    )
                    &&& final(self)@ == (TrackerView {
                        phase: TrackerPhase::Active,
                        cache: PlayerCacheView { metadata: Some(m@), playback: Some(p) },
                        ..old(self)@
                    })
                },
                None => old(self)@.phase != TrackerPhase::Starting && final(self)@ == old(self)@,
            },
    {
        match self.phase {
            TrackerPhase::Starting => {
                let m = self.cache.merge_metadata(parse_metadata(metadata));
                let fresh = parse_playback_state(
                    playback_status,
                    can_go_next,
                    position_millis(position_micros),
                );
                let p = self.cache.merge_playback(fresh);
                self.phase = TrackerPhase::Active;
                Some((m, p))
            },
            _ => None,
        }
    }

    /// The player's metadata changed. An active tracker emits the normalized
    /// metadata, with the duration that was known last where the new
    /// metadata has none.
    pub fn on_metadata_changed(&mut self, metadata: &Metadata) -> (emitted: Option<MetadataInfo>)
        ensures
            old(self)@.phase.may_become(final(self)@.phase),
            match emitted {
                Some(m) => {
                    &&& old(self)@.phase == TrackerPhase::Active
                    &&& m@ == spec_merge_metadata(
                        old(self)@.cache.metadata,
                        spec_parse_metadata(metadata@),
                    )
                    &&& final(self)@ == (TrackerView {
                        cache: PlayerCacheView { metadata: Some(m@), ..old(self)@.cache },
                        ..old(self)@
                    })
                },
                None => old(self)@.phase != TrackerPhase::Active && final(self)@ == old(self)@,
            },
    {
        match self.phase {
            TrackerPhase::Active => {
                let m = self.cache.merge_metadata(parse_metadata(metadata));
                Some(m)
            },
            _ => None,
        }
    }

    /// The player's playback status changed; `position_micros` is the
    /// position read at that moment, if the read succeeded. An active tracker
    /// emits the new state at once, with the skip capability that was
    /// emitted last.
    pub fn on_playback_status_changed(
        &mut self,
        playback_status: String,
        position_micros: Option<i64>,
    ) -> (emitted: Option<PlaybackInfo>)
        ensures
            old(self)@.phase.may_become(final(self)@.phase),
            match emitted {
                Some(p) => {
                    &&& old(self)@.phase == TrackerPhase::Active
                    &&& p == spec_merge_playback(
                        old(self)@.cache.playback,
                        spec_status_report(
                            old(self)@.cache.playback,
                            playback_status@,
                            position_micros,
                        ),
                    )
                    &&& final(self)@ == (TrackerView {
                        cache: PlayerCacheView { playback: Some(p), ..old(self)@.cache },
                        ..old(self)@
                    })
                },
                None => old(self)@.phase != TrackerPhase::Active && final(self)@ == old(self)@,
            },
    {
        match self.phase {
            TrackerPhase::Active => {
                let can_skip = match self.cache.playback() {
                    Some(p) => p.can_skip,
                    None => false,
                };
                let fresh = parse_playback_state(
                    playback_status,
                    can_skip,
                    position_millis(position_micros),
                );
                Some(self.cache.merge_playback(fresh))
            },
            _ => None,
        }
    }

    /// The player's skip capability changed; `position_micros` is the
    /// position read at that moment, if the read succeeded. An active tracker
    /// emits the new capability at once, with the state that was emitted
    /// last.
    pub fn on_can_go_next_changed(&mut self, can_go_next: bool, position_micros: Option<i64>) -> (emitted:
        Option<PlaybackInfo>)
        ensures
            old(self)@.phase.may_become(final(self)@.phase),
            match emitted {
                Some(p) => {
                    &&& old(self)@.phase == TrackerPhase::Active
                    &&& p == spec_merge_playback(
                        old(self)@.cache.playback,
                        spec_skip_report(old(self)@.cache.playback, can_go_next, position_micros),
                    )
                    &&& final(self)@ == (TrackerView {
                        cache: PlayerCacheView { playback: Some(p), ..old(self)@.cache },
                        ..old(self)@
                    })
                },
                None => old(self)@.phase != TrackerPhase::Active && final(self)@ == old(self)@,
            },
    {
        match self.phase {
            TrackerPhase::Active => {
                let state = match self.cache.playback() {
                    Some(p) => p.state,
                    None => PlaybackState::Other,
                };
                let fresh = PlaybackInfo {
                    state,
                    position: position_millis(position_micros),
                    can_skip: can_go_next,
                };
                Some(self.cache.merge_playback(fresh))
            },
            _ => None,
        }
    }

    /// The player reported a seek to `position_micros` at the time `now_ms`.
    /// An active tracker holds the position back; nothing is emitted before
    /// the player has been quiet for a window.
    pub fn on_seeked(&mut self, position_micros: i64, now_ms: u64)
        ensures
            old(self)@.phase.may_become(final(self)@.phase),
            old(self)@.phase == TrackerPhase::Active ==> final(self)@ == (TrackerView {
                pending: spec_after_seek(
                    spec_position_millis(Some(position_micros)) as i64,
                    now_ms,
                    old(self)@.window,
                ),
                ..old(self)@
            }),
            old(self)@.phase != TrackerPhase::Active ==> final(self)@ == old(self)@,
    {
        match self.phase {
            TrackerPhase::Active => {
                let mut seeks = self.seeks;
                seeks.on_seek(position_millis(Some(position_micros)), now_ms);
                self.seeks = seeks;
            },
            _ => {},
        }
    }

    /// The player announced new metadata, and `read` is what reading it
    /// gave: nothing where the platform call failed. A change that could
    /// not be read is passed over: nothing is emitted and the tracker stays
    /// as it is, in whatever phase. One that was read is handled as by
    /// `on_metadata_changed`.
    pub fn on_metadata_read(&mut self, read: Option<&Metadata>) -> (emitted: Option<MetadataInfo>)
        ensures
            old(self)@.phase.may_become(final(self)@.phase),
            read is None ==> emitted is None && final(self)@ == old(self)@,
            read matches Some(metadata) ==> match emitted {
                Some(m) => {
                    &&& old(self)@.phase == TrackerPhase::Active
                    &&& m@ == spec_merge_metadata(
                        old(self)@.cache.metadata,
                        spec_parse_metadata(metadata@),
                    )
                    &&& final(self)@ == (TrackerView {
                        cache: PlayerCacheView { metadata: Some(m@), ..old(self)@.cache },
                        ..old(self)@
                    })
                },
                None => old(self)@.phase != TrackerPhase::Active && final(self)@ == old(self)@,
            },
    {
        match read {
            Some(metadata) => self.on_metadata_changed(metadata),
            None => None,
        }
    }

    /// The player announced a new playback status, and `read` is what
    /// reading it gave: nothing where the platform call failed. A change
    /// that could not be read is passed over: nothing is emitted and the
    /// tracker stays as it is. One that was read is handled as by
    /// `on_playback_status_changed`.
    pub fn on_playback_status_read(
        &mut self,
        read: Option<String>,
        position_micros: Option<i64>,
    ) -> (emitted: Option<PlaybackInfo>)
        ensures
            old(self)@.phase.may_become(final(self)@.phase),
            read is None ==> emitted is None && final(self)@ == old(self)@,
            read matches Some(playback_status) ==> match emitted {
                Some(p) => {
                    &&& old(self)@.phase == TrackerPhase::Active
                    &&& p == spec_merge_playback(
                        old(self)@.cache.playback,
                        spec_status_report(
                            old(self)@.cache.playback,
                            playback_status@,
                            position_micros,
                        ),
                    )
                    &&& final(self)@ == (TrackerView {
                        cache: PlayerCacheView { playback: Some(p), ..old(self)@.cache },
                        ..old(self)@
                    })
                },
                None => old(self)@.phase != TrackerPhase::Active && final(self)@ == old(self)@,
            },
    {
        match read {
            Some(playback_status) => self.on_playback_status_changed(
                playback_status,
                position_micros,
            ),
            None => None,
        }
    }

    /// The player announced a new skip capability, and `read` is what
    /// reading it gave: nothing where the platform call failed. A change
    /// that could not be read is passed over: nothing is emitted and the
    /// tracker stays as it is. One that was read is handled as by
    /// `on_can_go_next_changed`.
    pub fn on_can_go_next_read(&mut self, read: Option<bool>, position_micros: Option<i64>) -> (emitted:
        Option<PlaybackInfo>)
        ensures
            old(self)@.phase.may_become(final(self)@.phase),
            read is None ==> emitted is None && final(self)@ == old(self)@,
            read matches Some(can_go_next) ==> match emitted {
                Some(p) => {
                    &&& old(self)@.phase == TrackerPhase::Active
                    &&& p == spec_merge_playback(
                        old(self)@.cache.playback,
                        spec_skip_report(old(self)@.cache.playback, can_go_next, position_micros),
                    )
                    &&& final(self)@ == (TrackerView {
                        cache: PlayerCacheView { playback: Some(p), ..old(self)@.cache },
                        ..old(self)@
                    })
                },
                None => old(self)@.phase != TrackerPhase::Active && final(self)@ == old(self)@,
            },
    {
        match read {
            Some(can_go_next) => self.on_can_go_next_changed(can_go_next, position_micros),
            None => None,
        }
    }

    /// The player reported a seek at the time `now_ms`, and `read` is the
    /// position that reading the report gave: nothing where it could not be
    /// read. A report that could not be read is passed over: the tracker
    /// stays as it is, and a position that is held back stays held back
    /// until its own time. One that was read is handled as by `on_seeked`.
    pub fn on_seek_read(&mut self, read: Option<i64>, now_ms: u64)
        ensures
            old(self)@.phase.may_become(final(self)@.phase),
            read is None ==> final(self)@ == old(self)@,
            read matches Some(position_micros) ==> {
                &&& old(self)@.phase == TrackerPhase::Active ==> final(self)@ == (TrackerView {
                    pending: spec_after_seek(
                        spec_position_millis(Some(position_micros)) as i64,
                        now_ms,
                        old(self)@.window,
                    ),
                    ..old(self)@
                })
                &&& old(self)@.phase != TrackerPhase::Active ==> final(self)@ == old(self)@
            },
    {
        match read {
            Some(position_micros) => self.on_seeked(position_micros, now_ms),
            None => {},
        }
    }

    /// The clock reached `now_ms`. An active tracker whose held-back seek
    /// position is due emits it, once, with the state and skip capability
    /// that were emitted last.
    pub fn on_tick(&mut self, now_ms: u64) -> (emitted: Option<PlaybackInfo>)
        ensures
            old(self)@.phase.may_become(final(self)@.phase),
            match emitted {
                Some(p) => {
                    &&& old(self)@.phase == TrackerPhase::Active
                    &&& spec_released(old(self)@.pending, now_ms) matches Some(position)
                    &&& p == spec_merge_playback(
                        old(self)@.cache.playback,
                        spec_seek_report(old(self)@.cache.playback, position),
                    )
                    &&& final(self)@ == (TrackerView {
                        cache: PlayerCacheView { playback: Some(p), ..old(self)@.cache },
                        pending: None,
                        ..old(self)@
                    })
                },
                None => {
                    &&& old(self)@.phase != TrackerPhase::Active || spec_released(
                        old(self)@.pending,
                        now_ms,
                    ) is None
                    &&& final(self)@ == old(self)@
                },
            },
    {
        match self.phase {
            TrackerPhase::Active => {
                let mut seeks = self.seeks;
                match seeks.poll(now_ms) {
                    Some(position) => {
                        self.seeks = seeks;
                        let report = match self.cache.playback() {
                            Some(p) => PlaybackInfo {
                                state: p.state,
                                position,
                                can_skip: p.can_skip,
                            },
                            None => PlaybackInfo {
                                state: PlaybackState::Other,
                                position,
                                can_skip: false,
                            },
                        };
                        let p = self.cache.merge_playback(report);
                        Some(p)
                    },
                    None => None,
                }
            },
            _ => None,
        }
    }

    /// A command of the host for this player. `live_volume` is the player's
    /// volume at this moment; it is read for `Mute` only.
    ///
    /// A tracker that is not active answers with nothing: the command is
    /// stale. `Skip` asks for the next track. `Mute` silences the player and,
    /// unless the player is muted already, remembers `live_volume`. `Unmute`
    /// sets the remembered volume. `Shutdown` ends the tracker.
    pub fn on_command(&mut self, command: &IncomingPlayerEvent, live_volume: u64) -> (action:
        TrackerAction)
        ensures
            old(self)@.phase.may_become(final(self)@.phase),
            old(self)@.phase != TrackerPhase::Active ==> action == TrackerAction::Nothing
                && final(self)@ == old(self)@,
            old(self)@.phase == TrackerPhase::Active ==> match *command {
                IncomingPlayerEvent::Skip(_) => action == TrackerAction::NextTrack && final(self)@
                    == old(self)@,
                IncomingPlayerEvent::Mute(_) => action == TrackerAction::SetVolume(SILENCE)
                    && final(self)@ == (TrackerView {
                    memory: spec_mute(old(self)@.memory, live_volume),
                    ..old(self)@
                }),
                IncomingPlayerEvent::Unmute(_) => action == TrackerAction::SetVolume(
                    old(self)@.memory.previous,
                ) && final(self)@ == (TrackerView {
                    memory: spec_unmute(old(self)@.memory),
                    ..old(self)@
                }),
                IncomingPlayerEvent::Shutdown => action == TrackerAction::Stop && final(self)@ == (
                TrackerView { phase: TrackerPhase::Stopping, pending: None, ..old(self)@ }),
                IncomingPlayerEvent::RefreshSessions | IncomingPlayerEvent::MediaRemote(_) =>
                    action == TrackerAction::Nothing
                    && final(self)@ == old(self)@,
            },
    {
        match self.phase {
            TrackerPhase::Active => {},
            _ => {
                return TrackerAction::Nothing;
            },
        }
        match command {
            IncomingPlayerEvent::Skip(_) => TrackerAction::NextTrack,
            IncomingPlayerEvent::Mute(_) => {
                if !self.memory.muted {
                    self.memory = VolumeMemory { previous: live_volume, muted: true };
                }
                TrackerAction::SetVolume(SILENCE)
            },
            IncomingPlayerEvent::Unmute(_) => {
                let previous = self.memory.previous;
                self.memory = VolumeMemory { previous, muted: false };
                TrackerAction::SetVolume(previous)
            },
            IncomingPlayerEvent::Shutdown => {
                self.halt();
                TrackerAction::Stop
            },
            IncomingPlayerEvent::RefreshSessions | IncomingPlayerEvent::MediaRemote(_) => {
                TrackerAction::Nothing
            },
        }
    }

    /// Drops what is held back and begins to stop.
    fn halt(&mut self)
        ensures
            final(self)@ == (TrackerView {
                phase: TrackerPhase::Stopping,
                pending: None,
                ..old(self)@
            }),
    {
        let mut seeks = self.seeks;
        seeks.cancel();
        self.seeks = seeks;
        self.phase = TrackerPhase::Stopping;
    }

    /// The registry stops the tracker, or its inlet was closed. A tracker
    /// that has not stopped yet begins to stop, and what it held back is
    /// dropped; the answer says whether the caller has to cancel the
    /// subscriptions.
    pub fn stop(&mut self) -> (cancel: bool)
        ensures
            old(self)@.phase.may_become(final(self)@.phase),
            cancel == (old(self)@.phase.rank() < TrackerPhase::Stopping.rank()),
            cancel ==> final(self)@ == (TrackerView {
                phase: TrackerPhase::Stopping,
                pending: None,
                ..old(self)@
            }),
            !cancel ==> final(self)@ == old(self)@,
    {
        match self.phase {
            TrackerPhase::Starting | TrackerPhase::Active => {
                self.halt();
                true
            },
            _ => false,
        }
    }

    /// The subscriptions are cancelled: a stopping tracker has stopped, and
    /// forgets what it emitted.
    pub fn finish(&mut self)
        ensures
            old(self)@.phase.may_become(final(self)@.phase),
            old(self)@.phase == TrackerPhase::Stopping ==> final(self)@ == (TrackerView {
                phase: TrackerPhase::Stopped,
                cache: PlayerCacheView { metadata: None, playback: None },
                ..old(self)@
            }),
            old(self)@.phase != TrackerPhase::Stopping ==> final(self)@ == old(self)@,
    {
        match self.phase {
            TrackerPhase::Stopping => {
                self.cache.clear();
                self.phase = TrackerPhase::Stopped;
            },
            _ => {},
        }
    }
}

} // verus!
