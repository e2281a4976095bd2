//! The per-player cache of what was last emitted, and the merge rules that
//! rest on it.
//!
//! Some platforms report a track's duration and the position on a channel of
//! their own, apart from title and artist or from the playback status. What is
//! emitted always carries the value that was known last: an update that lacks
//! the duration (or the position) takes it from the cache, and a duration (or
//! position) that arrives late is emitted again with what the cache holds.

use vstd::prelude::*;
use crate::media_info::{MetadataInfo, MetadataInfoView, PlaybackInfo, PlaybackState, UNKNOWN};

verus! {

/// The duration that an update is emitted with: its own, or the cached one
/// where it has none.
pub open spec fn spec_merged_duration(cached: Option<MetadataInfoView>, fresh: int) -> int {
    if fresh != UNKNOWN {
        fresh
    } else {
        match cached {
            Some(m) => m.duration,
            None => UNKNOWN as int,
        }
    }
}

/// The metadata that is emitted for an update, given what the cache holds.
pub open spec fn spec_merge_metadata(
    cached: Option<MetadataInfoView>,
    fresh: MetadataInfoView,
) -> MetadataInfoView {
    fresh.with_duration(spec_merged_duration(cached, fresh.duration))
}

/// The playback state that is emitted for an update, given what the cache
/// holds: the update itself, with the cached position where it has none.
pub open spec fn spec_merge_playback(cached: Option<PlaybackInfo>, fresh: PlaybackInfo) -> PlaybackInfo {
    if fresh.position != UNKNOWN {
        fresh
    } else {
        match cached {
            Some(p) => PlaybackInfo { position: p.position, ..fresh },
            None => fresh,
        }
    }
}

/// What a duration that arrives on its own leads to: the cached metadata with
/// the new duration, where there is cached metadata and the duration is known
/// and differs from the cached one; nothing otherwise.
pub open spec fn spec_late_duration(cached: Option<MetadataInfoView>, duration: int) -> Option<
    MetadataInfoView,
> {
    match cached {
        Some(m) => if duration != UNKNOWN && m.duration != duration {
            Some(m.with_duration(duration))
        } else {
            None
        },
        None => None,
    }
}

/// What a position that arrives on its own leads to: nothing where it is
/// unknown or equal to the cached one; the cached playback state with the new
/// position where there is one; and without a cached state one that says
/// only the position.
pub open spec fn spec_late_position(cached: Option<PlaybackInfo>, position: i64) -> Option<
    PlaybackInfo,
> {
    if position == UNKNOWN {
        None
    } else {
        match cached {
            Some(p) => if p.position != position {
                Some(PlaybackInfo { position, ..p })
            } else {
                None
            },
            None => Some(
                PlaybackInfo { state: PlaybackState::Absent, position, can_skip: false },
            ),
        }
    }
}

/// The mathematical content of a cache.
pub struct PlayerCacheView {
    pub metadata: Option<MetadataInfoView>,
    pub playback: Option<PlaybackInfo>,
}

/// What was last emitted for one player.
#[derive(Clone, Debug, PartialEq, Eq)]
pub struct PlayerCache {
    metadata: Option<MetadataInfo>,
    playback: Option<PlaybackInfo>,
}

impl View for PlayerCache {
    type V = PlayerCacheView;

    closed spec fn view(&self) -> PlayerCacheView {
        PlayerCacheView {
            metadata: match self.metadata {
                Some(m) => Some(m@),
                None => None,
            },
            playback: self.playback,
        }
    }
}

impl PlayerCache {
    /// The cache of a player of which nothing was emitted yet.
    pub fn new() -> (r: PlayerCache)
        ensures
            r@.metadata.is_none(),
            r@.playback.is_none(),
    {
        PlayerCache { metadata: None, playback: None }
    }

    /// A copy with the same content.
    pub fn duplicate(&self) -> (r: PlayerCache)
        ensures
            r@ == self@,
    {
        PlayerCache {
            metadata: match &self.metadata {
                Some(m) => Some(m.duplicate()),
                None => None,
            },
            playback: self.playback,
        }
    }

    /// Forgets everything, as when the player is torn down.
    pub fn clear(&mut self)
        ensures
            final(self)@.metadata.is_none(),
            final(self)@.playback.is_none(),
    {
        self.metadata = None;
        self.playback = None;
    }

    /// The duration that was emitted last, -1 where none was.
    pub fn duration(&self) -> (d: i64)
        ensures
            d == spec_merged_duration(self@.metadata, UNKNOWN as int),
    {
        match &self.metadata {
            Some(m) => m.duration,
            None => UNKNOWN,
        }
    }

    /// The playback state that was emitted last.
    pub fn playback(&self) -> (p: Option<PlaybackInfo>)
        ensures
            p == self@.playback,
    {
        self.playback
    }

    /// New metadata arrived. The result is what has to be emitted: the new
    /// metadata, with the cached duration where it brings none. The cache
    /// then holds what was emitted.
    pub fn merge_metadata(&mut self, fresh: MetadataInfo) -> (emitted: MetadataInfo)
        ensures
            emitted@ == spec_merge_metadata(old(self)@.metadata, fresh@),
            final(self)@.metadata == Some(emitted@),
            final(self)@.playback == old(self)@.playback,
    {
        let mut emitted = fresh;
        if emitted.duration == UNKNOWN {
            emitted.duration = self.duration();
        }
        self.metadata = Some(emitted.duplicate());
        emitted
    }

    /// A new playback state arrived. The result is what has to be emitted:
    /// the new state, with the cached position where it brings none. The
    /// cache then holds what was emitted.
    pub fn merge_playback(&mut self, fresh: PlaybackInfo) -> (emitted: PlaybackInfo)
        ensures
            emitted == spec_merge_playback(old(self)@.playback, fresh),
            final(self)@.playback == Some(emitted),
            final(self)@.metadata == old(self)@.metadata,
    {
        let mut emitted = fresh;
        if emitted.position == UNKNOWN {
            match self.playback {
                Some(p) => {
                    emitted.position = p.position;
                },
                None => {},
            }
        }
        self.playback = Some(emitted);
        emitted
    }

    /// A duration arrived on its own. Where it is known and differs from the
    /// cached one, the cached metadata is emitted again with it, and cached;
    /// otherwise nothing is emitted and nothing changes.
    pub fn late_duration(&mut self, duration: i64) -> (emitted: Option<MetadataInfo>)
        ensures
            match emitted {
                Some(m) => spec_late_duration(old(self)@.metadata, duration as int) == Some(m@)
                    && final(self)@.metadata == Some(m@),
                None => spec_late_duration(old(self)@.metadata, duration as int).is_none()
                    && final(self)@.metadata == old(self)@.metadata,
            },
            final(self)@.playback == old(self)@.playback,
    {
        if duration == UNKNOWN {
            return None;
        }
        let updated = match &self.metadata {
            Some(m) => {
                if m.duration != duration {
                    let mut u = m.duplicate();
                    u.duration = duration;
                    Some(u)
                } else {
                    None
                }
            },
            None => None,
        };
        match updated {
            Some(u) => {
                self.metadata = Some(u.duplicate());
                Some(u)
            },
            None => None,
        }
    }

    /// A position arrived on its own. Where it is known and differs from the
    /// cached one, the cached playback state is emitted again with it, and
    /// cached. Without a cached state one that says only the position is
    /// emitted, and the cache stays empty.
    pub fn late_position(&mut self, position: i64) -> (emitted: Option<PlaybackInfo>)
        ensures
            emitted == spec_late_position(old(self)@.playback, position),
            final(self)@.playback == if old(self)@.playback.is_some() && emitted.is_some() {
                emitted
            } else {
                old(self)@.playback
            },
            final(self)@.metadata == old(self)@.metadata,
    {
        if position == UNKNOWN {
            return None;
        }
        match self.playback {
            Some(p) => {
                if p.position != position {
                    let u = PlaybackInfo { state: p.state, position, can_skip: p.can_skip };
                    self.playback = Some(u);
                    Some(u)
                } else {
                    None
                }
            },
            None => Some(PlaybackInfo { state: PlaybackState::Absent, position, can_skip: false }),
        }
    }
}

/// What is emitted for the last of a run of metadata updates, each merged
/// into the cache that the one before it left.
pub open spec fn spec_last_emitted(
    cached: Option<MetadataInfoView>,
    updates: Seq<MetadataInfoView>,
) -> Option<MetadataInfoView>
    decreases updates.len(),
{
    if updates.len() == 0 {
        cached
    } else {
        Some(
            spec_merge_metadata(spec_last_emitted(cached, updates.drop_last()), updates.last()),
        )
    }
}

/// Once a duration is known, metadata updates that bring no duration are all
/// emitted with that duration, however many follow one another.
pub proof fn lemma_merge_keeps_duration(
    cached: MetadataInfoView,
    updates: Seq<MetadataInfoView>,
)
    requires
        cached.duration != UNKNOWN,
        forall|i: int| 0 <= i < updates.len() ==> (#[trigger] updates[i]).duration == UNKNOWN,
    ensures
        spec_last_emitted(Some(cached), updates).is_some(),
        spec_last_emitted(Some(cached), updates).unwrap().duration == cached.duration,
        updates.len() > 0 ==> spec_last_emitted(Some(cached), updates).unwrap()
            == updates.last().with_duration(cached.duration),
    decreases updates.len(),
{
    if updates.len() > 0 {
        let head = updates.drop_last();
        assert forall|i: int| 0 <= i < head.len() implies (#[trigger] head[i]).duration
            == UNKNOWN by {
            assert(head[i] == updates[i]);
        }
        lemma_merge_keeps_duration(cached, head);
    }
}

/// A duration that becomes known after the metadata was emitted without one
/// is emitted with the same metadata otherwise; the same duration once more
/// leads to nothing.
pub proof fn lemma_late_duration_once(cached: MetadataInfoView, duration: int)
    requires
        cached.duration == UNKNOWN,
        duration != UNKNOWN,
    ensures
        spec_late_duration(Some(cached), duration) == Some(cached.with_duration(duration)),
        spec_late_duration(Some(cached.with_duration(duration)), duration).is_none(),
{
}

} // verus!
