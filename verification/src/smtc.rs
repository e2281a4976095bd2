//! Sessions of the Windows system media transport controls: normalization of
//! what a session reports, and the reconciliation of the subscriptions with
//! the sessions present and the allow list.
//!
//! The platform hands over the complete list of sessions whenever it changes.
//! `SmtcSessions` holds which sessions were present last and which are
//! subscribed to, each subscription with the tokens of its three handlers and
//! the cache of what was emitted for it. Identities are application user
//! model ids and are their own logical identity.

use vstd::prelude::*;
use vstd::string::*;
use crate::admission::AllowList;
use crate::cache::{
    spec_late_duration, spec_late_position, spec_merge_metadata, spec_merge_playback, PlayerCache,
    PlayerCacheView,
};
use crate::media_info::{
    sessions_view, MetadataInfo, MetadataInfoView, PlaybackInfo, PlaybackState, SessionInfo,
    SessionInfoView, TimelineInfo, UNKNOWN,
};
use crate::sessions::{dedup_sessions, find_session, lists_id, spec_dedup};
use crate::text::str_is;

verus! {

/// The number of 100-nanosecond ticks in a millisecond.
pub const TICKS_PER_MILLI: i64 = 10000;

/// The playback status of a session as the platform says it.
#[derive(Clone, Copy, Debug, PartialEq, Eq, Structural)]
pub enum SmtcPlaybackStatus {
    Closed,
    Opened,
    Changing,
    Stopped,
    Playing,
    Paused,
    /// A status that the platform added later.
    Unknown,
}

impl SmtcPlaybackStatus {
    /// The status with the platform's number `code`.
    pub open spec fn spec_from_code(code: i32) -> SmtcPlaybackStatus {
        if code == 0 {
            SmtcPlaybackStatus::Closed
        } else if code == 1 {
            SmtcPlaybackStatus::Opened
        } else if code == 2 {
            SmtcPlaybackStatus::Changing
        } else if code == 3 {
            SmtcPlaybackStatus::Stopped
        } else if code == 4 {
            SmtcPlaybackStatus::Playing
        } else if code == 5 {
            SmtcPlaybackStatus::Paused
        } else {
            SmtcPlaybackStatus::Unknown
        }
    }

    /// The status with the platform's number `code`.
    pub fn from_code(code: i32) -> (r: SmtcPlaybackStatus)
        ensures
            r == Self::spec_from_code(code),
    {
        if code == 0 {
            SmtcPlaybackStatus::Closed
        } else if code == 1 {
            SmtcPlaybackStatus::Opened
        } else if code == 2 {
            SmtcPlaybackStatus::Changing
        } else if code == 3 {
            SmtcPlaybackStatus::Stopped
        } else if code == 4 {
            SmtcPlaybackStatus::Playing
        } else if code == 5 {
            SmtcPlaybackStatus::Paused
        } else {
            SmtcPlaybackStatus::Unknown
        }
    }

    /// The state of the schema that the status stands for.
    pub open spec fn spec_state(self) -> PlaybackState {
        match self {
            SmtcPlaybackStatus::Paused => PlaybackState::Paused,
            SmtcPlaybackStatus::Stopped => PlaybackState::Stopped,
            SmtcPlaybackStatus::Changing | SmtcPlaybackStatus::Opened => PlaybackState::Waiting,
            SmtcPlaybackStatus::Closed => PlaybackState::Absent,
            SmtcPlaybackStatus::Playing => PlaybackState::Playing,
            SmtcPlaybackStatus::Unknown => PlaybackState::Other,
        }
    }

    /// The state of the schema that the status stands for: a session that is
    /// opened or changing waits, a closed one is absent, and a status that is
    /// not known is `Other`.
    pub fn state(self) -> (r: PlaybackState)
        ensures
            r == self.spec_state(),
    {
        match self {
            SmtcPlaybackStatus::Paused => PlaybackState::Paused,
            SmtcPlaybackStatus::Stopped => PlaybackState::Stopped,
            SmtcPlaybackStatus::Changing | SmtcPlaybackStatus::Opened => PlaybackState::Waiting,
            SmtcPlaybackStatus::Closed => PlaybackState::Absent,
            SmtcPlaybackStatus::Playing => PlaybackState::Playing,
            SmtcPlaybackStatus::Unknown => PlaybackState::Other,
        }
    }
}

/// Whole milliseconds of a count of ticks, rounded towards zero.
pub open spec fn spec_ticks_to_millis(ticks: i64) -> int {
    if ticks >= 0 {
        ticks / 10000
    } else {
        -((-ticks) / 10000)
    }
}

/// Whole milliseconds of a count of ticks, rounded towards zero.
pub fn ticks_to_millis(ticks: i64) -> (r: i64)
    ensures
        r == spec_ticks_to_millis(ticks),
{
    if ticks >= 0 {
        ticks / TICKS_PER_MILLI
    } else if ticks == i64::MIN {
        -922337203685477
    } else {
        -((-ticks) / TICKS_PER_MILLI)
    }
}

/// Duration and position of a session's timeline, in milliseconds.
///
/// The duration is the end time less the start time, a start time that is
/// not given counting as zero; without an end time it is unknown. The
/// position is unknown where it is not given.
pub open spec fn spec_normalize_timeline(
    start_ticks: Option<i64>,
    end_ticks: Option<i64>,
    position_ticks: Option<i64>,
    last_updated: i64,
) -> TimelineInfo {
    let end = match end_ticks {
        Some(t) => spec_ticks_to_millis(t),
        None => -1,
    };
    let start = match start_ticks {
        Some(t) => spec_ticks_to_millis(t),
        None => 0,
    };
    TimelineInfo {
        duration: if end == -1 {
            UNKNOWN
        } else {
            (end - start) as i64
        },
        position: match position_ticks {
            Some(t) => spec_ticks_to_millis(t) as i64,
            None => UNKNOWN,
        },
        last_updated,
    }
}

/// Duration and position of a session's timeline, in milliseconds.
pub fn normalize_timeline(
    start_ticks: Option<i64>,
    end_ticks: Option<i64>,
    position_ticks: Option<i64>,
    last_updated: i64,
) -> (r: TimelineInfo)
    ensures
        r == spec_normalize_timeline(start_ticks, end_ticks, position_ticks, last_updated),
{
    let end: i64 = match end_ticks {
        Some(t) => ticks_to_millis(t),
        None => -1,
    };
    let start: i64 = match start_ticks {
        Some(t) => ticks_to_millis(t),
        None => 0,
    };
    let duration: i64 = if end == -1 {
        -1
    } else {
        end - start
    };
    let position: i64 = match position_ticks {
        Some(t) => ticks_to_millis(t),
        None => -1,
    };
    TimelineInfo { duration, position, last_updated }
}

/// The media properties of a session, as the platform gives them.
#[derive(Clone, Debug, PartialEq, Eq)]
pub struct MediaProperties {
    pub title: String,
    pub artist: String,
    pub album_title: String,
    pub album_artist: String,
    pub track_number: i32,
}

/// The metadata that media properties stand for. They say nothing of the
/// duration, which the timeline reports.
pub open spec fn spec_normalize_media_properties(
    title: Seq<char>,
    artist: Seq<char>,
    album_title: Seq<char>,
    album_artist: Seq<char>,
    track_number: i32,
) -> MetadataInfoView {
    MetadataInfoView {
        track_id: Seq::empty(),
        title,
        artist,
        album: album_title,
        album_artist,
        track_number: track_number as int,
        duration: UNKNOWN as int,
        art_url: Seq::empty(),
        track_url: Seq::empty(),
    }
}

/// The metadata that media properties stand for.
pub fn normalize_media_properties(properties: &MediaProperties) -> (r: MetadataInfo)
    ensures
        r@ == spec_normalize_media_properties(
            properties.title@,
            properties.artist@,
            properties.album_title@,
            properties.album_artist@,
            properties.track_number,
        ),
{
    MetadataInfo {
        track_id: String::new(),
        title: properties.title.clone(),
        artist: properties.artist.clone(),
        album: properties.album_title.clone(),
        album_artist: properties.album_artist.clone(),
        track_number: properties.track_number,
        duration: UNKNOWN,
        art_url: String::new(),
        track_url: String::new(),
    }
}

/// The tokens of the three handlers registered on a session.
#[derive(Clone, Copy, Debug, PartialEq, Eq, Structural)]
pub struct CallbackTokens {
    pub playback_info_changed: i64,
    pub media_properties_changed: i64,
    pub timeline_properties_changed: i64,
}

/// A subscription that has to be undone.
#[derive(Clone, Debug, PartialEq, Eq)]
pub struct Detached {
    pub app_id: String,
    pub tokens: CallbackTokens,
}

/// The mathematical content of a `Detached`.
pub struct DetachedView {
    pub app_id: Seq<char>,
    pub tokens: CallbackTokens,
}

impl View for Detached {
    type V = DetachedView;

    open spec fn view(&self) -> DetachedView {
        DetachedView { app_id: self.app_id@, tokens: self.tokens }
    }
}

/// A session that is subscribed to.
#[derive(Debug)]
struct Subscription {
    app_id: String,
    tokens: CallbackTokens,
    cache: PlayerCache,
}

/// The mathematical content of a subscription.
pub struct SubscriptionView {
    pub app_id: Seq<char>,
    pub tokens: CallbackTokens,
    pub cache: PlayerCacheView,
}

impl View for Subscription {
    type V = SubscriptionView;

    closed spec fn view(&self) -> SubscriptionView {
        SubscriptionView { app_id: self.app_id@, tokens: self.tokens, cache: self.cache@ }
    }
}

/// The mathematical content of the session state.
pub struct SmtcView {
    /// The sessions that were present at the last update, each once.
    pub present: Seq<SessionInfoView>,
    /// The subscriptions, in the order in which they were attached.
    pub subscribed: Seq<SubscriptionView>,
}

impl SmtcView {
    /// The session `id` is subscribed to.
    pub open spec fn is_subscribed(self, id: Seq<char>) -> bool {
        exists|i: int| 0 <= i < self.subscribed.len() && (#[trigger] self.subscribed[i]).app_id == id
    }

    /// The session `id` was present at the last update.
    pub open spec fn is_present(self, id: Seq<char>) -> bool {
        lists_id(self.present, id)
    }

    /// No session is subscribed to twice.
    pub open spec fn wf(self) -> bool {
        forall|i: int, j: int|
            0 <= i < j < self.subscribed.len() ==> (#[trigger] self.subscribed[i]).app_id != (
            #[trigger] self.subscribed[j]).app_id
    }

    /// The index of the subscription to `id`.
    pub open spec fn index_of(self, id: Seq<char>) -> int {
        choose|i: int| 0 <= i < self.subscribed.len() && (#[trigger] self.subscribed[i]).app_id == id
    }
}

/// The subscriptions that stay at an update: those whose session is present
/// and allowed.
pub open spec fn stays(present: Seq<SessionInfoView>, allowed: Set<Seq<char>>) -> spec_fn(
    SubscriptionView,
) -> bool {
    |s: SubscriptionView| lists_id(present, s.app_id) && allowed.contains(s.app_id)
}

/// The subscriptions that are undone at an update: those whose session is
/// present and no longer allowed.
pub open spec fn leaves(present: Seq<SessionInfoView>, allowed: Set<Seq<char>>) -> spec_fn(
    SubscriptionView,
) -> bool {
    |s: SubscriptionView| lists_id(present, s.app_id) && !allowed.contains(s.app_id)
}

/// The sessions that are subscribed to at an update: those that are allowed
/// and have no subscription yet.
pub open spec fn joins(subscribed: SmtcView, allowed: Set<Seq<char>>) -> spec_fn(
    SessionInfoView,
) -> bool {
    |s: SessionInfoView| allowed.contains(s.app_id) && !subscribed.is_subscribed(s.app_id)
}

/// What a subscription tells about how to undo it.
pub open spec fn detached_of(s: SubscriptionView) -> DetachedView {
    DetachedView { app_id: s.app_id, tokens: s.tokens }
}

/// What an update of the session list leads to.
#[derive(Debug)]
pub struct SessionsUpdate {
    /// The session list to hand to the host, where the set of sessions
    /// changed.
    pub sessions: Option<Vec<SessionInfo>>,
    /// The subscriptions to undo on their sessions.
    pub unsubscribe: Vec<Detached>,
    /// The sessions to subscribe to.
    pub subscribe: Vec<SessionInfo>,
}

/// What a timeline report leads to.
#[derive(Debug)]
pub struct TimelineUpdate {
    /// The metadata to emit, where the duration became known or changed.
    pub metadata: Option<MetadataInfo>,
    /// The playback state to emit, where the position became known or
    /// changed.
    pub playback: Option<PlaybackInfo>,
}

/// The content of each subscription of a list.
spec fn subscriptions_view(v: Seq<Subscription>) -> Seq<SubscriptionView> {
    v.map_values(|s: Subscription| s@)
}

/// The content of each `Detached` of a list.
pub open spec fn detached_view(v: Seq<Detached>) -> Seq<DetachedView> {
    v.map_values(|d: Detached| d@)
}

/// The index of the subscription to `id` in `list`.
fn find_subscription(list: &Vec<Subscription>, id: &str) -> (r: Option<usize>)
    ensures
        match r {
            Some(k) => k < list.len() && subscriptions_view(list@)[k as int].app_id == id@,
            None => forall|j: int|
                0 <= j < list.len() ==> (#[trigger] subscriptions_view(list@)[j]).app_id != id@,
        },
{
    let n = list.len();
    let mut i: usize = 0;
    while i < n
        invariant
            n == list.len(),
            i <= n,
            forall|j: int| 0 <= j < i ==> (#[trigger] subscriptions_view(list@)[j]).app_id != id@,
        decreases n - i,
    {
        if str_is(list[i].app_id.as_str(), id) {
            return Some(i);
        }
        i += 1;
    }
    None
}

/// Every session of `a` is listed in `b`.
fn ids_within(a: &Vec<SessionInfo>, b: &Vec<SessionInfo>) -> (r: bool)
    ensures
        r == forall|id: Seq<char>|
            lists_id(sessions_view(a@), id) ==> lists_id(sessions_view(b@), id),
{
    let n = a.len();
    let mut i: usize = 0;
    while i < n
        invariant
            n == a.len(),
            i <= n,
            forall|j: int|
                0 <= j < i ==> lists_id(
                    sessions_view(b@),
                    (#[trigger] sessions_view(a@)[j]).app_id,
                ),
        decreases n - i,
    {
        if find_session(b, a[i].app_id.as_str()).is_none() {
            assert(lists_id(sessions_view(a@), sessions_view(a@)[i as int].app_id));
            return false;
        }
        i += 1;
    }
    true
}

/// Whether two session lists name the same sessions.
pub open spec fn same_sessions(a: Seq<SessionInfoView>, b: Seq<SessionInfoView>) -> bool {
    forall|id: Seq<char>| lists_id(a, id) <==> lists_id(b, id)
}

/// The state of the sessions and their subscriptions.
#[derive(Debug)]
pub struct SmtcSessions {
    present: Vec<SessionInfo>,
    subscribed: Vec<Subscription>,
}

impl View for SmtcSessions {
    type V = SmtcView;

    closed spec fn view(&self) -> SmtcView {
        SmtcView {
            present: sessions_view(self.present@),
            subscribed: subscriptions_view(self.subscribed@),
        }
    }
}

impl SmtcSessions {
    #[verifier::type_invariant]
    spec fn inv(&self) -> bool {
        self@.wf()
    }

    /// The state before the first update: no session, no subscription.
    pub fn new() -> (r: SmtcSessions)
        ensures
            r@.present.len() == 0,
            r@.subscribed.len() == 0,
            r@.wf(),
    {
        SmtcSessions { present: Vec::new(), subscribed: Vec::new() }
    }

    /// Whether the session `app_id` is subscribed to.
    pub fn is_subscribed(&self, app_id: &str) -> (b: bool)
        ensures
            b == self@.is_subscribed(app_id@),
            self@.wf(),
    {
        proof {
            use_type_invariant(self);
        }
        let r = find_subscription(&self.subscribed, app_id);
        proof {
            if r.is_some() {
                assert(self@.subscribed[r.unwrap() as int].app_id == app_id@);
            }
        }
        r.is_some()
    }

    /// The number of subscriptions.
    pub fn subscription_count(&self) -> (n: usize)
        ensures
            n == self@.subscribed.len(),
    {
        self.subscribed.len()
    }

    /// Takes the subscriptions out, leaving none.
    fn take_subscribed(&mut self) -> (r: Vec<Subscription>)
        ensures
            subscriptions_view(r@) == old(self)@.subscribed,
            old(self)@.wf(),
            final(self)@.subscribed.len() == 0,
            final(self)@.present == old(self)@.present,
    {
        proof {
            use_type_invariant(&*self);
        }
        let mut out: Vec<Subscription> = Vec::new();
        std::mem::swap(&mut self.subscribed, &mut out);
        out
    }

    /// The platform's session list changed, or the allow list did.
    ///
    /// `current` is the complete list of sessions as the platform gives it.
    /// Afterwards exactly those earlier subscriptions remain whose session is
    /// still present and allowed. Subscriptions to sessions that are present
    /// but no longer allowed are to be undone; those to sessions that are
    /// gone are dropped. Every session that is allowed and not subscribed to
    /// is to be subscribed to, and `attach` records it. The session list is
    /// handed to the host where the set of sessions differs from that of the
    /// update before.
    pub fn update_sessions(&mut self, current: &Vec<SessionInfo>, allow_list: &AllowList) -> (r:
        SessionsUpdate)
        ensures
            final(self)@.wf(),
            final(self)@.present == spec_dedup(sessions_view(current@)),
            final(self)@.subscribed == old(self)@.subscribed.filter(
                stays(final(self)@.present, allow_list@),
            ),
            detached_view(r.unsubscribe@) == old(self)@.subscribed.filter(
                leaves(final(self)@.present, allow_list@),
            ).map_values(|s: SubscriptionView| detached_of(s)),
            sessions_view(r.subscribe@) == final(self)@.present.filter(
                joins(old(self)@, allow_list@),
            ),
            match r.sessions {
                Some(list) => !same_sessions(final(self)@.present, old(self)@.present)
                    && sessions_view(list@) == final(self)@.present,
                None => same_sessions(final(self)@.present, old(self)@.present),
            },
    {
        let ghost before = self@;
        let present = dedup_sessions(current);
        let ghost now = sessions_view(present@);
        let changed = !(ids_within(&present, &self.present) && ids_within(&self.present, &present));
        let old_subscribed = self.take_subscribed();
        let ghost subs = subscriptions_view(old_subscribed@);
        let ghost keep = stays(now, allow_list@);
        let ghost undo = leaves(now, allow_list@);
        let ghost undone = |s: SubscriptionView| detached_of(s);
        let mut kept: Vec<Subscription> = Vec::new();
        let mut unsubscribe: Vec<Detached> = Vec::new();
        let n = old_subscribed.len();
        let mut i: usize = 0;
        proof {
            reveal(Seq::filter);
            assert(subs.take(0) =~= Seq::<SubscriptionView>::empty());
            assert(subscriptions_view(kept@) =~= subs.take(0).filter(keep));
            assert(detached_view(unsubscribe@) =~= subs.take(0).filter(undo).map_values(undone));
        }
        while i < n
            invariant
                n == old_subscribed.len(),
                i <= n,
                subs == subscriptions_view(old_subscribed@),
                now == sessions_view(present@),
                keep == stays(now, allow_list@),
                undo == leaves(now, allow_list@),
                undone == (|s: SubscriptionView| detached_of(s)),
                before.wf(),
                subs == before.subscribed,
                subscriptions_view(kept@) == subs.take(i as int).filter(keep),
                detached_view(unsubscribe@) == subs.take(i as int).filter(undo).map_values(
                    undone,
                ),
                forall|j: int|
                    0 <= j < kept.len() ==> exists|k: int|
                        0 <= k < i && (#[trigger] subscriptions_view(kept@)[j]).app_id
                            == subs[k].app_id,
                (SmtcView { present: now, subscribed: subscriptions_view(kept@) }).wf(),
            decreases n - i,
        {
            let s = &old_subscribed[i];
            let ghost sv = subs[i as int];
            let ghost k0 = subscriptions_view(kept@);
            let ghost u0 = detached_view(unsubscribe@);
            proof {
                assert(s@ == sv);
                assert(subs.take(i + 1) =~= subs.take(i as int).push(sv));
                Seq::lemma_filter_push(subs.take(i as int), sv, keep);
                Seq::lemma_filter_push(subs.take(i as int), sv, undo);
            }
            let here = find_session(&present, s.app_id.as_str()).is_some();
            proof {
                if here {
                    let w = choose|w: int|
                        0 <= w < present.len() && sessions_view(present@)[w].app_id == sv.app_id;
                    assert(now[w].app_id == sv.app_id);
                }
                assert(here == lists_id(now, sv.app_id));
            }
            if here {
                if allow_list.contains(s.app_id.as_str()) {
                    kept.push(
                        Subscription {
                            app_id: s.app_id.clone(),
                            tokens: s.tokens,
                            cache: s.cache.duplicate(),
                        },
                    );
                    proof {
                        let k1 = subscriptions_view(kept@);
                        assert(k1 =~= k0.push(sv));
                        assert forall|j: int| 0 <= j < k1.len() implies exists|k: int|
                            0 <= k < i + 1 && (#[trigger] k1[j]).app_id == subs[k].app_id by {
                            if j < k0.len() {
                                let k = choose|k: int|
                                    0 <= k < i && k0[j].app_id == subs[k].app_id;
                                assert(k1[j].app_id == subs[k].app_id);
                            } else {
                                assert(k1[j].app_id == subs[i as int].app_id);
                            }
                        }
                        assert forall|a: int, b: int| 0 <= a < b < k1.len() implies (
                        #[trigger] k1[a]).app_id != (#[trigger] k1[b]).app_id by {
                            if b < k0.len() {
                                assert(k0[a].app_id != k0[b].app_id);
                            } else {
                                let k = choose|k: int|
                                    0 <= k < i && k0[a].app_id == subs[k].app_id;
                                assert(subs[k].app_id != subs[i as int].app_id);
                            }
                        }
                    }
                } else {
                    unsubscribe.push(Detached { app_id: s.app_id.clone(), tokens: s.tokens });
                    proof {
                        assert(detached_view(unsubscribe@) =~= u0.push(detached_of(sv)));
                        assert(subs.take(i as int).filter(undo).push(sv).map_values(undone)
                            =~= subs.take(i as int).filter(undo).map_values(undone).push(
                            detached_of(sv),
                        ));
                        assert forall|j: int| 0 <= j < kept.len() implies exists|k: int|
                            0 <= k < i + 1 && (#[trigger] subscriptions_view(kept@)[j]).app_id
                                == subs[k].app_id by {
                            let k = choose|k: int| 0 <= k < i && k0[j].app_id == subs[k].app_id;
                            assert(k0[j].app_id == subs[k].app_id);
                        }
                    }
                }
            } else {
                proof {
                    assert forall|j: int| 0 <= j < kept.len() implies exists|k: int|
                        0 <= k < i + 1 && (#[trigger] subscriptions_view(kept@)[j]).app_id
                            == subs[k].app_id by {
                        let k = choose|k: int| 0 <= k < i && k0[j].app_id == subs[k].app_id;
                        assert(k0[j].app_id == subs[k].app_id);
                    }
                }
            }
            i += 1;
        }
        proof {
            assert(subs.take(n as int) == subs);
        }
        let ghost join = joins(before, allow_list@);
        let mut subscribe: Vec<SessionInfo> = Vec::new();
        let m = present.len();
        let mut j: usize = 0;
        proof {
            assert(now.take(0) =~= Seq::<SessionInfoView>::empty());
            assert(sessions_view(subscribe@) =~= now.take(0).filter(join));
        }
        while j < m
            invariant
                m == present.len(),
                j <= m,
                now == sessions_view(present@),
                subs == subscriptions_view(old_subscribed@),
                subs == before.subscribed,
                join == joins(before, allow_list@),
                sessions_view(subscribe@) == now.take(j as int).filter(join),
            decreases m - j,
        {
            let p = &present[j];
            let ghost pv = now[j as int];
            let ghost s0 = sessions_view(subscribe@);
            proof {
                assert(p@ == pv);
                assert(now.take(j + 1) =~= now.take(j as int).push(pv));
                Seq::lemma_filter_push(now.take(j as int), pv, join);
            }
            let has = find_subscription(&old_subscribed, p.app_id.as_str());
            proof {
                if has.is_some() {
                    assert(before.subscribed[has.unwrap() as int].app_id == pv.app_id);
                }
                assert(has.is_some() == before.is_subscribed(pv.app_id));
            }
            if allow_list.contains(p.app_id.as_str()) && has.is_none() {
                subscribe.push(p.duplicate());
                assert(sessions_view(subscribe@) =~= s0.push(pv));
            }
            j += 1;
        }
        proof {
            assert(now.take(m as int) == now);
        }
        let sessions = if changed {
            let mut list: Vec<SessionInfo> = Vec::new();
            let mut c: usize = 0;
            while c < m
                invariant
                    m == present.len(),
                    c <= m,
                    list.len() == c,
                    forall|x: int| 0 <= x < c ==> (#[trigger] list@[x])@ == present@[x]@,
                decreases m - c,
            {
                list.push(present[c].duplicate());
                c += 1;
            }
            assert(sessions_view(list@) =~= sessions_view(present@));
            Some(list)
        } else {
            None
        };
        self.present = present;
        self.subscribed = kept;
        SessionsUpdate { sessions, unsubscribe, subscribe }
    }

    /// The handlers of the session `app_id` were registered under `tokens`.
    /// The subscription is recorded unless the session is subscribed to
    /// already; the answer says whether it was recorded. Where it was not,
    /// the caller has to undo the registration.
    pub fn attach(&mut self, app_id: &str, tokens: CallbackTokens) -> (recorded: bool)
        ensures
            final(self)@.wf(),
            recorded == !old(self)@.is_subscribed(app_id@),
            final(self)@.present == old(self)@.present,
            final(self)@.subscribed == if recorded {
                old(self)@.subscribed.push(
                    SubscriptionView {
                        app_id: app_id@,
                        tokens,
                        cache: PlayerCacheView { metadata: None, playback: None },
                    },
                )
            } else {
                old(self)@.subscribed
            },
    {
        let ghost before = self@;
        let mut subscribed = self.take_subscribed();
        let recorded = find_subscription(&subscribed, app_id).is_none();
        if recorded {
            let entry = Subscription {
                app_id: app_id.to_owned(),
                tokens,
                cache: PlayerCache::new(),
            };
            let ghost ev = entry@;
            subscribed.push(entry);
            proof {
                let after = subscriptions_view(subscribed@);
                assert(after =~= before.subscribed.push(ev));
                assert forall|a: int, b: int| 0 <= a < b < after.len() implies (
                #[trigger] after[a]).app_id != (#[trigger] after[b]).app_id by {
                    if b < before.subscribed.len() {
                        assert(before.subscribed[a].app_id != before.subscribed[b].app_id);
                    } else {
                        assert(before.subscribed[a].app_id != app_id@);
                    }
                }
            }
        } else {
            proof {
                let k = choose|k: int|
                    0 <= k < subscribed.len() && (#[trigger] subscriptions_view(
                        subscribed@,
                    )[k]).app_id == app_id@;
                assert(before.subscribed[k].app_id == app_id@);
            }
        }
        self.subscribed = subscribed;
        recorded
    }

    /// Puts the cache of the subscription at `k` in place of the old one.
    fn store_cache(&mut self, k: usize, cache: PlayerCache)
        requires
            k < old(self)@.subscribed.len(),
        ensures
            final(self)@.wf(),
            final(self)@.present == old(self)@.present,
            final(self)@.subscribed == old(self)@.subscribed.update(
                k as int,
                SubscriptionView { cache: cache@, ..old(self)@.subscribed[k as int] },
            ),
    {
        let ghost before = self@;
        let mut subscribed = self.take_subscribed();
        let entry = Subscription {
            app_id: subscribed[k].app_id.clone(),
            tokens: subscribed[k].tokens,
            cache,
        };
        subscribed.set(k, entry);
        proof {
            let after = subscriptions_view(subscribed@);
            assert(after =~= before.subscribed.update(
                k as int,
                SubscriptionView { cache: cache@, ..before.subscribed[k as int] },
            ));
            assert forall|a: int, b: int| 0 <= a < b < after.len() implies (
            #[trigger] after[a]).app_id != (#[trigger] after[b]).app_id by {
                assert(before.subscribed[a].app_id != before.subscribed[b].app_id);
            }
        }
        self.subscribed = subscribed;
    }

    /// The media properties of the session `app_id` changed. For a session
    /// that is subscribed to, the metadata is emitted with the duration that
    /// was known last; for any other session nothing happens.
    pub fn on_media_properties_changed(&mut self, app_id: &str, properties: &MediaProperties) -> (emitted:
        Option<MetadataInfo>)
        ensures
            final(self)@.wf(),
            final(self)@.present == old(self)@.present,
            match emitted {
                Some(m) => {
                    let k = old(self)@.index_of(app_id@);
                    &&& old(self)@.is_subscribed(app_id@)
                    &&& m@ == spec_merge_metadata(
                        old(self)@.subscribed[k].cache.metadata,
                        spec_normalize_media_properties(
                            properties.title@,
                            properties.artist@,
                            properties.album_title@,
                            properties.album_artist@,
                            properties.track_number,
                        ),
                    )
                    &&& final(self)@.subscribed == old(self)@.subscribed.update(
                        k,
                        SubscriptionView {
                            cache: PlayerCacheView {
                                metadata: Some(m@),
                                ..old(self)@.subscribed[k].cache
                            },
                            ..old(self)@.subscribed[k]
                        },
                    )
                },
                None => !old(self)@.is_subscribed(app_id@) && final(self)@ == old(self)@,
            },
    {
        proof {
            use_type_invariant(&*self);
        }
        match find_subscription(&self.subscribed, app_id) {
            Some(k) => {
                proof {
                    self@.lemma_index_of(app_id@, k as int);
                }
                let mut cache = self.subscribed[k].cache.duplicate();
                let m = cache.merge_metadata(normalize_media_properties(properties));
                self.store_cache(k, cache);
                Some(m)
            },
            None => None,
        }
    }

    /// The playback info of the session `app_id` changed. For a session that
    /// is subscribed to, the state is emitted with the position that was
    /// known last; for any other session nothing happens.
    pub fn on_playback_info_changed(
        &mut self,
        app_id: &str,
        status: SmtcPlaybackStatus,
        can_skip: bool,
    ) -> (emitted: Option<PlaybackInfo>)
        ensures
            final(self)@.wf(),
            final(self)@.present == old(self)@.present,
            match emitted {
                Some(p) => {
                    let k = old(self)@.index_of(app_id@);
                    &&& old(self)@.is_subscribed(app_id@)
                    &&& p == spec_merge_playback(
                        old(self)@.subscribed[k].cache.playback,
                        PlaybackInfo { state: status.spec_state(), position: UNKNOWN, can_skip },
                    )
                    &&& final(self)@.subscribed == old(self)@.subscribed.update(
                        k,
                        SubscriptionView {
                            cache: PlayerCacheView {
                                playback: Some(p),
                                ..old(self)@.subscribed[k].cache
                            },
                            ..old(self)@.subscribed[k]
                        },
                    )
                },
                None => !old(self)@.is_subscribed(app_id@) && final(self)@ == old(self)@,
            },
    {
        proof {
            use_type_invariant(&*self);
        }
        match find_subscription(&self.subscribed, app_id) {
            Some(k) => {
                proof {
                    self@.lemma_index_of(app_id@, k as int);
                }
                let mut cache = self.subscribed[k].cache.duplicate();
                let p = cache.merge_playback(
                    PlaybackInfo { state: status.state(), position: UNKNOWN, can_skip },
                );
                self.store_cache(k, cache);
                Some(p)
            },
            None => None,
        }
    }

    /// The timeline of the session `app_id` changed. For a session that is
    /// subscribed to, a duration that became known or changed leads to the
    /// cached metadata being emitted with it, and a position that became
    /// known or changed to the cached playback state being emitted with it.
    /// For any other session nothing happens.
    pub fn on_timeline_properties_changed(&mut self, app_id: &str, timeline: TimelineInfo) -> (r:
        TimelineUpdate)
        ensures
            final(self)@.wf(),
            final(self)@.present == old(self)@.present,
            !old(self)@.is_subscribed(app_id@) ==> r.metadata is None && r.playback is None
                && final(self)@ == old(self)@,
            old(self)@.is_subscribed(app_id@) ==> {
                let k = old(self)@.index_of(app_id@);
                let cache = old(self)@.subscribed[k].cache;
                &&& match r.metadata {
                    Some(m) => spec_late_duration(cache.metadata, timeline.duration as int)
                        == Some(m@),
                    None => spec_late_duration(cache.metadata, timeline.duration as int) is None,
                }
                &&& r.playback == spec_late_position(cache.playback, timeline.position)
                &&& final(self)@.subscribed == old(self)@.subscribed.update(
                    k,
                    SubscriptionView {
                        cache: PlayerCacheView {
                            metadata: match r.metadata {
                                Some(m) => Some(m@),
                                None => cache.metadata,
                            },
                            playback: if cache.playback is Some && r.playback is Some {
                                r.playback
                            } else {
                                cache.playback
                            },
                        },
                        ..old(self)@.subscribed[k]
                    },
                )
            },
    {
        proof {
            use_type_invariant(&*self);
        }
        match find_subscription(&self.subscribed, app_id) {
            Some(k) => {
                proof {
                    self@.lemma_index_of(app_id@, k as int);
                }
                let mut cache = self.subscribed[k].cache.duplicate();
                let metadata = cache.late_duration(timeline.duration);
                let playback = cache.late_position(timeline.position);
                self.store_cache(k, cache);
                TimelineUpdate { metadata, playback }
            },
            None => TimelineUpdate { metadata: None, playback: None },
        }
    }

    /// The session `app_id` announced new media properties, and `read` is
    /// what reading them gave: nothing where the platform call failed. A
    /// change that could not be read is passed over: nothing is emitted and
    /// the state stays as it is. One that was read is handled as by
    /// `on_media_properties_changed`.
    pub fn on_media_properties_read(&mut self, app_id: &str, read: Option<&MediaProperties>) -> (emitted:
        Option<MetadataInfo>)
        ensures
            final(self)@.wf(),
            final(self)@.present == old(self)@.present,
            read is None ==> emitted is None && final(self)@ == old(self)@,
            read matches Some(properties) ==> match emitted {
                Some(m) => {
                    let k = old(self)@.index_of(app_id@);
                    &&& old(self)@.is_subscribed(app_id@)
                    &&& m@ == spec_merge_metadata(
                        old(self)@.subscribed[k].cache.metadata,
                        spec_normalize_media_properties(
                            properties.title@,
                            properties.artist@,
                            properties.album_title@,
                            properties.album_artist@,
                            properties.track_number,
                        ),
                    )
                    &&& final(self)@.subscribed == old(self)@.subscribed.update(
                        k,
                        SubscriptionView {
                            cache: PlayerCacheView {
                                metadata: Some(m@),
                                ..old(self)@.subscribed[k].cache
                            },
                            ..old(self)@.subscribed[k]
                        },
                    )
                },
                None => !old(self)@.is_subscribed(app_id@) && final(self)@ == old(self)@,
            },
    {
        match read {
            Some(properties) => self.on_media_properties_changed(app_id, properties),
            None => {
                proof {
                    use_type_invariant(&*self);
                }
                None
            },
        }
    }

    /// The session `app_id` announced new playback info. `read` is the
    /// status that reading it gave, nothing where the platform call failed;
    /// `next_enabled` is what the session's controls say of skipping, nothing
    /// where they could not be asked. A status that could not be read is
    /// passed over: nothing is emitted and the state stays as it is. One
    /// that was read is handled as by `on_playback_info_changed`, a skip
    /// capability that could not be asked counting as none.
    pub fn on_playback_info_read(
        &mut self,
        app_id: &str,
        read: Option<SmtcPlaybackStatus>,
        next_enabled: Option<bool>,
    ) -> (emitted: Option<PlaybackInfo>)
        ensures
            final(self)@.wf(),
            final(self)@.present == old(self)@.present,
            read is None ==> emitted is None && final(self)@ == old(self)@,
            read matches Some(status) ==> match emitted {
                Some(p) => {
                    let k = old(self)@.index_of(app_id@);
                    &&& old(self)@.is_subscribed(app_id@)
                    &&& p == spec_merge_playback(
                        old(self)@.subscribed[k].cache.playback,
                        PlaybackInfo {
                            state: status.spec_state(),
                            position: UNKNOWN,
                            can_skip: next_enabled == Some(true),
                        },
                    )
                    &&& final(self)@.subscribed == old(self)@.subscribed.update(
                        k,
                        SubscriptionView {
                            cache: PlayerCacheView {
                                playback: Some(p),
                                ..old(self)@.subscribed[k].cache
                            },
                            ..old(self)@.subscribed[k]
                        },
                    )
                },
                None => !old(self)@.is_subscribed(app_id@) && final(self)@ == old(self)@,
            },
    {
        match read {
            Some(status) => {
                let can_skip = match next_enabled {
                    Some(b) => b,
                    None => false,
                };
                self.on_playback_info_changed(app_id, status, can_skip)
            },
            None => {
                proof {
                    use_type_invariant(&*self);
                }
                None
            },
        }
    }

    /// The session `app_id` announced a new timeline, and `read` is what
    /// reading it gave: nothing where the platform call failed. A change
    /// that could not be read is passed over: nothing is emitted and the
    /// state stays as it is. One that was read is handled as by
    /// `on_timeline_properties_changed`.
    pub fn on_timeline_properties_read(&mut self, app_id: &str, read: Option<TimelineInfo>) -> (r:
        TimelineUpdate)
        ensures
            final(self)@.wf(),
            final(self)@.present == old(self)@.present,
            read is None || !old(self)@.is_subscribed(app_id@) ==> r.metadata is None
                && r.playback is None && final(self)@ == old(self)@,
            read matches Some(timeline) ==> old(self)@.is_subscribed(app_id@) ==> {
                let k = old(self)@.index_of(app_id@);
                let cache = old(self)@.subscribed[k].cache;
                &&& match r.metadata {
                    Some(m) => spec_late_duration(cache.metadata, timeline.duration as int)
                        == Some(m@),
                    None => spec_late_duration(cache.metadata, timeline.duration as int) is None,
                }
                &&& r.playback == spec_late_position(cache.playback, timeline.position)
                &&& final(self)@.subscribed == old(self)@.subscribed.update(
                    k,
                    SubscriptionView {
                        cache: PlayerCacheView {
                            metadata: match r.metadata {
                                Some(m) => Some(m@),
                                None => cache.metadata,
                            },
                            playback: if cache.playback is Some && r.playback is Some {
                                r.playback
                            } else {
                                cache.playback
                            },
                        },
                        ..old(self)@.subscribed[k]
                    },
                )
            },
    {
        match read {
            Some(timeline) => self.on_timeline_properties_changed(app_id, timeline),
            None => {
                proof {
                    use_type_invariant(&*self);
                }
                TimelineUpdate { metadata: None, playback: None }
            },
        }
    }

    /// Stops everything: the result names every subscription that has to be
    /// undone, and the state is as before the first update.
    pub fn shutdown(&mut self) -> (undo: Vec<Detached>)
        ensures
            final(self)@.wf(),
            final(self)@.present.len() == 0,
            final(self)@.subscribed.len() == 0,
            detached_view(undo@) == old(self)@.subscribed.map_values(
                |s: SubscriptionView| detached_of(s),
            ),
    {
        let ghost before = self@;
        let subscribed = self.take_subscribed();
        let mut undo: Vec<Detached> = Vec::new();
        let n = subscribed.len();
        let mut i: usize = 0;
        while i < n
            invariant
                n == subscribed.len(),
                i <= n,
                undo.len() == i,
                forall|j: int|
                    0 <= j < i ==> (#[trigger] undo@[j])@ == detached_of(
                        subscriptions_view(subscribed@)[j],
                    ),
            decreases n - i,
        {
            undo.push(Detached { app_id: subscribed[i].app_id.clone(), tokens: subscribed[i].tokens });
            i += 1;
        }
        assert(detached_view(undo@) =~= before.subscribed.map_values(
            |s: SubscriptionView| detached_of(s),
        ));
        self.present = Vec::new();
        undo
    }
}

impl SmtcView {
    /// Where no session is subscribed to twice, the subscription to `id` is
    /// the only entry with that identity.
    pub proof fn lemma_index_of(self, id: Seq<char>, k: int)
        requires
            self.wf(),
            0 <= k < self.subscribed.len(),
            self.subscribed[k].app_id == id,
        ensures
            self.is_subscribed(id),
            self.index_of(id) == k,
    {
        let c = self.index_of(id);
        if c < k {
            assert(self.subscribed[c].app_id != self.subscribed[k].app_id);
        } else if k < c {
            assert(self.subscribed[k].app_id != self.subscribed[c].app_id);
        }
    }
}

} // verus!
