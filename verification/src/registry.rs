//! The session registry: which players are present on the platform and which
//! of them have a tracker.
//!
//! The registry decides; its caller acts. Every operation changes the
//! registry's state and returns what has to be done about it: which tracker
//! to start, which to stop, and the session list to hand to the host.
//!
//! Trackers go by raw identity; the allow list is asked about the logical
//! identity, and the session list names each logical identity once. In every
//! state there is at most one tracker per identity, and every tracker belongs
//! to a player that is present.

use vstd::prelude::*;
use vstd::string::*;
use crate::admission::AllowList;
use crate::identity::{is_mpris_name, spec_is_mpris_name, spec_normalize_dbus_name};
use crate::media_info::{
    names_view, sessions_view, IncomingEvent, SessionInfo, SessionInfoView,
};
use crate::mpris::{
    lemma_active_players_listed_once, normalize_active_players, spec_normalize_active_players,
};
use crate::sessions::ids_unique;
use crate::text::str_is;

verus! {

/// The mathematical content of a registry: the players present, in the order
/// in which they appeared, and the identities that have a tracker.
pub struct RegistryView {
    pub known: Seq<SessionInfoView>,
    pub trackers: Seq<Seq<char>>,
}

impl RegistryView {
    /// The player `id` is present.
    pub open spec fn is_known(self, id: Seq<char>) -> bool {
        exists|i: int| 0 <= i < self.known.len() && (#[trigger] self.known[i]).app_id == id
    }

    /// The player `id` has a tracker.
    pub open spec fn is_tracked(self, id: Seq<char>) -> bool {
        self.trackers.contains(id)
    }

    /// No player is listed twice, no identity has two trackers, and every
    /// tracker belongs to a player that is present.
    pub open spec fn wf(self) -> bool {
        &&& ids_unique(self.known)
        &&& self.trackers.no_duplicates()
        &&& forall|id: Seq<char>| #[trigger] self.trackers.contains(id) ==> self.is_known(id)
    }

    /// The list of players once `id` has appeared under the name `name`: its
    /// entry renamed where the player was present already, else appended.
    pub open spec fn with_player(self, id: Seq<char>, name: Seq<char>) -> Seq<SessionInfoView> {
        let entry = SessionInfoView { app_id: id, app_name: name };
        if self.is_known(id) {
            self.known.map_values(
                |s: SessionInfoView|
                    if s.app_id == id {
                        entry
                    } else {
                        s
                    },
            )
        } else {
            self.known.push(entry)
        }
    }

    /// The list of players once `id` has gone.
    pub open spec fn without_player(self, id: Seq<char>) -> Seq<SessionInfoView> {
        if self.is_known(id) {
            self.known.remove(
                choose|i: int| 0 <= i < self.known.len() && (#[trigger] self.known[i]).app_id == id,
            )
        } else {
            self.known
        }
    }

    /// The trackers once the one of `id`, if any, has been stopped.
    pub open spec fn without_tracker(self, id: Seq<char>) -> Seq<Seq<char>> {
        if self.trackers.contains(id) {
            self.trackers.remove(self.trackers.index_of(id))
        } else {
            self.trackers
        }
    }

    /// The session list that the host is given: the logical identity of
    /// every player present, each once, with the display name of the player
    /// that appeared first under it.
    pub open spec fn snapshot(self) -> Seq<SessionInfoView> {
        spec_normalize_active_players(self.known)
    }
}

/// What follows from a player's appearance.
#[derive(Debug)]
pub struct PlayerAdded {
    /// A tracker has to be started for the player.
    pub start_tracker: bool,
    /// The session list to hand to the host.
    pub sessions: Vec<SessionInfo>,
}

/// What follows from a player's disappearance.
#[derive(Debug)]
pub struct PlayerRemoved {
    /// The player's tracker has to be stopped.
    pub stop_tracker: bool,
    /// The session list to hand to the host.
    pub sessions: Vec<SessionInfo>,
}

/// What follows from a re-evaluation of the allow list.
#[derive(Debug)]
pub struct Refreshed {
    /// The raw identities for which a tracker has to be started.
    pub start: Vec<String>,
    /// The raw identities whose tracker has to be stopped.
    pub stop: Vec<String>,
}

/// Where a command of the host goes.
#[derive(Debug, PartialEq, Eq)]
pub enum Route {
    /// To the tracker of the player with this raw identity.
    ToTracker(String),
    /// Nowhere: the command names a player without a tracker.
    Dropped,
    /// To the registry: re-evaluate the allow list.
    Refresh,
    /// To the registry: stop everything.
    Shutdown,
    /// Past the registry: the command does not concern players.
    Extra,
}

/// What a change of a bus name's owner means.
#[derive(Clone, Copy, Debug, PartialEq, Eq, Structural)]
pub enum OwnerChange {
    /// The name is not a media player's: nothing happens.
    Ignored,
    /// A player appeared that has no tracker yet.
    Appeared,
    /// A player went away.
    Vanished,
    /// The player list stays as it is; only the session list is handed on.
    Unchanged,
}

/// What a change of a bus name's owner means: for a name outside the media
/// player prefix nothing; a name that gains its first owner and has no
/// tracker yet appears; a name that loses its owner vanishes.
pub open spec fn spec_classify_owner_change(
    name: Seq<char>,
    had_owner: bool,
    has_owner: bool,
    has_tracker: bool,
) -> OwnerChange {
    if !spec_is_mpris_name(name) {
        OwnerChange::Ignored
    } else if !had_owner && has_owner && !has_tracker {
        OwnerChange::Appeared
    } else if had_owner && !has_owner {
        OwnerChange::Vanished
    } else {
        OwnerChange::Unchanged
    }
}

/// The index of the player `id` in `list`.
fn find_session(list: &Vec<SessionInfo>, id: &str) -> (r: Option<usize>)
    ensures
        match r {
            Some(k) => k < list.len() && list@[k as int].app_id@ == id@,
            None => forall|j: int| 0 <= j < list.len() ==> (#[trigger] list@[j]).app_id@ != id@,
        },
{
    let n = list.len();
    let mut i: usize = 0;
    while i < n
        invariant
            n == list.len(),
            i <= n,
            forall|j: int| 0 <= j < i ==> (#[trigger] list@[j]).app_id@ != id@,
        decreases n - i,
    {
        if str_is(list[i].app_id.as_str(), id) {
            return Some(i);
        }
        i += 1;
    }
    None
}

/// The index of `id` in `list`.
fn find_name(list: &Vec<String>, id: &str) -> (r: Option<usize>)
    ensures
        match r {
            Some(k) => k < list.len() && names_view(list@)[k as int] == id@ && names_view(
                list@,
            ).contains(id@),
            None => !names_view(list@).contains(id@),
        },
{
    let n = list.len();
    let mut i: usize = 0;
    while i < n
        invariant
            n == list.len(),
            i <= n,
            forall|j: int| 0 <= j < i ==> (#[trigger] list@[j])@ != id@,
        decreases n - i,
    {
        if str_is(list[i].as_str(), id) {
            assert(names_view(list@)[i as int] == id@);
            return Some(i);
        }
        i += 1;
    }
    assert forall|j: int| 0 <= j < names_view(list@).len() implies names_view(list@)[j] != id@ by {
        assert(names_view(list@)[j] == list@[j]@);
    }
    None
}

/// A list with one more element holds what it held and that element.
proof fn lemma_push_contains<A>(s: Seq<A>, x: A, y: A)
    ensures
        s.push(x).contains(y) <==> (s.contains(y) || x == y),
{
    if s.contains(y) {
        let i = choose|i: int| 0 <= i < s.len() && s[i] == y;
        assert(s.push(x)[i] == y);
    }
    if x == y {
        assert(s.push(x)[s.len() as int] == y);
    }
    if s.push(x).contains(y) {
        let i = choose|i: int| 0 <= i < s.push(x).len() && s.push(x)[i] == y;
        if i < s.len() {
            assert(s[i] == y);
        }
    }
}

/// A list without duplicates stays so when an element it lacks is appended.
proof fn lemma_push_no_duplicates<A>(s: Seq<A>, x: A)
    requires
        s.no_duplicates(),
        !s.contains(x),
    ensures
        s.push(x).no_duplicates(),
{
    let t = s.push(x);
    assert forall|i: int, j: int| 0 <= i < t.len() && 0 <= j < t.len() && i != j implies t[i]
        != t[j] by {
        if i < s.len() && j < s.len() {
            assert(s[i] != s[j]);
        } else if i < s.len() {
            assert(s[i] == t[i]);
            assert(s.contains(t[i]));
        } else {
            assert(s[j] == t[j]);
            assert(s.contains(t[j]));
        }
    }
}

/// A list of players without trackers is a valid registry.
proof fn lemma_wf_no_trackers(v: RegistryView)
    requires
        ids_unique(v.known),
        v.trackers.len() == 0,
    ensures
        v.wf(),
{
    assert(v.trackers.no_duplicates());
    assert forall|id: Seq<char>| #[trigger] v.trackers.contains(id) implies v.is_known(id) by {}
}

/// Entering a player keeps the registry valid, and the player is present.
proof fn lemma_with_player(v: RegistryView, id: Seq<char>, name: Seq<char>)
    requires
        v.wf(),
    ensures
        (RegistryView { known: v.with_player(id, name), trackers: v.trackers }).wf(),
        (RegistryView { known: v.with_player(id, name), trackers: v.trackers }).is_known(id),
{
    let w = RegistryView { known: v.with_player(id, name), trackers: v.trackers };
    if v.is_known(id) {
        assert(w.known.len() == v.known.len());
        assert forall|i: int| 0 <= i < w.known.len() implies (#[trigger] w.known[i]).app_id
            == v.known[i].app_id by {}
        let k = choose|k: int| 0 <= k < v.known.len() && (#[trigger] v.known[k]).app_id == id;
        assert(w.known[k].app_id == id);
        assert forall|i: int, j: int| 0 <= i < j < w.known.len() implies (
        #[trigger] w.known[i]).app_id != (#[trigger] w.known[j]).app_id by {
            assert(v.known[i].app_id != v.known[j].app_id);
        }
    } else {
        assert(w.known[v.known.len() as int].app_id == id);
        assert forall|i: int, j: int| 0 <= i < j < w.known.len() implies (
        #[trigger] w.known[i]).app_id != (#[trigger] w.known[j]).app_id by {
            if j < v.known.len() {
                assert(v.known[i].app_id != v.known[j].app_id);
            } else {
                assert(w.known[i] == v.known[i]);
                assert(v.known[i].app_id != id);
            }
        }
    }
    assert forall|x: Seq<char>| #[trigger] w.trackers.contains(x) implies w.is_known(x) by {
        assert(v.is_known(x));
        let c = choose|c: int| 0 <= c < v.known.len() && (#[trigger] v.known[c]).app_id == x;
        assert(w.known[c].app_id == x);
    }
}

/// Giving a tracker to a player that is present and has none keeps the
/// registry valid.
proof fn lemma_start_tracker(v: RegistryView, id: Seq<char>)
    requires
        v.wf(),
        v.is_known(id),
        !v.trackers.contains(id),
    ensures
        (RegistryView { known: v.known, trackers: v.trackers.push(id) }).wf(),
{
    let w = RegistryView { known: v.known, trackers: v.trackers.push(id) };
    lemma_push_no_duplicates(v.trackers, id);
    assert forall|x: Seq<char>| #[trigger] w.trackers.contains(x) implies w.is_known(x) by {
        lemma_push_contains(v.trackers, id, x);
        if x != id {
            assert(v.trackers.contains(x));
        }
        assert(v.is_known(x));
        let c = choose|c: int| 0 <= c < v.known.len() && (#[trigger] v.known[c]).app_id == x;
        assert(w.known[c].app_id == x);
    }
}

/// Stopping a player's tracker keeps the registry valid and leaves the
/// player without tracker.
proof fn lemma_without_tracker(v: RegistryView, id: Seq<char>)
    requires
        v.wf(),
    ensures
        (RegistryView { known: v.known, trackers: v.without_tracker(id) }).wf(),
        !v.without_tracker(id).contains(id),
{
    let w = RegistryView { known: v.known, trackers: v.without_tracker(id) };
    if v.trackers.contains(id) {
        let k = v.trackers.index_of(id);
        assert(0 <= k < v.trackers.len() && v.trackers[k] == id);
        assert forall|i: int| 0 <= i < w.trackers.len() implies #[trigger] w.trackers[i] == (if i
            < k {
            v.trackers[i]
        } else {
            v.trackers[i + 1]
        }) by {}
        assert forall|i: int, j: int|
            0 <= i < w.trackers.len() && 0 <= j < w.trackers.len() && i != j implies w.trackers[i]
            != w.trackers[j] by {
            let a = if i < k { i } else { i + 1 };
            let b = if j < k { j } else { j + 1 };
            assert(v.trackers[a] != v.trackers[b]);
        }
        assert forall|x: Seq<char>| #[trigger] w.trackers.contains(x) implies v.trackers.contains(
            x,
        ) && x != id by {
            let i = choose|i: int| 0 <= i < w.trackers.len() && w.trackers[i] == x;
            let a = if i < k { i } else { i + 1 };
            assert(v.trackers[a] == x);
            assert(v.trackers[a] != v.trackers[k]);
        }
        assert forall|x: Seq<char>| #[trigger] w.trackers.contains(x) implies w.is_known(x) by {
            assert(v.trackers.contains(x));
            assert(v.is_known(x));
            let c = choose|c: int| 0 <= c < v.known.len() && (#[trigger] v.known[c]).app_id == x;
            assert(w.known[c].app_id == x);
        }
    }
}

/// Taking a player without tracker off the list keeps the registry valid, and
/// the player is no longer present.
proof fn lemma_without_player(v: RegistryView, id: Seq<char>)
    requires
        v.wf(),
        !v.trackers.contains(id),
    ensures
        (RegistryView { known: v.without_player(id), trackers: v.trackers }).wf(),
        !(RegistryView { known: v.without_player(id), trackers: v.trackers }).is_known(id),
{
    let w = RegistryView { known: v.without_player(id), trackers: v.trackers };
    if v.is_known(id) {
        let k = choose|k: int| 0 <= k < v.known.len() && (#[trigger] v.known[k]).app_id == id;
        assert forall|i: int| 0 <= i < w.known.len() implies #[trigger] w.known[i] == (if i < k {
            v.known[i]
        } else {
            v.known[i + 1]
        }) by {}
        assert forall|i: int, j: int| 0 <= i < j < w.known.len() implies (
        #[trigger] w.known[i]).app_id != (#[trigger] w.known[j]).app_id by {
            let a = if i < k { i } else { i + 1 };
            let b = if j < k { j } else { j + 1 };
            assert(v.known[a].app_id != v.known[b].app_id);
        }
        assert forall|i: int| 0 <= i < w.known.len() implies (#[trigger] w.known[i]).app_id
            != id by {
            let a = if i < k { i } else { i + 1 };
            if a < k {
                assert(v.known[a].app_id != v.known[k].app_id);
            } else {
                assert(v.known[k].app_id != v.known[a].app_id);
            }
        }
        assert forall|x: Seq<char>| #[trigger] w.trackers.contains(x) implies w.is_known(x) by {
            assert(v.is_known(x));
            let c = choose|c: int| 0 <= c < v.known.len() && (#[trigger] v.known[c]).app_id == x;
            assert(c != k);
            if c < k {
                assert(w.known[c].app_id == x);
            } else {
                assert(w.known[c - 1].app_id == x);
            }
        }
    }
}

/// The content of two lists taken as a registry's.
pub open spec fn view_of(known: Seq<SessionInfo>, trackers: Seq<String>) -> RegistryView {
    RegistryView { known: sessions_view(known), trackers: names_view(trackers) }
}

/// The registry of players and trackers.
pub struct SessionRegistry {
    known: Vec<SessionInfo>,
    trackers: Vec<String>,
}

impl View for SessionRegistry {
    type V = RegistryView;

    closed spec fn view(&self) -> RegistryView {
        view_of(self.known@, self.trackers@)
    }
}

impl SessionRegistry {
    #[verifier::type_invariant]
    spec fn inv(&self) -> bool {
        self@.wf()
    }

    /// The registry without players.
    pub fn new() -> (r: SessionRegistry)
        ensures
            r@.known.len() == 0,
            r@.trackers.len() == 0,
            r@.wf(),
    {
        SessionRegistry { known: Vec::new(), trackers: Vec::new() }
    }

    /// Whether the player with the raw identity `identity` has a tracker.
    pub fn is_tracking(&self, identity: &str) -> (b: bool)
        ensures
            b == self@.is_tracked(identity@),
            self@.wf(),
    {
        proof {
            use_type_invariant(self);
        }
        find_name(&self.trackers, identity).is_some()
    }

    /// Whether the player with the raw identity `identity` is present.
    pub fn is_present(&self, identity: &str) -> (b: bool)
        ensures
            b == self@.is_known(identity@),
            self@.wf(),
    {
        proof {
            use_type_invariant(self);
        }
        let r = find_session(&self.known, identity);
        proof {
            if r.is_some() {
                assert(self@.known[r.unwrap() as int].app_id == identity@);
            } else {
                assert forall|j: int| 0 <= j < self@.known.len() implies (
                #[trigger] self@.known[j]).app_id != identity@ by {
                    assert(self@.known[j] == self.known@[j]@);
                }
            }
        }
        r.is_some()
    }

    /// The number of trackers.
    pub fn tracker_count(&self) -> (n: usize)
        ensures
            n == self@.trackers.len(),
            self@.wf(),
    {
        proof {
            use_type_invariant(self);
        }
        self.trackers.len()
    }

    /// The session list that the host is given: the logical identity of
    /// every player present, whether it has a tracker or not. Players that
    /// share a logical identity are listed as one, under the display name of
    /// the one that appeared first.
    pub fn snapshot(&self) -> (r: Vec<SessionInfo>)
        ensures
            r.deep_view() == self@.snapshot(),
            ids_unique(r.deep_view()),
            self@.wf(),
    {
        proof {
            use_type_invariant(self);
            lemma_active_players_listed_once(self@.known);
        }
        let r = normalize_active_players(&self.known);
        assert(self.known.deep_view() =~= self@.known);
        r
    }

    /// What a change of a bus name's owner means for this registry.
    pub fn classify_owner_change(&self, name: &str, had_owner: bool, has_owner: bool) -> (r:
        OwnerChange)
        ensures
            r == spec_classify_owner_change(
                name@,
                had_owner,
                has_owner,
                self@.is_tracked(name@),
            ),
    {
        if !is_mpris_name(name) {
            OwnerChange::Ignored
        } else if !had_owner && has_owner && !self.is_tracking(name) {
            OwnerChange::Appeared
        } else if had_owner && !has_owner {
            OwnerChange::Vanished
        } else {
            OwnerChange::Unchanged
        }
    }

    /// Takes the lists out of the registry, which is left without players.
    fn take_state(&mut self) -> (r: (Vec<SessionInfo>, Vec<String>))
        ensures
            old(self)@.wf(),
            view_of(r.0@, r.1@) == old(self)@,
            final(self)@.known.len() == 0,
            final(self)@.trackers.len() == 0,
    {
        proof {
            use_type_invariant(&*self);
        }
        let mut known: Vec<SessionInfo> = Vec::new();
        let mut trackers: Vec<String> = Vec::new();
        proof {
            lemma_wf_no_trackers(view_of(self.known@, trackers@));
        }
        std::mem::swap(&mut self.trackers, &mut trackers);
        proof {
            lemma_wf_no_trackers(view_of(known@, self.trackers@));
        }
        std::mem::swap(&mut self.known, &mut known);
        (known, trackers)
    }

    /// Puts lists into a registry without trackers.
    fn put_state(&mut self, known: Vec<SessionInfo>, trackers: Vec<String>)
        requires
            old(self)@.trackers.len() == 0,
            view_of(known@, trackers@).wf(),
        ensures
            final(self)@ == view_of(known@, trackers@),
    {
        proof {
            lemma_wf_no_trackers(view_of(known@, self.trackers@));
        }
        self.known = known;
        self.trackers = trackers;
    }

    /// A player appeared.
    ///
    /// A player that has a tracker already changes nothing. Any other player
    /// is entered under `display_name` (an entry it had is renamed), and a
    /// tracker is asked for exactly if the allow list admits it.
    pub fn on_player_added(
        &mut self,
        identity: &str,
        display_name: String,
        allow_list: &AllowList,
    ) -> (r: PlayerAdded)
        ensures
            final(self)@.wf(),
            old(self)@.is_tracked(identity@) ==> final(self)@ == old(self)@ && !r.start_tracker,
            !old(self)@.is_tracked(identity@) ==> {
                &&& final(self)@.known == old(self)@.with_player(identity@, display_name@)
                &&& r.start_tracker == allow_list@.contains(spec_normalize_dbus_name(identity@))
                &&& final(self)@.trackers == if r.start_tracker {
                    old(self)@.trackers.push(identity@)
                } else {
                    old(self)@.trackers
                }
            },
            r.sessions.deep_view() == final(self)@.snapshot(),
            ids_unique(r.sessions.deep_view()),
    {
        let ghost before = self@;
        let (mut known, mut trackers) = self.take_state();
        let mut start_tracker = false;
        if find_name(&trackers, identity).is_none() {
            let entry = SessionInfo { app_id: identity.to_owned(), app_name: display_name };
            let ghost entered = before.with_player(identity@, display_name@);
            match find_session(&known, identity) {
                Some(k) => {
                    proof {
                        assert(before.known[k as int].app_id == identity@);
                    }
                    known.set(k, entry);
                    proof {
                        let now = sessions_view(known@);
                        assert forall|j: int| 0 <= j < now.len() implies now[j]
                            == entered[j] by {
                            if j < k {
                                assert(before.known[j].app_id != before.known[k as int].app_id);
                            } else if j > k {
                                assert(before.known[k as int].app_id != before.known[j].app_id);
                            }
                        }
                        assert(now =~= entered);
                    }
                },
                None => {
                    proof {
                        assert forall|j: int| 0 <= j < before.known.len() implies (
                        #[trigger] before.known[j]).app_id != identity@ by {
                            assert(before.known[j] == known@[j]@);
                        }
                    }
                    known.push(entry);
                    proof {
                        assert(sessions_view(known@) =~= entered);
                    }
                },
            }
            proof {
                lemma_with_player(before, identity@, display_name@);
                assert(names_view(trackers@) == before.trackers);
            }
            if allow_list.admits(identity) {
                trackers.push(identity.to_owned());
                proof {
                    lemma_start_tracker(
                        RegistryView { known: entered, trackers: before.trackers },
                        identity@,
                    );
                    assert(names_view(trackers@) =~= before.trackers.push(identity@));
                }
                start_tracker = true;
            }
        }
        self.put_state(known, trackers);
        let sessions = self.snapshot();
        PlayerAdded { start_tracker, sessions }
    }

    /// A player went away: its tracker, if it had one, is to be stopped, and
    /// the player leaves the list.
    pub fn on_player_removed(&mut self, identity: &str) -> (r: PlayerRemoved)
        ensures
            final(self)@.wf(),
            r.stop_tracker == old(self)@.is_tracked(identity@),
            final(self)@.trackers == old(self)@.without_tracker(identity@),
            final(self)@.known == old(self)@.without_player(identity@),
            !final(self)@.is_tracked(identity@),
            !final(self)@.is_known(identity@),
            r.sessions.deep_view() == final(self)@.snapshot(),
            ids_unique(r.sessions.deep_view()),
    {
        let ghost before = self@;
        let (mut known, mut trackers) = self.take_state();
        let mut stop_tracker = false;
        match find_name(&trackers, identity) {
            Some(k) => {
                proof {
                    assert(before.trackers.index_of(identity@) == k);
                }
                let _ = trackers.remove(k);
                proof {
                    assert(names_view(trackers@) =~= before.trackers.remove(k as int));
                }
                stop_tracker = true;
            },
            None => {},
        }
        let ghost mid = RegistryView {
            known: before.known,
            trackers: before.without_tracker(identity@),
        };
        proof {
            lemma_without_tracker(before, identity@);
            assert(names_view(trackers@) == mid.trackers);
            assert(sessions_view(known@) == mid.known);
            lemma_without_player(mid, identity@);
        }
        match find_session(&known, identity) {
            Some(k) => {
                proof {
                    assert(mid.known[k as int].app_id == identity@);
                    let c = choose|c: int|
                        0 <= c < mid.known.len() && (#[trigger] mid.known[c]).app_id == identity@;
                    if c < k {
                        assert(mid.known[c].app_id != mid.known[k as int].app_id);
                    } else if c > k {
                        assert(mid.known[k as int].app_id != mid.known[c].app_id);
                    }
                }
                let _ = known.remove(k);
                proof {
                    assert(sessions_view(known@) =~= mid.known.remove(k as int));
                }
            },
            None => {
                proof {
                    assert forall|j: int| 0 <= j < mid.known.len() implies (
                    #[trigger] mid.known[j]).app_id != identity@ by {
                        assert(mid.known[j] == known@[j]@);
                    }
                }
            },
        }
        self.put_state(known, trackers);
        let sessions = self.snapshot();
        PlayerRemoved { stop_tracker, sessions }
    }

    /// Re-evaluates every player present against the allow list.
    ///
    /// Afterwards exactly the players that are present and admitted have a
    /// tracker. `start` names those that had none before, `stop` those that
    /// had one and are admitted no longer. The list of players is unchanged.
    pub fn refresh(&mut self, allow_list: &AllowList) -> (r: Refreshed)
        ensures
            final(self)@.wf(),
            final(self)@.known == old(self)@.known,
            forall|id: Seq<char>|
                final(self)@.is_tracked(id) <==> (old(self)@.is_known(id) && allow_list@.contains(
                    spec_normalize_dbus_name(id),
                )),
            forall|id: Seq<char>|
                names_view(r.start@).contains(id) <==> (final(self)@.is_tracked(id)
                    && !old(self)@.is_tracked(id)),
            forall|id: Seq<char>|
                names_view(r.stop@).contains(id) <==> (old(self)@.is_tracked(id)
                    && !final(self)@.is_tracked(id)),
            names_view(r.start@).no_duplicates(),
            names_view(r.stop@).no_duplicates(),
    {
        proof {
            use_type_invariant(&*self);
        }
        let ghost before = self@;
        let mut admitted: Vec<String> = Vec::new();
        let mut start: Vec<String> = Vec::new();
        let n = self.known.len();
        let mut i: usize = 0;
        while i < n
            invariant
                n == self.known.len(),
                i <= n,
                self@ == before,
                before.wf(),
                forall|id: Seq<char>|
                    names_view(admitted@).contains(id) <==> (exists|j: int|
                        0 <= j < i && (#[trigger] before.known[j]).app_id == id
                            && allow_list@.contains(spec_normalize_dbus_name(id))),
                forall|id: Seq<char>|
                    #![trigger names_view(start@).contains(id)]
                    #![trigger names_view(admitted@).contains(id)]
                    names_view(start@).contains(id) <==> (names_view(admitted@).contains(id)
                        && !before.is_tracked(id)),
                names_view(admitted@).no_duplicates(),
                names_view(start@).no_duplicates(),
            decreases n - i,
        {
            let id = self.known[i].app_id.as_str();
            let ghost idv = before.known[i as int].app_id;
            assert(id@ == idv) by {
                assert(before.known[i as int] == self.known@[i as int]@);
            }
            let ghost t0 = names_view(admitted@);
            let ghost s0 = names_view(start@);
            if allow_list.admits(id) {
                proof {
                    // No earlier player has this identity, so it is in neither list yet.
                    if t0.contains(idv) {
                        let j = choose|j: int|
                            0 <= j < i && (#[trigger] before.known[j]).app_id == idv
                                && allow_list@.contains(spec_normalize_dbus_name(idv));
                        assert(before.known[j].app_id != before.known[i as int].app_id);
                    }
                }
                let was_tracked = find_name(&self.trackers, id).is_some();
                assert(was_tracked == before.is_tracked(idv));
                admitted.push(id.to_owned());
                proof {
                    lemma_push_no_duplicates(t0, idv);
                    assert(names_view(admitted@) =~= t0.push(idv));
                    assert forall|x: Seq<char>|
                        names_view(admitted@).contains(x) <==> (exists|j: int|
                            0 <= j < i + 1 && (#[trigger] before.known[j]).app_id == x
                                && allow_list@.contains(spec_normalize_dbus_name(x))) by {
                        lemma_push_contains(t0, idv, x);
                        if x == idv {
                            assert(before.known[i as int].app_id == x);
                        }
                    }
                }
                if !was_tracked {
                    start.push(id.to_owned());
                    proof {
                        assert(!s0.contains(idv));
                        lemma_push_no_duplicates(s0, idv);
                        assert(names_view(start@) =~= s0.push(idv));
                        assert forall|x: Seq<char>|
                            #![trigger names_view(start@).contains(x)]
                            #![trigger names_view(admitted@).contains(x)]
                            names_view(start@).contains(x) <==> (names_view(admitted@).contains(x)
                                && !before.is_tracked(x)) by {
                            lemma_push_contains(s0, idv, x);
                            lemma_push_contains(t0, idv, x);
                        }
                    }
                } else {
                    proof {
                        assert forall|x: Seq<char>|
                            #![trigger names_view(start@).contains(x)]
                            #![trigger names_view(admitted@).contains(x)]
                            names_view(start@).contains(x) <==> (names_view(admitted@).contains(x)
                                && !before.is_tracked(x)) by {
                            lemma_push_contains(t0, idv, x);
                        }
                    }
                }
            } else {
                proof {
                    assert forall|x: Seq<char>|
                        names_view(admitted@).contains(x) <==> (exists|j: int|
                            0 <= j < i + 1 && (#[trigger] before.known[j]).app_id == x
                                && allow_list@.contains(spec_normalize_dbus_name(x))) by {
                        if names_view(admitted@).contains(x) {
                            let j = choose|j: int|
                                0 <= j < i && (#[trigger] before.known[j]).app_id == x
                                    && allow_list@.contains(spec_normalize_dbus_name(x));
                            assert(0 <= j < i + 1 && before.known[j].app_id == x);
                        }
                    }
                }
            }
            i += 1;
        }
        let mut stop: Vec<String> = Vec::new();
        let m = self.trackers.len();
        let mut k: usize = 0;
        while k < m
            invariant
                m == self.trackers.len(),
                k <= m,
                self@ == before,
                before.wf(),
                forall|id: Seq<char>|
                    names_view(stop@).contains(id) <==> (exists|j: int|
                        0 <= j < k && #[trigger] before.trackers[j] == id
                            && !allow_list@.contains(spec_normalize_dbus_name(id))),
                names_view(stop@).no_duplicates(),
            decreases m - k,
        {
            let id = self.trackers[k].as_str();
            let ghost idv = before.trackers[k as int];
            let ghost p0 = names_view(stop@);
            if !allow_list.admits(id) {
                proof {
                    if p0.contains(idv) {
                        let j = choose|j: int|
                            0 <= j < k && #[trigger] before.trackers[j] == idv
                                && !allow_list@.contains(spec_normalize_dbus_name(idv));
                        assert(before.trackers[j] != before.trackers[k as int]);
                    }
                }
                stop.push(id.to_owned());
                proof {
                    lemma_push_no_duplicates(p0, idv);
                    assert(names_view(stop@) =~= p0.push(idv));
                    assert forall|x: Seq<char>|
                        names_view(stop@).contains(x) <==> (exists|j: int|
                            0 <= j < k + 1 && #[trigger] before.trackers[j] == x
                                && !allow_list@.contains(spec_normalize_dbus_name(x))) by {
                        lemma_push_contains(p0, idv, x);
                        if x == idv {
                            assert(before.trackers[k as int] == x);
                        }
                    }
                }
            } else {
                proof {
                    assert forall|x: Seq<char>|
                        names_view(stop@).contains(x) <==> (exists|j: int|
                            0 <= j < k + 1 && #[trigger] before.trackers[j] == x
                                && !allow_list@.contains(spec_normalize_dbus_name(x))) by {
                        if names_view(stop@).contains(x) {
                            let j = choose|j: int|
                                0 <= j < k && #[trigger] before.trackers[j] == x
                                    && !allow_list@.contains(spec_normalize_dbus_name(x));
                            assert(0 <= j < k + 1 && before.trackers[j] == x);
                        }
                    }
                }
            }
            k += 1;
        }
        proof {
            let after = names_view(admitted@);
            assert forall|id: Seq<char>|
                after.contains(id) <==> (before.is_known(id) && allow_list@.contains(
                    spec_normalize_dbus_name(id),
                )) by {
                if before.is_known(id) && allow_list@.contains(spec_normalize_dbus_name(id)) {
                    let j = choose|j: int|
                        0 <= j < before.known.len() && (#[trigger] before.known[j]).app_id == id;
                    assert(0 <= j < n && before.known[j].app_id == id);
                }
            }
            assert forall|id: Seq<char>|
                names_view(stop@).contains(id) <==> (before.is_tracked(id) && !after.contains(
                    id,
                )) by {
                if before.is_tracked(id) && !after.contains(id) {
                    let j = choose|j: int| 0 <= j < before.trackers.len() && before.trackers[j] == id;
                    assert(before.trackers.contains(id));
                    assert(before.is_known(id));
                    assert(0 <= j < m && before.trackers[j] == id);
                }
                if names_view(stop@).contains(id) {
                    let j = choose|j: int|
                        0 <= j < m && #[trigger] before.trackers[j] == id && !allow_list@.contains(
                            spec_normalize_dbus_name(id),
                        );
                    assert(before.trackers.contains(id));
                }
            }
        }
        proof {
            let w = view_of(self.known@, admitted@);
            assert(w.known == before.known);
            assert forall|id: Seq<char>| #[trigger] w.trackers.contains(id) implies w.is_known(
                id,
            ) by {}
        }
        self.trackers = admitted;
        Refreshed { start, stop }
    }

    /// Stops everything: the result names every tracker that has to be
    /// stopped, and the registry is left without players.
    pub fn shutdown(&mut self) -> (stopped: Vec<String>)
        ensures
            final(self)@.wf(),
            final(self)@.known.len() == 0,
            final(self)@.trackers.len() == 0,
            names_view(stopped@) == old(self)@.trackers,
    {
        proof {
            use_type_invariant(&*self);
        }
        let mut stopped: Vec<String> = Vec::new();
        proof {
            lemma_wf_no_trackers(view_of(self.known@, stopped@));
        }
        std::mem::swap(&mut self.trackers, &mut stopped);
        let known: Vec<SessionInfo> = Vec::new();
        proof {
            lemma_wf_no_trackers(view_of(known@, self.trackers@));
        }
        self.known = known;
        stopped
    }

    /// Where a command of the host goes.
    ///
    /// A command for a player goes to that player's tracker; without such a
    /// tracker it is dropped. Refresh and shutdown are the registry's own.
    /// Everything else passes by.
    pub fn route(&self, event: &IncomingEvent) -> (r: Route)
        ensures
            match *event {
                IncomingEvent::Skip(id) | IncomingEvent::Mute(id) | IncomingEvent::Unmute(id) => {
                    if self@.is_tracked(id@) {
                        r matches Route::ToTracker(to) && to@ == id@
                    } else {
                        r == Route::Dropped
                    }
                },
                IncomingEvent::RefreshSessions => r == Route::Refresh,
                IncomingEvent::Shutdown => r == Route::Shutdown,
                _ => r == Route::Extra,
            },
    {
        match event {
            IncomingEvent::Skip(id) | IncomingEvent::Mute(id) | IncomingEvent::Unmute(id) => {
                if self.is_tracking(id.as_str()) {
                    Route::ToTracker(id.clone())
                } else {
                    Route::Dropped
                }
            },
            IncomingEvent::RefreshSessions => Route::Refresh,
            IncomingEvent::Shutdown => Route::Shutdown,
            _ => Route::Extra,
        }
    }
}

/// At most one tracker: in a valid registry two trackers of the same
/// identity are one and the same.
pub proof fn lemma_at_most_one_tracker(v: RegistryView, i: int, j: int)
    requires
        v.wf(),
        0 <= i < v.trackers.len(),
        0 <= j < v.trackers.len(),
        v.trackers[i] == v.trackers[j],
    ensures
        i == j,
{
}

/// Refreshing is idempotent: in a registry in which exactly the players that
/// are present and admitted have a tracker, a refresh with the same allow
/// list starts no tracker and stops none. `start` and `stop` stand for what
/// `refresh` returns, `after` for the registry it leaves.
pub proof fn lemma_refresh_settled(
    before: RegistryView,
    after: RegistryView,
    allowed: Set<Seq<char>>,
    start: Seq<Seq<char>>,
    stop: Seq<Seq<char>>,
)
    requires
        forall|id: Seq<char>|
            before.is_tracked(id) <==> (before.is_known(id) && allowed.contains(
                spec_normalize_dbus_name(id),
            )),
        forall|id: Seq<char>|
            after.is_tracked(id) <==> (before.is_known(id) && allowed.contains(
                spec_normalize_dbus_name(id),
            )),
        forall|id: Seq<char>|
            start.contains(id) <==> (after.is_tracked(id) && !before.is_tracked(id)),
        forall|id: Seq<char>|
            stop.contains(id) <==> (before.is_tracked(id) && !after.is_tracked(id)),
    ensures
        start.len() == 0,
        stop.len() == 0,
{
    if start.len() > 0 {
        assert(start.contains(start[0]));
    }
    if stop.len() > 0 {
        assert(stop.contains(stop[0]));
    }
}

} // verus!
