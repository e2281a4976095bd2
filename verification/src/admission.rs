//! The admission filter: which players may be tracked at all.
//!
//! The host pushes an allow list of logical identities, always as a full
//! replacement. A raw identity is admitted when its logical identity is on the
//! list.

use vstd::prelude::*;
use vstd::string::*;
use crate::identity::{normalize_dbus_name, spec_normalize_dbus_name};
use crate::media_info::names_view;
use crate::text::str_is;

verus! {

/// The logical identities that the host allows.
#[derive(Clone, Debug, Default)]
pub struct AllowList {
    ids: Vec<String>,
}

impl View for AllowList {
    type V = Set<Seq<char>>;

    closed spec fn view(&self) -> Set<Seq<char>> {
        names_view(self.ids@).to_set()
    }
}

/// Whether `name` stands in `list`.
pub fn holds_name(list: &Vec<String>, name: &str) -> (b: bool)
    ensures
        b == names_view(list@).contains(name@),
{
    let n = list.len();
    let mut i: usize = 0;
    while i < n
        invariant
            n == list.len(),
            i <= n,
            forall|j: int| 0 <= j < i ==> (#[trigger] list@[j])@ != name@,
        decreases n - i,
    {
        if str_is(list[i].as_str(), name) {
            assert(names_view(list@)[i as int] == name@);
            return true;
        }
        i += 1;
    }
    assert forall|j: int| 0 <= j < names_view(list@).len() implies names_view(list@)[j]
        != name@ by {
        assert(names_view(list@)[j] == list@[j]@);
    }
    false
}

impl AllowList {
    /// The list that allows nothing.
    pub fn new() -> (r: AllowList)
        ensures
            r@ == Set::<Seq<char>>::empty(),
    {
        let r = AllowList { ids: Vec::new() };
        assert(r@ =~= Set::<Seq<char>>::empty());
        r
    }

    /// Replaces the whole list: afterwards exactly the given identities are
    /// allowed.
    pub fn set_allow_list(&mut self, ids: Vec<String>)
        ensures
            final(self)@ == names_view(ids@).to_set(),
    {
        self.ids = ids;
    }

    /// Whether the logical identity `app_id` is on the list.
    pub fn contains(&self, app_id: &str) -> (b: bool)
        ensures
            b == self@.contains(app_id@),
    {
        holds_name(&self.ids, app_id)
    }

    /// Whether the player with the raw identity `identity` is admitted: its
    /// logical identity is on the list.
    pub fn admits(&self, identity: &str) -> (b: bool)
        ensures
            b == self@.contains(spec_normalize_dbus_name(identity@)),
    {
        let logical = normalize_dbus_name(identity);
        holds_name(&self.ids, logical.as_str())
    }
}

/// Whether the allow list holds the logical identity `app_id`.
pub fn is_app_allowed(allow_list: &AllowList, app_id: &str) -> (b: bool)
    ensures
        b == allow_list@.contains(app_id@),
{
    allow_list.contains(app_id)
}

/// The verdict on a player when the host itself is asked: the host's answer,
/// and a refusal where the host could not be reached.
pub fn host_verdict(answer: Option<bool>) -> (b: bool)
    ensures
        b == (answer == Some(true)),
{
    match answer {
        Some(allowed) => allowed,
        None => false,
    }
}

} // verus!
