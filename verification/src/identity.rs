//! Player identities and the rule that collapses numbered instances of one
//! application to one logical identity.
//!
//! A bus name such as `org.mpris.MediaPlayer2.chromium.instance1234` names one
//! of several instances. Everything from the last `.instance` on is replaced
//! by `.instancen`, so that all instances share the identity that the allow
//! list and the session snapshots speak of.

use vstd::prelude::*;
use vstd::string::*;
use crate::text::{chars_of, contains, has_prefix, last_occurrence, lemma_last_occurrence, lemma_last_occurrence_unique, occurs_at, rfind, starts_with};

verus! {

/// The logical identity of a raw identity.
pub open spec fn spec_normalize_dbus_name(app_id: Seq<char>) -> Seq<char> {
    match last_occurrence(app_id, ".instance"@) {
        Some(i) => app_id.take(i) + ".instancen"@,
        None => app_id,
    }
}

/// Whether a bus name belongs to a media player.
pub open spec fn spec_is_mpris_name(name: Seq<char>) -> bool {
    starts_with(name, "org.mpris.MediaPlayer2."@)
}

/// The logical identity of a raw identity: what stands before the last
/// `.instance`, followed by `.instancen`; the identity itself where it holds
/// no `.instance`.
pub fn normalize_dbus_name(app_id: &str) -> (r: String)
    ensures
        r@ == spec_normalize_dbus_name(app_id@),
{
    let hay = chars_of(app_id);
    let needle = chars_of(".instance");
    match rfind(&hay, &needle) {
        Some(i) => {
            let mut out = app_id.substring_char(0, i).to_owned();
            out.append(".instancen");
            out
        },
        None => app_id.to_owned(),
    }
}

/// Whether a bus name belongs to a media player, that is, begins with
/// `org.mpris.MediaPlayer2.`.
pub fn is_mpris_name(name: &str) -> (b: bool)
    ensures
        b == spec_is_mpris_name(name@),
{
    let hay = chars_of(name);
    let prefix = chars_of("org.mpris.MediaPlayer2.");
    has_prefix(&hay, &prefix)
}

/// Normalizing twice gives what normalizing once gives: a logical identity is
/// its own logical identity.
pub proof fn lemma_normalize_idempotent(app_id: Seq<char>)
    ensures
        spec_normalize_dbus_name(spec_normalize_dbus_name(app_id)) == spec_normalize_dbus_name(
            app_id,
        ),
{
    reveal_strlit(".instance");
    reveal_strlit(".instancen");
    let marker = ".instance"@;
    let tail = ".instancen"@;
    match last_occurrence(app_id, marker) {
        Some(i) => {
            lemma_last_occurrence(app_id, marker);
            let t = app_id.take(i) + tail;
            assert(t.subrange(i, i + 9) =~= marker);
            assert forall|j: int| i < j implies !occurs_at(t, marker, j) by {
                if occurs_at(t, marker, j) {
                    assert(j == i + 1);
                    assert(t.subrange(j, j + 9)[0] == t[i + 1]);
                    assert(t[i + 1] == tail[1]);
                }
            }
            lemma_last_occurrence_unique(t, marker, i);
            assert(t.take(i) =~= app_id.take(i));
        },
        None => {},
    }
}

/// An identity that holds no `.instance` is its own logical identity.
pub proof fn lemma_normalize_plain(app_id: Seq<char>)
    requires
        !contains(app_id, ".instance"@),
    ensures
        spec_normalize_dbus_name(app_id) == app_id,
{
}

} // verus!
