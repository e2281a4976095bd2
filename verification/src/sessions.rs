//! Lists of sessions, and the suppression of duplicates in them.
//!
//! A list that is handed to the host names every identity once. Where a list
//! holds several entries with one identity, the first of them stays, with its
//! display name, and the others are left out.

use vstd::prelude::*;
use vstd::string::*;
use crate::media_info::{sessions_view, SessionInfo, SessionInfoView};
use crate::text::str_is;

verus! {

/// The list holds a session with the identity `id`.
pub open spec fn lists_id(sessions: Seq<SessionInfoView>, id: Seq<char>) -> bool {
    exists|i: int| 0 <= i < sessions.len() && (#[trigger] sessions[i]).app_id == id
}

/// No two entries of the list have the same identity.
pub open spec fn ids_unique(sessions: Seq<SessionInfoView>) -> bool {
    forall|i: int, j: int|
        0 <= i < j < sessions.len() ==> (#[trigger] sessions[i]).app_id != (
        #[trigger] sessions[j]).app_id
}

/// The entry at `i` is the first of the list with its identity.
pub open spec fn is_first_of_its_id(sessions: Seq<SessionInfoView>, i: int) -> bool {
    &&& 0 <= i < sessions.len()
    &&& !lists_id(sessions.take(i), sessions[i].app_id)
}

/// The sessions of a list, each identity once: of entries with the same
/// identity the first stays.
pub open spec fn spec_dedup(sessions: Seq<SessionInfoView>) -> Seq<SessionInfoView>
    decreases sessions.len(),
{
    if sessions.len() == 0 {
        sessions
    } else {
        let head = spec_dedup(sessions.drop_last());
        if lists_id(head, sessions.last().app_id) {
            head
        } else {
            head.push(sessions.last())
        }
    }
}

/// What suppressing duplicates keeps: every identity of the list, each once,
/// with the entry that came first.
pub proof fn lemma_dedup(sessions: Seq<SessionInfoView>)
    ensures
        ids_unique(spec_dedup(sessions)),
        spec_dedup(sessions).len() <= sessions.len(),
        forall|id: Seq<char>|
            #![trigger lists_id(spec_dedup(sessions), id)]
            #![trigger lists_id(sessions, id)]
            lists_id(spec_dedup(sessions), id) <==> lists_id(sessions, id),
        forall|i: int| #[trigger]
            is_first_of_its_id(sessions, i) ==> spec_dedup(sessions).contains(sessions[i]),
    decreases sessions.len(),
{
    if sessions.len() > 0 {
        let n = sessions.len() - 1;
        let head = sessions.drop_last();
        let last = sessions.last();
        let d = spec_dedup(head);
        let r = spec_dedup(sessions);
        lemma_dedup(head);
        assert(head == sessions.take(n));
        // Which identities the result lists.
        assert forall|id: Seq<char>|
            #![trigger lists_id(r, id)]
            #![trigger lists_id(sessions, id)]
            lists_id(r, id) <==> lists_id(sessions, id) by {
            if lists_id(sessions, id) {
                let i = choose|i: int| 0 <= i < sessions.len() && (#[trigger] sessions[i]).app_id == id;
                if i < n {
                    assert(head[i].app_id == id);
                    assert(lists_id(head, id));
                    assert(lists_id(d, id));
                    let k = choose|k: int| 0 <= k < d.len() && (#[trigger] d[k]).app_id == id;
                    assert(r[k].app_id == id);
                } else {
                    if lists_id(d, last.app_id) {
                    } else {
                        assert(r[d.len() as int].app_id == id);
                    }
                }
            }
            if lists_id(r, id) {
                let k = choose|k: int| 0 <= k < r.len() && (#[trigger] r[k]).app_id == id;
                if k < d.len() {
                    assert(d[k].app_id == id);
                    assert(lists_id(d, id));
                    assert(lists_id(head, id));
                    let i = choose|i: int| 0 <= i < head.len() && (#[trigger] head[i]).app_id == id;
                    assert(sessions[i].app_id == id);
                } else {
                    assert(sessions[n].app_id == id);
                }
            }
        }
        // No identity twice.
        assert forall|i: int, j: int| 0 <= i < j < r.len() implies (#[trigger] r[i]).app_id != (
        #[trigger] r[j]).app_id by {
            if j < d.len() {
                assert(d[i].app_id != d[j].app_id);
            } else {
                assert(r[i] == d[i]);
                if d[i].app_id == last.app_id {
                    assert(lists_id(d, last.app_id));
                }
            }
        }
        // The first entry of every identity stays.
        assert forall|i: int| #[trigger] is_first_of_its_id(sessions, i) implies r.contains(
            sessions[i],
        ) by {
            if i < n {
                assert(head.take(i) == sessions.take(i));
                assert(is_first_of_its_id(head, i));
                assert(d.contains(head[i]));
                let k = choose|k: int| 0 <= k < d.len() && d[k] == head[i];
                assert(r[k] == sessions[i]);
            } else {
                // No earlier entry has this identity, so it was appended.
                assert(!lists_id(head, last.app_id));
                assert(!lists_id(d, last.app_id));
                assert(r[d.len() as int] == sessions[i]);
            }
        }
    }
}

/// The index of the session `id` in `list`.
pub fn find_session(list: &Vec<SessionInfo>, id: &str) -> (r: Option<usize>)
    ensures
        match r {
            Some(k) => k < list.len() && sessions_view(list@)[k as int].app_id == id@
                && !lists_id(sessions_view(list@).take(k as int), id@),
            None => !lists_id(sessions_view(list@), id@),
        },
{
    let n = list.len();
    let mut i: usize = 0;
    while i < n
        invariant
            n == list.len(),
            i <= n,
            forall|j: int| 0 <= j < i ==> (#[trigger] sessions_view(list@)[j]).app_id != id@,
        decreases n - i,
    {
        if str_is(list[i].app_id.as_str(), id) {
            proof {
                let head = sessions_view(list@).take(i as int);
                assert forall|j: int| 0 <= j < head.len() implies (#[trigger] head[j]).app_id
                    != id@ by {
                    assert(head[j] == sessions_view(list@)[j]);
                }
            }
            return Some(i);
        }
        i += 1;
    }
    None
}

/// The sessions of a list, each identity once: of entries with the same
/// identity the first stays, and the order of what stays is kept.
pub fn dedup_sessions(sessions: &Vec<SessionInfo>) -> (r: Vec<SessionInfo>)
    ensures
        sessions_view(r@) == spec_dedup(sessions_view(sessions@)),
{
    let ghost all = sessions_view(sessions@);
    let mut out: Vec<SessionInfo> = Vec::new();
    let n = sessions.len();
    let mut i: usize = 0;
    assert(all.take(0) =~= Seq::<SessionInfoView>::empty());
    assert(sessions_view(out@) =~= spec_dedup(all.take(0)));
    while i < n
        invariant
            n == sessions.len(),
            i <= n,
            all == sessions_view(sessions@),
            sessions_view(out@) == spec_dedup(all.take(i as int)),
        decreases n - i,
    {
        proof {
            assert(all.take(i + 1).drop_last() == all.take(i as int));
            assert(all.take(i + 1).last() == all[i as int]);
        }
        if find_session(&out, sessions[i].app_id.as_str()).is_none() {
            let ghost before = sessions_view(out@);
            out.push(sessions[i].duplicate());
            assert(sessions_view(out@) =~= before.push(all[i as int]));
        }
        i += 1;
    }
    assert(all.take(n as int) == all);
    out
}

} // verus!
