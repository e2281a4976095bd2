//! Desktop notifications and the file picker: what is asked of the desktop,
//! and what is made of its answer.

use vstd::prelude::*;
use vstd::string::*;

verus! {

/// How long a notification stays, in milliseconds.
pub const NOTIFICATION_TIMEOUT_MS: i32 = 10000;

/// A notification as the desktop is asked to show it.
#[derive(Clone, Debug, PartialEq, Eq)]
pub struct NotificationPlan {
    pub app_name: String,
    pub summary: String,
    pub body: String,
    pub timeout_ms: i32,
    /// Let the desktop pick the icon of the running application.
    pub auto_icon: bool,
    /// The desktop entry whose icon is shown.
    pub desktop_entry: Option<String>,
}

/// The notification with the given title and body. Inside an application
/// image the desktop picks the icon; elsewhere the icon of the application's
/// desktop entry is shown.
pub fn notify(title: &str, body: &str, in_app_image: bool) -> (r: NotificationPlan)
    ensures
        r.app_name@ == "Pano Scrobbler"@,
        r.summary@ == title@,
        r.body@ == body@,
        r.timeout_ms == NOTIFICATION_TIMEOUT_MS,
        r.auto_icon == in_app_image,
        in_app_image ==> r.desktop_entry is None,
        !in_app_image ==> (r.desktop_entry matches Some(entry) && entry@ == "pano-scrobbler"@),
{
    NotificationPlan {
        app_name: "Pano Scrobbler".to_owned(),
        summary: title.to_owned(),
        body: body.to_owned(),
        timeout_ms: NOTIFICATION_TIMEOUT_MS,
        auto_icon: in_app_image,
        desktop_entry: if in_app_image {
            None
        } else {
            Some("pano-scrobbler".to_owned())
        },
    }
}

/// The texts of a list, joined by a comma and a space.
pub open spec fn spec_join(parts: Seq<Seq<char>>) -> Seq<char>
    decreases parts.len(),
{
    if parts.len() == 0 {
        Seq::empty()
    } else if parts.len() == 1 {
        parts[0]
    } else {
        spec_join(parts.drop_last()) + ", "@ + parts.last()
    }
}

/// The label of a file filter: its patterns, joined by a comma and a space.
pub fn filter_label(filters: &Vec<String>) -> (r: String)
    ensures
        r@ == spec_join(filters.deep_view()),
{
    let ghost all = filters.deep_view();
    let mut out = String::new();
    let n = filters.len();
    let mut i: usize = 0;
    assert(all.take(0) =~= Seq::<Seq<char>>::empty());
    while i < n
        invariant
            n == filters.len(),
            all == filters.deep_view(),
            i <= n,
            out@ == spec_join(all.take(i as int)),
        decreases n - i,
    {
        proof {
            assert(all.take(i + 1).drop_last() == all.take(i as int));
            assert(all.take(i + 1).last() == filters@[i as int]@);
            if i == 0 {
                assert(all.take(1)[0] == filters@[0]@);
            }
        }
        if i > 0 {
            out.append(", ");
        }
        out.append(filters[i].as_str());
        proof {
            if i == 0 {
                assert(Seq::<char>::empty() + filters@[0]@ =~= filters@[0]@);
            }
        }
        i += 1;
    }
    assert(all.take(n as int) == all);
    out
}

/// What the file picker reports to the host: the first of the chosen
/// locations, or the empty text where nothing was chosen or the picker
/// failed (`None`).
pub fn picked_uri(uris: Option<&Vec<String>>) -> (r: String)
    ensures
        r@ == match uris {
            Some(list) => if list@.len() > 0 {
                list@[0]@
            } else {
                Seq::empty()
            },
            None => Seq::empty(),
        },
{
    match uris {
        Some(list) => {
            if list.len() > 0 {
                list[0].clone()
            } else {
                String::new()
            }
        },
        None => String::new(),
    }
}

} // verus!
