//! Rich presence with one optional button and a name of its own: the plan of
//! what is shown, and the steps of clearing it.

use vstd::prelude::*;
use vstd::string::*;
use crate::discord::{
    non_empty, spec_non_empty, status_display, ActivityPlan, ActivityPlanView, StatusDisplay,
};

verus! {

/// What the host wants shown.
#[derive(Clone, Debug, PartialEq, Eq)]
pub struct DiscordActivity {
    pub client_id: String,
    pub name: String,
    pub state: String,
    pub details: String,
    pub large_text: String,
    pub start_time: i64,
    pub end_time: Option<i64>,
    pub details_url: String,
    pub art_url: String,
    pub status_line: i32,
    pub is_playing: bool,
    pub button_text: String,
    pub button_url: String,
}

/// The activity that is shown.
///
/// The large image is the cover art, or the equalizer graphic where the URL
/// is empty. Large text, name and details URL are shown unless they are
/// empty. A track that does not play carries the pause badge. The button is
/// shown where neither its text nor its URL is empty.
pub open spec fn spec_update_plan(
    name: Seq<char>,
    state: Seq<char>,
    details: Seq<char>,
    large_text: Seq<char>,
    start_time: i64,
    end_time: Option<i64>,
    details_url: Seq<char>,
    art_url: Seq<char>,
    status_line: i32,
    is_playing: bool,
    button_text: Seq<char>,
    button_url: Seq<char>,
) -> ActivityPlanView {
    ActivityPlanView {
        name: spec_non_empty(name),
        state,
        details,
        status_display: if status_line == 2 {
            StatusDisplay::State
        } else if status_line == 1 {
            StatusDisplay::Details
        } else {
            StatusDisplay::Name
        },
        large_image: if art_url.len() == 0 {
            "graphic_eq"@
        } else {
            art_url
        },
        large_text: spec_non_empty(large_text),
        small_image: if is_playing {
            None
        } else {
            Some("pause_circle"@)
        },
        small_text: if is_playing {
            None
        } else {
            Some("Paused"@)
        },
        details_url: spec_non_empty(details_url),
        buttons: if button_text.len() > 0 && button_url.len() > 0 {
            seq![(button_text, button_url)]
        } else {
            Seq::empty()
        },
        start: start_time,
        end: end_time,
    }
}

/// The activity that is shown for what the host wants.
pub fn update(da: &DiscordActivity) -> (r: ActivityPlan)
    ensures
        r@ == spec_update_plan(
            da.name@,
            da.state@,
            da.details@,
            da.large_text@,
            da.start_time,
            da.end_time,
            da.details_url@,
            da.art_url@,
            da.status_line,
            da.is_playing,
            da.button_text@,
            da.button_url@,
        ),
{
    let large_image = if da.art_url.as_str().is_empty() {
        "graphic_eq".to_owned()
    } else {
        da.art_url.clone()
    };
    let (small_image, small_text) = if da.is_playing {
        (None, None)
    } else {
        (Some("pause_circle".to_owned()), Some("Paused".to_owned()))
    };
    let mut buttons: Vec<(String, String)> = Vec::new();
    if !da.button_text.as_str().is_empty() && !da.button_url.as_str().is_empty() {
        buttons.push((da.button_text.clone(), da.button_url.clone()));
    }
    let r = ActivityPlan {
        name: non_empty(da.name.as_str()),
        state: da.state.clone(),
        details: da.details.clone(),
        status_display: status_display(da.status_line),
        large_image,
        large_text: non_empty(da.large_text.as_str()),
        small_image,
        small_text,
        details_url: non_empty(da.details_url.as_str()),
        buttons,
        start: da.start_time,
        end: da.end_time,
    };
    assert(r@.buttons =~= spec_update_plan(
        da.name@,
        da.state@,
        da.details@,
        da.large_text@,
        da.start_time,
        da.end_time,
        da.details_url@,
        da.art_url@,
        da.status_line,
        da.is_playing,
        da.button_text@,
        da.button_url@,
    ).buttons);
    r
}

/// What clearing the presence consists of.
#[derive(Clone, Copy, Debug, PartialEq, Eq, Structural)]
pub struct ClearSteps {
    /// Ask the client to show nothing; a failure of this is passed over.
    pub clear_activity: bool,
    /// Close the connection; a failure of this is the failure of clearing.
    pub close: bool,
}

/// What clearing the presence consists of. Without a client nothing can be
/// cleared, which is an error. With one, the activity is cleared, and the
/// connection is closed where the application shuts down.
pub fn clear(client_exists: bool, shutdown: bool) -> (r: Option<ClearSteps>)
    ensures
        r == if client_exists {
            Some(ClearSteps { clear_activity: true, close: shutdown })
        } else {
            None
        },
{
    if client_exists {
        Some(ClearSteps { clear_activity: true, close: shutdown })
    } else {
        None
    }
}

} // verus!
