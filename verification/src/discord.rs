//! Rich presence: what is shown for a track, and what is done when showing
//! it fails.
//!
//! The functions here plan; the caller builds the activity of the presence
//! client from the plan and sends it.

use vstd::prelude::*;
use vstd::string::*;

verus! {

/// What the host asks of the presence client.
#[derive(Clone, Debug, PartialEq, Eq)]
pub enum DiscordActivity {
    Playing {
        client_id: String,
        state: String,
        details: String,
        large_text: String,
        start_time: i64,
        end_time: Option<i64>,
        art_url: Option<String>,
        status_line: i32,
        is_playing: bool,
        buttons_texts_and_urls: Vec<(String, String)>,
    },
    Clear,
    Stop,
}

/// Which line of the activity the status shows.
#[derive(Clone, Copy, Debug, PartialEq, Eq, Structural)]
pub enum StatusDisplay {
    Name,
    State,
    Details,
}

/// The line that the status shows for the host's choice `status_line`: 2 is
/// the state, 1 the details, anything else the name.
pub fn status_display(status_line: i32) -> (r: StatusDisplay)
    ensures
        r == if status_line == 2 {
            StatusDisplay::State
        } else if status_line == 1 {
            StatusDisplay::Details
        } else {
            StatusDisplay::Name
        },
{
    if status_line == 2 {
        StatusDisplay::State
    } else if status_line == 1 {
        StatusDisplay::Details
    } else {
        StatusDisplay::Name
    }
}

/// The activity to show.
#[derive(Clone, Debug, PartialEq, Eq)]
pub struct ActivityPlan {
    pub name: Option<String>,
    pub state: String,
    pub details: String,
    pub status_display: StatusDisplay,
    pub large_image: String,
    pub large_text: Option<String>,
    pub small_image: Option<String>,
    pub small_text: Option<String>,
    pub details_url: Option<String>,
    /// Text and URL of each button.
    pub buttons: Vec<(String, String)>,
    pub start: i64,
    pub end: Option<i64>,
}

/// The characters of a text that may be absent.
pub open spec fn opt_view(text: Option<String>) -> Option<Seq<char>> {
    match text {
        Some(s) => Some(s@),
        None => None,
    }
}

/// The characters of each pair of texts of a list.
pub open spec fn pairs_view(pairs: Seq<(String, String)>) -> Seq<(Seq<char>, Seq<char>)> {
    pairs.map_values(|p: (String, String)| (p.0@, p.1@))
}

/// The mathematical content of an `ActivityPlan`.
pub struct ActivityPlanView {
    pub name: Option<Seq<char>>,
    pub state: Seq<char>,
    pub details: Seq<char>,
    pub status_display: StatusDisplay,
    pub large_image: Seq<char>,
    pub large_text: Option<Seq<char>>,
    pub small_image: Option<Seq<char>>,
    pub small_text: Option<Seq<char>>,
    pub details_url: Option<Seq<char>>,
    pub buttons: Seq<(Seq<char>, Seq<char>)>,
    pub start: i64,
    pub end: Option<i64>,
}

impl View for ActivityPlan {
    type V = ActivityPlanView;

    open spec fn view(&self) -> ActivityPlanView {
        ActivityPlanView {
            name: opt_view(self.name),
            state: self.state@,
            details: self.details@,
            status_display: self.status_display,
            large_image: self.large_image@,
            large_text: opt_view(self.large_text),
            small_image: opt_view(self.small_image),
            small_text: opt_view(self.small_text),
            details_url: opt_view(self.details_url),
            buttons: pairs_view(self.buttons@),
            start: self.start,
            end: self.end,
        }
    }
}

/// A text, or nothing where it is empty.
pub open spec fn spec_non_empty(text: Seq<char>) -> Option<Seq<char>> {
    if text.len() == 0 {
        None
    } else {
        Some(text)
    }
}

/// A text, or nothing where it is empty.
pub fn non_empty(text: &str) -> (r: Option<String>)
    ensures
        opt_view(r) == spec_non_empty(text@),
{
    if text.is_empty() {
        None
    } else {
        Some(text.to_owned())
    }
}

/// The end of the track, where the host gave one: a time above zero.
pub fn end_time_of(end_time: i64) -> (r: Option<i64>)
    ensures
        r == if end_time > 0 {
            Some(end_time)
        } else {
            None
        },
{
    if end_time > 0 {
        Some(end_time)
    } else {
        None
    }
}

/// The buttons out of the first `n` texts and URLs: a button for each place
/// where neither the text nor the URL is empty.
pub open spec fn spec_pair_buttons(texts: Seq<Seq<char>>, urls: Seq<Seq<char>>, n: int) -> Seq<
    (Seq<char>, Seq<char>),
>
    decreases n,
{
    if n <= 0 {
        Seq::empty()
    } else {
        let head = spec_pair_buttons(texts, urls, n - 1);
        if texts[n - 1].len() > 0 && urls[n - 1].len() > 0 {
            head.push((texts[n - 1], urls[n - 1]))
        } else {
            head
        }
    }
}

/// The smaller of two lengths.
pub open spec fn spec_min(a: int, b: int) -> int {
    if a <= b {
        a
    } else {
        b
    }
}

/// The buttons out of a list of texts and a list of URLs: as far as both
/// lists go, a button for each place where neither is empty.
pub fn pair_buttons(texts: &Vec<String>, urls: &Vec<String>) -> (r: Vec<(String, String)>)
    ensures
        pairs_view(r@) == spec_pair_buttons(
            texts.deep_view(),
            urls.deep_view(),
            spec_min(texts.len() as int, urls.len() as int),
        ),
{
    let n = if texts.len() <= urls.len() {
        texts.len()
    } else {
        urls.len()
    };
    let mut out: Vec<(String, String)> = Vec::new();
    let mut i: usize = 0;
    assert(pairs_view(out@) =~= spec_pair_buttons(texts.deep_view(), urls.deep_view(), 0));
    while i < n
        invariant
            n == spec_min(texts.len() as int, urls.len() as int),
            i <= n,
            pairs_view(out@) == spec_pair_buttons(texts.deep_view(), urls.deep_view(), i as int),
        decreases n - i,
    {
        let ghost before = pairs_view(out@);
        if !texts[i].as_str().is_empty() && !urls[i].as_str().is_empty() {
            out.push((texts[i].clone(), urls[i].clone()));
            assert(pairs_view(out@) =~= before.push((texts[i as int]@, urls[i as int]@)));
        }
        i += 1;
    }
    out
}

/// The activity that is shown for a track.
///
/// The large image is the cover art, or the equalizer graphic where there is
/// none; the large text is shown unless it is empty. A track that does not
/// play carries the pause badge. Of the buttons the first two are shown, and
/// the details link to the URL of the first.
pub open spec fn spec_playing_plan(
    state: Seq<char>,
    details: Seq<char>,
    large_text: Seq<char>,
    start_time: i64,
    end_time: Option<i64>,
    art_url: Option<Seq<char>>,
    status_line: i32,
    is_playing: bool,
    buttons: Seq<(Seq<char>, Seq<char>)>,
) -> ActivityPlanView {
    ActivityPlanView {
        name: None,
        state,
        details,
        status_display: if status_line == 2 {
            StatusDisplay::State
        } else if status_line == 1 {
            StatusDisplay::Details
        } else {
            StatusDisplay::Name
        },
        large_image: match art_url {
            Some(url) => url,
            None => "graphic_eq"@,
        },
        large_text: spec_non_empty(large_text),
        small_image: if is_playing {
            None
        } else {
            Some("pause_circle"@)
        },
        small_text: if is_playing {
            None
        } else {
            Some("Paused"@)
        },
        details_url: if buttons.len() > 0 {
            Some(buttons[0].1)
        } else {
            None
        },
        buttons: buttons.take(spec_min(2, buttons.len() as int)),
        start: start_time,
        end: end_time,
    }
}

/// The activity that is shown for a track.
pub fn playing_plan(
    state: &str,
    details: &str,
    large_text: &str,
    start_time: i64,
    end_time: Option<i64>,
    art_url: Option<&str>,
    status_line: i32,
    is_playing: bool,
    buttons_texts_and_urls: &Vec<(String, String)>,
) -> (r: ActivityPlan)
    ensures
        r@ == spec_playing_plan(
            state@,
            details@,
            large_text@,
            start_time,
            end_time,
            match art_url {
                Some(s) => Some(s@),
                None => None,
            },
            status_line,
            is_playing,
            pairs_view(buttons_texts_and_urls@),
        ),
{
    let all = buttons_texts_and_urls;
    let mut buttons: Vec<(String, String)> = Vec::new();
    let mut details_url: Option<String> = None;
    if all.len() > 0 {
        details_url = Some(all[0].1.clone());
        buttons.push((all[0].0.clone(), all[0].1.clone()));
        if all.len() > 1 {
            buttons.push((all[1].0.clone(), all[1].1.clone()));
        }
    }
    assert(pairs_view(buttons@) =~= pairs_view(all@).take(spec_min(2, all@.len() as int)));
    let large_image = match art_url {
        Some(url) => url.to_owned(),
        None => "graphic_eq".to_owned(),
    };
    let (small_image, small_text) = if is_playing {
        (None, None)
    } else {
        (Some("pause_circle".to_owned()), Some("Paused".to_owned()))
    };
    ActivityPlan {
        name: None,
        state: state.to_owned(),
        details: details.to_owned(),
        status_display: status_display(status_line),
        large_image,
        large_text: non_empty(large_text),
        small_image,
        small_text,
        details_url,
        buttons,
        start: start_time,
        end: end_time,
    }
}

/// Why an activity could not be sent.
#[derive(Clone, Copy, Debug, PartialEq, Eq, Structural)]
pub enum SendFailure {
    NotConnected,
    IpcConnectionFailed,
    WriteError,
    Other,
}

/// What is done about an activity that could not be sent.
#[derive(Clone, Copy, Debug, PartialEq, Eq, Structural)]
pub enum Recovery {
    /// Connect, then send again.
    ConnectAndRetry,
    /// Connect anew, then send again.
    ReconnectAndRetry,
    /// Say so and go on.
    LogOnly,
}

/// What is done about an activity that could not be sent: a client that was
/// never connected connects; one whose connection broke connects anew; any
/// other failure is only reported.
pub fn recovery(failure: SendFailure) -> (r: Recovery)
    ensures
        r == match failure {
            SendFailure::NotConnected => Recovery::ConnectAndRetry,
            SendFailure::IpcConnectionFailed | SendFailure::WriteError =>
            Recovery::ReconnectAndRetry,
            SendFailure::Other => Recovery::LogOnly,
        },
{
    match failure {
        SendFailure::NotConnected => Recovery::ConnectAndRetry,
        SendFailure::IpcConnectionFailed | SendFailure::WriteError => Recovery::ReconnectAndRetry,
        SendFailure::Other => Recovery::LogOnly,
    }
}

/// What the presence client is asked to do.
#[derive(Clone, Debug, PartialEq, Eq)]
pub enum PresenceRequest {
    /// Show the activity, as the client with this id.
    Show { client_id: String, plan: ActivityPlan },
    /// Show nothing.
    Clear,
    /// Close the connection.
    Close,
    /// Nothing can be done: there is no client yet.
    NotConnected,
}

/// What the presence client is asked to do for a request of the host.
/// Clearing and stopping need a client that exists; showing creates it.
pub fn discord_rpc(activity: &DiscordActivity, client_exists: bool) -> (r: PresenceRequest)
    ensures
        match *activity {
            DiscordActivity::Playing {
                client_id,
                state,
                details,
                large_text,
                start_time,
                end_time,
                art_url,
                status_line,
                is_playing,
                buttons_texts_and_urls,
            } => r matches PresenceRequest::Show { client_id: id, plan } && id@ == client_id@
                && plan@ == spec_playing_plan(
                state@,
                details@,
                large_text@,
                start_time,
                end_time,
                opt_view(art_url),
                status_line,
                is_playing,
                pairs_view(buttons_texts_and_urls@),
            ),
            DiscordActivity::Clear => r == if client_exists {
                PresenceRequest::Clear
            } else {
                PresenceRequest::NotConnected
            },
            DiscordActivity::Stop => r == if client_exists {
                PresenceRequest::Close
            } else {
                PresenceRequest::NotConnected
            },
        },
{
    match activity {
        DiscordActivity::Playing {
            client_id,
            state,
            details,
            large_text,
            start_time,
            end_time,
            art_url,
            status_line,
            is_playing,
            buttons_texts_and_urls,
        } => {
            let art: Option<&str> = match art_url {
                Some(url) => Some(url.as_str()),
                None => None,
            };
            PresenceRequest::Show {
                client_id: client_id.clone(),
                plan: playing_plan(
                    state.as_str(),
                    details.as_str(),
                    large_text.as_str(),
                    *start_time,
                    *end_time,
                    art,
                    *status_line,
                    *is_playing,
                    buttons_texts_and_urls,
                ),
            }
        },
        DiscordActivity::Clear => {
            if client_exists {
                PresenceRequest::Clear
            } else {
                PresenceRequest::NotConnected
            }
        },
        DiscordActivity::Stop => {
            if client_exists {
                PresenceRequest::Close
            } else {
                PresenceRequest::NotConnected
            }
        },
    }
}

} // verus!
