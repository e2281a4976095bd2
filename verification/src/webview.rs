//! The login web view: which navigations it follows, what it reports, and
//! what its loop does with the events it receives.

use vstd::prelude::*;
use vstd::string::*;
use crate::text::{chars_of, has_prefix, starts_with};

verus! {

/// The cookies of a URL, as the host receives them.
#[derive(Clone, Debug, PartialEq, Eq)]
pub struct WebViewEvent {
    pub url: String,
    pub cookies: Vec<String>,
}

/// What the web view's loop receives.
#[derive(Clone, Debug, PartialEq, Eq)]
pub enum WebViewIncomingEvent {
    /// URL, callback prefix, data directory.
    LaunchWebView(String, String, String),
    WebViewCookiesFor(String),
    WebViewUrlLoaded(String),
    QuitWebView,
}

/// What the web view's loop reports to the host.
#[derive(Clone, Debug, PartialEq, Eq)]
pub enum WebViewOutgoingEvent {
    /// URL and its cookies.
    WebViewCookies(String, Vec<String>),
    WebViewUrlLoaded(String),
}

/// What the web view does with a navigation.
#[derive(Clone, Copy, Debug, PartialEq, Eq, Structural)]
pub enum Navigation {
    /// Load the page.
    Follow,
    /// Do not load the page; report its URL to the host.
    Intercept,
}

/// What the web view does with a navigation to `url`: one that begins with
/// the callback prefix is intercepted, any other is followed.
pub fn navigation(url: &str, callback_prefix: &str) -> (r: Navigation)
    ensures
        r == if starts_with(url@, callback_prefix@) {
            Navigation::Intercept
        } else {
            Navigation::Follow
        },
{
    let u = chars_of(url);
    let p = chars_of(callback_prefix);
    if has_prefix(&u, &p) {
        Navigation::Intercept
    } else {
        Navigation::Follow
    }
}

/// A cookie as the host reads it: name, `=`, value.
pub fn cookie_pair(name: &str, value: &str) -> (r: String)
    ensures
        r@ == name@ + "="@ + value@,
{
    let mut pair = name.to_owned();
    pair.append("=");
    pair.append(value);
    pair
}

/// What the web view's loop does next.
#[derive(Clone, Copy, Debug, PartialEq, Eq, Structural)]
pub enum WebViewStep {
    /// Open a window with a web view.
    Open,
    /// Report the loaded URL to the host.
    ReportUrl,
    /// Read the cookies and report them to the host.
    ReportCookies,
    /// Close the window, if there is one.
    Close,
    /// Nothing.
    Ignore,
}

/// What the web view's loop does with an event: cookies are read only while
/// a window is open.
pub open spec fn spec_webview_step(event: WebViewIncomingEvent, window_open: bool) -> WebViewStep {
    match event {
        WebViewIncomingEvent::LaunchWebView(_, _, _) => WebViewStep::Open,
        WebViewIncomingEvent::WebViewUrlLoaded(_) => WebViewStep::ReportUrl,
        WebViewIncomingEvent::WebViewCookiesFor(_) => if window_open {
            WebViewStep::ReportCookies
        } else {
            WebViewStep::Ignore
        },
        WebViewIncomingEvent::QuitWebView => WebViewStep::Close,
    }
}

/// What the web view's loop does with an event.
pub fn webview_step(event: &WebViewIncomingEvent, window_open: bool) -> (r: WebViewStep)
    ensures
        r == spec_webview_step(*event, window_open),
{
    match event {
        WebViewIncomingEvent::LaunchWebView(_, _, _) => WebViewStep::Open,
        WebViewIncomingEvent::WebViewUrlLoaded(_) => WebViewStep::ReportUrl,
        WebViewIncomingEvent::WebViewCookiesFor(_) => {
            if window_open {
                WebViewStep::ReportCookies
            } else {
                WebViewStep::Ignore
            }
        },
        WebViewIncomingEvent::QuitWebView => WebViewStep::Close,
    }
}

} // verus!
