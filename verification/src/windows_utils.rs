//! What is written to and read from the Windows registry, and what a failed
//! attempt to open a file means.

use vstd::prelude::*;
use vstd::string::*;
use crate::text::str_is;

verus! {

/// The registry key under which programs that start with the session are
/// entered.
pub fn reg_path() -> (r: &'static str)
    ensures
        r@ == "Software\\Microsoft\\Windows\\CurrentVersion\\Run"@,
{
    "Software\\Microsoft\\Windows\\CurrentVersion\\Run"
}

/// The name of the application's value under that key.
pub fn reg_name() -> (r: &'static str)
    ensures
        r@ == "Pano Scrobbler"@,
{
    "Pano Scrobbler"
}

/// The application user model id under which notifications are shown.
pub fn aumid() -> (r: &'static str)
    ensures
        r@ == "com.arn.scrobble"@,
{
    "com.arn.scrobble"
}

/// The command that starts the application minimized: the path of the
/// executable between double quotes, followed by ` -m`.
pub open spec fn spec_startup_command(exe_path: Seq<char>) -> Seq<char> {
    "\""@ + exe_path + "\" -m"@
}

/// The command that starts the application minimized.
pub fn startup_command(exe_path: &str) -> (r: String)
    ensures
        r@ == spec_startup_command(exe_path@),
{
    let mut s = "\"".to_owned();
    s.append(exe_path);
    s.append("\" -m");
    s
}

/// A change of the startup entry.
#[derive(Clone, Debug, PartialEq, Eq)]
pub enum StartupChange {
    /// Set the application's value to this command.
    Write(String),
    /// Remove the application's value.
    Remove,
}

/// The change of the startup entry that adds the application to the
/// programs that start with the session, or removes it.
pub fn add_remove_startup(exe_path: &str, add: bool) -> (r: StartupChange)
    ensures
        match r {
            StartupChange::Write(command) => add && command@ == spec_startup_command(exe_path@),
            StartupChange::Remove => !add,
        },
{
    if add {
        StartupChange::Write(startup_command(exe_path))
    } else {
        StartupChange::Remove
    }
}

/// Whether the application starts with the session, given the application's
/// value under the startup key (`None` where it could not be read): it does
/// exactly where the value is the startup command of this executable.
pub fn is_added_to_startup(value: Option<&str>, exe_path: &str) -> (b: bool)
    ensures
        b == match value {
            Some(v) => v@ == spec_startup_command(exe_path@),
            None => false,
        },
{
    match value {
        Some(v) => {
            let expected = startup_command(exe_path);
            str_is(v, expected.as_str())
        },
        None => false,
    }
}

/// The registry key of the application user model id.
pub open spec fn spec_aumid_key_path() -> Seq<char> {
    "Software\\Classes\\AppUserModelId\\"@ + "com.arn.scrobble"@
}

/// The registry key of the application user model id.
pub fn aumid_key_path() -> (r: String)
    ensures
        r@ == spec_aumid_key_path(),
{
    let mut s = "Software\\Classes\\AppUserModelId\\".to_owned();
    s.append(aumid());
    s
}

/// A value to write under the key of the application user model id.
#[derive(Clone, Debug, PartialEq, Eq)]
pub struct AumidValue {
    pub name: String,
    pub value: String,
    /// Whether the value is written as an expandable string.
    pub expand: bool,
}

/// The values to write so that notifications carry the application's name
/// and icon: none where the key exists already; else the display name, the
/// icon and the icon's background colour.
pub fn register_aumid_if_needed(key_exists: bool, icon_path: &str) -> (r: Vec<AumidValue>)
    ensures
        key_exists ==> r@.len() == 0,
        !key_exists ==> {
            &&& r@.len() == 3
            &&& r@[0].name@ == "DisplayName"@ && r@[0].value@ == "Pano Scrobbler"@ && r@[0].expand
            &&& r@[1].name@ == "IconUri"@ && r@[1].value@ == icon_path@ && r@[1].expand
            &&& r@[2].name@ == "IconBackgroundColor"@ && r@[2].value@ == "0"@ && !r@[2].expand
        },
{
    let mut out: Vec<AumidValue> = Vec::new();
    if !key_exists {
        out.push(
            AumidValue {
                name: "DisplayName".to_owned(),
                value: reg_name().to_owned(),
                expand: true,
            },
        );
        out.push(
            AumidValue { name: "IconUri".to_owned(), value: icon_path.to_owned(), expand: true },
        );
        out.push(
            AumidValue {
                name: "IconBackgroundColor".to_owned(),
                value: "0".to_owned(),
                expand: false,
            },
        );
    }
    out
}

/// The code with which the platform refuses to open a file that another
/// process holds open.
pub const ERROR_SHARING_VIOLATION: i32 = 32;

/// Whether a file is locked by another process, given how the attempt to
/// open it for reading without sharing ended: `None` where it opened, else
/// the platform's error code, if it gave one. The file is locked exactly
/// where the attempt failed with a sharing violation.
pub fn is_file_locked(open_error: Option<Option<i32>>) -> (b: bool)
    ensures
        b == (open_error == Some(Some(ERROR_SHARING_VIOLATION))),
{
    match open_error {
        Some(Some(code)) => code == ERROR_SHARING_VIOLATION,
        _ => false,
    }
}

} // verus!
