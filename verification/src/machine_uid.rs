//! The identity of the machine, read out of what the platform provides.
//!
//! The caller reads the files, runs the command or asks the registry; the
//! functions here find the id in what came back.

use vstd::prelude::*;
use vstd::string::*;
use crate::text::{
    after_last_char, chars_of, contains, find_char, first_char_index, has_occurrence,
    rfind_char_end, slice_of, trim, trim_bounds, trim_matches, trim_str, TrimSet,
};

verus! {

/// Why no machine id was found.
#[derive(Clone, Copy, Debug, PartialEq, Eq, Structural)]
pub enum MachineIdError {
    /// No source of the id could be read.
    Unreadable,
    /// The registry listing holds no line with the platform UUID.
    NoPlatformUuid,
}

impl MachineIdError {
    /// The text of the error.
    pub fn message(&self) -> (s: String)
        ensures
            s@ == match *self {
                MachineIdError::Unreadable => "No machine id could be read."@,
                MachineIdError::NoPlatformUuid =>
                "No matching IOPlatformUUID in `ioreg -rd1 -c IOPlatformExpertDevice` command."@,
            },
    {
        match self {
            MachineIdError::Unreadable => "No machine id could be read.".to_owned(),
            MachineIdError::NoPlatformUuid =>
                "No matching IOPlatformUUID in `ioreg -rd1 -c IOPlatformExpertDevice` command.".to_owned(),
        }
    }
}

/// The file that holds the machine id first of all.
pub fn dbus_path() -> (r: &'static str)
    ensures
        r@ == "/var/lib/dbus/machine-id"@,
{
    "/var/lib/dbus/machine-id"
}

/// The file that holds the machine id where the first is missing.
pub fn dbus_path_etc() -> (r: &'static str)
    ensures
        r@ == "/etc/machine-id"@,
{
    "/etc/machine-id"
}

/// The machine id, given the content of the two files that may hold it
/// (`None` for a file that could not be read): the content of the first file
/// that could be read, without the white space around it.
pub open spec fn spec_get_machine_id(primary: Option<Seq<char>>, fallback: Option<Seq<char>>) -> Option<
    Seq<char>,
> {
    match primary {
        Some(content) => Some(trim(content)),
        None => match fallback {
            Some(content) => Some(trim(content)),
            None => None,
        },
    }
}

/// The machine id, given the content of the file at `dbus_path()` and of
/// that at `dbus_path_etc()`, `None` standing for a file that could not be
/// read. The id is the content of the first file that could be read, without
/// the white space around it; where neither could be read, there is none.
pub fn get_machine_id(primary: Option<&str>, fallback: Option<&str>) -> (r: Result<
    String,
    MachineIdError,
>)
    ensures
        match r {
            Ok(id) => spec_get_machine_id(
                match primary {
                    Some(s) => Some(s@),
                    None => None,
                },
                match fallback {
                    Some(s) => Some(s@),
                    None => None,
                },
            ) == Some(id@),
            Err(e) => primary is None && fallback is None && e == MachineIdError::Unreadable,
        },
{
    match primary {
        Some(content) => Ok(trim_str(content, TrimSet::Whitespace)),
        None => match fallback {
            Some(content) => Ok(trim_str(content, TrimSet::Whitespace)),
            None => Err(MachineIdError::Unreadable),
        },
    }
}

/// The machine id out of the registry value that holds it: the value without
/// the white space around it.
pub fn machine_guid(value: &str) -> (r: String)
    ensures
        r@ == trim(value@),
{
    trim_str(value, TrimSet::Whitespace)
}

/// The platform UUID in a listing of the platform expert device.
///
/// The first line that holds `IOPlatformUUID` counts. The id is what follows
/// the last `=` of that line (the whole line where it has none), without the
/// white space and double quotes around it.
pub open spec fn spec_extract_id(content: Seq<char>) -> Option<Seq<char>>
    decreases content.len(),
{
    let n = first_char_index(content, '\n');
    let line = content.take(n);
    if contains(line, "IOPlatformUUID"@) {
        Some(trim_matches(after_last_char(line, '='), TrimSet::QuoteOrWhitespace))
    } else if n < 0 || n >= content.len() {
        None
    } else {
        spec_extract_id(content.skip(n + 1))
    }
}

/// The platform UUID in a listing of the platform expert device, as the
/// command `ioreg -rd1 -c IOPlatformExpertDevice` prints it.
pub fn extract_id(content: &str) -> (r: Result<String, MachineIdError>)
    ensures
        match r {
            Ok(id) => spec_extract_id(content@) == Some(id@),
            Err(e) => spec_extract_id(content@) is None && e == MachineIdError::NoPlatformUuid,
        },
{
    let all = chars_of(content);
    let key = chars_of("IOPlatformUUID");
    let n = all.len();
    let mut start: usize = 0;
    assert(all@.skip(0) == all@);
    loop
        invariant
            n == all.len(),
            all@ == content@,
            key@ == "IOPlatformUUID"@,
            start <= n,
            spec_extract_id(all@) == spec_extract_id(all@.skip(start as int)),
        decreases n - start,
    {
        let ghost rest = all@.skip(start as int);
        let end = find_char(&all, start, n, '\n');
        let line = slice_of(&all, start, end);
        proof {
            assert(all@.subrange(start as int, n as int) == rest);
            assert(first_char_index(rest, '\n') == end - start);
            assert(rest.take(end - start) == all@.subrange(start as int, end as int));
        }
        if has_occurrence(&line, &key) {
            let from = rfind_char_end(&line, 0, line.len(), '=');
            let (a, b) = trim_bounds(&line, from, line.len(), TrimSet::QuoteOrWhitespace);
            proof {
                assert(line@.subrange(0, line@.len() as int) == line@);
                assert(line@.subrange(a as int, b as int) == all@.subrange(start + a, start + b));
            }
            return Ok(content.substring_char(start + a, start + b).to_owned());
        }
        if end >= n {
            return Err(MachineIdError::NoPlatformUuid);
        }
        proof {
            assert(rest.skip(end - start + 1) == all@.skip(end + 1));
        }
        start = end + 1;
    }
}

} // verus!
