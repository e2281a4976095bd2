//! The line protocol between instances of the application: one command with
//! one argument on a line.

use vstd::prelude::*;
use vstd::string::*;
use crate::media_info::JniCallback;
use crate::text::{chars_of, find_char, first_char_index, str_is, trim, trim_bounds, TrimSet};

verus! {

/// The name of the pipe that instances talk over.
pub fn pipe_name() -> (r: &'static str)
    ensures
        r@ == "pano-scrobbler-ipc"@,
{
    "pano-scrobbler-ipc"
}

/// A command and its argument.
#[derive(Clone, Debug, PartialEq, Eq)]
pub struct IpcCommand {
    pub command: String,
    pub arg: String,
}

/// The command and the argument of a line: what stands before the first
/// space and what stands after it, each without the white space around it.
/// A line without a space holds no command.
pub open spec fn spec_parse_command(line: Seq<char>) -> Option<(Seq<char>, Seq<char>)> {
    let k = first_char_index(line, ' ');
    if 0 <= k < line.len() {
        Some((trim(line.take(k)), trim(line.skip(k + 1))))
    } else {
        None
    }
}

/// Reads a line that an instance received.
pub fn parse_command(line: &str) -> (r: Option<IpcCommand>)
    ensures
        match r {
            Some(c) => spec_parse_command(line@) == Some((c.command@, c.arg@)),
            None => spec_parse_command(line@) is None,
        },
{
    let v = chars_of(line);
    let n = v.len();
    let k = find_char(&v, 0, n, ' ');
    assert(v@.subrange(0, n as int) == v@);
    if k < n {
        let (a, b) = trim_bounds(&v, 0, k, TrimSet::Whitespace);
        let (c, d) = trim_bounds(&v, k + 1, n, TrimSet::Whitespace);
        Some(
            IpcCommand {
                command: line.substring_char(a, b).to_owned(),
                arg: line.substring_char(c, d).to_owned(),
            },
        )
    } else {
        None
    }
}

/// The line that carries a command: the command, a space, the argument, and
/// the end of the line.
pub fn frame_command(command: &str, arg: &str) -> (r: String)
    ensures
        r@ == command@ + " "@ + arg@ + "\n"@,
{
    let mut line = command.to_owned();
    line.append(" ");
    line.append(arg);
    line.append("\n");
    line
}

/// The event that hands a received command to the host.
pub fn ipc_callback(command: IpcCommand) -> (r: JniCallback)
    ensures
        r == JniCallback::IpcCallback(command.command, command.arg),
{
    JniCallback::IpcCallback(command.command, command.arg)
}

/// Whether a failure to send the command is worth a message: not for
/// `focus-existing`, which fails whenever no other instance runs.
pub fn reports_send_failure(command: &str) -> (b: bool)
    ensures
        b == (command@ != "focus-existing"@),
{
    !str_is(command, "focus-existing")
}

} // verus!
