//! The operation itself: check the path, choose the launcher, report how
//! the launch went.
//!
//! Starting a process is the caller's part. The library decides what is to
//! be started and turns what the operating system said into the answer.

use vstd::prelude::*;
use crate::command::{launch_command, CommandLine, LaunchCommand};
use crate::error::{empty_path_message, spawn_failure_message, OpenError, OpenFailure};
use crate::platform::Platform;

verus! {

/// What is to be done for a request to open `path`: nothing but to report
/// the failure where the path is empty, else to start the platform's
/// launcher on it.
pub open spec fn open_plan(platform: Platform, path: Seq<char>) -> Result<
    CommandLine,
    OpenFailure,
> {
    if path.len() == 0 {
        Err(OpenFailure::InvalidInput)
    } else {
        Ok(launch_command(platform, path))
    }
}

/// The answer to a request whose launcher was started with the outcome
/// `spawned`: success as it is, a failure as the text that embeds the
/// operating system's words.
pub open spec fn spawn_reply(spawned: Result<(), Seq<char>>) -> Result<(), Seq<char>> {
    match spawned {
        Ok(_) => Ok(()),
        Err(detail) => Err(spawn_failure_message(detail)),
    }
}

/// The answer to a request to open `path`, where `spawned` is the outcome
/// of starting the launcher. For an empty path no launcher is started and
/// the outcome is not looked at.
pub open spec fn open_reply(path: Seq<char>, spawned: Result<(), Seq<char>>) -> Result<
    (),
    Seq<char>,
> {
    if path.len() == 0 {
        Err(empty_path_message())
    } else {
        spawn_reply(spawned)
    }
}

/// An answer, or the outcome of a launch, with its text as a sequence of
/// characters.
pub open spec fn reply_view(reply: Result<(), String>) -> Result<(), Seq<char>> {
    match reply {
        Ok(_) => Ok(()),
        Err(text) => Err(text@),
    }
}

/// Decides what a request to open `path` asks of the operating system.
///
/// An empty path is refused before anything is started. Every other path
/// gives the one command to start; the path is not examined further.
pub fn plan_open(platform: Platform, path: &str) -> (plan: Result<LaunchCommand, OpenError>)
    ensures
        match plan {
            Ok(command) => open_plan(platform, path@) == Ok::<CommandLine, OpenFailure>(command@),
            Err(error) => open_plan(platform, path@) == Err::<CommandLine, OpenFailure>(error@),
        },
{
    if path.is_empty() {
        Err(OpenError::InvalidInput)
    } else {
        Ok(LaunchCommand::for_path(platform, path))
    }
}

/// Turns the outcome of starting the launcher into the answer for the
/// caller. Only the start is looked at: what the launched program does
/// later is not known here.
pub fn conclude_open(spawned: Result<(), String>) -> (reply: Result<(), String>)
    ensures
        reply_view(reply) == spawn_reply(reply_view(spawned)),
{
    match spawned {
        Ok(_) => Ok(()),
        Err(detail) => Err((OpenError::SpawnFailure { detail }).message()),
    }
}

/// Opens `path` with the default application of the given platform.
///
/// `spawn` starts a process without waiting for it and reports whether the
/// start succeeded, with the operating system's words where it did not. It
/// has to accept the one command that is planned for `path`, and nothing
/// else is asked of it: for an empty path it is never called, and its type
/// lets it be called once at most. The answer for any other path is the
/// one that follows from what `spawn` returned for that command.
pub fn open_receipt_file<F>(platform: Platform, path: String, spawn: F) -> (reply: Result<
    (),
    String,
>) where F: FnOnce(LaunchCommand) -> Result<(), String>
    requires
        forall|command: LaunchCommand|
            open_plan(platform, path@) == Ok::<CommandLine, OpenFailure>(command@)
                ==> spawn.requires((command,)),
    ensures
        path@.len() == 0 ==> reply_view(reply) == Err::<(), Seq<char>>(empty_path_message()),
        path@.len() > 0 ==> exists|command: LaunchCommand, spawned: Result<(), String>|
            command@ == launch_command(platform, path@)
                && spawn.ensures((command,), spawned)
                && reply_view(reply) == open_reply(path@, reply_view(spawned)),
{
    match plan_open(platform, path.as_str()) {
        Err(error) => Err(error.message()),
        Ok(command) => {
            let spawned = spawn(command);
            conclude_open(spawned)
        },
    }
}

} // verus!
