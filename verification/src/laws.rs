//! What holds of every request, proved from the definitions that the
//! contracts of the operation are stated with.

use vstd::prelude::*;
use crate::command::{launch_command, launcher_args, CommandLine};
use crate::error::{empty_path_message, failure_message, spawn_failure_message, OpenFailure};
use crate::opener::{open_plan, open_reply, spawn_reply};
use crate::platform::{launcher_program, Platform};

verus! {

/// `part` stands in `text` from position `start` on.
pub open spec fn occurs_at(text: Seq<char>, part: Seq<char>, start: int) -> bool {
    &&& 0 <= start
    &&& start + part.len() <= text.len()
    &&& text.subrange(start, start + part.len()) == part
}

/// `part` stands somewhere in `text`.
pub open spec fn contains_text(text: Seq<char>, part: Seq<char>) -> bool {
    exists|start: int| occurs_at(text, part, start)
}

/// An empty path is refused on every platform, with a text that reads
/// "path is empty", and whatever a launch would have answered: no command
/// is planned, so nothing is started.
pub proof fn lemma_empty_path_is_refused(platform: Platform, spawned: Result<(), Seq<char>>)
    ensures
        open_plan(platform, Seq::<char>::empty()) == Err::<CommandLine, OpenFailure>(
            OpenFailure::InvalidInput,
        ),
        open_reply(Seq::<char>::empty(), spawned) == Err::<(), Seq<char>>(
            failure_message(OpenFailure::InvalidInput),
        ),
        contains_text(failure_message(OpenFailure::InvalidInput), "path is empty"@),
{
    let text = failure_message(OpenFailure::InvalidInput);
    assert(text.subrange(0, text.len() as int) == text);
    assert(occurs_at(text, "path is empty"@, 0));
}

/// Every path that is not empty gives one command: the launcher of the
/// platform, with the path, unchanged, as its final argument.
pub proof fn lemma_path_is_final_argument(platform: Platform, path: Seq<char>)
    requires
        path.len() > 0,
    ensures
        open_plan(platform, path) == Ok::<CommandLine, OpenFailure>(
            launch_command(platform, path),
        ),
        launch_command(platform, path).program == launcher_program(platform),
        launch_command(platform, path).args.len() > 0,
        launch_command(platform, path).args.last() == path,
{
}

/// The three platforms have three different launchers.
pub proof fn lemma_launchers_differ(first: Platform, second: Platform)
    requires
        first != second,
    ensures
        launcher_program(first) != launcher_program(second),
{
    reveal_strlit("open");
    reveal_strlit("cmd");
    reveal_strlit("xdg-open");
    assert("open"@.len() == 4 && "cmd"@.len() == 3 && "xdg-open"@.len() == 8);
}

/// Where the launcher could not be started, the answer is a failure whose
/// text holds the operating system's words, and which cannot be taken for
/// the answer to an empty path.
pub proof fn lemma_spawn_failure_is_reported(path: Seq<char>, detail: Seq<char>)
    requires
        path.len() > 0,
    ensures
        open_reply(path, Err(detail)) == Err::<(), Seq<char>>(spawn_failure_message(detail)),
        contains_text(spawn_failure_message(detail), detail),
        spawn_failure_message(detail) != empty_path_message(),
{
    reveal_strlit("Failed to open file: ");
    reveal_strlit("path is empty");
    let text = spawn_failure_message(detail);
    assert(text.subrange(21, 21 + detail.len() as int) =~= detail);
    assert(occurs_at(text, detail, 21));
    assert(text[0] == 'F');
    assert(empty_path_message()[0] == 'p');
}

/// Two requests do not interfere. Each, for a path that is not empty,
/// succeeds or fails as its own launch did, whatever the other path is;
/// and different paths give different commands, each with its own path.
pub proof fn lemma_requests_are_independent(
    platform: Platform,
    first: Seq<char>,
    second: Seq<char>,
    spawned: Result<(), Seq<char>>,
)
    requires
        first.len() > 0,
        second.len() > 0,
    ensures
        open_reply(first, spawned) == spawn_reply(spawned),
        open_reply(first, spawned) == open_reply(second, spawned),
        open_reply(first, spawned) is Ok <==> spawned is Ok,
        first != second ==> launch_command(platform, first) != launch_command(platform, second),
{
    if first != second {
        assert(launcher_args(platform, first).last() == first);
        assert(launcher_args(platform, second).last() == second);
    }
}

} // verus!
