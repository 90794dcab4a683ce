//! The command line that asks the operating system to open a file.

use vstd::prelude::*;
use crate::platform::{launcher_program, Platform};

verus! {

/// A program and the arguments it is started with.
#[derive(Clone, Debug)]
pub struct LaunchCommand {
    /// The program's name, looked up by the operating system.
    pub program: String,
    /// The arguments, in the order in which the program receives them.
    pub args: Vec<String>,
}

/// The mathematical content of a [`LaunchCommand`].
pub struct CommandLine {
    pub program: Seq<char>,
    pub args: Seq<Seq<char>>,
}

impl View for LaunchCommand {
    type V = CommandLine;

    open spec fn view(&self) -> CommandLine {
        CommandLine { program: self.program@, args: self.args.deep_view() }
    }
}

/// The arguments that the platform's launcher takes to open `path`.
///
/// The Windows command interpreter is told to run its `start` command and
/// leave; the empty argument is the title that `start` expects before the
/// file. The two other launchers take the path alone.
pub open spec fn launcher_args(platform: Platform, path: Seq<char>) -> Seq<Seq<char>> {
    match platform {
        Platform::Windows => seq!["/C"@, "start"@, ""@, path],
        Platform::MacOs | Platform::Unix => seq![path],
    }
}

/// The command line that opens `path` on the given platform.
pub open spec fn launch_command(platform: Platform, path: Seq<char>) -> CommandLine {
    CommandLine { program: launcher_program(platform), args: launcher_args(platform, path) }
}

impl LaunchCommand {
    /// Builds the command line that opens `path` on the given platform.
    /// The path is taken as it is: whether it names a file is left to the
    /// launcher.
    pub fn for_path(platform: Platform, path: &str) -> (command: LaunchCommand)
        ensures
            command@ == launch_command(platform, path@),
    {
        let mut args: Vec<String> = Vec::new();
        match platform {
            Platform::Windows => {
                args.push("/C".to_owned());
                args.push("start".to_owned());
                args.push("".to_owned());
            },
            Platform::MacOs | Platform::Unix => {},
        }
        args.push(path.to_owned());
        let command = LaunchCommand { program: platform.launcher().to_owned(), args };
        proof {
            assert(command.args.deep_view() =~= launcher_args(platform, path@));
        }
        command
    }
}

} // verus!
