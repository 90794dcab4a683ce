//! The closed set of host platforms that the opener distinguishes.

use vstd::prelude::*;

verus! {

/// The host operating system, as far as the choice of launcher depends on it.
#[derive(Clone, Copy, Debug, PartialEq, Eq, Structural)]
pub enum Platform {
    /// The Apple desktop system.
    MacOs,
    /// Microsoft Windows.
    Windows,
    /// Every other system: a Unix-like desktop that follows freedesktop.
    Unix,
}

/// The platform that an operating system's name stands for: the two names
/// `macos` and `windows` select their own platform, every other name the
/// Unix-like one.
pub open spec fn platform_named(name: Seq<char>) -> Platform {
    if name == "macos"@ {
        Platform::MacOs
    } else if name == "windows"@ {
        Platform::Windows
    } else {
        Platform::Unix
    }
}

/// The program that opens a file with the user's default application on
/// the given platform.
pub open spec fn launcher_program(platform: Platform) -> Seq<char> {
    match platform {
        Platform::MacOs => "open"@,
        Platform::Windows => "cmd"@,
        Platform::Unix => "xdg-open"@,
    }
}

impl Platform {
    /// Selects the platform from the operating system's name, in the
    /// spelling of Rust's `target_os` values.
    pub fn from_os_name(name: &str) -> (platform: Platform)
        ensures
            platform == platform_named(name@),
    {
        let given = name.to_owned();
        if given == "macos".to_owned() {
            Platform::MacOs
        } else if given == "windows".to_owned() {
            Platform::Windows
        } else {
            Platform::Unix
        }
    }

    /// The name of the launcher program of this platform.
    pub fn launcher(&self) -> (program: &'static str)
        ensures
            program@ == launcher_program(*self),
    {
        match self {
            Platform::MacOs => "open",
            Platform::Windows => "cmd",
            Platform::Unix => "xdg-open",
        }
    }
}

} // verus!
