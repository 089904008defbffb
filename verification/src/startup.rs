//! What the program does when it starts, decided from the configuration and
//! the command line.

use crate::config::Config;
use crate::metadata::ScreenLoc;
use vstd::prelude::*;

verus! {

/// What to do at start-up.
#[derive(Debug, PartialEq, Eq)]
pub enum Startup {
    /// Print the help text and leave.
    Help,
    /// Write the example configuration file and leave.
    ConfigExample,
    /// Show the widget with this placement.
    Run(Config),
}

/// Whether one of the arguments is the flag.
pub open spec fn has_flag(args: Seq<String>, flag: Seq<char>) -> bool {
    exists|i: int| 0 <= i < args.len() && (#[trigger] args[i])@ == flag
}

/// The corner the widget goes to: the one a flag names, the flags taking
/// precedence in the order written here, and the configured one where no
/// flag names a corner.
pub open spec fn chosen_corner(args: Seq<String>, configured: ScreenLoc) -> ScreenLoc {
    if has_flag(args, "--bottom-right"@) {
        ScreenLoc::BottomRight
    } else if has_flag(args, "--bottom-left"@) {
        ScreenLoc::BottomLeft
    } else if has_flag(args, "--top-right"@) {
        ScreenLoc::TopRight
    } else if has_flag(args, "--top-left"@) {
        ScreenLoc::TopLeft
    } else {
        configured
    }
}

/// Whether the arguments ask for the help text.
pub open spec fn wants_help(args: Seq<String>) -> bool {
    has_flag(args, "-h"@) || has_flag(args, "--help"@)
}

/// Whether the arguments ask for the example configuration file.
pub open spec fn wants_example(args: Seq<String>) -> bool {
    has_flag(args, "--config-example"@) || has_flag(args, "-c"@)
}

/// The placement in force: the configured one, or the bottom right corner
/// without offset where there is no configuration.
pub open spec fn configured(config: Option<Config>) -> Config {
    match config {
        Some(c) => c,
        None => Config { location: ScreenLoc::BottomRight, offset: (0i32, 0i32) },
    }
}

/// What to do at start-up. Help goes before the example file, and both go
/// before showing the widget. A flag can change the corner and nothing else.
pub open spec fn startup_plan(config: Option<Config>, args: Seq<String>) -> Startup {
    if wants_help(args) {
        Startup::Help
    } else if wants_example(args) {
        Startup::ConfigExample
    } else {
        Startup::Run(
            Config {
                location: chosen_corner(args, configured(config).location),
                offset: configured(config).offset,
            },
        )
    }
}

/// Whether one of the arguments is the flag.
pub fn contains_flag(args: &Vec<String>, flag: &str) -> (found: bool)
    ensures
        found == has_flag(args@, flag@),
{
    let wanted: String = flag.to_owned();
    let mut i: usize = 0;
    while i < args.len()
        invariant
            i <= args.len(),
            wanted@ == flag@,
            forall|j: int| 0 <= j < i ==> (#[trigger] args@[j])@ != flag@,
        decreases args.len() - i,
    {
        if args[i] == wanted {
            return true;
        }
        i = i + 1;
    }
    false
}

/// Decides what to do at start-up from the configuration that was found, if
/// any, and the arguments of the command line.
pub fn plan_startup(config: Option<Config>, args: &Vec<String>) -> (plan: Startup)
    ensures
        plan == startup_plan(config, args@),
{
    let base: Config = match config {
        Some(c) => c,
        None => Config::default(),
    };
    let mut location: ScreenLoc = base.location;
    if contains_flag(args, "--bottom-right") {
        location = ScreenLoc::BottomRight;
    } else if contains_flag(args, "--bottom-left") {
        location = ScreenLoc::BottomLeft;
    } else if contains_flag(args, "--top-right") {
        location = ScreenLoc::TopRight;
    } else if contains_flag(args, "--top-left") {
        location = ScreenLoc::TopLeft;
    }
    if contains_flag(args, "-h") || contains_flag(args, "--help") {
        return Startup::Help;
    }
    if contains_flag(args, "--config-example") || contains_flag(args, "-c") {
        return Startup::ConfigExample;
    }
    Startup::Run(Config { location, offset: base.offset })
}

} // verus!
