//! The user's configuration: a corner and an offset from it.

use crate::metadata::ScreenLoc;
use vstd::prelude::*;

verus! {

/// The configuration record as the file spells it: two flags that choose the
/// corner, and the padding in whole pixels.
#[derive(Clone, Copy, Debug, PartialEq, Eq)]
pub struct Conf {
    pub top: bool,
    pub left: bool,
    pub right_pad: i32,
    pub top_pad: i32,
}

/// Where the widget goes: a corner and the offset from it, horizontal first.
#[derive(Debug, PartialEq, Eq)]
pub struct Config {
    pub location: ScreenLoc,
    pub offset: (i32, i32),
}

impl Conf {
    /// The placement that the record asks for.
    pub fn convert_to_config(&self) -> (config: Config)
        ensures
            config.location == ScreenLoc::corner(self.top, self.left),
            config.offset == (self.right_pad, self.top_pad),
    {
        let mut location = ScreenLoc::BottomRight;
        if self.top && self.left {
            location = ScreenLoc::TopLeft;
        } else if self.top && !self.left {
            location = ScreenLoc::TopRight;
        } else if !self.top && self.left {
            location = ScreenLoc::BottomLeft;
        }
        Config { location, offset: (self.right_pad, self.top_pad) }
    }
}

impl Default for Config {
    /// Without a configuration the widget sits in the bottom right corner.
    fn default() -> (config: Config)
        ensures
            config.location == ScreenLoc::BottomRight,
            config.offset == (0i32, 0i32),
    {
        Config { location: ScreenLoc::BottomRight, offset: (0, 0) }
    }
}

/// The path of the configuration file in a configuration directory.
pub open spec fn config_path_in(dir: Seq<char>) -> Seq<char> {
    dir + "/now-playing-rs.yml"@
}

/// The path of the configuration file in the given configuration directory.
pub fn config_path(dir: &str) -> (path: String)
    ensures
        path@ == config_path_in(dir@),
{
    dir.to_owned().concat("/now-playing-rs.yml")
}

/// `directories::BaseDirs`, the set of the user's base directories. Nothing
/// is known of what a value holds.
#[verifier::external_type_specification]
#[verifier::external_body]
pub struct ExBaseDirs(directories::BaseDirs);

/// `directories::BaseDirs::new` finds the user's base directories, or finds
/// none where the system knows no home directory. The answer depends on the
/// environment, so nothing is claimed of it.
pub assume_specification[ directories::BaseDirs::new ]() -> (dirs: Option<directories::BaseDirs>)
;

/// Calls `directories::BaseDirs::config_dir`, which hands out the path of the
/// configuration directory that the value holds, and returns that path as
/// text: `None` where it is not valid UTF-8. Nothing is claimed of the text.
#[verifier::external_body]
fn config_dir_text(dirs: &directories::BaseDirs) -> (dir: Option<String>) {
    match dirs.config_dir().to_str() {
        Some(text) => Some(text.to_owned()),
        None => None,
    }
}

/// The path of the user's configuration file, or `None` where the user has
/// no configuration directory that can be written as text. Whatever the
/// directory is, the file has its fixed name in it.
pub fn config_file() -> (path: Option<String>)
    ensures
        path matches Some(p) ==> exists|dir: Seq<char>| p@ == config_path_in(dir),
{
    match directories::BaseDirs::new() {
        Some(dirs) => config_file_in(config_dir_text(&dirs)),
        None => config_file_in(None),
    }
}

/// The path of the configuration file, given the configuration directory
/// that was found, if any: the file in that directory, and `None` exactly
/// where there is no directory.
pub fn config_file_in(dir: Option<String>) -> (path: Option<String>)
    ensures
        path is Some <==> dir is Some,
        path matches Some(p) ==> dir is Some && p@ == config_path_in(dir->Some_0@),
{
    match dir {
        Some(dir) => Some(config_path(dir.as_str())),
        None => None,
    }
}

} // verus!
