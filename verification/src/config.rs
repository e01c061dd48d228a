//! The options of one search, and how they follow from the command line.

use vstd::prelude::*;

verus! {

/// Whether `c` has the Unicode property `Uppercase`.
pub uninterp spec fn is_uppercase(c: char) -> bool;

/// `char::is_uppercase` decides [`is_uppercase`]. The property is a table of the
/// Unicode Character Database; it is taken from std and not restated here.
pub assume_specification[ char::is_uppercase ](c: char) -> (b: bool)
    ensures
        b == is_uppercase(c),
;

/// Whether some character of `text` is an uppercase one.
pub open spec fn has_uppercase(text: Seq<char>) -> bool {
    exists|i: int| 0 <= i < text.len() && is_uppercase(#[trigger] text[i])
}

/// The switches of the command line, each `true` when it was given.
#[derive(Clone, Copy, Debug, PartialEq, Eq, Structural)]
pub struct Flags {
    /// `-s`, `--sensitive`: match case-sensitively.
    pub sensitive: bool,
    /// `-f`, `--filename`: match against file names only.
    pub filename: bool,
    /// `--hidden`: search hidden files and directories too.
    pub hidden: bool,
    /// `-F`, `--follow`: follow symbolic links.
    pub follow: bool,
    /// `-n`, `--no-color`: do not colorize the output.
    pub no_color: bool,
}

/// The options of one search. They are fixed before the walk starts and only
/// read afterwards.
#[derive(Clone, Copy, Debug, PartialEq, Eq, Structural)]
pub struct FdOptions {
    /// Letters of the pattern match only their own case.
    pub case_sensitive: bool,
    /// The pattern is held against the path below the root, not against the
    /// bare file name.
    pub search_full_path: bool,
    /// Hidden entries are searched like any other.
    pub search_hidden: bool,
    /// The walk follows symbolic links into their targets.
    pub follow_links: bool,
    /// Matching paths are written in the color of their kind.
    pub colored: bool,
}

/// The options that `flags` ask for, for a pattern that holds an uppercase
/// character exactly if `pattern_has_uppercase`.
///
/// Case is "smart": a pattern in lowercase matches either case, and one
/// uppercase character in it makes the search case-sensitive, as the flag
/// does for every pattern.
pub open spec fn derived_options(flags: Flags, pattern_has_uppercase: bool) -> FdOptions {
    FdOptions {
        case_sensitive: flags.sensitive || pattern_has_uppercase,
        search_full_path: !flags.filename,
        search_hidden: flags.hidden,
        follow_links: flags.follow,
        colored: !flags.no_color,
    }
}

/// Tells whether `pattern` holds an uppercase character.
pub fn contains_uppercase(pattern: &str) -> (found: bool)
    ensures
        found == has_uppercase(pattern@),
{
    for c in it: pattern.chars()
        invariant
            it.seq() == pattern@,
            forall|j: int| 0 <= j < it.index() ==> !is_uppercase(#[trigger] pattern@[j]),
    {
        if c.is_uppercase() {
            return true;
        }
    }
    false
}

impl Flags {
    /// No switch given.
    pub fn none() -> (flags: Flags)
        ensures
            flags == (Flags {
                sensitive: false,
                filename: false,
                hidden: false,
                follow: false,
                no_color: false,
            }),
    {
        Flags { sensitive: false, filename: false, hidden: false, follow: false, no_color: false }
    }
}

impl FdOptions {
    /// The options for `flags` and a pattern of which the caller knows whether it
    /// holds an uppercase character.
    pub fn derive(flags: &Flags, pattern_has_uppercase: bool) -> (options: FdOptions)
        ensures
            options == derived_options(*flags, pattern_has_uppercase),
    {
        FdOptions {
            case_sensitive: flags.sensitive || pattern_has_uppercase,
            search_full_path: !flags.filename,
            search_hidden: flags.hidden,
            follow_links: flags.follow,
            colored: !flags.no_color,
        }
    }

    /// The options for `flags` and `pattern`.
    pub fn from_flags(flags: &Flags, pattern: &str) -> (options: FdOptions)
        ensures
            options == derived_options(*flags, has_uppercase(pattern@)),
    {
        FdOptions::derive(flags, contains_uppercase(pattern))
    }
}

} // verus!
