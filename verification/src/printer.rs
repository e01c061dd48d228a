//! How a matching path is written.

use crate::config::FdOptions;
use crate::entry::Entry;
use crate::entry::EntryKind;
use vstd::prelude::*;

verus! {

/// The colors that paths are written in.
#[derive(Clone, Copy, Debug, PartialEq, Eq, Structural)]
pub enum Colour {
    Purple,
    Cyan,
    White,
}

/// The color for an entry of `kind`: purple for a symbolic link, cyan for a
/// directory, white for everything else.
pub open spec fn colour_of(kind: EntryKind) -> Colour {
    match kind {
        EntryKind::Symlink => Colour::Purple,
        EntryKind::Directory => Colour::Cyan,
        EntryKind::File => Colour::White,
    }
}

/// The number by which a terminal knows `colour` as a foreground color.
pub open spec fn colour_code(colour: Colour) -> Seq<char> {
    match colour {
        Colour::Purple => seq!['3', '5'],
        Colour::Cyan => seq!['3', '6'],
        Colour::White => seq!['3', '7'],
    }
}

/// `text` between the escape sequence that switches the terminal to
/// `colour` and the one that resets it.
pub open spec fn painted(colour: Colour, text: Seq<char>) -> Seq<char> {
    seq!['\x1b', '['] + colour_code(colour) + seq!['m'] + text + seq!['\x1b', '[', '0', 'm']
}

/// The line, without its line break, for a matching path of an entry of
/// `kind`.
pub open spec fn rendered(colored: bool, kind: EntryKind, path: Seq<char>) -> Seq<char> {
    if colored {
        painted(colour_of(kind), path)
    } else {
        path
    }
}

/// Calls `ansi_term::Colour::paint` and formats what it returns.
///
/// Trusted: for a plain foreground color the formatted text is the escape
/// sequence `ESC [ <code> m`, with the code 35, 36 or 37, then `text` as it
/// is, then the reset sequence `ESC [ 0 m`.
#[verifier::external_body]
fn paint(colour: Colour, text: &str) -> (out: String)
    ensures
        out@ == painted(colour, text@),
{
    let outside = match colour {
        Colour::Purple => ansi_term::Colour::Purple,
        Colour::Cyan => ansi_term::Colour::Cyan,
        Colour::White => ansi_term::Colour::White,
    };
    outside.paint(text).to_string()
}

/// The color in which the path of `entry` is written.
pub fn colour_for(entry: &Entry) -> (colour: Colour)
    ensures
        colour == colour_of(entry@.kind()),
{
    match entry.kind() {
        EntryKind::Symlink => Colour::Purple,
        EntryKind::Directory => Colour::Cyan,
        EntryKind::File => Colour::White,
    }
}

/// The line that reports `entry` under the path `path_str`: the path as it
/// is, or wrapped in the color of the entry's kind where `config` asks for
/// colors. The line break is left to the caller.
pub fn print_entry(entry: &Entry, path_str: &str, config: &FdOptions) -> (line: String)
    ensures
        line@ == rendered(config.colored, entry@.kind(), path_str@),
{
    if config.colored {
        paint(colour_for(entry), path_str)
    } else {
        path_str.to_owned()
    }
}

} // verus!
