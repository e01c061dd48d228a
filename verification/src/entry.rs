//! One entry of a directory walk, as the search reads it.

use vstd::prelude::*;

verus! {

/// The character that marks a name as hidden when it comes first: the dot,
/// as the byte that stands for it in a file name.
pub const HIDDEN_MARKER: u8 = 0x2e;

/// What the path of an entry denotes, symbolic links followed.
#[derive(Clone, Copy, Debug, PartialEq, Eq, Structural)]
pub enum FileType {
    /// A regular file.
    Regular,
    /// A directory.
    Directory,
    /// Anything else, and what could not be told.
    Other,
}

/// The kind of an entry, by which its color is chosen.
#[derive(Clone, Copy, Debug, PartialEq, Eq, Structural)]
pub enum EntryKind {
    /// A symbolic link, whatever it points to.
    Symlink,
    /// A directory that is no symbolic link.
    Directory,
    /// Everything else.
    File,
}

/// One entry that a depth-first walk has come to.
#[derive(Clone, Debug, PartialEq, Eq)]
pub struct Entry {
    /// How many levels the entry lies below the root of the walk. The root
    /// itself has depth 0.
    pub depth: usize,
    /// The bare name of the entry as the file system has it, byte for byte.
    pub raw_name: Vec<u8>,
    /// The bare name of the entry as text, `None` if it is no valid Unicode.
    pub name: Option<String>,
    /// The path of the entry relative to the root of the walk, `None` if it
    /// could not be told or is no valid Unicode.
    pub path: Option<String>,
    /// Whether the entry is a symbolic link.
    pub is_symlink: bool,
    /// What the path denotes.
    pub file_type: FileType,
}

/// An [`Entry`] with its texts as sequences of characters.
pub struct EntryView {
    pub depth: nat,
    pub raw_name: Seq<u8>,
    pub name: Option<Seq<char>>,
    pub path: Option<Seq<char>>,
    pub is_symlink: bool,
    pub file_type: FileType,
}

/// The characters of an optional text.
pub open spec fn text_view(text: Option<String>) -> Option<Seq<char>> {
    match text {
        Some(s) => Some(s@),
        None => None,
    }
}

impl View for Entry {
    type V = EntryView;

    open spec fn view(&self) -> EntryView {
        EntryView {
            depth: self.depth as nat,
            raw_name: self.raw_name@,
            name: text_view(self.name),
            path: text_view(self.path),
            is_symlink: self.is_symlink,
            file_type: self.file_type,
        }
    }
}

/// The views of the entries of a listing, in their order.
pub open spec fn entry_views(listing: Seq<Entry>) -> Seq<EntryView> {
    listing.map_values(|entry: Entry| entry@)
}

/// Whether `name` starts with the hidden marker.
pub open spec fn is_hidden_name(name: Seq<u8>) -> bool {
    name.len() > 0 && name[0] == HIDDEN_MARKER
}

impl EntryView {
    /// Whether the entry is hidden: its bare name starts with the hidden
    /// marker. The path plays no part, nor does it matter whether the name is
    /// valid Unicode.
    pub open spec fn is_hidden(self) -> bool {
        is_hidden_name(self.raw_name)
    }

    /// Whether the entry is the root of the walk.
    pub open spec fn is_root(self) -> bool {
        self.depth == 0
    }

    /// The kind of the entry. A symbolic link is one whatever it points to.
    pub open spec fn kind(self) -> EntryKind {
        if self.is_symlink {
            EntryKind::Symlink
        } else if self.file_type == FileType::Directory {
            EntryKind::Directory
        } else {
            EntryKind::File
        }
    }
}

/// Tells whether `name`, the bytes of a file name, starts with the hidden
/// marker.
pub fn name_is_hidden(name: &[u8]) -> (hidden: bool)
    ensures
        hidden == is_hidden_name(name@),
{
    name.len() > 0 && name[0] == HIDDEN_MARKER
}

/// Tells whether the name of `entry` starts with the hidden marker.
pub fn is_hidden(entry: &Entry) -> (hidden: bool)
    ensures
        hidden == entry@.is_hidden(),
{
    name_is_hidden(entry.raw_name.as_slice())
}

impl Entry {
    /// The kind of the entry.
    pub fn kind(&self) -> (kind: EntryKind)
        ensures
            kind == self@.kind(),
    {
        if self.is_symlink {
            EntryKind::Symlink
        } else if self.file_type == FileType::Directory {
            EntryKind::Directory
        } else {
            EntryKind::File
        }
    }
}

} // verus!
