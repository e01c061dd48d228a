use fd::config::{FdOptions, Flags};
use fd::entry::{Entry, FileType};
use fd::printer::{colour_for, print_entry, Colour};

fn entry(is_symlink: bool, file_type: FileType) -> Entry {
    Entry {
        depth: 1,
        raw_name: b"x".to_vec(),
        name: Some("x".to_string()),
        path: Some("x".to_string()),
        is_symlink,
        file_type,
    }
}

fn colored() -> FdOptions {
    FdOptions::from_flags(&Flags::none(), "")
}

fn plain() -> FdOptions {
    FdOptions { colored: false, ..colored() }
}

#[test]
fn colour_follows_the_kind() {
    assert_eq!(colour_for(&entry(true, FileType::Regular)), Colour::Purple);
    assert_eq!(colour_for(&entry(true, FileType::Directory)), Colour::Purple);
    assert_eq!(colour_for(&entry(true, FileType::Other)), Colour::Purple);
    assert_eq!(colour_for(&entry(false, FileType::Directory)), Colour::Cyan);
    assert_eq!(colour_for(&entry(false, FileType::Regular)), Colour::White);
    assert_eq!(colour_for(&entry(false, FileType::Other)), Colour::White);
}

#[test]
fn plain_line_is_the_path_itself() {
    for file_type in [FileType::Regular, FileType::Directory, FileType::Other] {
        for is_symlink in [false, true] {
            let line = print_entry(&entry(is_symlink, file_type), "a/b/README.md", &plain());
            assert_eq!(line, "a/b/README.md");
        }
    }
}

#[test]
fn symbolic_link_is_written_in_purple() {
    let line = print_entry(&entry(true, FileType::Regular), "a/link", &colored());
    assert_eq!(line, "\u{1b}[35ma/link\u{1b}[0m");
}

#[test]
fn link_to_a_directory_is_written_as_a_link() {
    let line = print_entry(&entry(true, FileType::Directory), "a/link", &colored());
    assert_eq!(line, "\u{1b}[35ma/link\u{1b}[0m");
}

#[test]
fn directory_is_written_in_cyan() {
    let line = print_entry(&entry(false, FileType::Directory), "a/b", &colored());
    assert_eq!(line, "\u{1b}[36ma/b\u{1b}[0m");
}

#[test]
fn regular_file_is_written_in_white() {
    let line = print_entry(&entry(false, FileType::Regular), "a/b/README.md", &colored());
    assert_eq!(line, "\u{1b}[37ma/b/README.md\u{1b}[0m");
}

#[test]
fn other_file_is_written_in_white() {
    let line = print_entry(&entry(false, FileType::Other), "pipe", &colored());
    assert_eq!(line, "\u{1b}[37mpipe\u{1b}[0m");
}

#[test]
fn path_is_written_as_given_not_as_the_entry_has_it() {
    let line = print_entry(&entry(false, FileType::Regular), "other/path", &plain());
    assert_eq!(line, "other/path");
}

#[test]
fn empty_path_is_still_wrapped_in_color() {
    let line = print_entry(&entry(false, FileType::Regular), "", &colored());
    assert_eq!(line, "\u{1b}[37m\u{1b}[0m");
    assert_eq!(print_entry(&entry(false, FileType::Regular), "", &plain()), "");
}

#[test]
fn path_with_wide_characters_is_kept() {
    let line = print_entry(&entry(false, FileType::Directory), "\u{4e2d}/\u{394}", &colored());
    assert_eq!(line, "\u{1b}[36m\u{4e2d}/\u{394}\u{1b}[0m");
}
