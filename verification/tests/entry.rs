use fd::entry::{is_hidden, name_is_hidden, Entry, EntryKind, FileType, HIDDEN_MARKER};

fn named(name: &str) -> Entry {
    Entry {
        depth: 1,
        raw_name: name.as_bytes().to_vec(),
        name: Some(name.to_string()),
        path: Some(name.to_string()),
        is_symlink: false,
        file_type: FileType::Regular,
    }
}

fn unreadable(raw_name: &[u8]) -> Entry {
    Entry {
        depth: 1,
        raw_name: raw_name.to_vec(),
        name: None,
        path: None,
        is_symlink: false,
        file_type: FileType::Regular,
    }
}

#[test]
fn hidden_marker_is_the_dot() {
    assert_eq!(HIDDEN_MARKER, b'.');
}

#[test]
fn name_starting_with_a_dot_is_hidden() {
    assert!(name_is_hidden(".git".as_bytes()));
    assert!(name_is_hidden(".".as_bytes()));
    assert!(name_is_hidden("..".as_bytes()));
    assert!(name_is_hidden(".hidden.txt".as_bytes()));
}

#[test]
fn name_with_a_dot_elsewhere_is_not_hidden() {
    assert!(!name_is_hidden("a.b".as_bytes()));
    assert!(!name_is_hidden("readme.".as_bytes()));
    assert!(!name_is_hidden(" .git".as_bytes()));
    assert!(!name_is_hidden("README.md".as_bytes()));
}

#[test]
fn empty_name_is_not_hidden() {
    assert!(!name_is_hidden("".as_bytes()));
}

#[test]
fn name_starting_with_a_wide_character_is_not_hidden() {
    assert!(!name_is_hidden("\u{4e2d}.txt".as_bytes()));
    assert!(!name_is_hidden("\u{3002}git".as_bytes()));
}

#[test]
fn entry_is_hidden_by_its_name_alone() {
    assert!(is_hidden(&named(".git")));
    assert!(!is_hidden(&named("src")));
    let below_hidden = Entry {
        depth: 2,
        raw_name: b"config".to_vec(),
        name: Some("config".to_string()),
        path: Some(".git/config".to_string()),
        is_symlink: false,
        file_type: FileType::Regular,
    };
    assert!(!is_hidden(&below_hidden));
    let hidden_with_plain_path = Entry {
        depth: 1,
        raw_name: b".env".to_vec(),
        name: Some(".env".to_string()),
        path: Some("env".to_string()),
        is_symlink: false,
        file_type: FileType::Regular,
    };
    assert!(is_hidden(&hidden_with_plain_path));
}

#[test]
fn name_that_is_no_valid_unicode_is_hidden_by_its_first_byte() {
    assert!(name_is_hidden(&[0x2e, 0xff]));
    assert!(is_hidden(&unreadable(&[0x2e, 0xff])));
    assert!(is_hidden(&unreadable(&[0x2e])));
}

#[test]
fn name_that_is_no_valid_unicode_and_starts_otherwise_is_not_hidden() {
    assert!(!name_is_hidden(&[0xff, 0x2e]));
    assert!(!is_hidden(&unreadable(&[0xff, 0x2e])));
    assert!(!is_hidden(&unreadable(&[0xae, 0x2e])));
    assert!(!is_hidden(&unreadable(&[])));
}

#[test]
fn hidden_test_reads_the_bytes_of_the_name_not_its_text() {
    let entry = Entry { name: Some("plain".to_string()), ..unreadable(&[0x2e, 0x61]) };
    assert!(is_hidden(&entry));
    let entry = Entry { name: Some(".dotted".to_string()), ..unreadable(&[0x61]) };
    assert!(!is_hidden(&entry));
}

#[test]
fn kind_of_a_symbolic_link_is_symlink_whatever_it_points_to() {
    for file_type in [FileType::Regular, FileType::Directory, FileType::Other] {
        let entry = Entry { is_symlink: true, file_type, ..named("link") };
        assert_eq!(entry.kind(), EntryKind::Symlink);
    }
}

#[test]
fn kind_of_a_directory_is_directory() {
    let entry = Entry { file_type: FileType::Directory, ..named("src") };
    assert_eq!(entry.kind(), EntryKind::Directory);
}

#[test]
fn kind_of_anything_else_is_file() {
    let entry = Entry { file_type: FileType::Regular, ..named("a") };
    assert_eq!(entry.kind(), EntryKind::File);
    let entry = Entry { file_type: FileType::Other, ..named("fifo") };
    assert_eq!(entry.kind(), EntryKind::File);
}
