//! What holds of every search, whatever the walk and the pattern.

use crate::config::FdOptions;
use crate::entry::is_hidden_name;
use crate::entry::EntryView;
use crate::entry::FileType;
use crate::pattern::finds;
use crate::pattern::PatternView;
use crate::printer::rendered;
use crate::scan::action_at;
use crate::scan::line_at;
use crate::scan::printed_lines;
use crate::scan::pruned;
use crate::scan::within;
use crate::scan::ActionView;
use vstd::prelude::*;
use vstd::utf8::encode_scalar;
use vstd::utf8::encode_utf8;

verus! {

/// The first byte that encodes a character is the hidden marker exactly if
/// the character is the dot.
proof fn lemma_leading_byte_of_dot(scalar: u32)
    by (bit_vector)
    requires
        scalar <= 0x10FFFF,
    ensures
        scalar <= 0x7F ==> (((scalar & 0x7F) as u8 == 0x2eu8) <==> scalar == 0x2e),
        (0xC0u8 | ((scalar >> 6) & 0x1F) as u8) != 0x2eu8,
        (0xE0u8 | ((scalar >> 12) & 0x0F) as u8) != 0x2eu8,
        (0xF0u8 | ((scalar >> 18) & 0x7) as u8) != 0x2eu8,
{
}

/// For a name that is valid Unicode, to be hidden is to have the dot as the
/// first character: the test on the bytes of the name and the test on its
/// text agree.
pub proof fn lemma_hidden_text_name(text: Seq<char>)
    ensures
        is_hidden_name(encode_utf8(text)) == (text.len() > 0 && text[0] == '.'),
{
    if text.len() > 0 {
        let scalar = text[0] as u32;
        vstd::utf8::char_is_scalar(text[0]);
        lemma_leading_byte_of_dot(scalar);
        let head = encode_scalar(scalar);
        let rest = encode_utf8(text.drop_first());
        assert(encode_utf8(text) == head + rest);
        assert(head.len() > 0 && (head + rest)[0] == head[0]);
        assert((head[0] == 0x2eu8) <==> scalar == 0x2e);
        assert(scalar == 0x2e <==> text[0] == '.') by {
            vstd::utf8::char_u32_cast(text[0], scalar);
            vstd::utf8::char_u32_cast('.', 0x2eu32);
        }
    } else {
        assert(encode_utf8(text).len() == 0);
    }
}

/// `config` with the choice between full paths and file names set to
/// `search_full_path`.
pub open spec fn with_full_path(config: FdOptions, search_full_path: bool) -> FdOptions {
    FdOptions { search_full_path, ..config }
}

/// A search of file names reports regular files only: an entry that is a
/// directory, or anything else but a regular file, gets no line.
pub proof fn lemma_file_name_search_reports_files_only(
    config: FdOptions,
    pattern: PatternView,
    listing: Seq<EntryView>,
    i: int,
)
    requires
        0 <= i < listing.len(),
        !config.search_full_path,
        listing[i].file_type != FileType::Regular,
    ensures
        line_at(config, pattern, listing, i) is None,
{
}

/// What a search of file names writes for an entry, the search of full
/// paths with the same options otherwise writes for it too, provided that
/// the pattern, found in the name of the entry, is also found in its path.
pub proof fn lemma_file_name_search_reports_no_more(
    config: FdOptions,
    pattern: PatternView,
    listing: Seq<EntryView>,
    i: int,
)
    requires
        0 <= i < listing.len(),
        forall|name: Seq<char>, path: Seq<char>|
            listing[i].name == Some(name) && listing[i].path == Some(path) && #[trigger] finds(
                pattern.source,
                pattern.case_insensitive,
                name,
            ) ==> #[trigger] finds(pattern.source, pattern.case_insensitive, path),
    ensures
        line_at(with_full_path(config, false), pattern, listing, i) matches Some(line) ==> line_at(
            with_full_path(config, true),
            pattern,
            listing,
            i,
        ) == Some(line),
{
    let by_name = with_full_path(config, false);
    let by_path = with_full_path(config, true);
    assert(pruned(by_name, listing, i) == pruned(by_path, listing, i)) by {
        if pruned(by_name, listing, i) {
            let j = choose|j: int| #[trigger]
                within(listing, j, i) && crate::scan::prunes(by_name, listing[j]);
            assert(within(listing, j, i) && crate::scan::prunes(by_path, listing[j]));
        }
        if pruned(by_path, listing, i) {
            let j = choose|j: int| #[trigger]
                within(listing, j, i) && crate::scan::prunes(by_path, listing[j]);
            assert(within(listing, j, i) && crate::scan::prunes(by_name, listing[j]));
        }
    }
}

/// Where hidden entries are not searched, nothing is written for a hidden
/// entry nor for any entry below it, whatever the names of those are.
pub proof fn lemma_hidden_subtree_is_left_out(
    config: FdOptions,
    pattern: PatternView,
    listing: Seq<EntryView>,
    j: int,
    i: int,
)
    requires
        !config.search_hidden,
        within(listing, j, i),
        listing[j].is_hidden(),
    ensures
        action_at(config, pattern, listing, i) is Prune,
        line_at(config, pattern, listing, i) is None,
{
    assert(within(listing, j, i) && crate::scan::prunes(config, listing[j]));
}

/// Where hidden entries are searched, no entry is cut from the search.
pub proof fn lemma_hidden_search_prunes_nothing(
    config: FdOptions,
    pattern: PatternView,
    listing: Seq<EntryView>,
    i: int,
)
    requires
        config.search_hidden,
        0 <= i < listing.len(),
    ensures
        !pruned(config, listing, i),
        !(action_at(config, pattern, listing, i) is Prune),
{
}

/// The lines of a search follow from the options, the pattern and the
/// listing alone: two searches over the same walk write the same lines in
/// the same order.
pub proof fn lemma_search_is_repeatable(
    config: FdOptions,
    pattern: PatternView,
    listing: Seq<EntryView>,
    first: Seq<Seq<char>>,
    second: Seq<Seq<char>>,
)
    requires
        first == printed_lines(config, pattern, listing),
        second == printed_lines(config, pattern, listing),
    ensures
        first == second,
{
}

/// The root of the walk is never reported, whatever its name and path.
pub proof fn lemma_root_is_never_reported(
    config: FdOptions,
    pattern: PatternView,
    listing: Seq<EntryView>,
    i: int,
)
    requires
        0 <= i < listing.len(),
        listing[i].is_root(),
    ensures
        line_at(config, pattern, listing, i) is None,
{
}

/// With the empty pattern, a search of full paths reports every entry below
/// the root that is not cut from the search and has a path, under that path.
pub proof fn lemma_empty_pattern_reports_every_entry(
    config: FdOptions,
    pattern: PatternView,
    listing: Seq<EntryView>,
    i: int,
)
    requires
        pattern.source.len() == 0,
        config.search_full_path,
        0 <= i < listing.len(),
        !listing[i].is_root(),
        !pruned(config, listing, i),
        listing[i].path is Some,
    ensures
        line_at(config, pattern, listing, i) == Some(
            rendered(config.colored, listing[i].kind(), listing[i].path->0),
        ),
{
}

/// A search writes at most one line for each entry.
pub proof fn lemma_at_most_one_line_each(
    config: FdOptions,
    pattern: PatternView,
    listing: Seq<EntryView>,
)
    ensures
        printed_lines(config, pattern, listing).len() <= listing.len(),
{
    let lines = crate::scan::all_lines(config, pattern, listing);
    lemma_filter_map_len(lines);
}

/// Dropping the missing items of a sequence does not make it longer.
proof fn lemma_filter_map_len(lines: Seq<Option<Seq<char>>>)
    ensures
        lines.filter_map(|line: Option<Seq<char>>| line).len() <= lines.len(),
    decreases lines.len(),
{
    if lines.len() > 0 {
        lemma_filter_map_len(lines.drop_last());
    }
}

} // verus!
