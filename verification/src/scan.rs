//! The search: which entries of a walk are reported, and with what line.
//!
//! A walk is taken as the listing of its entries in depth-first order, each
//! directory before what it holds. In such a listing the entries below an
//! entry are the ones that follow it for as long as they lie deeper than it.

use crate::config::FdOptions;
use crate::entry::entry_views;
use crate::entry::is_hidden;
use crate::entry::text_view;
use crate::entry::Entry;
use crate::entry::EntryView;
use crate::entry::FileType;
use crate::pattern::finds;
use crate::pattern::Pattern;
use crate::pattern::PatternView;
use crate::printer::print_entry;
use crate::printer::rendered;
use vstd::prelude::*;

verus! {

/// What the walker is to do with an entry.
#[derive(Clone, Debug, PartialEq, Eq)]
pub enum Action {
    /// Write nothing and do not descend into the entry: it is hidden from
    /// this search, or lies below an entry that is.
    Prune,
    /// Write nothing.
    Pass,
    /// Write this line.
    Print(String),
}

/// An [`Action`] with its line as a sequence of characters.
pub enum ActionView {
    Prune,
    Pass,
    Print(Seq<char>),
}

impl View for Action {
    type V = ActionView;

    open spec fn view(&self) -> ActionView {
        match self {
            Action::Prune => ActionView::Prune,
            Action::Pass => ActionView::Pass,
            Action::Print(line) => ActionView::Print(line@),
        }
    }
}

/// Whether the search leaves `entry` out for being hidden.
pub open spec fn prunes(config: FdOptions, entry: EntryView) -> bool {
    !config.search_hidden && entry.is_hidden()
}

/// Whether entry `i` of `listing` is entry `j` itself or lies below it.
pub open spec fn within(listing: Seq<EntryView>, j: int, i: int) -> bool {
    &&& 0 <= j <= i < listing.len()
    &&& forall|k: int| j < k <= i ==> (#[trigger] listing[k]).depth > listing[j].depth
}

/// Whether entry `i` of `listing` is cut from the search: it is hidden, or
/// lies below a hidden entry, and hidden entries are not searched.
pub open spec fn pruned(config: FdOptions, listing: Seq<EntryView>, i: int) -> bool {
    exists|j: int| #[trigger] within(listing, j, i) && prunes(config, listing[j])
}

/// The text of `entry` that is held against the pattern, if there is one.
///
/// The root of the walk has none, nor has an entry without a path below the
/// root. Otherwise it is that path, or, where only file names are searched,
/// the bare name of a regular file.
pub open spec fn candidate(config: FdOptions, entry: EntryView) -> Option<Seq<char>> {
    if entry.is_root() {
        None
    } else if entry.path is None {
        None
    } else if config.search_full_path {
        entry.path
    } else if entry.file_type == FileType::Regular {
        entry.name
    } else {
        None
    }
}

/// Whether `entry` matches: it has a candidate text, and the pattern occurs
/// somewhere in it.
pub open spec fn matched(config: FdOptions, pattern: PatternView, entry: EntryView) -> bool {
    candidate(config, entry) matches Some(text) && finds(
        pattern.source,
        pattern.case_insensitive,
        text,
    )
}

/// The line that reports `entry`, if it matches: its path below the root,
/// written as the options ask.
pub open spec fn report(config: FdOptions, pattern: PatternView, entry: EntryView) -> Option<
    Seq<char>,
> {
    if matched(config, pattern, entry) {
        Some(rendered(config.colored, entry.kind(), entry.path->0))
    } else {
        None
    }
}

/// What is done with entry `i` of `listing`.
pub open spec fn action_at(
    config: FdOptions,
    pattern: PatternView,
    listing: Seq<EntryView>,
    i: int,
) -> ActionView {
    if pruned(config, listing, i) {
        ActionView::Prune
    } else {
        match report(config, pattern, listing[i]) {
            Some(line) => ActionView::Print(line),
            None => ActionView::Pass,
        }
    }
}

/// The line written for entry `i` of `listing`, if one is.
pub open spec fn line_at(
    config: FdOptions,
    pattern: PatternView,
    listing: Seq<EntryView>,
    i: int,
) -> Option<Seq<char>> {
    match action_at(config, pattern, listing, i) {
        ActionView::Print(line) => Some(line),
        _ => None,
    }
}

/// For each entry of `listing`, the line written for it, if one is.
pub open spec fn all_lines(config: FdOptions, pattern: PatternView, listing: Seq<EntryView>) -> Seq<
    Option<Seq<char>>,
> {
    Seq::new(listing.len(), |i: int| line_at(config, pattern, listing, i))
}

/// The lines that a search over `listing` writes, in the order of the walk.
pub open spec fn printed_lines(
    config: FdOptions,
    pattern: PatternView,
    listing: Seq<EntryView>,
) -> Seq<Seq<char>> {
    all_lines(config, pattern, listing).filter_map(|line: Option<Seq<char>>| line)
}

/// Whether an entry can still lie below entry `j` after the first `n`
/// entries of `listing`: none of those after `j` has come back up to it.
spec fn open_at(listing: Seq<EntryView>, j: int, n: int) -> bool {
    forall|k: int| j < k < n ==> (#[trigger] listing[k]).depth > listing[j].depth
}

/// That `cut` is what a scanner has to remember of `listing`: the depth of
/// the outermost pruning entry that further entries can lie below.
spec fn tracks(config: FdOptions, cut: Option<usize>, listing: Seq<EntryView>) -> bool {
    &&& cut matches Some(depth) ==> exists|j: int|
        0 <= j < listing.len() && prunes(config, #[trigger] listing[j]) && listing[j].depth == depth
            && open_at(listing, j, listing.len() as int)
    &&& forall|j: int|
        0 <= j < listing.len() && prunes(config, #[trigger] listing[j]) && open_at(
            listing,
            j,
            listing.len() as int,
        ) ==> (cut matches Some(depth) && depth <= listing[j].depth)
}

/// Whether an entry at `depth` lies below the entry that `cut` remembers.
spec fn shadowed_by(cut: Option<usize>, depth: nat) -> bool {
    cut matches Some(d) && depth > d
}

/// What a scanner remembers after an entry at `depth`.
spec fn next_cut(cut: Option<usize>, depth: usize, hidden: bool) -> Option<usize> {
    if shadowed_by(cut, depth as nat) {
        cut
    } else if hidden {
        Some(depth)
    } else {
        None
    }
}

/// One more entry: whether it is pruned follows from what was remembered, and
/// what is remembered next is right for the longer listing.
proof fn lemma_advance(config: FdOptions, cut: Option<usize>, listing: Seq<EntryView>, entry: Entry)
    requires
        tracks(config, cut, listing),
    ensures
        pruned(config, listing.push(entry@), listing.len() as int) == (shadowed_by(
            cut,
            entry@.depth,
        ) || prunes(config, entry@)),
        tracks(
            config,
            next_cut(cut, entry.depth, prunes(config, entry@)),
            listing.push(entry@),
        ),
{
    let n = listing.len() as int;
    let longer = listing.push(entry@);
    let shadowed = shadowed_by(cut, entry@.depth);
    let hidden = prunes(config, entry@);
    assert forall|j: int| 0 <= j < n implies (within(longer, j, n) <==> open_at(listing, j, n)
        && entry@.depth > listing[j].depth) by {
        if within(longer, j, n) {
            assert(longer[n].depth > longer[j].depth);
            assert forall|k: int| j < k < n implies (#[trigger] listing[k]).depth
                > listing[j].depth by {
                assert(longer[k].depth > longer[j].depth);
            }
        }
        if open_at(listing, j, n) && entry@.depth > listing[j].depth {
            assert forall|k: int| j < k <= n implies (#[trigger] longer[k]).depth
                > longer[j].depth by {
                if k < n {
                    assert(listing[k].depth > listing[j].depth);
                }
            }
        }
    }
    assert(within(longer, n, n));
    if shadowed {
        let j = choose|j: int|
            0 <= j < n && prunes(config, #[trigger] listing[j]) && listing[j].depth == cut->0
                && open_at(listing, j, n);
        assert(within(longer, j, n) && prunes(config, longer[j]));
    }
    if hidden {
        assert(within(longer, n, n) && prunes(config, longer[n]));
    }
    if pruned(config, longer, n) {
        let j = choose|j: int| #[trigger] within(longer, j, n) && prunes(config, longer[j]);
        if j < n {
            assert(prunes(config, listing[j]) && open_at(listing, j, n));
        }
    }
    let next = next_cut(cut, entry.depth, hidden);
    assert forall|j: int|
        0 <= j < n + 1 && prunes(config, #[trigger] longer[j]) && open_at(
            longer,
            j,
            n + 1,
        ) implies (next matches Some(depth) && depth <= longer[j].depth) by {
        if j < n {
            assert(longer[n].depth > longer[j].depth);
            assert forall|k: int| j < k < n implies (#[trigger] listing[k]).depth
                > listing[j].depth by {
                assert(longer[k].depth > longer[j].depth);
            }
            assert(prunes(config, listing[j]) && open_at(listing, j, n));
        }
    }
    if next is Some {
        if shadowed {
            let j = choose|j: int|
                0 <= j < n && prunes(config, #[trigger] listing[j]) && listing[j].depth == cut->0
                    && open_at(listing, j, n);
            assert forall|k: int| j < k < n + 1 implies (#[trigger] longer[k]).depth
                > longer[j].depth by {
                if k < n {
                    assert(listing[k].depth > listing[j].depth);
                }
            }
            assert(prunes(config, longer[j]) && longer[j].depth == next->0 && open_at(
                longer,
                j,
                n + 1,
            ));
        } else {
            assert(prunes(config, longer[n]) && longer[n].depth == next->0 && open_at(
                longer,
                n,
                n + 1,
            ));
        }
    }
}

/// Whether an entry is pruned depends on the entries up to it alone.
pub proof fn lemma_pruned_ignores_later_entries(
    config: FdOptions,
    listing: Seq<EntryView>,
    n: int,
    i: int,
)
    requires
        0 <= i < n <= listing.len(),
    ensures
        pruned(config, listing.take(n), i) == pruned(config, listing, i),
{
    let prefix = listing.take(n);
    assert forall|j: int| within(prefix, j, i) <==> within(listing, j, i) by {
        if within(prefix, j, i) {
            assert forall|k: int| j < k <= i implies (#[trigger] listing[k]).depth
                > listing[j].depth by {
                assert(prefix[k].depth > prefix[j].depth);
            }
        }
        if within(listing, j, i) {
            assert forall|k: int| j < k <= i implies (#[trigger] prefix[k]).depth
                > prefix[j].depth by {
                assert(listing[k].depth > listing[j].depth);
            }
        }
    }
    if pruned(config, prefix, i) {
        let j = choose|j: int| #[trigger] within(prefix, j, i) && prunes(config, prefix[j]);
        assert(within(listing, j, i) && prunes(config, listing[j]));
    }
    if pruned(config, listing, i) {
        let j = choose|j: int| #[trigger] within(listing, j, i) && prunes(config, listing[j]);
        assert(within(prefix, j, i) && prunes(config, prefix[j]));
    }
}

/// The lines of a listing that is one entry longer are the lines so far and,
/// after them, the line of the new entry, if it has one.
pub proof fn lemma_printed_lines_grow(
    config: FdOptions,
    pattern: PatternView,
    listing: Seq<EntryView>,
    i: int,
)
    requires
        0 <= i < listing.len(),
    ensures
        printed_lines(config, pattern, listing.take(i + 1)) == printed_lines(
            config,
            pattern,
            listing.take(i),
        ) + (match line_at(config, pattern, listing.take(i + 1), i) {
            Some(line) => seq![line],
            None => Seq::empty(),
        }),
{
    let longer = listing.take(i + 1);
    let lines = all_lines(config, pattern, longer);
    assert(longer.take(i) =~= listing.take(i));
    assert forall|k: int| 0 <= k < i implies line_at(config, pattern, longer, k) == line_at(
        config,
        pattern,
        longer.take(i),
        k,
    ) by {
        lemma_pruned_ignores_later_entries(config, longer, i, k);
    }
    assert(lines.take(i) =~= all_lines(config, pattern, listing.take(i)));
    assert(lines.take(i + 1) =~= lines);
    lines.lemma_filter_map_take_succ(|line: Option<Seq<char>>| line, i);
}

/// The text of `entry` that is held against the pattern, if there is one:
/// nothing for the root of the walk and for an entry whose path below the
/// root is unknown, else the path, or the name of a regular file where only
/// file names are searched.
pub fn candidate_text<'a>(entry: &'a Entry, config: &FdOptions) -> (text: Option<&'a str>)
    ensures
        text is Some == candidate(*config, entry@) is Some,
        text matches Some(held) ==> Some(held@) == candidate(*config, entry@),
{
    if entry.depth == 0 {
        return None;
    }
    match &entry.path {
        None => None,
        Some(path_str) => {
            if config.search_full_path {
                Some(path_str.as_str())
            } else if entry.file_type == FileType::Regular {
                match &entry.name {
                    Some(name) => Some(name.as_str()),
                    None => None,
                }
            } else {
                None
            }
        },
    }
}

/// The line that reports `entry`, given whether the pattern was found in
/// its candidate text: the path of the entry, written as the options ask, if
/// there is a candidate text and the pattern was found in it, and nothing
/// otherwise.
pub fn report_found(entry: &Entry, found: bool, config: &FdOptions) -> (line: Option<String>)
    ensures
        text_view(line) == (if found && candidate(*config, entry@) is Some {
            Some(rendered(config.colored, entry@.kind(), entry@.path->0))
        } else {
            None
        }),
{
    if !found || candidate_text(entry, config).is_none() {
        return None;
    }
    match &entry.path {
        Some(path_str) => Some(print_entry(entry, path_str.as_str(), config)),
        None => None,
    }
}

/// Holds `entry` against `pattern`: the line that reports it if it matches,
/// nothing if it does not.
///
/// The root of the walk never matches, nor does an entry whose path below
/// the root is unknown. Where only file names are searched, an entry that
/// is no regular file does not match either.
pub fn examine(entry: &Entry, pattern: &Pattern, config: &FdOptions) -> (line: Option<String>)
    ensures
        text_view(line) == report(*config, pattern@, entry@),
{
    match candidate_text(entry, config) {
        Some(text) => report_found(entry, pattern.is_match(text), config),
        None => None,
    }
}

/// The state of one search over a walk. The walker hands it each entry in
/// turn and does what it is told.
pub struct Scanner<'a> {
    config: FdOptions,
    pattern: &'a Pattern,
    cut: Option<usize>,
    seen: Ghost<Seq<EntryView>>,
}

impl<'a> Scanner<'a> {
    #[verifier::type_invariant]
    spec fn consistent(self) -> bool {
        tracks(self.config, self.cut, self.seen@)
    }

    /// The options of the search.
    pub closed spec fn config(self) -> FdOptions {
        self.config
    }

    /// The pattern of the search.
    pub closed spec fn pattern(self) -> PatternView {
        self.pattern@
    }

    /// The entries handed over so far.
    pub closed spec fn seen(self) -> Seq<EntryView> {
        self.seen@
    }

    /// A search that has seen no entry yet.
    pub fn new(config: FdOptions, pattern: &'a Pattern) -> (scanner: Scanner<'a>)
        ensures
            scanner.config() == config,
            scanner.pattern() == pattern@,
            scanner.seen() == Seq::<EntryView>::empty(),
    {
        Scanner { config, pattern, cut: None, seen: Ghost(Seq::empty()) }
    }

    /// Takes the next entry of the walk and says what to do with it.
    pub fn step(&mut self, entry: &Entry) -> (action: Action)
        ensures
            final(self).config() == old(self).config(),
            final(self).pattern() == old(self).pattern(),
            final(self).seen() == old(self).seen().push(entry@),
            action@ == action_at(
                old(self).config(),
                old(self).pattern(),
                final(self).seen(),
                old(self).seen().len() as int,
            ),
    {
        proof {
            use_type_invariant(&*self);
            lemma_advance(self.config, self.cut, self.seen@, *entry);
        }
        let shadowed = match self.cut {
            Some(depth) => entry.depth > depth,
            None => false,
        };
        let hidden = !self.config.search_hidden && is_hidden(entry);
        let cut = if shadowed {
            self.cut
        } else if hidden {
            Some(entry.depth)
        } else {
            None
        };
        *self = Scanner {
            config: self.config,
            pattern: self.pattern,
            cut,
            seen: Ghost(self.seen@.push(entry@)),
        };
        if shadowed || hidden {
            Action::Prune
        } else {
            match examine(entry, self.pattern, &self.config) {
                Some(line) => Action::Print(line),
                None => Action::Pass,
            }
        }
    }
}

/// Searches the walk `listing` and returns the lines to write, in the order
/// of the walk.
pub fn scan(listing: &Vec<Entry>, pattern: &Pattern, config: &FdOptions) -> (lines: Vec<String>)
    ensures
        lines.deep_view() == printed_lines(*config, pattern@, entry_views(listing@)),
{
    let ghost views = entry_views(listing@);
    let mut scanner = Scanner::new(*config, pattern);
    let mut lines: Vec<String> = Vec::new();
    let mut i: usize = 0;
    assert(views.take(0) =~= Seq::<EntryView>::empty());
    assert(lines.deep_view() =~= printed_lines(*config, pattern@, views.take(0)));
    while i < listing.len()
        invariant
            i <= listing.len(),
            views == entry_views(listing@),
            scanner.config() == *config,
            scanner.pattern() == pattern@,
            scanner.seen() == views.take(i as int),
            lines.deep_view() == printed_lines(*config, pattern@, views.take(i as int)),
        decreases listing.len() - i,
    {
        let ghost before = lines.deep_view();
        let action = scanner.step(&listing[i]);
        proof {
            assert(views.take(i as int).push(listing[i as int]@) =~= views.take(i + 1));
            lemma_printed_lines_grow(*config, pattern@, views, i as int);
        }
        match action {
            Action::Print(line) => {
                lines.push(line);
                assert(lines.deep_view() =~= before + seq![line@]);
            },
            _ => {
                assert(before + Seq::<Seq<char>>::empty() =~= before);
            },
        }
        i = i + 1;
    }
    assert(views.take(i as int) =~= views);
    lines
}

} // verus!
