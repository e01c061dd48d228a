//! From the command line to a search that is ready to run.

use crate::config::derived_options;
use crate::config::has_uppercase;
use crate::config::FdOptions;
use crate::config::Flags;
use crate::pattern::compiles;
use crate::pattern::regex_error_text;
use crate::pattern::Pattern;
use crate::pattern::PatternError;
use crate::pattern::PatternView;
use vstd::prelude::*;

verus! {

/// The pattern that the free arguments `free` ask for: the first of them,
/// and the empty pattern where there is none.
pub open spec fn chosen_pattern(free: Seq<String>) -> Seq<char> {
    if free.len() > 0 {
        free[0]@
    } else {
        Seq::empty()
    }
}

/// The options that `flags` and the free arguments `free` ask for.
pub open spec fn chosen_options(flags: Flags, free: Seq<String>) -> FdOptions {
    derived_options(flags, has_uppercase(chosen_pattern(free)))
}

/// The pattern to search for: the first free argument. Without one it is
/// the empty pattern, which matches every entry.
pub fn pattern_argument(free: &Vec<String>) -> (pattern: &str)
    ensures
        pattern@ == chosen_pattern(free@),
{
    if free.len() > 0 {
        free[0].as_str()
    } else {
        proof {
            reveal_strlit("");
        }
        ""
    }
}

/// Sets up the search that the command line asks for: its options, and its
/// pattern, compiled to match either case unless the options say otherwise.
///
/// It fails exactly if the pattern is not an acceptable one, with what the
/// compiler says of it.
pub fn prepare(flags: &Flags, free: &Vec<String>) -> (result: Result<
    (FdOptions, Pattern),
    PatternError,
>)
    ensures
        result is Ok == compiles(
            chosen_pattern(free@),
            !chosen_options(*flags, free@).case_sensitive,
        ),
        result matches Ok((config, pattern)) ==> config == chosen_options(*flags, free@)
            && pattern@ == (PatternView {
            source: chosen_pattern(free@),
            case_insensitive: !config.case_sensitive,
        }),
        result matches Err(error) ==> error.message@ == regex_error_text(
            chosen_pattern(free@),
            !chosen_options(*flags, free@).case_sensitive,
        ),
{
    let source = pattern_argument(free);
    let config = FdOptions::from_flags(flags, source);
    match Pattern::compile(source, !config.case_sensitive) {
        Ok(pattern) => Ok((config, pattern)),
        Err(error) => Err(error),
    }
}

} // verus!
