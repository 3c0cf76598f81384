//! The regular-expression engine, as far as the search needs it.

use vstd::prelude::*;
use crate::search::spans_fit;

verus! {

/// The engine's error for a pattern it does not accept.
#[verifier::external_type_specification]
#[verifier::external_body]
pub struct ExPatternError(regex::Error);

/// Whether the engine accepts `pattern`: it is well formed and its compiled
/// form stays within the engine's default size limit.
pub uninterp spec fn pattern_compiles(pattern: Seq<char>) -> bool;

/// The successive non-overlapping matches of `pattern` in `haystack`, each
/// as the byte offsets of its start and end in the haystack's UTF-8 form.
pub uninterp spec fn match_spans(pattern: Seq<char>, haystack: Seq<char>) -> Seq<(usize, usize)>;

/// Compiles `pattern` with `regex::Regex::new` and collects what
/// `Regex::find_iter` yields for `haystack`, keeping `Match::start` and
/// `Match::end` of each match.
///
/// Trusted, not proved: the call fails exactly for the patterns the engine
/// rejects; otherwise the spans are those named by [`match_spans`]; each
/// span has its start no later than its end, both on character boundaries
/// of the haystack; and each match begins no earlier than the one before it
/// ended.
#[verifier::external_body]
pub(crate) fn find_spans(pattern: &str, haystack: &str) -> (found: Result<
    Vec<(usize, usize)>,
    regex::Error,
>)
    ensures
        found.is_ok() == pattern_compiles(pattern@),
        found matches Ok(spans) ==> spans@ == match_spans(pattern@, haystack@) && spans_fit(
            haystack@,
            spans@,
        ),
{
    let compiled = regex::Regex::new(pattern)?;
    Ok(compiled.find_iter(haystack).map(|found| (found.start(), found.end())).collect())
}

} // verus!
