//! Pattern search over decoded text.

use vstd::prelude::*;
use vstd::string::StrSliceExecFns;
use vstd::string::StringSliceAdditionalSpecFns;
use vstd::utf8::encode_utf8;
use vstd::utf8::encode_utf8_decode_utf8;
use vstd::utf8::encode_utf8_valid_utf8;
use vstd::utf8::is_char_boundary_start_end_of_seq;
use crate::error::SessionError;
use crate::offsets::char_position;
use crate::offsets::lemma_boundary_between;
use crate::offsets::lemma_chars_between;
use crate::offsets::on_boundary;
use crate::pattern::find_spans;
use crate::pattern::match_spans;
use crate::pattern::pattern_compiles;

verus! {

/// One match of a pattern: where it starts and ends in the searched text,
/// counted in characters, and the characters it covers.
#[derive(Debug, PartialEq, Eq)]
pub struct RegexMatchResult {
    pub start: usize,
    pub end: usize,
    pub text: String,
}

/// A [`RegexMatchResult`] as mathematics.
pub struct MatchModel {
    pub start: nat,
    pub end: nat,
    pub text: Seq<char>,
}

impl MatchModel {
    /// The result that stands for "no match": zero offsets, empty text.
    pub open spec fn placeholder() -> MatchModel {
        MatchModel { start: 0, end: 0, text: Seq::empty() }
    }
}

impl View for RegexMatchResult {
    type V = MatchModel;

    open spec fn view(&self) -> MatchModel {
        MatchModel { start: self.start as nat, end: self.end as nat, text: self.text@ }
    }
}

impl Default for RegexMatchResult {
    /// The placeholder result.
    fn default() -> (result: RegexMatchResult)
        ensures
            result@ == MatchModel::placeholder(),
    {
        RegexMatchResult { start: 0, end: 0, text: String::new() }
    }
}

/// The models of a list of results, in order.
pub open spec fn models(results: Seq<RegexMatchResult>) -> Seq<MatchModel> {
    Seq::new(results.len(), |i: int| results[i]@)
}

/// Whether `spans` can be the matches of one search of `text`: each span
/// runs between two character boundaries of the text's UTF-8 form, and the
/// spans follow one another without overlap.
pub open spec fn spans_fit(text: Seq<char>, spans: Seq<(usize, usize)>) -> bool {
    &&& forall|i: int|
        0 <= i < spans.len() ==> {
            &&& (#[trigger] spans[i]).0 <= spans[i].1
            &&& on_boundary(text, spans[i].0 as int)
            &&& on_boundary(text, spans[i].1 as int)
        }
    &&& forall|i: int, j: int|
        0 <= i < j < spans.len() ==> (#[trigger] spans[i]).1 <= (#[trigger] spans[j]).0
}

/// The result for one byte span of `text`: both ends as character offsets,
/// and the characters between them.
pub open spec fn match_at(text: Seq<char>, span: (usize, usize)) -> MatchModel {
    let start = char_position(text, span.0 as int);
    let end = char_position(text, span.1 as int);
    MatchModel { start, end, text: text.subrange(start as int, end as int) }
}

/// What a search reports for `text` when the pattern matched at `spans`:
/// one result per span, in order, or the single placeholder when nothing
/// matched.
pub open spec fn search_outcome(text: Seq<char>, spans: Seq<(usize, usize)>) -> Seq<MatchModel> {
    if spans.len() == 0 {
        seq![MatchModel::placeholder()]
    } else {
        Seq::new(spans.len(), |i: int| match_at(text, spans[i]))
    }
}

/// Every reported match lies inside the text with its start no later than
/// its end, carries exactly the characters between its two offsets, and
/// ends no later than the next match starts.
pub proof fn law_matches_lie_in_order(text: Seq<char>, spans: Seq<(usize, usize)>)
    requires
        spans_fit(text, spans),
        spans.len() > 0,
    ensures
        search_outcome(text, spans).len() == spans.len(),
        forall|i: int|
            0 <= i < spans.len() ==> {
                let found = #[trigger] search_outcome(text, spans)[i];
                &&& found.start <= found.end <= text.len()
                &&& found.text == text.subrange(found.start as int, found.end as int)
            },
        forall|i: int, j: int|
            0 <= i < j < spans.len() ==> (#[trigger] search_outcome(text, spans)[i]).end <= (
            #[trigger] search_outcome(text, spans)[j]).start,
{
    assert forall|i: int| 0 <= i < spans.len() implies {
        let found = #[trigger] search_outcome(text, spans)[i];
        found.start <= found.end <= text.len()
    } by {
        lemma_chars_between(text, spans[i].0 as int, spans[i].1 as int);
    }
    assert forall|i: int, j: int| 0 <= i < j < spans.len() implies (#[trigger] search_outcome(
        text,
        spans,
    )[i]).end <= (#[trigger] search_outcome(text, spans)[j]).start by {
        assert(spans[i].1 <= spans[j].0);
        lemma_chars_between(text, spans[i].1 as int, spans[j].0 as int);
    }
}

/// A search without any match reports exactly one result, the placeholder.
pub proof fn law_no_match_is_one_placeholder(text: Seq<char>)
    ensures
        search_outcome(text, Seq::empty()) == seq![MatchModel::placeholder()],
{
}

/// Turns the byte spans of a search into results with character offsets.
///
/// The text is walked once: the characters between the end of one match
/// and the start of the next are counted, never those before.
pub fn matches_from_spans(text: &str, spans: &Vec<(usize, usize)>) -> (results: Vec<
    RegexMatchResult,
>)
    requires
        spans_fit(text@, spans@),
    ensures
        models(results@) == search_outcome(text@, spans@),
{
    let mut results: Vec<RegexMatchResult> = Vec::new();
    if spans.len() == 0 {
        results.push(RegexMatchResult::default());
        assert(models(results@) =~= search_outcome(text@, spans@));
        return results;
    }
    let ghost bytes = encode_utf8(text@);
    let mut rest: &str = text;
    let mut at: usize = 0;
    let mut seen: usize = 0;
    let mut i: usize = 0;
    proof {
        encode_utf8_valid_utf8(text@);
        is_char_boundary_start_end_of_seq(bytes);
        assert(bytes.subrange(0, bytes.len() as int) =~= bytes);
        assert(bytes.subrange(0, 0) =~= Seq::<u8>::empty());
    }
    while i < spans.len()
        invariant
            spans_fit(text@, spans@),
            bytes == encode_utf8(text@),
            i <= spans.len(),
            on_boundary(text@, at as int),
            i == 0 ==> at == 0,
            i > 0 ==> at == spans[i - 1].1,
            rest.spec_bytes() == bytes.subrange(at as int, bytes.len() as int),
            seen == char_position(text@, at as int),
            results.len() == i,
            forall|k: int| 0 <= k < i ==> (#[trigger] results[k])@ == match_at(text@, spans[k]),
        decreases spans.len() - i,
    {
        let span = spans[i];
        let from: usize = span.0;
        let to: usize = span.1;
        proof {
            if i > 0 {
                assert(spans[i - 1].1 <= spans[i as int].0);
            }
            lemma_boundary_between(text@, at as int, from as int);
            lemma_chars_between(text@, at as int, from as int);
        }
        let (gap, tail) = rest.split_at(from - at);
        proof {
            assert(gap.spec_bytes() =~= bytes.subrange(at as int, from as int));
            assert(tail.spec_bytes() =~= bytes.subrange(from as int, bytes.len() as int));
            encode_utf8_decode_utf8(gap@);
            lemma_boundary_between(text@, from as int, to as int);
            lemma_chars_between(text@, from as int, to as int);
        }
        let start: usize = seen + gap.unicode_len();
        let (hit, after) = tail.split_at(to - from);
        proof {
            assert(hit.spec_bytes() =~= bytes.subrange(from as int, to as int));
            assert(after.spec_bytes() =~= bytes.subrange(to as int, bytes.len() as int));
            encode_utf8_decode_utf8(hit@);
        }
        let end: usize = start + hit.unicode_len();
        results.push(RegexMatchResult { start, end, text: hit.to_owned() });
        rest = after;
        at = to;
        seen = end;
        i = i + 1;
    }
    assert(models(results@) =~= search_outcome(text@, spans@));
    results
}

/// Searches `text` for `pattern`. A pattern that the engine rejects gives
/// `InvalidPattern`. Otherwise every match is reported in order with its
/// character offsets and its text, and a search without any match reports
/// the single placeholder.
pub fn search_text(text: &str, pattern: &str) -> (result: Result<
    Vec<RegexMatchResult>,
    SessionError,
>)
    ensures
        result.is_ok() == pattern_compiles(pattern@),
        result matches Ok(found) ==> models(found@) == search_outcome(
            text@,
            match_spans(pattern@, text@),
        ),
        result matches Err(error) ==> error == SessionError::InvalidPattern,
{
    match find_spans(pattern, text) {
        Ok(spans) => Ok(matches_from_spans(text, &spans)),
        Err(_) => Err(SessionError::InvalidPattern),
    }
}

} // verus!
