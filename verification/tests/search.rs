use serial_session::error::SessionError;
use serial_session::event::PortEvent;
use serial_session::search::matches_from_spans;
use serial_session::search::search_text;
use serial_session::search::RegexMatchResult;
use serial_session::session::Session;

fn session_holding(bytes: &[u8]) -> Session {
    let mut session = Session::new();
    assert_eq!(session.end_iteration(PortEvent::Delivered(bytes.to_vec())), Ok(()));
    session
}

fn found(start: usize, end: usize, text: &str) -> RegexMatchResult {
    RegexMatchResult { start, end, text: String::from(text) }
}

#[test]
fn digits_are_found_with_their_offsets() {
    let session = session_holding(b"ab12cd34");
    assert_eq!(session.search("[0-9]+"), Ok(vec![found(2, 4, "12"), found(6, 8, "34")]));
}

#[test]
fn no_match_reports_one_placeholder() {
    let session = session_holding(b"abcdef");
    assert_eq!(session.search("[0-9]+"), Ok(vec![found(0, 0, "")]));
}

#[test]
fn empty_accumulator_reports_one_placeholder() {
    let session = Session::new();
    assert_eq!(session.search("x"), Ok(vec![found(0, 0, "")]));
}

#[test]
fn placeholder_is_the_default_result() {
    assert_eq!(RegexMatchResult::default(), found(0, 0, ""));
}

#[test]
fn invalid_pattern_is_rejected() {
    let session = session_holding(b"ab12cd34");
    assert_eq!(session.search("(unclosed"), Err(SessionError::InvalidPattern));
    assert_eq!(session.search("[z-a]"), Err(SessionError::InvalidPattern));
    assert_eq!(search_text("anything", "a{2,1}"), Err(SessionError::InvalidPattern));
}

#[test]
fn oversized_pattern_is_rejected() {
    assert_eq!(search_text("anything", "\\w{1000}"), Err(SessionError::InvalidPattern));
}

#[test]
fn search_does_not_change_the_session() {
    let session = session_holding(b"ab12cd34");
    let _ = session.search("[a-z]+");
    let _ = session.search("(");
    assert_eq!(session.usage(), Ok(8));
    assert_eq!(session.save_payload(false), b"ab12cd34");
}

#[test]
fn offsets_count_characters_of_the_decoded_text() {
    // "é" and "ö" take two bytes each in UTF-8 and count as one character.
    let session = session_holding("héllo wörld 42".as_bytes());
    assert_eq!(session.search("[0-9]+"), Ok(vec![found(12, 14, "42")]));
    assert_eq!(
        session.search("\\w+"),
        Ok(vec![found(0, 5, "héllo"), found(6, 11, "wörld"), found(12, 14, "42")])
    );
}

#[test]
fn ill_formed_bytes_become_replacement_characters() {
    // 0xff can never occur in UTF-8: it decodes to one U+FFFD.
    let session = session_holding(&[0xff, b'a', b'1']);
    assert_eq!(session.search("[0-9]"), Ok(vec![found(2, 3, "1")]));
    assert_eq!(session.search("\u{fffd}"), Ok(vec![found(0, 1, "\u{fffd}")]));
    assert_eq!(session.search("."), Ok(vec![
        found(0, 1, "\u{fffd}"),
        found(1, 2, "a"),
        found(2, 3, "1"),
    ]));
}

#[test]
fn truncated_sequence_is_replaced_not_fatal() {
    // A lone lead byte of a two-byte sequence, then plain text.
    let session = session_holding(&[b'o', b'k', 0xc3]);
    assert_eq!(session.search("ok"), Ok(vec![found(0, 2, "ok")]));
    assert_eq!(session.search("[^a-z]"), Ok(vec![found(2, 3, "\u{fffd}")]));
}

#[test]
fn matches_do_not_overlap() {
    let session = session_holding(b"aaaa");
    assert_eq!(session.search("aa"), Ok(vec![found(0, 2, "aa"), found(2, 4, "aa")]));
    assert_eq!(session.search("aaa"), Ok(vec![found(0, 3, "aaa")]));
}

#[test]
fn empty_matches_are_reported_like_any_other() {
    assert_eq!(
        search_text("ab", ""),
        Ok(vec![found(0, 0, ""), found(1, 1, ""), found(2, 2, "")])
    );
    assert_eq!(search_text("äb", "x*"), Ok(vec![found(0, 0, ""), found(1, 1, ""), found(2, 2, "")]));
}

#[test]
fn adjacent_matches_share_a_boundary() {
    assert_eq!(
        search_text("a1b2", "[a-z][0-9]"),
        Ok(vec![found(0, 2, "a1"), found(2, 4, "b2")])
    );
}

#[test]
fn four_byte_characters_count_once() {
    // U+1F600 takes four bytes in UTF-8.
    assert_eq!(search_text("\u{1f600}x\u{1f600}y", "[xy]"), Ok(vec![found(1, 2, "x"), found(3, 4, "y")]));
}

#[test]
fn spans_become_character_offsets() {
    let text = "héllo wörld";
    let spans = vec![(0usize, 6usize), (7usize, 13usize)];
    assert_eq!(matches_from_spans(text, &spans), vec![found(0, 5, "héllo"), found(6, 11, "wörld")]);
}

#[test]
fn span_at_the_end_of_the_text() {
    let spans = vec![(3usize, 3usize)];
    assert_eq!(matches_from_spans("日", &spans), vec![found(1, 1, "")]);
}

#[test]
fn no_spans_become_the_placeholder() {
    let spans: Vec<(usize, usize)> = Vec::new();
    assert_eq!(matches_from_spans("héllo", &spans), vec![found(0, 0, "")]);
    assert_eq!(matches_from_spans("", &spans), vec![found(0, 0, "")]);
}

#[test]
fn search_after_clear_sees_nothing() {
    let mut session = session_holding(b"ab12cd34");
    session.clear();
    assert_eq!(session.search("[0-9]+"), Ok(vec![found(0, 0, "")]));
}

#[test]
fn search_sees_chunks_joined() {
    let mut session = session_holding(b"ab1");
    assert_eq!(session.end_iteration(PortEvent::Delivered(b"2cd".to_vec())), Ok(()));
    assert_eq!(session.search("[0-9]+"), Ok(vec![found(2, 4, "12")]));
}
