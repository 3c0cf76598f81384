//! Turning received bytes into text.

use vstd::prelude::*;

verus! {

/// The text that lossy UTF-8 decoding makes of `bytes`: well-formed
/// sequences decode to their characters, and every ill-formed stretch is
/// replaced by U+FFFD instead of failing.
pub uninterp spec fn lossy_text(bytes: Seq<u8>) -> Seq<char>;

/// Decodes `bytes` with `String::from_utf8_lossy`.
///
/// Trusted, not proved: the result is the lossy decoding named by
/// [`lossy_text`].
#[verifier::external_body]
pub(crate) fn decode_lossy(bytes: &[u8]) -> (text: String)
    ensures
        text@ == lossy_text(bytes@),
{
    String::from_utf8_lossy(bytes).into_owned()
}

} // verus!
