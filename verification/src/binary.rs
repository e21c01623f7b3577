//! Classifying raw content as binary or text before any highlighting.
//!
//! Content that is valid UTF-8 is text, and that check is authoritative.
//! Anything else is handed to a MIME sniffer: a sniffed type whose top-level
//! category is `text` still counts as text; any other sniffed type, or none
//! at all, counts as binary (undeterminable content is unsafe to render).

use mime_sniffer::MimeTypeSniffer;
use vstd::prelude::*;
use vstd::string::StrSliceExecFns;
use vstd::utf8::valid_utf8;

verus! {

/// The MIME type that `mime_sniffer` assigns to these bytes, if any; a pure
/// function of the bytes.
pub uninterp spec fn sniffed_mime(bytes: Seq<u8>) -> Option<Seq<char>>;

/// Whether a sniffed MIME type has the top-level category `text`.
pub open spec fn is_text_mime(m: Seq<char>) -> bool {
    m.len() >= 5 && m.subrange(0, 5) == "text/"@
}

/// What the binary detector decides for these bytes.
pub open spec fn spec_is_binary(bytes: Seq<u8>) -> bool {
    if valid_utf8(bytes) {
        false
    } else {
        match sniffed_mime(bytes) {
            Some(m) => !is_text_mime(m),
            None => true,
        }
    }
}

/// Relies on core::str::from_utf8, which returns `Ok` exactly when the bytes
/// are valid UTF-8.
#[verifier::external_body]
fn utf8_check(content: &[u8]) -> (r: bool)
    ensures
        r == valid_utf8(content@),
{
    core::str::from_utf8(content).is_ok()
}

/// Relies on mime_sniffer::MimeTypeSniffer::sniff_mime_type for byte slices,
/// which sniffs a MIME type from the bytes alone.
#[verifier::external_body]
fn sniff_mime(content: &[u8]) -> (r: Option<String>)
    ensures
        match r {
            Some(m) => sniffed_mime(content@) == Some(m@),
            None => sniffed_mime(content@) is None,
        },
{
    content.sniff_mime_type().map(|m| m.to_string())
}

/// Whether the MIME type `m` starts with `"text/"`.
fn mime_is_text(m: &str) -> (r: bool)
    ensures
        r == is_text_mime(m@),
{
    proof {
        reveal_strlit("text/");
    }
    let n = m.unicode_len();
    if n < 5 {
        return false;
    }
    let r = m.get_char(0) == 't' && m.get_char(1) == 'e' && m.get_char(2) == 'x' && m.get_char(3)
        == 't' && m.get_char(4) == '/';
    proof {
        if r {
            assert(m@.subrange(0, 5) =~= "text/"@);
        } else {
            assert(m@.subrange(0, 5)[0] == m@[0]);
            assert(m@.subrange(0, 5)[1] == m@[1]);
            assert(m@.subrange(0, 5)[2] == m@[2]);
            assert(m@.subrange(0, 5)[3] == m@[3]);
            assert(m@.subrange(0, 5)[4] == m@[4]);
        }
    }
    r
}

/// Classifies `content` as binary or text.
pub fn is_binary(content: &[u8]) -> (r: bool)
    ensures
        r == spec_is_binary(content@),
{
    if utf8_check(content) {
        return false;
    }
    match sniff_mime(content) {
        Some(m) => !mime_is_text(m.as_str()),
        None => true,
    }
}

} // verus!
