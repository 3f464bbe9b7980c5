//! Bytes to text and back: the permissive decoding of a chunk and the line
//! framing of what is written out.

use vstd::prelude::*;
use vstd::utf8::{decode_utf8, valid_utf8};

verus! {

/// The line feed byte.
pub const LF: u8 = 10;

/// The carriage return byte.
pub const CR: u8 = 13;

/// The text that `String::from_utf8_lossy` gives for a byte sequence: the
/// decoded text, with U+FFFD in place of every part that is not valid UTF-8.
pub uninterp spec fn lossy_text(bytes: Seq<u8>) -> Seq<char>;

/// Calls `String::from_utf8_lossy` and owns the result, which depends on the
/// bytes alone. Valid UTF-8 decodes to the text that it encodes.
#[verifier::external_body]
pub(crate) fn decode_lossy(bytes: &[u8]) -> (out: String)
    ensures
        out@ == lossy_text(bytes@),
        valid_utf8(bytes@) ==> out@ == decode_utf8(bytes@),
{
    String::from_utf8_lossy(bytes).into_owned()
}

/// Whether the byte at `i` survives line framing. A carriage return directly
/// before a line feed is dropped, and so is a line feed that ends the text.
pub open spec fn kept(bytes: Seq<u8>, i: int) -> bool {
    &&& !(bytes[i] == CR && i + 1 < bytes.len() && bytes[i + 1] == LF)
    &&& !(bytes[i] == LF && i + 1 == bytes.len())
}

/// The surviving bytes among the first `n`, in order.
pub open spec fn kept_prefix(bytes: Seq<u8>, n: int) -> Seq<u8>
    decreases n,
{
    if n <= 0 {
        Seq::empty()
    } else if kept(bytes, n - 1) {
        kept_prefix(bytes, n - 1).push(bytes[n - 1])
    } else {
        kept_prefix(bytes, n - 1)
    }
}

/// The text split into lines and joined again with one line feed between
/// them: line ends written as carriage return and line feed become a line
/// feed, and a line feed at the very end is not written back.
pub open spec fn line_joined(bytes: Seq<u8>) -> Seq<u8> {
    kept_prefix(bytes, bytes.len() as int)
}

/// Splits the text into lines and joins them with single line feeds.
pub fn join_lines(bytes: &[u8]) -> (out: Vec<u8>)
    ensures
        out@ == line_joined(bytes@),
{
    let n = bytes.len();
    let mut out: Vec<u8> = Vec::new();
    let mut i: usize = 0;
    while i < n
        invariant
            n == bytes.len(),
            i <= n,
            out@ == kept_prefix(bytes@, i as int),
        decreases n - i,
    {
        let b = bytes[i];
        let before_feed = i + 1 < n && bytes[i + 1] == LF;
        let last = i + 1 == n;
        if !(b == CR && before_feed) && !(b == LF && last) {
            out.push(b);
        }
        i += 1;
    }
    out
}

/// Framing is the identity on a text that holds no carriage return before a
/// line feed and does not end in a line feed.
pub proof fn law_framing_keeps_plain_text(bytes: Seq<u8>)
    requires
        forall|i: int| 0 <= i < bytes.len() ==> kept(bytes, i),
    ensures
        line_joined(bytes) == bytes,
{
    lemma_kept_prefix_all(bytes, bytes.len() as int);
    assert(bytes.take(bytes.len() as int) =~= bytes);
}

proof fn lemma_kept_prefix_all(bytes: Seq<u8>, n: int)
    requires
        0 <= n <= bytes.len(),
        forall|i: int| 0 <= i < bytes.len() ==> kept(bytes, i),
    ensures
        kept_prefix(bytes, n) == bytes.take(n),
    decreases n,
{
    if n > 0 {
        lemma_kept_prefix_all(bytes, n - 1);
        assert(bytes.take(n) =~= bytes.take(n - 1).push(bytes[n - 1]));
    } else {
        assert(bytes.take(0) =~= Seq::empty());
    }
}

} // verus!
