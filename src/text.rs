use vstd::prelude::*;

verus! {

/// The text that lossy UTF-8 decoding makes of `b`: invalid sequences are
/// replaced by U+FFFD.
pub uninterp spec fn utf8_lossy(b: Seq<u8>) -> Seq<char>;

/// Relies on `String::from_utf8_lossy`: its text depends on the bytes alone,
/// and no bytes give no text.
#[verifier::external_body]
fn decode_utf8_lossy(bytes: &[u8]) -> (r: String)
    ensures
        r@ == utf8_lossy(bytes@),
        bytes@.len() == 0 ==> r@.len() == 0,
{
    String::from_utf8_lossy(bytes).into_owned()
}

/// Decodes bytes as UTF-8, replacing invalid sequences.
pub fn decode_bytes(bytes: &Vec<u8>) -> (r: String)
    ensures
        r@ == utf8_lossy(bytes@),
{
    decode_utf8_lossy(bytes.as_slice())
}

/// Whether `e` is where the text in `s` ends: at the first zero byte, or at
/// the end of `s` where it holds none.
pub open spec fn is_text_end(s: Seq<u8>, e: int) -> bool {
    &&& 0 <= e <= s.len()
    &&& forall|j: int| 0 <= j < e ==> s[j] != 0
    &&& e < s.len() ==> s[e] == 0
}

/// Where the text in `s` ends.
pub open spec fn text_end(s: Seq<u8>) -> int {
    choose|e: int| is_text_end(s, e)
}

/// There is exactly one place where a text ends.
pub proof fn lemma_text_end_unique(s: Seq<u8>, e: int)
    requires
        is_text_end(s, e),
    ensures
        text_end(s) == e,
{
    let c = text_end(s);
    assert(is_text_end(s, c));
    if c < e {
        assert(s[c] != 0);
    } else if e < c {
        assert(s[e] != 0);
    }
}

/// The text a text frame's body holds. The first byte selects the encoding:
/// for ISO-8859-1 (0) and UTF-8 (3) the text runs up to the first zero byte,
/// or to the end where there is none, and is decoded as UTF-8 with invalid
/// sequences replaced; the UTF-16 encodings (1 and 2), unknown encodings and an
/// empty body give no text.
pub open spec fn text_frame_text(body: Seq<u8>) -> Seq<char> {
    if body.len() > 0 && (body[0] == 0 || body[0] == 3) {
        let t = body.drop_first();
        utf8_lossy(t.subrange(0, text_end(t)))
    } else {
        Seq::empty()
    }
}

/// Decodes the text of a text frame's body.
pub fn decode_text(content: &Vec<u8>) -> (r: String)
    ensures
        r@ == text_frame_text(content@),
{
    if content.len() == 0 || (content[0] != 0 && content[0] != 3) {
        return String::new();
    }
    let len = content.len();
    let ghost t = content@.drop_first();
    let mut i: usize = 1;
    while i < len && content[i] != 0
        invariant
            len == content@.len(),
            1 <= i <= len,
            t == content@.drop_first(),
            forall|j: int| 0 <= j < i - 1 ==> t[j] != 0,
        decreases len - i,
    {
        i = i + 1;
    }
    let end = i;
    let mut text: Vec<u8> = Vec::with_capacity(end - 1);
    let mut k: usize = 1;
    while k < end
        invariant
            end <= len,
            len == content@.len(),
            1 <= k <= end,
            text@ == content@.subrange(1, k as int),
        decreases end - k,
    {
        text.push(content[k]);
        k = k + 1;
        assert(text@ =~= content@.subrange(1, k as int));
    }
    proof {
        assert(is_text_end(t, end - 1));
        lemma_text_end_unique(t, end - 1);
        assert(k == end);
        assert(text@ =~= t.subrange(0, end - 1));
    }
    decode_utf8_lossy(text.as_slice())
}

} // verus!
