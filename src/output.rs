use vstd::prelude::*;
use vstd::utf8::{valid_utf8, decode_utf8, encode_utf8, encode_utf8_valid_utf8, encode_utf8_decode_utf8};

verus! {

/// The text that lossy UTF-8 decoding makes of `bytes`.
pub uninterp spec fn lossy_text(bytes: Seq<u8>) -> Seq<char>;

/// Relies on `String::from_utf8_lossy`: its text depends on the bytes alone,
/// no bytes give no text, and valid UTF-8 comes back as the text it encodes.
/// Invalid sequences become replacement characters; that is left unstated.
#[verifier::external_body]
fn decode_lossy(bytes: &[u8]) -> (r: String)
    ensures
        r@ == lossy_text(bytes@),
        bytes@.len() == 0 ==> r@.len() == 0,
        valid_utf8(bytes@) ==> r@ == decode_utf8(bytes@),
{
    String::from_utf8_lossy(bytes).into_owned()
}

/// `text` without its last character when that is a line feed, else `text`.
pub open spec fn strip_line_end(text: Seq<char>) -> Seq<char> {
    if text.len() > 0 && text.last() == '\n' {
        text.drop_last()
    } else {
        text
    }
}

/// Removes exactly one trailing line feed, if there is one.
pub fn trim_line_end(text: String) -> (r: String)
    ensures
        r@ == strip_line_end(text@),
{
    let n = text.as_str().unicode_len();
    if n > 0 && text.as_str().get_char(n - 1) == '\n' {
        let r = String::from_str(text.as_str().substring_char(0, n - 1));
        proof {
            assert(r@ =~= text@.drop_last());
        }
        r
    } else {
        text
    }
}

/// The text that a pipeline's collected output stands for: decoded, then
/// without one trailing line feed.
pub open spec fn collected_text(bytes: Seq<u8>) -> Seq<char> {
    if valid_utf8(bytes) {
        strip_line_end(decode_utf8(bytes))
    } else {
        strip_line_end(lossy_text(bytes))
    }
}

/// Decodes collected output and removes one trailing line feed.
pub fn decode_output(bytes: &[u8]) -> (r: String)
    ensures
        r@ == collected_text(bytes@),
        r@ == strip_line_end(lossy_text(bytes@)),
{
    trim_line_end(decode_lossy(bytes))
}

/// Output that is the bytes of a text `t` is collected as `t` without one
/// trailing line feed: with a line feed at the end, exactly that one goes;
/// without one, `t` comes back unchanged, so collecting again the bytes of
/// what was collected changes nothing.
pub proof fn lemma_collected_text_of_text(t: Seq<char>)
    ensures
        collected_text(encode_utf8(t)) == strip_line_end(t),
        t.len() > 0 && t.last() == '\n' ==> collected_text(encode_utf8(t)).push('\n') == t,
        !(t.len() > 0 && t.last() == '\n') ==> collected_text(encode_utf8(t)) == t,
        !(t.len() > 0 && t.last() == '\n') ==> collected_text(encode_utf8(collected_text(encode_utf8(t)))) == collected_text(encode_utf8(t)),
{
    encode_utf8_valid_utf8(t);
    encode_utf8_decode_utf8(t);
    if t.len() > 0 && t.last() == '\n' {
        assert(t.drop_last().push('\n') =~= t);
    }
}

/// Stripping removes one line feed at the end and nothing else: the result
/// followed by that line feed is the input.
pub proof fn lemma_strip_removes_one_terminator(text: Seq<char>)
    requires
        text.len() > 0,
        text.last() == '\n',
    ensures
        strip_line_end(text).push('\n') == text,
        strip_line_end(text).len() + 1 == text.len(),
{
    assert(text.drop_last().push('\n') =~= text);
}

/// Text without a trailing line feed comes back unchanged, so stripping
/// again what no longer ends in one changes nothing.
pub proof fn lemma_strip_keeps_unterminated(text: Seq<char>)
    requires
        !(text.len() > 0 && text.last() == '\n'),
    ensures
        strip_line_end(text) == text,
        strip_line_end(strip_line_end(text)) == strip_line_end(text),
{
}

/// Stripping twice is stripping once, unless the text ends in two line feeds.
pub proof fn lemma_strip_idempotent(text: Seq<char>)
    requires
        !(text.len() >= 2 && text[text.len() - 1] == '\n' && text[text.len() - 2] == '\n'),
    ensures
        strip_line_end(strip_line_end(text)) == strip_line_end(text),
{
}

} // verus!
