//! Texts and their prefixes.
use vstd::prelude::*;
use vstd::string::{StrSliceExecFns, StringExecFns};
use vstd::utf8::{
    char_u32_cast, decode_first_scalar, encode_scalar, encode_utf8, encode_utf8_first_scalar,
};

verus! {

/// The text of an optional string.
pub open spec fn opt_text(text: Option<String>) -> Option<Seq<char>> {
    match text {
        Some(t) => Some(t@),
        None => None,
    }
}

/// The texts of a sequence of strings.
pub open spec fn texts(strings: Seq<String>) -> Seq<Seq<char>> {
    strings.map_values(|s: String| s@)
}

/// A text begins with a prefix character for character exactly where the
/// bytes of the text in UTF-8 begin with the bytes of the prefix.
pub proof fn lemma_prefix_in_bytes(prefix: Seq<char>, text: Seq<char>)
    ensures
        prefix.is_prefix_of(text) <==> encode_utf8(prefix).is_prefix_of(encode_utf8(text)),
    decreases prefix.len(),
{
    if prefix.len() > 0 {
        encode_utf8_first_scalar(prefix);
        if text.len() > 0 {
            let p = encode_utf8(prefix);
            let t = encode_utf8(text);
            let head = encode_scalar(prefix[0] as u32);
            let rest_p = encode_utf8(prefix.drop_first());
            let rest_t = encode_utf8(text.drop_first());
            encode_utf8_first_scalar(text);
            lemma_prefix_in_bytes(prefix.drop_first(), text.drop_first());
            if p.is_prefix_of(t) {
                // The two begin with the same character, since its bytes are the same.
                assert forall|i: int| 0 <= i < head.len() implies p[i] == t[i] by {}
                char_u32_cast(prefix[0], decode_first_scalar(p));
                char_u32_cast(text[0], decode_first_scalar(t));
                // What follows that character begins alike in bytes, hence in characters.
                assert(rest_p =~= rest_t.subrange(0, rest_p.len() as int)) by {
                    assert forall|i: int| 0 <= i < rest_p.len() implies rest_p[i] == rest_t[i] by {
                        assert(p[head.len() + i] == t.subrange(0, p.len() as int)[head.len() + i]);
                    }
                }
                assert(prefix =~= text.subrange(0, prefix.len() as int)) by {
                    assert forall|i: int| 0 <= i < prefix.len() implies prefix[i] == text[i] by {
                        if i > 0 {
                            assert(prefix.drop_first()[i - 1] == text.drop_first().subrange(
                                0,
                                prefix.len() - 1,
                            )[i - 1]);
                        }
                    }
                }
            }
        }
    }
}

/// Whether `text` begins with `prefix`, character for character, which is
/// to say byte for byte.
pub fn starts_with(text: &str, prefix: &str) -> (begins: bool)
    ensures
        begins == prefix@.is_prefix_of(text@),
        begins == encode_utf8(prefix@).is_prefix_of(encode_utf8(text@)),
{
    proof {
        lemma_prefix_in_bytes(prefix@, text@);
    }
    let n = prefix.unicode_len();
    if n > text.unicode_len() {
        return false;
    }
    let mut i: usize = 0;
    while i < n
        invariant
            i <= n,
            n == prefix@.len(),
            n <= text@.len(),
            prefix@.subrange(0, i as int) == text@.subrange(0, i as int),
            prefix@.is_prefix_of(text@) <==> encode_utf8(prefix@).is_prefix_of(encode_utf8(text@)),
        decreases n - i,
    {
        if prefix.get_char(i) != text.get_char(i) {
            return false;
        }
        i += 1;
    }
    true
}

/// What follows `prefix` in `text`, if `text` begins with it.
pub fn strip_prefix(text: &str, prefix: &str) -> (rest: Option<String>)
    ensures
        opt_text(rest) == if prefix@.is_prefix_of(text@) {
            Some(text@.skip(prefix@.len() as int))
        } else {
            None
        },
{
    if starts_with(text, prefix) {
        let rest = text.substring_char(prefix.unicode_len(), text.unicode_len());
        Some(String::from_str(rest))
    } else {
        None
    }
}

} // verus!
