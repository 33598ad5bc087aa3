//! ASCII case folding of selector names.
//!
//! Names are compared as sequences of characters. The comparison itself
//! runs over the bytes of their UTF-8 encoding, and the lemmas of this
//! module show that the two agree.

use vstd::prelude::*;
use vstd::utf8::{
    char_is_scalar, encode_scalar, encode_utf8, encode_utf8_decode_utf8, has_width_1_encoding,
};

verus! {

/// The lower-case form of an ASCII upper-case letter; any other character
/// is left as it is.
pub open spec fn ascii_lowercase(c: char) -> char {
    if 'A' <= c <= 'Z' {
        ((c as u8) + 32) as char
    } else {
        c
    }
}

/// `s` with every ASCII upper-case letter replaced by its lower-case form.
pub open spec fn to_ascii_lowercase(s: Seq<char>) -> Seq<char> {
    Seq::new(s.len(), |i: int| ascii_lowercase(s[i]))
}

/// Two names are the same up to the case of their ASCII letters.
pub open spec fn eq_ignore_ascii_case(a: Seq<char>, b: Seq<char>) -> bool {
    to_ascii_lowercase(a) == to_ascii_lowercase(b)
}

/// The byte of the lower-case form where `b` is the byte of an ASCII
/// upper-case letter; any other byte is left as it is.
pub open spec fn spec_ascii_lowercase_byte(b: u8) -> u8 {
    if 0x41 <= b <= 0x5a {
        (b + 32) as u8
    } else {
        b
    }
}

/// `bytes` with the byte of every ASCII upper-case letter replaced by that
/// of its lower-case form.
pub open spec fn fold_bytes(bytes: Seq<u8>) -> Seq<u8> {
    Seq::new(bytes.len(), |i: int| spec_ascii_lowercase_byte(bytes[i]))
}

/// Folding a character folds the bytes of its encoding: a character
/// outside ASCII has no byte in the range of ASCII.
proof fn lemma_fold_encoded_char(c: char)
    ensures
        encode_scalar(ascii_lowercase(c) as u32) == fold_bytes(encode_scalar(c as u32)),
{
    let s = c as u32;
    char_is_scalar(c);
    if has_width_1_encoding(s) {
        let low = ascii_lowercase(c) as u32;
        assert((s & 0x7F) as u8 == s && (low & 0x7F) as u8 == low) by (bit_vector)
            requires
                s <= 0x7F,
                low <= 0x7F,
        ;
    } else {
        assert(ascii_lowercase(c) == c);
        assert(forall|v: u8|
            #![auto]
            (0xC0u8 | v) >= 0x80 && (0xE0u8 | v) >= 0x80 && (0xF0u8 | v) >= 0x80 && (0x80u8 | v)
                >= 0x80) by (bit_vector);
    }
    assert(encode_scalar(ascii_lowercase(c) as u32) =~= fold_bytes(encode_scalar(s)));
}

/// Folding a name folds the bytes of its encoding.
proof fn lemma_fold_encoded(s: Seq<char>)
    ensures
        encode_utf8(to_ascii_lowercase(s)) == fold_bytes(encode_utf8(s)),
    decreases s.len(),
{
    if s.len() > 0 {
        let low = to_ascii_lowercase(s);
        lemma_fold_encoded_char(s[0]);
        lemma_fold_encoded(s.drop_first());
        assert(low.drop_first() =~= to_ascii_lowercase(s.drop_first()));
        assert(fold_bytes(encode_scalar(s[0] as u32) + encode_utf8(s.drop_first()))
            =~= fold_bytes(encode_scalar(s[0] as u32)) + fold_bytes(
            encode_utf8(s.drop_first()),
        ));
    } else {
        assert(encode_utf8(to_ascii_lowercase(s)) =~= fold_bytes(encode_utf8(s)));
    }
}

/// Two names are the same up to ASCII case exactly when the bytes of their
/// encodings are.
pub proof fn lemma_eq_ignore_ascii_case_by_bytes(a: Seq<char>, b: Seq<char>)
    ensures
        eq_ignore_ascii_case(a, b) <==> fold_bytes(encode_utf8(a)) == fold_bytes(encode_utf8(b)),
{
    lemma_fold_encoded(a);
    lemma_fold_encoded(b);
    encode_utf8_decode_utf8(to_ascii_lowercase(a));
    encode_utf8_decode_utf8(to_ascii_lowercase(b));
}

/// The lower-case form of a byte of ASCII text.
fn ascii_lowercase_byte(b: u8) -> (r: u8)
    ensures
        r == spec_ascii_lowercase_byte(b),
{
    if 0x41 <= b && b <= 0x5a {
        b + 32
    } else {
        b
    }
}

/// Whether two names are the same up to the case of their ASCII letters.
pub fn names_match(a: &str, b: &str) -> (r: bool)
    ensures
        r == eq_ignore_ascii_case(a@, b@),
{
    let a_bytes: &[u8] = a.as_bytes();
    let b_bytes: &[u8] = b.as_bytes();
    proof {
        lemma_eq_ignore_ascii_case_by_bytes(a@, b@);
    }
    let n: usize = a_bytes.len();
    if n != b_bytes.len() {
        assert(fold_bytes(a_bytes@).len() != fold_bytes(b_bytes@).len());
        return false;
    }
    let mut i: usize = 0;
    while i < n
        invariant
            a_bytes@ == encode_utf8(a@),
            b_bytes@ == encode_utf8(b@),
            n == a_bytes@.len(),
            n == b_bytes@.len(),
            i <= n,
            forall|j: int|
                0 <= j < i ==> spec_ascii_lowercase_byte(#[trigger] a_bytes@[j])
                    == spec_ascii_lowercase_byte(b_bytes@[j]),
        decreases n - i,
    {
        if ascii_lowercase_byte(a_bytes[i]) != ascii_lowercase_byte(b_bytes[i]) {
            proof {
                lemma_eq_ignore_ascii_case_by_bytes(a@, b@);
                assert(fold_bytes(a_bytes@)[i as int] != fold_bytes(b_bytes@)[i as int]);
            }
            return false;
        }
        i += 1;
    }
    proof {
        lemma_eq_ignore_ascii_case_by_bytes(a@, b@);
        assert(fold_bytes(a_bytes@) =~= fold_bytes(b_bytes@));
    }
    true
}

} // verus!
