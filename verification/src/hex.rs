//! Hexadecimal text, as used for raw transactions on the wire.

use vstd::prelude::*;

verus! {

broadcast use vstd::utf8::group_utf8_lib;

/// The value of one hexadecimal digit byte, in either case.
pub open spec fn hex_digit_value(b: u8) -> Option<u8> {
    if 48 <= b && b <= 57 {
        Some((b - 48) as u8)
    } else if 97 <= b && b <= 102 {
        Some((b - 87) as u8)
    } else if 65 <= b && b <= 70 {
        Some((b - 55) as u8)
    } else {
        None
    }
}

/// Decodes consecutive pairs of hexadecimal digits into bytes.
pub open spec fn hex_pairs(s: Seq<u8>) -> Option<Seq<u8>>
    decreases s.len(),
{
    if s.len() == 0 {
        Some(Seq::empty())
    } else if s.len() == 1 {
        None
    } else {
        match (hex_digit_value(s[0]), hex_digit_value(s[1]), hex_pairs(s.skip(2))) {
            (Some(h), Some(l), Some(rest)) => Some(seq![(h * 16 + l) as u8] + rest),
            _ => None,
        }
    }
}

/// The input without a leading `0x` or `0X`.
pub open spec fn strip_hex_prefix(s: Seq<u8>) -> Seq<u8> {
    if s.len() >= 2 && s[0] == 48 && (s[1] == 120 || s[1] == 88) {
        s.skip(2)
    } else {
        s
    }
}

/// Hexadecimal decoding of a byte text: an input of odd length is refused,
/// a `0x`/`0X` prefix is dropped, and every remaining pair of digits gives
/// one byte.
pub open spec fn hex_decoding(s: Seq<u8>) -> Option<Seq<u8>> {
    if s.len() % 2 != 0 {
        None
    } else {
        hex_pairs(strip_hex_prefix(s))
    }
}

/// The lowercase hexadecimal digit for a value below 16.
pub open spec fn hex_char(n: u8) -> char {
    if n < 10 {
        (48 + n) as char
    } else {
        (87 + n) as char
    }
}

/// Lowercase hexadecimal encoding: two digits per byte, high nibble first.
pub open spec fn hex_encoding(b: Seq<u8>) -> Seq<char>
    decreases b.len(),
{
    if b.len() == 0 {
        Seq::empty()
    } else {
        seq![hex_char(b[0] / 16), hex_char(b[0] % 16)] + hex_encoding(b.drop_first())
    }
}

/// The bytes of an ASCII text, one per character.
pub open spec fn char_bytes(s: Seq<char>) -> Seq<u8> {
    s.map_values(|c: char| c as u8)
}

/// `0x` followed by the lowercase hexadecimal encoding.
pub open spec fn prefixed_hex(b: Seq<u8>) -> Seq<char> {
    seq!['0', 'x'] + hex_encoding(b)
}

/// Decodes hexadecimal text with `alloy::hex::decode`.
///
/// Its documentation and source: the input's bytes must be of even length,
/// an optional `0x`/`0X` prefix is stripped, and every pair of digits (either
/// case) becomes a byte; anything else is an error, which is dropped here.
#[verifier::external_body]
pub(crate) fn decode_hex(s: &str) -> (r: Option<Vec<u8>>)
    ensures
        match r {
            Some(v) => hex_decoding(vstd::utf8::encode_utf8(s@)) == Some(v@),
            None => hex_decoding(vstd::utf8::encode_utf8(s@)) is None,
        },
{
    alloy::hex::decode(s).ok()
}

/// Encodes bytes as lowercase hexadecimal text with `alloy::hex::encode`,
/// which writes two lowercase digits per byte and no prefix.
#[verifier::external_body]
pub(crate) fn encode_hex(data: &[u8]) -> (r: String)
    ensures
        r@ == hex_encoding(data@),
{
    alloy::hex::encode(data)
}

/// Hexadecimal encoding has two characters per byte, all of them ASCII
/// hexadecimal digits.
pub proof fn lemma_hex_encoding_shape(b: Seq<u8>)
    ensures
        hex_encoding(b).len() == 2 * b.len(),
        vstd::utf8::is_ascii_chars(hex_encoding(b)),
        forall|i: int|
            0 <= i < hex_encoding(b).len() ==> hex_digit_value(#[trigger] hex_encoding(b)[i] as u8) is Some,
        forall|i: int|
            0 <= i < hex_encoding(b).len() ==> !('A' <= #[trigger] hex_encoding(b)[i] <= 'Z'),
    decreases b.len(),
{
    if b.len() > 0 {
        lemma_hex_encoding_shape(b.drop_first());
        let head = seq![hex_char(b[0] / 16), hex_char(b[0] % 16)];
        let tail = hex_encoding(b.drop_first());
        assert(hex_encoding(b) == head + tail);
        assert forall|i: int| 0 <= i < hex_encoding(b).len() implies
            hex_digit_value(#[trigger] hex_encoding(b)[i] as u8) is Some
            && '\0' <= hex_encoding(b)[i] <= '\u{7f}'
            && !('A' <= hex_encoding(b)[i] <= 'Z') by {
            if i >= 2 {
                assert(hex_encoding(b)[i] == tail[i - 2]);
            }
        }
    }
}

/// Decoding the bytes of an encoding gives back the encoded bytes.
proof fn lemma_hex_pairs_inverts_encoding(b: Seq<u8>)
    ensures
        hex_pairs(char_bytes(hex_encoding(b))) == Some(b),
    decreases b.len(),
{
    if b.len() > 0 {
        lemma_hex_pairs_inverts_encoding(b.drop_first());
        let enc = hex_encoding(b);
        let tail = hex_encoding(b.drop_first());
        lemma_hex_encoding_shape(b.drop_first());
        assert(enc == seq![hex_char(b[0] / 16), hex_char(b[0] % 16)] + tail);
        assert(char_bytes(enc).skip(2) =~= char_bytes(tail));
        let h = b[0] / 16;
        let l = b[0] % 16;
        assert(hex_digit_value(hex_char(h) as u8) == Some(h));
        assert(hex_digit_value(hex_char(l) as u8) == Some(l));
        assert(char_bytes(enc)[0] == hex_char(h) as u8);
        assert(char_bytes(enc)[1] == hex_char(l) as u8);
        assert((h * 16 + l) as u8 == b[0]);
        assert(seq![b[0]] + b.drop_first() =~= b);
    }
}

/// What is written as `0x` and lowercase hexadecimal decodes back to the
/// bytes that were written: a raw transaction formatted by the load
/// generator is read back unchanged by the RPC server.
pub proof fn lemma_prefixed_hex_roundtrip(b: Seq<u8>)
    ensures
        hex_decoding(vstd::utf8::encode_utf8(prefixed_hex(b))) == Some(b),
{
    lemma_hex_encoding_shape(b);
    let t = prefixed_hex(b);
    assert(vstd::utf8::is_ascii_chars(t)) by {
        assert forall|i: int| 0 <= i < t.len() implies '\0' <= #[trigger] t[i] <= '\u{7f}' by {
            if i >= 2 {
                assert(t[i] == hex_encoding(b)[i - 2]);
            }
        }
    }
    let bytes = vstd::utf8::encode_utf8(t);
    assert(bytes =~= char_bytes(t));
    assert(bytes.len() % 2 == 0);
    assert(strip_hex_prefix(bytes) =~= char_bytes(hex_encoding(b)));
    lemma_hex_pairs_inverts_encoding(b);
}

/// ASCII lower-casing of one byte.
pub open spec fn lower_byte(b: u8) -> u8 {
    if 65 <= b && b <= 90 {
        (b + 32) as u8
    } else {
        b
    }
}

/// Digits are read the same in either case.
proof fn lemma_hex_pairs_ignore_case(s1: Seq<u8>, s2: Seq<u8>)
    requires
        s1.len() == s2.len(),
        forall|i: int| 0 <= i < s1.len() ==> lower_byte(#[trigger] s1[i]) == lower_byte(s2[i]),
    ensures
        hex_pairs(s1) == hex_pairs(s2),
    decreases s1.len(),
{
    if s1.len() >= 2 {
        assert(hex_digit_value(s1[0]) == hex_digit_value(s2[0])) by {
            assert(lower_byte(s1[0]) == lower_byte(s2[0]));
        }
        assert(hex_digit_value(s1[1]) == hex_digit_value(s2[1])) by {
            assert(lower_byte(s1[1]) == lower_byte(s2[1]));
        }
        assert forall|i: int| 0 <= i < s1.skip(2).len() implies lower_byte(#[trigger] s1.skip(2)[i])
            == lower_byte(s2.skip(2)[i]) by {
            assert(lower_byte(s1[i + 2]) == lower_byte(s2[i + 2]));
        }
        lemma_hex_pairs_ignore_case(s1.skip(2), s2.skip(2));
    }
}

/// The byte of an ASCII character, lower-cased, is the byte of the
/// character lower-cased.
proof fn lemma_lower_byte_of_char(c: char)
    requires
        '\0' <= c <= '\u{7f}',
    ensures
        lower_byte(c as u8) == crate::text::ascii_lower_char(c) as u8,
        (c as u8) as int == c as int,
{
    assert((c as u32) < 128);
}

/// Hexadecimal text is read without regard to ASCII case: two ASCII texts
/// that lower-case alike decode alike.
pub proof fn lemma_hex_decoding_ignores_case(t1: Seq<char>, t2: Seq<char>)
    requires
        vstd::utf8::is_ascii_chars(t1),
        vstd::utf8::is_ascii_chars(t2),
        crate::text::ascii_lower(t1) == crate::text::ascii_lower(t2),
    ensures
        hex_decoding(vstd::utf8::encode_utf8(t1)) == hex_decoding(vstd::utf8::encode_utf8(t2)),
{
    let b1 = vstd::utf8::encode_utf8(t1);
    let b2 = vstd::utf8::encode_utf8(t2);
    assert(t1.len() == crate::text::ascii_lower(t1).len());
    assert(t2.len() == crate::text::ascii_lower(t2).len());
    assert(b1.len() == t1.len() && b2.len() == t2.len());
    assert forall|i: int| 0 <= i < b1.len() implies lower_byte(#[trigger] b1[i]) == lower_byte(b2[i]) by {
        assert(crate::text::ascii_lower(t1)[i] == crate::text::ascii_lower_char(t1[i]));
        assert(crate::text::ascii_lower(t2)[i] == crate::text::ascii_lower_char(t2[i]));
        assert(crate::text::ascii_lower(t1)[i] == crate::text::ascii_lower(t2)[i]);
        assert(b1[i] == t1[i] as u8);
        assert(b2[i] == t2[i] as u8);
        lemma_lower_byte_of_char(t1[i]);
        lemma_lower_byte_of_char(t2[i]);
    }
    let p1 = strip_hex_prefix(b1);
    let p2 = strip_hex_prefix(b2);
    if b1.len() >= 2 {
        assert(lower_byte(b1[0]) == lower_byte(b2[0]));
        assert(lower_byte(b1[1]) == lower_byte(b2[1]));
    }
    assert(p1.len() == p2.len());
    assert forall|i: int| 0 <= i < p1.len() implies lower_byte(#[trigger] p1[i]) == lower_byte(p2[i]) by {
        if b1.len() >= 2 && b1[0] == 48 && (b1[1] == 120 || b1[1] == 88) {
            assert(p1[i] == b1[i + 2]);
            assert(p2[i] == b2[i + 2]);
        } else {
            assert(p1[i] == b1[i]);
            assert(p2[i] == b2[i]);
        }
    }
    lemma_hex_pairs_ignore_case(p1, p2);
}

/// `0x` and lowercase hexadecimal is ASCII text that lower-casing leaves
/// unchanged.
pub proof fn lemma_prefixed_hex_lowercase(b: Seq<u8>)
    ensures
        vstd::utf8::is_ascii_chars(prefixed_hex(b)),
        crate::text::ascii_lower(prefixed_hex(b)) == prefixed_hex(b),
{
    lemma_hex_encoding_shape(b);
    let t = prefixed_hex(b);
    assert forall|i: int| 0 <= i < t.len() implies '\0' <= #[trigger] t[i] <= '\u{7f}'
        && !('A' <= t[i] <= 'Z') by {
        if i >= 2 {
            assert(t[i] == hex_encoding(b)[i - 2]);
        }
    }
    assert(crate::text::ascii_lower(t) =~= t);
}

} // verus!
