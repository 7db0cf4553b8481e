//! Unpadded URL-safe base64 (RFC 4648, section 5, without padding): the text that the
//! base64 entry points use for seeds, keys and signatures.

use vstd::prelude::*;

verus! {

/// The character of the URL-safe alphabet for a 6-bit value.
pub open spec fn sextet_char(v: int) -> char {
    if v < 26 {
        ('A' as int + v) as char
    } else if v < 52 {
        ('a' as int + (v - 26)) as char
    } else if v < 62 {
        ('0' as int + (v - 52)) as char
    } else if v == 62 {
        '-'
    } else {
        '_'
    }
}

/// A character of the URL-safe alphabet.
pub open spec fn is_url_safe_char(c: char) -> bool {
    ('A' <= c && c <= 'Z') || ('a' <= c && c <= 'z') || ('0' <= c && c <= '9') || c == '-' || c == '_'
}

/// The unpadded URL-safe base64 text of some bytes: each group of three bytes gives
/// four characters, a final group of two bytes three, a final single byte two; the bits
/// beyond the last byte are zero.
pub open spec fn base64url(bytes: Seq<u8>) -> Seq<char>
    decreases bytes.len(),
{
    if bytes.len() == 0 {
        Seq::empty()
    } else if bytes.len() == 1 {
        let b0 = bytes[0] as int;
        seq![sextet_char(b0 / 4), sextet_char((b0 % 4) * 16)]
    } else if bytes.len() == 2 {
        let b0 = bytes[0] as int;
        let b1 = bytes[1] as int;
        seq![sextet_char(b0 / 4), sextet_char((b0 % 4) * 16 + b1 / 16), sextet_char((b1 % 16) * 4)]
    } else {
        let b0 = bytes[0] as int;
        let b1 = bytes[1] as int;
        let b2 = bytes[2] as int;
        seq![
            sextet_char(b0 / 4),
            sextet_char((b0 % 4) * 16 + b1 / 16),
            sextet_char((b1 % 16) * 4 + b2 / 64),
            sextet_char(b2 % 64),
        ] + base64url(bytes.subrange(3, bytes.len() as int))
    }
}

/// The text is the unpadded URL-safe base64 of some bytes (it is canonical).
pub open spec fn is_base64url(text: Seq<char>) -> bool {
    exists|bytes: Seq<u8>| #[trigger] base64url(bytes) == text
}

/// The bytes whose unpadded URL-safe base64 the text is.
pub open spec fn base64url_bytes(text: Seq<char>) -> Seq<u8> {
    choose|bytes: Seq<u8>| #[trigger] base64url(bytes) == text
}

/// Every character of an encoding is in the URL-safe alphabet.
pub proof fn lemma_base64url_alphabet(bytes: Seq<u8>)
    ensures
        forall|i: int| 0 <= i < base64url(bytes).len() ==> is_url_safe_char(#[trigger] base64url(bytes)[i]),
    decreases bytes.len(),
{
    assert forall|v: int| 0 <= v < 64 implies is_url_safe_char(#[trigger] sextet_char(v)) by {}
    if bytes.len() >= 3 {
        let rest = bytes.subrange(3, bytes.len() as int);
        lemma_base64url_alphabet(rest);
        let b0 = bytes[0] as int;
        let b1 = bytes[1] as int;
        let b2 = bytes[2] as int;
        let head = seq![
            sextet_char(b0 / 4),
            sextet_char((b0 % 4) * 16 + b1 / 16),
            sextet_char((b1 % 16) * 4 + b2 / 64),
            sextet_char(b2 % 64),
        ];
        assert(0 <= b0 / 4 < 64);
        assert(0 <= (b0 % 4) * 16 + b1 / 16 < 64);
        assert(0 <= (b1 % 16) * 4 + b2 / 64 < 64);
        assert(0 <= b2 % 64 < 64);
        assert(base64url(bytes) == head + base64url(rest));
        assert forall|i: int| 0 <= i < base64url(bytes).len() implies is_url_safe_char(
            #[trigger] base64url(bytes)[i],
        ) by {
            if i < 4 {
                assert(base64url(bytes)[i] == head[i]);
            } else {
                assert(base64url(bytes)[i] == base64url(rest)[i - 4]);
            }
        }
    } else if bytes.len() == 2 {
        let b0 = bytes[0] as int;
        let b1 = bytes[1] as int;
        assert(0 <= b0 / 4 < 64);
        assert(0 <= (b0 % 4) * 16 + b1 / 16 < 64);
        assert(0 <= (b1 % 16) * 4 < 64);
    } else if bytes.len() == 1 {
        let b0 = bytes[0] as int;
        assert(0 <= b0 / 4 < 64);
        assert(0 <= (b0 % 4) * 16 < 64);
    }
}

/// A text with a character outside the URL-safe alphabet is not unpadded URL-safe base64,
/// so every entry point refuses it as such.
pub proof fn lemma_outside_alphabet_is_not_base64url(text: Seq<char>, i: int)
    requires
        0 <= i < text.len(),
        !is_url_safe_char(text[i]),
    ensures
        !is_base64url(text),
{
    if is_base64url(text) {
        let bytes = base64url_bytes(text);
        lemma_base64url_alphabet(bytes);
        assert(is_url_safe_char(base64url(bytes)[i]));
    }
}

/// Distinct 6-bit values have distinct characters.
proof fn lemma_sextet_char_injective(v: int, w: int)
    requires
        0 <= v < 64,
        0 <= w < 64,
        sextet_char(v) == sextet_char(w),
    ensures
        v == w,
{
}

/// The length of an encoding: four characters per three bytes, and two or three for a
/// final group of one or two bytes.
pub proof fn lemma_base64url_len(bytes: Seq<u8>)
    ensures
        base64url(bytes).len() == 4 * (bytes.len() / 3) + (if bytes.len() % 3 == 0 {
            0
        } else {
            bytes.len() % 3 + 1
        }),
    decreases bytes.len(),
{
    if bytes.len() >= 3 {
        lemma_base64url_len(bytes.subrange(3, bytes.len() as int));
    }
}

/// Different bytes have different encodings.
pub proof fn lemma_base64url_injective(a: Seq<u8>, b: Seq<u8>)
    requires
        base64url(a) == base64url(b),
    ensures
        a == b,
    decreases a.len(),
{
    lemma_base64url_len(a);
    lemma_base64url_len(b);
    assert(a.len() == b.len());
    let n = a.len();
    if n == 0 {
        assert(a =~= b);
    } else {
        let ea = base64url(a);
        let a0 = a[0] as int;
        let b0 = b[0] as int;
        let a1 = if n >= 2 { a[1] as int } else { 0 };
        let b1 = if n >= 2 { b[1] as int } else { 0 };
        let a2 = if n >= 3 { a[2] as int } else { 0 };
        let b2 = if n >= 3 { b[2] as int } else { 0 };
        assert(ea[0] == sextet_char(a0 / 4) && ea[0] == sextet_char(b0 / 4));
        lemma_sextet_char_injective(a0 / 4, b0 / 4);
        if n == 1 {
            assert(ea[1] == sextet_char((a0 % 4) * 16) && ea[1] == sextet_char((b0 % 4) * 16));
            lemma_sextet_char_injective((a0 % 4) * 16, (b0 % 4) * 16);
            assert(a0 == b0);
            assert(a =~= b);
        } else {
            assert(ea[1] == sextet_char((a0 % 4) * 16 + a1 / 16));
            assert(ea[1] == sextet_char((b0 % 4) * 16 + b1 / 16));
            lemma_sextet_char_injective((a0 % 4) * 16 + a1 / 16, (b0 % 4) * 16 + b1 / 16);
            assert(a0 % 4 == b0 % 4 && a1 / 16 == b1 / 16);
            assert(a0 == b0);
            if n == 2 {
                assert(ea[2] == sextet_char((a1 % 16) * 4) && ea[2] == sextet_char((b1 % 16) * 4));
                lemma_sextet_char_injective((a1 % 16) * 4, (b1 % 16) * 4);
                assert(a1 == b1);
                assert(a =~= b);
            } else {
                assert(ea[2] == sextet_char((a1 % 16) * 4 + a2 / 64));
                assert(ea[2] == sextet_char((b1 % 16) * 4 + b2 / 64));
                lemma_sextet_char_injective((a1 % 16) * 4 + a2 / 64, (b1 % 16) * 4 + b2 / 64);
                assert(a1 % 16 == b1 % 16 && a2 / 64 == b2 / 64);
                assert(a1 == b1);
                assert(ea[3] == sextet_char(a2 % 64) && ea[3] == sextet_char(b2 % 64));
                lemma_sextet_char_injective(a2 % 64, b2 % 64);
                assert(a2 == b2);
                let ra = a.subrange(3, n as int);
                let rb = b.subrange(3, n as int);
                assert(base64url(ra) =~= ea.subrange(4, ea.len() as int));
                assert(base64url(rb) =~= base64url(b).subrange(4, ea.len() as int));
                lemma_base64url_injective(ra, rb);
                assert(a =~= b) by {
                    assert forall|i: int| 0 <= i < n implies a[i] == b[i] by {
                        if i >= 3 {
                            assert(a[i] == ra[i - 3] && b[i] == rb[i - 3]);
                        }
                    }
                }
            }
        }
    }
}

/// Decoding gives back what encoding was given.
pub proof fn lemma_decode_of_encode(bytes: Seq<u8>)
    ensures
        is_base64url(base64url(bytes)),
        base64url_bytes(base64url(bytes)) == bytes,
{
    let text = base64url(bytes);
    assert(is_base64url(text));
    lemma_base64url_injective(base64url_bytes(text), bytes);
}

} // verus!
