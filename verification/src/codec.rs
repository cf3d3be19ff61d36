//! Base64 with the standard alphabet and canonical padding: the exact
//! mathematical meaning of the encoding, trusted bindings to the `base64`
//! crate, and the round-trip laws relating the two directions.

use vstd::prelude::*;

verus! {

/// The character that the standard base64 alphabet assigns to a six-bit value.
pub open spec fn b64_char(v: u8) -> char
    recommends
        v < 64,
{
    if v < 26 {
        ((('A' as u32) + (v as u32)) as u32) as char
    } else if v < 52 {
        ((('a' as u32) + (v as u32) - 26) as u32) as char
    } else if v < 62 {
        ((('0' as u32) + (v as u32) - 52) as u32) as char
    } else if v == 62 {
        '+'
    } else {
        '/'
    }
}

/// The six-bit value a character stands for in the standard alphabet,
/// or -1 when the character is not in the alphabet.
pub open spec fn b64_val(c: char) -> int {
    if 'A' as u32 <= c as u32 && c as u32 <= 'Z' as u32 {
        c as u32 - 'A' as u32
    } else if 'a' as u32 <= c as u32 && c as u32 <= 'z' as u32 {
        26 + c as u32 - 'a' as u32
    } else if '0' as u32 <= c as u32 && c as u32 <= '9' as u32 {
        52 + c as u32 - '0' as u32
    } else if c == '+' {
        62
    } else if c == '/' {
        63
    } else {
        -1
    }
}

/// A character of the alphabet proper; `=` is padding, not a digit.
pub open spec fn is_b64_digit(c: char) -> bool {
    b64_val(c) >= 0
}

/// Encoding a six-bit value and reading it back is the identity.
pub proof fn lemma_b64_char_val(v: u8)
    requires
        v < 64,
    ensures
        is_b64_digit(b64_char(v)),
        b64_val(b64_char(v)) == v as int,
        b64_char(v) != '=',
{
}

/// Reading a digit and encoding it again is the identity.
pub proof fn lemma_b64_val_char(c: char)
    requires
        is_b64_digit(c),
    ensures
        0 <= b64_val(c) < 64,
        b64_char(b64_val(c) as u8) == c,
{
}

/// The four characters encoding one full group of three bytes.
pub open spec fn encode_group(b0: u8, b1: u8, b2: u8) -> Seq<char> {
    seq![
        b64_char(b0 >> 2),
        b64_char(((b0 & 3) << 4) | (b1 >> 4)),
        b64_char(((b1 & 15) << 2) | (b2 >> 6)),
        b64_char(b2 & 63),
    ]
}

/// Standard, padded base64 of a byte sequence, as RFC 4648 defines it:
/// full groups of three bytes become four alphabet characters, and a final
/// partial group is completed with `=` padding.
pub open spec fn b64_encode_spec(b: Seq<u8>) -> Seq<char>
    decreases b.len(),
{
    if b.len() == 0 {
        Seq::<char>::empty()
    } else if b.len() == 1 {
        seq![b64_char(b[0] >> 2), b64_char((b[0] & 3) << 4), '=', '=']
    } else if b.len() == 2 {
        seq![
            b64_char(b[0] >> 2),
            b64_char(((b[0] & 3) << 4) | (b[1] >> 4)),
            b64_char((b[1] & 15) << 2),
            '=',
        ]
    } else {
        encode_group(b[0], b[1], b[2]) + b64_encode_spec(b.skip(3))
    }
}

/// The three bytes packed by one full group of four six-bit values.
pub open spec fn decode_group(v0: u8, v1: u8, v2: u8, v3: u8) -> Seq<u8>
    recommends
        v0 < 64 && v1 < 64 && v2 < 64 && v3 < 64,
{
    seq![(v0 << 2) | (v1 >> 4), (v1 << 4) | (v2 >> 2), (v2 << 6) | v3]
}

/// The bytes meant by a final block of four characters, which may carry
/// canonical padding; `None` when the block is not a canonical encoding.
pub open spec fn decode_last_block(c0: char, c1: char, c2: char, c3: char) -> Option<Seq<u8>> {
    if is_b64_digit(c0) && is_b64_digit(c1) {
        let v0 = b64_val(c0) as u8;
        let v1 = b64_val(c1) as u8;
        if c2 == '=' && c3 == '=' {
            if v1 & 15 == 0 {
                Some(seq![(v0 << 2) | (v1 >> 4)])
            } else {
                None
            }
        } else if is_b64_digit(c2) && c3 == '=' {
            let v2 = b64_val(c2) as u8;
            if v2 & 3 == 0 {
                Some(seq![(v0 << 2) | (v1 >> 4), (v1 << 4) | (v2 >> 2)])
            } else {
                None
            }
        } else if is_b64_digit(c2) && is_b64_digit(c3) {
            Some(decode_group(v0, v1, b64_val(c2) as u8, b64_val(c3) as u8))
        } else {
            None
        }
    } else {
        None
    }
}

/// Canonical base64 decoding: `Some` exactly on the strings that
/// `b64_encode_spec` can produce, and there its inverse.
pub open spec fn b64_decode_spec(s: Seq<char>) -> Option<Seq<u8>>
    decreases s.len(),
{
    if s.len() == 0 {
        Some(Seq::<u8>::empty())
    } else if s.len() < 4 {
        None
    } else if s.len() == 4 {
        decode_last_block(s[0], s[1], s[2], s[3])
    } else if is_b64_digit(s[0]) && is_b64_digit(s[1]) && is_b64_digit(s[2]) && is_b64_digit(
        s[3],
    ) {
        match b64_decode_spec(s.skip(4)) {
            Some(rest) => Some(
                decode_group(
                    b64_val(s[0]) as u8,
                    b64_val(s[1]) as u8,
                    b64_val(s[2]) as u8,
                    b64_val(s[3]) as u8,
                ) + rest,
            ),
            None => None,
        }
    } else {
        None
    }
}

/// Relies on the base64 crate's `STANDARD` engine `encode`: standard
/// alphabet with canonical padding, exactly what `b64_encode_spec` states.
#[verifier::external_body]
pub(crate) fn encode_base64(b: &Vec<u8>) -> (r: String)
    ensures
        r@ == b64_encode_spec(b@),
{
    base64::Engine::encode(&base64::engine::general_purpose::STANDARD, b.as_slice())
}

/// Relies on the base64 crate's `STANDARD` engine `decode`: it accepts
/// exactly canonical padded base64 (its config requires canonical padding
/// and forbids set trailing bits) and returns the encoded bytes; on
/// rejection it reports why.
#[verifier::external_body]
pub(crate) fn decode_base64(s: &str) -> (r: Result<Vec<u8>, String>)
    ensures
        r is Ok <==> b64_decode_spec(s@) is Some,
        r is Ok ==> r.unwrap()@ == b64_decode_spec(s@).unwrap(),
{
    match base64::Engine::decode(&base64::engine::general_purpose::STANDARD, s) {
        Ok(v) => Ok(v),
        Err(e) => Err(format!("{}", e)),
    }
}

/// Splitting three bytes into four six-bit values and packing them again
/// is the identity, and every value produced is below 64.
proof fn lemma_split3_bits(b0: u8, b1: u8, b2: u8)
    ensures
        b0 >> 2 < 64,
        ((b0 & 3) << 4) | (b1 >> 4) < 64,
        ((b1 & 15) << 2) | (b2 >> 6) < 64,
        b2 & 63 < 64,
        ((b0 >> 2) << 2) | ((((b0 & 3) << 4) | (b1 >> 4)) >> 4) == b0,
        ((((b0 & 3) << 4) | (b1 >> 4)) << 4) | (((((b1 & 15) << 2) | (b2 >> 6))) >> 2) == b1,
        (((((b1 & 15) << 2) | (b2 >> 6))) << 6) | (b2 & 63) == b2,
{
    assert(b0 >> 2 < 64 && ((b0 & 3) << 4) | (b1 >> 4) < 64 && ((b1 & 15) << 2) | (b2 >> 6) < 64
        && b2 & 63 < 64 && ((b0 >> 2) << 2) | ((((b0 & 3) << 4) | (b1 >> 4)) >> 4) == b0 && ((((b0
        & 3) << 4) | (b1 >> 4)) << 4) | (((((b1 & 15) << 2) | (b2 >> 6))) >> 2) == b1 && (((((b1
        & 15) << 2) | (b2 >> 6))) << 6) | (b2 & 63) == b2) by (bit_vector);
}

/// Splitting one byte for a doubly padded final block: the second value
/// has its low four bits clear, and packing recovers the byte.
proof fn lemma_split1_bits(b0: u8)
    ensures
        b0 >> 2 < 64,
        (b0 & 3) << 4 < 64,
        ((b0 & 3) << 4) & 15 == 0,
        ((b0 >> 2) << 2) | (((b0 & 3) << 4) >> 4) == b0,
{
    assert(b0 >> 2 < 64 && (b0 & 3) << 4 < 64 && ((b0 & 3) << 4) & 15 == 0 && ((b0 >> 2) << 2) | ((
    (b0 & 3) << 4) >> 4) == b0) by (bit_vector);
}

/// Splitting two bytes for a singly padded final block: the third value
/// has its low two bits clear, and packing recovers both bytes.
proof fn lemma_split2_bits(b0: u8, b1: u8)
    ensures
        b0 >> 2 < 64,
        ((b0 & 3) << 4) | (b1 >> 4) < 64,
        (b1 & 15) << 2 < 64,
        ((b1 & 15) << 2) & 3 == 0,
        ((b0 >> 2) << 2) | ((((b0 & 3) << 4) | (b1 >> 4)) >> 4) == b0,
        ((((b0 & 3) << 4) | (b1 >> 4)) << 4) | (((b1 & 15) << 2) >> 2) == b1,
{
    assert(b0 >> 2 < 64 && ((b0 & 3) << 4) | (b1 >> 4) < 64 && (b1 & 15) << 2 < 64 && ((b1 & 15)
        << 2) & 3 == 0 && ((b0 >> 2) << 2) | ((((b0 & 3) << 4) | (b1 >> 4)) >> 4) == b0 && ((((b0
        & 3) << 4) | (b1 >> 4)) << 4) | (((b1 & 15) << 2) >> 2) == b1) by (bit_vector);
}

/// The encoding of a byte sequence is empty only for the empty sequence,
/// and otherwise a positive multiple of four characters long.
pub proof fn lemma_encode_len(b: Seq<u8>)
    ensures
        b64_encode_spec(b).len() % 4 == 0,
        b.len() == 0 ==> b64_encode_spec(b).len() == 0,
        b.len() > 0 ==> b64_encode_spec(b).len() >= 4,
    decreases b.len(),
{
    if b.len() > 2 {
        lemma_encode_len(b.skip(3));
    }
}

/// The encoding is exactly four characters for every started group of
/// three bytes.
pub proof fn lemma_encode_len_exact(b: Seq<u8>)
    ensures
        b64_encode_spec(b).len() == 4 * ((b.len() + 2) / 3),
    decreases b.len(),
{
    if b.len() > 2 {
        lemma_encode_len_exact(b.skip(3));
        assert((b.len() - 1) as int / 3 + 1 == (b.len() + 2) as int / 3) by (nonlinear_arith);
    }
}

/// Decoding an encoding gives back the bytes that were encoded: the
/// encoder only produces canonical base64, and the decoder inverts it.
pub proof fn lemma_b64_encode_decode(b: Seq<u8>)
    ensures
        b64_decode_spec(b64_encode_spec(b)) == Some(b),
    decreases b.len(),
{
    let e = b64_encode_spec(b);
    if b.len() == 0 {
        assert(e =~= Seq::<char>::empty());
        assert(b64_decode_spec(e) == Some(b)) by {
            assert(Seq::<u8>::empty() =~= b);
        }
    } else if b.len() == 1 {
        lemma_split1_bits(b[0]);
        lemma_b64_char_val(b[0] >> 2);
        lemma_b64_char_val((b[0] & 3) << 4);
        assert(b64_decode_spec(e).unwrap() =~= b);
    } else if b.len() == 2 {
        lemma_split2_bits(b[0], b[1]);
        lemma_b64_char_val(b[0] >> 2);
        lemma_b64_char_val(((b[0] & 3) << 4) | (b[1] >> 4));
        lemma_b64_char_val((b[1] & 15) << 2);
        assert(b64_decode_spec(e).unwrap() =~= b);
    } else {
        let v0 = b[0] >> 2;
        let v1 = ((b[0] & 3) << 4) | (b[1] >> 4);
        let v2 = ((b[1] & 15) << 2) | (b[2] >> 6);
        let v3 = b[2] & 63;
        lemma_split3_bits(b[0], b[1], b[2]);
        lemma_b64_char_val(v0);
        lemma_b64_char_val(v1);
        lemma_b64_char_val(v2);
        lemma_b64_char_val(v3);
        lemma_b64_encode_decode(b.skip(3));
        lemma_encode_len(b.skip(3));
        let rest = b64_encode_spec(b.skip(3));
        assert(e == encode_group(b[0], b[1], b[2]) + rest);
        assert(e[0] == b64_char(v0) && e[1] == b64_char(v1) && e[2] == b64_char(v2) && e[3]
            == b64_char(v3));
        assert(e.skip(4) =~= rest);
        if b.len() == 3 {
            assert(e.len() == 4);
            assert(decode_last_block(e[0], e[1], e[2], e[3]).unwrap() =~= b);
        } else {
            assert(e.len() > 4);
            assert(decode_group(v0, v1, v2, v3) + b.skip(3) =~= b);
        }
    }
}

/// Packing four six-bit values into three bytes and splitting them again
/// is the identity, because every value fits in six bits.
proof fn lemma_pack4_bits(v0: u8, v1: u8, v2: u8, v3: u8)
    requires
        v0 < 64,
        v1 < 64,
        v2 < 64,
        v3 < 64,
    ensures
        ((v0 << 2) | (v1 >> 4)) >> 2 == v0,
        ((((v0 << 2) | (v1 >> 4)) & 3) << 4) | (((v1 << 4) | (v2 >> 2)) >> 4) == v1,
        ((((v1 << 4) | (v2 >> 2)) & 15) << 2) | (((v2 << 6) | v3) >> 6) == v2,
        ((v2 << 6) | v3) & 63 == v3,
{
    assert((((v0 << 2) | (v1 >> 4)) >> 2 == v0) && (((((v0 << 2) | (v1 >> 4)) & 3) << 4) | (((v1
        << 4) | (v2 >> 2)) >> 4) == v1) && (((((v1 << 4) | (v2 >> 2)) & 15) << 2) | (((v2 << 6)
        | v3) >> 6) == v2) && (((v2 << 6) | v3) & 63 == v3)) by (bit_vector)
        requires
            v0 < 64 && v1 < 64 && v2 < 64 && v3 < 64,
    ;
}

/// Packing a doubly padded block's one byte and splitting it again is the
/// identity when the second value has its low four bits clear.
proof fn lemma_pack1_bits(v0: u8, v1: u8)
    requires
        v0 < 64,
        v1 < 64,
        v1 & 15 == 0,
    ensures
        ((v0 << 2) | (v1 >> 4)) >> 2 == v0,
        (((v0 << 2) | (v1 >> 4)) & 3) << 4 == v1,
{
    assert(((((v0 << 2) | (v1 >> 4)) >> 2) == v0) && ((((v0 << 2) | (v1 >> 4)) & 3) << 4 == v1))
        by (bit_vector)
        requires
            v0 < 64 && v1 < 64 && v1 & 15 == 0,
    ;
}

/// Packing a singly padded block's two bytes and splitting them again is
/// the identity when the third value has its low two bits clear.
proof fn lemma_pack2_bits(v0: u8, v1: u8, v2: u8)
    requires
        v0 < 64,
        v1 < 64,
        v2 < 64,
        v2 & 3 == 0,
    ensures
        ((v0 << 2) | (v1 >> 4)) >> 2 == v0,
        ((((v0 << 2) | (v1 >> 4)) & 3) << 4) | (((v1 << 4) | (v2 >> 2)) >> 4) == v1,
        (((v1 << 4) | (v2 >> 2)) & 15) << 2 == v2,
{
    assert(((((v0 << 2) | (v1 >> 4)) >> 2) == v0) && (((((v0 << 2) | (v1 >> 4)) & 3) << 4) | (((v1
        << 4) | (v2 >> 2)) >> 4) == v1) && ((((v1 << 4) | (v2 >> 2)) & 15) << 2 == v2))
        by (bit_vector)
        requires
            v0 < 64 && v1 < 64 && v2 < 64 && v2 & 3 == 0,
    ;
}

/// Every string the decoder accepts re-encodes to itself, character for
/// character: the decoder admits only canonical, padded base64.
pub proof fn lemma_b64_decode_encode(s: Seq<char>)
    requires
        b64_decode_spec(s) is Some,
    ensures
        b64_encode_spec(b64_decode_spec(s).unwrap()) == s,
    decreases s.len(),
{
    let b = b64_decode_spec(s).unwrap();
    if s.len() == 0 {
        assert(b =~= Seq::<u8>::empty());
        assert(b64_encode_spec(b) =~= s);
    } else if s.len() == 4 {
        let v0 = b64_val(s[0]) as u8;
        let v1 = b64_val(s[1]) as u8;
        lemma_b64_val_char(s[0]);
        lemma_b64_val_char(s[1]);
        if s[2] == '=' && s[3] == '=' {
            lemma_pack1_bits(v0, v1);
            assert(b64_encode_spec(b) =~= s);
        } else if is_b64_digit(s[2]) && s[3] == '=' {
            let v2 = b64_val(s[2]) as u8;
            lemma_b64_val_char(s[2]);
            lemma_pack2_bits(v0, v1, v2);
            assert(b64_encode_spec(b) =~= s);
        } else {
            let v2 = b64_val(s[2]) as u8;
            let v3 = b64_val(s[3]) as u8;
            lemma_b64_val_char(s[2]);
            lemma_b64_val_char(s[3]);
            lemma_pack4_bits(v0, v1, v2, v3);
            assert(b.len() == 3);
            assert(b[0] == (v0 << 2) | (v1 >> 4) && b[1] == (v1 << 4) | (v2 >> 2) && b[2] == (v2
                << 6) | v3);
            assert(b.skip(3) =~= Seq::<u8>::empty());
            assert(b64_encode_spec(b) == encode_group(b[0], b[1], b[2]) + b64_encode_spec(
                b.skip(3),
            ));
            assert(b64_encode_spec(b) =~= s);
        }
    } else {
        let v0 = b64_val(s[0]) as u8;
        let v1 = b64_val(s[1]) as u8;
        let v2 = b64_val(s[2]) as u8;
        let v3 = b64_val(s[3]) as u8;
        lemma_b64_val_char(s[0]);
        lemma_b64_val_char(s[1]);
        lemma_b64_val_char(s[2]);
        lemma_b64_val_char(s[3]);
        lemma_pack4_bits(v0, v1, v2, v3);
        let rest = b64_decode_spec(s.skip(4)).unwrap();
        lemma_b64_decode_encode(s.skip(4));
        assert(b == decode_group(v0, v1, v2, v3) + rest);
        assert(b.len() >= 3);
        assert(b[0] == (v0 << 2) | (v1 >> 4) && b[1] == (v1 << 4) | (v2 >> 2) && b[2] == (v2 << 6)
            | v3);
        assert(b.skip(3) =~= rest);
        assert(b64_encode_spec(b) =~= s);
    }
}

} // verus!
