//! Standard Base64 (RFC 4648 alphabet, with `=` padding), as done by the `base64`
//! crate's `STANDARD` engine.
use base64::Engine;
use vstd::prelude::*;

verus! {

/// The character of a six-bit value in the standard alphabet.
pub open spec fn b64_char(v: nat) -> char {
    if v < 26 {
        (65 + v) as char
    } else if v < 52 {
        (97 + (v - 26)) as char
    } else if v < 62 {
        (48 + (v - 52)) as char
    } else if v == 62 {
        '+'
    } else {
        '/'
    }
}

/// The four characters of one group of three bytes.
pub open spec fn b64_group(x0: u8, x1: u8, x2: u8) -> Seq<char> {
    seq![
        b64_char(x0 as nat / 4),
        b64_char((x0 as nat % 4) * 16 + x1 as nat / 16),
        b64_char((x1 as nat % 16) * 4 + x2 as nat / 64),
        b64_char(x2 as nat % 64),
    ]
}

/// The padded standard Base64 text of a byte sequence: each group of three bytes
/// becomes four characters, and a last group of one or two bytes is padded with `=`.
pub open spec fn b64_text(b: Seq<u8>) -> Seq<char>
    decreases b.len(),
{
    if b.len() == 0 {
        seq![]
    } else if b.len() == 1 {
        seq![b64_char(b[0] as nat / 4), b64_char((b[0] as nat % 4) * 16), '=', '=']
    } else if b.len() == 2 {
        seq![
            b64_char(b[0] as nat / 4),
            b64_char((b[0] as nat % 4) * 16 + b[1] as nat / 16),
            b64_char((b[1] as nat % 16) * 4),
            '=',
        ]
    } else {
        b64_group(b[0], b[1], b[2]) + b64_text(b.subrange(3, b.len() as int))
    }
}

/// Distinct six-bit values have distinct characters, none of them `=`.
proof fn lemma_b64_char(v: nat, w: nat)
    requires
        v < 64,
        w < 64,
    ensures
        b64_char(v) != '=',
        b64_char(v) == b64_char(w) ==> v == w,
{
}

/// The values of a group of three bytes give the bytes back.
proof fn lemma_group_bytes(a0: nat, a1: nat, a2: nat, b0: nat, b1: nat, b2: nat)
    requires
        a0 < 256,
        a1 < 256,
        a2 < 256,
        b0 < 256,
        b1 < 256,
        b2 < 256,
        a0 / 4 == b0 / 4,
        (a0 % 4) * 16 + a1 / 16 == (b0 % 4) * 16 + b1 / 16,
        (a1 % 16) * 4 + a2 / 64 == (b1 % 16) * 4 + b2 / 64,
        a2 % 64 == b2 % 64,
    ensures
        a0 == b0,
        a1 == b1,
        a2 == b2,
{
}

/// Different byte sequences have different Base64 texts.
pub proof fn lemma_b64_injective(a: Seq<u8>, b: Seq<u8>)
    requires
        b64_text(a) == b64_text(b),
    ensures
        a == b,
    decreases a.len(),
{
    let ta = b64_text(a);
    let tb = b64_text(b);
    if a.len() == 0 || b.len() == 0 {
        assert(a.len() == 0 && b.len() == 0) by {
            if a.len() > 0 {
                assert(ta.len() >= 4);
            }
            if b.len() > 0 {
                assert(tb.len() >= 4);
            }
        }
        assert(a =~= b);
        return;
    }
    let a0 = a[0] as nat;
    let b0 = b[0] as nat;
    lemma_b64_char(a0 / 4, b0 / 4);
    assert(ta[0] == tb[0]);
    if a.len() == 1 || b.len() == 1 {
        if a.len() == 1 && b.len() == 1 {
            lemma_b64_char((a0 % 4) * 16, (b0 % 4) * 16);
            assert(ta[1] == tb[1]);
            assert(a =~= b);
        } else if a.len() == 1 {
            assert(ta[2] == '=');
            if b.len() == 2 {
                lemma_b64_char((b[1] as nat % 16) * 4, 0);
            } else {
                lemma_b64_char((b[1] as nat % 16) * 4 + b[2] as nat / 64, 0);
            }
            assert(tb[2] != '=');
        } else {
            assert(tb[2] == '=');
            if a.len() == 2 {
                lemma_b64_char((a[1] as nat % 16) * 4, 0);
            } else {
                lemma_b64_char((a[1] as nat % 16) * 4 + a[2] as nat / 64, 0);
            }
            assert(ta[2] != '=');
        }
        return;
    }
    let a1 = a[1] as nat;
    let b1 = b[1] as nat;
    lemma_b64_char((a0 % 4) * 16 + a1 / 16, (b0 % 4) * 16 + b1 / 16);
    assert(ta[1] == tb[1]);
    if a.len() == 2 || b.len() == 2 {
        if a.len() == 2 && b.len() == 2 {
            lemma_b64_char((a1 % 16) * 4, (b1 % 16) * 4);
            assert(ta[2] == tb[2]);
            lemma_group_bytes(a0, a1, 0, b0, b1, 0);
            assert(a =~= b);
        } else if a.len() == 2 {
            assert(ta[3] == '=');
            lemma_b64_char(b[2] as nat % 64, 0);
            assert(tb[3] != '=');
        } else {
            assert(tb[3] == '=');
            lemma_b64_char(a[2] as nat % 64, 0);
            assert(ta[3] != '=');
        }
        return;
    }
    let a2 = a[2] as nat;
    let b2 = b[2] as nat;
    lemma_b64_char((a1 % 16) * 4 + a2 / 64, (b1 % 16) * 4 + b2 / 64);
    lemma_b64_char(a2 % 64, b2 % 64);
    assert(ta[2] == tb[2]);
    assert(ta[3] == tb[3]);
    lemma_group_bytes(a0, a1, a2, b0, b1, b2);
    let ra = a.subrange(3, a.len() as int);
    let rb = b.subrange(3, b.len() as int);
    assert(b64_text(ra) =~= ta.subrange(4, ta.len() as int));
    assert(b64_text(rb) =~= tb.subrange(4, tb.len() as int));
    lemma_b64_injective(ra, rb);
    assert(a =~= seq![a[0], a[1], a[2]] + ra);
    assert(b =~= seq![b[0], b[1], b[2]] + rb);
}

/// `base64::engine::general_purpose::STANDARD.encode`: the padded standard Base64
/// text of the bytes.
#[verifier::external_body]
pub(crate) fn encode_standard(bytes: &[u8]) -> (r: String)
    ensures
        r@ == b64_text(bytes@),
{
    base64::engine::general_purpose::STANDARD.encode(bytes)
}

/// The error type of Base64 decoding.
#[verifier::external_type_specification]
#[verifier::external_body]
pub struct ExDecodeError(base64::DecodeError);

/// `base64::engine::general_purpose::STANDARD.decode`: the engine requires canonical
/// padding and no trailing bits, so it succeeds exactly on the texts that are the
/// encoding of some bytes, and then gives those bytes back. Nothing is stated of
/// the error value (which says where decoding stopped).
#[verifier::external_body]
pub(crate) fn decode_standard(text: &str) -> (r: Result<Vec<u8>, base64::DecodeError>)
    ensures
        match r {
            Ok(b) => b64_text(b@) == text@,
            Err(_) => forall|b: Seq<u8>| b64_text(b) != text@,
        },
{
    base64::engine::general_purpose::STANDARD.decode(text)
}

} // verus!
