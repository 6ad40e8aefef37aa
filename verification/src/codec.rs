//! The wire format of ledger answers, and the verified decoder and encoder.
//!
//! A response message is a tag byte followed by the variant's body:
//!
//! - balance: tag `1`, one length byte `n` (at least 1), `n` denomination
//!   bytes, then the amount as eight big-endian bytes;
//! - validator key: tag `2`, one key-type byte (`1` Ed25519, `2` secp256k1),
//!   one length byte `n` (at least 1), then `n` key bytes.
//!
//! Nothing may follow the body. [`spec_decode`] is the single definition of
//! what any byte sequence means; the executable decoder returns exactly what
//! it says, and the encoder produces bytes that it maps back to the encoded
//! value.

use vstd::prelude::*;

use crate::errors::DecodeError;
use crate::request::VariantTag;
use crate::response::{KeyType, QueryResponse, ResponseView};

verus! {

/// The wire tag of a balance response.
pub const BALANCE_TAG_BYTE: u8 = 1;

/// The wire tag of a validator-key response.
pub const VALIDATOR_KEY_TAG_BYTE: u8 = 2;

/// The wire byte announcing each variant.
pub open spec fn spec_tag_byte(tag: VariantTag) -> u8 {
    match tag {
        VariantTag::Balance => BALANCE_TAG_BYTE,
        VariantTag::ValidatorKey => VALIDATOR_KEY_TAG_BYTE,
    }
}

/// The key kind a key-type byte announces, if any.
pub open spec fn spec_key_type_of_byte(b: u8) -> Option<KeyType> {
    if b == 1 {
        Some(KeyType::Ed25519)
    } else if b == 2 {
        Some(KeyType::Secp256k1)
    } else {
        None
    }
}

/// `256^n`: the number of values `n` bytes can take.
pub open spec fn pow256(n: nat) -> nat
    decreases n,
{
    if n == 0 {
        1
    } else {
        256 * pow256((n - 1) as nat)
    }
}

/// The unsigned integer a byte sequence encodes big-endian: the first byte is
/// the most significant.
pub open spec fn be_value(s: Seq<u8>) -> nat
    decreases s.len(),
{
    if s.len() == 0 {
        0
    } else {
        be_value(s.drop_last()) * 256 + (s.last() as nat)
    }
}

/// The byte counts the format fixes.
pub proof fn lemma_pow256_values()
    ensures
        pow256(7) == 0x100_0000_0000_0000,
        pow256(8) == 0x1_0000_0000_0000_0000,
{
    reveal_with_fuel(pow256, 9);
}

/// More bytes encode at least as many values.
pub proof fn lemma_pow256_mono(a: nat, b: nat)
    requires
        a <= b,
    ensures
        pow256(a) <= pow256(b),
    decreases b,
{
    if a < b {
        lemma_pow256_mono(a, (b - 1) as nat);
    }
}

/// A sequence of `n` bytes encodes a value below `256^n`.
pub proof fn lemma_be_value_bound(s: Seq<u8>)
    ensures
        be_value(s) < pow256(s.len()),
    decreases s.len(),
{
    if s.len() > 0 {
        lemma_be_value_bound(s.drop_last());
    }
}

/// Prepending a byte adds its value at the highest position.
pub proof fn lemma_be_value_prepend(d: u8, s: Seq<u8>)
    ensures
        be_value(s.insert(0, d)) == d * pow256(s.len()) + be_value(s),
    decreases s.len(),
{
    let c = s.insert(0, d);
    if s.len() == 0 {
        assert(c.drop_last() =~= Seq::<u8>::empty());
        assert(c.last() == d);
        assert(be_value(c.drop_last()) == 0);
        assert(be_value(c) == d);
        assert(pow256(s.len()) == 1);
        assert(be_value(s) == 0);
        assert(be_value(c) == d * pow256(s.len()) + be_value(s));
    } else {
        assert(c.drop_last() =~= s.drop_last().insert(0, d));
        assert(c.last() == s.last());
        lemma_be_value_prepend(d, s.drop_last());
        assert((d * pow256((s.len() - 1) as nat) + be_value(s.drop_last())) * 256 == d * (256
            * pow256((s.len() - 1) as nat)) + be_value(s.drop_last()) * 256) by (nonlinear_arith);
        assert(be_value(c) == be_value(c.drop_last()) * 256 + c.last());
        assert(be_value(s) == be_value(s.drop_last()) * 256 + s.last());
        assert(pow256(s.len()) == 256 * pow256((s.len() - 1) as nat));
        assert(be_value(c) == d * pow256(s.len()) + be_value(s));
    }
}

/// The meaning of `bytes` as a balance message body, the tag byte included.
pub open spec fn spec_parse_balance(bytes: Seq<u8>) -> Result<ResponseView, DecodeError> {
    if bytes.len() < 2 {
        Err(DecodeError::Malformed)
    } else if bytes[1] == 0 {
        Err(DecodeError::Malformed)
    } else if bytes.len() != bytes[1] + 10 {
        Err(DecodeError::Malformed)
    } else {
        Ok(
            ResponseView::Balance {
                denom: bytes.subrange(2, 2 + bytes[1] as int),
                amount: be_value(bytes.subrange(2 + bytes[1] as int, bytes.len() as int)) as u64,
            },
        )
    }
}

/// The meaning of `bytes` as a validator-key message, the tag byte included.
pub open spec fn spec_parse_validator_key(bytes: Seq<u8>) -> Result<ResponseView, DecodeError> {
    if bytes.len() < 3 {
        Err(DecodeError::Malformed)
    } else if spec_key_type_of_byte(bytes[1]) is None {
        Err(DecodeError::Malformed)
    } else if bytes[2] == 0 {
        Err(DecodeError::Malformed)
    } else if bytes.len() != bytes[2] + 3 {
        Err(DecodeError::Malformed)
    } else {
        Ok(
            ResponseView::ValidatorKey {
                public_key_bytes: bytes.subrange(3, 3 + bytes[2] as int),
                key_type: spec_key_type_of_byte(bytes[1])->Some_0,
            },
        )
    }
}

/// The meaning of `bytes` when the `expected` variant was requested: the
/// decoded value, or the error owed for these bytes. An unknown tag byte is a
/// malformed message; a known tag other than `expected` is a variant
/// mismatch, whatever follows it.
pub open spec fn spec_decode(bytes: Seq<u8>, expected: VariantTag) -> Result<
    ResponseView,
    DecodeError,
> {
    if bytes.len() == 0 {
        Err(DecodeError::Malformed)
    } else if spec_tag_of_byte(bytes[0]) is None {
        Err(DecodeError::Malformed)
    } else if bytes[0] != spec_tag_byte(expected) {
        Err(DecodeError::VariantMismatch)
    } else {
        match expected {
            VariantTag::Balance => spec_parse_balance(bytes),
            VariantTag::ValidatorKey => spec_parse_validator_key(bytes),
        }
    }
}

/// The variant a tag byte announces, if any.
pub open spec fn spec_tag_of_byte(b: u8) -> Option<VariantTag> {
    if b == BALANCE_TAG_BYTE {
        Some(VariantTag::Balance)
    } else if b == VALIDATOR_KEY_TAG_BYTE {
        Some(VariantTag::ValidatorKey)
    } else {
        None
    }
}

/// A decode result with the response replaced by its mathematical value.
pub open spec fn decode_result_view(r: Result<QueryResponse, DecodeError>) -> Result<
    ResponseView,
    DecodeError,
> {
    match r {
        Ok(resp) => Ok(resp@),
        Err(e) => Err(e),
    }
}

/// Reads the eight bytes at `start` as a big-endian unsigned integer.
fn be_u64_at(bytes: &Vec<u8>, start: usize) -> (v: u64)
    requires
        start + 8 <= bytes@.len(),
    ensures
        v as nat == be_value(bytes@.subrange(start as int, start as int + 8)),
{
    let n = bytes.len();
    let mut v: u64 = 0;
    let mut i: usize = 0;
    while i < 8
        invariant
            i <= 8,
            n == bytes@.len(),
            start + 8 <= n,
            v as nat == be_value(bytes@.subrange(start as int, start as int + i as int)),
            (v as nat) < pow256(i as nat),
        decreases 8 - i,
    {
        proof {
            lemma_pow256_mono(i as nat, 7);
            lemma_pow256_values();
            assert(bytes@.subrange(start as int, start as int + i as int + 1).drop_last()
                =~= bytes@.subrange(start as int, start as int + i as int));
            assert(bytes@.subrange(start as int, start as int + i as int + 1).last() == bytes@[start as int + i as int]);
        }
        v = v * 256 + (bytes[start + i] as u64);
        i = i + 1;
    }
    v
}

/// Appends the eight big-endian bytes of `v`.
fn push_be_u64(out: &mut Vec<u8>, v: u64)
    ensures
        final(out)@.len() == old(out)@.len() as int + 8,
        final(out)@.subrange(0, old(out)@.len() as int) == old(out)@,
        be_value(final(out)@.subrange(old(out)@.len() as int, old(out)@.len() as int + 8)) == v as nat,
{
    let digits = be_bytes_of(v);
    let ghost base = out@;
    let mut i: usize = 0;
    while i < 8
        invariant
            i <= 8,
            digits@.len() == 8,
            be_value(digits@) == v as nat,
            out@ == base + digits@.subrange(0, i as int),
        decreases 8 - i,
    {
        proof {
            assert(digits@.subrange(0, i as int).push(digits@[i as int]) =~= digits@.subrange(
                0,
                i as int + 1,
            ));
        }
        out.push(digits[i]);
        i = i + 1;
    }
    proof {
        assert(digits@.subrange(0, 8) =~= digits@);
        assert(out@.subrange(0, base.len() as int) =~= base);
        assert(out@.subrange(base.len() as int, base.len() as int + 8) =~= digits@);
    }
}

/// The eight big-endian bytes of `v`.
fn be_bytes_of(v: u64) -> (out: Vec<u8>)
    ensures
        out@.len() == 8,
        be_value(out@) == v as nat,
{
    let mut out: Vec<u8> = Vec::new();
    let mut cur: u64 = v;
    let mut i: usize = 0;
    proof {
        assert(pow256(0) == 1);
        assert(be_value(out@) == 0);
    }
    while i < 8
        invariant
            i <= 8,
            out@.len() == i,
            v as nat == (cur as nat) * pow256(i as nat) + be_value(out@),
            (be_value(out@)) < pow256(i as nat),
        decreases 8 - i,
    {
        let d: u8 = (cur % 256) as u8;
        let next: u64 = cur / 256;
        proof {
            lemma_be_value_prepend(d, out@);
            lemma_be_value_bound(out@.insert(0, d));
            assert(cur == 256 * next + d);
            assert((256 * (next as nat) + d) * pow256(i as nat) == (next as nat) * (256 * pow256(
                i as nat,
            )) + d * pow256(i as nat)) by (nonlinear_arith);
        }
        out.insert(0, d);
        cur = next;
        i = i + 1;
    }
    proof {
        lemma_pow256_values();
        if cur >= 1 {
            assert((cur as nat) * pow256(8) >= pow256(8)) by (nonlinear_arith)
                requires
                    cur >= 1,
            ;
        }
    }
    out
}

/// Decodes a raw transport payload against the variant the request asked for.
///
/// Pure and deterministic: the result is exactly [`spec_decode`] of the bytes,
/// so equal inputs always decode to equal values, and each error names the
/// first rule of the format the bytes break.
pub fn decode(bytes: &Vec<u8>, expected: VariantTag) -> (r: Result<QueryResponse, DecodeError>)
    ensures
        decode_result_view(r) == spec_decode(bytes@, expected),
{
    if bytes.len() == 0 {
        return Err(DecodeError::Malformed);
    }
    let tag = bytes[0];
    if tag != BALANCE_TAG_BYTE && tag != VALIDATOR_KEY_TAG_BYTE {
        return Err(DecodeError::Malformed);
    }
    let expected_byte = match expected {
        VariantTag::Balance => BALANCE_TAG_BYTE,
        VariantTag::ValidatorKey => VALIDATOR_KEY_TAG_BYTE,
    };
    if tag != expected_byte {
        return Err(DecodeError::VariantMismatch);
    }
    match expected {
        VariantTag::Balance => decode_balance(bytes),
        VariantTag::ValidatorKey => decode_validator_key(bytes),
    }
}

/// Decodes the body of a balance message; `bytes` still includes the tag.
fn decode_balance(bytes: &Vec<u8>) -> (r: Result<QueryResponse, DecodeError>)
    requires
        bytes@.len() >= 1,
        bytes@[0] == BALANCE_TAG_BYTE,
    ensures
        decode_result_view(r) == spec_parse_balance(bytes@),
{
    if bytes.len() < 2 {
        return Err(DecodeError::Malformed);
    }
    let dlen = bytes[1] as usize;
    if dlen == 0 {
        return Err(DecodeError::Malformed);
    }
    if bytes.len() != dlen + 10 {
        return Err(DecodeError::Malformed);
    }
    let mut denom: Vec<u8> = Vec::new();
    let mut i: usize = 2;
    while i < 2 + dlen
        invariant
            2 <= i <= 2 + dlen,
            dlen <= 255,
            bytes@.len() == dlen + 10,
            denom@ == bytes@.subrange(2, i as int),
        decreases 2 + dlen - i,
    {
        proof {
            assert(bytes@.subrange(2, i as int).push(bytes@[i as int]) =~= bytes@.subrange(
                2,
                i as int + 1,
            ));
        }
        denom.push(bytes[i]);
        i = i + 1;
    }
    let amount = be_u64_at(bytes, 2 + dlen);
    proof {
        lemma_be_value_bound(bytes@.subrange(2 + dlen as int, bytes@.len() as int));
        lemma_pow256_values();
    }
    Ok(QueryResponse::Balance { denom, amount })
}

/// Decodes the body of a validator-key message; `bytes` still includes the
/// tag.
fn decode_validator_key(bytes: &Vec<u8>) -> (r: Result<QueryResponse, DecodeError>)
    requires
        bytes@.len() >= 1,
        bytes@[0] == VALIDATOR_KEY_TAG_BYTE,
    ensures
        decode_result_view(r) == spec_parse_validator_key(bytes@),
{
    if bytes.len() < 3 {
        return Err(DecodeError::Malformed);
    }
    let key_type = match bytes[1] {
        1u8 => KeyType::Ed25519,
        2u8 => KeyType::Secp256k1,
        _ => {
            return Err(DecodeError::Malformed);
        },
    };
    let klen = bytes[2] as usize;
    if klen == 0 {
        return Err(DecodeError::Malformed);
    }
    if bytes.len() != klen + 3 {
        return Err(DecodeError::Malformed);
    }
    let mut key: Vec<u8> = Vec::new();
    let mut i: usize = 3;
    while i < 3 + klen
        invariant
            3 <= i <= 3 + klen,
            klen <= 255,
            bytes@.len() == klen + 3,
            key@ == bytes@.subrange(3, i as int),
        decreases 3 + klen - i,
    {
        proof {
            assert(bytes@.subrange(3, i as int).push(bytes@[i as int]) =~= bytes@.subrange(
                3,
                i as int + 1,
            ));
        }
        key.push(bytes[i]);
        i = i + 1;
    }
    Ok(QueryResponse::ValidatorKey { public_key_bytes: key, key_type })
}

/// A response value the wire format can carry: its variable-length field is
/// non-empty and fits the one-byte length prefix.
pub open spec fn spec_encodable(v: ResponseView) -> bool {
    match v {
        ResponseView::Balance { denom, .. } => 1 <= denom.len() <= 255,
        ResponseView::ValidatorKey { public_key_bytes, .. } => 1 <= public_key_bytes.len() <= 255,
    }
}

/// Encodes a response into the wire format.
///
/// The contract is a round trip through [`spec_decode`]: decoding the bytes
/// against the response's own variant yields the response back, and decoding
/// them against the other variant is a variant mismatch — so an encoded
/// message can never be taken for the other kind of answer.
pub fn encode(resp: &QueryResponse) -> (out: Vec<u8>)
    requires
        spec_encodable(resp@),
    ensures
        spec_decode(out@, resp@.tag()) == Ok::<ResponseView, DecodeError>(resp@),
        forall|t: VariantTag|
            t != resp@.tag() ==> spec_decode(out@, t) == Err::<ResponseView, DecodeError>(
                DecodeError::VariantMismatch,
            ),
{
    let mut out: Vec<u8> = Vec::new();
    match resp {
        QueryResponse::Balance { denom, amount } => {
            out.push(BALANCE_TAG_BYTE);
            out.push(denom.len() as u8);
            let mut i: usize = 0;
            while i < denom.len()
                invariant
                    i <= denom@.len(),
                    1 <= denom@.len() <= 255,
                    out@.len() == 2 + i,
                    out@[0] == BALANCE_TAG_BYTE,
                    out@[1] == denom@.len() as u8,
                    out@.subrange(2, out@.len() as int) == denom@.subrange(0, i as int),
                decreases denom@.len() - i,
            {
                proof {
                    assert(out@.push(denom@[i as int]).subrange(2, out@.len() as int + 1) =~= out@
                        .subrange(2, out@.len() as int).push(denom@[i as int]));
                    assert(denom@.subrange(0, i as int).push(denom@[i as int]) =~= denom@.subrange(
                        0,
                        i as int + 1,
                    ));
                }
                out.push(denom[i]);
                i = i + 1;
            }
            let ghost head = out@;
            push_be_u64(&mut out, *amount);
            proof {
                lemma_be_value_bound(out@.subrange(head.len() as int, head.len() as int + 8));
                lemma_pow256_values();
                assert forall|j: int| 0 <= j < head.len() implies out@[j] == head[j] by {
                    assert(out@.subrange(0, head.len() as int)[j] == head[j]);
                }
                assert forall|j: int| 0 <= j < denom@.len() implies head[2 + j] == denom@[j] by {
                    assert(head.subrange(2, head.len() as int)[j] == denom@.subrange(
                        0,
                        denom@.len() as int,
                    )[j]);
                }
                assert(out@.subrange(2, 2 + denom@.len() as int) =~= denom@);
                assert(out@.subrange(2 + denom@.len() as int, out@.len() as int) =~= out@.subrange(
                    head.len() as int,
                    head.len() as int + 8,
                ));
                assert(spec_parse_balance(out@) == Ok::<ResponseView, DecodeError>(resp@));
            }
        },
        QueryResponse::ValidatorKey { public_key_bytes, key_type } => {
            out.push(VALIDATOR_KEY_TAG_BYTE);
            let kt: u8 = match key_type {
                KeyType::Ed25519 => 1,
                KeyType::Secp256k1 => 2,
            };
            out.push(kt);
            out.push(public_key_bytes.len() as u8);
            let mut i: usize = 0;
            while i < public_key_bytes.len()
                invariant
                    i <= public_key_bytes@.len(),
                    1 <= public_key_bytes@.len() <= 255,
                    out@.len() == 3 + i,
                    out@[0] == VALIDATOR_KEY_TAG_BYTE,
                    out@[1] == spec_key_type_byte(*key_type),
                    out@[2] == public_key_bytes@.len() as u8,
                    out@.subrange(3, out@.len() as int) == public_key_bytes@.subrange(0, i as int),
                decreases public_key_bytes@.len() - i,
            {
                proof {
                    assert(out@.push(public_key_bytes@[i as int]).subrange(3, out@.len() as int + 1)
                        =~= out@.subrange(3, out@.len() as int).push(public_key_bytes@[i as int]));
                    assert(public_key_bytes@.subrange(0, i as int).push(
                        public_key_bytes@[i as int],
                    ) =~= public_key_bytes@.subrange(0, i as int + 1));
                }
                out.push(public_key_bytes[i]);
                i = i + 1;
            }
            proof {
                assert(out@.subrange(3, 3 + public_key_bytes@.len() as int) =~= public_key_bytes@);
                assert(spec_parse_validator_key(out@) == Ok::<ResponseView, DecodeError>(resp@));
            }
        },
    }
    out
}

/// The wire byte of each key kind.
pub open spec fn spec_key_type_byte(k: KeyType) -> u8 {
    match k {
        KeyType::Ed25519 => 1,
        KeyType::Secp256k1 => 2,
    }
}

/// Decoding is a pure function of the bytes and the expected variant: the
/// same well-formed bytes decode to equal responses however often they are
/// decoded.
pub proof fn lemma_decode_deterministic(b1: Seq<u8>, b2: Seq<u8>, expected: VariantTag)
    requires
        b1 == b2,
    ensures
        spec_decode(b1, expected) == spec_decode(b2, expected),
{
}

/// A successful decode always answers the variant that was requested: bytes
/// tagged for the other variant are rejected with a variant mismatch, never
/// coerced into a value of the requested shape.
pub proof fn lemma_decode_tag_sound(bytes: Seq<u8>, expected: VariantTag)
    ensures
        spec_decode(bytes, expected) matches Ok(v) ==> v.tag() == expected,
        (bytes.len() > 0 && (spec_tag_of_byte(bytes[0]) matches Some(t) && t != expected))
            ==> spec_decode(bytes, expected) == Err::<ResponseView, DecodeError>(
            DecodeError::VariantMismatch,
        ),
{
}

} // verus!
