//! The binary encoder: little-endian fixed-width integers, length-prefixed
//! byte strings, and the 8-byte method discriminator that selects a handler
//! inside the target program.

use vstd::prelude::*;
use vstd::bytes::{
    spec_u16_to_le_bytes, spec_u32_to_le_bytes, spec_u64_from_le_bytes, spec_u64_to_le_bytes,
    u16_to_le_bytes, u32_to_le_bytes, u64_from_le_bytes, u64_to_le_bytes,
};
use crate::addr::Address;
use crate::crypto::{sha256, sha256_of};
use crate::errors::ClientError;

verus! {

/// Appends every byte of `b` to `out`.
pub fn push_bytes(out: &mut Vec<u8>, b: &[u8])
    ensures
        final(out)@ == old(out)@ + b@,
{
    let mut i: usize = 0;
    while i < b.len()
        invariant
            i <= b@.len(),
            out@ == old(out)@ + b@.subrange(0, i as int),
        decreases b@.len() - i,
    {
        out.push(b[i]);
        proof {
            assert(old(out)@ + b@.subrange(0, i + 1) =~= old(out)@ + b@.subrange(0, i as int)
                + seq![b@[i as int]]);
        }
        i += 1;
    }
    proof {
        assert(b@.subrange(0, b@.len() as int) =~= b@);
    }
}

/// Appends the two-byte little-endian encoding of `x`.
pub fn push_u16_le(out: &mut Vec<u8>, x: u16)
    ensures
        final(out)@ == old(out)@ + spec_u16_to_le_bytes(x),
{
    let b = u16_to_le_bytes(x);
    push_bytes(out, b.as_slice());
}

/// Appends the four-byte little-endian encoding of `x`.
pub fn push_u32_le(out: &mut Vec<u8>, x: u32)
    ensures
        final(out)@ == old(out)@ + spec_u32_to_le_bytes(x),
{
    let b = u32_to_le_bytes(x);
    push_bytes(out, b.as_slice());
}

/// Appends the eight-byte little-endian encoding of `x`.
pub fn push_u64_le(out: &mut Vec<u8>, x: u64)
    ensures
        final(out)@ == old(out)@ + spec_u64_to_le_bytes(x),
{
    let b = u64_to_le_bytes(x);
    push_bytes(out, b.as_slice());
}

/// A byte string encoded as a four-byte little-endian length followed by the
/// bytes themselves, with no padding. Meaningful only when the length fits
/// in 32 bits.
pub open spec fn spec_len_prefixed(b: Seq<u8>) -> Seq<u8>
    recommends
        b.len() <= u32::MAX,
{
    spec_u32_to_le_bytes(b.len() as u32) + b
}

/// Appends the length-prefixed encoding of `b`, or reports that its length
/// does not fit the declared four-byte width.
pub fn push_len_prefixed(out: &mut Vec<u8>, b: &[u8]) -> (r: Result<(), ClientError>)
    ensures
        r is Ok <==> b@.len() <= u32::MAX,
        r is Ok ==> final(out)@ == old(out)@ + spec_len_prefixed(b@),
        r is Err ==> final(out)@ == old(out)@ && r == Err::<(), ClientError>(
            ClientError::EncodingRangeError,
        ),
{
    if b.len() > u32::MAX as usize {
        return Err(ClientError::EncodingRangeError);
    }
    push_u32_le(out, b.len() as u32);
    push_bytes(out, b);
    Ok(())
}

/// Decodes an eight-byte little-endian integer; the inverse of the eight-byte
/// encoding.
pub fn decode_u64(b: &[u8]) -> (r: Option<u64>)
    ensures
        r is Some <==> b@.len() == 8,
        r matches Some(x) ==> x == spec_u64_from_le_bytes(b@),
{
    if b.len() == 8 {
        Some(u64_from_le_bytes(b))
    } else {
        None
    }
}

/// Round trip: decoding an encoded value yields the value back, for every
/// 64-bit amount.
pub proof fn lemma_u64_round_trip(x: u64)
    ensures
        spec_u64_to_le_bytes(x).len() == 8,
        spec_u64_from_le_bytes(spec_u64_to_le_bytes(x)) == x,
{
    vstd::bytes::lemma_auto_spec_u64_to_from_le_bytes();
}

/// The preimage hashed to form a method discriminator: the namespace, a
/// colon, and the method name.
pub open spec fn method_preimage(namespace: Seq<u8>, method: Seq<u8>) -> Seq<u8> {
    namespace + seq![58u8] + method
}

/// The 8-byte method discriminator: the first eight bytes of the SHA-256
/// digest of `namespace:method`. It is the opcode the target program's
/// dispatcher matches on.
pub open spec fn spec_discriminator(namespace: Seq<u8>, method: Seq<u8>) -> Seq<u8> {
    sha256_of(method_preimage(namespace, method)).take(8)
}

/// Computes the 8-byte method discriminator for `namespace:method`.
pub fn discriminator(namespace: &[u8], method: &[u8]) -> (r: Vec<u8>)
    ensures
        r@ == spec_discriminator(namespace@, method@),
        r@.len() == 8,
{
    let mut pre: Vec<u8> = Vec::new();
    push_bytes(&mut pre, namespace);
    pre.push(58u8);
    push_bytes(&mut pre, method);
    proof {
        assert(pre@ =~= method_preimage(namespace@, method@));
    }
    let h = sha256(pre.as_slice());
    let mut out: Vec<u8> = Vec::new();
    let mut i: usize = 0;
    while i < 8
        invariant
            i <= 8,
            h@ == sha256_of(method_preimage(namespace@, method@)),
            h@.len() == 32,
            out@ == h@.subrange(0, i as int),
        decreases 8 - i,
    {
        out.push(h[i]);
        proof {
            assert(h@.subrange(0, i + 1) =~= h@.subrange(0, i as int) + seq![h@[i as int]]);
        }
        i += 1;
    }
    proof {
        assert(out@ =~= spec_discriminator(namespace@, method@));
    }
    out
}

/// A typed argument value, encoded in declared order with no delimiters.
#[derive(Clone, Debug)]
pub enum ArgValue {
    U8(u8),
    U16(u16),
    U32(u32),
    U64(u64),
    Bool(bool),
    /// A length-prefixed byte string.
    Bytes(Vec<u8>),
    /// A raw 32-byte address, no prefix.
    Addr(Address),
}

/// Whether a value fits the width its encoding declares.
pub open spec fn arg_in_range(a: ArgValue) -> bool {
    match a {
        ArgValue::Bytes(b) => b@.len() <= u32::MAX,
        _ => true,
    }
}

/// The fixed-width little-endian (or length-prefixed) encoding of one field.
pub open spec fn spec_encode_arg(a: ArgValue) -> Seq<u8>
    recommends
        arg_in_range(a),
{
    match a {
        ArgValue::U8(x) => seq![x],
        ArgValue::U16(x) => spec_u16_to_le_bytes(x),
        ArgValue::U32(x) => spec_u32_to_le_bytes(x),
        ArgValue::U64(x) => spec_u64_to_le_bytes(x),
        ArgValue::Bool(x) => seq![if x { 1u8 } else { 0u8 }],
        ArgValue::Bytes(b) => spec_len_prefixed(b@),
        ArgValue::Addr(a) => a@,
    }
}

/// The concatenation of the field encodings, in declared order.
pub open spec fn spec_encode_args(args: Seq<ArgValue>) -> Seq<u8>
    decreases args.len(),
{
    if args.len() == 0 {
        Seq::empty()
    } else {
        spec_encode_args(args.drop_last()) + spec_encode_arg(args.last())
    }
}

/// Encodes the fields in declared order, with no delimiters; fails if and
/// only if some field's value does not fit its declared width.
pub fn encode_args(args: &Vec<ArgValue>) -> (r: Result<Vec<u8>, ClientError>)
    ensures
        r is Ok <==> (forall|i: int| 0 <= i < args@.len() ==> arg_in_range(#[trigger] args@[i])),
        r matches Ok(out) ==> out@ == spec_encode_args(args@),
        r is Err ==> r == Err::<Vec<u8>, ClientError>(ClientError::EncodingRangeError),
{
    let mut out: Vec<u8> = Vec::new();
    let mut i: usize = 0;
    while i < args.len()
        invariant
            i <= args@.len(),
            out@ == spec_encode_args(args@.subrange(0, i as int)),
            forall|j: int| 0 <= j < i ==> arg_in_range(#[trigger] args@[j]),
        decreases args@.len() - i,
    {
        match &args[i] {
            ArgValue::U8(x) => {
                out.push(*x);
            },
            ArgValue::U16(x) => {
                push_u16_le(&mut out, *x);
            },
            ArgValue::U32(x) => {
                push_u32_le(&mut out, *x);
            },
            ArgValue::U64(x) => {
                push_u64_le(&mut out, *x);
            },
            ArgValue::Bool(x) => {
                out.push(if *x { 1u8 } else { 0u8 });
            },
            ArgValue::Bytes(b) => {
                let res = push_len_prefixed(&mut out, b.as_slice());
                if res.is_err() {
                    return Err(ClientError::EncodingRangeError);
                }
            },
            ArgValue::Addr(a) => {
                push_bytes(&mut out, a.bytes.as_slice());
            },
        }
        proof {
            let pre = args@.subrange(0, i as int);
            let cur = args@.subrange(0, i + 1);
            assert(cur.drop_last() =~= pre);
            assert(cur.last() == args@[i as int]);
            assert(out@ == spec_encode_args(pre) + spec_encode_arg(args@[i as int]));
        }
        i += 1;
    }
    proof {
        assert(args@.subrange(0, args@.len() as int) =~= args@);
    }
    Ok(out)
}

} // verus!
