//! The token metadata record: the structured fields stored at an asset's
//! metadata address, their binary encoding, and the pure update that merges
//! requested field changes into a current record.

use vstd::prelude::*;
use vstd::bytes::{spec_u16_to_le_bytes, spec_u32_to_le_bytes, spec_u64_to_le_bytes};
use crate::addr::Address;
use crate::encode::{push_bytes, push_len_prefixed, push_u16_le, push_u32_le, push_u64_le,
    spec_len_prefixed};

verus! {

/// How a use of the asset is consumed.
#[derive(Clone, Copy, Debug, PartialEq, Eq, Structural)]
pub enum UseMethod {
    Burn,
    Multiple,
    Single,
}

/// A creator listed on a metadata record.
#[derive(Clone, Copy, Debug)]
pub struct Creator {
    pub address: Address,
    pub verified: bool,
    pub share: u8,
}

/// The collection an asset belongs to.
#[derive(Clone, Copy, Debug)]
pub struct Collection {
    pub verified: bool,
    pub key: Address,
}

/// The use-tracking fields of a metadata record.
#[derive(Clone, Copy, Debug)]
pub struct Uses {
    pub use_method: UseMethod,
    pub remaining: u64,
    pub total: u64,
}

/// A metadata record: the data fields the metadata program stores for an
/// asset. Text fields are byte strings.
#[derive(Clone, Debug)]
pub struct MetadataRecord {
    pub name: Vec<u8>,
    pub symbol: Vec<u8>,
    pub uri: Vec<u8>,
    pub seller_fee_basis_points: u16,
    pub creators: Option<Vec<Creator>>,
    pub collection: Option<Collection>,
    pub uses: Option<Uses>,
}

/// The single byte encoding a boolean.
pub open spec fn bool_byte(b: bool) -> u8 {
    if b {
        1u8
    } else {
        0u8
    }
}

/// The tag byte of a use method.
pub open spec fn use_method_byte(m: UseMethod) -> u8 {
    match m {
        UseMethod::Burn => 0u8,
        UseMethod::Multiple => 1u8,
        UseMethod::Single => 2u8,
    }
}

/// The encoding of one creator: address, verified flag, share.
pub open spec fn spec_creator(c: Creator) -> Seq<u8> {
    c.address@ + seq![bool_byte(c.verified), c.share]
}

/// The concatenated encodings of a creator list.
pub open spec fn spec_creators_cat(cs: Seq<Creator>) -> Seq<u8>
    decreases cs.len(),
{
    if cs.len() == 0 {
        Seq::empty()
    } else {
        spec_creators_cat(cs.drop_last()) + spec_creator(cs.last())
    }
}

/// The encoding of a creator list: a four-byte count, then each creator.
pub open spec fn spec_creators_list(cs: Seq<Creator>) -> Seq<u8>
    recommends
        cs.len() <= u32::MAX,
{
    spec_u32_to_le_bytes(cs.len() as u32) + spec_creators_cat(cs)
}

/// The encoding of a collection reference: verified flag, then key.
pub open spec fn spec_collection(c: Collection) -> Seq<u8> {
    seq![bool_byte(c.verified)] + c.key@
}

/// The encoding of the use-tracking fields.
pub open spec fn spec_uses(u: Uses) -> Seq<u8> {
    seq![use_method_byte(u.use_method)] + spec_u64_to_le_bytes(u.remaining)
        + spec_u64_to_le_bytes(u.total)
}

/// The creator list of a record, as a sequence.
pub open spec fn creators_view(c: Option<Vec<Creator>>) -> Option<Seq<Creator>> {
    match c {
        Option::None => Option::None,
        Option::Some(v) => Option::Some(v@),
    }
}

/// Whether every variable-length field of the record fits its declared
/// four-byte length prefix.
pub open spec fn record_in_range(m: MetadataRecord) -> bool {
    &&& m.name@.len() <= u32::MAX
    &&& m.symbol@.len() <= u32::MAX
    &&& m.uri@.len() <= u32::MAX
    &&& (m.creators matches Option::Some(cs) ==> cs@.len() <= u32::MAX)
}

/// The encoding of a whole metadata record, field by field in declared
/// order: name, symbol, uri, seller fee, creators, collection, uses, with
/// each optional field prefixed by a presence byte.
pub open spec fn spec_record(m: MetadataRecord) -> Seq<u8>
    recommends
        record_in_range(m),
{
    spec_len_prefixed(m.name@) + spec_len_prefixed(m.symbol@) + spec_len_prefixed(m.uri@)
        + spec_u16_to_le_bytes(m.seller_fee_basis_points) + (match m.creators {
        Option::None => seq![0u8],
        Option::Some(cs) => seq![1u8] + spec_creators_list(cs@),
    }) + (match m.collection {
        Option::None => seq![0u8],
        Option::Some(c) => seq![1u8] + spec_collection(c),
    }) + (match m.uses {
        Option::None => seq![0u8],
        Option::Some(u) => seq![1u8] + spec_uses(u),
    })
}

/// Whether the record's variable-length fields fit their declared widths.
pub fn record_fits(m: &MetadataRecord) -> (r: bool)
    ensures
        r == record_in_range(*m),
{
    let name_ok = m.name.len() <= u32::MAX as usize;
    let symbol_ok = m.symbol.len() <= u32::MAX as usize;
    let uri_ok = m.uri.len() <= u32::MAX as usize;
    let creators_ok = match &m.creators {
        Option::None => true,
        Option::Some(cs) => cs.len() <= u32::MAX as usize,
    };
    name_ok && symbol_ok && uri_ok && creators_ok
}

/// Appends the encoding of one creator.
fn push_creator(out: &mut Vec<u8>, c: &Creator)
    ensures
        final(out)@ == old(out)@ + spec_creator(*c),
{
    push_bytes(out, c.address.bytes.as_slice());
    out.push(if c.verified { 1u8 } else { 0u8 });
    out.push(c.share);
    proof {
        assert(out@ =~= old(out)@ + spec_creator(*c));
    }
}

/// Appends the encoding of a creator list.
fn push_creators_list(out: &mut Vec<u8>, cs: &Vec<Creator>)
    requires
        cs@.len() <= u32::MAX,
    ensures
        final(out)@ == old(out)@ + spec_creators_list(cs@),
{
    push_u32_le(out, cs.len() as u32);
    let mut i: usize = 0;
    while i < cs.len()
        invariant
            i <= cs@.len(),
            cs@.len() <= u32::MAX,
            out@ == old(out)@ + spec_u32_to_le_bytes(cs@.len() as u32) + spec_creators_cat(
                cs@.subrange(0, i as int),
            ),
        decreases cs@.len() - i,
    {
        push_creator(out, &cs[i]);
        proof {
            assert(cs@.subrange(0, i + 1).drop_last() =~= cs@.subrange(0, i as int));
            assert(cs@.subrange(0, i + 1).last() == cs@[i as int]);
        }
        i += 1;
    }
    proof {
        assert(cs@.subrange(0, cs@.len() as int) =~= cs@);
    }
}

/// Appends the encoding of a whole record, in declared field order.
#[verifier::rlimit(60)]
pub fn push_record(out: &mut Vec<u8>, m: &MetadataRecord)
    requires
        record_in_range(*m),
    ensures
        final(out)@ == old(out)@ + spec_record(*m),
{
    let _name_ok = push_len_prefixed(out, m.name.as_slice());
    let _symbol_ok = push_len_prefixed(out, m.symbol.as_slice());
    let _uri_ok = push_len_prefixed(out, m.uri.as_slice());
    push_u16_le(out, m.seller_fee_basis_points);
    let ghost head = old(out)@ + spec_len_prefixed(m.name@) + spec_len_prefixed(m.symbol@)
        + spec_len_prefixed(m.uri@) + spec_u16_to_le_bytes(m.seller_fee_basis_points);
    proof {
        assert(out@ =~= head);
    }
    match &m.creators {
        Option::None => {
            out.push(0u8);
            proof {
                assert(out@ =~= head + seq![0u8]);
            }
        },
        Option::Some(cs) => {
            out.push(1u8);
            push_creators_list(out, cs);
            proof {
                assert(out@ =~= head + (seq![1u8] + spec_creators_list(cs@)));
            }
        },
    }
    let ghost with_creators = head + (match &m.creators {
        Option::None => seq![0u8],
        Option::Some(cs) => seq![1u8] + spec_creators_list(cs@),
    });
    proof {
        assert(out@ =~= with_creators);
    }
    match &m.collection {
        Option::None => {
            out.push(0u8);
            proof {
                assert(out@ =~= with_creators + seq![0u8]);
            }
        },
        Option::Some(c) => {
            out.push(1u8);
            out.push(if c.verified { 1u8 } else { 0u8 });
            push_bytes(out, c.key.bytes.as_slice());
            proof {
                assert(out@ =~= with_creators + (seq![1u8] + spec_collection(*c)));
            }
        },
    }
    let ghost with_collection = with_creators + (match &m.collection {
        Option::None => seq![0u8],
        Option::Some(c) => seq![1u8] + spec_collection(*c),
    });
    proof {
        assert(out@ =~= with_collection);
    }
    match &m.uses {
        Option::None => {
            out.push(0u8);
            proof {
                assert(out@ =~= with_collection + seq![0u8]);
            }
        },
        Option::Some(u) => {
            out.push(1u8);
            out.push(match u.use_method {
                UseMethod::Burn => 0u8,
                UseMethod::Multiple => 1u8,
                UseMethod::Single => 2u8,
            });
            push_u64_le(out, u.remaining);
            push_u64_le(out, u.total);
            proof {
                assert(out@ =~= with_collection + (seq![1u8] + spec_uses(*u)));
            }
        },
    }
    proof {
        assert(out@ =~= old(out)@ + spec_record(*m));
    }
}

/// The requested changes to a metadata record: each field optionally
/// present; an absent field keeps its current value.
#[derive(Clone, Debug)]
pub struct MetadataUpdate {
    pub name: Option<Vec<u8>>,
    pub symbol: Option<Vec<u8>>,
    pub uri: Option<Vec<u8>>,
    pub seller_fee_basis_points: Option<u16>,
}

/// Copies a creator list.
fn copy_creators(v: &Vec<Creator>) -> (r: Vec<Creator>)
    ensures
        r@ == v@,
{
    let mut out: Vec<Creator> = Vec::new();
    let mut i: usize = 0;
    while i < v.len()
        invariant
            i <= v@.len(),
            out@ == v@.subrange(0, i as int),
        decreases v@.len() - i,
    {
        out.push(v[i]);
        proof {
            assert(v@.subrange(0, i + 1) =~= v@.subrange(0, i as int) + seq![v@[i as int]]);
        }
        i += 1;
    }
    proof {
        assert(v@.subrange(0, v@.len() as int) =~= v@);
    }
    out
}

/// Merges requested field changes into a current record: every requested
/// field is replaced, every other field — including creators, collection
/// and uses — is kept unchanged.
pub fn apply_metadata_update(current: &MetadataRecord, changes: &MetadataUpdate) -> (r:
    MetadataRecord)
    ensures
        r.name@ == (match changes.name {
            Option::Some(n) => n@,
            Option::None => current.name@,
        }),
        r.symbol@ == (match changes.symbol {
            Option::Some(s) => s@,
            Option::None => current.symbol@,
        }),
        r.uri@ == (match changes.uri {
            Option::Some(u) => u@,
            Option::None => current.uri@,
        }),
        r.seller_fee_basis_points == (match changes.seller_fee_basis_points {
            Option::Some(f) => f,
            Option::None => current.seller_fee_basis_points,
        }),
        creators_view(r.creators) == creators_view(current.creators),
        r.collection == current.collection,
        r.uses == current.uses,
{
    let name = match &changes.name {
        Option::Some(n) => vstd::slice::slice_to_vec(n.as_slice()),
        Option::None => vstd::slice::slice_to_vec(current.name.as_slice()),
    };
    let symbol = match &changes.symbol {
        Option::Some(s) => vstd::slice::slice_to_vec(s.as_slice()),
        Option::None => vstd::slice::slice_to_vec(current.symbol.as_slice()),
    };
    let uri = match &changes.uri {
        Option::Some(u) => vstd::slice::slice_to_vec(u.as_slice()),
        Option::None => vstd::slice::slice_to_vec(current.uri.as_slice()),
    };
    let seller_fee_basis_points = match &changes.seller_fee_basis_points {
        Option::Some(f) => *f,
        Option::None => current.seller_fee_basis_points,
    };
    let creators = match &current.creators {
        Option::None => Option::None,
        Option::Some(cs) => Option::Some(copy_creators(cs)),
    };
    MetadataRecord {
        name,
        symbol,
        uri,
        seller_fee_basis_points,
        creators,
        collection: current.collection,
        uses: current.uses,
    }
}

} // verus!
