//! Deterministic address derivation: program-derived addresses found by a
//! bump-seed search for an off-curve candidate, and the canonical associated
//! token address and metadata record address built on top of it.

use vstd::prelude::*;
use crate::addr::{
    associated_token_program_id, metadata_program_id, associated_token_program, metadata_program,
    Address,
};
use crate::crypto::{is_on_curve, on_curve, sha256, sha256_of};
use crate::encode::push_bytes;
use crate::errors::ClientError;

verus! {

/// The domain separator appended to every derived-address preimage:
/// the ASCII bytes of `ProgramDerivedAddress`.
pub open spec fn pda_marker() -> Seq<u8> {
    seq![
        80u8, 114, 111, 103, 114, 97, 109, 68, 101, 114, 105, 118, 101, 100, 65, 100, 100, 114,
        101, 115, 115,
    ]
}

/// The concatenation of the seed byte-strings, in order.
pub open spec fn concat_seeds(seeds: Seq<Seq<u8>>) -> Seq<u8>
    decreases seeds.len(),
{
    if seeds.len() == 0 {
        Seq::empty()
    } else {
        concat_seeds(seeds.drop_last()) + seeds.last()
    }
}

/// The bytes hashed for one bump candidate: the seeds, the bump, the program
/// address, and the domain separator.
pub open spec fn pda_preimage(seeds: Seq<Seq<u8>>, bump: u8, program: Seq<u8>) -> Seq<u8> {
    concat_seeds(seeds) + seq![bump] + program + pda_marker()
}

/// The candidate address for one bump value.
pub open spec fn pda_candidate(seeds: Seq<Seq<u8>>, bump: u8, program: Seq<u8>) -> Seq<u8> {
    sha256_of(pda_preimage(seeds, bump, program))
}

/// The derivation result when bump candidates from `bump` down to 1 remain:
/// the first candidate, from the highest bump downward, that does not lie on
/// the signing curve. `None` when every remaining candidate is on-curve.
pub open spec fn derive_from(seeds: Seq<Seq<u8>>, program: Seq<u8>, bump: int) -> Option<
    (Seq<u8>, u8),
>
    decreases bump,
{
    if bump < 1 {
        None
    } else if !on_curve(pda_candidate(seeds, bump as u8, program)) {
        Some((pda_candidate(seeds, bump as u8, program), bump as u8))
    } else {
        derive_from(seeds, program, bump - 1)
    }
}

/// The derived program address for (program, seeds): bump candidates are
/// tried from 255 downward, exactly as the ledger's reference derivation
/// does, and the first off-curve candidate wins.
pub open spec fn spec_derive(seeds: Seq<Seq<u8>>, program: Seq<u8>) -> Option<(Seq<u8>, u8)> {
    derive_from(seeds, program, 255)
}

/// Determinism of derivation: the derived (address, bump) is a function of
/// the (program, seed list) alone, so repeated calls — in this process or
/// any other — agree.
pub proof fn lemma_derivation_deterministic(
    seeds: Seq<Seq<u8>>,
    program: Seq<u8>,
    r1: Option<(Seq<u8>, u8)>,
    r2: Option<(Seq<u8>, u8)>,
)
    requires
        r1 == spec_derive(seeds, program),
        r2 == spec_derive(seeds, program),
    ensures
        r1 == r2,
{
}

/// A derived address is never on the signing curve.
pub proof fn lemma_derived_off_curve(seeds: Seq<Seq<u8>>, program: Seq<u8>, bump: int)
    requires
        derive_from(seeds, program, bump) is Some,
        bump <= 255,
    ensures
        !on_curve(derive_from(seeds, program, bump)->Some_0.0),
    decreases bump,
{
    if bump >= 1 && on_curve(pda_candidate(seeds, bump as u8, program)) {
        lemma_derived_off_curve(seeds, program, bump - 1);
    }
}

/// Off-curve invariant: whenever the derivation succeeds, the derived
/// address does not lie on the signing curve, so no private key can ever
/// control it.
pub proof fn lemma_spec_derive_off_curve(seeds: Seq<Seq<u8>>, program: Seq<u8>)
    requires
        spec_derive(seeds, program) is Some,
    ensures
        !on_curve(spec_derive(seeds, program)->Some_0.0),
{
    lemma_derived_off_curve(seeds, program, 255);
}

/// Concatenates the seed byte-strings into one buffer.
fn concat_seed_vec(seeds: &Vec<Vec<u8>>) -> (r: Vec<u8>)
    ensures
        r@ == concat_seeds(seeds.deep_view()),
{
    let mut out: Vec<u8> = Vec::new();
    let mut i: usize = 0;
    while i < seeds.len()
        invariant
            i <= seeds@.len(),
            out@ == concat_seeds(seeds.deep_view().subrange(0, i as int)),
        decreases seeds@.len() - i,
    {
        push_bytes(&mut out, seeds[i].as_slice());
        proof {
            let sv = seeds.deep_view();
            assert(sv.subrange(0, i + 1).drop_last() =~= sv.subrange(0, i as int));
            assert(seeds@[i as int].deep_view() =~= seeds@[i as int]@);
            assert(sv.subrange(0, i + 1).last() == seeds@[i as int].deep_view());
        }
        i += 1;
    }
    proof {
        let sv = seeds.deep_view();
        assert(sv.subrange(0, sv.len() as int) =~= sv);
    }
    out
}

/// Appends the domain separator.
fn push_marker(out: &mut Vec<u8>)
    ensures
        final(out)@ == old(out)@ + pda_marker(),
{
    let m: [u8; 21] = [
        80u8, 114, 111, 103, 114, 97, 109, 68, 101, 114, 105, 118, 101, 100, 65, 100, 100, 114,
        101, 115, 115,
    ];
    proof {
        assert(m@ =~= pda_marker());
    }
    push_bytes(out, m.as_slice());
}

/// Derives the program-owned address for (program, seeds): tries bump
/// candidates from 255 downward and returns the first whose hash is off the
/// signing curve, together with that bump. Fails — with the same result on
/// every retry — only if all candidates are on-curve.
pub fn derive_program_address(program: &Address, seeds: &Vec<Vec<u8>>) -> (r: Result<
    (Address, u8),
    ClientError,
>)
    ensures
        r is Ok <==> spec_derive(seeds.deep_view(), program@) is Some,
        r matches Ok(p) ==> spec_derive(seeds.deep_view(), program@) == Some((p.0@, p.1)),
        r matches Ok(p) ==> !on_curve(p.0@),
        r is Err ==> r == Err::<(Address, u8), ClientError>(ClientError::NoValidBumpFound),
{
    let base = concat_seed_vec(seeds);
    let ghost sv = seeds.deep_view();
    let mut bump: u8 = 255;
    loop
        invariant
            1 <= bump <= 255,
            base@ == concat_seeds(sv),
            sv == seeds.deep_view(),
            spec_derive(sv, program@) == derive_from(sv, program@, bump as int),
        decreases bump,
    {
        let mut pre: Vec<u8> = Vec::new();
        push_bytes(&mut pre, base.as_slice());
        pre.push(bump);
        push_bytes(&mut pre, program.bytes.as_slice());
        push_marker(&mut pre);
        proof {
            assert(pre@ =~= pda_preimage(sv, bump, program@));
        }
        let h = sha256(pre.as_slice());
        if !is_on_curve(&h) {
            proof {
                assert(derive_from(sv, program@, bump as int) == Some((h@, bump)));
            }
            return Ok((Address { bytes: h }, bump));
        }
        if bump == 1 {
            proof {
                assert(derive_from(sv, program@, 1int) == derive_from(sv, program@, 0int));
            }
            return Err(ClientError::NoValidBumpFound);
        }
        proof {
            assert(derive_from(sv, program@, bump as int) == derive_from(
                sv,
                program@,
                bump - 1,
            ));
        }
        bump = bump - 1;
    }
}

/// The seed list of the canonical associated token address for
/// (owner, asset) under a given token program.
pub open spec fn ata_seeds(owner: Seq<u8>, asset: Seq<u8>, token_prog: Seq<u8>) -> Seq<Seq<u8>> {
    seq![owner, token_prog, asset]
}

/// The canonical associated token address for (owner, asset): the program
/// address derived from [owner, token program, asset] under the associated
/// token program. Exactly one exists per pair.
pub open spec fn spec_associated_address(owner: Seq<u8>, asset: Seq<u8>, token_prog: Seq<u8>) -> Option<
    (Seq<u8>, u8),
> {
    spec_derive(ata_seeds(owner, asset, token_prog), associated_token_program_id())
}

/// Derives the canonical associated token address for (owner, asset).
pub fn derive_associated_address(owner: &Address, asset: &Address, token_prog: &Address) -> (r:
    Result<Address, ClientError>)
    ensures
        r is Ok <==> spec_associated_address(owner@, asset@, token_prog@) is Some,
        r matches Ok(a) ==> spec_associated_address(owner@, asset@, token_prog@) matches Some(p)
            && a@ == p.0,
        r is Err ==> r == Err::<Address, ClientError>(ClientError::NoValidBumpFound),
{
    let mut seeds: Vec<Vec<u8>> = Vec::new();
    seeds.push(vstd::slice::slice_to_vec(owner.bytes.as_slice()));
    seeds.push(vstd::slice::slice_to_vec(token_prog.bytes.as_slice()));
    seeds.push(vstd::slice::slice_to_vec(asset.bytes.as_slice()));
    proof {
        assert(seeds@[0].deep_view() =~= owner@);
        assert(seeds@[1].deep_view() =~= token_prog@);
        assert(seeds@[2].deep_view() =~= asset@);
        assert(seeds.deep_view() =~= ata_seeds(owner@, asset@, token_prog@));
    }
    let program = associated_token_program();
    match derive_program_address(&program, &seeds) {
        Ok(p) => Ok(p.0),
        Err(e) => Err(e),
    }
}

/// The ASCII bytes of the fixed seed tag `metadata`.
pub open spec fn metadata_seed_tag() -> Seq<u8> {
    seq![109u8, 101, 116, 97, 100, 97, 116, 97]
}

/// The metadata record address for an asset: derived from
/// [the tag, the metadata program, the asset] under the metadata program.
pub open spec fn spec_metadata_address(mint: Seq<u8>) -> Option<(Seq<u8>, u8)> {
    spec_derive(
        seq![metadata_seed_tag(), metadata_program_id(), mint],
        metadata_program_id(),
    )
}

/// Derives the metadata record address for an asset.
pub fn derive_metadata_address(mint: &Address) -> (r: Result<Address, ClientError>)
    ensures
        r is Ok <==> spec_metadata_address(mint@) is Some,
        r matches Ok(a) ==> spec_metadata_address(mint@) matches Some(p) && a@ == p.0,
        r is Err ==> r == Err::<Address, ClientError>(ClientError::NoValidBumpFound),
{
    let tag: [u8; 8] = [109u8, 101, 116, 97, 100, 97, 116, 97];
    let program = metadata_program();
    let mut seeds: Vec<Vec<u8>> = Vec::new();
    seeds.push(vstd::slice::slice_to_vec(tag.as_slice()));
    seeds.push(vstd::slice::slice_to_vec(program.bytes.as_slice()));
    seeds.push(vstd::slice::slice_to_vec(mint.bytes.as_slice()));
    proof {
        assert(seeds@[0].deep_view() =~= metadata_seed_tag());
        assert(seeds@[1].deep_view() =~= metadata_program_id());
        assert(seeds@[2].deep_view() =~= mint@);
        assert(seeds.deep_view() =~= seq![metadata_seed_tag(), metadata_program_id(), mint@]);
    }
    match derive_program_address(&program, &seeds) {
        Ok(p) => Ok(p.0),
        Err(e) => Err(e),
    }
}

} // verus!
