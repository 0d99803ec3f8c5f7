//! The instruction builders: one pure function per supported operation.
//! Each maps semantic parameters to a program address, an exactly ordered
//! account list with signer/writable flags, and an opaque byte payload —
//! the single most error-prone contract in the system, so each builder's
//! account table and payload are pinned down byte for byte.

use vstd::prelude::*;
use vstd::bytes::{spec_u16_to_le_bytes, spec_u64_to_le_bytes};
use crate::addr::{
    associated_token_program, associated_token_program_id, metadata_program, metadata_program_id,
    sysvar_instructions, sysvar_instructions_id, system_program, system_program_id, token_program,
    token_program_id, Address,
};
use crate::encode::{
    discriminator, push_bytes, push_len_prefixed, push_u16_le, push_u64_le, spec_discriminator,
    spec_len_prefixed,
};
use crate::errors::ClientError;
use crate::instruction::{accounts_match, AccountRef, Instruction};
use crate::metadata::{bool_byte, push_record, record_fits, record_in_range, spec_record,
    MetadataRecord};
use crate::pda::{
    derive_associated_address, derive_metadata_address, derive_program_address,
    spec_associated_address, spec_derive, spec_metadata_address,
};

verus! {

// ---------------------------------------------------------------------------
// Freeze / unfreeze
// ---------------------------------------------------------------------------

/// The account table of a freeze or thaw: the token account, its mint, and
/// the freeze authority — listed once unsigned (as the owner slot) and once
/// as a signer, as the token program's multi-signer convention requires.
pub open spec fn thaw_freeze_accounts(token_acct: Seq<u8>, mint: Seq<u8>, authority: Seq<u8>) -> Seq<
    (Seq<u8>, bool, bool),
> {
    seq![
        (token_acct, false, true),
        (mint, false, false),
        (authority, false, false),
        (authority, true, false),
    ]
}

/// What a built freeze or thaw instruction looks like: addressed to the
/// token program, over the receiver's associated token account, with the
/// single opcode byte as payload.
pub open spec fn freeze_thaw_built(
    ix: Instruction,
    mint: Seq<u8>,
    receiver: Seq<u8>,
    authority: Seq<u8>,
    opcode: u8,
) -> bool {
    &&& ix.program@ == token_program_id()
    &&& spec_associated_address(receiver, mint, token_program_id()) matches Some(p)
        && accounts_match(ix.accounts@, thaw_freeze_accounts(p.0, mint, authority))
    &&& ix.data@ == seq![opcode]
}

/// Shared body of the freeze and thaw builders.
fn build_freeze_or_thaw(authority: &Address, mint: &Address, receiver: &Address, opcode: u8) -> (r:
    Result<Instruction, ClientError>)
    ensures
        r is Ok <==> spec_associated_address(receiver@, mint@, token_program_id()) is Some,
        r matches Ok(ix) ==> freeze_thaw_built(ix, mint@, receiver@, authority@, opcode),
        r is Err ==> r == Err::<Instruction, ClientError>(ClientError::NoValidBumpFound),
{
    let tok = token_program();
    let ata = match derive_associated_address(receiver, mint, &tok) {
        Ok(a) => a,
        Err(e) => {
            return Err(e);
        },
    };
    let mut accounts: Vec<AccountRef> = Vec::new();
    accounts.push(AccountRef::writable(ata, false));
    accounts.push(AccountRef::readonly(*mint, false));
    accounts.push(AccountRef::readonly(*authority, false));
    accounts.push(AccountRef::readonly(*authority, true));
    let mut data: Vec<u8> = Vec::new();
    data.push(opcode);
    proof {
        let p = spec_associated_address(receiver@, mint@, token_program_id())->Some_0;
        assert(accounts_match(accounts@, thaw_freeze_accounts(p.0, mint@, authority@)));
        assert(data@ =~= seq![opcode]);
    }
    Ok(Instruction { program: tok, accounts, data })
}

/// Builds the instruction that freezes the receiver's associated token
/// account for the given asset, signed by the freeze authority.
pub fn build_freeze(authority: &Address, mint: &Address, receiver: &Address) -> (r: Result<
    Instruction,
    ClientError,
>)
    ensures
        r is Ok <==> spec_associated_address(receiver@, mint@, token_program_id()) is Some,
        r matches Ok(ix) ==> freeze_thaw_built(ix, mint@, receiver@, authority@, 10u8),
        r is Err ==> r == Err::<Instruction, ClientError>(ClientError::NoValidBumpFound),
{
    build_freeze_or_thaw(authority, mint, receiver, 10u8)
}

/// Builds the instruction that unfreezes (thaws) the receiver's associated
/// token account for the given asset, signed by the freeze authority.
pub fn build_unfreeze(authority: &Address, mint: &Address, receiver: &Address) -> (r: Result<
    Instruction,
    ClientError,
>)
    ensures
        r is Ok <==> spec_associated_address(receiver@, mint@, token_program_id()) is Some,
        r matches Ok(ix) ==> freeze_thaw_built(ix, mint@, receiver@, authority@, 11u8),
        r is Err ==> r == Err::<Instruction, ClientError>(ClientError::NoValidBumpFound),
{
    build_freeze_or_thaw(authority, mint, receiver, 11u8)
}

// ---------------------------------------------------------------------------
// Update mint / freeze authority
// ---------------------------------------------------------------------------

/// Which of the asset's authorities is updated.
#[derive(Clone, Copy, Debug, PartialEq, Eq, Structural)]
pub enum AuthorityKind {
    /// The authority allowed to mint new tokens.
    Mint,
    /// The authority allowed to freeze accounts of the asset.
    Freeze,
}

/// The tag byte of an authority kind in the token program's encoding.
pub open spec fn authority_kind_byte(k: AuthorityKind) -> u8 {
    match k {
        AuthorityKind::Mint => 0u8,
        AuthorityKind::Freeze => 1u8,
    }
}

/// The payload of a set-authority instruction: the opcode, the authority
/// kind, and the optional new authority (1 + key, or a lone 0 to revoke).
pub open spec fn set_authority_data(k: AuthorityKind, new_authority: Option<Seq<u8>>) -> Seq<u8> {
    seq![6u8, authority_kind_byte(k)] + (match new_authority {
        Option::None => seq![0u8],
        Option::Some(a) => seq![1u8] + a,
    })
}

/// The account table of a set-authority: the mint, and the current
/// authority — once unsigned, once as a signer.
pub open spec fn set_authority_accounts(mint: Seq<u8>, authority: Seq<u8>) -> Seq<
    (Seq<u8>, bool, bool),
> {
    seq![(mint, false, true), (authority, false, false), (authority, true, false)]
}

/// Builds the instruction that hands the mint or freeze authority of an
/// asset to a new address, or revokes it when no new authority is given.
pub fn build_set_authority(
    authority: &Address,
    mint: &Address,
    kind: AuthorityKind,
    new_authority: Option<&Address>,
) -> (r: Instruction)
    ensures
        r.program@ == token_program_id(),
        accounts_match(r.accounts@, set_authority_accounts(mint@, authority@)),
        r.data@ == set_authority_data(
            kind,
            match new_authority {
                Option::Some(a) => Option::Some(a@),
                Option::None => Option::None,
            },
        ),
{
    let tok = token_program();
    let mut accounts: Vec<AccountRef> = Vec::new();
    accounts.push(AccountRef::writable(*mint, false));
    accounts.push(AccountRef::readonly(*authority, false));
    accounts.push(AccountRef::readonly(*authority, true));
    let mut data: Vec<u8> = Vec::new();
    data.push(6u8);
    data.push(match kind {
        AuthorityKind::Mint => 0u8,
        AuthorityKind::Freeze => 1u8,
    });
    match new_authority {
        Option::None => {
            data.push(0u8);
        },
        Option::Some(a) => {
            data.push(1u8);
            push_bytes(&mut data, a.bytes.as_slice());
        },
    }
    proof {
        assert(accounts_match(accounts@, set_authority_accounts(mint@, authority@)));
        assert(data@ =~= set_authority_data(
            kind,
            match new_authority {
                Option::Some(a) => Option::Some(a@),
                Option::None => Option::None::<Seq<u8>>,
            },
        ));
    }
    Instruction { program: tok, accounts, data }
}

// ---------------------------------------------------------------------------
// Deposit liquidity to the bridge program
// ---------------------------------------------------------------------------

/// The ASCII bytes of the bridge program's state seed, `bridge_state`.
pub open spec fn bridge_state_seed() -> Seq<u8> {
    seq![98u8, 114, 105, 100, 103, 101, 95, 115, 116, 97, 116, 101]
}

/// The bridge program's state address: derived from the fixed state seed
/// under the bridge program itself.
pub open spec fn spec_bridge_state_address(program: Seq<u8>) -> Option<(Seq<u8>, u8)> {
    spec_derive(seq![bridge_state_seed()], program)
}

/// The ASCII bytes of the method namespace `global`.
pub open spec fn global_namespace() -> Seq<u8> {
    seq![103u8, 108, 111, 98, 97, 108]
}

/// The ASCII bytes of the method name `add_liquidity`.
pub open spec fn add_liquidity_method() -> Seq<u8> {
    seq![97u8, 100, 100, 95, 108, 105, 113, 117, 105, 100, 105, 116, 121]
}

/// The payload of a liquidity deposit: the 8-byte discriminator of
/// `global:add_liquidity` followed by the little-endian amount.
pub open spec fn add_liquidity_data(amount: u64) -> Seq<u8> {
    spec_discriminator(global_namespace(), add_liquidity_method()) + spec_u64_to_le_bytes(amount)
}

/// The account table of a liquidity deposit, in the order the bridge
/// program's handler expects.
pub open spec fn add_liquidity_accounts(
    bridge: Seq<u8>,
    vault: Seq<u8>,
    depositor: Seq<u8>,
    mint: Seq<u8>,
    depositor_ata: Seq<u8>,
) -> Seq<(Seq<u8>, bool, bool)> {
    seq![
        (bridge, false, true),
        (vault, false, true),
        (depositor, true, false),
        (mint, false, false),
        (depositor_ata, false, true),
        (system_program_id(), false, false),
        (token_program_id(), false, false),
        (associated_token_program_id(), false, false),
    ]
}

/// Whether every address a liquidity deposit needs can be derived.
pub open spec fn add_liquidity_derivable(program: Seq<u8>, depositor: Seq<u8>, mint: Seq<u8>) -> bool {
    &&& spec_bridge_state_address(program) is Some
    &&& (spec_bridge_state_address(program) matches Some(b) ==> spec_associated_address(
        b.0,
        mint,
        token_program_id(),
    ) is Some)
    &&& spec_associated_address(depositor, mint, token_program_id()) is Some
}

/// What a built liquidity deposit looks like: addressed to the bridge
/// program, over the derived state address, the vault's and the depositor's
/// associated token accounts, with the discriminator-plus-amount payload.
pub open spec fn add_liquidity_built(
    ix: Instruction,
    program: Seq<u8>,
    depositor: Seq<u8>,
    mint: Seq<u8>,
    amount: u64,
) -> bool {
    &&& ix.program@ == program
    &&& spec_bridge_state_address(program) matches Some(b) && spec_associated_address(
        b.0,
        mint,
        token_program_id(),
    ) matches Some(v) && spec_associated_address(depositor, mint, token_program_id())
        matches Some(d) && accounts_match(
        ix.accounts@,
        add_liquidity_accounts(b.0, v.0, depositor, mint, d.0),
    )
    &&& ix.data@ == add_liquidity_data(amount)
}

/// Builds the instruction that deposits `amount` of the asset into the
/// bridge program's vault as liquidity, signed by the depositor.
pub fn build_add_liquidity(program: &Address, depositor: &Address, mint: &Address, amount: u64) -> (r:
    Result<Instruction, ClientError>)
    ensures
        r is Ok <==> add_liquidity_derivable(program@, depositor@, mint@),
        r matches Ok(ix) ==> add_liquidity_built(ix, program@, depositor@, mint@, amount),
        r is Err ==> r == Err::<Instruction, ClientError>(ClientError::NoValidBumpFound),
{
    let seed: [u8; 12] = [98u8, 114, 105, 100, 103, 101, 95, 115, 116, 97, 116, 101];
    let mut seeds: Vec<Vec<u8>> = Vec::new();
    seeds.push(vstd::slice::slice_to_vec(seed.as_slice()));
    proof {
        assert(seeds@[0].deep_view() =~= bridge_state_seed());
        assert(seeds.deep_view() =~= seq![bridge_state_seed()]);
    }
    let bridge = match derive_program_address(program, &seeds) {
        Ok(p) => p.0,
        Err(e) => {
            return Err(e);
        },
    };
    let tok = token_program();
    let vault = match derive_associated_address(&bridge, mint, &tok) {
        Ok(a) => a,
        Err(e) => {
            return Err(e);
        },
    };
    let depositor_ata = match derive_associated_address(depositor, mint, &tok) {
        Ok(a) => a,
        Err(e) => {
            return Err(e);
        },
    };
    let mut accounts: Vec<AccountRef> = Vec::new();
    accounts.push(AccountRef::writable(bridge, false));
    accounts.push(AccountRef::writable(vault, false));
    accounts.push(AccountRef::readonly(*depositor, true));
    accounts.push(AccountRef::readonly(*mint, false));
    accounts.push(AccountRef::writable(depositor_ata, false));
    accounts.push(AccountRef::readonly(system_program(), false));
    accounts.push(AccountRef::readonly(tok, false));
    accounts.push(AccountRef::readonly(associated_token_program(), false));
    let ns: [u8; 6] = [103u8, 108, 111, 98, 97, 108];
    let mth: [u8; 13] = [97u8, 100, 100, 95, 108, 105, 113, 117, 105, 100, 105, 116, 121];
    proof {
        assert(ns@ =~= global_namespace());
        assert(mth@ =~= add_liquidity_method());
    }
    let mut data = discriminator(ns.as_slice(), mth.as_slice());
    push_u64_le(&mut data, amount);
    proof {
        let b = spec_bridge_state_address(program@)->Some_0;
        let v = spec_associated_address(b.0, mint@, token_program_id())->Some_0;
        let d = spec_associated_address(depositor@, mint@, token_program_id())->Some_0;
        assert(accounts_match(
            accounts@,
            add_liquidity_accounts(b.0, v.0, depositor@, mint@, d.0),
        ));
        assert(data@ =~= add_liquidity_data(amount));
    }
    Ok(Instruction { program: *program, accounts, data })
}

// ---------------------------------------------------------------------------
// Create fungible asset with metadata
// ---------------------------------------------------------------------------

/// Whether the text fields of an asset fit their declared four-byte length
/// prefixes.
pub open spec fn create_text_in_range(name: Seq<u8>, symbol: Seq<u8>, uri: Seq<u8>) -> bool {
    name.len() <= u32::MAX && symbol.len() <= u32::MAX && uri.len() <= u32::MAX
}

/// The payload of a create: the two-byte opcode, the three text fields, a
/// zero seller fee, no creators, primary sale not happened, mutable, the
/// fungible standard, no collection / uses / collection details / rule set,
/// the declared decimals, and no print supply.
pub open spec fn create_asset_data(name: Seq<u8>, symbol: Seq<u8>, uri: Seq<u8>, decimals: u8) -> Seq<
    u8,
>
    recommends
        create_text_in_range(name, symbol, uri),
{
    seq![42u8, 0u8] + spec_len_prefixed(name) + spec_len_prefixed(symbol) + spec_len_prefixed(uri)
        + spec_u16_to_le_bytes(0u16) + seq![0u8, 0u8, 1u8, 2u8, 0u8, 0u8, 0u8, 0u8] + seq![
        1u8,
        decimals,
    ] + seq![0u8]
}

/// The account table of a create, in the order the metadata program's
/// handler expects. The signer pays, mints and owns the update authority;
/// absent optional accounts hold the metadata program's own address.
pub open spec fn create_asset_accounts(metadata: Seq<u8>, mint: Seq<u8>, signer: Seq<u8>) -> Seq<
    (Seq<u8>, bool, bool),
> {
    seq![
        (metadata, false, true),
        (metadata_program_id(), false, false),
        (mint, true, true),
        (signer, true, false),
        (signer, true, true),
        (signer, true, false),
        (system_program_id(), false, false),
        (sysvar_instructions_id(), false, false),
        (token_program_id(), false, false),
    ]
}

/// What a built create looks like.
pub open spec fn create_asset_built(
    ix: Instruction,
    mint: Seq<u8>,
    signer: Seq<u8>,
    decimals: u8,
    name: Seq<u8>,
    symbol: Seq<u8>,
    uri: Seq<u8>,
) -> bool {
    &&& ix.program@ == metadata_program_id()
    &&& spec_metadata_address(mint) matches Some(p) && accounts_match(
        ix.accounts@,
        create_asset_accounts(p.0, mint, signer),
    )
    &&& ix.data@ == create_asset_data(name, symbol, uri, decimals)
}

/// Builds the single instruction that creates a new fungible asset with its
/// metadata record: the signer pays, signs as mint authority and becomes
/// the update authority.
#[verifier::rlimit(60)]
pub fn build_create_asset(
    signer: &Address,
    mint: &Address,
    decimals: u8,
    name: &Vec<u8>,
    symbol: &Vec<u8>,
    uri: &Vec<u8>,
) -> (r: Result<Instruction, ClientError>)
    ensures
        r is Ok <==> spec_metadata_address(mint@) is Some && create_text_in_range(
            name@,
            symbol@,
            uri@,
        ),
        r matches Ok(ix) ==> create_asset_built(ix, mint@, signer@, decimals, name@, symbol@, uri@),
        spec_metadata_address(mint@) is None ==> r == Err::<Instruction, ClientError>(
            ClientError::NoValidBumpFound,
        ),
        spec_metadata_address(mint@) is Some && !create_text_in_range(name@, symbol@, uri@) ==> r
            == Err::<Instruction, ClientError>(ClientError::EncodingRangeError),
{
    let metadata = match derive_metadata_address(mint) {
        Ok(a) => a,
        Err(e) => {
            return Err(e);
        },
    };
    if name.len() > u32::MAX as usize || symbol.len() > u32::MAX as usize || uri.len()
        > u32::MAX as usize {
        return Err(ClientError::EncodingRangeError);
    }
    let mpl = metadata_program();
    let mut accounts: Vec<AccountRef> = Vec::new();
    accounts.push(AccountRef::writable(metadata, false));
    accounts.push(AccountRef::readonly(mpl, false));
    accounts.push(AccountRef::writable(*mint, true));
    accounts.push(AccountRef::readonly(*signer, true));
    accounts.push(AccountRef::writable(*signer, true));
    accounts.push(AccountRef::readonly(*signer, true));
    accounts.push(AccountRef::readonly(system_program(), false));
    accounts.push(AccountRef::readonly(sysvar_instructions(), false));
    accounts.push(AccountRef::readonly(token_program(), false));
    let mut data: Vec<u8> = Vec::new();
    data.push(42u8);
    data.push(0u8);
    let ghost d0 = seq![42u8, 0u8];
    proof {
        assert(data@ =~= d0);
    }
    let _name_ok = push_len_prefixed(&mut data, name.as_slice());
    let _symbol_ok = push_len_prefixed(&mut data, symbol.as_slice());
    let _uri_ok = push_len_prefixed(&mut data, uri.as_slice());
    push_u16_le(&mut data, 0u16);
    let ghost d1 = d0 + spec_len_prefixed(name@) + spec_len_prefixed(symbol@) + spec_len_prefixed(
        uri@,
    ) + spec_u16_to_le_bytes(0u16);
    proof {
        assert(data@ =~= d1);
    }
    let tail: [u8; 8] = [0u8, 0, 1, 2, 0, 0, 0, 0];
    push_bytes(&mut data, tail.as_slice());
    data.push(1u8);
    data.push(decimals);
    data.push(0u8);
    proof {
        assert(data@ =~= create_asset_data(name@, symbol@, uri@, decimals));
        let p = spec_metadata_address(mint@)->Some_0;
        assert(accounts_match(accounts@, create_asset_accounts(p.0, mint@, signer@)));
    }
    Ok(Instruction { program: mpl, accounts, data })
}

// ---------------------------------------------------------------------------
// Mint to an account
// ---------------------------------------------------------------------------

/// The payload of a mint: the two-byte opcode, the little-endian amount,
/// and no authorization data.
pub open spec fn mint_to_data(amount: u64) -> Seq<u8> {
    seq![43u8, 0u8] + spec_u64_to_le_bytes(amount) + seq![0u8]
}

/// The account table of a mint, in the order the metadata program's handler
/// expects; absent optional accounts hold the metadata program's address.
pub open spec fn mint_to_accounts(
    receiver_ata: Seq<u8>,
    receiver: Seq<u8>,
    metadata: Seq<u8>,
    mint: Seq<u8>,
    signer: Seq<u8>,
) -> Seq<(Seq<u8>, bool, bool)> {
    seq![
        (receiver_ata, false, true),
        (receiver, false, false),
        (metadata, false, false),
        (metadata_program_id(), false, false),
        (metadata_program_id(), false, false),
        (mint, false, true),
        (signer, true, false),
        (metadata_program_id(), false, false),
        (signer, true, true),
        (system_program_id(), false, false),
        (sysvar_instructions_id(), false, false),
        (token_program_id(), false, false),
        (associated_token_program_id(), false, false),
        (metadata_program_id(), false, false),
        (metadata_program_id(), false, false),
    ]
}

/// Whether every address a mint needs can be derived.
pub open spec fn mint_to_derivable(mint: Seq<u8>, receiver: Seq<u8>) -> bool {
    spec_metadata_address(mint) is Some && spec_associated_address(
        receiver,
        mint,
        token_program_id(),
    ) is Some
}

/// What a built mint looks like.
pub open spec fn mint_to_built(
    ix: Instruction,
    mint: Seq<u8>,
    receiver: Seq<u8>,
    signer: Seq<u8>,
    amount: u64,
) -> bool {
    &&& ix.program@ == metadata_program_id()
    &&& spec_metadata_address(mint) matches Some(p) && spec_associated_address(
        receiver,
        mint,
        token_program_id(),
    ) matches Some(a) && accounts_match(
        ix.accounts@,
        mint_to_accounts(a.0, receiver, p.0, mint, signer),
    )
    &&& ix.data@ == mint_to_data(amount)
}

/// Builds the instruction that mints `amount` of the asset to the
/// receiver's associated token account, signed by the mint authority, who
/// also pays.
pub fn build_mint_to(signer: &Address, mint: &Address, receiver: &Address, amount: u64) -> (r:
    Result<Instruction, ClientError>)
    ensures
        r is Ok <==> mint_to_derivable(mint@, receiver@),
        r matches Ok(ix) ==> mint_to_built(ix, mint@, receiver@, signer@, amount),
        r is Err ==> r == Err::<Instruction, ClientError>(ClientError::NoValidBumpFound),
{
    let tok = token_program();
    let receiver_ata = match derive_associated_address(receiver, mint, &tok) {
        Ok(a) => a,
        Err(e) => {
            return Err(e);
        },
    };
    let metadata = match derive_metadata_address(mint) {
        Ok(a) => a,
        Err(e) => {
            return Err(e);
        },
    };
    let mpl = metadata_program();
    let mut accounts: Vec<AccountRef> = Vec::new();
    accounts.push(AccountRef::writable(receiver_ata, false));
    accounts.push(AccountRef::readonly(*receiver, false));
    accounts.push(AccountRef::readonly(metadata, false));
    accounts.push(AccountRef::readonly(mpl, false));
    accounts.push(AccountRef::readonly(mpl, false));
    accounts.push(AccountRef::writable(*mint, false));
    accounts.push(AccountRef::readonly(*signer, true));
    accounts.push(AccountRef::readonly(mpl, false));
    accounts.push(AccountRef::writable(*signer, true));
    accounts.push(AccountRef::readonly(system_program(), false));
    accounts.push(AccountRef::readonly(sysvar_instructions(), false));
    accounts.push(AccountRef::readonly(tok, false));
    accounts.push(AccountRef::readonly(associated_token_program(), false));
    accounts.push(AccountRef::readonly(mpl, false));
    accounts.push(AccountRef::readonly(mpl, false));
    let mut data: Vec<u8> = Vec::new();
    data.push(43u8);
    data.push(0u8);
    push_u64_le(&mut data, amount);
    data.push(0u8);
    proof {
        assert(data@ =~= mint_to_data(amount));
        let p = spec_metadata_address(mint@)->Some_0;
        let a = spec_associated_address(receiver@, mint@, token_program_id())->Some_0;
        assert(accounts_match(accounts@, mint_to_accounts(a.0, receiver@, p.0, mint@, signer@)));
    }
    Ok(Instruction { program: mpl, accounts, data })
}

// ---------------------------------------------------------------------------
// Transfer between accounts
// ---------------------------------------------------------------------------

/// The payload of a transfer: the two-byte opcode, the little-endian
/// amount, and no authorization data.
pub open spec fn transfer_data(amount: u64) -> Seq<u8> {
    seq![49u8, 0u8] + spec_u64_to_le_bytes(amount) + seq![0u8]
}

/// The account table of a transfer, in the order the metadata program's
/// handler expects; absent optional accounts hold the metadata program's
/// address.
pub open spec fn transfer_accounts(
    sender_ata: Seq<u8>,
    sender: Seq<u8>,
    receiver_ata: Seq<u8>,
    receiver: Seq<u8>,
    mint: Seq<u8>,
    metadata: Seq<u8>,
) -> Seq<(Seq<u8>, bool, bool)> {
    seq![
        (sender_ata, false, true),
        (sender, false, false),
        (receiver_ata, false, true),
        (receiver, false, false),
        (mint, false, false),
        (metadata, false, true),
        (metadata_program_id(), false, false),
        (metadata_program_id(), false, false),
        (metadata_program_id(), false, false),
        (sender, true, false),
        (sender, true, true),
        (system_program_id(), false, false),
        (sysvar_instructions_id(), false, false),
        (token_program_id(), false, false),
        (associated_token_program_id(), false, false),
        (metadata_program_id(), false, false),
        (metadata_program_id(), false, false),
    ]
}

/// Whether every address a transfer needs can be derived.
pub open spec fn transfer_derivable(mint: Seq<u8>, sender: Seq<u8>, receiver: Seq<u8>) -> bool {
    &&& spec_metadata_address(mint) is Some
    &&& spec_associated_address(sender, mint, token_program_id()) is Some
    &&& spec_associated_address(receiver, mint, token_program_id()) is Some
}

/// What a built transfer looks like.
pub open spec fn transfer_built(
    ix: Instruction,
    mint: Seq<u8>,
    sender: Seq<u8>,
    receiver: Seq<u8>,
    amount: u64,
) -> bool {
    &&& ix.program@ == metadata_program_id()
    &&& spec_metadata_address(mint) matches Some(p) && spec_associated_address(
        sender,
        mint,
        token_program_id(),
    ) matches Some(s) && spec_associated_address(receiver, mint, token_program_id())
        matches Some(d) && accounts_match(
        ix.accounts@,
        transfer_accounts(s.0, sender, d.0, receiver, mint, p.0),
    )
    &&& ix.data@ == transfer_data(amount)
}

/// Builds the instruction that transfers `amount` of the asset from the
/// sender's to the receiver's associated token account, signed by the
/// sender, who also pays.
pub fn build_transfer(sender: &Address, mint: &Address, receiver: &Address, amount: u64) -> (r:
    Result<Instruction, ClientError>)
    ensures
        r is Ok <==> transfer_derivable(mint@, sender@, receiver@),
        r matches Ok(ix) ==> transfer_built(ix, mint@, sender@, receiver@, amount),
        r is Err ==> r == Err::<Instruction, ClientError>(ClientError::NoValidBumpFound),
{
    let tok = token_program();
    let metadata = match derive_metadata_address(mint) {
        Ok(a) => a,
        Err(e) => {
            return Err(e);
        },
    };
    let sender_ata = match derive_associated_address(sender, mint, &tok) {
        Ok(a) => a,
        Err(e) => {
            return Err(e);
        },
    };
    let receiver_ata = match derive_associated_address(receiver, mint, &tok) {
        Ok(a) => a,
        Err(e) => {
            return Err(e);
        },
    };
    let mpl = metadata_program();
    let mut accounts: Vec<AccountRef> = Vec::new();
    accounts.push(AccountRef::writable(sender_ata, false));
    accounts.push(AccountRef::readonly(*sender, false));
    accounts.push(AccountRef::writable(receiver_ata, false));
    accounts.push(AccountRef::readonly(*receiver, false));
    accounts.push(AccountRef::readonly(*mint, false));
    accounts.push(AccountRef::writable(metadata, false));
    accounts.push(AccountRef::readonly(mpl, false));
    accounts.push(AccountRef::readonly(mpl, false));
    accounts.push(AccountRef::readonly(mpl, false));
    accounts.push(AccountRef::readonly(*sender, true));
    accounts.push(AccountRef::writable(*sender, true));
    accounts.push(AccountRef::readonly(system_program(), false));
    accounts.push(AccountRef::readonly(sysvar_instructions(), false));
    accounts.push(AccountRef::readonly(tok, false));
    accounts.push(AccountRef::readonly(associated_token_program(), false));
    accounts.push(AccountRef::readonly(mpl, false));
    accounts.push(AccountRef::readonly(mpl, false));
    let mut data: Vec<u8> = Vec::new();
    data.push(49u8);
    data.push(0u8);
    push_u64_le(&mut data, amount);
    data.push(0u8);
    proof {
        assert(data@ =~= transfer_data(amount));
        let p = spec_metadata_address(mint@)->Some_0;
        let s = spec_associated_address(sender@, mint@, token_program_id())->Some_0;
        let d = spec_associated_address(receiver@, mint@, token_program_id())->Some_0;
        assert(accounts_match(
            accounts@,
            transfer_accounts(s.0, sender@, d.0, receiver@, mint@, p.0),
        ));
    }
    Ok(Instruction { program: mpl, accounts, data })
}

// ---------------------------------------------------------------------------
// Update metadata
// ---------------------------------------------------------------------------

/// The payload of a metadata update: the opcode, the optional new record,
/// the optional new update authority, no change to the primary-sale flag,
/// and the optional mutability flag — each optional field prefixed by a
/// presence byte.
pub open spec fn update_metadata_data(
    record: Option<MetadataRecord>,
    new_update_authority: Option<Seq<u8>>,
    is_mutable: Option<bool>,
) -> Seq<u8> {
    seq![15u8] + (match record {
        Option::None => seq![0u8],
        Option::Some(m) => seq![1u8] + spec_record(m),
    }) + (match new_update_authority {
        Option::None => seq![0u8],
        Option::Some(k) => seq![1u8] + k,
    }) + seq![0u8] + (match is_mutable {
        Option::None => seq![0u8],
        Option::Some(b) => seq![1u8, bool_byte(b)],
    })
}

/// The account table of a metadata update: the record, and the update
/// authority as signer.
pub open spec fn update_metadata_accounts(metadata: Seq<u8>, update_authority: Seq<u8>) -> Seq<
    (Seq<u8>, bool, bool),
> {
    seq![(metadata, false, true), (update_authority, true, false)]
}

/// Whether the optional new record fits its declared widths.
pub open spec fn update_record_in_range(record: Option<MetadataRecord>) -> bool {
    record matches Option::Some(m) ==> record_in_range(m)
}

/// What a built metadata update looks like.
pub open spec fn update_metadata_built(
    ix: Instruction,
    mint: Seq<u8>,
    update_authority: Seq<u8>,
    record: Option<MetadataRecord>,
    new_update_authority: Option<Seq<u8>>,
    is_mutable: Option<bool>,
) -> bool {
    &&& ix.program@ == metadata_program_id()
    &&& spec_metadata_address(mint) matches Some(p) && accounts_match(
        ix.accounts@,
        update_metadata_accounts(p.0, update_authority),
    )
    &&& ix.data@ == update_metadata_data(record, new_update_authority, is_mutable)
}

/// Builds the instruction that updates an asset's metadata record, its
/// update authority, or its mutability, signed by the current update
/// authority.
#[verifier::rlimit(60)]
pub fn build_update_metadata(
    update_authority: &Address,
    mint: &Address,
    record: &Option<MetadataRecord>,
    new_update_authority: Option<&Address>,
    is_mutable: Option<bool>,
) -> (r: Result<Instruction, ClientError>)
    ensures
        r is Ok <==> spec_metadata_address(mint@) is Some && update_record_in_range(*record),
        r matches Ok(ix) ==> update_metadata_built(
            ix,
            mint@,
            update_authority@,
            *record,
            match new_update_authority {
                Option::Some(a) => Option::Some(a@),
                Option::None => Option::None,
            },
            is_mutable,
        ),
        spec_metadata_address(mint@) is None ==> r == Err::<Instruction, ClientError>(
            ClientError::NoValidBumpFound,
        ),
        spec_metadata_address(mint@) is Some && !update_record_in_range(*record) ==> r == Err::<
            Instruction,
            ClientError,
        >(ClientError::EncodingRangeError),
{
    let metadata = match derive_metadata_address(mint) {
        Ok(a) => a,
        Err(e) => {
            return Err(e);
        },
    };
    match record {
        Option::Some(m) => {
            if !record_fits(m) {
                return Err(ClientError::EncodingRangeError);
            }
        },
        Option::None => {},
    }
    let mpl = metadata_program();
    let mut accounts: Vec<AccountRef> = Vec::new();
    accounts.push(AccountRef::writable(metadata, false));
    accounts.push(AccountRef::readonly(*update_authority, true));
    let mut data: Vec<u8> = Vec::new();
    data.push(15u8);
    match record {
        Option::None => {
            data.push(0u8);
        },
        Option::Some(m) => {
            data.push(1u8);
            push_record(&mut data, m);
        },
    }
    let ghost d1 = seq![15u8] + (match record {
        Option::None => seq![0u8],
        Option::Some(m) => seq![1u8] + spec_record(*m),
    });
    proof {
        assert(data@ =~= d1);
    }
    match new_update_authority {
        Option::None => {
            data.push(0u8);
        },
        Option::Some(a) => {
            data.push(1u8);
            push_bytes(&mut data, a.bytes.as_slice());
        },
    }
    let ghost d2 = d1 + (match new_update_authority {
        Option::None => seq![0u8],
        Option::Some(a) => seq![1u8] + a@,
    });
    proof {
        assert(data@ =~= d2);
    }
    data.push(0u8);
    match is_mutable {
        Option::None => {
            data.push(0u8);
        },
        Option::Some(b) => {
            data.push(1u8);
            data.push(if b { 1u8 } else { 0u8 });
        },
    }
    proof {
        assert(data@ =~= update_metadata_data(
            *record,
            match new_update_authority {
                Option::Some(a) => Option::Some(a@),
                Option::None => Option::None::<Seq<u8>>,
            },
            is_mutable,
        ));
        let p = spec_metadata_address(mint@)->Some_0;
        assert(accounts_match(accounts@, update_metadata_accounts(p.0, update_authority@)));
    }
    Ok(Instruction { program: mpl, accounts, data })
}

// ---------------------------------------------------------------------------
// Operation dispatch
// ---------------------------------------------------------------------------

/// One supported operation, with its typed parameters. The signer named in
/// each variant is the account whose capability signs the transaction.
#[derive(Clone, Debug)]
pub enum Operation {
    /// Create a fungible asset with a metadata record.
    CreateAsset {
        signer: Address,
        mint: Address,
        decimals: u8,
        name: Vec<u8>,
        symbol: Vec<u8>,
        uri: Vec<u8>,
    },
    /// Mint tokens to the receiver's associated account.
    MintTo { signer: Address, mint: Address, receiver: Address, amount: u64 },
    /// Transfer tokens from the signer to the receiver.
    TransferTo { signer: Address, mint: Address, receiver: Address, amount: u64 },
    /// Freeze the receiver's associated account.
    Freeze { signer: Address, mint: Address, receiver: Address },
    /// Unfreeze the receiver's associated account.
    Unfreeze { signer: Address, mint: Address, receiver: Address },
    /// Update the asset's metadata record, update authority or mutability.
    UpdateMetadata {
        signer: Address,
        mint: Address,
        record: Option<MetadataRecord>,
        new_update_authority: Option<Address>,
        is_mutable: Option<bool>,
    },
    /// Hand the mint or freeze authority to a new address, or revoke it.
    SetAuthority { signer: Address, mint: Address, kind: AuthorityKind, new_authority: Option<Address> },
    /// Deposit liquidity into the bridge program's vault.
    AddLiquidity { signer: Address, program: Address, mint: Address, amount: u64 },
}

/// What the instruction built for an operation looks like, variant by
/// variant: each case repeats the builder's own golden contract.
pub open spec fn operation_built(op: Operation, ix: Instruction) -> bool {
    match op {
        Operation::CreateAsset { signer, mint, decimals, name, symbol, uri } => create_asset_built(
            ix,
            mint@,
            signer@,
            decimals,
            name@,
            symbol@,
            uri@,
        ),
        Operation::MintTo { signer, mint, receiver, amount } => mint_to_built(
            ix,
            mint@,
            receiver@,
            signer@,
            amount,
        ),
        Operation::TransferTo { signer, mint, receiver, amount } => transfer_built(
            ix,
            mint@,
            signer@,
            receiver@,
            amount,
        ),
        Operation::Freeze { signer, mint, receiver } => freeze_thaw_built(
            ix,
            mint@,
            receiver@,
            signer@,
            10u8,
        ),
        Operation::Unfreeze { signer, mint, receiver } => freeze_thaw_built(
            ix,
            mint@,
            receiver@,
            signer@,
            11u8,
        ),
        Operation::UpdateMetadata { signer, mint, record, new_update_authority, is_mutable } =>
            update_metadata_built(
            ix,
            mint@,
            signer@,
            record,
            match new_update_authority {
                Option::Some(a) => Option::Some(a@),
                Option::None => Option::None,
            },
            is_mutable,
        ),
        Operation::SetAuthority { signer, mint, kind, new_authority } => {
            &&& ix.program@ == token_program_id()
            &&& accounts_match(ix.accounts@, set_authority_accounts(mint@, signer@))
            &&& ix.data@ == set_authority_data(
                kind,
                match new_authority {
                    Option::Some(a) => Option::Some(a@),
                    Option::None => Option::None,
                },
            )
        },
        Operation::AddLiquidity { signer, program, mint, amount } => add_liquidity_built(
            ix,
            program@,
            signer@,
            mint@,
            amount,
        ),
    }
}

/// Whether an operation's addresses can all be derived and its
/// variable-length fields fit their declared widths — exactly the condition
/// under which building it succeeds.
pub open spec fn operation_buildable(op: Operation) -> bool {
    match op {
        Operation::CreateAsset { signer, mint, decimals, name, symbol, uri } => {
            spec_metadata_address(mint@) is Some && create_text_in_range(name@, symbol@, uri@)
        },
        Operation::MintTo { signer, mint, receiver, amount } => mint_to_derivable(
            mint@,
            receiver@,
        ),
        Operation::TransferTo { signer, mint, receiver, amount } => transfer_derivable(
            mint@,
            signer@,
            receiver@,
        ),
        Operation::Freeze { signer, mint, receiver } => spec_associated_address(
            receiver@,
            mint@,
            token_program_id(),
        ) is Some,
        Operation::Unfreeze { signer, mint, receiver } => spec_associated_address(
            receiver@,
            mint@,
            token_program_id(),
        ) is Some,
        Operation::UpdateMetadata { signer, mint, record, new_update_authority, is_mutable } => {
            spec_metadata_address(mint@) is Some && update_record_in_range(record)
        },
        Operation::SetAuthority { signer, mint, kind, new_authority } => true,
        Operation::AddLiquidity { signer, program, mint, amount } => add_liquidity_derivable(
            program@,
            signer@,
            mint@,
        ),
    }
}

/// Builds the instruction for one operation: the single tagged-variant
/// dispatch over the supported operations.
pub fn build_instruction(op: &Operation) -> (r: Result<Instruction, ClientError>)
    ensures
        r is Ok <==> operation_buildable(*op),
        r matches Ok(ix) ==> operation_built(*op, ix),
{
    match op {
        Operation::CreateAsset { signer, mint, decimals, name, symbol, uri } => build_create_asset(
            signer,
            mint,
            *decimals,
            name,
            symbol,
            uri,
        ),
        Operation::MintTo { signer, mint, receiver, amount } => build_mint_to(
            signer,
            mint,
            receiver,
            *amount,
        ),
        Operation::TransferTo { signer, mint, receiver, amount } => build_transfer(
            signer,
            mint,
            receiver,
            *amount,
        ),
        Operation::Freeze { signer, mint, receiver } => build_freeze(signer, mint, receiver),
        Operation::Unfreeze { signer, mint, receiver } => build_unfreeze(signer, mint, receiver),
        Operation::UpdateMetadata { signer, mint, record, new_update_authority, is_mutable } =>
            build_update_metadata(
            signer,
            mint,
            record,
            match new_update_authority {
                Option::Some(a) => Option::Some(a),
                Option::None => Option::None,
            },
            *is_mutable,
        ),
        Operation::SetAuthority { signer, mint, kind, new_authority } => Ok(
            build_set_authority(
                signer,
                mint,
                *kind,
                match new_authority {
                    Option::Some(a) => Option::Some(a),
                    Option::None => Option::None,
                },
            ),
        ),
        Operation::AddLiquidity { signer, program, mint, amount } => build_add_liquidity(
            program,
            signer,
            mint,
            *amount,
        ),
    }
}

} // verus!
