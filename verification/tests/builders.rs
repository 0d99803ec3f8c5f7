//! Builder goldens: every account table and payload checked against the
//! instruction the target program's own SDK constructs.

use mpl_token_metadata::instructions::{
    CreateV1Builder, MintV1Builder, TransferV1Builder, UpdateMetadataAccountV2Builder,
};
use mpl_token_metadata::types::{Collection, Creator, DataV2, TokenStandard, UseMethod, Uses};
use solana_pubkey::Pubkey as MplPubkey;
use spl_token::solana_program::pubkey::Pubkey as SplPubkey;
use token_bridge_client::addr::{
    associated_token_program, sysvar_instructions, token_program, Address,
};
use token_bridge_client::builders::{
    build_add_liquidity, build_create_asset, build_freeze, build_instruction, build_mint_to,
    build_set_authority, build_transfer, build_unfreeze, build_update_metadata, AuthorityKind,
    Operation,
};
use token_bridge_client::instruction::Instruction;
use token_bridge_client::metadata::{
    Collection as MyCollection, Creator as MyCreator, MetadataRecord, UseMethod as MyUseMethod,
    Uses as MyUses,
};

fn addr(b: [u8; 32]) -> Address {
    Address { bytes: b }
}

fn check(mine: &Instruction, program: [u8; 32], accounts: &[([u8; 32], bool, bool)], data: &[u8]) {
    assert_eq!(mine.program.bytes, program, "program address");
    assert_eq!(mine.accounts.len(), accounts.len(), "account count");
    for (i, (pk, signer, writable)) in accounts.iter().enumerate() {
        assert_eq!(mine.accounts[i].address.bytes, *pk, "address of account {i}");
        assert_eq!(mine.accounts[i].is_signer, *signer, "signer flag of account {i}");
        assert_eq!(mine.accounts[i].is_writable, *writable, "writable flag of account {i}");
    }
    assert_eq!(mine.data, data, "payload");
}

fn spl_ata(owner: [u8; 32], mint: [u8; 32]) -> [u8; 32] {
    spl_associated_token_account::get_associated_token_address(
        &SplPubkey::new_from_array(owner),
        &SplPubkey::new_from_array(mint),
    )
    .to_bytes()
}

fn mpl_metadata_pda(mint: [u8; 32]) -> [u8; 32] {
    mpl_token_metadata::accounts::Metadata::find_pda(&MplPubkey::new_from_array(mint))
        .0
        .to_bytes()
}

#[test]
fn unfreeze_matches_token_program_thaw() {
    let signer = [1u8; 32];
    let mint = [2u8; 32];
    let receiver = [3u8; 32];
    let mine = build_unfreeze(&addr(signer), &addr(mint), &addr(receiver)).unwrap();
    let expected = spl_token::instruction::thaw_account(
        &spl_token::id(),
        &SplPubkey::new_from_array(spl_ata(receiver, mint)),
        &SplPubkey::new_from_array(mint),
        &SplPubkey::new_from_array(signer),
        &[&SplPubkey::new_from_array(signer)],
    )
    .unwrap();
    let accounts: Vec<([u8; 32], bool, bool)> = expected
        .accounts
        .iter()
        .map(|a| (a.pubkey.to_bytes(), a.is_signer, a.is_writable))
        .collect();
    check(&mine, expected.program_id.to_bytes(), &accounts, &expected.data);
}

#[test]
fn freeze_matches_token_program_freeze() {
    let signer = [4u8; 32];
    let mint = [5u8; 32];
    let receiver = [6u8; 32];
    let mine = build_freeze(&addr(signer), &addr(mint), &addr(receiver)).unwrap();
    let expected = spl_token::instruction::freeze_account(
        &spl_token::id(),
        &SplPubkey::new_from_array(spl_ata(receiver, mint)),
        &SplPubkey::new_from_array(mint),
        &SplPubkey::new_from_array(signer),
        &[&SplPubkey::new_from_array(signer)],
    )
    .unwrap();
    let accounts: Vec<([u8; 32], bool, bool)> = expected
        .accounts
        .iter()
        .map(|a| (a.pubkey.to_bytes(), a.is_signer, a.is_writable))
        .collect();
    check(&mine, expected.program_id.to_bytes(), &accounts, &expected.data);
}

#[test]
fn set_authority_matches_token_program() {
    let signer = [7u8; 32];
    let mint = [8u8; 32];
    let new_auth = [9u8; 32];
    for (kind, spl_kind, new_authority) in [
        (AuthorityKind::Mint, spl_token::instruction::AuthorityType::MintTokens, Some(new_auth)),
        (AuthorityKind::Mint, spl_token::instruction::AuthorityType::MintTokens, None),
        (
            AuthorityKind::Freeze,
            spl_token::instruction::AuthorityType::FreezeAccount,
            Some(new_auth),
        ),
        (AuthorityKind::Freeze, spl_token::instruction::AuthorityType::FreezeAccount, None),
    ] {
        let new_addr = new_authority.map(addr);
        let mine = build_set_authority(&addr(signer), &addr(mint), kind, new_addr.as_ref());
        let spl_new = new_authority.map(SplPubkey::new_from_array);
        let expected = spl_token::instruction::set_authority(
            &spl_token::id(),
            &SplPubkey::new_from_array(mint),
            spl_new.as_ref(),
            spl_kind,
            &SplPubkey::new_from_array(signer),
            &[&SplPubkey::new_from_array(signer)],
        )
        .unwrap();
        let accounts: Vec<([u8; 32], bool, bool)> = expected
            .accounts
            .iter()
            .map(|a| (a.pubkey.to_bytes(), a.is_signer, a.is_writable))
            .collect();
        check(&mine, expected.program_id.to_bytes(), &accounts, &expected.data);
    }
}

#[test]
fn create_asset_matches_metadata_program() {
    let signer = [21u8; 32];
    let mint = [22u8; 32];
    let mine = build_create_asset(
        &addr(signer),
        &addr(mint),
        9,
        &b"Token".to_vec(),
        &b"TKN".to_vec(),
        &b"https://x".to_vec(),
    )
    .unwrap();
    let expected = CreateV1Builder::new()
        .metadata(MplPubkey::new_from_array(mpl_metadata_pda(mint)))
        .mint(MplPubkey::new_from_array(mint), true)
        .authority(MplPubkey::new_from_array(signer))
        .payer(MplPubkey::new_from_array(signer))
        .update_authority(MplPubkey::new_from_array(signer), true)
        .is_mutable(true)
        .primary_sale_happened(false)
        .name("Token".to_string())
        .uri("https://x".to_string())
        .symbol("TKN".to_string())
        .seller_fee_basis_points(0)
        .token_standard(TokenStandard::Fungible)
        .decimals(9)
        .spl_token_program(Some(MplPubkey::new_from_array(token_program().bytes)))
        .instruction();
    let accounts: Vec<([u8; 32], bool, bool)> = expected
        .accounts
        .iter()
        .map(|a| (a.pubkey.to_bytes(), a.is_signer, a.is_writable))
        .collect();
    check(&mine, expected.program_id.to_bytes(), &accounts, &expected.data);
}

#[test]
fn create_asset_scenario_has_nine_accounts_and_opcode() {
    let signer = [23u8; 32];
    let mint = [24u8; 32];
    let mine = build_create_asset(
        &addr(signer),
        &addr(mint),
        9,
        &b"Token".to_vec(),
        &b"TKN".to_vec(),
        &b"https://x".to_vec(),
    )
    .unwrap();
    assert_eq!(mine.accounts.len(), 9);
    assert_eq!(&mine.data[..2], &[42u8, 0u8]);
    let mpl_id = mpl_token_metadata::ID.to_bytes();
    let rows: Vec<([u8; 32], bool, bool)> = vec![
        (mpl_metadata_pda(mint), false, true),
        (mpl_id, false, false),
        (mint, true, true),
        (signer, true, false),
        (signer, true, true),
        (signer, true, false),
        ([0u8; 32], false, false),
        (sysvar_instructions().bytes, false, false),
        (token_program().bytes, false, false),
    ];
    check(&mine, mpl_id, &rows, &mine.data.clone());
}

#[test]
fn mint_to_matches_metadata_program() {
    let signer = [31u8; 32];
    let mint = [32u8; 32];
    let receiver = [33u8; 32];
    let mine = build_mint_to(&addr(signer), &addr(mint), &addr(receiver), 500).unwrap();
    let expected = MintV1Builder::new()
        .token(MplPubkey::new_from_array(spl_ata(receiver, mint)))
        .token_owner(Some(MplPubkey::new_from_array(receiver)))
        .metadata(MplPubkey::new_from_array(mpl_metadata_pda(mint)))
        .mint(MplPubkey::new_from_array(mint))
        .amount(500)
        .authority(MplPubkey::new_from_array(signer))
        .payer(MplPubkey::new_from_array(signer))
        .system_program(MplPubkey::new_from_array([0u8; 32]))
        .sysvar_instructions(MplPubkey::new_from_array(sysvar_instructions().bytes))
        .spl_token_program(MplPubkey::new_from_array(token_program().bytes))
        .spl_ata_program(MplPubkey::new_from_array(associated_token_program().bytes))
        .instruction();
    let accounts: Vec<([u8; 32], bool, bool)> = expected
        .accounts
        .iter()
        .map(|a| (a.pubkey.to_bytes(), a.is_signer, a.is_writable))
        .collect();
    check(&mine, expected.program_id.to_bytes(), &accounts, &expected.data);
}

#[test]
fn transfer_matches_metadata_program() {
    let sender = [41u8; 32];
    let mint = [42u8; 32];
    let receiver = [43u8; 32];
    let mine = build_transfer(&addr(sender), &addr(mint), &addr(receiver), 7).unwrap();
    let expected = TransferV1Builder::new()
        .token(MplPubkey::new_from_array(spl_ata(sender, mint)))
        .token_owner(MplPubkey::new_from_array(sender))
        .destination_token(MplPubkey::new_from_array(spl_ata(receiver, mint)))
        .destination_owner(MplPubkey::new_from_array(receiver))
        .metadata(MplPubkey::new_from_array(mpl_metadata_pda(mint)))
        .mint(MplPubkey::new_from_array(mint))
        .amount(7)
        .authority(MplPubkey::new_from_array(sender))
        .payer(MplPubkey::new_from_array(sender))
        .instruction();
    let accounts: Vec<([u8; 32], bool, bool)> = expected
        .accounts
        .iter()
        .map(|a| (a.pubkey.to_bytes(), a.is_signer, a.is_writable))
        .collect();
    check(&mine, expected.program_id.to_bytes(), &accounts, &expected.data);
}

#[test]
fn update_metadata_matches_metadata_program() {
    let auth = [51u8; 32];
    let mint = [52u8; 32];
    let new_auth = [53u8; 32];
    let creator = [54u8; 32];
    let collection_key = [55u8; 32];
    let record = MetadataRecord {
        name: b"Name".to_vec(),
        symbol: b"SYM".to_vec(),
        uri: b"uri://y".to_vec(),
        seller_fee_basis_points: 250,
        creators: Some(vec![MyCreator { address: addr(creator), verified: true, share: 100 }]),
        collection: Some(MyCollection { verified: false, key: addr(collection_key) }),
        uses: Some(MyUses { use_method: MyUseMethod::Multiple, remaining: 5, total: 9 }),
    };
    let mine = build_update_metadata(
        &addr(auth),
        &addr(mint),
        &Some(record),
        Some(&addr(new_auth)),
        Some(true),
    )
    .unwrap();
    let mut builder = UpdateMetadataAccountV2Builder::new();
    builder.metadata(MplPubkey::new_from_array(mpl_metadata_pda(mint)));
    builder.update_authority(MplPubkey::new_from_array(auth));
    builder.data(DataV2 {
        name: "Name".to_string(),
        symbol: "SYM".to_string(),
        uri: "uri://y".to_string(),
        seller_fee_basis_points: 250,
        creators: Some(vec![Creator {
            address: MplPubkey::new_from_array(creator),
            verified: true,
            share: 100,
        }]),
        collection: Some(Collection {
            verified: false,
            key: MplPubkey::new_from_array(collection_key),
        }),
        uses: Some(Uses { use_method: UseMethod::Multiple, remaining: 5, total: 9 }),
    });
    builder.is_mutable(true);
    builder.new_update_authority(MplPubkey::new_from_array(new_auth));
    let expected = builder.instruction();
    let accounts: Vec<([u8; 32], bool, bool)> = expected
        .accounts
        .iter()
        .map(|a| (a.pubkey.to_bytes(), a.is_signer, a.is_writable))
        .collect();
    check(&mine, expected.program_id.to_bytes(), &accounts, &expected.data);
}

#[test]
fn update_metadata_with_no_changes_encodes_four_absent_fields() {
    let auth = [56u8; 32];
    let mint = [57u8; 32];
    let mine = build_update_metadata(&addr(auth), &addr(mint), &None, None, None).unwrap();
    assert_eq!(mine.data, vec![15u8, 0, 0, 0, 0]);
    assert_eq!(mine.accounts.len(), 2);
    assert_eq!(mine.accounts[0].address.bytes, mpl_metadata_pda(mint));
    assert!(mine.accounts[0].is_writable && !mine.accounts[0].is_signer);
    assert_eq!(mine.accounts[1].address.bytes, auth);
    assert!(mine.accounts[1].is_signer && !mine.accounts[1].is_writable);
}

#[test]
fn add_liquidity_scenario_payload_and_accounts() {
    let program = [77u8; 32];
    let depositor = [78u8; 32];
    let mint = [79u8; 32];
    let mine = build_add_liquidity(&addr(program), &addr(depositor), &addr(mint), 1_000_000)
        .unwrap();
    let bridge = solana_program::pubkey::Pubkey::find_program_address(
        &[b"bridge_state"],
        &solana_program::pubkey::Pubkey::new_from_array(program),
    )
    .0
    .to_bytes();
    let vault = spl_ata(bridge, mint);
    let depositor_ata = spl_ata(depositor, mint);
    let rows: Vec<([u8; 32], bool, bool)> = vec![
        (bridge, false, true),
        (vault, false, true),
        (depositor, true, false),
        (mint, false, false),
        (depositor_ata, false, true),
        ([0u8; 32], false, false),
        (token_program().bytes, false, false),
        (associated_token_program().bytes, false, false),
    ];
    let mut payload: Vec<u8> = vec![181u8, 157, 89, 67, 143, 182, 52, 72];
    payload.extend_from_slice(&1_000_000u64.to_le_bytes());
    assert_eq!(mine.accounts.len(), 8);
    check(&mine, program, &rows, &payload);
}

#[test]
fn operation_dispatch_builds_the_same_instruction() {
    let program = [81u8; 32];
    let depositor = [82u8; 32];
    let mint = [83u8; 32];
    let direct = build_add_liquidity(&addr(program), &addr(depositor), &addr(mint), 44).unwrap();
    let via_op = build_instruction(&Operation::AddLiquidity {
        signer: addr(depositor),
        program: addr(program),
        mint: addr(mint),
        amount: 44,
    })
    .unwrap();
    assert_eq!(direct.program.bytes, via_op.program.bytes);
    assert_eq!(direct.data, via_op.data);
    assert_eq!(direct.accounts.len(), via_op.accounts.len());
    for i in 0..direct.accounts.len() {
        assert_eq!(direct.accounts[i].address.bytes, via_op.accounts[i].address.bytes);
        assert_eq!(direct.accounts[i].is_signer, via_op.accounts[i].is_signer);
        assert_eq!(direct.accounts[i].is_writable, via_op.accounts[i].is_writable);
    }
}
