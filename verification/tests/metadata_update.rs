//! The pure metadata update: requested fields replaced, all others kept.

use token_bridge_client::addr::Address;
use token_bridge_client::metadata::{
    apply_metadata_update, Collection, Creator, MetadataRecord, MetadataUpdate, UseMethod, Uses,
};

fn sample_record() -> MetadataRecord {
    MetadataRecord {
        name: b"Old".to_vec(),
        symbol: b"OLD".to_vec(),
        uri: b"uri://old".to_vec(),
        seller_fee_basis_points: 100,
        creators: Some(vec![Creator {
            address: Address { bytes: [9u8; 32] },
            verified: true,
            share: 100,
        }]),
        collection: Some(Collection { verified: true, key: Address { bytes: [8u8; 32] } }),
        uses: Some(Uses { use_method: UseMethod::Single, remaining: 1, total: 2 }),
    }
}

#[test]
fn no_changes_keeps_every_field() {
    let current = sample_record();
    let updated = apply_metadata_update(
        &current,
        &MetadataUpdate { name: None, symbol: None, uri: None, seller_fee_basis_points: None },
    );
    assert_eq!(updated.name, current.name);
    assert_eq!(updated.symbol, current.symbol);
    assert_eq!(updated.uri, current.uri);
    assert_eq!(updated.seller_fee_basis_points, current.seller_fee_basis_points);
    let creators = updated.creators.unwrap();
    assert_eq!(creators.len(), 1);
    assert_eq!(creators[0].address.bytes, [9u8; 32]);
    assert!(creators[0].verified);
    assert_eq!(creators[0].share, 100);
    let collection = updated.collection.unwrap();
    assert!(collection.verified);
    assert_eq!(collection.key.bytes, [8u8; 32]);
    let uses = updated.uses.unwrap();
    assert_eq!(uses.use_method, UseMethod::Single);
    assert_eq!(uses.remaining, 1);
    assert_eq!(uses.total, 2);
}

#[test]
fn requested_fields_are_replaced_others_kept() {
    let current = sample_record();
    let updated = apply_metadata_update(
        &current,
        &MetadataUpdate {
            name: Some(b"New".to_vec()),
            symbol: None,
            uri: Some(b"uri://new".to_vec()),
            seller_fee_basis_points: Some(42),
        },
    );
    assert_eq!(updated.name, b"New".to_vec());
    assert_eq!(updated.symbol, b"OLD".to_vec());
    assert_eq!(updated.uri, b"uri://new".to_vec());
    assert_eq!(updated.seller_fee_basis_points, 42);
    assert!(updated.creators.is_some());
    assert!(updated.collection.is_some());
    assert!(updated.uses.is_some());
}

#[test]
fn absent_optional_sections_stay_absent() {
    let current = MetadataRecord {
        name: b"N".to_vec(),
        symbol: b"S".to_vec(),
        uri: b"U".to_vec(),
        seller_fee_basis_points: 0,
        creators: None,
        collection: None,
        uses: None,
    };
    let updated = apply_metadata_update(
        &current,
        &MetadataUpdate {
            name: None,
            symbol: Some(b"S2".to_vec()),
            uri: None,
            seller_fee_basis_points: None,
        },
    );
    assert_eq!(updated.symbol, b"S2".to_vec());
    assert!(updated.creators.is_none());
    assert!(updated.collection.is_none());
    assert!(updated.uses.is_none());
}
