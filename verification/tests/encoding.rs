//! The binary encoder: fixed discriminator vectors and argument round trips.

use token_bridge_client::addr::Address;
use token_bridge_client::encode::{decode_u64, discriminator, encode_args, ArgValue};

#[test]
fn discriminator_add_liquidity_is_stable() {
    let d = discriminator(b"global", b"add_liquidity");
    assert_eq!(d, vec![181u8, 157, 89, 67, 143, 182, 52, 72]);
}

#[test]
fn discriminator_matches_hash_of_preimage() {
    let d = discriminator(b"global", b"create");
    let h = solana_program::hash::hash(b"global:create").to_bytes();
    assert_eq!(d.as_slice(), &h[..8]);
    assert_eq!(d.len(), 8);
}

#[test]
fn discriminator_changes_with_method_name() {
    let a = discriminator(b"global", b"add_liquidity");
    let b = discriminator(b"global", b"remove_liquidity");
    let c = discriminator(b"state", b"add_liquidity");
    assert_ne!(a, b);
    assert_ne!(a, c);
}

#[test]
fn amount_round_trip_boundaries() {
    for amount in [0u64, 1u64, u64::MAX] {
        let encoded = encode_args(&vec![ArgValue::U64(amount)]).unwrap();
        assert_eq!(encoded.len(), 8);
        assert_eq!(encoded, amount.to_le_bytes().to_vec());
        let decoded = decode_u64(encoded.as_slice()).unwrap();
        assert_eq!(decoded, amount);
    }
}

#[test]
fn decode_rejects_wrong_width() {
    assert_eq!(decode_u64(&[1u8, 2, 3]), None);
    assert_eq!(decode_u64(&[0u8; 9]), None);
}

#[test]
fn encode_args_concatenates_in_declared_order() {
    let out = encode_args(&vec![
        ArgValue::U8(7),
        ArgValue::U16(0x1234),
        ArgValue::U32(0x89ABCDEF),
        ArgValue::U64(0x1122334455667788),
        ArgValue::Bool(true),
        ArgValue::Bool(false),
        ArgValue::Bytes(vec![9u8, 8, 7]),
        ArgValue::Addr(Address { bytes: [1u8; 32] }),
    ])
    .unwrap();
    let mut expected: Vec<u8> = Vec::new();
    expected.push(7);
    expected.extend_from_slice(&0x1234u16.to_le_bytes());
    expected.extend_from_slice(&0x89ABCDEFu32.to_le_bytes());
    expected.extend_from_slice(&0x1122334455667788u64.to_le_bytes());
    expected.push(1);
    expected.push(0);
    expected.extend_from_slice(&3u32.to_le_bytes());
    expected.extend_from_slice(&[9, 8, 7]);
    expected.extend_from_slice(&[1u8; 32]);
    assert_eq!(out, expected);
}

#[test]
fn encode_args_of_nothing_is_empty() {
    let out = encode_args(&Vec::new()).unwrap();
    assert!(out.is_empty());
}

