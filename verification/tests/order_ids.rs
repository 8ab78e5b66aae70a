use m0_orderbook::order_id::{compute_order_id, OrderData, ENCODED_ORDER_DATA_LEN};
use m0_orderbook::program;

fn sample() -> OrderData {
    OrderData {
        version: 1,
        sender: [0u8; 32],
        nonce: 0,
        origin_chain_id: 1,
        dest_chain_id: 2,
        fill_deadline: 1700000000,
        token_in: [1u8; 32],
        token_out: [2u8; 32],
        amount_in: 1000000,
        amount_out: 900000,
        recipient: [3u8; 32],
        solver: [0u8; 32],
    }
}

#[test]
fn test_order_id_computation() {
    // Test with known values to ensure consistency
    let order_data = sample();

    let order_id = order_data.compute_order_id();
    // The order ID should be deterministic
    assert_eq!(order_id.len(), 32);

    // Compute again to ensure determinism
    let order_id2 = order_data.compute_order_id();
    assert_eq!(order_id, order_id2);
}

#[test]
fn test_encode_length() {
    let order_data = OrderData {
        version: 1,
        sender: [0u8; 32],
        nonce: 0,
        origin_chain_id: 1,
        dest_chain_id: 2,
        fill_deadline: 1700000000,
        token_in: [0u8; 32],
        token_out: [0u8; 32],
        amount_in: 0,
        amount_out: 0,
        recipient: [0u8; 32],
        solver: [0u8; 32],
    };

    let encoded = order_data.encode();
    // 2 + 32 + 8 + 4 + 4 + 8 + 32 + 32 + 16 + 16 + 32 + 32 = 218 bytes
    assert_eq!(encoded.len(), 218);
    assert_eq!(ENCODED_ORDER_DATA_LEN, 218);
}

#[test]
fn encode_packs_fields_big_endian_in_order() {
    let d = sample();
    let e = d.encode();
    assert_eq!(&e[0..2], &[0, 1]);
    assert_eq!(&e[2..34], &[0u8; 32]);
    assert_eq!(&e[34..42], &0u64.to_be_bytes());
    assert_eq!(&e[42..46], &1u32.to_be_bytes());
    assert_eq!(&e[46..50], &2u32.to_be_bytes());
    assert_eq!(&e[50..58], &1700000000u64.to_be_bytes());
    assert_eq!(&e[58..90], &[1u8; 32]);
    assert_eq!(&e[90..122], &[2u8; 32]);
    assert_eq!(&e[122..138], &1000000u128.to_be_bytes());
    assert_eq!(&e[138..154], &900000u128.to_be_bytes());
    assert_eq!(&e[154..186], &[3u8; 32]);
    assert_eq!(&e[186..218], &[0u8; 32]);
}

#[test]
fn order_id_is_keccak_of_encoding() {
    let d = sample();
    let expected = alloy::primitives::keccak256(d.encode()).0;
    assert_eq!(d.compute_order_id(), expected);
    assert_ne!(d.compute_order_id().to_vec(), d.encode()[0..32].to_vec());
}

#[test]
fn free_function_matches_method() {
    let d = sample();
    let id = compute_order_id(
        d.version, d.sender, d.nonce, d.origin_chain_id, d.dest_chain_id, d.fill_deadline,
        d.token_in, d.token_out, d.amount_in, d.amount_out, d.recipient, d.solver,
    );
    assert_eq!(id, d.compute_order_id());
}

#[test]
fn distinct_orders_have_distinct_ids() {
    let a = sample();
    let mut b = sample();
    b.nonce = 1;
    assert_ne!(a.compute_order_id(), b.compute_order_id());
    assert_ne!(a.encode(), b.encode());
}

fn program_order() -> program::OrderData {
    program::OrderData {
        version: 1,
        sender: [7u8; 32],
        nonce: 5,
        origin_chain_id: 1399811149,
        dest_chain_id: 1,
        created_at: 1_700_000_030,
        fill_deadline: 1_700_086_400,
        token_in: [8u8; 32],
        token_out: [9u8; 32],
        amount_in: 1_000_000,
        amount_out: 990_000,
        recipient: [10u8; 32],
        solver: [11u8; 32],
    }
}

#[test]
fn program_order_id_hashes_fields_big_endian() {
    let d = program_order();
    let expected = anchor_lang::solana_program::keccak::hashv(&[
        &d.version.to_be_bytes(),
        &d.sender,
        &d.nonce.to_be_bytes(),
        &d.origin_chain_id.to_be_bytes(),
        &d.dest_chain_id.to_be_bytes(),
        &d.created_at.to_be_bytes(),
        &d.fill_deadline.to_be_bytes(),
        &d.token_in,
        &d.token_out,
        &d.amount_in.to_be_bytes(),
        &d.amount_out.to_be_bytes(),
        &d.recipient,
        &d.solver,
    ])
    .to_bytes();
    assert_eq!(program::compute_order_id(&d), expected);
    assert_eq!(d.compute_order_id(), expected);
}
