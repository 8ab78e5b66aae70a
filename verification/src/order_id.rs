//! The quoter's order identifier: a fixed big-endian packing of the order
//! fields, hashed with Keccak-256.
use crate::bytes::{
    append_bytes, be128, be16, be32, be64, from_be128, from_be16, from_be32, from_be64, lemma_layouts,
    push_u128_be, push_u16_be, push_u32_be, push_u64_be,
};
use crate::hash::{keccak256_digest, spec_keccak256};
use vstd::prelude::*;

verus! {

/// Length of the packed order data:
/// 2 + 32 + 8 + 4 + 4 + 8 + 32 + 32 + 16 + 16 + 32 + 32.
pub const ENCODED_ORDER_DATA_LEN: usize = 218;

/// Order data structure matching both EVM and SVM implementations.
#[derive(Clone, Debug)]
pub struct OrderData {
    pub version: u16,
    pub sender: [u8; 32],
    pub nonce: u64,
    pub origin_chain_id: u32,
    pub dest_chain_id: u32,
    pub fill_deadline: u64,
    pub token_in: [u8; 32],
    pub token_out: [u8; 32],
    pub amount_in: u128,
    pub amount_out: u128,
    pub recipient: [u8; 32],
    pub solver: [u8; 32],
}

/// The packing of `d`: every field in declaration order, integers big-endian.
pub open spec fn spec_encode(d: OrderData) -> Seq<u8> {
    be16(d.version) + d.sender@ + be64(d.nonce) + be32(d.origin_chain_id) + be32(
        d.dest_chain_id,
    ) + be64(d.fill_deadline) + d.token_in@ + d.token_out@ + be128(d.amount_in) + be128(
        d.amount_out,
    ) + d.recipient@ + d.solver@
}

/// The order identifier of `d`: the Keccak-256 digest of its packing.
pub open spec fn spec_order_id(d: OrderData) -> Seq<u8> {
    spec_keccak256(spec_encode(d))
}

/// Reads the field values back from a packing (the inverse of `spec_encode`).
pub open spec fn spec_decode(b: Seq<u8>) -> (u16, Seq<u8>, u64, u32, u32, u64, Seq<u8>, Seq<u8>, u128, u128, Seq<u8>, Seq<u8>) {
    (
        from_be16(b.subrange(0, 2)),
        b.subrange(2, 34),
        from_be64(b.subrange(34, 42)),
        from_be32(b.subrange(42, 46)),
        from_be32(b.subrange(46, 50)),
        from_be64(b.subrange(50, 58)),
        b.subrange(58, 90),
        b.subrange(90, 122),
        from_be128(b.subrange(122, 138)),
        from_be128(b.subrange(138, 154)),
        b.subrange(154, 186),
        b.subrange(186, 218),
    )
}

/// The field values of `d`, with the byte-array fields by their contents.
pub open spec fn spec_fields(d: OrderData) -> (u16, Seq<u8>, u64, u32, u32, u64, Seq<u8>, Seq<u8>, u128, u128, Seq<u8>, Seq<u8>) {
    (
        d.version,
        d.sender@,
        d.nonce,
        d.origin_chain_id,
        d.dest_chain_id,
        d.fill_deadline,
        d.token_in@,
        d.token_out@,
        d.amount_in,
        d.amount_out,
        d.recipient@,
        d.solver@,
    )
}

/// The packing of every order is 218 bytes long, and reading it back gives
/// the order's fields.
pub proof fn lemma_encode_decode(d: OrderData)
    ensures
        spec_encode(d).len() == ENCODED_ORDER_DATA_LEN,
        spec_decode(spec_encode(d)) == spec_fields(d),
{
    lemma_layouts();
    let b = spec_encode(d);
    assert(b.len() == 218);
    assert(b.subrange(0, 2) =~= be16(d.version));
    assert(b.subrange(2, 34) =~= d.sender@);
    assert(b.subrange(34, 42) =~= be64(d.nonce));
    assert(b.subrange(42, 46) =~= be32(d.origin_chain_id));
    assert(b.subrange(46, 50) =~= be32(d.dest_chain_id));
    assert(b.subrange(50, 58) =~= be64(d.fill_deadline));
    assert(b.subrange(58, 90) =~= d.token_in@);
    assert(b.subrange(90, 122) =~= d.token_out@);
    assert(b.subrange(122, 138) =~= be128(d.amount_in));
    assert(b.subrange(138, 154) =~= be128(d.amount_out));
    assert(b.subrange(154, 186) =~= d.recipient@);
    assert(b.subrange(186, 218) =~= d.solver@);
}

/// Two orders with the same packing are the same order: the packing that is
/// hashed into the order identifier loses no field.
pub proof fn lemma_encode_injective(a: OrderData, b: OrderData)
    requires
        spec_encode(a) == spec_encode(b),
    ensures
        a == b,
{
    lemma_encode_decode(a);
    lemma_encode_decode(b);
    assert(a.sender =~= b.sender);
    assert(a.token_in =~= b.token_in);
    assert(a.token_out =~= b.token_out);
    assert(a.recipient =~= b.recipient);
    assert(a.solver =~= b.solver);
}

impl OrderData {
    /// Encode the order data as bytes for hashing.
    /// Uses big-endian encoding to match both EVM and SVM implementations.
    pub fn encode(&self) -> (encoded: Vec<u8>)
        ensures
            encoded@ == spec_encode(*self),
            encoded@.len() == ENCODED_ORDER_DATA_LEN,
    {
        proof {
            lemma_encode_decode(*self);
        }
        let mut encoded: Vec<u8> = Vec::with_capacity(206);
        push_u16_be(&mut encoded, self.version);
        append_bytes(&mut encoded, &self.sender);
        push_u64_be(&mut encoded, self.nonce);
        push_u32_be(&mut encoded, self.origin_chain_id);
        push_u32_be(&mut encoded, self.dest_chain_id);
        push_u64_be(&mut encoded, self.fill_deadline);
        append_bytes(&mut encoded, &self.token_in);
        append_bytes(&mut encoded, &self.token_out);
        push_u128_be(&mut encoded, self.amount_in);
        push_u128_be(&mut encoded, self.amount_out);
        append_bytes(&mut encoded, &self.recipient);
        append_bytes(&mut encoded, &self.solver);
        encoded
    }

    /// Compute the order ID using keccak256.
    pub fn compute_order_id(&self) -> (id: [u8; 32])
        ensures
            id@ == spec_order_id(*self),
    {
        let encoded = self.encode();
        keccak256_digest(encoded.as_slice())
    }
}

/// Compute order ID from individual fields.
pub fn compute_order_id(
    version: u16,
    sender: [u8; 32],
    nonce: u64,
    origin_chain_id: u32,
    dest_chain_id: u32,
    fill_deadline: u64,
    token_in: [u8; 32],
    token_out: [u8; 32],
    amount_in: u128,
    amount_out: u128,
    recipient: [u8; 32],
    solver: [u8; 32],
) -> (id: [u8; 32])
    ensures
        id@ == spec_order_id(
            OrderData {
                version,
                sender,
                nonce,
                origin_chain_id,
                dest_chain_id,
                fill_deadline,
                token_in,
                token_out,
                amount_in,
                amount_out,
                recipient,
                solver,
            },
        ),
{
    let order_data = OrderData {
        version,
        sender,
        nonce,
        origin_chain_id,
        dest_chain_id,
        fill_deadline,
        token_in,
        token_out,
        amount_in,
        amount_out,
        recipient,
        solver,
    };
    order_data.compute_order_id()
}

} // verus!
