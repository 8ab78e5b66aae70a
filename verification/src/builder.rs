//! Shared pieces of the quoter's transaction builders: their inputs and
//! results, their error, and the address and hex text rules they share.
use crate::bytes::{be128, push_u128_be};
use crate::text::{concat_str, hex_encode, spec_hex_lower};
use vstd::prelude::*;
use vstd::string::StrSliceExecFns;

verus! {

/// Why a transaction could not be built.
#[derive(Clone, Debug, PartialEq, Eq)]
pub enum TransactionBuilderError {
    InvalidAddress(String),
    RpcError(String),
    SerializationError(String),
    AccountParseError,
}

/// EVM transaction parameters.
#[derive(Clone, Debug, PartialEq, Eq)]
pub struct EvmTransaction {
    /// Target contract address (hex with 0x prefix).
    pub to: String,
    /// Transaction calldata (hex with 0x prefix).
    pub data: String,
    /// Transaction value in wei (hex with 0x prefix).
    pub value: String,
}

/// What the EVM builder returns for an open-order request.
#[derive(Clone, Debug, PartialEq, Eq)]
pub struct EvmTransactionResult {
    pub transaction: EvmTransaction,
    pub approval_transaction: Option<EvmTransaction>,
    /// Order ID is not predictable for EVM (uses block.timestamp on-chain);
    /// the frontend must extract the actual order ID from transaction logs.
    pub order_id: Option<String>,
    pub nonce: u64,
    pub contract_address: String,
}

/// What the SVM builder returns: a serialized transaction and its order.
#[derive(Clone, Debug, PartialEq, Eq)]
pub struct TransactionResult {
    pub transaction: String,
    pub order_id: String,
    pub nonce: u64,
    pub contract_address: String,
}

/// Input for building an open-order transaction.
#[derive(Clone, Debug, PartialEq, Eq)]
pub struct OpenOrderInput {
    pub sender_address: String,
    pub token_in: String,
    pub token_out: String,
    pub amount_in: u64,
    pub amount_out: u128,
    pub recipient: [u8; 32],
    pub solver: [u8; 32],
    pub dest_chain_id: u32,
    pub fill_deadline: u64,
}

/// Input data for building a cancel order transaction.
#[derive(Clone, Debug, PartialEq, Eq)]
pub struct CancelOrderInput {
    pub order_id: [u8; 32],
    pub version: u16,
    pub sender: [u8; 32],
    pub nonce: u64,
    pub origin_chain_id: u32,
    pub dest_chain_id: u32,
    pub created_at: u64,
    pub fill_deadline: u64,
    pub token_in: [u8; 32],
    pub token_out: [u8; 32],
    pub amount_in: u128,
    pub amount_out: u128,
    pub recipient: [u8; 32],
    pub solver: [u8; 32],
    /// Caller address (for SVM transaction building).
    pub caller_address: String,
}

/// A 256-bit unsigned integer, as its high and low 128-bit halves.
#[derive(Clone, Copy, Debug, PartialEq, Eq)]
pub struct U256 {
    pub hi: u128,
    pub lo: u128,
}

/// The value of a `U256`.
pub open spec fn spec_u256_value(x: U256) -> int {
    x.hi * 0x1_0000_0000_0000_0000_0000_0000_0000_0000 + x.lo
}

/// The 32 big-endian bytes of a `U256`.
pub open spec fn spec_u256_be(x: U256) -> Seq<u8> {
    be128(x.hi) + be128(x.lo)
}

impl U256 {
    /// Zero.
    pub fn zero() -> (z: Self)
        ensures
            spec_u256_value(z) == 0,
            z.hi == 0 && z.lo == 0,
    {
        U256 { hi: 0, lo: 0 }
    }

    /// The `U256` of a `u128`.
    pub fn from_u128(x: u128) -> (z: Self)
        ensures
            z.hi == 0 && z.lo == x,
            spec_u256_value(z) == x,
    {
        U256 { hi: 0, lo: x }
    }

    /// Whether this value is less than `x`.
    pub fn lt_u128(&self, x: u128) -> (b: bool)
        ensures
            b == (spec_u256_value(*self) < x),
    {
        self.hi == 0 && self.lo < x
    }

    /// The 32 big-endian bytes of this value.
    pub fn to_be_bytes(&self) -> (v: Vec<u8>)
        ensures
            v@ == spec_u256_be(*self),
    {
        let mut v: Vec<u8> = Vec::new();
        push_u128_be(&mut v, self.hi);
        push_u128_be(&mut v, self.lo);
        v
    }
}

/// `s` without a leading `0x`, if it has one.
pub open spec fn spec_strip_0x(s: Seq<char>) -> Seq<char> {
    if s.len() >= 2 && s[0] == '0' && s[1] == 'x' {
        s.skip(2)
    } else {
        s
    }
}

/// `s` without a leading `0x`, if it has one.
pub fn strip_0x(s: &str) -> (t: &str)
    ensures
        t@ == spec_strip_0x(s@),
{
    let n = s.unicode_len();
    if n >= 2 && s.get_char(0) == '0' && s.get_char(1) == 'x' {
        s.substring_char(2, n)
    } else {
        s
    }
}

/// `0x` followed by the lowercase hex of `data`.
pub fn hex_0x(data: &[u8]) -> (s: String)
    ensures
        s@ == "0x"@ + spec_hex_lower(data@),
{
    let h = hex_encode(data);
    concat_str("0x", h.as_str())
}

/// `s` without its leading `'0'` characters, keeping the last character.
pub open spec fn spec_trim_leading_zeros(s: Seq<char>) -> Seq<char>
    decreases s.len(),
{
    if s.len() > 1 && s[0] == '0' {
        spec_trim_leading_zeros(s.drop_first())
    } else {
        s
    }
}

/// The lowercase hex of a `U256` with a `0x` prefix and no leading zero
/// digits (`0x0` for zero).
pub open spec fn spec_u256_hex(x: U256) -> Seq<char> {
    "0x"@ + spec_trim_leading_zeros(spec_hex_lower(spec_u256_be(x)))
}

/// The lowercase hex of a `U256` with a `0x` prefix and no leading zero digits.
pub fn u256_hex(x: U256) -> (s: String)
    ensures
        s@ == spec_u256_hex(x),
{
    let bytes = x.to_be_bytes();
    let h = hex_encode(bytes.as_slice());
    let hs = h.as_str();
    let n = hs.unicode_len();
    let mut i: usize = 0;
    assert(hs@.skip(0) =~= hs@);
    while i + 1 < n && hs.get_char(i) == '0'
        invariant
            n == hs@.len(),
            i < n || n == 0,
            i <= n,
            spec_trim_leading_zeros(hs@.skip(i as int)) == spec_trim_leading_zeros(hs@),
        decreases n - i,
    {
        assert(hs@.skip(i as int).drop_first() =~= hs@.skip(i + 1));
        i = i + 1;
    }
    let rest = hs.substring_char(i, n);
    proof {
        assert(rest@ =~= hs@.skip(i as int));
        assert(spec_trim_leading_zeros(hs@.skip(i as int)) == hs@.skip(i as int));
    }
    concat_str("0x", rest)
}

} // verus!
