//! The quoter's EVM transaction builder: ABI calldata for `approve`,
//! `openOrder` and `cancelOrder`, the bridge a cancellation report takes,
//! and the address texts it accepts.
use crate::builder::{
    hex_0x, spec_strip_0x, spec_u256_be, spec_u256_hex, strip_0x, u256_hex, CancelOrderInput,
    EvmTransaction, EvmTransactionResult, OpenOrderInput, TransactionBuilderError, U256,
};
use crate::bytes::{append_bytes, from_be128, from_be16, from_be32, from_be64, lemma_layouts, padded_key, push_zeros, zeros, be128, be16, be32, be64, push_u128_be, push_u16_be, push_u32_be, push_u64_be};
use crate::hash::{keccak256_digest, spec_keccak256};
use crate::text::{
    bs58_decode, concat_str, hex_decode, lemma_hex_lower, lemma_hex_text, parse_u128, spec_bs58_decode, spec_hex_bytes,
    spec_hex_decode_error, spec_hex_lower, spec_hex_valid, spec_parse_u128, string_of, is_hex_char,
};
use vstd::prelude::*;
use vstd::string::StrSliceExecFns;
use vstd::utf8::encode_utf8;

verus! {

/// Gas limit asked of the relayer for a cancellation report.
pub const DEFAULT_GAS_LIMIT: u128 = 750_000;

/// Message value asked of the relayer for a cancellation report.
pub const DEFAULT_MSG_VALUE: u128 = 25_000_000;

/// Chain id of Solana devnet.
pub const SOLANA_DEVNET: u32 = 1399811149;

/// Chain id of Solana mainnet.
pub const SOLANA_MAINNET: u32 = 1399811150;

/// The Wormhole bridge adapter, `0x6b2A7bFa5F1C03EbFae779Df6988b8aC14CA4155`.
pub const WORMHOLE_ADAPTER: [u8; 20] = [
    0x6b, 0x2a, 0x7b, 0xfa, 0x5f, 0x1c, 0x03, 0xeb, 0xfa, 0xe7, 0x79, 0xdf, 0x69, 0x88, 0xb8, 0xac,
    0x14, 0xca, 0x41, 0x55,
];

/// The Portal contract, `0x50D65829Eae411B655bAA92539E4F8c46D20638C`.
pub const PORTAL_ADDRESS: [u8; 20] = [
    0x50, 0xd6, 0x58, 0x29, 0xea, 0xe4, 0x11, 0xb6, 0x55, 0xba, 0xa9, 0x25, 0x39, 0xe4, 0xf8, 0xc4,
    0x6d, 0x20, 0x63, 0x8c,
];

/// `s` without a leading `0x` or `0X`, if it has one.
pub open spec fn spec_strip_hex_prefix(s: Seq<char>) -> Seq<char> {
    if s.len() >= 2 && s[0] == '0' && (s[1] == 'x' || s[1] == 'X') {
        s.skip(2)
    } else {
        s
    }
}

/// Whether `s` is an EVM address text: an optional `0x`/`0X` and 40 hex digits.
pub open spec fn spec_address_valid(s: Seq<char>) -> bool {
    let t = spec_strip_hex_prefix(s);
    t.len() == 40 && forall|i: int| 0 <= i < t.len() ==> is_hex_char(#[trigger] t[i])
}

/// The message of the error `Address::from_str` returns for the text `s`.
pub uninterp spec fn spec_address_parse_error(s: Seq<char>) -> Seq<char>;

/// What parsing an address gives: its 20 bytes, or the error message.
pub open spec fn spec_parse_address(s: Seq<char>) -> Result<Seq<u8>, Seq<char>> {
    if spec_address_valid(s) {
        Ok(spec_hex_bytes(spec_strip_hex_prefix(s)))
    } else {
        Err(spec_address_parse_error(s))
    }
}

/// Calls `alloy::primitives::Address::from_str`.
/// Trusted: it succeeds exactly on an optional `0x`/`0X` followed by 40 hex
/// digits, giving the bytes they spell; the error's message is the one
/// named `spec_address_parse_error` of the text.
#[verifier::external_body]
fn alloy_parse_address(s: &str) -> (r: Result<[u8; 20], String>)
    ensures
        match r {
            Ok(a) => spec_address_valid(s@) && a@ == spec_hex_bytes(spec_strip_hex_prefix(s@)),
            Err(m) => !spec_address_valid(s@) && m@ == spec_address_parse_error(s@),
        },
{
    <alloy::primitives::Address as std::str::FromStr>::from_str(s).map(|a| a.0.0).map_err(|e| e.to_string())
}

/// Calls `format!("{:?}", Address)` on the address with the given bytes.
/// Trusted: the text is `0x` and the 40 lowercase hex digits of the bytes.
#[verifier::external_body]
fn alloy_address_debug(a: &[u8; 20]) -> (s: String)
    ensures
        s@ == "0x"@ + spec_hex_lower(a@),
{
    format!("{:?}", alloy::primitives::Address::from(*a))
}

/// The message of the error `url::Url::parse` returns for the text `s`,
/// when it returns one.
pub uninterp spec fn spec_url_parse_error(s: Seq<char>) -> Option<Seq<char>>;

/// Calls `url::Url::parse`, keeping only its error message.
/// Trusted: whether it fails, and the message, are the ones named
/// `spec_url_parse_error` of the text.
#[verifier::external_body]
fn url_parse_error(s: &str) -> (r: Option<String>)
    ensures
        spec_url_parse_error(s@) == match r {
            Some(m) => Some(m@),
            None => None::<Seq<char>>,
        },
{
    s.parse::<url::Url>().err().map(|e| e.to_string())
}

/// Parses an EVM address, reporting a bad one as an invalid address.
pub fn parse_address(s: &str) -> (r: Result<[u8; 20], TransactionBuilderError>)
    ensures
        match spec_parse_address(s@) {
            Ok(b) => r matches Ok(a) && a@ == b,
            Err(m) => r matches Err(TransactionBuilderError::InvalidAddress(x)) && x@ == m,
        },
{
    match alloy_parse_address(s) {
        Ok(a) => Ok(a),
        Err(m) => Err(TransactionBuilderError::InvalidAddress(m)),
    }
}

/// An ABI word holding a `u16`.
pub open spec fn word_u16(x: u16) -> Seq<u8> {
    zeros(30) + be16(x)
}

/// An ABI word holding a `u32`.
pub open spec fn word_u32(x: u32) -> Seq<u8> {
    zeros(28) + be32(x)
}

/// An ABI word holding a `u64`.
pub open spec fn word_u64(x: u64) -> Seq<u8> {
    zeros(24) + be64(x)
}

/// An ABI word holding a `u128`.
pub open spec fn word_u128(x: u128) -> Seq<u8> {
    zeros(16) + be128(x)
}

/// An ABI word holding a 20-byte address.
pub open spec fn word_address(a: Seq<u8>) -> Seq<u8> {
    zeros(12) + a
}

/// The function selector of a signature: the first four bytes of the
/// Keccak-256 digest of its UTF-8 text.
pub open spec fn spec_selector(signature: Seq<char>) -> Seq<u8> {
    spec_keccak256(encode_utf8(signature)).subrange(0, 4)
}

fn push_selector(out: &mut Vec<u8>, signature: &str)
    ensures
        final(out)@ == old(out)@ + spec_selector(signature@),
{
    let digest = keccak256_digest(signature.as_bytes());
    out.push(digest[0]);
    out.push(digest[1]);
    out.push(digest[2]);
    out.push(digest[3]);
    assert(final(out)@ =~= old(out)@ + spec_selector(signature@));
}

fn push_word_u16(out: &mut Vec<u8>, x: u16)
    ensures
        final(out)@ == old(out)@ + word_u16(x),
{
    push_zeros(out, 30);
    push_u16_be(out, x);
    assert(final(out)@ =~= old(out)@ + word_u16(x));
}

fn push_word_u32(out: &mut Vec<u8>, x: u32)
    ensures
        final(out)@ == old(out)@ + word_u32(x),
{
    push_zeros(out, 28);
    push_u32_be(out, x);
    assert(final(out)@ =~= old(out)@ + word_u32(x));
}

fn push_word_u64(out: &mut Vec<u8>, x: u64)
    ensures
        final(out)@ == old(out)@ + word_u64(x),
{
    push_zeros(out, 24);
    push_u64_be(out, x);
    assert(final(out)@ =~= old(out)@ + word_u64(x));
}

fn push_word_u128(out: &mut Vec<u8>, x: u128)
    ensures
        final(out)@ == old(out)@ + word_u128(x),
{
    push_zeros(out, 16);
    push_u128_be(out, x);
    assert(final(out)@ =~= old(out)@ + word_u128(x));
}

fn push_word_address(out: &mut Vec<u8>, a: &[u8; 20])
    ensures
        final(out)@ == old(out)@ + word_address(a@),
{
    push_zeros(out, 12);
    append_bytes(out, a);
    assert(final(out)@ =~= old(out)@ + word_address(a@));
}

/// The `approve(address,uint256)` calldata.
pub open spec fn spec_approve_calldata(spender: Seq<u8>, amount: u128) -> Seq<u8> {
    spec_selector("approve(address,uint256)"@) + word_address(spender) + word_u128(amount)
}

fn approve_calldata(spender: &[u8; 20], amount: u128) -> (data: Vec<u8>)
    ensures
        data@ == spec_approve_calldata(spender@, amount),
{
    let mut data: Vec<u8> = Vec::new();
    push_selector(&mut data, "approve(address,uint256)");
    push_word_address(&mut data, spender);
    push_word_u128(&mut data, amount);
    assert(data@ =~= spec_approve_calldata(spender@, amount));
    data
}

/// The approval transaction for `token`: a call of `approve` with no value.
pub open spec fn spec_approval_tx(t: EvmTransaction, token: Seq<char>, spender: Seq<u8>, amount: u128) -> bool {
    &&& t.to@ == token
    &&& t.data@ == "0x"@ + spec_hex_lower(spec_approve_calldata(spender, amount))
    &&& t.value@ == "0x0"@
}

fn approve_transaction(token: &str, spender: &[u8; 20], amount: u128) -> (t: EvmTransaction)
    ensures
        spec_approval_tx(t, token@, spender@, amount),
{
    let calldata = approve_calldata(spender, amount);
    EvmTransaction { to: string_of(token), data: hex_0x(calldata.as_slice()), value: string_of("0x0") }
}

/// The text of an order's signature in the order book's ABI.
pub open spec fn open_order_signature() -> Seq<char> {
    "openOrder((uint32,uint32,address,bytes32,uint128,uint128,bytes32,bytes32))"@
}

/// The `openOrder(OrderParams)` calldata.
pub open spec fn spec_open_order_calldata(
    dest_chain_id: u32,
    fill_deadline: u32,
    token_in: Seq<u8>,
    token_out: Seq<u8>,
    amount_in: u128,
    amount_out: u128,
    recipient: Seq<u8>,
    solver: Seq<u8>,
) -> Seq<u8> {
    spec_selector(open_order_signature()) + word_u32(dest_chain_id) + word_u32(fill_deadline)
        + word_address(token_in) + token_out + word_u128(amount_in) + word_u128(amount_out)
        + recipient + solver
}


/// The `i`-th 32-byte ABI word of `d` after a head of `head` bytes.
pub open spec fn abi_word(d: Seq<u8>, head: int, i: int) -> Seq<u8> {
    d.subrange(head + 32 * i, head + 32 * i + 32)
}

/// Whether the ABI word `w` holds the `u16` value `x`: zeros, then `x`
/// big-endian in the last 2 bytes.
pub open spec fn abi_holds_u16(w: Seq<u8>, x: u16) -> bool {
    w.len() == 32 && w.subrange(0, 30) == zeros(30) && from_be16(w.subrange(30, 32)) == x
}

/// Whether the ABI word `w` holds the `u32` value `x`: zeros, then `x`
/// big-endian in the last 4 bytes.
pub open spec fn abi_holds_u32(w: Seq<u8>, x: u32) -> bool {
    w.len() == 32 && w.subrange(0, 28) == zeros(28) && from_be32(w.subrange(28, 32)) == x
}

/// Whether the ABI word `w` holds the `u64` value `x`: zeros, then `x`
/// big-endian in the last 8 bytes.
pub open spec fn abi_holds_u64(w: Seq<u8>, x: u64) -> bool {
    w.len() == 32 && w.subrange(0, 24) == zeros(24) && from_be64(w.subrange(24, 32)) == x
}

/// Whether the ABI word `w` holds the `u128` value `x`: zeros, then `x`
/// big-endian in the last 16 bytes.
pub open spec fn abi_holds_u128(w: Seq<u8>, x: u128) -> bool {
    w.len() == 32 && w.subrange(0, 16) == zeros(16) && from_be128(w.subrange(16, 32)) == x
}

/// Whether the ABI word `w` holds the address `a`: twelve zeros, then its
/// twenty bytes.
pub open spec fn abi_holds_address(w: Seq<u8>, a: Seq<u8>) -> bool {
    w.len() == 32 && w.subrange(0, 12) == zeros(12) && w.subrange(12, 32) == a
}

/// The `openOrder` calldata is its selector, then one ABI word per member
/// of the order parameters, in the order of the signature
/// `(uint32,uint32,address,bytes32,uint128,uint128,bytes32,bytes32)`:
/// destination chain, fill deadline, input token, output token, input and
/// output amounts, recipient, solver.
pub proof fn lemma_open_order_calldata_words(
    dest_chain_id: u32,
    fill_deadline: u32,
    token_in: [u8; 20],
    token_out: [u8; 32],
    amount_in: u128,
    amount_out: u128,
    recipient: [u8; 32],
    solver: [u8; 32],
)
    ensures
        ({
            let sel = spec_selector(open_order_signature());
            let h = sel.len() as int;
            let d = spec_open_order_calldata(
                dest_chain_id,
                fill_deadline,
                token_in@,
                token_out@,
                amount_in,
                amount_out,
                recipient@,
                solver@,
            );
            &&& d.len() == h + 8 * 32
            &&& d.subrange(0, h) == sel
            &&& abi_holds_u32(abi_word(d, h, 0), dest_chain_id)
            &&& abi_holds_u32(abi_word(d, h, 1), fill_deadline)
            &&& abi_holds_address(abi_word(d, h, 2), token_in@)
            &&& abi_word(d, h, 3) == token_out@
            &&& abi_holds_u128(abi_word(d, h, 4), amount_in)
            &&& abi_holds_u128(abi_word(d, h, 5), amount_out)
            &&& abi_word(d, h, 6) == recipient@
            &&& abi_word(d, h, 7) == solver@
        }),
{
    lemma_layouts();
    let sel = spec_selector(open_order_signature());
    let h = sel.len() as int;
    let d = spec_open_order_calldata(dest_chain_id, fill_deadline, token_in@, token_out@, amount_in, amount_out, recipient@, solver@);
    let w = seq![word_u32(dest_chain_id), word_u32(fill_deadline), word_address(token_in@), token_out@, word_u128(amount_in), word_u128(amount_out), recipient@, solver@];
    assert(d =~= sel + w[0] + w[1] + w[2] + w[3] + w[4] + w[5] + w[6] + w[7]);
    assert(d.subrange(0, h) =~= sel);
    assert(abi_word(d, h, 0) =~= w[0]);
    assert(abi_word(d, h, 1) =~= w[1]);
    assert(abi_word(d, h, 2) =~= w[2]);
    assert(abi_word(d, h, 3) =~= w[3]);
    assert(abi_word(d, h, 4) =~= w[4]);
    assert(abi_word(d, h, 5) =~= w[5]);
    assert(abi_word(d, h, 6) =~= w[6]);
    assert(abi_word(d, h, 7) =~= w[7]);
    assert(w[0].subrange(0, 28) =~= zeros(28));
    assert(w[0].subrange(28, 32) =~= be32(dest_chain_id));
    assert(w[1].subrange(0, 28) =~= zeros(28));
    assert(w[1].subrange(28, 32) =~= be32(fill_deadline));
    assert(w[2].subrange(0, 12) =~= zeros(12));
    assert(w[2].subrange(12, 32) =~= token_in@);
    assert(w[4].subrange(0, 16) =~= zeros(16));
    assert(w[4].subrange(16, 32) =~= be128(amount_in));
    assert(w[5].subrange(0, 16) =~= zeros(16));
    assert(w[5].subrange(16, 32) =~= be128(amount_out));
}

/// The text of the cancellation's signature in the order book's ABI.
pub open spec fn cancel_order_signature() -> Seq<char> {
    "cancelOrder(bytes32,(uint16,bytes32,uint64,uint32,uint32,uint64,uint64,bytes32,bytes32,uint128,uint128,bytes32,bytes32),address,bytes)"@
}

/// Bytes that pad a byte string of length `n` to a whole number of words.
pub open spec fn pad_len(n: nat) -> nat {
    if n % 32 == 0 {
        0
    } else {
        (32 - n % 32) as nat
    }
}

/// The ABI-encoded arguments of `cancelOrder(bytes32, OrderData, address,
/// bytes)`: the head (order id, the order data inline, the adapter, the
/// offset 512 of the dynamic bytes), then the bytes' length and the bytes
/// padded to words.
pub open spec fn spec_cancel_order_args(input: CancelOrderInput, adapter: Seq<u8>, args: Seq<u8>) -> Seq<u8> {
    input.order_id@ + word_u16(input.version) + input.sender@ + word_u64(input.nonce) + word_u32(
        input.origin_chain_id,
    ) + word_u32(input.dest_chain_id) + word_u64(input.created_at) + word_u64(input.fill_deadline)
        + input.token_in@ + input.token_out@ + word_u128(input.amount_in) + word_u128(
        input.amount_out,
    ) + input.recipient@ + input.solver@ + word_address(adapter) + word_u128(512) + word_u128(
        args.len() as u128,
    ) + args + zeros(pad_len(args.len()))
}

/// The `cancelOrder` calldata: its selector, then its arguments.
pub open spec fn spec_cancel_order_calldata(
    input: CancelOrderInput,
    adapter: Seq<u8>,
    args: Seq<u8>,
) -> Seq<u8> {
    spec_selector(cancel_order_signature()) + spec_cancel_order_args(input, adapter, args)
}

/// The cancellation's arguments are well-formed ABI: sixteen head words,
/// the adapter in the fifteenth and, in the last, the offset 512 where the
/// length word of the dynamic bytes stands, followed by the bytes and zero
/// padding to a whole word.
pub proof fn lemma_cancel_order_args_layout(input: CancelOrderInput, adapter: Seq<u8>, args: Seq<u8>)
    requires
        adapter.len() == 20,
        args.len() <= u128::MAX,
    ensures
        ({
            let t = spec_cancel_order_args(input, adapter, args);
            &&& t.len() == 544 + args.len() + pad_len(args.len())
            &&& t.len() % 32 == 0
            &&& t.subrange(448, 480) == word_address(adapter)
            &&& t.subrange(480, 512) == word_u128(512)
            &&& t.subrange(512, 544) == word_u128(args.len() as u128)
            &&& t.subrange(544, 544 + args.len() as int) == args
            &&& t.subrange(544 + args.len() as int, t.len() as int) == zeros(pad_len(args.len()))
        }),
{
    lemma_layouts();
    let head = input.order_id@ + word_u16(input.version) + input.sender@ + word_u64(input.nonce)
        + word_u32(input.origin_chain_id) + word_u32(input.dest_chain_id) + word_u64(input.created_at)
        + word_u64(input.fill_deadline) + input.token_in@ + input.token_out@ + word_u128(input.amount_in)
        + word_u128(input.amount_out) + input.recipient@ + input.solver@;
    assert(head.len() == 448);
    let t = spec_cancel_order_args(input, adapter, args);
    let n = args.len();
    assert(t =~= head + word_address(adapter) + word_u128(512) + word_u128(n as u128) + args + zeros(pad_len(n)));
    assert(t.subrange(448, 480) =~= word_address(adapter));
    assert(t.subrange(480, 512) =~= word_u128(512));
    assert(t.subrange(512, 544) =~= word_u128(n as u128));
    assert(t.subrange(544, 544 + n as int) =~= args);
    assert(t.subrange(544 + n as int, t.len() as int) =~= zeros(pad_len(n)));
    assert((n + pad_len(n)) % 32 == 0) by (nonlinear_arith)
        requires
            pad_len(n) == (if n % 32 == 0 { 0 } else { (32 - n % 32) as nat }),
    ;
}

/// The head of the cancellation's arguments holds one ABI word per value,
/// in the order of the signature `cancelOrder(bytes32, (uint16, bytes32,
/// uint64, uint32, uint32, uint64, uint64, bytes32, bytes32, uint128,
/// uint128, bytes32, bytes32), address, bytes)`: the order id, then each
/// member of the order data in turn.
pub proof fn lemma_cancel_order_args_words(input: CancelOrderInput, adapter: Seq<u8>, args: Seq<u8>)
    requires
        adapter.len() == 20,
        args.len() <= u128::MAX,
    ensures
        ({
            let t = spec_cancel_order_args(input, adapter, args);
            &&& abi_word(t, 0, 0) == input.order_id@
            &&& abi_holds_u16(abi_word(t, 0, 1), input.version)
            &&& abi_word(t, 0, 2) == input.sender@
            &&& abi_holds_u64(abi_word(t, 0, 3), input.nonce)
            &&& abi_holds_u32(abi_word(t, 0, 4), input.origin_chain_id)
            &&& abi_holds_u32(abi_word(t, 0, 5), input.dest_chain_id)
            &&& abi_holds_u64(abi_word(t, 0, 6), input.created_at)
            &&& abi_holds_u64(abi_word(t, 0, 7), input.fill_deadline)
            &&& abi_word(t, 0, 8) == input.token_in@
            &&& abi_word(t, 0, 9) == input.token_out@
            &&& abi_holds_u128(abi_word(t, 0, 10), input.amount_in)
            &&& abi_holds_u128(abi_word(t, 0, 11), input.amount_out)
            &&& abi_word(t, 0, 12) == input.recipient@
            &&& abi_word(t, 0, 13) == input.solver@
        }),
{
    lemma_layouts();
    lemma_cancel_order_args_layout(input, adapter, args);
    let t = spec_cancel_order_args(input, adapter, args);
    let w = seq![input.order_id@, word_u16(input.version), input.sender@, word_u64(input.nonce), word_u32(input.origin_chain_id), word_u32(input.dest_chain_id), word_u64(input.created_at), word_u64(input.fill_deadline), input.token_in@, input.token_out@, word_u128(input.amount_in), word_u128(input.amount_out), input.recipient@, input.solver@];
    assert(t =~= w[0] + w[1] + w[2] + w[3] + w[4] + w[5] + w[6] + w[7] + w[8] + w[9] + w[10] + w[11] + w[12] + w[13] + word_address(adapter) + word_u128(512) + word_u128(
        args.len() as u128,
    ) + args + zeros(pad_len(args.len())));
    assert(abi_word(t, 0, 0) =~= input.order_id@);
    assert(abi_word(t, 0, 1) =~= word_u16(input.version));
    assert(word_u16(input.version).subrange(0, 30) =~= zeros(30));
    assert(word_u16(input.version).subrange(30, 32) =~= be16(input.version));
    assert(abi_word(t, 0, 2) =~= input.sender@);
    assert(abi_word(t, 0, 3) =~= word_u64(input.nonce));
    assert(word_u64(input.nonce).subrange(0, 24) =~= zeros(24));
    assert(word_u64(input.nonce).subrange(24, 32) =~= be64(input.nonce));
    assert(abi_word(t, 0, 4) =~= word_u32(input.origin_chain_id));
    assert(word_u32(input.origin_chain_id).subrange(0, 28) =~= zeros(28));
    assert(word_u32(input.origin_chain_id).subrange(28, 32) =~= be32(input.origin_chain_id));
    assert(abi_word(t, 0, 5) =~= word_u32(input.dest_chain_id));
    assert(word_u32(input.dest_chain_id).subrange(0, 28) =~= zeros(28));
    assert(word_u32(input.dest_chain_id).subrange(28, 32) =~= be32(input.dest_chain_id));
    assert(abi_word(t, 0, 6) =~= word_u64(input.created_at));
    assert(word_u64(input.created_at).subrange(0, 24) =~= zeros(24));
    assert(word_u64(input.created_at).subrange(24, 32) =~= be64(input.created_at));
    assert(abi_word(t, 0, 7) =~= word_u64(input.fill_deadline));
    assert(word_u64(input.fill_deadline).subrange(0, 24) =~= zeros(24));
    assert(word_u64(input.fill_deadline).subrange(24, 32) =~= be64(input.fill_deadline));
    assert(abi_word(t, 0, 8) =~= input.token_in@);
    assert(abi_word(t, 0, 9) =~= input.token_out@);
    assert(abi_word(t, 0, 10) =~= word_u128(input.amount_in));
    assert(word_u128(input.amount_in).subrange(0, 16) =~= zeros(16));
    assert(word_u128(input.amount_in).subrange(16, 32) =~= be128(input.amount_in));
    assert(abi_word(t, 0, 11) =~= word_u128(input.amount_out));
    assert(word_u128(input.amount_out).subrange(0, 16) =~= zeros(16));
    assert(word_u128(input.amount_out).subrange(16, 32) =~= be128(input.amount_out));
    assert(abi_word(t, 0, 12) =~= input.recipient@);
    assert(abi_word(t, 0, 13) =~= input.solver@);
}

fn open_order_calldata(
    dest_chain_id: u32,
    fill_deadline: u32,
    token_in: &[u8; 20],
    token_out: &[u8; 32],
    amount_in: u128,
    amount_out: u128,
    recipient: &[u8; 32],
    solver: &[u8; 32],
) -> (data: Vec<u8>)
    ensures
        data@ == spec_open_order_calldata(
            dest_chain_id,
            fill_deadline,
            token_in@,
            token_out@,
            amount_in,
            amount_out,
            recipient@,
            solver@,
        ),
{
    let mut data: Vec<u8> = Vec::new();
    push_selector(&mut data, "openOrder((uint32,uint32,address,bytes32,uint128,uint128,bytes32,bytes32))");
    push_word_u32(&mut data, dest_chain_id);
    push_word_u32(&mut data, fill_deadline);
    push_word_address(&mut data, token_in);
    append_bytes(&mut data, token_out);
    push_word_u128(&mut data, amount_in);
    push_word_u128(&mut data, amount_out);
    append_bytes(&mut data, recipient);
    append_bytes(&mut data, solver);
    assert(data@ =~= spec_open_order_calldata(
        dest_chain_id,
        fill_deadline,
        token_in@,
        token_out@,
        amount_in,
        amount_out,
        recipient@,
        solver@,
    ));
    data
}

#[verifier::rlimit(40)]
fn cancel_order_calldata(input: &CancelOrderInput, adapter: &[u8; 20], args: &Vec<u8>) -> (data: Vec<u8>)
    ensures
        data@ == spec_cancel_order_calldata(*input, adapter@, args@),
{
    let mut data: Vec<u8> = Vec::new();
    push_selector(
        &mut data,
        "cancelOrder(bytes32,(uint16,bytes32,uint64,uint32,uint32,uint64,uint64,bytes32,bytes32,uint128,uint128,bytes32,bytes32),address,bytes)",
    );
    append_bytes(&mut data, &input.order_id);
    push_word_u16(&mut data, input.version);
    append_bytes(&mut data, &input.sender);
    push_word_u64(&mut data, input.nonce);
    push_word_u32(&mut data, input.origin_chain_id);
    push_word_u32(&mut data, input.dest_chain_id);
    push_word_u64(&mut data, input.created_at);
    push_word_u64(&mut data, input.fill_deadline);
    append_bytes(&mut data, &input.token_in);
    append_bytes(&mut data, &input.token_out);
    push_word_u128(&mut data, input.amount_in);
    push_word_u128(&mut data, input.amount_out);
    append_bytes(&mut data, &input.recipient);
    append_bytes(&mut data, &input.solver);
    push_word_address(&mut data, adapter);
    push_word_u128(&mut data, 512);
    let n = args.len();
    push_word_u128(&mut data, n as u128);
    append_bytes(&mut data, args.as_slice());
    let pad = if n % 32 == 0 {
        0
    } else {
        32 - n % 32
    };
    push_zeros(&mut data, pad);
    assert(data@ =~= spec_cancel_order_calldata(*input, adapter@, args@));
    data
}

/// How a cancellation is reported back to the origin chain: the adapter,
/// its arguments and the value paid for the message.
#[derive(Clone, Debug, PartialEq, Eq)]
pub struct BridgeParams {
    pub adapter: [u8; 20],
    pub adapter_args: Vec<u8>,
    pub msg_value: U256,
}

/// Which bridge reports a cancellation back to the origin chain.
#[derive(Clone, Copy, Debug, PartialEq, Eq)]
pub enum BridgeRoute {
    /// Through the Wormhole adapter, paid with a signed relay quote.
    Wormhole,
    /// Through the Portal, with the default adapter and the Portal's quote.
    Portal,
}

/// Reports to Solana go through Wormhole, all others through the Portal.
pub fn bridge_route(origin_chain_id: u32) -> (route: BridgeRoute)
    ensures
        route == (if origin_chain_id == SOLANA_DEVNET || origin_chain_id == SOLANA_MAINNET {
            BridgeRoute::Wormhole
        } else {
            BridgeRoute::Portal
        }),
{
    if origin_chain_id == SOLANA_DEVNET || origin_chain_id == SOLANA_MAINNET {
        BridgeRoute::Wormhole
    } else {
        BridgeRoute::Portal
    }
}

/// The bridge parameters of a Wormhole route: the Wormhole adapter, the
/// signed quote as its arguments, the quote's estimated cost as value.
pub fn wormhole_bridge_params(signed_quote: Vec<u8>, estimated_cost: U256) -> (p: BridgeParams)
    ensures
        p.adapter == WORMHOLE_ADAPTER,
        p.adapter_args@ == signed_quote@,
        p.msg_value == estimated_cost,
{
    BridgeParams { adapter: WORMHOLE_ADAPTER, adapter_args: signed_quote, msg_value: estimated_cost }
}

/// The bridge parameters of a Portal route: no adapter, no arguments, the
/// Portal's quote as value.
pub fn portal_bridge_params(quote: U256) -> (p: BridgeParams)
    ensures
        p.adapter@ == zeros(20),
        p.adapter_args@.len() == 0,
        p.msg_value == quote,
{
    let p = BridgeParams { adapter: [0u8; 20], adapter_args: Vec::new(), msg_value: quote };
    assert(p.adapter@ =~= zeros(20));
    p
}

/// The relay instructions of a Wormhole quote request: `0x`, then the hex
/// of the byte 1, the gas limit and the message value (big-endian).
pub fn encode_relay_instructions(gas_limit: u128, msg_value: u128) -> (s: String)
    ensures
        s@ == "0x"@ + spec_hex_lower(seq![1u8] + be128(gas_limit) + be128(msg_value)),
{
    let mut data: Vec<u8> = Vec::with_capacity(33);
    data.push(1u8);
    push_u128_be(&mut data, gas_limit);
    push_u128_be(&mut data, msg_value);
    assert(data@ =~= seq![1u8] + be128(gas_limit) + be128(msg_value));
    hex_0x(data.as_slice())
}

/// The response to a Wormhole quote request, read: the signed quote's hex
/// (with or without `0x`) decoded, and the estimated cost when it is a
/// decimal `u128` (zero otherwise).
pub fn parse_wormhole_quote(signed_quote: &str, estimated_cost: Option<&str>) -> (r: Result<
    (Vec<u8>, U256),
    TransactionBuilderError,
>)
    ensures
        match r {
            Ok(q) => {
                &&& spec_hex_valid(spec_strip_0x(signed_quote@))
                &&& q.0@ == spec_hex_bytes(spec_strip_0x(signed_quote@))
                &&& q.1 == match estimated_cost {
                    Some(c) => match spec_parse_u128(c@) {
                        Some(v) => U256 { hi: 0, lo: v },
                        None => U256 { hi: 0, lo: 0 },
                    },
                    None => U256 { hi: 0, lo: 0 },
                }
            },
            Err(e) => {
                &&& !spec_hex_valid(spec_strip_0x(signed_quote@))
                &&& (e matches TransactionBuilderError::InvalidAddress(m) && m@
                    == spec_hex_decode_error(spec_strip_0x(signed_quote@)))
            },
        },
{
    let quote = match hex_decode(strip_0x(signed_quote)) {
        Ok(q) => q,
        Err(m) => {
            return Err(TransactionBuilderError::InvalidAddress(m));
        },
    };
    let cost = match estimated_cost {
        Some(c) => match parse_u128(c) {
            Some(v) => U256::from_u128(v),
            None => U256::zero(),
        },
        None => U256::zero(),
    };
    Ok((quote, cost))
}

/// What reading a `bytes32` text gives on the EVM side: a 20-byte address
/// in hex (left-padded with zeros), 32 bytes in hex, or a base58 key of 32
/// bytes; otherwise the message of the invalid-address error.
pub open spec fn spec_evm_parse_bytes32(s: Seq<char>) -> Result<Seq<u8>, Seq<char>> {
    let t = spec_strip_0x(s);
    if encode_utf8(t).len() == 40 {
        if spec_hex_valid(t) {
            Ok(zeros(12) + spec_hex_bytes(t))
        } else {
            Err(spec_hex_decode_error(t))
        }
    } else if encode_utf8(t).len() == 64 {
        if spec_hex_valid(t) {
            Ok(spec_hex_bytes(t))
        } else {
            Err(spec_hex_decode_error(t))
        }
    } else {
        match spec_bs58_decode(t) {
            Ok(b) => if b.len() == 32 {
                Ok(b)
            } else {
                Err("Cannot parse: "@ + t)
            },
            Err(m) => Err(m),
        }
    }
}

/// A `bytes32` text written as `0x` and the lowercase hex of 32 bytes, or
/// of a 20-byte address, is read back as those bytes (the address
/// left-padded with zeros).
pub proof fn lemma_parse_bytes32_of_hex(b: Seq<u8>)
    requires
        b.len() == 32 || b.len() == 20,
    ensures
        spec_evm_parse_bytes32("0x"@ + spec_hex_lower(b)) == Ok::<Seq<u8>, Seq<char>>(
            if b.len() == 32 {
                b
            } else {
                zeros(12) + b
            },
        ),
{
    reveal_strlit("0x");
    let h = spec_hex_lower(b);
    lemma_hex_lower(b);
    vstd::utf8::is_ascii_chars_encode_utf8(h);
    let s = "0x"@ + h;
    assert(s[0] == '0' && s[1] == 'x');
    assert(s.skip(2) =~= h);
    assert(spec_strip_0x(s) == h);
}

/// Reads a `bytes32` text: a 20-byte EVM address in hex (left-padded with
/// zeros), 32 bytes in hex, or a base58 key; `0x` is optional.
pub fn parse_bytes32(s: &str) -> (r: Result<[u8; 32], TransactionBuilderError>)
    ensures
        match spec_evm_parse_bytes32(s@) {
            Ok(b) => r matches Ok(k) && k@ == b,
            Err(m) => r matches Err(TransactionBuilderError::InvalidAddress(x)) && x@ == m,
        },
{
    let t = strip_0x(s);
    let len = t.as_bytes().len();
    if len == 40 {
        match hex_decode(t) {
            Ok(bytes) => {
                proof {
                    lemma_hex_text(t);
                }
                return Ok(padded_key(&bytes, 12));
            },
            Err(m) => {
                return Err(TransactionBuilderError::InvalidAddress(m));
            },
        }
    }
    if len == 64 {
        match hex_decode(t) {
            Ok(bytes) => {
                proof {
                    lemma_hex_text(t);
                }
                let k = padded_key(&bytes, 0);
                assert(k@ =~= bytes@);
                return Ok(k);
            },
            Err(m) => {
                return Err(TransactionBuilderError::InvalidAddress(m));
            },
        }
    }
    match bs58_decode(t) {
        Ok(bytes) => {
            if bytes.len() == 32 {
                let k = padded_key(&bytes, 0);
                assert(k@ =~= bytes@);
                Ok(k)
            } else {
                Err(TransactionBuilderError::InvalidAddress(concat_str("Cannot parse: ", t)))
            }
        },
        Err(m) => Err(TransactionBuilderError::InvalidAddress(m)),
    }
}

/// The quoter's EVM transaction builder for one order book deployment.
pub struct EvmTransactionBuilder {
    rpc_url: String,
    contract_address: [u8; 20],
    chain_id: u32,
}

impl EvmTransactionBuilder {
    /// The RPC endpoint's text.
    pub closed spec fn spec_rpc_url(&self) -> Seq<char> {
        self.rpc_url@
    }

    /// The order book contract's address bytes.
    pub closed spec fn spec_contract_address(&self) -> Seq<u8> {
        self.contract_address@
    }

    /// The chain the order book is deployed on.
    pub closed spec fn spec_chain_id(&self) -> u32 {
        self.chain_id
    }
}

impl EvmTransactionBuilder {
    /// A builder for the order book at `contract_address`, reached through
    /// `rpc_url`; a bad URL is an RPC error, a bad address an invalid address.
    pub fn new(rpc_url: String, contract_address: String, chain_id: u32) -> (r: Result<
        Self,
        TransactionBuilderError,
    >)
        ensures
            spec_url_parse_error(rpc_url@) matches Some(m) ==> r matches Err(
                TransactionBuilderError::RpcError(x),
            ) && x@ == "Invalid RPC URL: "@ + m,
            spec_url_parse_error(rpc_url@) is None ==> match spec_parse_address(contract_address@) {
                Ok(b) => r matches Ok(builder) && builder.spec_rpc_url() == rpc_url@
                    && builder.spec_contract_address() == b && builder.spec_chain_id() == chain_id,
                Err(m) => r matches Err(TransactionBuilderError::InvalidAddress(x)) && x@ == m,
            },
    {
        match url_parse_error(rpc_url.as_str()) {
            Some(m) => {
                return Err(TransactionBuilderError::RpcError(concat_str("Invalid RPC URL: ", m.as_str())));
            },
            None => {},
        }
        let contract = parse_address(contract_address.as_str())?;
        Ok(EvmTransactionBuilder { rpc_url, contract_address: contract, chain_id })
    }

    /// The RPC endpoint.
    pub fn rpc_url(&self) -> (u: &String)
        ensures
            u@ == self.spec_rpc_url(),
    {
        &self.rpc_url
    }

    /// The order book contract's address.
    pub fn contract_address(&self) -> (a: [u8; 20])
        ensures
            a@ == self.spec_contract_address(),
    {
        self.contract_address
    }

    /// The chain the order book is deployed on.
    pub fn chain_id(&self) -> (c: u32)
        ensures
            c == self.spec_chain_id(),
    {
        self.chain_id
    }

    /// The order book's address as `0x` and 40 lowercase hex digits.
    pub fn contract_address_hex(&self) -> (s: String)
        ensures
            s@ == "0x"@ + spec_hex_lower(self.spec_contract_address()),
    {
        alloy_address_debug(&self.contract_address)
    }

    /// The transaction approving `spender` to move `amount` of `token`.
    pub fn build_approve_calldata(token: &str, spender: &str, amount: u128) -> (r: Result<
        EvmTransaction,
        TransactionBuilderError,
    >)
        ensures
            match spec_parse_address(spender@) {
                Ok(b) => r matches Ok(t) && spec_approval_tx(t, token@, b, amount),
                Err(m) => r matches Err(TransactionBuilderError::InvalidAddress(x)) && x@ == m,
            },
    {
        let spender_address = parse_address(spender)?;
        Ok(approve_transaction(token, &spender_address, amount))
    }

    /// The transaction opening an order, given the sender's nonce and its
    /// current allowance to the order book: an approval of the whole range
    /// of `u128` comes with it when the allowance is below the input amount.
    pub fn build_open_order_calldata(
        &self,
        input: &OpenOrderInput,
        nonce: u64,
        current_allowance: U256,
    ) -> (r: Result<EvmTransactionResult, TransactionBuilderError>)
        ensures
            match (spec_parse_address(input.token_in@), spec_evm_parse_bytes32(input.token_out@)) {
                (Err(m), _) => r matches Err(TransactionBuilderError::InvalidAddress(x)) && x@ == m,
                (Ok(_), Err(m)) => r matches Err(TransactionBuilderError::InvalidAddress(x)) && x@
                    == m,
                (Ok(tin), Ok(tout)) => r matches Ok(res) && {
                    &&& res.transaction.to@ == "0x"@ + spec_hex_lower(self.spec_contract_address())
                    &&& res.transaction.data@ == "0x"@ + spec_hex_lower(
                        spec_open_order_calldata(
                            input.dest_chain_id,
                            input.fill_deadline as u32,
                            tin,
                            tout,
                            input.amount_in as u128,
                            input.amount_out,
                            input.recipient@,
                            input.solver@,
                        ),
                    )
                    &&& res.transaction.value@ == "0x0"@
                    &&& (spec_u256_value_lt(current_allowance, input.amount_in as u128) ==> (
                    res.approval_transaction matches Some(a) && spec_approval_tx(
                        a,
                        input.token_in@,
                        self.spec_contract_address(),
                        u128::MAX,
                    )))
                    &&& (!spec_u256_value_lt(current_allowance, input.amount_in as u128)
                        ==> res.approval_transaction is None)
                    &&& res.order_id is None
                    &&& res.nonce == nonce
                    &&& res.contract_address@ == "0x"@ + spec_hex_lower(self.spec_contract_address())
                },
            },
    {
        let contract_addr = self.contract_address_hex();
        let approval_transaction = if current_allowance.lt_u128(input.amount_in as u128) {
            Some(approve_transaction(input.token_in.as_str(), &self.contract_address, u128::MAX))
        } else {
            None
        };
        let token_in = parse_address(input.token_in.as_str())?;
        let token_out = parse_bytes32(input.token_out.as_str())?;
        let calldata = open_order_calldata(
            input.dest_chain_id,
            input.fill_deadline as u32,
            &token_in,
            &token_out,
            input.amount_in as u128,
            input.amount_out,
            &input.recipient,
            &input.solver,
        );
        let to = self.contract_address_hex();
        let data = hex_0x(calldata.as_slice());
        Ok(
            EvmTransactionResult {
                transaction: EvmTransaction { to, data, value: string_of("0x0") },
                approval_transaction,
                order_id: None,
                nonce,
                contract_address: contract_addr,
            },
        )
    }

    /// The transaction cancelling an order on this chain, reporting the
    /// cancellation through the given bridge and paying its message value.
    pub fn build_cancel_order_calldata(&self, input: &CancelOrderInput, bridge: &BridgeParams) -> (t: EvmTransaction)
        ensures
            t.to@ == "0x"@ + spec_hex_lower(self.spec_contract_address()),
            t.data@ == "0x"@ + spec_hex_lower(
                spec_cancel_order_calldata(*input, bridge.adapter@, bridge.adapter_args@),
            ),
            t.value@ == spec_u256_hex(bridge.msg_value),
    {
        let calldata = cancel_order_calldata(input, &bridge.adapter, &bridge.adapter_args);
        EvmTransaction {
            to: self.contract_address_hex(),
            data: hex_0x(calldata.as_slice()),
            value: u256_hex(bridge.msg_value),
        }
    }
}

/// Whether the value of `x` is below `v`.
pub open spec fn spec_u256_value_lt(x: U256, v: u128) -> bool {
    x.hi == 0 && x.lo < v
}

} // verus!
