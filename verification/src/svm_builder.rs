//! The quoter's Solana transaction builder: the order book's program
//! addresses, the open and cancel instructions, and the unsigned
//! transactions that carry them. What it reads over RPC (accounts, the
//! latest blockhash) it is handed as values.
use crate::builder::{
    hex_0x, spec_strip_0x, strip_0x, CancelOrderInput, OpenOrderInput, TransactionBuilderError,
    TransactionResult,
};
use crate::bytes::{append_bytes, lemma_layouts, padded_key, be128, be16, be32, be64, from_le64, le128, le16, le32, le64, push_u32_be, read_u64_le, zeros};
use crate::clock::secs_since_unix_epoch;
use crate::hash::views;
use crate::instruction::{
    account_refs, compile_legacy_message, compile_v0_message, instruction_view, instructions_view,
    keys_view, lists_short, metas_view, short_lists, spec_legacy_message, spec_unsigned_transaction,
    spec_v0_compile_error, spec_v0_message, unsigned_transaction, v0_compile_error, AccountMeta,
    Instruction,
};
use crate::layout::{
    lemma_order_params_round_trip, spec_order_params_at, spec_order_params_bytes, write_order_data,
    write_order_params,
};
use crate::program::{compute_order_id, spec_order_id, spec_order_id_parts, OrderData, OrderParams};
use crate::hash::spec_solana_keccak_hashv;
use crate::layout::read_key;
use crate::solana::{
    is_base58_char, parse_pubkey_bytes, pubkey_to_string, spec_find_program_address, spec_parse_pubkey,
    spec_pubkey_string, try_find_program_address,
};
use crate::text::{
    base64_encode, concat_str, hex_decode, lemma_hex_text, spec_base64, spec_hex_bytes, spec_hex_decode_error, spec_hex_lower,
    spec_hex_valid,
};
use vstd::prelude::*;
use vstd::utf8::encode_utf8;

verus! {

/// The order book program used when none is configured.
pub const DEFAULT_ORDER_BOOK_PROGRAM_ID: &'static str = "MzLoYnJ6sF6eeejs4vV95TNmXqS3W4cAtLGKkjT4ZrK";

/// The Portal program that relays cancellations of foreign orders.
pub const PORTAL_PROGRAM_ID: &'static str = "MzBrgc8yXBj4P16GTkcSyDZkEQZB9qDqf3fh9bByJce";

/// The bridge adapter the Portal relays through.
pub const BRIDGE_ADAPTER: &'static str = "mzp1q2j5Hr1QuLC3KFBCAUz5aUckT6qyuZKZ3WJnMmY";

/// The address lookup table cancellation transactions use.
pub const LOOKUP_TABLE: &'static str = "9Ez9PMwWdZ35uFBXZH6QEzmqNyAqPeW8sLdVbJWyo8nT";

/// The message of the error the message serializer gives for a list longer
/// than its compact length can count.
pub const SHORT_VEC_LENGTH_ERROR: &'static str = "length larger than u16";

/// Bytes of a lookup table account before its addresses.
pub const LOOKUP_TABLE_META_SIZE: usize = 56;

/// Version of the orders this builder opens.
pub const VERSION: u16 = 1;

/// Anchor discriminator of `open_order`.
pub const OPEN_ORDER_DISCRIMINATOR: [u8; 8] = [206, 88, 88, 143, 38, 136, 50, 224];

/// Anchor discriminator of `cancel_native_order`.
pub const CANCEL_NATIVE_ORDER_DISCRIMINATOR: [u8; 8] = [161, 5, 252, 99, 194, 215, 19, 84];

/// Anchor discriminator of `cancel_foreign_order`.
pub const CANCEL_FOREIGN_ORDER_DISCRIMINATOR: [u8; 8] = [64, 42, 40, 137, 244, 90, 185, 107];

/// Seed of the global account: `b"global"`.
pub const GLOBAL_SEED: [u8; 6] = [103, 108, 111, 98, 97, 108];

/// Seed prefix of nonce accounts: `b"nonce"`.
pub const NONCE_SEED: [u8; 5] = [110, 111, 110, 99, 101];

/// Seed prefix of destination accounts: `b"destination"`.
pub const DESTINATION_SEED: [u8; 11] = [100, 101, 115, 116, 105, 110, 97, 116, 105, 111, 110];

/// Seed prefix of order accounts: `b"order"`.
pub const ORDER_SEED: [u8; 5] = [111, 114, 100, 101, 114];

/// Seed of the event authority: `b"__event_authority"`.
pub const EVENT_AUTHORITY_SEED: [u8; 17] = [
    95, 95, 101, 118, 101, 110, 116, 95, 97, 117, 116, 104, 111, 114, 105, 116, 121,
];

/// Seed of the Portal's authority: `b"authority"`.
pub const AUTHORITY_SEED: [u8; 9] = [97, 117, 116, 104, 111, 114, 105, 116, 121];

/// The SPL Token program, `TokenkegQfeZyiNwAJbNbGKPFXCWuBvf9Ss623VQ5DA`.
pub const SPL_TOKEN_PROGRAM_ID: [u8; 32] = [
    6, 221, 246, 225, 215, 101, 161, 147, 217, 203, 225, 70, 206, 235, 121, 172, 28, 180, 133, 237,
    95, 91, 55, 145, 58, 140, 245, 133, 126, 255, 0, 169,
];

/// The Token-2022 program, `TokenzQdBNbLqP5VEhdkAS6EPFLC1PHnBqCXEpPxuEb`.
pub const TOKEN_2022_PROGRAM_ID: [u8; 32] = [
    6, 221, 246, 225, 238, 117, 143, 222, 24, 66, 93, 188, 228, 108, 205, 218, 182, 26, 252, 77,
    131, 185, 13, 39, 254, 189, 249, 40, 216, 161, 139, 252,
];

/// The associated token account program, `ATokenGPvbdGVxr1b2hvZbsiqW5xWH25efTNsLJA8knL`.
pub const ASSOCIATED_TOKEN_PROGRAM_ID: [u8; 32] = [
    140, 151, 37, 143, 78, 36, 137, 241, 187, 61, 16, 41, 20, 142, 13, 131, 11, 90, 19, 153, 218,
    255, 16, 132, 4, 142, 123, 216, 219, 233, 248, 89,
];

/// The system program, `11111111111111111111111111111111`.
pub const SYSTEM_PROGRAM_ID: [u8; 32] = [
    0, 0, 0, 0, 0, 0, 0, 0, 0, 0, 0, 0, 0, 0, 0, 0, 0, 0, 0, 0, 0, 0, 0, 0, 0, 0, 0, 0, 0, 0, 0, 0,
];

/// The EVM address relayed cancellations are delivered to, left-padded to 32 bytes.
pub const RELAY_TARGET: [u8; 32] = [
    0, 0, 0, 0, 0, 0, 0, 0, 0, 0, 0, 0, 107, 42, 123, 250, 95, 28, 3, 235, 250, 231, 121, 223,
    105, 136, 184, 172, 20, 202, 65, 85,
];

/// Gas limit asked of the relayer of a foreign cancellation.
pub const RELAY_GAS_LIMIT: u128 = 500_000;

/// Message value asked of the relayer of a foreign cancellation.
pub const RELAY_MSG_VALUE: u128 = 20_000_000;

/// The message of the error when no program address can be derived.
pub open spec fn no_pda_message() -> Seq<char> {
    "Unable to find a viable program address bump seed"@
}

/// Parses a base58 public key, reporting a bad one as an invalid address.
pub fn parse_pubkey(s: &str) -> (r: Result<[u8; 32], TransactionBuilderError>)
    ensures
        match spec_parse_pubkey(s@) {
            Ok(k) => r matches Ok(a) && a@ == k,
            Err(m) => r matches Err(TransactionBuilderError::InvalidAddress(x)) && x@ == m,
        },
{
    match parse_pubkey_bytes(s) {
        Ok(k) => Ok(k),
        Err(m) => Err(TransactionBuilderError::InvalidAddress(m)),
    }
}

/// The program address derived from the seeds, if one exists.
pub open spec fn spec_pda(seeds: Seq<Seq<u8>>, program_id: Seq<u8>) -> Option<Seq<u8>> {
    match spec_find_program_address(seeds, program_id) {
        Some(p) => Some(p.0),
        None => None,
    }
}

/// What deriving a program address gives: the address, or the invalid
/// address error when none exists.
pub open spec fn pda_result(r: Result<[u8; 32], TransactionBuilderError>, seeds: Seq<Seq<u8>>, program_id: Seq<u8>) -> bool {
    match spec_pda(seeds, program_id) {
        Some(k) => r matches Ok(a) && a@ == k,
        None => r matches Err(TransactionBuilderError::InvalidAddress(m)) && m@ == no_pda_message(),
    }
}

/// Derives the program address of the seeds.
pub fn find_pda(seeds: &Vec<Vec<u8>>, program_id: &[u8; 32]) -> (r: Result<[u8; 32], TransactionBuilderError>)
    ensures
        pda_result(r, views(seeds@), program_id@),
{
    match try_find_program_address(seeds, program_id) {
        Some(p) => Ok(p.0),
        None => Err(
            TransactionBuilderError::InvalidAddress(
                String::from_str("Unable to find a viable program address bump seed"),
            ),
        ),
    }
}

fn bytes_of(s: &[u8]) -> (v: Vec<u8>)
    ensures
        v@ == s@,
{
    let mut v: Vec<u8> = Vec::new();
    append_bytes(&mut v, s);
    assert(v@ =~= s@);
    v
}

fn pda1(a: &[u8], program_id: &[u8; 32]) -> (r: Result<[u8; 32], TransactionBuilderError>)
    ensures
        pda_result(r, seq![a@], program_id@),
{
    let mut seeds: Vec<Vec<u8>> = Vec::new();
    seeds.push(bytes_of(a));
    assert(views(seeds@) =~= seq![a@]);
    find_pda(&seeds, program_id)
}

fn pda2(a: &[u8], b: &[u8], program_id: &[u8; 32]) -> (r: Result<[u8; 32], TransactionBuilderError>)
    ensures
        pda_result(r, seq![a@, b@], program_id@),
{
    let mut seeds: Vec<Vec<u8>> = Vec::new();
    seeds.push(bytes_of(a));
    seeds.push(bytes_of(b));
    assert(views(seeds@) =~= seq![a@, b@]);
    find_pda(&seeds, program_id)
}

/// The seeds of an associated token account: wallet, token program, mint.
pub open spec fn ata_seeds(wallet: Seq<u8>, mint: Seq<u8>, token_program: Seq<u8>) -> Seq<Seq<u8>> {
    seq![wallet, token_program, mint]
}

/// The associated token account of `wallet` for `mint` under `token_program`:
/// the address the associated token account program derives from
/// `[wallet, token_program, mint]`.
pub fn associated_token_address(wallet: &[u8; 32], mint: &[u8; 32], token_program: &[u8; 32]) -> (r: Result<
    [u8; 32],
    TransactionBuilderError,
>)
    ensures
        pda_result(r, ata_seeds(wallet@, mint@, token_program@), ASSOCIATED_TOKEN_PROGRAM_ID@),
{
    let mut seeds: Vec<Vec<u8>> = Vec::new();
    seeds.push(bytes_of(wallet));
    seeds.push(bytes_of(token_program));
    seeds.push(bytes_of(mint));
    assert(views(seeds@) =~= ata_seeds(wallet@, mint@, token_program@));
    find_pda(&seeds, &ASSOCIATED_TOKEN_PROGRAM_ID)
}

/// The message of the error when the clock is read at an overflowing offset.
pub open spec fn timestamp_overflow_message() -> Seq<char> {
    "timestamp overflow"@
}

/// A timestamp `offset_secs` after the clock reading `now`: the sum, a
/// serialization error carrying the clock's message, or a serialization
/// error when the sum overflows.
pub fn timestamp_with_offset(now: Result<u64, String>, offset_secs: u64) -> (r: Result<
    u64,
    TransactionBuilderError,
>)
    ensures
        match now {
            Ok(t) => if t + offset_secs <= u64::MAX {
                r == Ok::<u64, TransactionBuilderError>((t + offset_secs) as u64)
            } else {
                r matches Err(TransactionBuilderError::SerializationError(m)) && m@
                    == timestamp_overflow_message()
            },
            Err(e) => r matches Err(TransactionBuilderError::SerializationError(m)) && m@ == e@,
        },
{
    match now {
        Ok(t) => match t.checked_add(offset_secs) {
            Some(s) => Ok(s),
            None => Err(TransactionBuilderError::SerializationError(String::from_str("timestamp overflow"))),
        },
        Err(e) => Err(TransactionBuilderError::SerializationError(e)),
    }
}

/// The current Unix time in whole seconds plus `offset_secs`. What the
/// clock reads is not known: a success is at least the offset, and every
/// failure is a serialization error.
pub fn current_timestamp_with_offset(offset_secs: u64) -> (r: Result<u64, TransactionBuilderError>)
    ensures
        r matches Ok(t) ==> t >= offset_secs,
        r is Err ==> r matches Err(TransactionBuilderError::SerializationError(_)),
{
    timestamp_with_offset(secs_since_unix_epoch(), offset_secs)
}

/// The nonce of a sender from its nonce account as read over RPC: zero when
/// the account could not be read (it does not exist yet), the little-endian
/// `u64` at bytes 9..17 of its data, or an account parse error when the data
/// is shorter than 17 bytes.
pub fn sender_nonce_from_account(account_data: Option<&[u8]>) -> (r: Result<u64, TransactionBuilderError>)
    ensures
        match account_data {
            None => r == Ok::<u64, TransactionBuilderError>(0),
            Some(d) => if d@.len() >= 17 {
                r == Ok::<u64, TransactionBuilderError>(from_le64(d@.subrange(9, 17)))
            } else {
                r == Err::<u64, TransactionBuilderError>(TransactionBuilderError::AccountParseError)
            },
        },
{
    match account_data {
        None => Ok(0),
        Some(d) => {
            if d.len() >= 17 {
                Ok(read_u64_le(d, 9))
            } else {
                Err(TransactionBuilderError::AccountParseError)
            }
        },
    }
}

/// The addresses stored in a lookup table account's data: 32-byte keys
/// after the 56-byte header.
pub open spec fn spec_lookup_addresses(data: Seq<u8>) -> Seq<Seq<u8>> {
    Seq::new(
        ((data.len() - 56) / 32) as nat,
        |i: int| data.subrange(56 + 32 * i, 56 + 32 * i + 32),
    )
}

/// Reads the addresses of a lookup table account: an account parse error
/// when the data is shorter than the header or the rest is not whole keys.
pub fn parse_lookup_table(data: &[u8]) -> (r: Result<Vec<[u8; 32]>, TransactionBuilderError>)
    ensures
        data@.len() < 56 ==> r == Err::<Vec<[u8; 32]>, TransactionBuilderError>(
            TransactionBuilderError::AccountParseError,
        ),
        data@.len() >= 56 && (data@.len() - 56) % 32 != 0 ==> r == Err::<
            Vec<[u8; 32]>,
            TransactionBuilderError,
        >(TransactionBuilderError::AccountParseError),
        data@.len() >= 56 && (data@.len() - 56) % 32 == 0 ==> (r matches Ok(keys) && keys_view(keys@)
            == spec_lookup_addresses(data@)),
{
    let n = data.len();
    if n < LOOKUP_TABLE_META_SIZE {
        return Err(TransactionBuilderError::AccountParseError);
    }
    if (n - LOOKUP_TABLE_META_SIZE) % 32 != 0 {
        return Err(TransactionBuilderError::AccountParseError);
    }
    let count = (n - LOOKUP_TABLE_META_SIZE) / 32;
    let mut keys: Vec<[u8; 32]> = Vec::new();
    for i in 0..count
        invariant
            n == data@.len(),
            n >= 56,
            (n - 56) % 32 == 0,
            count == (n - 56) / 32,
            keys@.len() == i,
            forall|j: int|
                0 <= j < i ==> (#[trigger] keys@[j])@ == data@.subrange(56 + 32 * j, 56 + 32 * j + 32),
    {
        assert(56 + 32 * i + 32 <= n) by (nonlinear_arith)
            requires
                i < count,
                count == (n - 56) / 32,
                n >= 56,
        ;
        let k = read_key(data, LOOKUP_TABLE_META_SIZE + 32 * i);
        keys.push(k);
    }
    assert(keys_view(keys@) =~= spec_lookup_addresses(data@));
    Ok(keys)
}

/// The message of the error for a mint that no known token program owns.
pub open spec fn unknown_mint_message(mint: Seq<u8>) -> Seq<char> {
    "Mint "@ + spec_pubkey_string(mint) + " is not owned by a known token program"@
}

/// The token program of a mint, from the owner of the mint's account: the
/// SPL Token or the Token-2022 program, else an invalid address error.
pub fn mint_token_program(mint: &[u8; 32], owner: &[u8; 32]) -> (r: Result<[u8; 32], TransactionBuilderError>)
    ensures
        owner@ == SPL_TOKEN_PROGRAM_ID@ ==> r == Ok::<[u8; 32], TransactionBuilderError>(
            SPL_TOKEN_PROGRAM_ID,
        ),
        owner@ == TOKEN_2022_PROGRAM_ID@ ==> r == Ok::<[u8; 32], TransactionBuilderError>(
            TOKEN_2022_PROGRAM_ID,
        ),
        owner@ != SPL_TOKEN_PROGRAM_ID@ && owner@ != TOKEN_2022_PROGRAM_ID@ ==> (r matches Err(
            TransactionBuilderError::InvalidAddress(m),
        ) && m@ == unknown_mint_message(mint@)),
{
    if crate::program::keys_equal(owner, &SPL_TOKEN_PROGRAM_ID) {
        Ok(SPL_TOKEN_PROGRAM_ID)
    } else if crate::program::keys_equal(owner, &TOKEN_2022_PROGRAM_ID) {
        Ok(TOKEN_2022_PROGRAM_ID)
    } else {
        let name = pubkey_to_string(mint);
        let head = concat_str("Mint ", name.as_str());
        Err(TransactionBuilderError::InvalidAddress(concat_str(head.as_str(), " is not owned by a known token program")))
    }
}

/// What reading a `bytes32` text gives on the Solana side: a base58 key
/// first; else, without `0x`, 32 bytes in hex or a 20-byte EVM address in
/// hex (left-padded with zeros); otherwise the message of the invalid
/// address error.
pub open spec fn spec_svm_parse_bytes32(s: Seq<char>) -> Result<Seq<u8>, Seq<char>> {
    match spec_parse_pubkey(s) {
        Ok(k) => Ok(k),
        Err(_) => spec_svm_parse_hex32(s),
    }
}

/// The hex reading of a `bytes32` text: without `0x`, 32 bytes in hex or a
/// 20-byte EVM address in hex (left-padded with zeros); otherwise the
/// message of the invalid address error.
pub open spec fn spec_svm_parse_hex32(s: Seq<char>) -> Result<Seq<u8>, Seq<char>> {
    let t = spec_strip_0x(s);
    if encode_utf8(t).len() == 64 {
        if spec_hex_valid(t) {
            Ok(spec_hex_bytes(t))
        } else {
            Err(spec_hex_decode_error(t))
        }
    } else if encode_utf8(t).len() == 40 {
        if spec_hex_valid(t) {
            Ok(zeros(12) + spec_hex_bytes(t))
        } else {
            Err(spec_hex_decode_error(t))
        }
    } else {
        Err("Cannot parse: "@ + t)
    }
}

/// Reads a `bytes32` text: a base58 key, 32 bytes in hex, or a 20-byte EVM
/// address in hex (left-padded); `0x` is optional before hex.
pub fn parse_bytes32(s: &str) -> (r: Result<[u8; 32], TransactionBuilderError>)
    ensures
        match spec_svm_parse_bytes32(s@) {
            Ok(b) => r matches Ok(k) && k@ == b,
            Err(m) => r matches Err(TransactionBuilderError::InvalidAddress(x)) && x@ == m,
        },
        s@.len() > 44 || (exists|i: int| 0 <= i < s@.len() && !is_base58_char(#[trigger] s@[i]))
            ==> match spec_svm_parse_hex32(s@) {
            Ok(b) => r matches Ok(k) && k@ == b,
            Err(m) => r matches Err(TransactionBuilderError::InvalidAddress(x)) && x@ == m,
        },
{
    match parse_pubkey_bytes(s) {
        Ok(k) => {
            return Ok(k);
        },
        Err(_) => {},
    }
    let t = strip_0x(s);
    let len = t.as_bytes().len();
    if len == 64 {
        match hex_decode(t) {
            Ok(bytes) => {
                proof {
                    lemma_hex_text(t);
                }
                let k = padded_key(&bytes, 0);
                assert(k@ =~= bytes@);
                Ok(k)
            },
            Err(m) => Err(TransactionBuilderError::InvalidAddress(m)),
        }
    } else if len == 40 {
        match hex_decode(t) {
            Ok(bytes) => {
                proof {
                    lemma_hex_text(t);
                }
                Ok(padded_key(&bytes, 12))
            },
            Err(m) => Err(TransactionBuilderError::InvalidAddress(m)),
        }
    } else {
        Err(TransactionBuilderError::InvalidAddress(concat_str("Cannot parse: ", t)))
    }
}

/// An instruction as plain values: program, accounts, data.
pub type InstructionView = (Seq<u8>, Seq<(Seq<u8>, bool, bool)>, Seq<u8>);

/// The identifier of the order an open-order transaction creates.
pub open spec fn spec_open_order_id(
    chain_id: u32,
    input: OpenOrderInput,
    sender: Seq<u8>,
    mint: Seq<u8>,
    token_out: Seq<u8>,
    nonce: u64,
    created_at: u64,
) -> Seq<u8> {
    spec_solana_keccak_hashv(
        seq![
            be16(VERSION),
            sender,
            be64(nonce),
            be32(chain_id),
            be32(input.dest_chain_id),
            be64(created_at),
            be64(input.fill_deadline),
            mint,
            token_out,
            be128(input.amount_in as u128),
            be128(input.amount_out),
            input.recipient@,
            input.solver@,
        ],
    )
}

/// The data of an `open_order` instruction: its discriminator, then the
/// order parameters, integers little-endian.
pub open spec fn spec_open_order_data(input: OpenOrderInput, token_out: Seq<u8>, created_at: u64) -> Seq<u8> {
    OPEN_ORDER_DISCRIMINATOR@ + le32(input.dest_chain_id) + le64(created_at) + le64(input.fill_deadline)
        + token_out + le64(input.amount_in) + le128(input.amount_out) + input.recipient@
        + input.solver@
}

/// The accounts of an `open_order` instruction, in order.
pub open spec fn spec_open_order_accounts(
    program: Seq<u8>,
    sender: Seq<u8>,
    global: Seq<u8>,
    destination: Seq<u8>,
    mint: Seq<u8>,
    sender_ata: Seq<u8>,
    nonce_pda: Seq<u8>,
    order_pda: Seq<u8>,
    order_ata: Seq<u8>,
    token_program: Seq<u8>,
    event_authority: Seq<u8>,
) -> Seq<(Seq<u8>, bool, bool)> {
    seq![
        (sender, true, true),
        (program, false, false),
        (global, false, false),
        (destination, false, false),
        (mint, false, false),
        (sender_ata, false, true),
        (nonce_pda, false, true),
        (order_pda, false, true),
        (order_ata, false, true),
        (token_program, false, false),
        (ASSOCIATED_TOKEN_PROGRAM_ID@, false, false),
        (SYSTEM_PROGRAM_ID@, false, false),
        (event_authority, false, false),
        (program, false, false),
    ]
}

/// The order identifier and the `open_order` instruction for the parsed
/// keys, or none when one of the program addresses cannot be derived.
/// The destination account is the destination's address for an order to
/// another chain, and the program itself for one to this chain.
pub open spec fn spec_open_order_ix(
    program: Seq<u8>,
    chain_id: u32,
    input: OpenOrderInput,
    sender: Seq<u8>,
    mint: Seq<u8>,
    token_out: Seq<u8>,
    token_program: Seq<u8>,
    nonce: u64,
    created_at: u64,
) -> Option<(Seq<u8>, InstructionView)> {
    let order_id = spec_open_order_id(chain_id, input, sender, mint, token_out, nonce, created_at);
    let order_pda = spec_pda(seq![ORDER_SEED@, order_id], program);
    let destination = if input.dest_chain_id != chain_id {
        spec_pda(seq![DESTINATION_SEED@, be32(input.dest_chain_id)], program)
    } else {
        Some(program)
    };
    let sender_ata = spec_pda(ata_seeds(sender, mint, token_program), ASSOCIATED_TOKEN_PROGRAM_ID@);
    let global = spec_pda(seq![GLOBAL_SEED@], program);
    let nonce_pda = spec_pda(seq![NONCE_SEED@, sender], program);
    let event_authority = spec_pda(seq![EVENT_AUTHORITY_SEED@], program);
    match (order_pda, destination, sender_ata, global, nonce_pda, event_authority) {
        (Some(o), Some(d), Some(sa), Some(g), Some(np), Some(ea)) => match spec_pda(
            ata_seeds(o, mint, token_program),
            ASSOCIATED_TOKEN_PROGRAM_ID@,
        ) {
            Some(oa) => Some(
                (
                    order_id,
                    (
                        program,
                        spec_open_order_accounts(program, sender, g, d, mint, sa, np, o, oa, token_program, ea),
                        spec_open_order_data(input, token_out, created_at),
                    ),
                ),
            ),
            None => None,
        },
        _ => None,
    }
}

/// The accounts of a `cancel_native_order` instruction, in order.
pub open spec fn spec_cancel_native_accounts(
    program: Seq<u8>,
    caller: Seq<u8>,
    sender: Seq<u8>,
    global: Seq<u8>,
    order_pda: Seq<u8>,
    mint: Seq<u8>,
    sender_ata: Seq<u8>,
    order_ata: Seq<u8>,
    token_program: Seq<u8>,
    event_authority: Seq<u8>,
) -> Seq<(Seq<u8>, bool, bool)> {
    seq![
        (caller, true, false),
        (sender, false, false),
        (global, false, false),
        (order_pda, false, true),
        (mint, false, false),
        (sender_ata, false, true),
        (order_ata, false, true),
        (token_program, false, false),
        (event_authority, false, false),
        (program, false, false),
    ]
}

/// The `cancel_native_order` instruction, or none when one of the program
/// addresses cannot be derived. Its data is the discriminator and the
/// order identifier.
pub open spec fn spec_cancel_native_ix(
    program: Seq<u8>,
    input: CancelOrderInput,
    caller: Seq<u8>,
    token_program: Seq<u8>,
) -> Option<InstructionView> {
    let order_pda = spec_pda(seq![ORDER_SEED@, input.order_id@], program);
    let sender_ata = spec_pda(
        ata_seeds(input.sender@, input.token_in@, token_program),
        ASSOCIATED_TOKEN_PROGRAM_ID@,
    );
    let global = spec_pda(seq![GLOBAL_SEED@], program);
    let event_authority = spec_pda(seq![EVENT_AUTHORITY_SEED@], program);
    match (order_pda, sender_ata, global, event_authority) {
        (Some(o), Some(sa), Some(g), Some(ea)) => match spec_pda(
            ata_seeds(o, input.token_in@, token_program),
            ASSOCIATED_TOKEN_PROGRAM_ID@,
        ) {
            Some(oa) => Some(
                (
                    program,
                    spec_cancel_native_accounts(
                        program,
                        caller,
                        input.sender@,
                        g,
                        o,
                        input.token_in@,
                        sa,
                        oa,
                        token_program,
                        ea,
                    ),
                    CANCEL_NATIVE_ORDER_DISCRIMINATOR@ + input.order_id@,
                ),
            ),
            None => None,
        },
        _ => None,
    }
}

/// The order data of a cancellation as stored: its fields in order,
/// integers little-endian.
pub open spec fn spec_cancel_order_data(input: CancelOrderInput) -> Seq<u8> {
    le16(input.version) + input.sender@ + le64(input.nonce) + le32(input.origin_chain_id) + le32(
        input.dest_chain_id,
    ) + le64(input.created_at) + le64(input.fill_deadline) + input.token_in@ + input.token_out@
        + le128(input.amount_in) + le128(input.amount_out) + input.recipient@ + input.solver@
}

/// The accounts of a `cancel_foreign_order` instruction before the Wormhole
/// accounts, in order.
pub open spec fn spec_cancel_foreign_accounts(
    program: Seq<u8>,
    caller: Seq<u8>,
    global: Seq<u8>,
    order_pda: Seq<u8>,
    portal: Seq<u8>,
    portal_global: Seq<u8>,
    portal_authority: Seq<u8>,
    adapter: Seq<u8>,
    event_authority: Seq<u8>,
) -> Seq<(Seq<u8>, bool, bool)> {
    seq![
        (caller, true, true),
        (global, false, true),
        (order_pda, false, true),
        (portal, false, false),
        (portal_global, false, true),
        (portal_authority, false, false),
        (adapter, false, false),
        (SYSTEM_PROGRAM_ID@, false, false),
        (event_authority, false, false),
        (program, false, false),
    ]
}

/// The `cancel_foreign_order` instruction with the Wormhole accounts
/// appended, or none when one of the program addresses cannot be derived.
/// Its data is the discriminator, the order identifier and the order data.
pub open spec fn spec_cancel_foreign_ix(
    program: Seq<u8>,
    input: CancelOrderInput,
    caller: Seq<u8>,
    portal: Seq<u8>,
    adapter: Seq<u8>,
    wormhole: Seq<(Seq<u8>, bool, bool)>,
) -> Option<InstructionView> {
    let portal_global = spec_pda(seq![GLOBAL_SEED@], portal);
    let portal_authority = spec_pda(seq![AUTHORITY_SEED@], portal);
    let global = spec_pda(seq![GLOBAL_SEED@], program);
    let order_pda = spec_pda(seq![ORDER_SEED@, input.order_id@], program);
    let event_authority = spec_pda(seq![EVENT_AUTHORITY_SEED@], program);
    match (portal_global, portal_authority, global, order_pda, event_authority) {
        (Some(pg), Some(pa), Some(g), Some(o), Some(ea)) => Some(
            (
                program,
                spec_cancel_foreign_accounts(program, caller, g, o, portal, pg, pa, adapter, ea)
                    + wormhole,
                CANCEL_FOREIGN_ORDER_DISCRIMINATOR@ + input.order_id@ + spec_cancel_order_data(
                    input,
                ),
            ),
        ),
        _ => None,
    }
}

/// In an `open_order` instruction the destination account (the fourth) is
/// the program itself for an order to this chain, and the destination
/// chain's account otherwise; the event authority (the thirteenth) and the
/// program's global account are derived under the program itself.
pub proof fn lemma_open_order_ix_accounts(
    program: Seq<u8>,
    chain_id: u32,
    input: OpenOrderInput,
    sender: Seq<u8>,
    mint: Seq<u8>,
    token_out: Seq<u8>,
    token_program: Seq<u8>,
    nonce: u64,
    created_at: u64,
)
    requires
        spec_open_order_ix(program, chain_id, input, sender, mint, token_out, token_program, nonce, created_at) is Some,
    ensures
        ({
            let ix = spec_open_order_ix(program, chain_id, input, sender, mint, token_out, token_program, nonce, created_at)->Some_0.1;
            &&& ix.0 == program
            &&& ix.1.len() == 14
            &&& ix.1[0] == (sender, true, true)
            &&& (input.dest_chain_id == chain_id ==> ix.1[3].0 == program)
            &&& (input.dest_chain_id != chain_id ==> spec_pda(
                seq![DESTINATION_SEED@, be32(input.dest_chain_id)],
                program,
            ) == Some(ix.1[3].0))
            &&& spec_pda(seq![GLOBAL_SEED@], program) == Some(ix.1[2].0)
            &&& spec_pda(seq![EVENT_AUTHORITY_SEED@], program) == Some(ix.1[12].0)
            &&& ix.1[13].0 == program
        }),
{
}

/// In a `cancel_foreign_order` instruction the event authority (the ninth
/// account) and the order account are derived under the order book program,
/// not under the Portal.
pub proof fn lemma_cancel_foreign_ix_accounts(
    program: Seq<u8>,
    input: CancelOrderInput,
    caller: Seq<u8>,
    portal: Seq<u8>,
    adapter: Seq<u8>,
    wormhole: Seq<(Seq<u8>, bool, bool)>,
)
    requires
        spec_cancel_foreign_ix(program, input, caller, portal, adapter, wormhole) is Some,
    ensures
        ({
            let ix = spec_cancel_foreign_ix(program, input, caller, portal, adapter, wormhole)->Some_0;
            &&& ix.0 == program
            &&& ix.1.len() == 10 + wormhole.len()
            &&& spec_pda(seq![ORDER_SEED@, input.order_id@], program) == Some(ix.1[2].0)
            &&& ix.1[3].0 == portal
            &&& spec_pda(seq![EVENT_AUTHORITY_SEED@], program) == Some(ix.1[8].0)
            &&& ix.1[9].0 == program
        }),
{
}

/// In a `cancel_native_order` instruction the order account and the event
/// authority (the ninth account) are derived under the order book program.
pub proof fn lemma_cancel_native_ix_accounts(
    program: Seq<u8>,
    input: CancelOrderInput,
    caller: Seq<u8>,
    token_program: Seq<u8>,
)
    requires
        spec_cancel_native_ix(program, input, caller, token_program) is Some,
    ensures
        ({
            let ix = spec_cancel_native_ix(program, input, caller, token_program)->Some_0;
            &&& ix.0 == program
            &&& ix.1.len() == 10
            &&& ix.1[0] == (caller, true, false)
            &&& ix.1[1].0 == input.sender@
            &&& spec_pda(seq![ORDER_SEED@, input.order_id@], program) == Some(ix.1[3].0)
            &&& spec_pda(seq![EVENT_AUTHORITY_SEED@], program) == Some(ix.1[8].0)
            &&& ix.1[9].0 == program
        }),
{
}

/// The wire form of the legacy transaction that carries the instructions,
/// paid by `payer`, with empty signatures.
pub open spec fn spec_legacy_transaction(ixs: Seq<InstructionView>, payer: Seq<u8>, blockhash: Seq<u8>) -> Seq<u8> {
    let m = spec_legacy_message(ixs, payer, blockhash);
    spec_unsigned_transaction(m.1, m.0)
}

/// What a built transaction is reported as: the transaction in base64, the
/// order identifier as `0x` and hex, the nonce, and the program's address.
pub open spec fn spec_svm_result(
    res: TransactionResult,
    tx: Seq<u8>,
    order_id: Seq<u8>,
    nonce: u64,
    program: Seq<u8>,
) -> bool {
    &&& res.transaction@ == spec_base64(tx)
    &&& res.order_id@ == "0x"@ + spec_hex_lower(order_id)
    &&& res.nonce == nonce
    &&& res.contract_address@ == spec_pubkey_string(program)
}

/// Whether a lookup table account's data is a header and whole keys.
pub open spec fn lookup_table_ok(data: Seq<u8>) -> bool {
    data.len() >= 56 && (data.len() - 56) % 32 == 0
}

/// Whether cancelling an order is a native cancellation: the order was
/// opened on this chain for this chain.
pub open spec fn spec_is_native(chain_id: u32, input: CancelOrderInput) -> bool {
    input.origin_chain_id == input.dest_chain_id && input.dest_chain_id == chain_id
}

/// The Wormhole chain id that a foreign cancellation is relayed to, or an
/// invalid address error when the origin chain has none.
pub fn wormhole_chain_or_error(wormhole_chain_id: Option<u16>) -> (r: Result<u16, TransactionBuilderError>)
    ensures
        match wormhole_chain_id {
            Some(c) => r == Ok::<u16, TransactionBuilderError>(c),
            None => r matches Err(TransactionBuilderError::InvalidAddress(m)) && m@ == "Unknown chain ID"@,
        },
{
    match wormhole_chain_id {
        Some(c) => Ok(c),
        None => Err(TransactionBuilderError::InvalidAddress(String::from_str("Unknown chain ID"))),
    }
}

fn push_meta(accounts: &mut Vec<AccountMeta>, pubkey: [u8; 32], is_signer: bool, is_writable: bool)
    ensures
        final(accounts)@ == old(accounts)@.push(AccountMeta { pubkey, is_signer, is_writable }),
{
    accounts.push(AccountMeta { pubkey, is_signer, is_writable });
}

fn append_metas(accounts: &mut Vec<AccountMeta>, extra: &Vec<AccountMeta>)
    ensures
        final(accounts)@ == old(accounts)@ + extra@,
{
    let n = extra.len();
    for i in 0..n
        invariant
            n == extra@.len(),
            accounts@ == old(accounts)@ + extra@.subrange(0, i as int),
    {
        accounts.push(extra[i]);
        assert(old(accounts)@ + extra@.subrange(0, i + 1) =~= (old(accounts)@ + extra@.subrange(
            0,
            i as int,
        )).push(extra@[i as int]));
    }
    assert(extra@.subrange(0, n as int) =~= extra@);
}

/// The order an open-order transaction opens, as the program stores it.
pub open spec fn spec_open_order(
    chain_id: u32,
    input: OpenOrderInput,
    sender: [u8; 32],
    mint: [u8; 32],
    token_out: [u8; 32],
    nonce: u64,
    created_at: u64,
) -> OrderData {
    OrderData {
        version: VERSION,
        sender,
        nonce,
        origin_chain_id: chain_id,
        dest_chain_id: input.dest_chain_id,
        created_at,
        fill_deadline: input.fill_deadline,
        token_in: mint,
        token_out,
        amount_in: input.amount_in as u128,
        amount_out: input.amount_out,
        recipient: input.recipient,
        solver: input.solver,
    }
}

/// The identifier the builder reports for an opened order is the program's
/// identifier of that order.
pub proof fn lemma_open_order_id_is_program_id(
    chain_id: u32,
    input: OpenOrderInput,
    sender: [u8; 32],
    mint: [u8; 32],
    token_out: [u8; 32],
    nonce: u64,
    created_at: u64,
)
    ensures
        spec_open_order_id(chain_id, input, sender@, mint@, token_out@, nonce, created_at)
            == spec_order_id(spec_open_order(chain_id, input, sender, mint, token_out, nonce, created_at)),
{
    let d = spec_open_order(chain_id, input, sender, mint, token_out, nonce, created_at);
    assert(spec_order_id_parts(d) =~= seq![
        be16(VERSION),
        sender@,
        be64(nonce),
        be32(chain_id),
        be32(input.dest_chain_id),
        be64(created_at),
        be64(input.fill_deadline),
        mint@,
        token_out@,
        be128(input.amount_in as u128),
        be128(input.amount_out),
        input.recipient@,
        input.solver@,
    ]);
}

/// The parameters the program reads from an `open_order` instruction's
/// data, after its discriminator, are the ones the order identifier was
/// computed from.
pub proof fn lemma_open_order_params_round_trip(
    input: OpenOrderInput,
    token_out: [u8; 32],
    created_at: u64,
    params: OrderParams,
)
    requires
        spec_order_params_at(spec_open_order_data(input, token_out@, created_at), 8, params),
    ensures
        params == (OrderParams {
            dest_chain_id: input.dest_chain_id,
            created_at,
            fill_deadline: input.fill_deadline,
            token_out,
            amount_in: input.amount_in,
            amount_out: input.amount_out,
            recipient: input.recipient,
            solver: input.solver,
        }),
{
    let v = OrderParams {
        dest_chain_id: input.dest_chain_id,
        created_at,
        fill_deadline: input.fill_deadline,
        token_out,
        amount_in: input.amount_in,
        amount_out: input.amount_out,
        recipient: input.recipient,
        solver: input.solver,
    };
    let data = spec_open_order_data(input, token_out@, created_at);
    let b = spec_order_params_bytes(v);
    lemma_order_params_round_trip(v, params);
    assert(data =~= OPEN_ORDER_DISCRIMINATOR@ + b);
    assert(b.len() == 140);
    assert(data.subrange(8, 12) =~= b.subrange(0, 4));
    assert(data.subrange(12, 20) =~= b.subrange(4, 12));
    assert(data.subrange(20, 28) =~= b.subrange(12, 20));
    assert(data.subrange(28, 60) =~= b.subrange(20, 52));
    assert(data.subrange(60, 68) =~= b.subrange(52, 60));
    assert(data.subrange(68, 84) =~= b.subrange(60, 76));
    assert(data.subrange(84, 116) =~= b.subrange(76, 108));
    assert(data.subrange(116, 148) =~= b.subrange(108, 140));
    assert(spec_order_params_at(b, 0, params));
}

/// The quoter's Solana transaction builder for one order book program.
pub struct SvmTransactionBuilder {
    rpc_url: String,
    program_id: [u8; 32],
    chain_id: u32,
}

impl SvmTransactionBuilder {
    /// The RPC endpoint's text.
    pub closed spec fn spec_rpc_url(&self) -> Seq<char> {
        self.rpc_url@
    }

    /// The order book program's key.
    pub closed spec fn spec_program_id(&self) -> Seq<u8> {
        self.program_id@
    }

    /// The chain the program is deployed on.
    pub closed spec fn spec_chain_id(&self) -> u32 {
        self.chain_id
    }

    /// A builder for the order book program `program_id` (the default program
    /// when none is given), reached through `rpc_url`.
    pub fn new(rpc_url: String, program_id: Option<String>, chain_id: u32) -> (r: Result<
        Self,
        TransactionBuilderError,
    >)
        ensures
            match spec_parse_pubkey(
                match program_id {
                    Some(p) => p@,
                    None => DEFAULT_ORDER_BOOK_PROGRAM_ID@,
                },
            ) {
                Ok(k) => r matches Ok(b) && b.spec_rpc_url() == rpc_url@ && b.spec_program_id() == k
                    && b.spec_chain_id() == chain_id,
                Err(m) => r matches Err(TransactionBuilderError::InvalidAddress(x)) && x@ == m,
            },
    {
        let key = match &program_id {
            Some(p) => parse_pubkey(p.as_str())?,
            None => parse_pubkey(DEFAULT_ORDER_BOOK_PROGRAM_ID)?,
        };
        Ok(SvmTransactionBuilder { rpc_url, program_id: key, chain_id })
    }

    /// The RPC endpoint.
    pub fn rpc_url(&self) -> (u: &String)
        ensures
            u@ == self.spec_rpc_url(),
    {
        &self.rpc_url
    }

    /// The order book program's key.
    pub fn program_id(&self) -> (k: [u8; 32])
        ensures
            k@ == self.spec_program_id(),
    {
        self.program_id
    }

    /// The chain the program is deployed on.
    pub fn chain_id(&self) -> (c: u32)
        ensures
            c == self.spec_chain_id(),
    {
        self.chain_id
    }

    /// The program's global account.
    pub fn global_pda(&self) -> (r: Result<[u8; 32], TransactionBuilderError>)
        ensures
            pda_result(r, seq![GLOBAL_SEED@], self.spec_program_id()),
    {
        pda1(&GLOBAL_SEED, &self.program_id)
    }

    /// The nonce account of `sender`.
    pub fn nonce_pda(&self, sender: &[u8; 32]) -> (r: Result<[u8; 32], TransactionBuilderError>)
        ensures
            pda_result(r, seq![NONCE_SEED@, sender@], self.spec_program_id()),
    {
        pda2(&NONCE_SEED, sender, &self.program_id)
    }

    /// The account of the order `order_id`.
    pub fn order_pda(&self, order_id: &[u8; 32]) -> (r: Result<[u8; 32], TransactionBuilderError>)
        ensures
            pda_result(r, seq![ORDER_SEED@, order_id@], self.spec_program_id()),
    {
        pda2(&ORDER_SEED, order_id, &self.program_id)
    }

    /// The program's event authority.
    pub fn event_authority_pda(&self) -> (r: Result<[u8; 32], TransactionBuilderError>)
        ensures
            pda_result(r, seq![EVENT_AUTHORITY_SEED@], self.spec_program_id()),
    {
        pda1(&EVENT_AUTHORITY_SEED, &self.program_id)
    }

    /// The account of the destination chain `dest_chain_id` (big-endian in
    /// the seeds).
    pub fn destination_pda(&self, dest_chain_id: u32) -> (r: Result<[u8; 32], TransactionBuilderError>)
        ensures
            pda_result(r, seq![DESTINATION_SEED@, be32(dest_chain_id)], self.spec_program_id()),
    {
        let mut id: Vec<u8> = Vec::new();
        push_u32_be(&mut id, dest_chain_id);
        assert(id@ =~= be32(dest_chain_id));
        pda2(&DESTINATION_SEED, id.as_slice(), &self.program_id)
    }

    /// Whether cancelling the order is a native cancellation.
    pub fn is_native_cancel(&self, input: &CancelOrderInput) -> (b: bool)
        ensures
            b == spec_is_native(self.spec_chain_id(), *input),
    {
        input.origin_chain_id == input.dest_chain_id && input.dest_chain_id == self.chain_id
    }

    fn open_order_instruction(
        &self,
        input: &OpenOrderInput,
        sender: &[u8; 32],
        mint: &[u8; 32],
        token_out: &[u8; 32],
        token_program: &[u8; 32],
        nonce: u64,
        created_at: u64,
    ) -> (r: Result<([u8; 32], Instruction), TransactionBuilderError>)
        ensures
            match spec_open_order_ix(
                self.program_id@,
                self.chain_id,
                *input,
                sender@,
                mint@,
                token_out@,
                token_program@,
                nonce,
                created_at,
            ) {
                Some(p) => r matches Ok(q) && q.0@ == p.0 && instruction_view(q.1) == p.1,
                None => r matches Err(TransactionBuilderError::InvalidAddress(m)) && m@
                    == no_pda_message(),
            },
            r matches Ok(q) ==> q.1.accounts@.len() == 14 && q.1.data@.len() == 148,
            r matches Ok(q) ==> {
                let a = q.1.accounts@;
                &&& q.1.program_id@ == self.program_id@
                &&& a[0].pubkey@ == sender@ && a[0].is_signer && a[0].is_writable
                &&& a[1].pubkey@ == self.program_id@
                &&& spec_pda(seq![GLOBAL_SEED@], self.program_id@) == Some(a[2].pubkey@)
                &&& (input.dest_chain_id == self.chain_id ==> a[3].pubkey@ == self.program_id@)
                &&& (input.dest_chain_id != self.chain_id ==> spec_pda(
                    seq![DESTINATION_SEED@, be32(input.dest_chain_id)],
                    self.program_id@,
                ) == Some(a[3].pubkey@))
                &&& a[4].pubkey@ == mint@
                &&& spec_pda(ata_seeds(sender@, mint@, token_program@), ASSOCIATED_TOKEN_PROGRAM_ID@)
                    == Some(a[5].pubkey@)
                &&& spec_pda(seq![NONCE_SEED@, sender@], self.program_id@) == Some(a[6].pubkey@)
                &&& spec_pda(seq![ORDER_SEED@, q.0@], self.program_id@) == Some(a[7].pubkey@)
                &&& spec_pda(ata_seeds(a[7].pubkey@, mint@, token_program@), ASSOCIATED_TOKEN_PROGRAM_ID@)
                    == Some(a[8].pubkey@)
                &&& a[9].pubkey@ == token_program@
                &&& spec_pda(seq![EVENT_AUTHORITY_SEED@], self.program_id@) == Some(a[12].pubkey@)
                &&& a[13].pubkey@ == self.program_id@
            },
    {
        let order_data = OrderData {
            version: VERSION,
            sender: *sender,
            nonce,
            origin_chain_id: self.chain_id,
            dest_chain_id: input.dest_chain_id,
            created_at,
            fill_deadline: input.fill_deadline,
            token_in: *mint,
            token_out: *token_out,
            amount_in: input.amount_in as u128,
            amount_out: input.amount_out,
            recipient: input.recipient,
            solver: input.solver,
        };
        let order_id = compute_order_id(&order_data);
        proof {
            assert(spec_order_id_parts(order_data) =~= seq![
                be16(VERSION),
                sender@,
                be64(nonce),
                be32(self.chain_id),
                be32(input.dest_chain_id),
                be64(created_at),
                be64(input.fill_deadline),
                mint@,
                token_out@,
                be128(input.amount_in as u128),
                be128(input.amount_out),
                input.recipient@,
                input.solver@,
            ]);
        }
        let order_pda = self.order_pda(&order_id)?;
        let destination = if input.dest_chain_id != self.chain_id {
            self.destination_pda(input.dest_chain_id)?
        } else {
            self.program_id
        };
        let sender_ata = associated_token_address(sender, mint, token_program)?;
        let order_ata = associated_token_address(&order_pda, mint, token_program)?;
        let params = OrderParams {
            dest_chain_id: input.dest_chain_id,
            created_at,
            fill_deadline: input.fill_deadline,
            token_out: *token_out,
            amount_in: input.amount_in,
            amount_out: input.amount_out,
            recipient: input.recipient,
            solver: input.solver,
        };
        let mut data: Vec<u8> = Vec::new();
        append_bytes(&mut data, &OPEN_ORDER_DISCRIMINATOR);
        write_order_params(&mut data, &params);
        let global = self.global_pda()?;
        let nonce_pda = self.nonce_pda(sender)?;
        let event_authority = self.event_authority_pda()?;
        let mut accounts: Vec<AccountMeta> = Vec::new();
        push_meta(&mut accounts, *sender, true, true);
        push_meta(&mut accounts, self.program_id, false, false);
        push_meta(&mut accounts, global, false, false);
        push_meta(&mut accounts, destination, false, false);
        push_meta(&mut accounts, *mint, false, false);
        push_meta(&mut accounts, sender_ata, false, true);
        push_meta(&mut accounts, nonce_pda, false, true);
        push_meta(&mut accounts, order_pda, false, true);
        push_meta(&mut accounts, order_ata, false, true);
        push_meta(&mut accounts, *token_program, false, false);
        push_meta(&mut accounts, ASSOCIATED_TOKEN_PROGRAM_ID, false, false);
        push_meta(&mut accounts, SYSTEM_PROGRAM_ID, false, false);
        push_meta(&mut accounts, event_authority, false, false);
        push_meta(&mut accounts, self.program_id, false, false);
        proof {
            assert(data@ =~= spec_open_order_data(*input, token_out@, created_at));
            lemma_layouts();
            assert(metas_view(accounts@) =~= spec_open_order_accounts(
                self.program_id@,
                sender@,
                global@,
                destination@,
                mint@,
                sender_ata@,
                nonce_pda@,
                order_pda@,
                order_ata@,
                token_program@,
                event_authority@,
            ));
        }
        Ok((order_id, Instruction { program_id: self.program_id, accounts, data }))
    }

    /// The unsigned transaction opening an order for `input`, given the
    /// token program of the input mint, the sender's nonce, the latest
    /// blockhash and the order's creation time. The sender, the input mint
    /// and the output token are parsed in that order; the transaction is a
    /// legacy one paid and signed by the sender.
    pub fn build_open_order_transaction(
        &self,
        input: &OpenOrderInput,
        token_program: &[u8; 32],
        nonce: u64,
        blockhash: &[u8; 32],
        created_at: u64,
    ) -> (r: Result<TransactionResult, TransactionBuilderError>)
        ensures
            match (
                spec_parse_pubkey(input.sender_address@),
                spec_parse_pubkey(input.token_in@),
                spec_svm_parse_bytes32(input.token_out@),
            ) {
                (Err(m), _, _) => r matches Err(TransactionBuilderError::InvalidAddress(x)) && x@ == m,
                (Ok(_), Err(m), _) => r matches Err(TransactionBuilderError::InvalidAddress(x)) && x@
                    == m,
                (Ok(_), Ok(_), Err(m)) => r matches Err(TransactionBuilderError::InvalidAddress(x))
                    && x@ == m,
                (Ok(sender), Ok(mint), Ok(token_out)) => match spec_open_order_ix(
                    self.spec_program_id(),
                    self.spec_chain_id(),
                    *input,
                    sender,
                    mint,
                    token_out,
                    token_program@,
                    nonce,
                    created_at,
                ) {
                    None => r matches Err(TransactionBuilderError::InvalidAddress(x)) && x@
                        == no_pda_message(),
                    Some(p) => r matches Ok(res) && spec_svm_result(
                        res,
                        spec_legacy_transaction(seq![p.1], sender, blockhash@),
                        p.0,
                        nonce,
                        self.spec_program_id(),
                    ),
                },
            },
    {
        let sender = parse_pubkey(input.sender_address.as_str())?;
        let mint = parse_pubkey(input.token_in.as_str())?;
        let token_out = parse_bytes32(input.token_out.as_str())?;
        let (order_id, ix) = self.open_order_instruction(
            input,
            &sender,
            &mint,
            &token_out,
            token_program,
            nonce,
            created_at,
        )?;
        let mut ixs: Vec<Instruction> = Vec::new();
        ixs.push(ix);
        proof {
            assert(ixs@ =~= seq![ix]);
            assert(ixs@.drop_last() =~= Seq::<Instruction>::empty());
            assert(ixs@.last() == ix);
            assert(account_refs(Seq::<Instruction>::empty()) == 0);
            assert(account_refs(ixs@) == 15);
            assert(instructions_view(ixs@) =~= seq![instruction_view(ix)]);
        }
        let (message, signatures) = compile_legacy_message(&ixs, &sender, blockhash);
        let tx = unsigned_transaction(signatures, &message);
        Ok(
            TransactionResult {
                transaction: base64_encode(tx.as_slice()),
                order_id: hex_0x(&order_id),
                nonce,
                contract_address: pubkey_to_string(&self.program_id),
            },
        )
    }

    /// The instructions of a native cancellation by `caller`, given the
    /// token program of the order's input mint.
    pub fn build_cancel_native_instruction(
        &self,
        input: &CancelOrderInput,
        caller: &[u8; 32],
        token_program: &[u8; 32],
    ) -> (r: Result<Vec<Instruction>, TransactionBuilderError>)
        ensures
            match spec_cancel_native_ix(self.spec_program_id(), *input, caller@, token_program@) {
                Some(ix) => r matches Ok(v) && instructions_view(v@) == seq![ix],
                None => r matches Err(TransactionBuilderError::InvalidAddress(m)) && m@
                    == no_pda_message(),
            },
            r matches Ok(v) ==> v@.len() == 1 && v@[0].accounts@.len() == 10 && {
                let a = v@[0].accounts@;
                &&& v@[0].program_id@ == self.spec_program_id()
                &&& a[0].pubkey@ == caller@ && a[0].is_signer
                &&& a[1].pubkey@ == input.sender@
                &&& spec_pda(seq![GLOBAL_SEED@], self.spec_program_id()) == Some(a[2].pubkey@)
                &&& spec_pda(seq![ORDER_SEED@, input.order_id@], self.spec_program_id()) == Some(a[3].pubkey@)
                &&& a[4].pubkey@ == input.token_in@
                &&& spec_pda(ata_seeds(input.sender@, input.token_in@, token_program@), ASSOCIATED_TOKEN_PROGRAM_ID@)
                    == Some(a[5].pubkey@)
                &&& spec_pda(ata_seeds(a[3].pubkey@, input.token_in@, token_program@), ASSOCIATED_TOKEN_PROGRAM_ID@)
                    == Some(a[6].pubkey@)
                &&& a[7].pubkey@ == token_program@
                &&& spec_pda(seq![EVENT_AUTHORITY_SEED@], self.spec_program_id()) == Some(a[8].pubkey@)
                &&& a[9].pubkey@ == self.spec_program_id()
            },
    {
        let order_pda = self.order_pda(&input.order_id)?;
        let sender_ata = associated_token_address(&input.sender, &input.token_in, token_program)?;
        let order_ata = associated_token_address(&order_pda, &input.token_in, token_program)?;
        let mut data: Vec<u8> = Vec::new();
        append_bytes(&mut data, &CANCEL_NATIVE_ORDER_DISCRIMINATOR);
        append_bytes(&mut data, &input.order_id);
        let global = self.global_pda()?;
        let event_authority = self.event_authority_pda()?;
        let mut accounts: Vec<AccountMeta> = Vec::new();
        push_meta(&mut accounts, *caller, true, false);
        push_meta(&mut accounts, input.sender, false, false);
        push_meta(&mut accounts, global, false, false);
        push_meta(&mut accounts, order_pda, false, true);
        push_meta(&mut accounts, input.token_in, false, false);
        push_meta(&mut accounts, sender_ata, false, true);
        push_meta(&mut accounts, order_ata, false, true);
        push_meta(&mut accounts, *token_program, false, false);
        push_meta(&mut accounts, event_authority, false, false);
        push_meta(&mut accounts, self.program_id, false, false);
        let ix = Instruction { program_id: self.program_id, accounts, data };
        proof {
            assert(metas_view(ix.accounts@) =~= spec_cancel_native_accounts(
                self.program_id@,
                caller@,
                input.sender@,
                global@,
                order_pda@,
                input.token_in@,
                sender_ata@,
                order_ata@,
                token_program@,
                event_authority@,
            ));
        }
        let mut ixs: Vec<Instruction> = Vec::new();
        ixs.push(ix);
        proof {
            assert(instructions_view(ixs@) =~= seq![instruction_view(ix)]);
        }
        Ok(ixs)
    }

    /// The order book's `cancel_foreign_order` instruction of a foreign
    /// cancellation by `caller`, followed in its accounts by the Wormhole
    /// accounts the Portal needs. The relay instruction that goes with it
    /// is built beside it.
    pub fn build_cancel_foreign_instruction(
        &self,
        input: &CancelOrderInput,
        caller: &[u8; 32],
        wormhole_accounts: &Vec<AccountMeta>,
    ) -> (r: Result<Instruction, TransactionBuilderError>)
        ensures
            match (spec_parse_pubkey(PORTAL_PROGRAM_ID@), spec_parse_pubkey(BRIDGE_ADAPTER@)) {
                (Err(m), _) => r matches Err(TransactionBuilderError::InvalidAddress(x)) && x@ == m,
                (Ok(_), Err(m)) => r matches Err(TransactionBuilderError::InvalidAddress(x)) && x@
                    == m,
                (Ok(portal), Ok(adapter)) => match spec_cancel_foreign_ix(
                    self.spec_program_id(),
                    *input,
                    caller@,
                    portal,
                    adapter,
                    metas_view(wormhole_accounts@),
                ) {
                    Some(ix) => r matches Ok(i) && instruction_view(i) == ix,
                    None => r matches Err(TransactionBuilderError::InvalidAddress(x)) && x@
                        == no_pda_message(),
                },
            },
            r matches Ok(i) ==> i.accounts@.len() == 10 + wormhole_accounts@.len() && {
                let a = i.accounts@;
                let portal = spec_parse_pubkey(PORTAL_PROGRAM_ID@)->Ok_0;
                &&& spec_parse_pubkey(PORTAL_PROGRAM_ID@) is Ok
                &&& i.program_id@ == self.spec_program_id()
                &&& a[0].pubkey@ == caller@ && a[0].is_signer
                &&& spec_pda(seq![GLOBAL_SEED@], self.spec_program_id()) == Some(a[1].pubkey@)
                &&& spec_pda(seq![ORDER_SEED@, input.order_id@], self.spec_program_id()) == Some(a[2].pubkey@)
                &&& a[3].pubkey@ == portal
                &&& spec_pda(seq![GLOBAL_SEED@], portal) == Some(a[4].pubkey@)
                &&& spec_pda(seq![AUTHORITY_SEED@], portal) == Some(a[5].pubkey@)
                &&& spec_parse_pubkey(BRIDGE_ADAPTER@) == Ok::<Seq<u8>, Seq<char>>(a[6].pubkey@)
                &&& a[7].pubkey@ == SYSTEM_PROGRAM_ID@
                &&& spec_pda(seq![EVENT_AUTHORITY_SEED@], self.spec_program_id()) == Some(a[8].pubkey@)
                &&& a[9].pubkey@ == self.spec_program_id()
                &&& a.skip(10) == wormhole_accounts@
            },
    {
        let portal = parse_pubkey(PORTAL_PROGRAM_ID)?;
        let adapter = parse_pubkey(BRIDGE_ADAPTER)?;
        let portal_global = pda1(&GLOBAL_SEED, &portal)?;
        let portal_authority = pda1(&AUTHORITY_SEED, &portal)?;
        let order_data = OrderData {
            version: input.version,
            sender: input.sender,
            nonce: input.nonce,
            origin_chain_id: input.origin_chain_id,
            dest_chain_id: input.dest_chain_id,
            created_at: input.created_at,
            fill_deadline: input.fill_deadline,
            token_in: input.token_in,
            token_out: input.token_out,
            amount_in: input.amount_in,
            amount_out: input.amount_out,
            recipient: input.recipient,
            solver: input.solver,
        };
        let mut data: Vec<u8> = Vec::new();
        append_bytes(&mut data, &CANCEL_FOREIGN_ORDER_DISCRIMINATOR);
        append_bytes(&mut data, &input.order_id);
        write_order_data(&mut data, &order_data);
        let global = self.global_pda()?;
        let order_pda = self.order_pda(&input.order_id)?;
        let event_authority = self.event_authority_pda()?;
        let mut accounts: Vec<AccountMeta> = Vec::new();
        push_meta(&mut accounts, *caller, true, true);
        push_meta(&mut accounts, global, false, true);
        push_meta(&mut accounts, order_pda, false, true);
        push_meta(&mut accounts, portal, false, false);
        push_meta(&mut accounts, portal_global, false, true);
        push_meta(&mut accounts, portal_authority, false, false);
        push_meta(&mut accounts, adapter, false, false);
        push_meta(&mut accounts, SYSTEM_PROGRAM_ID, false, false);
        push_meta(&mut accounts, event_authority, false, false);
        push_meta(&mut accounts, self.program_id, false, false);
        let ghost head = accounts@;
        append_metas(&mut accounts, wormhole_accounts);
        proof {
            assert(data@ =~= CANCEL_FOREIGN_ORDER_DISCRIMINATOR@ + input.order_id@
                + spec_cancel_order_data(*input));
            assert(metas_view(head) =~= spec_cancel_foreign_accounts(
                self.program_id@,
                caller@,
                global@,
                order_pda@,
                portal@,
                portal_global@,
                portal_authority@,
                adapter@,
                event_authority@,
            ));
            assert(metas_view(accounts@) =~= metas_view(head) + metas_view(wormhole_accounts@));
        }
        Ok(Instruction { program_id: self.program_id, accounts, data })
    }

    /// The unsigned cancellation transaction for `input`: a versioned
    /// transaction paid and signed by the caller, carrying the cancellation
    /// instructions and compiled against the lookup table whose account data
    /// is given. A message that compiles but holds a list too long for its
    /// compact length cannot be serialized, and gives the serializer's
    /// error.
    pub fn build_cancel_order_transaction(
        &self,
        input: &CancelOrderInput,
        instructions: &Vec<Instruction>,
        lookup_table_data: &[u8],
        blockhash: &[u8; 32],
    ) -> (r: Result<TransactionResult, TransactionBuilderError>)
        ensures
            match spec_parse_pubkey(input.caller_address@) {
                Err(m) => r matches Err(TransactionBuilderError::InvalidAddress(x)) && x@ == m,
                Ok(caller) => match spec_parse_pubkey(LOOKUP_TABLE@) {
                    Err(m) => r matches Err(TransactionBuilderError::InvalidAddress(x)) && x@ == m,
                    Ok(table) => if !lookup_table_ok(lookup_table_data@) {
                        r == Err::<TransactionResult, TransactionBuilderError>(
                            TransactionBuilderError::AccountParseError,
                        )
                    } else {
                        match spec_v0_compile_error(
                            caller,
                            instructions_view(instructions@),
                            table,
                            spec_lookup_addresses(lookup_table_data@),
                            blockhash@,
                        ) {
                            Some(m) => r matches Err(TransactionBuilderError::SerializationError(x))
                                && x@ == m,
                            None => if !short_lists(instructions@) {
                                r matches Err(TransactionBuilderError::SerializationError(x))
                                    && x@ == SHORT_VEC_LENGTH_ERROR@
                            } else {
                                r matches Ok(res) && spec_svm_result(
                                    res,
                                    spec_unsigned_transaction(
                                        1,
                                        spec_v0_message(
                                            caller,
                                            instructions_view(instructions@),
                                            table,
                                            spec_lookup_addresses(lookup_table_data@),
                                            blockhash@,
                                        ),
                                    ),
                                    input.order_id@,
                                    input.nonce,
                                    self.spec_program_id(),
                                )
                            },
                        }
                    },
                },
            },
    {
        let caller = parse_pubkey(input.caller_address.as_str())?;
        let table = parse_pubkey(LOOKUP_TABLE)?;
        let addresses = parse_lookup_table(lookup_table_data)?;
        match v0_compile_error(&caller, instructions, &table, &addresses, blockhash) {
            Some(e) => {
                return Err(TransactionBuilderError::SerializationError(e));
            },
            None => {},
        }
        if !lists_short(instructions) {
            return Err(TransactionBuilderError::SerializationError(String::from_str(SHORT_VEC_LENGTH_ERROR)));
        }
        let message = compile_v0_message(&caller, instructions, &table, &addresses, blockhash);
        let tx = unsigned_transaction(1, &message);
        Ok(
            TransactionResult {
                transaction: base64_encode(tx.as_slice()),
                order_id: hex_0x(&input.order_id),
                nonce: input.nonce,
                contract_address: pubkey_to_string(&self.program_id),
            },
        )
    }
}

} // verus!
