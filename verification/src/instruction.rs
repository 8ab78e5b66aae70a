//! Solana instructions as plain values, and the unsigned transactions that
//! carry them: the messages are compiled by `solana_message` (through
//! `anchor_lang::solana_program`), the transaction around a message is
//! written here.
use crate::bytes::{append_bytes, push_zeros, zeros};
use anchor_lang::prelude::Pubkey;
use anchor_lang::solana_program::hash;
use anchor_lang::solana_program::instruction::AccountMeta as SolanaAccountMeta;
use anchor_lang::solana_program::instruction::Instruction as SolanaInstruction;
use anchor_lang::solana_program::message::{v0, AddressLookupTableAccount, Message, VersionedMessage};
use vstd::prelude::*;

verus! {

/// An account an instruction reads or writes.
#[derive(Clone, Copy, Debug, PartialEq, Eq)]
pub struct AccountMeta {
    pub pubkey: [u8; 32],
    pub is_signer: bool,
    pub is_writable: bool,
}

/// A call of a program: the program, the accounts it is handed, its data.
#[derive(Clone, Debug, PartialEq, Eq)]
pub struct Instruction {
    pub program_id: [u8; 32],
    pub accounts: Vec<AccountMeta>,
    pub data: Vec<u8>,
}

impl AccountMeta {
    /// A writable account.
    pub fn new(pubkey: [u8; 32], is_signer: bool) -> (m: Self)
        ensures
            m == (AccountMeta { pubkey, is_signer, is_writable: true }),
    {
        AccountMeta { pubkey, is_signer, is_writable: true }
    }

    /// A read-only account.
    pub fn new_readonly(pubkey: [u8; 32], is_signer: bool) -> (m: Self)
        ensures
            m == (AccountMeta { pubkey, is_signer, is_writable: false }),
    {
        AccountMeta { pubkey, is_signer, is_writable: false }
    }
}

/// An account as plain values: key, signer, writable.
pub open spec fn meta_view(m: AccountMeta) -> (Seq<u8>, bool, bool) {
    (m.pubkey@, m.is_signer, m.is_writable)
}

/// The accounts of an instruction as plain values.
pub open spec fn metas_view(ms: Seq<AccountMeta>) -> Seq<(Seq<u8>, bool, bool)> {
    ms.map_values(|m: AccountMeta| meta_view(m))
}

/// An instruction as plain values: program, accounts, data.
pub open spec fn instruction_view(ix: Instruction) -> (Seq<u8>, Seq<(Seq<u8>, bool, bool)>, Seq<u8>) {
    (ix.program_id@, metas_view(ix.accounts@), ix.data@)
}

/// A list of instructions as plain values.
pub open spec fn instructions_view(ixs: Seq<Instruction>) -> Seq<
    (Seq<u8>, Seq<(Seq<u8>, bool, bool)>, Seq<u8>),
> {
    ixs.map_values(|ix: Instruction| instruction_view(ix))
}

/// The keys of a list of addresses as plain values.
pub open spec fn keys_view(keys: Seq<[u8; 32]>) -> Seq<Seq<u8>> {
    keys.map_values(|k: [u8; 32]| k@)
}

/// How many account references the instructions make, counting each
/// instruction's program.
pub open spec fn account_refs(ixs: Seq<Instruction>) -> nat
    decreases ixs.len(),
{
    if ixs.len() == 0 {
        0
    } else {
        account_refs(ixs.drop_last()) + ixs.last().accounts@.len() + 1
    }
}

/// Whether the instructions, and every instruction's accounts and data, are
/// few enough for the compact lengths of the message format.
pub open spec fn short_lists(ixs: Seq<Instruction>) -> bool {
    &&& ixs.len() <= 0xffff
    &&& forall|i: int|
        0 <= i < ixs.len() ==> #[trigger] ixs[i].accounts@.len() <= 0xffff && ixs[i].data@.len()
            <= 0xffff
}

/// Whether the instructions, and every instruction's accounts and data, are
/// few enough for the compact lengths of the message format.
pub fn lists_short(ixs: &Vec<Instruction>) -> (b: bool)
    ensures
        b == short_lists(ixs@),
{
    let n = ixs.len();
    if n > 0xffff {
        return false;
    }
    let mut i: usize = 0;
    while i < n
        invariant
            n == ixs@.len(),
            n <= 0xffff,
            i <= n,
            forall|j: int| 0 <= j < i ==> #[trigger] ixs@[j].accounts@.len() <= 0xffff && ixs@[j].data@.len() <= 0xffff,
        decreases n - i,
    {
        if ixs[i].accounts.len() > 0xffff || ixs[i].data.len() > 0xffff {
            assert(!(ixs@[i as int].accounts@.len() <= 0xffff && ixs@[i as int].data@.len() <= 0xffff));
            return false;
        }
        i = i + 1;
    }
    true
}

/// Whether a legacy message can be compiled from the instructions: they
/// refer to at most 254 accounts besides the payer, so every key and count
/// fits a byte, and their lists fit the compact lengths.
pub open spec fn legacy_compilable(ixs: Seq<Instruction>) -> bool {
    account_refs(ixs) + 1 <= 255 && short_lists(ixs)
}

/// What `Message::new_with_blockhash(..).serialize()` gives for the
/// instructions, payer and blockhash, with the message's count of required
/// signatures.
pub uninterp spec fn spec_legacy_message(
    ixs: Seq<(Seq<u8>, Seq<(Seq<u8>, bool, bool)>, Seq<u8>)>,
    payer: Seq<u8>,
    blockhash: Seq<u8>,
) -> (Seq<u8>, u8);

/// The message of the error `v0::Message::try_compile` gives for the payer,
/// instructions, one lookup table (its key and addresses) and blockhash;
/// none when the message compiles.
pub uninterp spec fn spec_v0_compile_error(
    payer: Seq<u8>,
    ixs: Seq<(Seq<u8>, Seq<(Seq<u8>, bool, bool)>, Seq<u8>)>,
    table_key: Seq<u8>,
    table_addresses: Seq<Seq<u8>>,
    blockhash: Seq<u8>,
) -> Option<Seq<char>>;

/// The bytes of the versioned message that `v0::Message::try_compile`
/// compiles from the same arguments, serialized.
pub uninterp spec fn spec_v0_message(
    payer: Seq<u8>,
    ixs: Seq<(Seq<u8>, Seq<(Seq<u8>, bool, bool)>, Seq<u8>)>,
    table_key: Seq<u8>,
    table_addresses: Seq<Seq<u8>>,
    blockhash: Seq<u8>,
) -> Seq<u8>;

/// Calls `Message::new_with_blockhash` (legacy) with the payer, then
/// `serialize` on it, and reads its header's count of required signatures.
/// Trusted: the bytes and the count are the ones named `spec_legacy_message`
/// of the instructions, payer and blockhash. The call panics when the keys
/// overflow a byte or a list overflows its compact length; `requires`
/// leaves those inputs out.
#[verifier::external_body]
pub(crate) fn compile_legacy_message(ixs: &Vec<Instruction>, payer: &[u8; 32], blockhash: &[u8; 32]) -> (r: (Vec<u8>, u8))
    requires
        legacy_compilable(ixs@),
    ensures
        (r.0@, r.1) == spec_legacy_message(instructions_view(ixs@), payer@, blockhash@),
{
    let ixs: Vec<SolanaInstruction> = ixs.iter().map(|ix| SolanaInstruction {
        program_id: Pubkey::new_from_array(ix.program_id),
        accounts: ix.accounts.iter().map(|m| SolanaAccountMeta { pubkey: Pubkey::new_from_array(m.pubkey), is_signer: m.is_signer, is_writable: m.is_writable }).collect(),
        data: ix.data.clone(),
    }).collect();
    let m = Message::new_with_blockhash(&ixs, Some(&Pubkey::new_from_array(*payer)), &hash::Hash::new_from_array(*blockhash));
    (m.serialize(), m.header.num_required_signatures)
}

/// Calls `v0::Message::try_compile` with one lookup table and keeps only
/// the message of its error.
/// Trusted: the message, or none when the call succeeds, is the one named
/// `spec_v0_compile_error` of the arguments.
#[verifier::external_body]
pub(crate) fn v0_compile_error(
    payer: &[u8; 32],
    ixs: &Vec<Instruction>,
    table_key: &[u8; 32],
    table_addresses: &Vec<[u8; 32]>,
    blockhash: &[u8; 32],
) -> (r: Option<String>)
    ensures
        spec_v0_compile_error(payer@, instructions_view(ixs@), table_key@, keys_view(table_addresses@), blockhash@)
            == match r {
            Some(m) => Some(m@),
            None => None::<Seq<char>>,
        },
{
    let ixs: Vec<SolanaInstruction> = ixs.iter().map(|ix| SolanaInstruction {
        program_id: Pubkey::new_from_array(ix.program_id),
        accounts: ix.accounts.iter().map(|m| SolanaAccountMeta { pubkey: Pubkey::new_from_array(m.pubkey), is_signer: m.is_signer, is_writable: m.is_writable }).collect(),
        data: ix.data.clone(),
    }).collect();
    let table = AddressLookupTableAccount { key: Pubkey::new_from_array(*table_key), addresses: table_addresses.iter().map(|a| Pubkey::new_from_array(*a)).collect() };
    v0::Message::try_compile(&Pubkey::new_from_array(*payer), &ixs, &[table], hash::Hash::new_from_array(*blockhash)).err().map(|e| e.to_string())
}

/// Calls `v0::Message::try_compile` with one lookup table, then `serialize`
/// on the versioned message.
/// Trusted: the bytes are the ones named `spec_v0_message` of the
/// arguments. `requires` leaves out the inputs on which the compile fails
/// and those on which serializing panics (a list that overflows its
/// compact length).
#[verifier::external_body]
pub(crate) fn compile_v0_message(
    payer: &[u8; 32],
    ixs: &Vec<Instruction>,
    table_key: &[u8; 32],
    table_addresses: &Vec<[u8; 32]>,
    blockhash: &[u8; 32],
) -> (r: Vec<u8>)
    requires
        short_lists(ixs@),
        spec_v0_compile_error(payer@, instructions_view(ixs@), table_key@, keys_view(table_addresses@), blockhash@)
            is None,
    ensures
        r@ == spec_v0_message(payer@, instructions_view(ixs@), table_key@, keys_view(table_addresses@), blockhash@),
{
    let ixs: Vec<SolanaInstruction> = ixs.iter().map(|ix| SolanaInstruction {
        program_id: Pubkey::new_from_array(ix.program_id),
        accounts: ix.accounts.iter().map(|m| SolanaAccountMeta { pubkey: Pubkey::new_from_array(m.pubkey), is_signer: m.is_signer, is_writable: m.is_writable }).collect(),
        data: ix.data.clone(),
    }).collect();
    let table = AddressLookupTableAccount { key: Pubkey::new_from_array(*table_key), addresses: table_addresses.iter().map(|a| Pubkey::new_from_array(*a)).collect() };
    let message = v0::Message::try_compile(&Pubkey::new_from_array(*payer), &ixs, &[table], hash::Hash::new_from_array(*blockhash)).expect("compiles");
    VersionedMessage::V0(message).serialize()
}

/// The compact length of a list of `n` items, for `n` below 2^14: seven
/// bits per byte, low bits first, the high bit set on all but the last.
pub open spec fn compact_len(n: nat) -> Seq<u8> {
    if n < 0x80 {
        seq![n as u8]
    } else {
        seq![(n % 0x80 + 0x80) as u8, (n / 0x80) as u8]
    }
}

/// The wire form of a transaction that carries `message` and `signatures`
/// empty (all-zero) signatures: the compact count, 64 bytes per signature,
/// then the message.
pub open spec fn spec_unsigned_transaction(signatures: u8, message: Seq<u8>) -> Seq<u8> {
    compact_len(signatures as nat) + zeros(64 * signatures as nat) + message
}

/// Writes the transaction that carries `message` and `signatures` empty
/// signatures.
pub fn unsigned_transaction(signatures: u8, message: &Vec<u8>) -> (tx: Vec<u8>)
    ensures
        tx@ == spec_unsigned_transaction(signatures, message@),
{
    let mut tx: Vec<u8> = Vec::new();
    if signatures < 0x80 {
        tx.push(signatures);
    } else {
        tx.push(signatures % 0x80 + 0x80);
        tx.push(signatures / 0x80);
    }
    let n: usize = signatures as usize;
    push_zeros(&mut tx, 64 * n);
    append_bytes(&mut tx, message.as_slice());
    assert(tx@ =~= spec_unsigned_transaction(signatures, message@));
    tx
}

} // verus!
