//! State and instruction rules of the on-chain order book program: order
//! accounts, the order identifier, closing an order's token account and
//! flushing deferred fill reports.
use crate::bytes::{append_bytes, be128, be16, be32, be64, from_be128, from_be16, from_be32, from_be64, lemma_layouts, push_u128_be, push_u16_be, push_u32_be, push_u64_be};
use crate::hash::{solana_keccak_hashv, spec_solana_keccak_hashv, views};
use crate::solana::{create_program_address, spec_create_program_address};
use vstd::prelude::*;

verus! {

/// Seed prefix of order accounts: `b"order"`.
pub const ORDER_SEED_PREFIX: [u8; 5] = [111, 114, 100, 101, 114];

/// Seed prefix of pending fill report accounts: `b"pending_fill"`.
pub const PENDING_FILL_SEED_PREFIX: [u8; 12] = [112, 101, 110, 100, 105, 110, 103, 95, 102, 105, 108, 108];

/// Lifecycle of an order.
#[derive(Clone, Copy, Debug, PartialEq, Eq, Structural)]
pub enum OrderStatus {
    DoesNotExist,
    Created,
    Cancelled,
    Completed,
}

/// Whether an order was opened on this chain or elsewhere.
#[derive(Clone, Copy, Debug, PartialEq, Eq, Structural)]
pub enum OrderType {
    Native,
    Foreign,
}

/// An order account: its kind, PDA bump and data.
#[derive(Clone, Debug)]
pub struct Order<T> {
    pub order_type: OrderType,
    pub bump: u8,
    pub data: T,
}

/// Data of an order opened on this chain.
#[derive(Clone, Debug)]
pub struct NativeOrder {
    pub status: OrderStatus,
    pub version: u16,
    pub sender: [u8; 32],
    pub payer: [u8; 32],
    pub nonce: u64,
    pub dest_chain_id: u32,
    pub created_at: u64,
    pub fill_deadline: u64,
    pub token_in: [u8; 32],
    pub token_out: [u8; 32],
    pub amount_in: u128,
    pub amount_out: u128,
    pub recipient: [u8; 32],
    pub solver: [u8; 32],
    pub amount_in_released: u128,
    pub amount_out_filled: u128,
    pub amount_in_refunded: u128,
}

/// Data kept on this chain for an order opened elsewhere.
#[derive(Clone, Debug)]
pub struct ForeignOrder {
    pub status: OrderStatus,
    pub amount_in_released: u128,
    pub amount_out_filled: u128,
    pub amount_in_refunded: u128,
}

/// The fields an order identifier is derived from.
#[derive(Clone, Debug)]
pub struct OrderData {
    pub version: u16,
    pub sender: [u8; 32],
    pub nonce: u64,
    pub origin_chain_id: u32,
    pub dest_chain_id: u32,
    pub created_at: u64,
    pub fill_deadline: u64,
    pub token_in: [u8; 32],
    pub token_out: [u8; 32],
    pub amount_in: u128,
    pub amount_out: u128,
    pub recipient: [u8; 32],
    pub solver: [u8; 32],
}

/// The parameters an order is opened with.
#[derive(Clone, Debug)]
pub struct OrderParams {
    pub dest_chain_id: u32,
    pub created_at: u64,
    pub fill_deadline: u64,
    pub token_out: [u8; 32],
    pub amount_in: u64,
    pub amount_out: u128,
    pub recipient: [u8; 32],
    pub solver: [u8; 32],
}

/// How much of an order a fill delivers, and to whom the input is released
/// on the origin chain.
#[derive(Clone, Debug)]
pub struct FillParams {
    pub amount_out_to_fill: u64,
    pub origin_recipient: [u8; 32],
}

/// A cancellation relayed back to the origin chain.
#[derive(Clone, Debug)]
pub struct CancelReport {
    pub order_id: [u8; 32],
    pub order_sender: [u8; 32],
    pub token_in: [u8; 32],
    pub amount_in_to_refund: u128,
}

/// A fill relayed back to the origin chain.
#[derive(Clone, Debug)]
pub struct FillReport {
    pub order_id: [u8; 32],
    pub amount_in_to_release: u128,
    pub amount_out_filled: u128,
    pub origin_recipient: [u8; 32],
    pub token_in: [u8; 32],
}

/// The parts hashed into the order identifier: every field in declaration
/// order, integers big-endian, as on the EVM side.
pub open spec fn spec_order_id_parts(d: OrderData) -> Seq<Seq<u8>> {
    seq![
        be16(d.version),
        d.sender@,
        be64(d.nonce),
        be32(d.origin_chain_id),
        be32(d.dest_chain_id),
        be64(d.created_at),
        be64(d.fill_deadline),
        d.token_in@,
        d.token_out@,
        be128(d.amount_in),
        be128(d.amount_out),
        d.recipient@,
        d.solver@,
    ]
}

/// The parts hashed into the order identifier are, in order, the fields
/// version, sender, nonce, origin chain, destination chain, creation time,
/// fill deadline, input token, output token, input amount, output amount,
/// recipient and solver, each read back from its part (integers
/// big-endian).
pub proof fn lemma_order_id_parts_fields(d: OrderData)
    ensures
        ({
            let p = spec_order_id_parts(d);
            &&& p.len() == 13
            &&& from_be16(p[0]) == d.version
            &&& p[1] == d.sender@
            &&& from_be64(p[2]) == d.nonce
            &&& from_be32(p[3]) == d.origin_chain_id
            &&& from_be32(p[4]) == d.dest_chain_id
            &&& from_be64(p[5]) == d.created_at
            &&& from_be64(p[6]) == d.fill_deadline
            &&& p[7] == d.token_in@
            &&& p[8] == d.token_out@
            &&& from_be128(p[9]) == d.amount_in
            &&& from_be128(p[10]) == d.amount_out
            &&& p[11] == d.recipient@
            &&& p[12] == d.solver@
        }),
{
    lemma_layouts();
}

/// The order identifier of `d`.
pub open spec fn spec_order_id(d: OrderData) -> Seq<u8> {
    spec_solana_keccak_hashv(spec_order_id_parts(d))
}

fn be16_part(x: u16) -> (v: Vec<u8>)
    ensures
        v@ == be16(x),
{
    let mut v: Vec<u8> = Vec::new();
    push_u16_be(&mut v, x);
    v
}

fn be32_part(x: u32) -> (v: Vec<u8>)
    ensures
        v@ == be32(x),
{
    let mut v: Vec<u8> = Vec::new();
    push_u32_be(&mut v, x);
    v
}

fn be64_part(x: u64) -> (v: Vec<u8>)
    ensures
        v@ == be64(x),
{
    let mut v: Vec<u8> = Vec::new();
    push_u64_be(&mut v, x);
    v
}

fn be128_part(x: u128) -> (v: Vec<u8>)
    ensures
        v@ == be128(x),
{
    let mut v: Vec<u8> = Vec::new();
    push_u128_be(&mut v, x);
    v
}

fn bytes_part(x: &[u8; 32]) -> (v: Vec<u8>)
    ensures
        v@ == x@,
{
    let mut v: Vec<u8> = Vec::new();
    append_bytes(&mut v, x);
    v
}

/// Computes the order identifier: the Solana keccak digest of the order
/// fields, integers big-endian.
pub fn compute_order_id(order_data: &OrderData) -> (id: [u8; 32])
    ensures
        id@ == spec_order_id(*order_data),
{
    let mut parts: Vec<Vec<u8>> = Vec::new();
    parts.push(be16_part(order_data.version));
    parts.push(bytes_part(&order_data.sender));
    parts.push(be64_part(order_data.nonce));
    parts.push(be32_part(order_data.origin_chain_id));
    parts.push(be32_part(order_data.dest_chain_id));
    parts.push(be64_part(order_data.created_at));
    parts.push(be64_part(order_data.fill_deadline));
    parts.push(bytes_part(&order_data.token_in));
    parts.push(bytes_part(&order_data.token_out));
    parts.push(be128_part(order_data.amount_in));
    parts.push(be128_part(order_data.amount_out));
    parts.push(bytes_part(&order_data.recipient));
    parts.push(bytes_part(&order_data.solver));
    proof {
        assert(views(parts@) =~= spec_order_id_parts(*order_data));
    }
    solana_keccak_hashv(&parts)
}

impl OrderData {
    /// The order identifier of this order.
    pub fn compute_order_id(&self) -> (id: [u8; 32])
        ensures
            id@ == spec_order_id(*self),
    {
        compute_order_id(self)
    }
}


/// Whether two keys hold the same bytes.
pub fn keys_equal(a: &[u8; 32], b: &[u8; 32]) -> (eq: bool)
    ensures
        eq == (a@ == b@),
{
    for i in 0..32usize
        invariant
            forall|j: int| 0 <= j < i ==> a@[j] == b@[j],
    {
        if a[i] != b[i] {
            return false;
        }
    }
    assert(a@ =~= b@);
    true
}

/// Errors raised by the order book program's own checks.
#[derive(Clone, Copy, Debug, PartialEq, Eq, Structural)]
pub enum OrderBookError {
    InvalidPayer,
    InvalidTokenMint,
    OrderNotFinalized,
    TokenAccountNotEmpty,
    InvalidPendingFillAccounts,
    InvalidOriginChainId,
}

/// Errors raised while loading a typed account from the accounts handed to an instruction.
#[derive(Clone, Copy, Debug, PartialEq, Eq, Structural)]
pub enum AccountError {
    AccountNotInitialized,
    AccountOwnedByWrongProgram,
    AccountDiscriminatorMismatch,
    AccountDidNotDeserialize,
}

/// Why an instruction is refused.
#[derive(Clone, Copy, Debug, PartialEq, Eq, Structural)]
pub enum InstructionError {
    Program(OrderBookError),
    Account(AccountError),
}

/// A `transfer_checked` call to the token program `token_program` (SPL Token
/// or Token-2022): `amount` of `mint` (checked against its `decimals`) from
/// `from` to `to`, authorized by `authority`; a program-owned authority signs
/// with `signer_seeds`, a user signs the transaction itself and no seeds are
/// given.
#[derive(Clone, Debug)]
pub struct TransferCheckedCpi {
    pub token_program: [u8; 32],
    pub from: [u8; 32],
    pub to: [u8; 32],
    pub mint: [u8; 32],
    pub authority: [u8; 32],
    pub amount: u64,
    pub decimals: u8,
    pub signer_seeds: Vec<Vec<u8>>,
}

/// Moves tokens, through `token_program`, out of an account owned by a
/// program account, which signs with `authority_seeds`.
pub fn transfer_tokens_from_program(
    from: &[u8; 32],
    to: &[u8; 32],
    amount: u64,
    mint: &[u8; 32],
    decimals: u8,
    authority: &[u8; 32],
    authority_seeds: Vec<Vec<u8>>,
    token_program: &[u8; 32],
) -> (cpi: TransferCheckedCpi)
    ensures
        cpi.token_program == *token_program,
        cpi.from == *from,
        cpi.to == *to,
        cpi.mint == *mint,
        cpi.authority == *authority,
        cpi.amount == amount,
        cpi.decimals == decimals,
        cpi.signer_seeds@ == authority_seeds@,
{
    TransferCheckedCpi {
        token_program: *token_program,
        from: *from,
        to: *to,
        mint: *mint,
        authority: *authority,
        amount,
        decimals,
        signer_seeds: authority_seeds,
    }
}

/// Moves tokens, through `token_program`, out of an account whose owner
/// signs the transaction.
pub fn transfer_tokens(
    from: &[u8; 32],
    to: &[u8; 32],
    amount: u64,
    mint: &[u8; 32],
    decimals: u8,
    authority: &[u8; 32],
    token_program: &[u8; 32],
) -> (cpi: TransferCheckedCpi)
    ensures
        cpi.token_program == *token_program,
        cpi.from == *from,
        cpi.to == *to,
        cpi.mint == *mint,
        cpi.authority == *authority,
        cpi.amount == amount,
        cpi.decimals == decimals,
        cpi.signer_seeds@.len() == 0,
{
    TransferCheckedCpi {
        token_program: *token_program,
        from: *from,
        to: *to,
        mint: *mint,
        authority: *authority,
        amount,
        decimals,
        signer_seeds: Vec::new(),
    }
}

/// A `close_account` call to the token program `token_program` (SPL Token or
/// Token-2022), signed by an order account: the closed token account's
/// lamports go to `destination`.
#[derive(Clone, Debug)]
pub struct CloseAccountCpi {
    pub token_program: [u8; 32],
    pub account: [u8; 32],
    pub destination: [u8; 32],
    pub authority: [u8; 32],
    pub signer_seeds: Vec<Vec<u8>>,
}

/// The seeds an order account signs with: `[b"order", order_id, [bump]]`.
pub open spec fn spec_order_signer_seeds(order_id: Seq<u8>, bump: u8) -> Seq<Seq<u8>> {
    seq![ORDER_SEED_PREFIX@, order_id, seq![bump]]
}

fn order_signer_seeds(order_id: &[u8; 32], bump: u8) -> (seeds: Vec<Vec<u8>>)
    ensures
        views(seeds@) == spec_order_signer_seeds(order_id@, bump),
{
    let prefix = ORDER_SEED_PREFIX;
    let mut p: Vec<u8> = Vec::new();
    append_bytes(&mut p, &prefix);
    let mut id: Vec<u8> = Vec::new();
    append_bytes(&mut id, order_id);
    let mut b: Vec<u8> = Vec::new();
    b.push(bump);
    let mut seeds: Vec<Vec<u8>> = Vec::new();
    seeds.push(p);
    seeds.push(id);
    seeds.push(b);
    proof {
        assert(views(seeds@) =~= spec_order_signer_seeds(order_id@, bump));
    }
    seeds
}

/// Closes a program-owned token account (such as an order's token account),
/// sending its rent to `destination`; the order account signs with its seeds.
pub fn close_order_token_account(
    token_program: &[u8; 32],
    account_to_close: &[u8; 32],
    destination: &[u8; 32],
    authority: &[u8; 32],
    order_id: [u8; 32],
    order_bump: u8,
) -> (cpi: CloseAccountCpi)
    ensures
        cpi.token_program == *token_program,
        cpi.account == *account_to_close,
        cpi.destination == *destination,
        cpi.authority == *authority,
        views(cpi.signer_seeds@) == spec_order_signer_seeds(order_id@, order_bump),
{
    CloseAccountCpi {
        token_program: *token_program,
        account: *account_to_close,
        destination: *destination,
        authority: *authority,
        signer_seeds: order_signer_seeds(&order_id, order_bump),
    }
}

/// The accounts of the instruction that closes an order's token account and
/// returns its rent to the order's payer.
#[derive(Clone, Debug)]
pub struct CloseOrderTokenAccount {
    /// The account that paid the token account's rent.
    pub payer: [u8; 32],
    /// Address of the order account.
    pub order_key: [u8; 32],
    /// The order account.
    pub order: Order<NativeOrder>,
    /// The token mint handed to the instruction.
    pub token_in_mint: [u8; 32],
    /// Address of the order's token account.
    pub order_token_in_ata: [u8; 32],
    /// Token balance of the order's token account.
    pub order_token_in_ata_amount: u64,
    /// The token program of the input mint (SPL Token or Token-2022).
    pub token_in_program: [u8; 32],
}

/// The checks of the close instruction, in the order the program makes them.
pub open spec fn spec_close_check(a: CloseOrderTokenAccount) -> Result<(), OrderBookError> {
    if a.order.data.payer@ != a.payer@ {
        Err(OrderBookError::InvalidPayer)
    } else if a.token_in_mint@ != a.order.data.token_in@ {
        Err(OrderBookError::InvalidTokenMint)
    } else if !(a.order.data.status == OrderStatus::Completed || a.order.data.status
        == OrderStatus::Cancelled) {
        Err(OrderBookError::OrderNotFinalized)
    } else if a.order_token_in_ata_amount != 0 {
        Err(OrderBookError::TokenAccountNotEmpty)
    } else {
        Ok(())
    }
}

/// An order's token account is closed only once the order is completed or
/// cancelled and the account holds no tokens, and its rent goes only to the
/// payer the order records, with the order's own input mint.
pub proof fn lemma_close_refunds_order_payer(a: CloseOrderTokenAccount)
    ensures
        spec_close_check(a) is Ok ==> {
            &&& a.payer@ == a.order.data.payer@
            &&& a.token_in_mint@ == a.order.data.token_in@
            &&& (a.order.data.status == OrderStatus::Completed || a.order.data.status
                == OrderStatus::Cancelled)
            &&& a.order_token_in_ata_amount == 0
        },
{
}

impl CloseOrderTokenAccount {
    /// The account constraints: the payer is the order's payer and the mint
    /// is the order's input token.
    pub fn check_constraints(&self) -> (r: Result<(), OrderBookError>)
        ensures
            r == (if self.order.data.payer@ != self.payer@ {
                Err(OrderBookError::InvalidPayer)
            } else if self.token_in_mint@ != self.order.data.token_in@ {
                Err(OrderBookError::InvalidTokenMint)
            } else {
                Ok(())
            }),
    {
        if !keys_equal(&self.order.data.payer, &self.payer) {
            return Err(OrderBookError::InvalidPayer);
        }
        if !keys_equal(&self.token_in_mint, &self.order.data.token_in) {
            return Err(OrderBookError::InvalidTokenMint);
        }
        Ok(())
    }

    /// The order must be finalized (completed or cancelled) and its token
    /// account empty.
    pub fn validate(&self) -> (r: Result<(), OrderBookError>)
        ensures
            r == (if !(self.order.data.status == OrderStatus::Completed || self.order.data.status
                == OrderStatus::Cancelled) {
                Err(OrderBookError::OrderNotFinalized)
            } else if self.order_token_in_ata_amount != 0 {
                Err(OrderBookError::TokenAccountNotEmpty)
            } else {
                Ok(())
            }),
    {
        let finalized = match self.order.data.status {
            OrderStatus::Completed => true,
            OrderStatus::Cancelled => true,
            _ => false,
        };
        if !finalized {
            return Err(OrderBookError::OrderNotFinalized);
        }
        if self.order_token_in_ata_amount != 0 {
            return Err(OrderBookError::TokenAccountNotEmpty);
        }
        Ok(())
    }

    /// Closes the order's token account and returns its rent to the payer,
    /// once every check passes.
    pub fn handler(&self, order_id: [u8; 32]) -> (r: Result<CloseAccountCpi, OrderBookError>)
        ensures
            match r {
                Ok(cpi) => {
                    &&& spec_close_check(*self) == Ok::<(), OrderBookError>(())
                    &&& cpi.token_program == self.token_in_program
                    &&& cpi.account == self.order_token_in_ata
                    &&& cpi.destination == self.payer
                    &&& cpi.authority == self.order_key
                    &&& views(cpi.signer_seeds@) == spec_order_signer_seeds(
                        order_id@,
                        self.order.bump,
                    )
                },
                Err(e) => spec_close_check(*self) == Err::<(), OrderBookError>(e),
            },
    {
        self.check_constraints()?;
        self.validate()?;
        Ok(
            close_order_token_account(
                &self.token_in_program,
                &self.order_token_in_ata,
                &self.payer,
                &self.order_key,
                order_id,
                self.order.bump,
            ),
        )
    }
}

/// Fill amounts recorded on this (destination) chain awaiting a batched report.
#[derive(Clone, Copy, Debug)]
pub struct PendingFillReport {
    pub bump: u8,
    pub solver: [u8; 32],
    pub payer: [u8; 32],
    pub order_id: [u8; 32],
    pub origin_chain_id: u32,
    pub token_in: [u8; 32],
    pub origin_recipient: [u8; 32],
    pub amount_in_to_release: u128,
    pub amount_out_filled: u128,
}

/// One fill reported to the origin chain.
#[derive(Clone, Copy, Debug)]
pub struct FillReportPayload {
    pub order_id: [u8; 32],
    pub token_in: [u8; 32],
    pub amount_in_to_release: u128,
    pub amount_out_filled: u128,
    pub origin_recipient: [u8; 32],
}

/// Event emitted for each flushed pending fill.
#[derive(Clone, Copy, Debug)]
pub struct PendingFillReported {
    pub order_id: [u8; 32],
    pub origin_recipient: [u8; 32],
    pub amount_in_to_release: u128,
    pub amount_out_filled: u128,
}

/// An account handed to the flush instruction after its fixed accounts: its
/// address, and what loading it as a pending fill report gives.
#[derive(Clone, Copy, Debug)]
pub struct RemainingAccount {
    pub key: [u8; 32],
    pub pending: Result<PendingFillReport, AccountError>,
}

/// The flush instruction: the program's id and the accounts
/// `[pending_0, payer_0, pending_1, payer_1, ...]`.
#[derive(Clone, Debug)]
pub struct ReportPendingFills {
    pub program_id: [u8; 32],
    pub remaining_accounts: Vec<RemainingAccount>,
}

/// What a successful flush does: one portal message with `reports`, then
/// each pending account in `closes` is closed with its rent going to the
/// paired payer, then `events` are emitted.
#[derive(Clone, Debug)]
pub struct PendingFillsFlush {
    pub reports: Vec<FillReportPayload>,
    pub closes: Vec<([u8; 32], [u8; 32])>,
    pub events: Vec<PendingFillReported>,
}

/// The seeds of a pending fill report account.
pub open spec fn spec_pending_seeds(p: PendingFillReport) -> Seq<Seq<u8>> {
    seq![PENDING_FILL_SEED_PREFIX@, p.order_id@, p.origin_recipient@, seq![p.bump]]
}

/// The report made of a pending fill record.
pub open spec fn spec_payload(p: PendingFillReport) -> FillReportPayload {
    FillReportPayload {
        order_id: p.order_id,
        token_in: p.token_in,
        amount_in_to_release: p.amount_in_to_release,
        amount_out_filled: p.amount_out_filled,
        origin_recipient: p.origin_recipient,
    }
}

/// The event emitted for a report.
pub open spec fn spec_event(r: FillReportPayload) -> PendingFillReported {
    PendingFillReported {
        order_id: r.order_id,
        origin_recipient: r.origin_recipient,
        amount_in_to_release: r.amount_in_to_release,
        amount_out_filled: r.amount_out_filled,
    }
}

/// Whether a flushed pending record `pending` is carried unchanged into its
/// report and its event: the same order, input token, origin recipient and
/// amounts, field by field.
pub open spec fn fill_carried(
    pending: Result<PendingFillReport, AccountError>,
    report: FillReportPayload,
    event: PendingFillReported,
) -> bool {
    &&& pending is Ok
    &&& report.order_id == pending->Ok_0.order_id
    &&& report.token_in == pending->Ok_0.token_in
    &&& report.origin_recipient == pending->Ok_0.origin_recipient
    &&& report.amount_in_to_release == pending->Ok_0.amount_in_to_release
    &&& report.amount_out_filled == pending->Ok_0.amount_out_filled
    &&& event.order_id == pending->Ok_0.order_id
    &&& event.origin_recipient == pending->Ok_0.origin_recipient
    &&& event.amount_in_to_release == pending->Ok_0.amount_in_to_release
    &&& event.amount_out_filled == pending->Ok_0.amount_out_filled
}

/// The check of the `k`-th (pending, payer) pair, given that the pairs
/// before it passed.
pub open spec fn spec_check_pair(
    accts: Seq<RemainingAccount>,
    k: int,
    origin_chain_id: u32,
    program_id: Seq<u8>,
) -> Result<FillReportPayload, InstructionError> {
    let pending_info = accts[2 * k];
    let payer_info = accts[2 * k + 1];
    match pending_info.pending {
        Err(e) => Err(InstructionError::Account(e)),
        Ok(p) => match spec_create_program_address(spec_pending_seeds(p), program_id) {
            None => Err(InstructionError::Program(OrderBookError::InvalidPendingFillAccounts)),
            Some(expected) => if pending_info.key@ != expected {
                Err(InstructionError::Program(OrderBookError::InvalidPendingFillAccounts))
            } else if exists|j: int| 0 <= j < k && #[trigger] accts[2 * j].key@ == pending_info.key@ {
                Err(InstructionError::Program(OrderBookError::InvalidPendingFillAccounts))
            } else if p.origin_chain_id != origin_chain_id {
                Err(InstructionError::Program(OrderBookError::InvalidOriginChainId))
            } else if payer_info.key@ != p.payer@ {
                Err(InstructionError::Program(OrderBookError::InvalidPayer))
            } else {
                Ok(spec_payload(p))
            },
        },
    }
}

/// The reports of the first `n` pairs, or the error of the first pair that fails.
pub open spec fn spec_collect_reports(
    accts: Seq<RemainingAccount>,
    n: nat,
    origin_chain_id: u32,
    program_id: Seq<u8>,
) -> Result<Seq<FillReportPayload>, InstructionError>
    decreases n,
{
    if n == 0 {
        Ok(Seq::empty())
    } else {
        match spec_collect_reports(accts, (n - 1) as nat, origin_chain_id, program_id) {
            Err(e) => Err(e),
            Ok(prev) => match spec_check_pair(accts, n - 1, origin_chain_id, program_id) {
                Err(e) => Err(e),
                Ok(r) => Ok(prev.push(r)),
            },
        }
    }
}

/// The outcome of a flush: the reports of every pair, or the first error.
pub open spec fn spec_report_pending_fills(
    accts: Seq<RemainingAccount>,
    origin_chain_id: u32,
    program_id: Seq<u8>,
) -> Result<Seq<FillReportPayload>, InstructionError> {
    if accts.len() == 0 || accts.len() % 2 != 0 {
        Err(InstructionError::Program(OrderBookError::InvalidPendingFillAccounts))
    } else {
        spec_collect_reports(accts, accts.len() / 2, origin_chain_id, program_id)
    }
}

/// Once a pair fails, the flush fails with that pair's error whatever follows.
proof fn lemma_pair_failure_is_final(
    accts: Seq<RemainingAccount>,
    k: nat,
    n: nat,
    origin_chain_id: u32,
    program_id: Seq<u8>,
    e: InstructionError,
)
    requires
        k < n,
        spec_collect_reports(accts, k, origin_chain_id, program_id) is Ok,
        spec_check_pair(accts, k as int, origin_chain_id, program_id) == Err::<
            FillReportPayload,
            InstructionError,
        >(e),
    ensures
        spec_collect_reports(accts, n, origin_chain_id, program_id) == Err::<
            Seq<FillReportPayload>,
            InstructionError,
        >(e),
    decreases n - k,
{
    if n > k + 1 {
        lemma_pair_failure_is_final(accts, k, (n - 1) as nat, origin_chain_id, program_id, e);
    }
}

/// What an accepted pair satisfies: its pending account loads, sits at the
/// address derived from its own seeds, reports to the batch's origin chain
/// and is paired with the payer recorded in it.
pub open spec fn spec_pair_accepted(
    accts: Seq<RemainingAccount>,
    k: int,
    origin_chain_id: u32,
    program_id: Seq<u8>,
) -> bool {
    &&& accts[2 * k].pending is Ok
    &&& spec_create_program_address(spec_pending_seeds(accts[2 * k].pending->Ok_0), program_id)
        == Some(accts[2 * k].key@)
    &&& accts[2 * k].pending->Ok_0.origin_chain_id == origin_chain_id
    &&& accts[2 * k + 1].key@ == accts[2 * k].pending->Ok_0.payer@
}

proof fn lemma_collect_accepted(
    accts: Seq<RemainingAccount>,
    n: nat,
    origin_chain_id: u32,
    program_id: Seq<u8>,
)
    requires
        spec_collect_reports(accts, n, origin_chain_id, program_id) is Ok,
    ensures
        ({
            let reports = spec_collect_reports(accts, n, origin_chain_id, program_id)->Ok_0;
            &&& reports.len() == n
            &&& forall|i: int|
                0 <= i < n ==> {
                    &&& #[trigger] spec_pair_accepted(accts, i, origin_chain_id, program_id)
                    &&& reports[i] == spec_payload(accts[2 * i].pending->Ok_0)
                }
            &&& forall|i: int, j: int|
                0 <= i < j < n ==> #[trigger] accts[2 * i].key@ != #[trigger] accts[2 * j].key@
        }),
    decreases n,
{
    if n > 0 {
        lemma_collect_accepted(accts, (n - 1) as nat, origin_chain_id, program_id);
    }
}

/// Flushing pending fills succeeds only on a non-empty, even list of
/// accounts; then it reports exactly one fill per (pending, payer) pair, in
/// order, each read from its pending record, every record belonging to the
/// batch's origin chain, sitting at its own derived address, paired with the
/// payer it records, and no pending account appearing twice.
pub proof fn lemma_report_pending_fills_outcome(
    accts: Seq<RemainingAccount>,
    origin_chain_id: u32,
    program_id: Seq<u8>,
)
    ensures
        (accts.len() == 0 || accts.len() % 2 != 0) ==> spec_report_pending_fills(
            accts,
            origin_chain_id,
            program_id,
        ) == Err::<Seq<FillReportPayload>, InstructionError>(
            InstructionError::Program(OrderBookError::InvalidPendingFillAccounts),
        ),
        spec_report_pending_fills(accts, origin_chain_id, program_id) is Ok ==> {
            let reports = spec_report_pending_fills(accts, origin_chain_id, program_id)->Ok_0;
            &&& accts.len() > 0
            &&& accts.len() % 2 == 0
            &&& reports.len() == accts.len() / 2
            &&& forall|i: int|
                0 <= i < accts.len() / 2 ==> {
                    &&& #[trigger] spec_pair_accepted(accts, i, origin_chain_id, program_id)
                    &&& reports[i] == spec_payload(accts[2 * i].pending->Ok_0)
                }
            &&& forall|i: int, j: int|
                0 <= i < j < accts.len() / 2 ==> #[trigger] accts[2 * i].key@
                    != #[trigger] accts[2 * j].key@
        },
{
    if accts.len() > 0 && accts.len() % 2 == 0 && spec_report_pending_fills(
        accts,
        origin_chain_id,
        program_id,
    ) is Ok {
        lemma_collect_accepted(accts, accts.len() / 2, origin_chain_id, program_id);
    }
}

fn pending_seeds(p: &PendingFillReport) -> (seeds: Vec<Vec<u8>>)
    ensures
        views(seeds@) == spec_pending_seeds(*p),
{
    let prefix = PENDING_FILL_SEED_PREFIX;
    let mut a: Vec<u8> = Vec::new();
    append_bytes(&mut a, &prefix);
    let mut b: Vec<u8> = Vec::new();
    append_bytes(&mut b, &p.order_id);
    let mut c: Vec<u8> = Vec::new();
    append_bytes(&mut c, &p.origin_recipient);
    let mut d: Vec<u8> = Vec::new();
    d.push(p.bump);
    let mut seeds: Vec<Vec<u8>> = Vec::new();
    seeds.push(a);
    seeds.push(b);
    seeds.push(c);
    seeds.push(d);
    proof {
        assert(views(seeds@) =~= spec_pending_seeds(*p));
    }
    seeds
}

/// Whether `key` is the pending account of a pair already accepted.
fn key_already_closed(closes: &Vec<([u8; 32], [u8; 32])>, key: &[u8; 32]) -> (seen: bool)
    ensures
        seen == exists|j: int| 0 <= j < closes@.len() && #[trigger] closes@[j].0@ == key@,
{
    let n = closes.len();
    for j in 0..n
        invariant
            n == closes@.len(),
            forall|i: int| 0 <= i < j ==> #[trigger] closes@[i].0@ != key@,
    {
        if keys_equal(&closes[j].0, key) {
            return true;
        }
    }
    false
}

impl ReportPendingFills {
    /// Checks every (pending, payer) pair and, when all pass, gives the one
    /// message of reports to send, the accounts to close and the events to emit.
    pub fn handler(&self, origin_chain_id: u32) -> (r: Result<PendingFillsFlush, InstructionError>)
        ensures
            match r {
                Ok(flush) => {
                    &&& spec_report_pending_fills(
                        self.remaining_accounts@,
                        origin_chain_id,
                        self.program_id@,
                    ) == Ok::<Seq<FillReportPayload>, InstructionError>(flush.reports@)
                    &&& flush.closes@.len() == flush.reports@.len()
                    &&& forall|i: int|
                        0 <= i < flush.closes@.len() ==> #[trigger] flush.closes@[i] == (
                            self.remaining_accounts@[2 * i].key,
                            self.remaining_accounts@[2 * i + 1].key,
                        )
                    &&& flush.events@ == flush.reports@.map_values(
                        |p: FillReportPayload| spec_event(p),
                    )
                    &&& flush.events@.len() == flush.reports@.len()
                    &&& forall|i: int|
                        0 <= i < flush.reports@.len() ==> #[trigger] fill_carried(
                            self.remaining_accounts@[2 * i].pending,
                            flush.reports@[i],
                            flush.events@[i],
                        )
                },
                Err(e) => spec_report_pending_fills(
                    self.remaining_accounts@,
                    origin_chain_id,
                    self.program_id@,
                ) == Err::<Seq<FillReportPayload>, InstructionError>(e),
            },
    {
        let remaining = &self.remaining_accounts;
        let len = remaining.len();
        if len == 0 || len % 2 != 0 {
            return Err(InstructionError::Program(OrderBookError::InvalidPendingFillAccounts));
        }
        let ghost accts = remaining@;
        let npairs = len / 2;
        let mut reports: Vec<FillReportPayload> = Vec::new();
        let mut closes: Vec<([u8; 32], [u8; 32])> = Vec::new();
        let mut events: Vec<PendingFillReported> = Vec::new();
        for k in 0..npairs
            invariant
                accts == remaining@,
                accts == self.remaining_accounts@,
                len == accts.len(),
                len > 0,
                len % 2 == 0,
                npairs == len / 2,
                spec_collect_reports(accts, k as nat, origin_chain_id, self.program_id@) == Ok::<
                    Seq<FillReportPayload>,
                    InstructionError,
                >(reports@),
                closes@.len() == k,
                reports@.len() == k,
                forall|i: int|
                    0 <= i < k ==> #[trigger] closes@[i] == (accts[2 * i].key, accts[2 * i
                        + 1].key),
                events@ == reports@.map_values(|p: FillReportPayload| spec_event(p)),
        {
            let pending_info = &remaining[2 * k];
            let payer_info = &remaining[2 * k + 1];
            let pending = match pending_info.pending {
                Ok(p) => p,
                Err(e) => {
                    proof {
                        lemma_pair_failure_is_final(accts, k as nat, npairs as nat, origin_chain_id, self.program_id@, InstructionError::Account(e));
                    }
                    return Err(InstructionError::Account(e));
                },
            };
            let seeds = pending_seeds(&pending);
            let expected = match create_program_address(&seeds, &self.program_id) {
                Some(x) => x,
                None => {
                    proof {
                        lemma_pair_failure_is_final(accts, k as nat, npairs as nat, origin_chain_id, self.program_id@, InstructionError::Program(OrderBookError::InvalidPendingFillAccounts));
                    }
                    return Err(InstructionError::Program(OrderBookError::InvalidPendingFillAccounts));
                },
            };
            if !keys_equal(&pending_info.key, &expected) {
                proof {
                    lemma_pair_failure_is_final(accts, k as nat, npairs as nat, origin_chain_id, self.program_id@, InstructionError::Program(OrderBookError::InvalidPendingFillAccounts));
                }
                return Err(InstructionError::Program(OrderBookError::InvalidPendingFillAccounts));
            }
            if key_already_closed(&closes, &pending_info.key) {
                proof {
                    let j = choose|j: int| 0 <= j < closes@.len() && #[trigger] closes@[j].0@ == pending_info.key@;
                    assert(closes@[j] == (accts[2 * j].key, accts[2 * j + 1].key));
                    assert(accts[2 * j].key@ == pending_info.key@);
                    lemma_pair_failure_is_final(accts, k as nat, npairs as nat, origin_chain_id, self.program_id@, InstructionError::Program(OrderBookError::InvalidPendingFillAccounts));
                }
                return Err(InstructionError::Program(OrderBookError::InvalidPendingFillAccounts));
            }
            proof {
                assert forall|j: int| 0 <= j < k implies #[trigger] accts[2 * j].key@ != pending_info.key@ by {
                    assert(closes@[j] == (accts[2 * j].key, accts[2 * j + 1].key));
                    assert(closes@[j].0@ != pending_info.key@);
                }
            }
            if pending.origin_chain_id != origin_chain_id {
                proof {
                    lemma_pair_failure_is_final(accts, k as nat, npairs as nat, origin_chain_id, self.program_id@, InstructionError::Program(OrderBookError::InvalidOriginChainId));
                }
                return Err(InstructionError::Program(OrderBookError::InvalidOriginChainId));
            }
            if !keys_equal(&payer_info.key, &pending.payer) {
                proof {
                    lemma_pair_failure_is_final(accts, k as nat, npairs as nat, origin_chain_id, self.program_id@, InstructionError::Program(OrderBookError::InvalidPayer));
                }
                return Err(InstructionError::Program(OrderBookError::InvalidPayer));
            }
            let report = FillReportPayload {
                order_id: pending.order_id,
                token_in: pending.token_in,
                amount_in_to_release: pending.amount_in_to_release,
                amount_out_filled: pending.amount_out_filled,
                origin_recipient: pending.origin_recipient,
            };
            let event = PendingFillReported {
                order_id: report.order_id,
                origin_recipient: report.origin_recipient,
                amount_in_to_release: report.amount_in_to_release,
                amount_out_filled: report.amount_out_filled,
            };
            reports.push(report);
            closes.push((pending_info.key, payer_info.key));
            events.push(event);
            proof {
                assert(spec_check_pair(accts, k as int, origin_chain_id, self.program_id@) == Ok::<
                    FillReportPayload,
                    InstructionError,
                >(report));
                assert(events@ =~= reports@.map_values(|p: FillReportPayload| spec_event(p)));
            }
        }
        proof {
            lemma_collect_accepted(accts, npairs as nat, origin_chain_id, self.program_id@);
            assert(reports@.len() == npairs);
            assert forall|i: int| 0 <= i < reports@.len() implies #[trigger] fill_carried(
                accts[2 * i].pending,
                reports@[i],
                events@[i],
            ) by {
                assert(spec_pair_accepted(accts, i, origin_chain_id, self.program_id@));
                assert(reports@[i] == spec_payload(accts[2 * i].pending->Ok_0));
                assert(events@[i] == spec_event(reports@[i]));
            }
        }
        Ok(PendingFillsFlush { reports, closes, events })
    }
}

} // verus!
