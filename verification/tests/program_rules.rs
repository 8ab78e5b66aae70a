use anchor_lang::prelude::Pubkey;
use m0_orderbook::program::{
    transfer_tokens, transfer_tokens_from_program,
    AccountError, CloseOrderTokenAccount, InstructionError, NativeOrder, Order, OrderBookError,
    OrderStatus, OrderType, PendingFillReport, RemainingAccount, ReportPendingFills,
    PENDING_FILL_SEED_PREFIX,
};

const CHAIN_ID: u32 = 1399811149;
const DEST_CHAIN_ID: u32 = 1;

fn key(b: u8) -> [u8; 32] {
    [b; 32]
}

fn program_id() -> [u8; 32] {
    key(42)
}

fn native_order(status: OrderStatus, payer: [u8; 32], token_in: [u8; 32]) -> Order<NativeOrder> {
    Order {
        order_type: OrderType::Native,
        bump: 254,
        data: NativeOrder {
            status,
            version: 1,
            sender: payer,
            payer,
            nonce: 0,
            dest_chain_id: DEST_CHAIN_ID,
            created_at: 100,
            fill_deadline: 200,
            token_in,
            token_out: key(9),
            amount_in: 1_000_000,
            amount_out: 1_000_000,
            recipient: payer,
            solver: key(8),
            amount_in_released: 0,
            amount_out_filled: 0,
            amount_in_refunded: 0,
        },
    }
}

fn close_accounts(status: OrderStatus, payer: [u8; 32], amount: u64) -> CloseOrderTokenAccount {
    let alice = key(1);
    let mint = key(6);
    CloseOrderTokenAccount {
        payer,
        order_key: key(30),
        order: native_order(status, alice, mint),
        token_in_mint: mint,
        order_token_in_ata: key(31),
        order_token_in_ata_amount: amount,
        token_in_program: key(60),
    }
}

#[test]
fn test_close_fails_if_order_not_finalized() {
    // The order is still open (Created); alice, its payer, tries to close.
    let accounts = close_accounts(OrderStatus::Created, key(1), 0);
    let r = accounts.handler([5u8; 32]);
    assert_eq!(r.err(), Some(OrderBookError::OrderNotFinalized));
}

#[test]
fn test_close_fails_with_wrong_payer() {
    // The order was cancelled; bob names himself as payer.
    let accounts = close_accounts(OrderStatus::Cancelled, key(2), 0);
    let r = accounts.handler([5u8; 32]);
    assert_eq!(r.err(), Some(OrderBookError::InvalidPayer));
}

#[test]
fn close_succeeds_on_finalized_empty_account() {
    let order_id = [5u8; 32];
    for status in [OrderStatus::Cancelled, OrderStatus::Completed] {
        let accounts = close_accounts(status, key(1), 0);
        let cpi = accounts.handler(order_id).unwrap();
        assert_eq!(cpi.token_program, key(60));
        assert_eq!(cpi.account, key(31));
        assert_eq!(cpi.destination, key(1));
        assert_eq!(cpi.authority, key(30));
        assert_eq!(cpi.signer_seeds, vec![b"order".to_vec(), order_id.to_vec(), vec![254u8]]);
    }
}

#[test]
fn close_fails_on_non_empty_token_account() {
    let accounts = close_accounts(OrderStatus::Completed, key(1), 1);
    assert_eq!(accounts.validate(), Err(OrderBookError::TokenAccountNotEmpty));
    assert_eq!(accounts.handler([5u8; 32]).err(), Some(OrderBookError::TokenAccountNotEmpty));
}

#[test]
fn close_fails_on_wrong_mint() {
    let mut accounts = close_accounts(OrderStatus::Completed, key(1), 0);
    accounts.token_in_mint = key(7);
    assert_eq!(accounts.check_constraints(), Err(OrderBookError::InvalidTokenMint));
    assert_eq!(accounts.handler([5u8; 32]).err(), Some(OrderBookError::InvalidTokenMint));
}

#[test]
fn close_fails_on_does_not_exist_status() {
    let accounts = close_accounts(OrderStatus::DoesNotExist, key(1), 0);
    assert_eq!(accounts.validate(), Err(OrderBookError::OrderNotFinalized));
}

/// A pending fill record for `order_id` with `payer`, at its derived address.
fn pending(order_id: [u8; 32], payer: [u8; 32], origin_chain_id: u32, amount: u128) -> RemainingAccount {
    let recipient = key(3);
    let (pda, bump) = Pubkey::find_program_address(
        &[PENDING_FILL_SEED_PREFIX.as_ref(), &order_id, &recipient],
        &Pubkey::new_from_array(program_id()),
    );
    RemainingAccount {
        key: pda.to_bytes(),
        pending: Ok(PendingFillReport {
            bump,
            solver: key(8),
            payer,
            order_id,
            origin_chain_id,
            token_in: key(6),
            origin_recipient: recipient,
            amount_in_to_release: amount,
            amount_out_filled: amount,
        }),
    }
}

fn payer_account(k: [u8; 32]) -> RemainingAccount {
    RemainingAccount { key: k, pending: Err(AccountError::AccountNotInitialized) }
}

fn flush(accounts: Vec<RemainingAccount>) -> ReportPendingFills {
    ReportPendingFills { program_id: program_id(), remaining_accounts: accounts }
}

#[test]
fn report_pending_fills_no_accounts_reverts() {
    let r = flush(vec![]).handler(DEST_CHAIN_ID);
    assert_eq!(
        r.err(),
        Some(InstructionError::Program(OrderBookError::InvalidPendingFillAccounts))
    );
}

#[test]
fn report_pending_fills_odd_accounts_reverts() {
    // A pending account but no payer account
    let solver = key(8);
    let r = flush(vec![pending([20u8; 32], solver, DEST_CHAIN_ID, 500_000)]).handler(DEST_CHAIN_ID);
    assert_eq!(
        r.err(),
        Some(InstructionError::Program(OrderBookError::InvalidPendingFillAccounts))
    );
}

#[test]
fn report_pending_fills_forged_account_reverts() {
    // An order account passed where a pending fill report is expected
    let solver = key(8);
    let forged = RemainingAccount {
        key: key(50),
        pending: Err(AccountError::AccountDiscriminatorMismatch),
    };
    let r = flush(vec![forged, payer_account(solver)]).handler(DEST_CHAIN_ID);
    assert_eq!(r.err(), Some(InstructionError::Account(AccountError::AccountDiscriminatorMismatch)));
}

#[test]
fn report_pending_fills_wrong_payer_reverts() {
    // Bob tries to redirect the rent to himself
    let solver = key(8);
    let bob = key(2);
    let r = flush(vec![pending([20u8; 32], solver, DEST_CHAIN_ID, 500_000), payer_account(bob)])
        .handler(DEST_CHAIN_ID);
    assert_eq!(r.err(), Some(InstructionError::Program(OrderBookError::InvalidPayer)));
}

#[test]
fn report_pending_fills_mixed_origin_chain_reverts() {
    // Two pending records toward different origin chains
    let solver = key(8);
    let r = flush(vec![
        pending([20u8; 32], solver, DEST_CHAIN_ID, 500_000),
        payer_account(solver),
        pending([21u8; 32], solver, 3, 500_000),
        payer_account(solver),
    ])
    .handler(DEST_CHAIN_ID);
    assert_eq!(r.err(), Some(InstructionError::Program(OrderBookError::InvalidOriginChainId)));
}

#[test]
fn report_pending_fills_success_returns_rent_and_closes_pda() {
    let solver = key(8);
    let record = pending([20u8; 32], solver, DEST_CHAIN_ID, 500_000);
    let pda = record.key;
    // Anyone may flush; the rent still goes to the payer recorded at fill time
    let out = flush(vec![record, payer_account(solver)]).handler(DEST_CHAIN_ID).unwrap();
    assert_eq!(out.closes, vec![(pda, solver)]);
    assert_eq!(out.reports.len(), 1);
    assert_eq!(out.reports[0].order_id, [20u8; 32]);
    assert_eq!(out.reports[0].amount_out_filled, 500_000);
    assert_eq!(out.reports[0].amount_in_to_release, 500_000);
    assert_eq!(out.reports[0].origin_recipient, key(3));
    assert_eq!(out.reports[0].token_in, key(6));
    assert_eq!(out.events.len(), 1);
    assert_eq!(out.events[0].order_id, [20u8; 32]);
    assert_eq!(out.events[0].amount_out_filled, 500_000);
}

#[test]
fn report_pending_fills_multiple_orders_one_message() {
    let solver = key(8);
    let mut accounts = vec![];
    let mut pdas = vec![];
    for nonce in 0..3u8 {
        let record = pending([20 + nonce; 32], solver, DEST_CHAIN_ID, 500_000);
        pdas.push(record.key);
        accounts.push(record);
        accounts.push(payer_account(solver));
    }
    // All three pending records drain in a single instruction (one portal message)
    let out = flush(accounts).handler(DEST_CHAIN_ID).unwrap();
    assert_eq!(out.reports.len(), 3);
    assert_eq!(out.events.len(), 3);
    for (i, pda) in pdas.iter().enumerate() {
        assert_eq!(out.closes[i], (*pda, solver));
        assert_eq!(out.reports[i].order_id, [20 + i as u8; 32]);
    }
}

#[test]
fn report_pending_fills_callable_while_paused() {
    // Flushing takes no paused flag into account
    let solver = key(8);
    let out = flush(vec![pending([20u8; 32], solver, DEST_CHAIN_ID, 500_000), payer_account(solver)])
        .handler(DEST_CHAIN_ID);
    assert!(out.is_ok());
}

#[test]
fn report_pending_fills_duplicate_pending_reverts() {
    let solver = key(8);
    let record = pending([20u8; 32], solver, DEST_CHAIN_ID, 500_000);
    let r = flush(vec![record, payer_account(solver), record, payer_account(solver)])
        .handler(DEST_CHAIN_ID);
    assert_eq!(
        r.err(),
        Some(InstructionError::Program(OrderBookError::InvalidPendingFillAccounts))
    );
}

#[test]
fn report_pending_fills_account_at_wrong_address_reverts() {
    let solver = key(8);
    let mut record = pending([20u8; 32], solver, DEST_CHAIN_ID, 500_000);
    record.key = key(77);
    let r = flush(vec![record, payer_account(solver)]).handler(DEST_CHAIN_ID);
    assert_eq!(
        r.err(),
        Some(InstructionError::Program(OrderBookError::InvalidPendingFillAccounts))
    );
}

#[test]
fn report_pending_fills_first_failing_pair_decides() {
    // The first pair's wrong payer is reported even though the second pair
    // goes to another chain.
    let solver = key(8);
    let r = flush(vec![
        pending([20u8; 32], solver, DEST_CHAIN_ID, 1),
        payer_account(key(2)),
        pending([21u8; 32], solver, 3, 1),
        payer_account(solver),
    ])
    .handler(DEST_CHAIN_ID);
    assert_eq!(r.err(), Some(InstructionError::Program(OrderBookError::InvalidPayer)));
}

#[test]
fn transfer_cpis_carry_their_arguments() {
    let seeds = vec![b"order".to_vec(), vec![1u8; 32], vec![255u8]];
    let cpi = transfer_tokens_from_program(&key(1), &key(2), 500, &key(3), 6, &key(4), seeds.clone(), &key(60));
    assert_eq!(cpi.token_program, key(60));
    assert_eq!((cpi.from, cpi.to, cpi.mint, cpi.authority), (key(1), key(2), key(3), key(4)));
    assert_eq!((cpi.amount, cpi.decimals), (500, 6));
    assert_eq!(cpi.signer_seeds, seeds);
    let cpi = transfer_tokens(&key(5), &key(6), 7, &key(8), 9, &key(10), &key(61));
    assert_eq!(cpi.token_program, key(61));
    assert_eq!((cpi.from, cpi.to, cpi.mint, cpi.authority), (key(5), key(6), key(8), key(10)));
    assert_eq!((cpi.amount, cpi.decimals), (7, 9));
    assert!(cpi.signer_seeds.is_empty());
}

#[test]
fn test_cancel_and_close_ata_with_rent_refund() {
    // Alice's order of 1_000_000 tokens is cancelled past its deadline
    // (200): the order account signs a refund of the whole amount from the
    // order's token account to alice's, then the order is Cancelled.
    let alice = key(1);
    let mint = key(6);
    let order_id = [5u8; 32];
    let order_key = key(30);
    let order_ata = key(31);
    let alice_ata = key(32);
    let token_program = key(60);
    let seeds = vec![b"order".to_vec(), order_id.to_vec(), vec![254u8]];
    let refund = transfer_tokens_from_program(
        &order_ata,
        &alice_ata,
        1_000_000,
        &mint,
        6,
        &order_key,
        seeds.clone(),
        &token_program,
    );
    assert_eq!(refund.amount, 1_000_000, "SPL tokens should be refunded during cancel");
    assert_eq!((refund.from, refund.to), (order_ata, alice_ata));
    assert_eq!(refund.token_program, token_program);

    // The token account is now empty but still open; alice, the payer,
    // closes it and its rent goes back to her.
    let accounts = CloseOrderTokenAccount {
        payer: alice,
        order_key,
        order: native_order(OrderStatus::Cancelled, alice, mint),
        token_in_mint: mint,
        order_token_in_ata: order_ata,
        order_token_in_ata_amount: 0,
        token_in_program: token_program,
    };
    let close = accounts.handler(order_id).unwrap();
    assert_eq!(close.account, order_ata, "the order's token account is the one closed");
    assert_eq!(close.destination, alice, "SOL should increase after closing ATA");
    assert_eq!(close.authority, order_key);
    assert_eq!(close.signer_seeds, seeds);
    assert_eq!(close.token_program, token_program);

    // Closing moves lamports only: while tokens remain, it is refused, so
    // the SPL balance cannot change during the close.
    let mut not_empty = accounts.clone();
    not_empty.order_token_in_ata_amount = 10_000;
    assert_eq!(not_empty.handler(order_id).err(), Some(OrderBookError::TokenAccountNotEmpty));
}
