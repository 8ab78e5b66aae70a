use anchor_lang::prelude::Pubkey;
use anchor_lang::solana_program::hash::Hash as SolanaHash;
use anchor_lang::solana_program::instruction::{
    AccountMeta as SolanaAccountMeta, Instruction as SolanaInstruction,
};
use anchor_lang::solana_program::message::Message;
use base64::Engine;
use m0_orderbook::builder::{CancelOrderInput, OpenOrderInput, TransactionBuilderError};
use m0_orderbook::instruction::{AccountMeta, Instruction};
use m0_orderbook::indexer::{decode_instruction, ProgramInstruction};
use m0_orderbook::layout::write_order_params;
use m0_orderbook::program;
use m0_orderbook::svm_builder::{
    associated_token_address, current_timestamp_with_offset, mint_token_program, parse_bytes32,
    parse_lookup_table, parse_pubkey, sender_nonce_from_account, timestamp_with_offset,
    wormhole_chain_or_error, SvmTransactionBuilder, ASSOCIATED_TOKEN_PROGRAM_ID,
    CANCEL_FOREIGN_ORDER_DISCRIMINATOR, CANCEL_NATIVE_ORDER_DISCRIMINATOR,
    DEFAULT_ORDER_BOOK_PROGRAM_ID, OPEN_ORDER_DISCRIMINATOR, SPL_TOKEN_PROGRAM_ID,
    SYSTEM_PROGRAM_ID, TOKEN_2022_PROGRAM_ID,
};
use std::str::FromStr;

const CHAIN_ID: u32 = 1399811149;

fn pk(s: &str) -> [u8; 32] {
    Pubkey::from_str(s).unwrap().to_bytes()
}

fn builder() -> SvmTransactionBuilder {
    SvmTransactionBuilder::new("http://localhost:8899".to_string(), None, CHAIN_ID).unwrap()
}

fn pda(seeds: &[&[u8]], program: &[u8; 32]) -> [u8; 32] {
    Pubkey::find_program_address(seeds, &Pubkey::new_from_array(*program)).0.to_bytes()
}

#[test]
fn well_known_program_ids() {
    assert_eq!(SPL_TOKEN_PROGRAM_ID, pk("TokenkegQfeZyiNwAJbNbGKPFXCWuBvf9Ss623VQ5DA"));
    assert_eq!(TOKEN_2022_PROGRAM_ID, pk("TokenzQdBNbLqP5VEhdkAS6EPFLC1PHnBqCXEpPxuEb"));
    assert_eq!(ASSOCIATED_TOKEN_PROGRAM_ID, pk("ATokenGPvbdGVxr1b2hvZbsiqW5xWH25efTNsLJA8knL"));
    assert_eq!(SYSTEM_PROGRAM_ID, pk("11111111111111111111111111111111"));
}

#[test]
fn new_uses_default_program_and_rejects_bad_keys() {
    let b = builder();
    assert_eq!(b.program_id(), pk(DEFAULT_ORDER_BOOK_PROGRAM_ID));
    assert_eq!(b.chain_id(), CHAIN_ID);
    assert_eq!(b.rpc_url(), "http://localhost:8899");
    let custom = SvmTransactionBuilder::new(
        "u".to_string(),
        Some("TokenkegQfeZyiNwAJbNbGKPFXCWuBvf9Ss623VQ5DA".to_string()),
        1,
    )
    .unwrap();
    assert_eq!(custom.program_id(), SPL_TOKEN_PROGRAM_ID);
    let bad = SvmTransactionBuilder::new("u".to_string(), Some("not a key".to_string()), 1);
    assert!(matches!(bad, Err(TransactionBuilderError::InvalidAddress(_))));
}

#[test]
fn program_addresses_match_derivation() {
    let b = builder();
    let program = b.program_id();
    assert_eq!(b.global_pda().unwrap(), pda(&[b"global"], &program));
    assert_eq!(b.event_authority_pda().unwrap(), pda(&[b"__event_authority"], &program));
    let sender = [4u8; 32];
    assert_eq!(b.nonce_pda(&sender).unwrap(), pda(&[b"nonce", &sender], &program));
    let id = [9u8; 32];
    assert_eq!(b.order_pda(&id).unwrap(), pda(&[b"order", &id], &program));
    assert_eq!(
        b.destination_pda(1).unwrap(),
        pda(&[b"destination", &1u32.to_be_bytes()], &program)
    );
    let mint = [5u8; 32];
    assert_eq!(
        associated_token_address(&sender, &mint, &SPL_TOKEN_PROGRAM_ID).unwrap(),
        pda(&[&sender, &SPL_TOKEN_PROGRAM_ID, &mint], &ASSOCIATED_TOKEN_PROGRAM_ID)
    );
}

#[test]
fn parse_pubkey_reports_invalid_address() {
    assert_eq!(parse_pubkey("11111111111111111111111111111111").unwrap(), [0u8; 32]);
    assert!(matches!(parse_pubkey("0xabc"), Err(TransactionBuilderError::InvalidAddress(_))));
}

#[test]
fn parse_bytes32_accepts_keys_hex_and_evm_addresses() {
    let key = "TokenkegQfeZyiNwAJbNbGKPFXCWuBvf9Ss623VQ5DA";
    assert_eq!(parse_bytes32(key).unwrap(), SPL_TOKEN_PROGRAM_ID);
    let hex64 = format!("0x{}", "ab".repeat(32));
    assert_eq!(parse_bytes32(&hex64).unwrap(), [0xab; 32]);
    let mut padded = [0u8; 32];
    padded[12..].copy_from_slice(&[0x11; 20]);
    assert_eq!(parse_bytes32(&"11".repeat(20)).unwrap(), padded);
    assert_eq!(parse_bytes32(&format!("0x{}", "11".repeat(20))).unwrap(), padded);
    assert_eq!(
        parse_bytes32("0xzz"),
        Err(TransactionBuilderError::InvalidAddress("Cannot parse: zz".to_string()))
    );
    assert!(matches!(
        parse_bytes32(&format!("0x{}", "zz".repeat(32))),
        Err(TransactionBuilderError::InvalidAddress(_))
    ));
}

#[test]
fn sender_nonce_from_account_cases() {
    assert_eq!(sender_nonce_from_account(None), Ok(0));
    assert_eq!(
        sender_nonce_from_account(Some(&[0u8; 16])),
        Err(TransactionBuilderError::AccountParseError)
    );
    let mut data = vec![0u8; 17];
    data[9..17].copy_from_slice(&42u64.to_le_bytes());
    assert_eq!(sender_nonce_from_account(Some(&data)), Ok(42));
    data.push(7);
    assert_eq!(sender_nonce_from_account(Some(&data)), Ok(42));
}

#[test]
fn parse_lookup_table_cases() {
    assert_eq!(parse_lookup_table(&[0u8; 55]), Err(TransactionBuilderError::AccountParseError));
    assert_eq!(parse_lookup_table(&[0u8; 57]), Err(TransactionBuilderError::AccountParseError));
    assert_eq!(parse_lookup_table(&[0u8; 56]), Ok(vec![]));
    let mut data = vec![0u8; 56];
    data.extend_from_slice(&[1u8; 32]);
    data.extend_from_slice(&[2u8; 32]);
    assert_eq!(parse_lookup_table(&data), Ok(vec![[1u8; 32], [2u8; 32]]));
}

#[test]
fn mint_token_program_cases() {
    let mint = [3u8; 32];
    assert_eq!(mint_token_program(&mint, &SPL_TOKEN_PROGRAM_ID), Ok(SPL_TOKEN_PROGRAM_ID));
    assert_eq!(mint_token_program(&mint, &TOKEN_2022_PROGRAM_ID), Ok(TOKEN_2022_PROGRAM_ID));
    let expected = format!(
        "Mint {} is not owned by a known token program",
        Pubkey::new_from_array(mint)
    );
    assert_eq!(
        mint_token_program(&mint, &SYSTEM_PROGRAM_ID),
        Err(TransactionBuilderError::InvalidAddress(expected))
    );
}

#[test]
fn timestamps() {
    assert_eq!(timestamp_with_offset(Ok(100), 30), Ok(130));
    assert_eq!(
        timestamp_with_offset(Ok(u64::MAX), 1),
        Err(TransactionBuilderError::SerializationError("timestamp overflow".to_string()))
    );
    assert_eq!(
        timestamp_with_offset(Err("clock".to_string()), 1),
        Err(TransactionBuilderError::SerializationError("clock".to_string()))
    );
    let now = current_timestamp_with_offset(30).unwrap();
    assert!(now > 1_600_000_000);
}

#[test]
fn wormhole_chain_cases() {
    assert_eq!(wormhole_chain_or_error(Some(10002)), Ok(10002));
    assert_eq!(
        wormhole_chain_or_error(None),
        Err(TransactionBuilderError::InvalidAddress("Unknown chain ID".to_string()))
    );
}

fn open_input(sender: &[u8; 32], mint: &[u8; 32], dest_chain_id: u32) -> OpenOrderInput {
    OpenOrderInput {
        sender_address: Pubkey::new_from_array(*sender).to_string(),
        token_in: Pubkey::new_from_array(*mint).to_string(),
        token_out: format!("0x{}", "22".repeat(20)),
        amount_in: 1_000_000,
        amount_out: 990_000,
        recipient: [6u8; 32],
        solver: [0u8; 32],
        dest_chain_id,
        fill_deadline: 1_700_086_400,
    }
}

fn to_solana(ix: &Instruction) -> SolanaInstruction {
    SolanaInstruction {
        program_id: Pubkey::new_from_array(ix.program_id),
        accounts: ix
            .accounts
            .iter()
            .map(|m| SolanaAccountMeta {
                pubkey: Pubkey::new_from_array(m.pubkey),
                is_signer: m.is_signer,
                is_writable: m.is_writable,
            })
            .collect(),
        data: ix.data.clone(),
    }
}

#[test]
fn open_order_transaction_carries_the_open_order_instruction() {
    let b = builder();
    let program = b.program_id();
    let sender = [4u8; 32];
    let mint = [5u8; 32];
    let input = open_input(&sender, &mint, 1);
    let blockhash = [7u8; 32];
    let created_at = 1_700_000_030;
    let r = b
        .build_open_order_transaction(&input, &SPL_TOKEN_PROGRAM_ID, 3, &blockhash, created_at)
        .unwrap();

    let mut token_out = [0u8; 32];
    token_out[12..].copy_from_slice(&[0x22; 20]);
    let order = program::OrderData {
        version: 1,
        sender,
        nonce: 3,
        origin_chain_id: CHAIN_ID,
        dest_chain_id: 1,
        created_at,
        fill_deadline: input.fill_deadline,
        token_in: mint,
        token_out,
        amount_in: 1_000_000,
        amount_out: 990_000,
        recipient: [6u8; 32],
        solver: [0u8; 32],
    };
    let order_id = program::compute_order_id(&order);
    assert_eq!(r.order_id, format!("0x{}", hex::encode(order_id)));
    assert_eq!(r.nonce, 3);
    assert_eq!(r.contract_address, Pubkey::new_from_array(program).to_string());

    // The expected instruction, derived independently
    let order_pda = pda(&[b"order", &order_id], &program);
    let ata = |w: &[u8; 32]| pda(&[w, &SPL_TOKEN_PROGRAM_ID, &mint], &ASSOCIATED_TOKEN_PROGRAM_ID);
    let mut data = OPEN_ORDER_DISCRIMINATOR.to_vec();
    data.extend_from_slice(&1u32.to_le_bytes());
    data.extend_from_slice(&created_at.to_le_bytes());
    data.extend_from_slice(&input.fill_deadline.to_le_bytes());
    data.extend_from_slice(&token_out);
    data.extend_from_slice(&1_000_000u64.to_le_bytes());
    data.extend_from_slice(&990_000u128.to_le_bytes());
    data.extend_from_slice(&[6u8; 32]);
    data.extend_from_slice(&[0u8; 32]);
    let metas = vec![
        AccountMeta::new(sender, true),
        AccountMeta::new_readonly(program, false),
        AccountMeta::new_readonly(pda(&[b"global"], &program), false),
        AccountMeta::new_readonly(pda(&[b"destination", &1u32.to_be_bytes()], &program), false),
        AccountMeta::new_readonly(mint, false),
        AccountMeta::new(ata(&sender), false),
        AccountMeta::new(pda(&[b"nonce", &sender], &program), false),
        AccountMeta::new(order_pda, false),
        AccountMeta::new(ata(&order_pda), false),
        AccountMeta::new_readonly(SPL_TOKEN_PROGRAM_ID, false),
        AccountMeta::new_readonly(ASSOCIATED_TOKEN_PROGRAM_ID, false),
        AccountMeta::new_readonly(SYSTEM_PROGRAM_ID, false),
        AccountMeta::new_readonly(pda(&[b"__event_authority"], &program), false),
        AccountMeta::new_readonly(program, false),
    ];
    let ix = Instruction { program_id: program, accounts: metas, data };
    let message = Message::new_with_blockhash(
        &[to_solana(&ix)],
        Some(&Pubkey::new_from_array(sender)),
        &SolanaHash::new_from_array(blockhash),
    );
    let mut tx = vec![1u8];
    tx.extend_from_slice(&[0u8; 64]);
    tx.extend_from_slice(&message.serialize());
    assert_eq!(r.transaction, base64::engine::general_purpose::STANDARD.encode(tx));
}

#[test]
fn open_order_to_this_chain_uses_program_as_destination() {
    let b = builder();
    let sender = [4u8; 32];
    let mint = [5u8; 32];
    let here = open_input(&sender, &mint, CHAIN_ID);
    let there = open_input(&sender, &mint, 1);
    let a = b.build_open_order_transaction(&here, &SPL_TOKEN_PROGRAM_ID, 0, &[1; 32], 10).unwrap();
    let c = b.build_open_order_transaction(&there, &SPL_TOKEN_PROGRAM_ID, 0, &[1; 32], 10).unwrap();
    assert_ne!(a.transaction, c.transaction);
    assert_ne!(a.order_id, c.order_id);
}

#[test]
fn open_order_reports_parse_errors_in_order() {
    let b = builder();
    let mut input = open_input(&[4u8; 32], &[5u8; 32], 1);
    input.token_out = "nope".to_string();
    assert_eq!(
        b.build_open_order_transaction(&input, &SPL_TOKEN_PROGRAM_ID, 0, &[0; 32], 0),
        Err(TransactionBuilderError::InvalidAddress("Cannot parse: nope".to_string()))
    );
    input.token_in = "0x00".to_string();
    let r = b.build_open_order_transaction(&input, &SPL_TOKEN_PROGRAM_ID, 0, &[0; 32], 0);
    assert!(matches!(r, Err(TransactionBuilderError::InvalidAddress(m)) if !m.starts_with("Cannot")));
}

fn cancel_input(b: &SvmTransactionBuilder, origin: u32, dest: u32) -> CancelOrderInput {
    let _ = b;
    CancelOrderInput {
        order_id: [9u8; 32],
        version: 1,
        sender: [4u8; 32],
        nonce: 2,
        origin_chain_id: origin,
        dest_chain_id: dest,
        created_at: 100,
        fill_deadline: 200,
        token_in: [5u8; 32],
        token_out: [6u8; 32],
        amount_in: 1_000,
        amount_out: 900,
        recipient: [7u8; 32],
        solver: [8u8; 32],
        caller_address: Pubkey::new_from_array([4u8; 32]).to_string(),
    }
}

#[test]
fn native_cancel_instruction() {
    let b = builder();
    let program = b.program_id();
    let input = cancel_input(&b, CHAIN_ID, CHAIN_ID);
    assert!(b.is_native_cancel(&input));
    assert!(!b.is_native_cancel(&cancel_input(&b, 1, CHAIN_ID)));
    let caller = [3u8; 32];
    let ixs = b.build_cancel_native_instruction(&input, &caller, &TOKEN_2022_PROGRAM_ID).unwrap();
    assert_eq!(ixs.len(), 1);
    let ix = &ixs[0];
    assert_eq!(ix.program_id, program);
    let mut data = CANCEL_NATIVE_ORDER_DISCRIMINATOR.to_vec();
    data.extend_from_slice(&[9u8; 32]);
    assert_eq!(ix.data, data);
    let order_pda = pda(&[b"order", &[9u8; 32]], &program);
    let ata = |w: &[u8; 32]| {
        pda(&[w, &TOKEN_2022_PROGRAM_ID, &[5u8; 32]], &ASSOCIATED_TOKEN_PROGRAM_ID)
    };
    assert_eq!(
        ix.accounts,
        vec![
            AccountMeta::new_readonly(caller, true),
            AccountMeta::new_readonly([4u8; 32], false),
            AccountMeta::new_readonly(pda(&[b"global"], &program), false),
            AccountMeta::new(order_pda, false),
            AccountMeta::new_readonly([5u8; 32], false),
            AccountMeta::new(ata(&[4u8; 32]), false),
            AccountMeta::new(ata(&order_pda), false),
            AccountMeta::new_readonly(TOKEN_2022_PROGRAM_ID, false),
            AccountMeta::new_readonly(pda(&[b"__event_authority"], &program), false),
            AccountMeta::new_readonly(program, false),
        ]
    );
}

#[test]
fn foreign_cancel_instruction() {
    let b = builder();
    let program = b.program_id();
    let input = cancel_input(&b, 1, CHAIN_ID);
    let caller = [3u8; 32];
    let wormhole = vec![AccountMeta::new([12u8; 32], false), AccountMeta::new_readonly([13u8; 32], false)];
    let ix = b.build_cancel_foreign_instruction(&input, &caller, &wormhole).unwrap();
    let portal = pk("MzBrgc8yXBj4P16GTkcSyDZkEQZB9qDqf3fh9bByJce");
    let adapter = pk("mzp1q2j5Hr1QuLC3KFBCAUz5aUckT6qyuZKZ3WJnMmY");
    assert_eq!(ix.accounts.len(), 12);
    assert_eq!(ix.accounts[0], AccountMeta::new(caller, true));
    assert_eq!(ix.accounts[1], AccountMeta::new(pda(&[b"global"], &program), false));
    assert_eq!(ix.accounts[2], AccountMeta::new(pda(&[b"order", &[9u8; 32]], &program), false));
    assert_eq!(ix.accounts[3], AccountMeta::new_readonly(portal, false));
    assert_eq!(ix.accounts[4], AccountMeta::new(pda(&[b"global"], &portal), false));
    assert_eq!(ix.accounts[5], AccountMeta::new_readonly(pda(&[b"authority"], &portal), false));
    assert_eq!(ix.accounts[6], AccountMeta::new_readonly(adapter, false));
    assert_eq!(ix.accounts[7], AccountMeta::new_readonly(SYSTEM_PROGRAM_ID, false));
    assert_eq!(ix.accounts[9], AccountMeta::new_readonly(program, false));
    assert_eq!(&ix.accounts[10..], &wormhole[..]);
    let mut data = CANCEL_FOREIGN_ORDER_DISCRIMINATOR.to_vec();
    data.extend_from_slice(&[9u8; 32]);
    data.extend_from_slice(&1u16.to_le_bytes());
    data.extend_from_slice(&[4u8; 32]);
    data.extend_from_slice(&2u64.to_le_bytes());
    data.extend_from_slice(&1u32.to_le_bytes());
    data.extend_from_slice(&CHAIN_ID.to_le_bytes());
    data.extend_from_slice(&100u64.to_le_bytes());
    data.extend_from_slice(&200u64.to_le_bytes());
    data.extend_from_slice(&[5u8; 32]);
    data.extend_from_slice(&[6u8; 32]);
    data.extend_from_slice(&1_000u128.to_le_bytes());
    data.extend_from_slice(&900u128.to_le_bytes());
    data.extend_from_slice(&[7u8; 32]);
    data.extend_from_slice(&[8u8; 32]);
    assert_eq!(ix.data, data);
}

#[test]
fn cancel_transaction_is_versioned_and_reports_the_order() {
    let b = builder();
    let input = cancel_input(&b, CHAIN_ID, CHAIN_ID);
    let caller = [4u8; 32];
    let ixs = b.build_cancel_native_instruction(&input, &caller, &SPL_TOKEN_PROGRAM_ID).unwrap();
    let mut table = vec![0u8; 56];
    table.extend_from_slice(&b.global_pda().unwrap());
    let r = b.build_cancel_order_transaction(&input, &ixs, &table, &[2u8; 32]).unwrap();
    assert_eq!(r.order_id, format!("0x{}", "09".repeat(32)));
    assert_eq!(r.nonce, 2);
    let tx = base64::engine::general_purpose::STANDARD.decode(&r.transaction).unwrap();
    assert_eq!(tx[0], 1);
    assert_eq!(&tx[1..65], &[0u8; 64][..]);
    assert_eq!(tx[65], 0x80);
    assert_eq!(
        b.build_cancel_order_transaction(&input, &ixs, &[0u8; 10], &[2u8; 32]),
        Err(TransactionBuilderError::AccountParseError)
    );
    let mut bad = input.clone();
    bad.caller_address = "x".to_string();
    assert!(matches!(
        b.build_cancel_order_transaction(&bad, &ixs, &table, &[2u8; 32]),
        Err(TransactionBuilderError::InvalidAddress(_))
    ));
}

#[test]
fn cancel_transaction_with_oversized_instruction_data_is_a_serialization_error() {
    let b = builder();
    let input = cancel_input(&b, CHAIN_ID, CHAIN_ID);
    let caller = [4u8; 32];
    let mut ixs = b.build_cancel_native_instruction(&input, &caller, &SPL_TOKEN_PROGRAM_ID).unwrap();
    ixs[0].data = vec![0u8; 0x10000];
    let mut table = vec![0u8; 56];
    table.extend_from_slice(&b.global_pda().unwrap());
    assert_eq!(
        b.build_cancel_order_transaction(&input, &ixs, &table, &[2u8; 32]),
        Err(TransactionBuilderError::SerializationError("length larger than u16".to_string()))
    );
    ixs[0].data.truncate(0xffff);
    assert!(b.build_cancel_order_transaction(&input, &ixs, &table, &[2u8; 32]).is_ok());
}

#[test]
fn indexer_reads_back_a_built_foreign_cancellation() {
    let b = builder();
    let input = cancel_input(&b, 1, CHAIN_ID);
    let ix = b.build_cancel_foreign_instruction(&input, &[3u8; 32], &vec![]).unwrap();
    let accts: Vec<String> =
        ix.accounts.iter().map(|m| Pubkey::new_from_array(m.pubkey).to_string()).collect();
    let records = decode_instruction(&ix.data, &"tx".to_string(), &accts);
    match records.instruction {
        Some(ProgramInstruction::CancelForeignOrder(p)) => {
            assert_eq!(p.order_id, vec![9u64; 32]);
            let q = p.order_data.unwrap();
            assert_eq!(q.version, 1);
            assert_eq!(q.nonce, 2);
            assert_eq!(q.origin_chain_id, 1);
            assert_eq!(q.dest_chain_id, CHAIN_ID);
            assert_eq!(q.amount_in, 1_000);
            assert_eq!(q.amount_out, 900);
            assert_eq!(q.solver, vec![8u64; 32]);
            assert_eq!(p.acct_signer, Pubkey::new_from_array([3u8; 32]).to_string());
        }
        other => panic!("unexpected {:?}", other),
    }
}

#[test]
fn indexer_reads_back_open_order_parameters() {
    let params = program::OrderParams {
        dest_chain_id: 1,
        created_at: 2,
        fill_deadline: 3,
        token_out: [4u8; 32],
        amount_in: 5,
        amount_out: 6,
        recipient: [7u8; 32],
        solver: [8u8; 32],
    };
    let mut data = OPEN_ORDER_DISCRIMINATOR.to_vec();
    write_order_params(&mut data, &params);
    let accts: Vec<String> = (0..14).map(|i| format!("a{}", i)).collect();
    match decode_instruction(&data, &"tx".to_string(), &accts).instruction {
        Some(ProgramInstruction::OpenOrder(p)) => {
            let q = p.params.unwrap();
            assert_eq!((q.dest_chain_id, q.created_at, q.fill_deadline), (1, 2, 3));
            assert_eq!(q.token_out, vec![4u64; 32]);
            assert_eq!((q.amount_in, q.amount_out), (5, 6));
            assert_eq!(p.acct_program, "a13");
        }
        other => panic!("unexpected {:?}", other),
    }
}
