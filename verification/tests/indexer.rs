use base64::Engine;
use m0_orderbook::indexer::{data_log_event, instruction_accounts_ok, is_program, map_program_data, BlockInstruction, BlockTransaction, DataLog, PROGRAM_ID, CANCEL_NATIVE_ORDER_DISCRIMINATOR};
use m0_orderbook::layout::{read_order_data, read_order_params, write_order_data, write_order_params, ORDER_DATA_LEN};
use m0_orderbook::program::OrderParams;
use m0_orderbook::indexer::{
    decode_event, empty_data, map_enum_order_status, map_enum_order_type, map_option_order_data,
    record_event, ProgramEvent, ORDER_CANCELLED_EVENT_DISCRIMINATOR,
};
use m0_orderbook::pb::OrderStatusEnum;
use m0_orderbook::program::{OrderData, OrderStatus, OrderType};

#[test]
fn status_names_round_trip() {
    for s in [
        OrderStatusEnum::OrderStatusDoesNotExist,
        OrderStatusEnum::OrderStatusCreated,
        OrderStatusEnum::OrderStatusCancelled,
        OrderStatusEnum::OrderStatusCompleted,
    ] {
        assert_eq!(OrderStatusEnum::from_str_name(s.as_str_name()), Some(s));
    }
    assert_eq!(OrderStatusEnum::OrderStatusCreated.as_str_name(), "ORDER_STATUS_CREATED");
    assert_eq!(OrderStatusEnum::OrderStatusCompleted.number(), 3);
    assert_eq!(OrderStatusEnum::from_str_name("created"), None);
}

#[test]
fn enum_codes() {
    assert_eq!(map_enum_order_status(OrderStatus::DoesNotExist), 0);
    assert_eq!(map_enum_order_status(OrderStatus::Created), 1);
    assert_eq!(map_enum_order_status(OrderStatus::Cancelled), 2);
    assert_eq!(map_enum_order_status(OrderStatus::Completed), 3);
    assert_eq!(map_enum_order_type(OrderType::Native), 0);
    assert_eq!(map_enum_order_type(OrderType::Foreign), 1);
}

#[test]
fn order_data_record_widens_and_truncates() {
    assert!(map_option_order_data(None).is_none());
    let d = OrderData {
        version: 1,
        sender: [2u8; 32],
        nonce: 3,
        origin_chain_id: 4,
        dest_chain_id: 5,
        created_at: 6,
        fill_deadline: 7,
        token_in: [8u8; 32],
        token_out: [9u8; 32],
        amount_in: (1u128 << 64) + 10,
        amount_out: 11,
        recipient: [12u8; 32],
        solver: [13u8; 32],
    };
    let p = map_option_order_data(Some(d)).unwrap();
    assert_eq!(p.version, 1);
    assert_eq!(p.sender, vec![2u64; 32]);
    assert_eq!(p.amount_in, 10);
    assert_eq!(p.amount_out, 11);
    assert_eq!(p.solver, vec![13u64; 32]);
}

#[test]
fn order_cancelled_event_is_decoded_and_recorded() {
    let mut data = ORDER_CANCELLED_EVENT_DISCRIMINATOR.to_vec();
    data.extend_from_slice(&[7u8; 32]);
    let trx = "abc".to_string();
    let e = decode_event(&data, 0, &trx).unwrap();
    match &e {
        ProgramEvent::OrderCancelled(p) => {
            assert_eq!(p.trx_hash, "abc");
            assert_eq!(p.order_id, vec![7u64; 32]);
        }
        other => panic!("unexpected {:?}", other),
    }
    let mut d = empty_data();
    record_event(&mut d, e);
    assert_eq!(d.order_cancelled_event_list.len(), 1);
}

#[test]
fn short_or_unknown_events_are_skipped() {
    let mut data = ORDER_CANCELLED_EVENT_DISCRIMINATOR.to_vec();
    data.extend_from_slice(&[7u8; 31]);
    assert!(decode_event(&data, 0, &"t".to_string()).is_none());
    assert!(decode_event(&[0u8; 40], 0, &"t".to_string()).is_none());
}

#[test]
fn data_logs_carry_events_in_base64() {
    let mut bytes = ORDER_CANCELLED_EVENT_DISCRIMINATOR.to_vec();
    bytes.extend_from_slice(&[5u8; 32]);
    let text = base64::engine::general_purpose::STANDARD.encode(&bytes);
    match data_log_event(&text, &"tx".to_string()) {
        Some(ProgramEvent::OrderCancelled(p)) => assert_eq!(p.order_id, vec![5u64; 32]),
        other => panic!("unexpected {:?}", other),
    }
    let short = base64::engine::general_purpose::STANDARD.encode([1u8, 2, 3]);
    assert!(data_log_event(&short, &"tx".to_string()).is_none());
    assert!(data_log_event("not base64!", &"tx".to_string()).is_none());
    assert!(is_program(PROGRAM_ID));
    assert!(is_program("MzLoYnJ6sF6eeejs4vV95TNmXqS3W4cAtLGKkjT4ZrK"));
    assert!(!is_program("11111111111111111111111111111111"));
}

#[test]
fn instruction_account_counts() {
    let mut data = CANCEL_NATIVE_ORDER_DISCRIMINATOR.to_vec();
    data.extend_from_slice(&[1u8; 32]);
    assert!(instruction_accounts_ok(&data, 10));
    assert!(!instruction_accounts_ok(&data, 9));
    // Arguments too short to read: nothing is recorded, so no account is needed
    assert!(instruction_accounts_ok(&data[..20], 0));
    assert!(instruction_accounts_ok(&[0u8; 8], 0));
}

#[test]
fn stored_order_data_reads_back() {
    let d = OrderData {
        version: 1,
        sender: [2u8; 32],
        nonce: 3,
        origin_chain_id: 4,
        dest_chain_id: 5,
        created_at: 6,
        fill_deadline: 7,
        token_in: [8u8; 32],
        token_out: [9u8; 32],
        amount_in: 10,
        amount_out: 11,
        recipient: [12u8; 32],
        solver: [13u8; 32],
    };
    let mut out = vec![0xffu8; 3];
    write_order_data(&mut out, &d);
    assert_eq!(out.len(), 3 + ORDER_DATA_LEN);
    let back = read_order_data(&out, 3).unwrap();
    assert_eq!(back.nonce, 3);
    assert_eq!(back.created_at, 6);
    assert_eq!(back.token_out, [9u8; 32]);
    assert_eq!(back.amount_out, 11);
    assert_eq!(back.solver, [13u8; 32]);
    assert!(read_order_data(&out, 4).is_none());
}

#[test]
fn stored_order_params_read_back() {
    let p = OrderParams {
        dest_chain_id: 1,
        created_at: 2,
        fill_deadline: 3,
        token_out: [4u8; 32],
        amount_in: 5,
        amount_out: 6,
        recipient: [7u8; 32],
        solver: [8u8; 32],
    };
    let mut out = m0_orderbook::svm_builder::OPEN_ORDER_DISCRIMINATOR.to_vec();
    write_order_params(&mut out, &p);
    let back = read_order_params(&out, 8).unwrap();
    assert_eq!(back.dest_chain_id, 1);
    assert_eq!(back.created_at, 2);
    assert_eq!(back.fill_deadline, 3);
    assert_eq!(back.token_out, [4u8; 32]);
    assert_eq!(back.amount_in, 5);
    assert_eq!(back.amount_out, 6);
    assert_eq!(back.recipient, [7u8; 32]);
    assert_eq!(back.solver, [8u8; 32]);
}

#[test]
fn status_codes_match_schema_numbers() {
    assert_eq!(map_enum_order_status(OrderStatus::DoesNotExist), OrderStatusEnum::OrderStatusDoesNotExist.number());
    assert_eq!(map_enum_order_status(OrderStatus::Created), OrderStatusEnum::OrderStatusCreated.number());
    assert_eq!(map_enum_order_status(OrderStatus::Cancelled), OrderStatusEnum::OrderStatusCancelled.number());
    assert_eq!(map_enum_order_status(OrderStatus::Completed), OrderStatusEnum::OrderStatusCompleted.number());
}

#[test]
fn block_walk_records_program_logs_then_instructions() {
    let mut ev = ORDER_CANCELLED_EVENT_DISCRIMINATOR.to_vec();
    ev.extend_from_slice(&[5u8; 32]);
    let text = base64::engine::general_purpose::STANDARD.encode(&ev);
    let mut ix = CANCEL_NATIVE_ORDER_DISCRIMINATOR.to_vec();
    ix.extend_from_slice(&[6u8; 32]);
    let accounts: Vec<String> = (0..10).map(|i| format!("a{}", i)).collect();
    let txs = vec![
        BlockTransaction {
            id: "t1".to_string(),
            data_logs: vec![
                DataLog { program_id: PROGRAM_ID.to_string(), data: text.clone() },
                DataLog { program_id: "other".to_string(), data: text.clone() },
            ],
            instructions: vec![
                BlockInstruction { program_id: PROGRAM_ID.to_string(), data: ix.clone(), accounts: accounts.clone() },
                BlockInstruction { program_id: "other".to_string(), data: vec![1], accounts: vec![] },
            ],
        },
        BlockTransaction {
            id: "t2".to_string(),
            data_logs: vec![DataLog { program_id: PROGRAM_ID.to_string(), data: text }],
            instructions: vec![],
        },
    ];
    let d = map_program_data(&txs);
    assert_eq!(d.order_cancelled_event_list.len(), 2);
    assert_eq!(d.order_cancelled_event_list[0].trx_hash, "t1");
    assert_eq!(d.order_cancelled_event_list[1].trx_hash, "t2");
    assert_eq!(d.cancel_native_order_instruction_list.len(), 1);
    assert_eq!(d.cancel_native_order_instruction_list[0].order_id, vec![6u64; 32]);
    assert_eq!(d.cancel_native_order_instruction_list[0].acct_program, "a9");
    assert!(d.open_order_instruction_list.is_empty());
}

#[test]
fn block_record_is_its_transactions_records_end_to_end() {
    let mut ev = ORDER_CANCELLED_EVENT_DISCRIMINATOR.to_vec();
    ev.extend_from_slice(&[5u8; 32]);
    let text = base64::engine::general_purpose::STANDARD.encode(&ev);
    let mut ix = CANCEL_NATIVE_ORDER_DISCRIMINATOR.to_vec();
    ix.extend_from_slice(&[6u8; 32]);
    let accounts: Vec<String> = (0..10).map(|i| format!("a{}", i)).collect();
    let t1 = BlockTransaction {
        id: "t1".to_string(),
        data_logs: vec![DataLog { program_id: PROGRAM_ID.to_string(), data: text.clone() }],
        instructions: vec![BlockInstruction { program_id: PROGRAM_ID.to_string(), data: ix, accounts }],
    };
    let t2 = BlockTransaction {
        id: "t2".to_string(),
        data_logs: vec![DataLog { program_id: PROGRAM_ID.to_string(), data: text }],
        instructions: vec![],
    };
    let whole = map_program_data(&vec![t1.clone(), t2.clone()]);
    let d1 = map_program_data(&vec![t1]);
    let d2 = map_program_data(&vec![t2]);
    let mut events = d1.order_cancelled_event_list.clone();
    events.extend(d2.order_cancelled_event_list.clone());
    assert_eq!(whole.order_cancelled_event_list, events);
    let mut cancels = d1.cancel_native_order_instruction_list.clone();
    cancels.extend(d2.cancel_native_order_instruction_list.clone());
    assert_eq!(whole.cancel_native_order_instruction_list, cancels);
    assert_eq!(whole.order_cancelled_event_list.len(), 2);
    assert_eq!(map_program_data(&vec![]), empty_data());
}
