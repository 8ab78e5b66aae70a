use m0_orderbook::solver::{
    unix_timestamp_secs, EvmWriter, InventoryManager, OrderCreatedDecision, OrderProcessor,
    BPS_DENOMINATOR,
};

#[test]
fn component_names() {
    assert_eq!(InventoryManager::new().name(), "InventoryManager");
    assert_eq!(EvmWriter::new().name(), "EvmWriter");
    assert_eq!(OrderProcessor::new(10, 5).name(), "OrderProcessor");
}

#[test]
fn passive_components_emit_nothing() {
    assert!(InventoryManager::new().handle_event(1u8).is_empty());
    assert!(EvmWriter::new().handle_event("event").is_empty());
}

#[test]
fn unsupported_assets_are_rejected() {
    let p = OrderProcessor::new(1_000, 50);
    for (a, b) in [(false, true), (true, false), (false, false)] {
        match p.decide_order_created(a, b, 1_000, 900) {
            OrderCreatedDecision::Reject(r) => assert_eq!(r, "Asset not supported"),
            d => panic!("unexpected {:?}", d),
        }
    }
}

#[test]
fn orders_not_covering_the_fee_are_rejected() {
    // 1_000 * (10_000 - 50) / 10_000 = 995
    let p = OrderProcessor::new(1_000, 50);
    match p.decide_order_created(true, true, 1_000, 996) {
        OrderCreatedDecision::Reject(r) => assert_eq!(
            r,
            "Order amount_out 996 does not cover fee-inclusive amount_out 995"
        ),
        d => panic!("unexpected {:?}", d),
    }
}

#[test]
fn accepted_orders_are_held_and_clipped() {
    let p = OrderProcessor::new(500, 50);
    match p.decide_order_created(true, true, 1_000, 995) {
        OrderCreatedDecision::RequestHold(x) => assert_eq!(x, 500),
        d => panic!("unexpected {:?}", d),
    }
    match p.decide_order_created(true, true, 1_000, 400) {
        OrderCreatedDecision::RequestHold(x) => assert_eq!(x, 400),
        d => panic!("unexpected {:?}", d),
    }
    assert_eq!(p.decide_hold_successful(321), 321);
}

#[test]
fn zero_fee_accepts_full_amount() {
    let p = OrderProcessor::new(u128::MAX, 0);
    match p.decide_order_created(true, true, 7, 7) {
        OrderCreatedDecision::RequestHold(x) => assert_eq!(x, 7),
        d => panic!("unexpected {:?}", d),
    }
    assert_eq!(BPS_DENOMINATOR, 10_000);
}

#[test]
fn clock_reads_after_2020() {
    assert!(unix_timestamp_secs().expect("Time went backwards") > 1_577_836_800);
}

#[test]
fn unsupported_assets_are_rejected_whatever_the_amounts() {
    let p = OrderProcessor::new(1_000, 20_000);
    match p.decide_order_created(false, true, u128::MAX, u128::MAX) {
        OrderCreatedDecision::Reject(r) => assert_eq!(r, "Asset not supported"),
        d => panic!("unexpected {:?}", d),
    }
}
