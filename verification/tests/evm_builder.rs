use m0_orderbook::builder::{
    hex_0x, strip_0x, u256_hex, CancelOrderInput, OpenOrderInput, TransactionBuilderError, U256,
};
use m0_orderbook::evm_builder::{
    bridge_route, encode_relay_instructions, parse_address, parse_bytes32, parse_wormhole_quote,
    portal_bridge_params, wormhole_bridge_params, BridgeRoute, EvmTransactionBuilder,
    DEFAULT_GAS_LIMIT, DEFAULT_MSG_VALUE, SOLANA_DEVNET, SOLANA_MAINNET, WORMHOLE_ADAPTER,
};

const TOKEN: &str = "0x1111111111111111111111111111111111111111";
const SPENDER: &str = "0x2222222222222222222222222222222222222222";
const BOOK: &str = "0xABCDEF0123456789abcdef0123456789ABCDEF01";

fn selector(sig: &str) -> String {
    hex::encode(&alloy::primitives::keccak256(sig.as_bytes()).0[..4])
}

fn word(hex_value: &str) -> String {
    format!("{:0>64}", hex_value)
}

#[test]
fn approve_calldata_is_abi_encoded() {
    let t = EvmTransactionBuilder::build_approve_calldata(TOKEN, SPENDER, 1000).unwrap();
    assert_eq!(t.to, TOKEN);
    assert_eq!(t.value, "0x0");
    assert_eq!(selector("approve(address,uint256)"), "095ea7b3");
    let expected = format!(
        "0x095ea7b3{}{}",
        word("2222222222222222222222222222222222222222"),
        word("3e8")
    );
    assert_eq!(t.data, expected);
}

#[test]
fn approve_rejects_bad_spender() {
    let r = EvmTransactionBuilder::build_approve_calldata(TOKEN, "0x1234", 1);
    assert!(matches!(r, Err(TransactionBuilderError::InvalidAddress(_))));
}

#[test]
fn parse_address_forms() {
    assert_eq!(parse_address(SPENDER).unwrap(), [0x22u8; 20]);
    assert_eq!(parse_address("2222222222222222222222222222222222222222").unwrap(), [0x22u8; 20]);
    assert!(matches!(parse_address("0x22"), Err(TransactionBuilderError::InvalidAddress(_))));
    assert!(matches!(
        parse_address("0xzz22222222222222222222222222222222222222"),
        Err(TransactionBuilderError::InvalidAddress(_))
    ));
}

#[test]
fn builder_new_validates_url_and_address() {
    let b = EvmTransactionBuilder::new("http://localhost:8545".to_string(), BOOK.to_string(), 1)
        .unwrap();
    assert_eq!(b.contract_address_hex(), BOOK.to_lowercase());
    assert_eq!(b.chain_id(), 1);
    let bad_url = EvmTransactionBuilder::new("not a url".to_string(), BOOK.to_string(), 1);
    assert!(matches!(bad_url, Err(TransactionBuilderError::RpcError(m)) if m.starts_with("Invalid RPC URL: ")));
    let bad_addr =
        EvmTransactionBuilder::new("http://localhost:8545".to_string(), "0x1".to_string(), 1);
    assert!(matches!(bad_addr, Err(TransactionBuilderError::InvalidAddress(_))));
}

#[test]
fn relay_instructions_hex() {
    let s = encode_relay_instructions(DEFAULT_GAS_LIMIT, DEFAULT_MSG_VALUE);
    let expected = format!(
        "0x01{:032x}{:032x}",
        750_000u128, 25_000_000u128
    );
    assert_eq!(s, expected);
    assert_eq!(s.len(), 2 + 66);
}

#[test]
fn parse_bytes32_forms() {
    let mut padded = [0u8; 32];
    padded[12..].copy_from_slice(&[0x11; 20]);
    assert_eq!(parse_bytes32(&"11".repeat(20)).unwrap(), padded);
    assert_eq!(parse_bytes32(&format!("0x{}", "11".repeat(20))).unwrap(), padded);
    assert_eq!(parse_bytes32(&format!("0x{}", "ab".repeat(32))).unwrap(), [0xab; 32]);
    let spl = bs58::decode("TokenkegQfeZyiNwAJbNbGKPFXCWuBvf9Ss623VQ5DA").into_vec().unwrap();
    assert_eq!(
        parse_bytes32("TokenkegQfeZyiNwAJbNbGKPFXCWuBvf9Ss623VQ5DA").unwrap().to_vec(),
        spl
    );
    assert_eq!(
        parse_bytes32("2g"),
        Err(TransactionBuilderError::InvalidAddress("Cannot parse: 2g".to_string()))
    );
    assert!(matches!(parse_bytes32("0OIl"), Err(TransactionBuilderError::InvalidAddress(_))));
}

fn open_input(amount_in: u64) -> OpenOrderInput {
    OpenOrderInput {
        sender_address: SPENDER.to_string(),
        token_in: TOKEN.to_string(),
        token_out: format!("0x{}", "33".repeat(32)),
        amount_in,
        amount_out: 990,
        recipient: [0x44; 32],
        solver: [0x55; 32],
        dest_chain_id: 10,
        fill_deadline: 1_700_000_000,
    }
}

#[test]
fn open_order_calldata_and_approval() {
    let b = EvmTransactionBuilder::new("http://localhost:8545".to_string(), BOOK.to_string(), 1)
        .unwrap();
    let enough = U256::from_u128(1000);
    let r = b.build_open_order_calldata(&open_input(1000), 7, enough).unwrap();
    assert!(r.approval_transaction.is_none());
    assert_eq!(r.order_id, None);
    assert_eq!(r.nonce, 7);
    assert_eq!(r.contract_address, BOOK.to_lowercase());
    assert_eq!(r.transaction.to, BOOK.to_lowercase());
    assert_eq!(r.transaction.value, "0x0");
    let sel = selector("openOrder((uint32,uint32,address,bytes32,uint128,uint128,bytes32,bytes32))");
    let expected = format!(
        "0x{}{}{}{}{}{}{}{}{}",
        sel,
        word("a"),
        word(&format!("{:x}", 1_700_000_000u32)),
        word("1111111111111111111111111111111111111111"),
        "33".repeat(32),
        word("3e8"),
        word("3de"),
        "44".repeat(32),
        "55".repeat(32)
    );
    assert_eq!(r.transaction.data, expected);

    let short = U256::from_u128(999);
    let r = b.build_open_order_calldata(&open_input(1000), 7, short).unwrap();
    let approval = r.approval_transaction.unwrap();
    assert_eq!(approval.to, TOKEN);
    assert_eq!(
        approval.data,
        format!(
            "0x095ea7b3{}{}",
            word(&BOOK.to_lowercase()[2..]),
            word(&"f".repeat(32))
        )
    );
    let big = U256 { hi: 1, lo: 0 };
    assert!(b.build_open_order_calldata(&open_input(1000), 7, big).unwrap().approval_transaction.is_none());
}

#[test]
fn open_order_rejects_bad_tokens() {
    let b = EvmTransactionBuilder::new("http://localhost:8545".to_string(), BOOK.to_string(), 1)
        .unwrap();
    let mut input = open_input(1);
    input.token_in = "0x12".to_string();
    assert!(matches!(
        b.build_open_order_calldata(&input, 0, U256::zero()),
        Err(TransactionBuilderError::InvalidAddress(_))
    ));
    let mut input = open_input(1);
    input.token_out = "2g".to_string();
    assert_eq!(
        b.build_open_order_calldata(&input, 0, U256::zero()),
        Err(TransactionBuilderError::InvalidAddress("Cannot parse: 2g".to_string()))
    );
}

fn cancel_input(origin: u32) -> CancelOrderInput {
    CancelOrderInput {
        order_id: [1u8; 32],
        version: 1,
        sender: [2u8; 32],
        nonce: 3,
        origin_chain_id: origin,
        dest_chain_id: 10,
        created_at: 5,
        fill_deadline: 6,
        token_in: [7u8; 32],
        token_out: [8u8; 32],
        amount_in: 9,
        amount_out: 10,
        recipient: [11u8; 32],
        solver: [12u8; 32],
        caller_address: String::new(),
    }
}

#[test]
fn cancel_order_calldata_layout() {
    let b = EvmTransactionBuilder::new("http://localhost:8545".to_string(), BOOK.to_string(), 10)
        .unwrap();
    let bridge = wormhole_bridge_params(vec![0xaa, 0xbb, 0xcc], U256::from_u128(0x1234));
    let t = b.build_cancel_order_calldata(&cancel_input(SOLANA_DEVNET), &bridge);
    assert_eq!(t.to, BOOK.to_lowercase());
    assert_eq!(t.value, "0x1234");
    let sel = selector("cancelOrder(bytes32,(uint16,bytes32,uint64,uint32,uint32,uint64,uint64,bytes32,bytes32,uint128,uint128,bytes32,bytes32),address,bytes)");
    let expected = format!(
        "0x{}{}{}{}{}{}{}{}{}{}{}{}{}{}{}{}{}{}{}{}",
        sel,
        "01".repeat(32),
        word("1"),
        "02".repeat(32),
        word("3"),
        word(&format!("{:x}", SOLANA_DEVNET)),
        word("a"),
        word("5"),
        word("6"),
        "07".repeat(32),
        "08".repeat(32),
        word("9"),
        word("a"),
        "0b".repeat(32),
        "0c".repeat(32),
        word(&hex::encode(WORMHOLE_ADAPTER)),
        word("200"),
        word("3"),
        "aabbcc",
        "00".repeat(29)
    );
    assert_eq!(t.data, expected);
    assert_eq!((t.data.len() - 2 - 8) % 64, 0);

    let portal = portal_bridge_params(U256::zero());
    let t = b.build_cancel_order_calldata(&cancel_input(1), &portal);
    assert_eq!(t.value, "0x0");
    assert!(t.data.ends_with(&format!("{}{}{}", word(""), word("200"), word("0"))));
}

#[test]
fn bridge_routes() {
    assert_eq!(bridge_route(SOLANA_DEVNET), BridgeRoute::Wormhole);
    assert_eq!(bridge_route(SOLANA_MAINNET), BridgeRoute::Wormhole);
    assert_eq!(bridge_route(1), BridgeRoute::Portal);
    let p = portal_bridge_params(U256::from_u128(5));
    assert_eq!(p.adapter, [0u8; 20]);
    assert!(p.adapter_args.is_empty());
    assert_eq!(p.msg_value, U256::from_u128(5));
}

#[test]
fn wormhole_quote_parsing() {
    let (q, c) = parse_wormhole_quote("0xdeadbeef", Some("1000")).unwrap();
    assert_eq!(q, vec![0xde, 0xad, 0xbe, 0xef]);
    assert_eq!(c, U256::from_u128(1000));
    let (q, c) = parse_wormhole_quote("dead", Some("not a number")).unwrap();
    assert_eq!(q, vec![0xde, 0xad]);
    assert_eq!(c, U256::zero());
    let (_, c) = parse_wormhole_quote("", None).unwrap();
    assert_eq!(c, U256::zero());
    assert!(matches!(
        parse_wormhole_quote("0xabc", None),
        Err(TransactionBuilderError::InvalidAddress(_))
    ));
}

#[test]
fn hex_helpers() {
    assert_eq!(hex_0x(&[0x01, 0xab]), "0x01ab");
    assert_eq!(strip_0x("0xabc"), "abc");
    assert_eq!(strip_0x("abc"), "abc");
    assert_eq!(strip_0x("0X12"), "0X12");
    assert_eq!(u256_hex(U256::zero()), "0x0");
    assert_eq!(u256_hex(U256::from_u128(255)), "0xff");
    assert_eq!(u256_hex(U256 { hi: 1, lo: 0 }), format!("0x1{}", "0".repeat(32)));
    assert_eq!(U256::from_u128(7).to_be_bytes()[31], 7);
    assert!(U256::from_u128(7).lt_u128(8));
    assert!(!U256 { hi: 1, lo: 0 }.lt_u128(u128::MAX));
}

#[test]
fn hex_written_bytes32_reads_back() {
    let b: Vec<u8> = (0u8..32).collect();
    let text = hex_0x(&b);
    assert_eq!(parse_bytes32(&text).unwrap().to_vec(), b);
    let a = [0x5au8; 20];
    let mut padded = [0u8; 32];
    padded[12..].copy_from_slice(&a);
    assert_eq!(parse_bytes32(&hex_0x(&a)).unwrap(), padded);
}
