use hyperliquid_bridge::{
    bulk_cancel_requests, is_buy_side, order_terms, parse_account_address, prepare_exchange,
    wallet_address_for_key, ExecutionContext, HyperliquidError, TimeInForce, ALL_ORDERS_OID,
};

const KEY_ONE: &str = "0x0000000000000000000000000000000000000000000000000000000000000001";
const KEY_ONE_ADDRESS: &str = "0x7e5f4552091a69125d5dfcb7b8c2659029395bdf";

fn is_invalid_private_key<T>(r: &Result<T, HyperliquidError>) -> bool {
    matches!(r, Err(HyperliquidError::InvalidPrivateKey { .. }))
}

fn is_invalid_input<T>(r: &Result<T, HyperliquidError>) -> bool {
    matches!(r, Err(HyperliquidError::InvalidInput { .. }))
}

#[test]
fn malformed_keys_are_refused() {
    for key in [
        "",
        "not a key",
        "0x",
        "0z0000000000000000000000000000000000000000000000000000000000000001",
        "0x000000000000000000000000000000000000000000000000000000000000001",
        "0x00000000000000000000000000000000000000000000000000000000000000001",
        "0x000000000000000000000000000000000000000000000000000000000000000g",
    ] {
        assert!(is_invalid_private_key(&wallet_address_for_key(key)), "{key}");
        assert!(is_invalid_private_key(&prepare_exchange(key)), "{key}");
    }
}

#[test]
fn zero_and_out_of_range_scalars_are_refused() {
    let zero = "0x0000000000000000000000000000000000000000000000000000000000000000";
    let order = "0xFFFFFFFFFFFFFFFFFFFFFFFFFFFFFFFEBAAEDCE6AF48A03BBFD25E8CD0364141";
    assert!(is_invalid_private_key(&wallet_address_for_key(zero)));
    assert!(is_invalid_private_key(&wallet_address_for_key(order)));
    let below_order = "FFFFFFFFFFFFFFFFFFFFFFFFFFFFFFFEBAAEDCE6AF48A03BBFD25E8CD0364140";
    assert!(wallet_address_for_key(below_order).is_ok());
}

#[test]
fn wallet_address_is_derived_from_the_key() {
    let a = wallet_address_for_key(KEY_ONE).unwrap();
    assert_eq!(a, KEY_ONE_ADDRESS);
    assert_ne!(a, KEY_ONE);
    let unprefixed = &KEY_ONE[2..];
    assert_eq!(wallet_address_for_key(unprefixed).unwrap(), KEY_ONE_ADDRESS);
}

#[test]
fn wallet_address_is_stable() {
    let (first, _ctx) = prepare_exchange(KEY_ONE).unwrap();
    let (second, _ctx2) = prepare_exchange(KEY_ONE).unwrap();
    assert_eq!(first, second);
    assert_eq!(first, KEY_ONE_ADDRESS);
    assert!(parse_account_address(&first).is_ok());
    assert!(parse_account_address(&wallet_address_for_key(KEY_ONE).unwrap()).is_ok());
}

#[test]
fn malformed_addresses_are_invalid_input() {
    for address in [
        "",
        "0x",
        "hello",
        "0x7e5f4552091a69125d5dfcb7b8c2659029395bd",
        "0x7e5f4552091a69125d5dfcb7b8c2659029395bdf00",
        "0x7e5f4552091a69125d5dfcb7b8c2659029395bdz",
        "7e5f4552091a69125d5dfcb7b8c2659029395bd",
    ] {
        assert!(is_invalid_input(&parse_account_address(address)), "{address}");
    }
}

#[test]
fn well_formed_addresses_are_accepted() {
    let expected: [u8; 20] = [
        0x7e, 0x5f, 0x45, 0x52, 0x09, 0x1a, 0x69, 0x12, 0x5d, 0x5d, 0xfc, 0xb7, 0xb8, 0xc2, 0x65,
        0x90, 0x29, 0x39, 0x5b, 0xdf,
    ];
    assert_eq!(parse_account_address(KEY_ONE_ADDRESS).unwrap(), expected);
    assert_eq!(
        parse_account_address("0X7E5F4552091A69125D5DFCB7B8C2659029395BDF").unwrap(),
        expected
    );
    assert_eq!(parse_account_address("7e5f4552091a69125d5dfcb7b8c2659029395bdf").unwrap(), expected);
    let text = "0x00112233445566778899aabbccddeeff00112233";
    let mut expected_counting = [0u8; 20];
    for i in 0..20 {
        expected_counting[i] = ((i % 16) as u8) * 17;
    }
    assert_eq!(parse_account_address(text).unwrap(), expected_counting);
    assert_ne!(parse_account_address(text).unwrap(), [0u8; 20]);
}

#[test]
fn side_codes() {
    assert!(is_buy_side("B"));
    assert!(!is_buy_side("A"));
    assert!(!is_buy_side("b"));
    assert!(!is_buy_side(""));
    assert!(!is_buy_side("BB"));
    assert!(!is_buy_side("X"));
}

#[test]
fn orders_are_good_till_canceled() {
    let t = order_terms("BTC".to_string(), true, false);
    assert_eq!(t.asset, "BTC");
    assert!(t.is_buy);
    assert!(!t.reduce_only);
    assert_eq!(t.tif, TimeInForce::Gtc);
    assert_eq!(t.tif.venue_code(), "Gtc");
    let s = order_terms("ETH".to_string(), false, true);
    assert_eq!(s.tif, TimeInForce::Gtc);
    assert!(s.reduce_only);
    assert!(!s.is_buy);
}

#[test]
fn time_in_force_codes() {
    assert_eq!(TimeInForce::Alo.venue_code(), "Alo");
    assert_eq!(TimeInForce::Ioc.venue_code(), "Ioc");
    assert_eq!(TimeInForce::Gtc.venue_code(), "Gtc");
}

#[test]
fn bulk_cancel_for_one_asset() {
    let known = vec!["BTC".to_string(), "ETH".to_string()];
    let batch = bulk_cancel_requests(Some("SOL".to_string()), &known);
    assert_eq!(batch.len(), 1);
    assert_eq!(batch[0].asset, "SOL");
    assert_eq!(batch[0].oid, ALL_ORDERS_OID);
    assert_eq!(ALL_ORDERS_OID, 0);
}

#[test]
fn bulk_cancel_for_every_known_asset() {
    let known = vec!["BTC".to_string(), "ETH".to_string(), "SOL".to_string()];
    let batch = bulk_cancel_requests(None, &known);
    assert_eq!(batch.len(), 3);
    for (req, name) in batch.iter().zip(known.iter()) {
        assert_eq!(&req.asset, name);
        assert_eq!(req.oid, 0);
    }
}

#[test]
fn bulk_cancel_with_empty_table_is_empty_batch() {
    let batch = bulk_cancel_requests(None, &Vec::new());
    assert!(batch.is_empty());
}

#[test]
fn error_descriptions() {
    let m = "boom".to_string();
    let cases = [
        (HyperliquidError::InvalidPrivateKey { message: m.clone() }, "Invalid private key: boom"),
        (HyperliquidError::NetworkError { message: m.clone() }, "Network error: boom"),
        (HyperliquidError::ApiError { message: m.clone() }, "API error: boom"),
        (HyperliquidError::InvalidInput { message: m.clone() }, "Invalid input: boom"),
    ];
    for (e, text) in cases {
        assert_eq!(e.describe(), text);
        assert_eq!(e.message(), "boom");
    }
}

#[test]
fn venue_failures_become_api_errors() {
    let ok: Result<u32, String> = Ok(7);
    assert!(matches!(HyperliquidError::from_venue(ok), Ok(7)));
    let err: Result<u32, String> = Err("Insufficient margin".to_string());
    match HyperliquidError::from_venue(err) {
        Err(HyperliquidError::ApiError { message }) => assert_eq!(message, "Insufficient margin"),
        _ => panic!("expected an API error"),
    }
}

#[test]
fn session_setup_failures_become_network_errors() {
    let ok: Result<u32, String> = Ok(3);
    assert!(matches!(HyperliquidError::from_session_setup(ok), Ok(3)));
    let err: Result<u32, String> = Err("connection refused".to_string());
    match HyperliquidError::from_session_setup(err) {
        Err(HyperliquidError::NetworkError { message }) => assert_eq!(message, "connection refused"),
        _ => panic!("expected a network error"),
    }
}

#[test]
fn runner_failure_is_network_error() {
    match ExecutionContext::from_runtime(Err("no threads".to_string())) {
        Err(HyperliquidError::NetworkError { message }) => assert_eq!(message, "no threads"),
        _ => panic!("expected a network error"),
    }
}

#[test]
fn runner_is_created() {
    let ctx = ExecutionContext::new().unwrap();
    assert_eq!(ctx.runtime().block_on(async { 2 + 3 }), 5);
}
