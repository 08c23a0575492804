use bridge_harness::amount::{parse_amount_wire, parse_dec_amount, parse_hex_amount, AssetAmount};
use bridge_harness::coin::{find_coin, Coin};
use bridge_harness::token::{Erc20Token, TokenWireFault};

#[test]
fn zero_is_zero() {
    let z = AssetAmount::zero();
    assert!(z.is_zero());
    assert_eq!(z, AssetAmount::from_u64(0));
}

#[test]
fn from_u64_is_not_zero() {
    let a = AssetAmount::from_u64(7);
    assert!(!a.is_zero());
}

#[test]
fn add_small_amounts() {
    let a = AssetAmount::from_u64(1_000_000);
    let b = AssetAmount::from_u64(100);
    let s = a.checked_add(&b).unwrap();
    assert_eq!(s, AssetAmount::from_u64(1_000_100));
}

#[test]
fn add_carries_across_limbs() {
    let a = AssetAmount::from_u64(u64::MAX);
    let b = AssetAmount::from_u64(1);
    let s = a.checked_add(&b).unwrap();
    assert_eq!(s, AssetAmount { limb0: 0, limb1: 1, limb2: 0, limb3: 0 });
}

#[test]
fn add_overflow_is_none() {
    let max = AssetAmount {
        limb0: u64::MAX,
        limb1: u64::MAX,
        limb2: u64::MAX,
        limb3: u64::MAX,
    };
    let one = AssetAmount::from_u64(1);
    assert!(max.checked_add(&one).is_none());
}

#[test]
fn sub_small_amounts() {
    let a = AssetAmount::from_u64(200);
    let b = AssetAmount::from_u64(95);
    let d = a.checked_sub(&b).unwrap();
    assert_eq!(d, AssetAmount::from_u64(105));
}

#[test]
fn sub_borrows_across_limbs() {
    let a = AssetAmount { limb0: 0, limb1: 1, limb2: 0, limb3: 0 };
    let b = AssetAmount::from_u64(1);
    let d = a.checked_sub(&b).unwrap();
    assert_eq!(d, AssetAmount::from_u64(u64::MAX));
}

#[test]
fn sub_underflow_is_none() {
    let a = AssetAmount::from_u64(5);
    let b = AssetAmount::from_u64(6);
    assert!(a.checked_sub(&b).is_none());
}

#[test]
fn sub_to_zero() {
    let a = AssetAmount::from_u64(42);
    let d = a.checked_sub(&a).unwrap();
    assert!(d.is_zero());
}

#[test]
fn parse_decimal_amount() {
    let a = parse_dec_amount(&b"1000000".to_vec()).unwrap();
    assert_eq!(a, AssetAmount::from_u64(1_000_000));
    assert_eq!(parse_dec_amount(&b"0".to_vec()).unwrap(), AssetAmount::zero());
}

#[test]
fn parse_rejects_non_digits() {
    assert!(parse_dec_amount(&b"".to_vec()).is_none());
    assert!(parse_dec_amount(&b"12a3".to_vec()).is_none());
    assert!(parse_dec_amount(&b"-5".to_vec()).is_none());
}

#[test]
fn parse_largest_representable_amount() {
    let max_dec =
        b"115792089237316195423570985008687907853269984665640564039457584007913129639935";
    let a = parse_dec_amount(&max_dec.to_vec()).unwrap();
    assert_eq!(
        a,
        AssetAmount {
            limb0: u64::MAX,
            limb1: u64::MAX,
            limb2: u64::MAX,
            limb3: u64::MAX,
        }
    );
    let too_big =
        b"115792089237316195423570985008687907853269984665640564039457584007913129639936";
    assert!(parse_dec_amount(&too_big.to_vec()).is_none());
}

#[test]
fn parse_hexadecimal_amount() {
    assert_eq!(
        parse_hex_amount(&b"f4240".to_vec()).unwrap(),
        AssetAmount::from_u64(1_000_000)
    );
    assert_eq!(
        parse_hex_amount(&b"F4240".to_vec()).unwrap(),
        AssetAmount::from_u64(1_000_000)
    );
    assert!(parse_hex_amount(&b"".to_vec()).is_none());
    assert!(parse_hex_amount(&b"12g4".to_vec()).is_none());
}

#[test]
fn parse_wire_amount_both_spellings() {
    assert_eq!(
        parse_amount_wire(&b"1000000".to_vec()).unwrap(),
        AssetAmount::from_u64(1_000_000)
    );
    assert_eq!(
        parse_amount_wire(&b"0xf4240".to_vec()).unwrap(),
        AssetAmount::from_u64(1_000_000)
    );
    // a bare prefix carries no digits
    assert!(parse_amount_wire(&b"0x".to_vec()).is_none());
    // an upper-case prefix is not the wire form
    assert!(parse_amount_wire(&b"0X1".to_vec()).is_none());
}

#[test]
fn token_from_wire() {
    let t = Erc20Token::from_wire(
        &b"1000000".to_vec(),
        "0x0102030405060708090a0b0c0d0e0f1011121314",
    )
    .unwrap();
    assert_eq!(t.amount, AssetAmount::from_u64(1_000_000));
    assert_eq!(
        t.token_contract_address,
        vec![1, 2, 3, 4, 5, 6, 7, 8, 9, 10, 11, 12, 13, 14, 15, 16, 17, 18, 19, 20]
    );
}

#[test]
fn token_from_wire_bad_amount() {
    let e = Erc20Token::from_wire(&b"1_000".to_vec(), "0x0102030405060708090a0b0c0d0e0f1011121314")
        .unwrap_err();
    assert_eq!(e, TokenWireFault::BadAmount);
}

#[test]
fn token_from_wire_bad_address() {
    let e = Erc20Token::from_wire(&b"1000".to_vec(), "zz").unwrap_err();
    assert_eq!(e, TokenWireFault::BadAddress);
}

#[test]
fn token_from_wire_hex_amount() {
    let t = Erc20Token::from_wire(
        &b"0xf4240".to_vec(),
        "0x0102030405060708090a0b0c0d0e0f1011121314",
    )
    .unwrap();
    assert_eq!(t.amount, AssetAmount::from_u64(1_000_000));
}

#[test]
fn token_from_wire_empty_contract_is_zero_address() {
    // the outside parser reads the empty string as the zero address
    let t = Erc20Token::from_wire(&b"1".to_vec(), "").unwrap();
    assert_eq!(t.token_contract_address, vec![0u8; 20]);
}

#[test]
fn coin_has_denom() {
    let c = Coin::new("footoken".to_string(), AssetAmount::from_u64(1));
    assert!(c.has_denom(&"footoken".to_string()));
    assert!(!c.has_denom(&"footoken2".to_string()));
}

#[test]
fn find_coin_first_match() {
    let balances = vec![
        Coin::new("stake".to_string(), AssetAmount::from_u64(10)),
        Coin::new("footoken".to_string(), AssetAmount::from_u64(1_000_100)),
        Coin::new("footoken".to_string(), AssetAmount::from_u64(9)),
    ];
    let found = find_coin(&balances, &"footoken".to_string()).unwrap();
    assert_eq!(found, AssetAmount::from_u64(1_000_100));
}

#[test]
fn find_coin_absent_denom() {
    let balances = vec![Coin::new("stake".to_string(), AssetAmount::from_u64(10))];
    assert!(find_coin(&balances, &"footoken".to_string()).is_none());
}
