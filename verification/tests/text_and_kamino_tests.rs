use lending_sdk::kamino_market;
use lending_sdk::trim_string;
use lending_sdk::Address;
use lending_sdk::KaminoError;
use lending_sdk::LendingMarketMetadata;
use lending_sdk::SolendError;

fn addr(fill: u8) -> Address {
    Address::from_bytes(vec![fill; 32]).unwrap()
}

#[test]
fn trim_string_strips_zeros() {
    let r = trim_string(vec![0, 0, b'h', b'i', 0, b'!']).unwrap();
    assert_eq!(r, "hi");
}

#[test]
fn trim_string_without_terminator() {
    let r = trim_string(vec![b'a', b'b', b'c']).unwrap();
    assert_eq!(r, "abc");
}

#[test]
fn trim_string_all_zeros_is_empty() {
    let r = trim_string(vec![0, 0, 0]).unwrap();
    assert_eq!(r, "");
}

#[test]
fn trim_string_rejects_invalid_utf8() {
    assert!(matches!(trim_string(vec![0xFF, 0xFE]), Err(SolendError::FailedToParse)));
}

#[test]
fn extract_string_reads_length_prefixed_text() {
    let mut data = 5u64.to_le_bytes().to_vec();
    data.extend_from_slice(b"hello");
    data.extend_from_slice(b"trailing");
    let (s, consumed) = LendingMarketMetadata::extract_string_from_data(&data).unwrap();
    assert_eq!(s, "hello");
    assert_eq!(consumed, 13);
}

#[test]
fn extract_string_rejects_bad_inputs() {
    // Too short for the length prefix.
    assert!(matches!(
        LendingMarketMetadata::extract_string_from_data(&[1, 2, 3]),
        Err(SolendError::FailedToParse)
    ));
    // Declared length exceeds the remaining bytes.
    let mut data = 50u64.to_le_bytes().to_vec();
    data.extend_from_slice(b"short");
    assert!(matches!(
        LendingMarketMetadata::extract_string_from_data(&data),
        Err(SolendError::FailedToParse)
    ));
    // Declared length exceeds the 1024-byte cap.
    let mut data = 2000u64.to_le_bytes().to_vec();
    data.extend_from_slice(&[b'x'; 2000]);
    assert!(matches!(
        LendingMarketMetadata::extract_string_from_data(&data),
        Err(SolendError::FailedToParse)
    ));
    // Invalid UTF-8 payload.
    let mut data = 2u64.to_le_bytes().to_vec();
    data.extend_from_slice(&[0xFF, 0xFE]);
    assert!(matches!(
        LendingMarketMetadata::extract_string_from_data(&data),
        Err(SolendError::FailedToParse)
    ));
}

fn sample_kamino_market() -> kamino_market::LendingMarket {
    kamino_market::LendingMarket {
        version: 2,
        bump_seed: 252,
        lending_market_owner: addr(20),
        lending_market_owner_cache: addr(21),
        quote_currency: {
            let mut q = b"USD".to_vec();
            q.resize(32, 0);
            q
        },
        referral_fee_bps: 150,
        emergency_mode: 0,
        auto_deleverage_enabled: 1,
        borrow_disabled: 0,
        price_refresh_trigger_to_max_age_pct_bits: 0x42A00000,
        liquidation_max_debt_close_factor_pct: 20,
        insolvency_risk_unhealthy_ltv_pct_bits: 0x42C60000,
        min_full_liquidation_value_threshold: 1_000_000,
        max_liquidatable_debt_market_value_at_once: 5_000_000,
        reserved0: 0,
        global_allowed_borrow_value: 10_000_000,
        risk_council: addr(22),
        reserved1: 0,
        elevation_group_padding: 0,
        min_net_value_in_obligation_sf: 77,
        min_value_skip_liquidation_ltv_checks: 88,
        name: {
            let mut n = b"main".to_vec();
            n.resize(32, 0);
            n
        },
        min_value_skip_liquidation_bf_checks: 99,
        min_initial_deposit_amount: 1000,
        obligation_orders_enabled: 1,
        padding2: vec![0; 4],
        padding1: 0,
    }
}

#[test]
fn kamino_market_round_trip() {
    let market = sample_kamino_market();
    let bytes = market.encode();
    assert_eq!(bytes.len(), kamino_market::LENDING_MARKET_SIZE);
    let back = kamino_market::LendingMarket::from_bytes(&bytes).unwrap();
    assert_eq!(back.version, 2);
    assert_eq!(back.bump_seed, 252);
    assert_eq!(back.lending_market_owner.as_bytes(), &vec![20u8; 32]);
    assert_eq!(back.referral_fee_bps, 150);
    assert_eq!(back.auto_deleverage_enabled, 1);
    assert_eq!(back.price_refresh_trigger_to_max_age_pct_bits, 0x42A00000);
    assert_eq!(back.min_full_liquidation_value_threshold, 1_000_000);
    assert_eq!(back.risk_council.as_bytes(), &vec![22u8; 32]);
    assert_eq!(&back.name[..4], b"main");
    assert_eq!(back.min_initial_deposit_amount, 1000);
}

#[test]
fn kamino_market_short_buffer_is_invalid_program_data() {
    assert!(matches!(
        kamino_market::LendingMarket::from_bytes(&[0u8; 271]),
        Err(KaminoError::InvalidProgramData)
    ));
}

#[test]
fn kamino_market_tolerates_trailing_padding() {
    let mut bytes = sample_kamino_market().encode();
    bytes.extend_from_slice(&[0xCC; 64]);
    let back = kamino_market::LendingMarket::from_bytes(&bytes).unwrap();
    assert_eq!(back.bump_seed, 252);
    assert_eq!(back.min_net_value_in_obligation_sf, 77);
}

#[test]
fn kamino_ownership_check() {
    let bytes = sample_kamino_market().encode();
    let owner = addr(30);
    let wrong = addr(31);
    assert!(matches!(
        kamino_market::LendingMarket::from_owned_bytes(&owner, &wrong, &bytes),
        Err(KaminoError::InvalidProgramData)
    ));
    let ok = kamino_market::LendingMarket::from_owned_bytes(&owner, &addr(30), &bytes).unwrap();
    assert_eq!(ok.version, 2);
}

#[test]
fn kamino_error_messages() {
    assert_eq!(KaminoError::InvalidObligationType.message(), "Invalid obligation type passed");
    assert_eq!(KaminoError::FailedToParse.message(), "Failed to parse account data");
}
