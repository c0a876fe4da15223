use lending_sdk::decode;
use lending_sdk::decode_account;
use lending_sdk::parse_lending_market;
use lending_sdk::parse_lending_market_metadata;
use lending_sdk::Address;
use lending_sdk::DecodeError;
use lending_sdk::DecodeStrategy;
use lending_sdk::DecodedRecord;
use lending_sdk::LendingMarket;
use lending_sdk::LendingMarketMetadata;
use lending_sdk::RateLimiter;
use lending_sdk::RateLimiterConfig;
use lending_sdk::SchemaKind;
use lending_sdk::SolendError;
use lending_sdk::LENDING_MARKET_METADATA_SIZE;
use lending_sdk::LENDING_MARKET_SIZE;
use lending_sdk::RATE_LIMITER_LEN;

fn addr(fill: u8) -> Address {
    Address::from_bytes(vec![fill; 32]).unwrap()
}

fn sample_limiter() -> RateLimiter {
    RateLimiter {
        config: RateLimiterConfig { window_duration: 100, max_outflow: 5_000_000 },
        previous_quantity: 11,
        window_start: 220_033,
        current_quantity: 42,
    }
}

fn sample_market(liquidator: Option<Address>) -> LendingMarket {
    LendingMarket {
        version: 1,
        bump_seed: 254,
        owner: addr(10),
        quote_token_mint: addr(11),
        token_program_id: addr(12),
        oracle_program_id: addr(13),
        switchboard_oracle_program_id: addr(14),
        rate_limiter: sample_limiter(),
        whitelisted_liquidator: liquidator,
        risk_authority: addr(15),
    }
}

#[test]
fn market_round_trip() {
    let market = sample_market(Some(addr(16)));
    let bytes = market.encode();
    assert_eq!(bytes.len(), LENDING_MARKET_SIZE);
    let back = LendingMarket::from_bytes(&bytes).unwrap();
    assert_eq!(back.version, 1);
    assert_eq!(back.bump_seed, 254);
    assert_eq!(back.owner.as_bytes(), &vec![10u8; 32]);
    assert_eq!(back.quote_token_mint.as_bytes(), &vec![11u8; 32]);
    assert_eq!(back.token_program_id.as_bytes(), &vec![12u8; 32]);
    assert_eq!(back.oracle_program_id.as_bytes(), &vec![13u8; 32]);
    assert_eq!(back.switchboard_oracle_program_id.as_bytes(), &vec![14u8; 32]);
    assert_eq!(back.rate_limiter, sample_limiter());
    assert_eq!(back.whitelisted_liquidator.unwrap().as_bytes(), &vec![16u8; 32]);
    assert_eq!(back.risk_authority.as_bytes(), &vec![15u8; 32]);
}

#[test]
fn market_round_trip_without_liquidator() {
    let bytes = sample_market(None).encode();
    let back = LendingMarket::from_bytes(&bytes).unwrap();
    assert!(back.whitelisted_liquidator.is_none());
}

#[test]
fn market_short_buffer_is_insufficient() {
    assert!(matches!(LendingMarket::from_bytes(&[0u8; 100]), Err(SolendError::FailedToParse)));
    assert!(matches!(
        decode(SchemaKind::LendingMarket, &[0u8; 100]),
        Err(DecodeError::InsufficientData)
    ));
    assert!(matches!(
        decode(SchemaKind::LendingMarket, &[]),
        Err(DecodeError::InsufficientData)
    ));
}

#[test]
fn market_truncated_decode_matches_prefix_decode() {
    let mut bytes = sample_market(Some(addr(16))).encode();
    let prefix = bytes.clone();
    bytes.extend_from_slice(&[0xAA; 25]);

    let from_long = decode(SchemaKind::LendingMarket, &bytes).unwrap();
    assert_eq!(from_long.diagnostics.strategy, DecodeStrategy::Truncated);
    assert_eq!(from_long.diagnostics.observed_len, LENDING_MARKET_SIZE + 25);
    assert_eq!(from_long.diagnostics.expected_len, LENDING_MARKET_SIZE);

    let from_prefix = decode(SchemaKind::LendingMarket, &prefix).unwrap();
    assert_eq!(from_prefix.diagnostics.strategy, DecodeStrategy::Strict);

    match (from_long.record, from_prefix.record) {
        (DecodedRecord::Market(a), DecodedRecord::Market(b)) => {
            assert_eq!(a.version, b.version);
            assert_eq!(a.owner.as_bytes(), b.owner.as_bytes());
            assert_eq!(a.rate_limiter, b.rate_limiter);
            assert_eq!(a.risk_authority.as_bytes(), b.risk_authority.as_bytes());
        },
        _ => panic!("expected market records"),
    }
}

#[test]
fn market_drifted_option_tag_decodes_relaxed() {
    let mut bytes = sample_market(Some(addr(16))).encode();
    bytes[218] = 206;
    let success = decode(SchemaKind::LendingMarket, &bytes).unwrap();
    assert_eq!(success.diagnostics.strategy, DecodeStrategy::Relaxed);
    match success.record {
        DecodedRecord::Market(m) => {
            assert_eq!(m.whitelisted_liquidator.unwrap().as_bytes(), &vec![16u8; 32]);
        },
        _ => panic!("expected a market record"),
    }
}

#[test]
fn try_fix_enum_tag_error_reinterprets_tag() {
    let mut bytes = sample_market(Some(addr(16))).encode();
    bytes[218] = 206;
    let fixed = LendingMarket::try_fix_enum_tag_error(&bytes).unwrap();
    assert_eq!(fixed.whitelisted_liquidator.unwrap().as_bytes(), &vec![16u8; 32]);

    let mut longer = sample_market(None).encode();
    longer.push(0);
    assert!(matches!(
        LendingMarket::try_fix_enum_tag_error(&longer),
        Err(SolendError::FailedToParse)
    ));
}

#[test]
fn market_long_buffer_with_bad_tag_is_schema_mismatch() {
    let mut bytes = sample_market(None).encode();
    bytes[218] = 206;
    bytes.push(0);
    assert!(matches!(
        decode(SchemaKind::LendingMarket, &bytes),
        Err(DecodeError::SchemaMismatch)
    ));
    assert!(matches!(LendingMarket::from_bytes(&bytes), Err(SolendError::FailedToParse)));
}

#[test]
fn parse_lending_market_keeps_pubkey() {
    let bytes = sample_market(None).encode();
    let parsed = parse_lending_market(addr(77), &bytes).unwrap();
    assert_eq!(parsed.pubkey.as_bytes(), &vec![77u8; 32]);
    assert_eq!(parsed.info.version, 1);
}

fn sample_metadata() -> LendingMarketMetadata {
    LendingMarketMetadata {
        bump_seed: 255,
        market_name: b"main market".to_vec(),
        market_description: b"primary lending pool".to_vec(),
        market_image_url: b"https://x.test/m".to_vec(),
        lookup_tables: vec![1, 2, 3],
    }
}

#[test]
fn metadata_round_trip() {
    let bytes = sample_metadata().encode();
    assert_eq!(bytes.len(), LENDING_MARKET_METADATA_SIZE);
    let back = LendingMarketMetadata::from_bytes(&bytes).unwrap();
    assert_eq!(back.bump_seed, 255);
    assert_eq!(back.market_name, b"main market".to_vec());
    assert_eq!(back.market_description, b"primary lending pool".to_vec());
    assert_eq!(back.market_image_url, b"https://x.test/m".to_vec());
    assert_eq!(back.lookup_tables, vec![1, 2, 3]);
}

#[test]
fn metadata_short_buffer_is_insufficient() {
    assert!(matches!(
        LendingMarketMetadata::from_bytes(&[0u8; 8]),
        Err(SolendError::FailedToParse)
    ));
    assert!(matches!(
        decode(SchemaKind::LendingMarketMetadata, &[0u8; 110]),
        Err(DecodeError::InsufficientData)
    ));
}

#[test]
fn metadata_bad_length_prefix_decodes_relaxed() {
    let mut bytes = sample_metadata().encode();
    // Corrupt the name length prefix so it exceeds its 24-byte region.
    bytes[8] = 200;
    bytes[9] = 0;
    let success = decode(SchemaKind::LendingMarketMetadata, &bytes).unwrap();
    assert_eq!(success.diagnostics.strategy, DecodeStrategy::Relaxed);
    match success.record {
        DecodedRecord::Metadata(m) => {
            // The relaxed reading takes the zero-padded region up to its
            // first zero byte.
            assert_eq!(m.market_name, b"main market".to_vec());
            assert_eq!(m.market_description, b"primary lending pool".to_vec());
        },
        _ => panic!("expected a metadata record"),
    }
}

#[test]
fn try_manual_deserialize_ignores_prefixes() {
    let mut bytes = sample_metadata().encode();
    bytes[8] = 0xFF;
    bytes[9] = 0xFF;
    let m = LendingMarketMetadata::try_manual_deserialize(&bytes).unwrap();
    assert_eq!(m.bump_seed, 255);
    assert_eq!(m.market_name, b"main market".to_vec());
    assert!(matches!(
        LendingMarketMetadata::try_manual_deserialize(&bytes[..64]),
        Err(SolendError::FailedToParse)
    ));
}

#[test]
fn metadata_truncated_decode() {
    let mut bytes = sample_metadata().encode();
    bytes.extend_from_slice(&[9; 40]);
    let success = decode(SchemaKind::LendingMarketMetadata, &bytes).unwrap();
    assert_eq!(success.diagnostics.strategy, DecodeStrategy::Truncated);
    match success.record {
        DecodedRecord::Metadata(m) => assert_eq!(m.market_name, b"main market".to_vec()),
        _ => panic!("expected a metadata record"),
    }
}

#[test]
fn parse_lending_market_metadata_keeps_pubkey() {
    let bytes = sample_metadata().encode();
    let parsed = parse_lending_market_metadata(addr(5), &bytes).unwrap();
    assert_eq!(parsed.pubkey.as_bytes(), &vec![5u8; 32]);
    assert_eq!(parsed.info.bump_seed, 255);
}

#[test]
fn rate_limiter_decode() {
    let mut bytes = Vec::new();
    sample_limiter().encode_onto(&mut bytes);
    assert_eq!(bytes.len(), RATE_LIMITER_LEN);
    let success = decode(SchemaKind::RateLimiter, &bytes).unwrap();
    assert_eq!(success.diagnostics.strategy, DecodeStrategy::Strict);
    match success.record {
        DecodedRecord::Limiter(l) => assert_eq!(l, sample_limiter()),
        _ => panic!("expected a rate limiter record"),
    }
    assert!(matches!(
        decode(SchemaKind::RateLimiter, &bytes[..40]),
        Err(DecodeError::InsufficientData)
    ));
}

#[test]
fn ownership_is_checked_before_decoding() {
    let bytes = sample_market(None).encode();
    let owner = addr(1);
    let expected = addr(2);
    assert!(matches!(
        decode_account(SchemaKind::LendingMarket, &owner, &expected, &bytes),
        Err(DecodeError::OwnershipMismatch)
    ));
    // Even undecodable bytes fail on ownership first.
    assert!(matches!(
        decode_account(SchemaKind::LendingMarket, &owner, &expected, &[]),
        Err(DecodeError::OwnershipMismatch)
    ));
    let ok = decode_account(SchemaKind::LendingMarket, &owner, &addr(1), &bytes).unwrap();
    assert_eq!(ok.diagnostics.strategy, DecodeStrategy::Strict);
}

#[test]
fn schema_sizes_and_fields() {
    let kinds = [
        SchemaKind::LendingMarket,
        SchemaKind::KaminoLendingMarket,
        SchemaKind::LendingMarketMetadata,
        SchemaKind::RateLimiter,
    ];
    let sizes = [290usize, 272, 111, 56];
    for (kind, size) in kinds.iter().zip(sizes.iter()) {
        assert_eq!(kind.expected_size_bytes(), *size);
        let total: usize = kind.fields().iter().map(|f| f.width).sum();
        assert_eq!(total, *size);
    }
}
