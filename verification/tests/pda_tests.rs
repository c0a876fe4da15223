use lending_sdk::get_obligation_pda_with_args;
use lending_sdk::get_reserves_active;
use lending_sdk::pda;
use lending_sdk::Address;
use lending_sdk::DecodeError;
use lending_sdk::InitObligationArgsModel;
use lending_sdk::KaminoError;
use lending_sdk::KaminoReserve;
use lending_sdk::LastUpdate;
use lending_sdk::ObligationType;
use lending_sdk::Reserve;
use lending_sdk::ReserveCollateral;
use lending_sdk::ReserveConfig;
use lending_sdk::ReserveLiquidity;
use solana_sdk::pubkey::Pubkey;

fn addr(fill: u8) -> Address {
    Address::from_bytes(vec![fill; 32]).unwrap()
}

#[test]
fn derive_is_deterministic() {
    let seeds = vec![b"vault".to_vec(), vec![7; 32]];
    let program = addr(9);
    let (a1, b1) = pda::derive(&seeds, &program).unwrap();
    let (a2, b2) = pda::derive(&seeds, &program).unwrap();
    assert_eq!(a1.as_bytes(), a2.as_bytes());
    assert_eq!(b1, b2);
}

#[test]
fn derive_changes_with_any_seed_byte() {
    let program = addr(9);
    let (a1, _) = pda::derive(&vec![vec![1, 2, 3]], &program).unwrap();
    let (a2, _) = pda::derive(&vec![vec![1, 2, 4]], &program).unwrap();
    assert_ne!(a1.as_bytes(), a2.as_bytes());
}

#[test]
fn derive_matches_solana_sdk() {
    let seeds = vec![b"obligation".to_vec(), vec![5; 32]];
    let program = addr(9);
    let (a, bump) = pda::derive(&seeds, &program).unwrap();

    let pid = Pubkey::new_from_array([9; 32]);
    let (expected, expected_bump) =
        Pubkey::find_program_address(&[b"obligation", &[5; 32]], &pid);
    assert_eq!(a.as_bytes(), &expected.to_bytes().to_vec());
    assert_eq!(bump, expected_bump);
    // A derived address never echoes the program identifier back.
    assert_ne!(a.as_bytes(), program.as_bytes());
}

#[test]
fn derive_rejects_oversized_seeds() {
    let program = addr(9);
    assert!(matches!(
        pda::derive(&vec![vec![1; 33]], &program),
        Err(DecodeError::InvalidSeed)
    ));
    let too_many = vec![vec![1u8]; 16];
    assert!(matches!(pda::derive(&too_many, &program), Err(DecodeError::InvalidSeed)));
}

#[test]
fn obligation_by_type_builds_each_kind() {
    let vanilla = ObligationType::get_obligation_by_type(0, addr(1), addr(2)).unwrap();
    assert!(matches!(vanilla, ObligationType::VanillaObligation { tag: 0, id: 0, .. }));
    let multiply = ObligationType::get_obligation_by_type(1, addr(1), addr(2)).unwrap();
    assert!(matches!(multiply, ObligationType::MultiplyObligation { tag: 1, id: 0, .. }));
    let lending = ObligationType::get_obligation_by_type(2, addr(1), addr(2)).unwrap();
    assert!(matches!(lending, ObligationType::LendingObligation { tag: 3, id: 0, .. }));
    let leverage = ObligationType::get_obligation_by_type(3, addr(1), addr(2)).unwrap();
    assert!(matches!(leverage, ObligationType::LeverageObligation { tag: 2, id: 0, .. }));
    assert!(matches!(
        ObligationType::get_obligation_by_type(4, addr(1), addr(2)),
        Err(KaminoError::InvalidObligationType)
    ));
}

#[test]
fn obligation_args_seed_the_tokens() {
    let args = ObligationType::new_multiply(addr(3), addr(4), addr(9), Some(5)).to_args();
    assert_eq!(args.tag, 1);
    assert_eq!(args.id, 5);
    assert_eq!(args.seed1.as_bytes(), &vec![3u8; 32]);
    assert_eq!(args.seed2.as_bytes(), &vec![4u8; 32]);

    let lending_args = ObligationType::new_lending(addr(6), addr(9), None).to_args();
    assert_eq!(lending_args.tag, 3);
    assert_eq!(lending_args.seed1.as_bytes(), &vec![6u8; 32]);
    assert_eq!(lending_args.seed2.as_bytes(), &vec![6u8; 32]);

    let vanilla_args = ObligationType::new_vanilla(addr(9), None).to_args();
    assert_eq!(vanilla_args.seed1.as_bytes(), &vec![0u8; 32]);
    assert_eq!(vanilla_args.seed2.as_bytes(), &vec![0u8; 32]);
}

#[test]
fn obligation_pda_matches_solana_sdk() {
    let market = addr(40);
    let user = addr(41);
    let program = addr(42);
    let obligation = ObligationType::new_vanilla(
        Address::from_bytes(vec![42; 32]).unwrap(),
        Some(3),
    );
    let (derived, bump) = obligation.to_pda(market, user).unwrap();

    let pid = Pubkey::new_from_array([42; 32]);
    let (expected, expected_bump) = Pubkey::find_program_address(
        &[&[0u8], &[3u8], &[41; 32], &[40; 32], &[0; 32], &[0; 32]],
        &pid,
    );
    assert_eq!(derived.as_bytes(), &expected.to_bytes().to_vec());
    assert_eq!(bump, expected_bump);
}

#[test]
fn obligation_pda_with_args_matches_to_pda() {
    let obligation = ObligationType::new_multiply(addr(3), addr(4), addr(42), None);
    let (a1, b1) = obligation.to_pda(addr(40), addr(41)).unwrap();
    let args = InitObligationArgsModel { tag: 1, id: 0, seed1: addr(3), seed2: addr(4) };
    let (a2, b2) = get_obligation_pda_with_args(addr(40), addr(41), args, &addr(42)).unwrap();
    assert_eq!(a1.as_bytes(), a2.as_bytes());
    assert_eq!(b1, b2);
}

fn reserve_with_status(status: u8) -> KaminoReserve {
    KaminoReserve {
        state: Reserve {
            version: 1,
            last_update: LastUpdate { slot: 0, stale: 0, price_status: 0, placeholder: vec![] },
            lending_market: addr(50),
            farm_collateral: addr(51),
            farm_debt: addr(52),
            liquidity: ReserveLiquidity {
                mint_pubkey: addr(53),
                supply_vault: addr(54),
                fee_vault: addr(55),
                available_amount: 0,
                borrowed_amount_sf: 0,
                market_price_sf: 0,
                market_price_last_updated_ts: 0,
                mint_decimals: 6,
                deposit_limit_crossed_timestamp: 0,
                borrow_limit_crossed_timestamp: 0,
                cumulative_borrow_rate_bsf: vec![],
                accumulated_protocol_fees_sf: 0,
                accumulated_referrer_fees_sf: 0,
                pending_referrer_fees_sf: 0,
                absolute_referral_rate_sf: 0,
                token_program: addr(56),
                padding2: vec![],
                padding3: vec![],
            },
            reserve_liquidity_padding: vec![],
            collateral: ReserveCollateral {
                mint_pubkey: addr(57),
                mint_total_supply: 0,
                supply_vault: addr(58),
                padding1: vec![],
                padding2: vec![],
            },
            reserve_collateral_padding: vec![],
            config: ReserveConfig {
                status,
                asset_tier: 0,
                host_fixed_interest_rate_bps: 0,
                reserved2: vec![],
                protocol_order_execution_fee_pct: 0,
                protocol_take_rate_pct: 0,
                protocol_liquidation_fee_pct: 0,
                loan_to_value_pct: 70,
                liquidation_threshold_pct: 80,
                min_liquidation_bonus_bps: 0,
                max_liquidation_bonus_bps: 0,
                bad_debt_liquidation_bonus_bps: 0,
                deleveraging_margin_call_period_secs: 0,
                deleveraging_threshold_decrease_bps_per_day: 0,
                fees: vec![],
                borrow_rate_curve: vec![],
                borrow_factor_pct: 100,
                deposit_limit: u64::MAX,
                borrow_limit: u64::MAX,
                token_info: vec![],
                deposit_withdrawal_cap: vec![],
                debt_withdrawal_cap: vec![],
                elevation_groups: vec![],
                disable_usage_as_coll_outside_emode: 0,
                utilization_limit_block_borrowing_above_pct: 0,
                autodeleverage_enabled: 0,
                reserved1: vec![],
                borrow_limit_outside_elevation_group: 0,
                borrow_limit_against_this_collateral_in_elevation_group: vec![],
                deleveraging_bonus_increase_bps_per_day: 0,
            },
            config_padding: vec![],
            borrowed_amount_outside_elevation_group: 0,
            borrowed_amounts_against_this_reserve_in_elevation_groups: vec![],
            padding: vec![],
            discriminator: vec![43, 242, 204, 202, 26, 247, 59, 127],
        },
        address: addr(60),
        symbol: format!("R{}", status),
    }
}

#[test]
fn get_reserves_active_keeps_only_status_zero() {
    let reserves =
        vec![reserve_with_status(0), reserve_with_status(1), reserve_with_status(0)];
    let active = get_reserves_active(reserves);
    assert_eq!(active.len(), 2);
    assert_eq!(active[0].symbol, "R0");
    assert_eq!(active[1].symbol, "R0");
    assert!(active.iter().all(|r| r.state.config.status == 0));

    let none_active = get_reserves_active(vec![reserve_with_status(2)]);
    assert!(none_active.is_empty());
}

fn wf_reserve() -> Reserve {
    let mut r = reserve_with_status(0).state;
    r.last_update.placeholder = vec![0; 16];
    r.liquidity.cumulative_borrow_rate_bsf = vec![7; 32];
    r.liquidity.padding2 = vec![0];
    r.liquidity.padding3 = vec![0];
    r.reserve_liquidity_padding = vec![0, 0];
    r.collateral.padding1 = vec![0];
    r.collateral.padding2 = vec![0];
    r.reserve_collateral_padding = vec![0, 0];
    r.config.reserved2 = vec![0, 0];
    r.config.fees = vec![1; 16];
    r.config.borrow_rate_curve = vec![2; 88];
    r.config.token_info = vec![3; 64];
    r.config.deposit_withdrawal_cap = vec![4; 24];
    r.config.debt_withdrawal_cap = vec![5; 24];
    r.config.elevation_groups = vec![1, 2, 3, 4, 5, 6, 7, 8];
    r.config.reserved1 = vec![0];
    r.config.borrow_limit_against_this_collateral_in_elevation_group = vec![10, 20, 30, 40];
    r.config_padding = vec![0, 0];
    r.borrowed_amounts_against_this_reserve_in_elevation_groups = vec![9, 8, 7, 6];
    r.padding = vec![0, 0];
    r.liquidity.available_amount = 123_456_789_012_345_678_901_234_567_890u128;
    r.version = 3;
    r
}

#[test]
fn reserve_round_trip() {
    let reserve = wf_reserve();
    let bytes = reserve.encode();
    assert_eq!(bytes.len(), lending_sdk::RESERVE_SIZE);
    let back = Reserve::from_bytes(&bytes).unwrap();
    assert_eq!(back.version, 3);
    assert_eq!(back.last_update.slot, 0);
    assert_eq!(back.lending_market.as_bytes(), &vec![50u8; 32]);
    assert_eq!(back.liquidity.available_amount, 123_456_789_012_345_678_901_234_567_890u128);
    assert_eq!(back.liquidity.mint_decimals, 6);
    assert_eq!(back.liquidity.cumulative_borrow_rate_bsf, vec![7; 32]);
    assert_eq!(back.collateral.mint_pubkey.as_bytes(), &vec![57u8; 32]);
    assert_eq!(back.config.status, 0);
    assert_eq!(back.config.loan_to_value_pct, 70);
    assert_eq!(back.config.elevation_groups, vec![1, 2, 3, 4, 5, 6, 7, 8]);
    assert_eq!(
        back.config.borrow_limit_against_this_collateral_in_elevation_group,
        vec![10, 20, 30, 40]
    );
    assert_eq!(back.borrowed_amounts_against_this_reserve_in_elevation_groups, vec![9, 8, 7, 6]);
    assert_eq!(back.config.deposit_limit, u64::MAX);
    assert_eq!(back.discriminator, vec![43, 242, 204, 202, 26, 247, 59, 127]);
}

#[test]
fn reserve_decode_paths() {
    let bytes = wf_reserve().encode();
    assert!(matches!(
        Reserve::from_bytes(&bytes[..897]),
        Err(KaminoError::InvalidProgramData)
    ));
    let mut longer = bytes.clone();
    longer.extend_from_slice(&[0xEE; 100]);
    let back = Reserve::from_bytes(&longer).unwrap();
    assert_eq!(back.version, 3);

    let success = lending_sdk::decode(lending_sdk::SchemaKind::Reserve, &bytes).unwrap();
    assert_eq!(success.diagnostics.strategy, lending_sdk::DecodeStrategy::Strict);
    match success.record {
        lending_sdk::DecodedRecord::Reserve(r) => assert_eq!(r.config.liquidation_threshold_pct, 80),
        _ => panic!("expected a reserve record"),
    }
}
