//! Reserve account records: the schema data of the reserve record kind,
//! and the filter that keeps only active reserves.
//!
//! Sub-records whose layout the owning program does not publish field by
//! field (fees, the borrow rate curve, token info, withdrawal caps) are
//! held as fixed-width opaque byte regions.

use crate::address::Address;
use crate::error::KaminoError;
use crate::fields::push_bytes;
use crate::fields::push_u128_le;
use crate::fields::push_u16_le;
use crate::fields::push_u32_array;
use crate::fields::push_u32_le;
use crate::fields::push_u64_array;
use crate::fields::push_u64_le;
use crate::fields::push_u8;
use crate::fields::read_address;
use crate::fields::read_bytes;
use crate::fields::read_u128_le;
use crate::fields::read_u16_le;
use crate::fields::read_u32_array;
use crate::fields::read_u32_le;
use crate::fields::read_u64_array;
use crate::fields::read_u64_le;
use crate::fields::read_u8;
use crate::fields::lemma_u32_seq_round_trip;
use crate::fields::lemma_u64_seq_round_trip;
use crate::fields::spec_u32_seq;
use crate::fields::spec_u32_seq_bytes;
use crate::fields::spec_u64_seq;
use crate::fields::spec_u64_seq_bytes;
use vstd::bytes::lemma_auto_spec_u128_to_from_le_bytes;
use vstd::bytes::lemma_auto_spec_u16_to_from_le_bytes;
use vstd::bytes::lemma_auto_spec_u32_to_from_le_bytes;
use vstd::bytes::lemma_auto_spec_u64_to_from_le_bytes;
use vstd::bytes::spec_u128_from_le_bytes;
use vstd::bytes::spec_u128_to_le_bytes;
use vstd::bytes::spec_u16_from_le_bytes;
use vstd::bytes::spec_u16_to_le_bytes;
use vstd::bytes::spec_u32_from_le_bytes;
use vstd::bytes::spec_u32_to_le_bytes;
use vstd::bytes::spec_u64_from_le_bytes;
use vstd::bytes::spec_u64_to_le_bytes;
use vstd::prelude::*;

verus! {

/// Slot bookkeeping of the last reserve refresh.
#[derive(Debug, Clone)]
pub struct LastUpdate {
    /// Last slot when the reserve was updated.
    pub slot: u64,
    /// Nonzero when the reserve is marked stale.
    pub stale: u32,
    /// Status of the prices used in the last update.
    pub price_status: u32,
    pub placeholder: Vec<u8>,
}

/// The compact slot-and-staleness layout used by older records.
#[derive(Debug, Clone, Copy, PartialEq, Eq, Structural)]
pub struct LastUpdateLayout {
    pub slot: u64,
    pub stale: bool,
}

/// Reserve collateral bookkeeping.
#[derive(Debug, Clone)]
pub struct ReserveCollateral {
    /// Collateral mint address.
    pub mint_pubkey: Address,
    /// Collateral mint supply, used for the exchange rate.
    pub mint_total_supply: u64,
    /// Collateral supply vault address.
    pub supply_vault: Address,
    pub padding1: Vec<u64>,
    pub padding2: Vec<u64>,
}

/// Reserve liquidity bookkeeping. Scaled-fraction sub-records are held as
/// raw bytes.
#[derive(Debug, Clone)]
pub struct ReserveLiquidity {
    /// Liquidity mint address.
    pub mint_pubkey: Address,
    /// Liquidity supply vault address.
    pub supply_vault: Address,
    /// Fee collection vault address.
    pub fee_vault: Address,
    /// Liquidity available, in native units.
    pub available_amount: u128,
    /// Liquidity borrowed, as a scaled fraction.
    pub borrowed_amount_sf: u64,
    /// Market price in the quote currency, as a scaled fraction.
    pub market_price_sf: u64,
    /// Timestamp of the market price.
    pub market_price_last_updated_ts: u32,
    /// Decimals of the liquidity mint.
    pub mint_decimals: u8,
    /// When the deposit limit was last seen crossed, or 0.
    pub deposit_limit_crossed_timestamp: u32,
    /// When the borrow limit was last seen crossed, or 0.
    pub borrow_limit_crossed_timestamp: u32,
    /// Cumulative borrow rate, a raw scaled-fraction record.
    pub cumulative_borrow_rate_bsf: Vec<u8>,
    /// Accumulated protocol fees, as a scaled fraction.
    pub accumulated_protocol_fees_sf: u64,
    /// Accumulated referrer fees, as a scaled fraction.
    pub accumulated_referrer_fees_sf: u64,
    /// Pending referrer fees, as a scaled fraction.
    pub pending_referrer_fees_sf: u64,
    /// Referral rate at the last refresh, as a scaled fraction.
    pub absolute_referral_rate_sf: u64,
    /// Token program of the liquidity mint.
    pub token_program: Address,
    pub padding2: Vec<u64>,
    pub padding3: Vec<u64>,
}

/// Reserve configuration values. Sub-records without a published field
/// layout are held as raw bytes.
#[derive(Debug, Clone)]
pub struct ReserveConfig {
    /// Reserve status: 0 active, 1 obsolete, 2 hidden.
    pub status: u8,
    /// Asset tier: 0 regular, 1 isolated collateral, 2 isolated debt.
    pub asset_tier: u8,
    /// Flat rate that goes to the host, in bps.
    pub host_fixed_interest_rate_bps: u16,
    pub reserved2: Vec<u32>,
    /// Protocol cut of the order execution bonus, as a percentage.
    pub protocol_order_execution_fee_pct: u8,
    /// Protocol share of borrowed interest, as a percentage.
    pub protocol_take_rate_pct: u8,
    /// Protocol cut of the liquidation bonus, as a percentage.
    pub protocol_liquidation_fee_pct: u8,
    /// Target loan-to-value ratio, as a percentage; 0 disables collateral
    /// use.
    pub loan_to_value_pct: u8,
    /// Loan-to-value ratio at which liquidation opens, as a percentage.
    pub liquidation_threshold_pct: u8,
    /// Smallest liquidation bonus, in bps.
    pub min_liquidation_bonus_bps: u16,
    /// Largest liquidation bonus, in bps.
    pub max_liquidation_bonus_bps: u16,
    /// Bad-debt liquidation bonus, in bps.
    pub bad_debt_liquidation_bonus_bps: u16,
    /// Margin call period before deleveraging, in seconds.
    pub deleveraging_margin_call_period_secs: u16,
    /// Deleveraging threshold decrease, in bps per day.
    pub deleveraging_threshold_decrease_bps_per_day: u16,
    /// Program owner fees, a raw sub-record.
    pub fees: Vec<u8>,
    /// Borrow rate curve over utilization, a raw sub-record.
    pub borrow_rate_curve: Vec<u8>,
    /// Borrow factor, as a percentage.
    pub borrow_factor_pct: u8,
    /// Deposit limit in native units; u64::MAX for no limit.
    pub deposit_limit: u64,
    /// Borrow limit; u64::MAX for no limit, 0 to disable borrows.
    pub borrow_limit: u64,
    /// Token info, a raw sub-record.
    pub token_info: Vec<u8>,
    /// Deposit and redeem caps, a raw sub-record.
    pub deposit_withdrawal_cap: Vec<u8>,
    /// Borrow and repay caps, a raw sub-record.
    pub debt_withdrawal_cap: Vec<u8>,
    pub elevation_groups: Vec<u32>,
    pub disable_usage_as_coll_outside_emode: u8,
    /// Utilization percentage above which borrowing is blocked; 0
    /// disables the block.
    pub utilization_limit_block_borrowing_above_pct: u8,
    /// Whether this reserve is subject to auto-deleveraging.
    pub autodeleverage_enabled: u8,
    pub reserved1: Vec<u64>,
    /// Borrow cap outside all elevation groups.
    pub borrow_limit_outside_elevation_group: u64,
    /// Borrow caps against this collateral per elevation group.
    pub borrow_limit_against_this_collateral_in_elevation_group: Vec<u64>,
    /// Deleveraging bonus increase, in bps per day.
    pub deleveraging_bonus_increase_bps_per_day: u16,
}

/// A reserve grouping of identical risk parameters.
#[derive(Debug, Clone)]
pub struct ElevationGroup {
    pub max_liquidation_bonus_bps: u16,
    pub id: u16,
    pub ltv_pct: u32,
    pub liquidation_threshold_pct: u32,
    pub allow_new_loans: u32,
    pub max_reserves_as_collateral: u32,
    pub padding0: u32,
    /// Mandatory debt reserve of this elevation group.
    pub debt_reserve: Address,
    pub padding1: Vec<u64>,
}

/// A reserve account record.
#[derive(Debug, Clone)]
pub struct Reserve {
    pub version: u32,
    /// Last slot when supply and rates were updated.
    pub last_update: LastUpdate,
    /// The market this reserve belongs to.
    pub lending_market: Address,
    pub farm_collateral: Address,
    pub farm_debt: Address,
    /// Liquidity bookkeeping.
    pub liquidity: ReserveLiquidity,
    pub reserve_liquidity_padding: Vec<u32>,
    /// Collateral bookkeeping.
    pub collateral: ReserveCollateral,
    pub reserve_collateral_padding: Vec<u32>,
    /// Configuration values.
    pub config: ReserveConfig,
    pub config_padding: Vec<u32>,
    pub borrowed_amount_outside_elevation_group: u64,
    /// Borrowed amounts against this reserve per elevation group.
    pub borrowed_amounts_against_this_reserve_in_elevation_groups: Vec<u64>,
    pub padding: Vec<u32>,
    /// The record's 8-byte account discriminator.
    pub discriminator: Vec<u8>,
}

/// A reserve together with the account it was read from and its token
/// symbol.
#[derive(Debug, Clone)]
pub struct KaminoReserve {
    pub state: Reserve,
    pub address: Address,
    pub symbol: String,
}

/// The serialized width of a reserve record.
pub const RESERVE_SIZE: usize = 898;

/// Mathematical model of the last-update sub-record.
#[verifier::ext_equal]
pub struct LastUpdateV {
    pub slot: u64,
    pub stale: u32,
    pub price_status: u32,
    pub placeholder: Seq<u8>,
}

impl View for LastUpdate {
    type V = LastUpdateV;

    open spec fn view(&self) -> LastUpdateV {
        LastUpdateV {
            slot: self.slot,
            stale: self.stale,
            price_status: self.price_status,
            placeholder: self.placeholder@,
        }
    }
}

/// Mathematical model of the collateral sub-record.
#[verifier::ext_equal]
pub struct ReserveCollateralV {
    pub mint_pubkey: Seq<u8>,
    pub mint_total_supply: u64,
    pub supply_vault: Seq<u8>,
    pub padding1: Seq<u64>,
    pub padding2: Seq<u64>,
}

impl View for ReserveCollateral {
    type V = ReserveCollateralV;

    open spec fn view(&self) -> ReserveCollateralV {
        ReserveCollateralV {
            mint_pubkey: self.mint_pubkey@,
            mint_total_supply: self.mint_total_supply,
            supply_vault: self.supply_vault@,
            padding1: self.padding1@,
            padding2: self.padding2@,
        }
    }
}

/// Mathematical model of the liquidity sub-record.
#[verifier::ext_equal]
pub struct ReserveLiquidityV {
    pub mint_pubkey: Seq<u8>,
    pub supply_vault: Seq<u8>,
    pub fee_vault: Seq<u8>,
    pub available_amount: u128,
    pub borrowed_amount_sf: u64,
    pub market_price_sf: u64,
    pub market_price_last_updated_ts: u32,
    pub mint_decimals: u8,
    pub deposit_limit_crossed_timestamp: u32,
    pub borrow_limit_crossed_timestamp: u32,
    pub cumulative_borrow_rate_bsf: Seq<u8>,
    pub accumulated_protocol_fees_sf: u64,
    pub accumulated_referrer_fees_sf: u64,
    pub pending_referrer_fees_sf: u64,
    pub absolute_referral_rate_sf: u64,
    pub token_program: Seq<u8>,
    pub padding2: Seq<u64>,
    pub padding3: Seq<u64>,
}

impl View for ReserveLiquidity {
    type V = ReserveLiquidityV;

    open spec fn view(&self) -> ReserveLiquidityV {
        ReserveLiquidityV {
            mint_pubkey: self.mint_pubkey@,
            supply_vault: self.supply_vault@,
            fee_vault: self.fee_vault@,
            available_amount: self.available_amount,
            borrowed_amount_sf: self.borrowed_amount_sf,
            market_price_sf: self.market_price_sf,
            market_price_last_updated_ts: self.market_price_last_updated_ts,
            mint_decimals: self.mint_decimals,
            deposit_limit_crossed_timestamp: self.deposit_limit_crossed_timestamp,
            borrow_limit_crossed_timestamp: self.borrow_limit_crossed_timestamp,
            cumulative_borrow_rate_bsf: self.cumulative_borrow_rate_bsf@,
            accumulated_protocol_fees_sf: self.accumulated_protocol_fees_sf,
            accumulated_referrer_fees_sf: self.accumulated_referrer_fees_sf,
            pending_referrer_fees_sf: self.pending_referrer_fees_sf,
            absolute_referral_rate_sf: self.absolute_referral_rate_sf,
            token_program: self.token_program@,
            padding2: self.padding2@,
            padding3: self.padding3@,
        }
    }
}

/// Mathematical model of the configuration sub-record.
#[verifier::ext_equal]
pub struct ReserveConfigV {
    pub status: u8,
    pub asset_tier: u8,
    pub host_fixed_interest_rate_bps: u16,
    pub reserved2: Seq<u32>,
    pub protocol_order_execution_fee_pct: u8,
    pub protocol_take_rate_pct: u8,
    pub protocol_liquidation_fee_pct: u8,
    pub loan_to_value_pct: u8,
    pub liquidation_threshold_pct: u8,
    pub min_liquidation_bonus_bps: u16,
    pub max_liquidation_bonus_bps: u16,
    pub bad_debt_liquidation_bonus_bps: u16,
    pub deleveraging_margin_call_period_secs: u16,
    pub deleveraging_threshold_decrease_bps_per_day: u16,
    pub fees: Seq<u8>,
    pub borrow_rate_curve: Seq<u8>,
    pub borrow_factor_pct: u8,
    pub deposit_limit: u64,
    pub borrow_limit: u64,
    pub token_info: Seq<u8>,
    pub deposit_withdrawal_cap: Seq<u8>,
    pub debt_withdrawal_cap: Seq<u8>,
    pub elevation_groups: Seq<u32>,
    pub disable_usage_as_coll_outside_emode: u8,
    pub utilization_limit_block_borrowing_above_pct: u8,
    pub autodeleverage_enabled: u8,
    pub reserved1: Seq<u64>,
    pub borrow_limit_outside_elevation_group: u64,
    pub borrow_limit_against_this_collateral_in_elevation_group: Seq<u64>,
    pub deleveraging_bonus_increase_bps_per_day: u16,
}

impl View for ReserveConfig {
    type V = ReserveConfigV;

    open spec fn view(&self) -> ReserveConfigV {
        ReserveConfigV {
            status: self.status,
            asset_tier: self.asset_tier,
            host_fixed_interest_rate_bps: self.host_fixed_interest_rate_bps,
            reserved2: self.reserved2@,
            protocol_order_execution_fee_pct: self.protocol_order_execution_fee_pct,
            protocol_take_rate_pct: self.protocol_take_rate_pct,
            protocol_liquidation_fee_pct: self.protocol_liquidation_fee_pct,
            loan_to_value_pct: self.loan_to_value_pct,
            liquidation_threshold_pct: self.liquidation_threshold_pct,
            min_liquidation_bonus_bps: self.min_liquidation_bonus_bps,
            max_liquidation_bonus_bps: self.max_liquidation_bonus_bps,
            bad_debt_liquidation_bonus_bps: self.bad_debt_liquidation_bonus_bps,
            deleveraging_margin_call_period_secs: self.deleveraging_margin_call_period_secs,
            deleveraging_threshold_decrease_bps_per_day: self.deleveraging_threshold_decrease_bps_per_day,
            fees: self.fees@,
            borrow_rate_curve: self.borrow_rate_curve@,
            borrow_factor_pct: self.borrow_factor_pct,
            deposit_limit: self.deposit_limit,
            borrow_limit: self.borrow_limit,
            token_info: self.token_info@,
            deposit_withdrawal_cap: self.deposit_withdrawal_cap@,
            debt_withdrawal_cap: self.debt_withdrawal_cap@,
            elevation_groups: self.elevation_groups@,
            disable_usage_as_coll_outside_emode: self.disable_usage_as_coll_outside_emode,
            utilization_limit_block_borrowing_above_pct: self.utilization_limit_block_borrowing_above_pct,
            autodeleverage_enabled: self.autodeleverage_enabled,
            reserved1: self.reserved1@,
            borrow_limit_outside_elevation_group: self.borrow_limit_outside_elevation_group,
            borrow_limit_against_this_collateral_in_elevation_group: self.borrow_limit_against_this_collateral_in_elevation_group@,
            deleveraging_bonus_increase_bps_per_day: self.deleveraging_bonus_increase_bps_per_day,
        }
    }
}

/// Mathematical model of a reserve record.
#[verifier::ext_equal]
pub struct ReserveV {
    pub version: u32,
    pub last_update: LastUpdateV,
    pub lending_market: Seq<u8>,
    pub farm_collateral: Seq<u8>,
    pub farm_debt: Seq<u8>,
    pub liquidity: ReserveLiquidityV,
    pub reserve_liquidity_padding: Seq<u32>,
    pub collateral: ReserveCollateralV,
    pub reserve_collateral_padding: Seq<u32>,
    pub config: ReserveConfigV,
    pub config_padding: Seq<u32>,
    pub borrowed_amount_outside_elevation_group: u64,
    pub borrowed_amounts_against_this_reserve_in_elevation_groups: Seq<u64>,
    pub padding: Seq<u32>,
    pub discriminator: Seq<u8>,
}

impl View for Reserve {
    type V = ReserveV;

    open spec fn view(&self) -> ReserveV {
        ReserveV {
            version: self.version,
            last_update: self.last_update@,
            lending_market: self.lending_market@,
            farm_collateral: self.farm_collateral@,
            farm_debt: self.farm_debt@,
            liquidity: self.liquidity@,
            reserve_liquidity_padding: self.reserve_liquidity_padding@,
            collateral: self.collateral@,
            reserve_collateral_padding: self.reserve_collateral_padding@,
            config: self.config@,
            config_padding: self.config_padding@,
            borrowed_amount_outside_elevation_group: self.borrowed_amount_outside_elevation_group,
            borrowed_amounts_against_this_reserve_in_elevation_groups: self.borrowed_amounts_against_this_reserve_in_elevation_groups@,
            padding: self.padding@,
            discriminator: self.discriminator@,
        }
    }
}

impl ReserveV {
    /// Every address holds 32 bytes and every region or value array its
    /// fixed width.
    pub open spec fn wf(&self) -> bool {
        &&& self.last_update.placeholder.len() == 16
        &&& self.lending_market.len() == 32
        &&& self.farm_collateral.len() == 32
        &&& self.farm_debt.len() == 32
        &&& self.liquidity.mint_pubkey.len() == 32
        &&& self.liquidity.supply_vault.len() == 32
        &&& self.liquidity.fee_vault.len() == 32
        &&& self.liquidity.cumulative_borrow_rate_bsf.len() == 32
        &&& self.liquidity.token_program.len() == 32
        &&& self.liquidity.padding2.len() == 1
        &&& self.liquidity.padding3.len() == 1
        &&& self.reserve_liquidity_padding.len() == 2
        &&& self.collateral.mint_pubkey.len() == 32
        &&& self.collateral.supply_vault.len() == 32
        &&& self.collateral.padding1.len() == 1
        &&& self.collateral.padding2.len() == 1
        &&& self.reserve_collateral_padding.len() == 2
        &&& self.config.reserved2.len() == 2
        &&& self.config.fees.len() == 16
        &&& self.config.borrow_rate_curve.len() == 88
        &&& self.config.token_info.len() == 64
        &&& self.config.deposit_withdrawal_cap.len() == 24
        &&& self.config.debt_withdrawal_cap.len() == 24
        &&& self.config.elevation_groups.len() == 8
        &&& self.config.reserved1.len() == 1
        &&& self.config.borrow_limit_against_this_collateral_in_elevation_group.len() == 4
        &&& self.config_padding.len() == 2
        &&& self.borrowed_amounts_against_this_reserve_in_elevation_groups.len() == 4
        &&& self.padding.len() == 2
        &&& self.discriminator.len() == 8
    }
}

/// The last-update sub-record held in the 32-byte block `b`.
pub open spec fn spec_last_update_of(b: Seq<u8>) -> LastUpdateV {
    LastUpdateV {
        slot: spec_u64_from_le_bytes(b.subrange(0, 8)),
        stale: spec_u32_from_le_bytes(b.subrange(8, 12)),
        price_status: spec_u32_from_le_bytes(b.subrange(12, 16)),
        placeholder: b.subrange(16, 32),
    }
}

/// The liquidity sub-record held in the 253-byte block `b`.
pub open spec fn spec_liquidity_of(b: Seq<u8>) -> ReserveLiquidityV {
    ReserveLiquidityV {
        mint_pubkey: b.subrange(0, 32),
        supply_vault: b.subrange(32, 64),
        fee_vault: b.subrange(64, 96),
        available_amount: spec_u128_from_le_bytes(b.subrange(96, 112)),
        borrowed_amount_sf: spec_u64_from_le_bytes(b.subrange(112, 120)),
        market_price_sf: spec_u64_from_le_bytes(b.subrange(120, 128)),
        market_price_last_updated_ts: spec_u32_from_le_bytes(b.subrange(128, 132)),
        mint_decimals: b[132],
        deposit_limit_crossed_timestamp: spec_u32_from_le_bytes(b.subrange(133, 137)),
        borrow_limit_crossed_timestamp: spec_u32_from_le_bytes(b.subrange(137, 141)),
        cumulative_borrow_rate_bsf: b.subrange(141, 173),
        accumulated_protocol_fees_sf: spec_u64_from_le_bytes(b.subrange(173, 181)),
        accumulated_referrer_fees_sf: spec_u64_from_le_bytes(b.subrange(181, 189)),
        pending_referrer_fees_sf: spec_u64_from_le_bytes(b.subrange(189, 197)),
        absolute_referral_rate_sf: spec_u64_from_le_bytes(b.subrange(197, 205)),
        token_program: b.subrange(205, 237),
        padding2: spec_u64_seq(b.subrange(237, 245), 1),
        padding3: spec_u64_seq(b.subrange(245, 253), 1),
    }
}

/// The collateral sub-record held in the 88-byte block `b`.
pub open spec fn spec_collateral_of(b: Seq<u8>) -> ReserveCollateralV {
    ReserveCollateralV {
        mint_pubkey: b.subrange(0, 32),
        mint_total_supply: spec_u64_from_le_bytes(b.subrange(32, 40)),
        supply_vault: b.subrange(40, 72),
        padding1: spec_u64_seq(b.subrange(72, 80), 1),
        padding2: spec_u64_seq(b.subrange(80, 88), 1),
    }
}

/// The configuration sub-record held in the 345-byte block `b`.
pub open spec fn spec_config_of(b: Seq<u8>) -> ReserveConfigV {
    ReserveConfigV {
        status: b[0],
        asset_tier: b[1],
        host_fixed_interest_rate_bps: spec_u16_from_le_bytes(b.subrange(2, 4)),
        reserved2: spec_u32_seq(b.subrange(4, 12), 2),
        protocol_order_execution_fee_pct: b[12],
        protocol_take_rate_pct: b[13],
        protocol_liquidation_fee_pct: b[14],
        loan_to_value_pct: b[15],
        liquidation_threshold_pct: b[16],
        min_liquidation_bonus_bps: spec_u16_from_le_bytes(b.subrange(17, 19)),
        max_liquidation_bonus_bps: spec_u16_from_le_bytes(b.subrange(19, 21)),
        bad_debt_liquidation_bonus_bps: spec_u16_from_le_bytes(b.subrange(21, 23)),
        deleveraging_margin_call_period_secs: spec_u16_from_le_bytes(b.subrange(23, 25)),
        deleveraging_threshold_decrease_bps_per_day: spec_u16_from_le_bytes(b.subrange(25, 27)),
        fees: b.subrange(27, 43),
        borrow_rate_curve: b.subrange(43, 131),
        borrow_factor_pct: b[131],
        deposit_limit: spec_u64_from_le_bytes(b.subrange(132, 140)),
        borrow_limit: spec_u64_from_le_bytes(b.subrange(140, 148)),
        token_info: b.subrange(148, 212),
        deposit_withdrawal_cap: b.subrange(212, 236),
        debt_withdrawal_cap: b.subrange(236, 260),
        elevation_groups: spec_u32_seq(b.subrange(260, 292), 8),
        disable_usage_as_coll_outside_emode: b[292],
        utilization_limit_block_borrowing_above_pct: b[293],
        autodeleverage_enabled: b[294],
        reserved1: spec_u64_seq(b.subrange(295, 303), 1),
        borrow_limit_outside_elevation_group: spec_u64_from_le_bytes(b.subrange(303, 311)),
        borrow_limit_against_this_collateral_in_elevation_group: spec_u64_seq(
            b.subrange(311, 343),
            4,
        ),
        deleveraging_bonus_increase_bps_per_day: spec_u16_from_le_bytes(b.subrange(343, 345)),
    }
}

/// The reserve record held in the first 898 bytes of `b`.
pub open spec fn spec_reserve_of(b: Seq<u8>) -> ReserveV {
    ReserveV {
        version: spec_u32_from_le_bytes(b.subrange(0, 4)),
        last_update: spec_last_update_of(b.subrange(4, 36)),
        lending_market: b.subrange(36, 68),
        farm_collateral: b.subrange(68, 100),
        farm_debt: b.subrange(100, 132),
        liquidity: spec_liquidity_of(b.subrange(132, 385)),
        reserve_liquidity_padding: spec_u32_seq(b.subrange(385, 393), 2),
        collateral: spec_collateral_of(b.subrange(393, 481)),
        reserve_collateral_padding: spec_u32_seq(b.subrange(481, 489), 2),
        config: spec_config_of(b.subrange(489, 834)),
        config_padding: spec_u32_seq(b.subrange(834, 842), 2),
        borrowed_amount_outside_elevation_group: spec_u64_from_le_bytes(b.subrange(842, 850)),
        borrowed_amounts_against_this_reserve_in_elevation_groups: spec_u64_seq(
            b.subrange(850, 882),
            4,
        ),
        padding: spec_u32_seq(b.subrange(882, 890), 2),
        discriminator: b.subrange(890, 898),
    }
}

/// The canonical 32-byte encoding of the last-update sub-record.
pub open spec fn spec_last_update_bytes(v: LastUpdateV) -> Seq<u8> {
    spec_u64_to_le_bytes(v.slot) + spec_u32_to_le_bytes(v.stale) + spec_u32_to_le_bytes(
        v.price_status,
    ) + v.placeholder
}

/// The canonical 253-byte encoding of the liquidity sub-record.
pub open spec fn spec_liquidity_bytes(v: ReserveLiquidityV) -> Seq<u8> {
    v.mint_pubkey + v.supply_vault + v.fee_vault + spec_u128_to_le_bytes(v.available_amount)
        + spec_u64_to_le_bytes(v.borrowed_amount_sf) + spec_u64_to_le_bytes(v.market_price_sf)
        + spec_u32_to_le_bytes(v.market_price_last_updated_ts) + seq![v.mint_decimals]
        + spec_u32_to_le_bytes(v.deposit_limit_crossed_timestamp) + spec_u32_to_le_bytes(
        v.borrow_limit_crossed_timestamp,
    ) + v.cumulative_borrow_rate_bsf + spec_u64_to_le_bytes(v.accumulated_protocol_fees_sf)
        + spec_u64_to_le_bytes(v.accumulated_referrer_fees_sf) + spec_u64_to_le_bytes(
        v.pending_referrer_fees_sf,
    ) + spec_u64_to_le_bytes(v.absolute_referral_rate_sf) + v.token_program + spec_u64_seq_bytes(
        v.padding2,
    ) + spec_u64_seq_bytes(v.padding3)
}

/// The canonical 88-byte encoding of the collateral sub-record.
pub open spec fn spec_collateral_bytes(v: ReserveCollateralV) -> Seq<u8> {
    v.mint_pubkey + spec_u64_to_le_bytes(v.mint_total_supply) + v.supply_vault
        + spec_u64_seq_bytes(v.padding1) + spec_u64_seq_bytes(v.padding2)
}

/// The canonical 345-byte encoding of the configuration sub-record.
pub open spec fn spec_config_bytes(v: ReserveConfigV) -> Seq<u8> {
    seq![v.status, v.asset_tier] + spec_u16_to_le_bytes(v.host_fixed_interest_rate_bps)
        + spec_u32_seq_bytes(v.reserved2) + seq![
        v.protocol_order_execution_fee_pct,
        v.protocol_take_rate_pct,
        v.protocol_liquidation_fee_pct,
        v.loan_to_value_pct,
        v.liquidation_threshold_pct,
    ] + spec_u16_to_le_bytes(v.min_liquidation_bonus_bps) + spec_u16_to_le_bytes(
        v.max_liquidation_bonus_bps,
    ) + spec_u16_to_le_bytes(v.bad_debt_liquidation_bonus_bps) + spec_u16_to_le_bytes(
        v.deleveraging_margin_call_period_secs,
    ) + spec_u16_to_le_bytes(v.deleveraging_threshold_decrease_bps_per_day) + v.fees
        + v.borrow_rate_curve + seq![v.borrow_factor_pct] + spec_u64_to_le_bytes(v.deposit_limit)
        + spec_u64_to_le_bytes(v.borrow_limit) + v.token_info + v.deposit_withdrawal_cap
        + v.debt_withdrawal_cap + spec_u32_seq_bytes(v.elevation_groups) + seq![
        v.disable_usage_as_coll_outside_emode,
        v.utilization_limit_block_borrowing_above_pct,
        v.autodeleverage_enabled,
    ] + spec_u64_seq_bytes(v.reserved1) + spec_u64_to_le_bytes(
        v.borrow_limit_outside_elevation_group,
    ) + spec_u64_seq_bytes(v.borrow_limit_against_this_collateral_in_elevation_group)
        + spec_u16_to_le_bytes(v.deleveraging_bonus_increase_bps_per_day)
}

/// The canonical 898-byte encoding of a reserve record.
pub open spec fn spec_reserve_bytes(v: ReserveV) -> Seq<u8> {
    spec_u32_to_le_bytes(v.version) + spec_last_update_bytes(v.last_update) + v.lending_market
        + v.farm_collateral + v.farm_debt + spec_liquidity_bytes(v.liquidity) + spec_u32_seq_bytes(
        v.reserve_liquidity_padding,
    ) + spec_collateral_bytes(v.collateral) + spec_u32_seq_bytes(v.reserve_collateral_padding)
        + spec_config_bytes(v.config) + spec_u32_seq_bytes(v.config_padding) + spec_u64_to_le_bytes(
        v.borrowed_amount_outside_elevation_group,
    ) + spec_u64_seq_bytes(v.borrowed_amounts_against_this_reserve_in_elevation_groups)
        + spec_u32_seq_bytes(v.padding) + v.discriminator
}

/// The decoder's outcome on arbitrary bytes: buffers shorter than the
/// record are rejected as invalid program data; every other buffer decodes
/// from its 898-byte prefix.
pub open spec fn spec_reserve_from_bytes(b: Seq<u8>) -> Result<ReserveV, KaminoError> {
    if b.len() < 898 {
        Err(KaminoError::InvalidProgramData)
    } else {
        Ok(spec_reserve_of(b.subrange(0, 898)))
    }
}

/// Reads the last-update sub-record stored at `off`.
fn decode_last_update(data: &[u8], off: usize) -> (r: LastUpdate)
    requires
        off + 32 <= data@.len(),
    ensures
        r@ == spec_last_update_of(data@.subrange(off as int, off + 32)),
{
    let _len = data.len();
    let ghost b = data@.subrange(off as int, off + 32);
    proof {
        assert(data@.subrange(off as int, off + 8) =~= b.subrange(0, 8));
        assert(data@.subrange(off + 8, off + 12) =~= b.subrange(8, 12));
        assert(data@.subrange(off + 12, off + 16) =~= b.subrange(12, 16));
        assert(data@.subrange(off + 16, off + 32) =~= b.subrange(16, 32));
    }
    LastUpdate {
        slot: read_u64_le(data, off),
        stale: read_u32_le(data, off + 8),
        price_status: read_u32_le(data, off + 12),
        placeholder: read_bytes(data, off + 16, 16),
    }
}

/// Reads the liquidity sub-record stored at `off`.
fn decode_liquidity(data: &[u8], off: usize) -> (r: ReserveLiquidity)
    requires
        off + 253 <= data@.len(),
    ensures
        r@ == spec_liquidity_of(data@.subrange(off as int, off + 253)),
{
    let _len = data.len();
    let ghost b = data@.subrange(off as int, off + 253);
    proof {
        assert(data@.subrange(off as int, off + 32) =~= b.subrange(0, 32));
        assert(data@.subrange(off + 32, off + 64) =~= b.subrange(32, 64));
        assert(data@.subrange(off + 64, off + 96) =~= b.subrange(64, 96));
        assert(data@.subrange(off + 96, off + 112) =~= b.subrange(96, 112));
        assert(data@.subrange(off + 112, off + 120) =~= b.subrange(112, 120));
        assert(data@.subrange(off + 120, off + 128) =~= b.subrange(120, 128));
        assert(data@.subrange(off + 128, off + 132) =~= b.subrange(128, 132));
        assert(data@[off + 132] == b[132]);
        assert(data@.subrange(off + 133, off + 137) =~= b.subrange(133, 137));
        assert(data@.subrange(off + 137, off + 141) =~= b.subrange(137, 141));
        assert(data@.subrange(off + 141, off + 173) =~= b.subrange(141, 173));
        assert(data@.subrange(off + 173, off + 181) =~= b.subrange(173, 181));
        assert(data@.subrange(off + 181, off + 189) =~= b.subrange(181, 189));
        assert(data@.subrange(off + 189, off + 197) =~= b.subrange(189, 197));
        assert(data@.subrange(off + 197, off + 205) =~= b.subrange(197, 205));
        assert(data@.subrange(off + 205, off + 237) =~= b.subrange(205, 237));
        assert(data@.subrange(off + 237, off + 245) =~= b.subrange(237, 245));
        assert(data@.subrange(off + 245, off + 253) =~= b.subrange(245, 253));
    }
    ReserveLiquidity {
        mint_pubkey: read_address(data, off),
        supply_vault: read_address(data, off + 32),
        fee_vault: read_address(data, off + 64),
        available_amount: read_u128_le(data, off + 96),
        borrowed_amount_sf: read_u64_le(data, off + 112),
        market_price_sf: read_u64_le(data, off + 120),
        market_price_last_updated_ts: read_u32_le(data, off + 128),
        mint_decimals: read_u8(data, off + 132),
        deposit_limit_crossed_timestamp: read_u32_le(data, off + 133),
        borrow_limit_crossed_timestamp: read_u32_le(data, off + 137),
        cumulative_borrow_rate_bsf: read_bytes(data, off + 141, 32),
        accumulated_protocol_fees_sf: read_u64_le(data, off + 173),
        accumulated_referrer_fees_sf: read_u64_le(data, off + 181),
        pending_referrer_fees_sf: read_u64_le(data, off + 189),
        absolute_referral_rate_sf: read_u64_le(data, off + 197),
        token_program: read_address(data, off + 205),
        padding2: read_u64_array(data, off + 237, 1),
        padding3: read_u64_array(data, off + 245, 1),
    }
}

/// Reads the collateral sub-record stored at `off`.
fn decode_collateral(data: &[u8], off: usize) -> (r: ReserveCollateral)
    requires
        off + 88 <= data@.len(),
    ensures
        r@ == spec_collateral_of(data@.subrange(off as int, off + 88)),
{
    let _len = data.len();
    let ghost b = data@.subrange(off as int, off + 88);
    proof {
        assert(data@.subrange(off as int, off + 32) =~= b.subrange(0, 32));
        assert(data@.subrange(off + 32, off + 40) =~= b.subrange(32, 40));
        assert(data@.subrange(off + 40, off + 72) =~= b.subrange(40, 72));
        assert(data@.subrange(off + 72, off + 80) =~= b.subrange(72, 80));
        assert(data@.subrange(off + 80, off + 88) =~= b.subrange(80, 88));
    }
    ReserveCollateral {
        mint_pubkey: read_address(data, off),
        mint_total_supply: read_u64_le(data, off + 32),
        supply_vault: read_address(data, off + 40),
        padding1: read_u64_array(data, off + 72, 1),
        padding2: read_u64_array(data, off + 80, 1),
    }
}

/// Reads the configuration sub-record stored at `off`.
fn decode_config(data: &[u8], off: usize) -> (r: ReserveConfig)
    requires
        off + 345 <= data@.len(),
    ensures
        r@ == spec_config_of(data@.subrange(off as int, off + 345)),
{
    let _len = data.len();
    let ghost b = data@.subrange(off as int, off + 345);
    proof {
        assert(data@[off as int] == b[0]);
        assert(data@[off + 1] == b[1]);
        assert(data@.subrange(off + 2, off + 4) =~= b.subrange(2, 4));
        assert(data@.subrange(off + 4, off + 12) =~= b.subrange(4, 12));
        assert(data@[off + 12] == b[12]);
        assert(data@[off + 13] == b[13]);
        assert(data@[off + 14] == b[14]);
        assert(data@[off + 15] == b[15]);
        assert(data@[off + 16] == b[16]);
        assert(data@.subrange(off + 17, off + 19) =~= b.subrange(17, 19));
        assert(data@.subrange(off + 19, off + 21) =~= b.subrange(19, 21));
        assert(data@.subrange(off + 21, off + 23) =~= b.subrange(21, 23));
        assert(data@.subrange(off + 23, off + 25) =~= b.subrange(23, 25));
        assert(data@.subrange(off + 25, off + 27) =~= b.subrange(25, 27));
        assert(data@.subrange(off + 27, off + 43) =~= b.subrange(27, 43));
        assert(data@.subrange(off + 43, off + 131) =~= b.subrange(43, 131));
        assert(data@[off + 131] == b[131]);
        assert(data@.subrange(off + 132, off + 140) =~= b.subrange(132, 140));
        assert(data@.subrange(off + 140, off + 148) =~= b.subrange(140, 148));
        assert(data@.subrange(off + 148, off + 212) =~= b.subrange(148, 212));
        assert(data@.subrange(off + 212, off + 236) =~= b.subrange(212, 236));
        assert(data@.subrange(off + 236, off + 260) =~= b.subrange(236, 260));
        assert(data@.subrange(off + 260, off + 292) =~= b.subrange(260, 292));
        assert(data@[off + 292] == b[292]);
        assert(data@[off + 293] == b[293]);
        assert(data@[off + 294] == b[294]);
        assert(data@.subrange(off + 295, off + 303) =~= b.subrange(295, 303));
        assert(data@.subrange(off + 303, off + 311) =~= b.subrange(303, 311));
        assert(data@.subrange(off + 311, off + 343) =~= b.subrange(311, 343));
        assert(data@.subrange(off + 343, off + 345) =~= b.subrange(343, 345));
    }
    ReserveConfig {
        status: read_u8(data, off),
        asset_tier: read_u8(data, off + 1),
        host_fixed_interest_rate_bps: read_u16_le(data, off + 2),
        reserved2: read_u32_array(data, off + 4, 2),
        protocol_order_execution_fee_pct: read_u8(data, off + 12),
        protocol_take_rate_pct: read_u8(data, off + 13),
        protocol_liquidation_fee_pct: read_u8(data, off + 14),
        loan_to_value_pct: read_u8(data, off + 15),
        liquidation_threshold_pct: read_u8(data, off + 16),
        min_liquidation_bonus_bps: read_u16_le(data, off + 17),
        max_liquidation_bonus_bps: read_u16_le(data, off + 19),
        bad_debt_liquidation_bonus_bps: read_u16_le(data, off + 21),
        deleveraging_margin_call_period_secs: read_u16_le(data, off + 23),
        deleveraging_threshold_decrease_bps_per_day: read_u16_le(data, off + 25),
        fees: read_bytes(data, off + 27, 16),
        borrow_rate_curve: read_bytes(data, off + 43, 88),
        borrow_factor_pct: read_u8(data, off + 131),
        deposit_limit: read_u64_le(data, off + 132),
        borrow_limit: read_u64_le(data, off + 140),
        token_info: read_bytes(data, off + 148, 64),
        deposit_withdrawal_cap: read_bytes(data, off + 212, 24),
        debt_withdrawal_cap: read_bytes(data, off + 236, 24),
        elevation_groups: read_u32_array(data, off + 260, 8),
        disable_usage_as_coll_outside_emode: read_u8(data, off + 292),
        utilization_limit_block_borrowing_above_pct: read_u8(data, off + 293),
        autodeleverage_enabled: read_u8(data, off + 294),
        reserved1: read_u64_array(data, off + 295, 1),
        borrow_limit_outside_elevation_group: read_u64_le(data, off + 303),
        borrow_limit_against_this_collateral_in_elevation_group: read_u64_array(
            data,
            off + 311,
            4,
        ),
        deleveraging_bonus_increase_bps_per_day: read_u16_le(data, off + 343),
    }
}

impl Reserve {
    /// Decodes a reserve from raw account bytes. Buffers shorter than the
    /// record are rejected as invalid program data; longer buffers decode
    /// from their 898-byte prefix, tolerating trailing padding of newer
    /// program versions.
    pub fn from_bytes(data: &[u8]) -> (r: Result<Reserve, KaminoError>)
        ensures
            match spec_reserve_from_bytes(data@) {
                Ok(v) => r matches Ok(m) && m@ == v && m@.wf(),
                Err(e) => r matches Err(e2) && e2 == e,
            },
    {
        let data_len = data.len();
        if data_len < RESERVE_SIZE {
            return Err(KaminoError::InvalidProgramData);
        }
        let ghost b = data@.subrange(0, 898);
        proof {
            assert(data@.subrange(0, 4) =~= b.subrange(0, 4));
            assert(data@.subrange(4, 36) =~= b.subrange(4, 36));
            assert(data@.subrange(36, 68) =~= b.subrange(36, 68));
            assert(data@.subrange(68, 100) =~= b.subrange(68, 100));
            assert(data@.subrange(100, 132) =~= b.subrange(100, 132));
            assert(data@.subrange(132, 385) =~= b.subrange(132, 385));
            assert(data@.subrange(385, 393) =~= b.subrange(385, 393));
            assert(data@.subrange(393, 481) =~= b.subrange(393, 481));
            assert(data@.subrange(481, 489) =~= b.subrange(481, 489));
            assert(data@.subrange(489, 834) =~= b.subrange(489, 834));
            assert(data@.subrange(834, 842) =~= b.subrange(834, 842));
            assert(data@.subrange(842, 850) =~= b.subrange(842, 850));
            assert(data@.subrange(850, 882) =~= b.subrange(850, 882));
            assert(data@.subrange(882, 890) =~= b.subrange(882, 890));
            assert(data@.subrange(890, 898) =~= b.subrange(890, 898));
        }
        Ok(Reserve {
            version: read_u32_le(data, 0),
            last_update: decode_last_update(data, 4),
            lending_market: read_address(data, 36),
            farm_collateral: read_address(data, 68),
            farm_debt: read_address(data, 100),
            liquidity: decode_liquidity(data, 132),
            reserve_liquidity_padding: read_u32_array(data, 385, 2),
            collateral: decode_collateral(data, 393),
            reserve_collateral_padding: read_u32_array(data, 481, 2),
            config: decode_config(data, 489),
            config_padding: read_u32_array(data, 834, 2),
            borrowed_amount_outside_elevation_group: read_u64_le(data, 842),
            borrowed_amounts_against_this_reserve_in_elevation_groups: read_u64_array(
                data,
                850,
                4,
            ),
            padding: read_u32_array(data, 882, 2),
            discriminator: read_bytes(data, 890, 8),
        })
    }

    /// Encodes the record into its canonical 898-byte form.
    #[verifier::rlimit(100)]
    pub fn encode(&self) -> (r: Vec<u8>)
        requires
            self@.wf(),
        ensures
            r@ == spec_reserve_bytes(self@),
    {
        let mut out: Vec<u8> = Vec::new();
        push_u32_le(&mut out, self.version);
        push_u64_le(&mut out, self.last_update.slot);
        push_u32_le(&mut out, self.last_update.stale);
        push_u32_le(&mut out, self.last_update.price_status);
        push_bytes(&mut out, &self.last_update.placeholder);
        push_bytes(&mut out, self.lending_market.as_bytes());
        push_bytes(&mut out, self.farm_collateral.as_bytes());
        push_bytes(&mut out, self.farm_debt.as_bytes());
        push_bytes(&mut out, self.liquidity.mint_pubkey.as_bytes());
        push_bytes(&mut out, self.liquidity.supply_vault.as_bytes());
        push_bytes(&mut out, self.liquidity.fee_vault.as_bytes());
        push_u128_le(&mut out, self.liquidity.available_amount);
        push_u64_le(&mut out, self.liquidity.borrowed_amount_sf);
        push_u64_le(&mut out, self.liquidity.market_price_sf);
        push_u32_le(&mut out, self.liquidity.market_price_last_updated_ts);
        push_u8(&mut out, self.liquidity.mint_decimals);
        push_u32_le(&mut out, self.liquidity.deposit_limit_crossed_timestamp);
        push_u32_le(&mut out, self.liquidity.borrow_limit_crossed_timestamp);
        push_bytes(&mut out, &self.liquidity.cumulative_borrow_rate_bsf);
        push_u64_le(&mut out, self.liquidity.accumulated_protocol_fees_sf);
        push_u64_le(&mut out, self.liquidity.accumulated_referrer_fees_sf);
        push_u64_le(&mut out, self.liquidity.pending_referrer_fees_sf);
        push_u64_le(&mut out, self.liquidity.absolute_referral_rate_sf);
        push_bytes(&mut out, self.liquidity.token_program.as_bytes());
        push_u64_array(&mut out, &self.liquidity.padding2);
        push_u64_array(&mut out, &self.liquidity.padding3);
        push_u32_array(&mut out, &self.reserve_liquidity_padding);
        push_bytes(&mut out, self.collateral.mint_pubkey.as_bytes());
        push_u64_le(&mut out, self.collateral.mint_total_supply);
        push_bytes(&mut out, self.collateral.supply_vault.as_bytes());
        push_u64_array(&mut out, &self.collateral.padding1);
        push_u64_array(&mut out, &self.collateral.padding2);
        push_u32_array(&mut out, &self.reserve_collateral_padding);
        push_u8(&mut out, self.config.status);
        push_u8(&mut out, self.config.asset_tier);
        push_u16_le(&mut out, self.config.host_fixed_interest_rate_bps);
        push_u32_array(&mut out, &self.config.reserved2);
        push_u8(&mut out, self.config.protocol_order_execution_fee_pct);
        push_u8(&mut out, self.config.protocol_take_rate_pct);
        push_u8(&mut out, self.config.protocol_liquidation_fee_pct);
        push_u8(&mut out, self.config.loan_to_value_pct);
        push_u8(&mut out, self.config.liquidation_threshold_pct);
        push_u16_le(&mut out, self.config.min_liquidation_bonus_bps);
        push_u16_le(&mut out, self.config.max_liquidation_bonus_bps);
        push_u16_le(&mut out, self.config.bad_debt_liquidation_bonus_bps);
        push_u16_le(&mut out, self.config.deleveraging_margin_call_period_secs);
        push_u16_le(&mut out, self.config.deleveraging_threshold_decrease_bps_per_day);
        push_bytes(&mut out, &self.config.fees);
        push_bytes(&mut out, &self.config.borrow_rate_curve);
        push_u8(&mut out, self.config.borrow_factor_pct);
        push_u64_le(&mut out, self.config.deposit_limit);
        push_u64_le(&mut out, self.config.borrow_limit);
        push_bytes(&mut out, &self.config.token_info);
        push_bytes(&mut out, &self.config.deposit_withdrawal_cap);
        push_bytes(&mut out, &self.config.debt_withdrawal_cap);
        push_u32_array(&mut out, &self.config.elevation_groups);
        push_u8(&mut out, self.config.disable_usage_as_coll_outside_emode);
        push_u8(&mut out, self.config.utilization_limit_block_borrowing_above_pct);
        push_u8(&mut out, self.config.autodeleverage_enabled);
        push_u64_array(&mut out, &self.config.reserved1);
        push_u64_le(&mut out, self.config.borrow_limit_outside_elevation_group);
        push_u64_array(&mut out, &self.config.borrow_limit_against_this_collateral_in_elevation_group);
        push_u16_le(&mut out, self.config.deleveraging_bonus_increase_bps_per_day);
        push_u32_array(&mut out, &self.config_padding);
        push_u64_le(&mut out, self.borrowed_amount_outside_elevation_group);
        push_u64_array(&mut out, &self.borrowed_amounts_against_this_reserve_in_elevation_groups);
        push_u32_array(&mut out, &self.padding);
        push_bytes(&mut out, &self.discriminator);
        proof {
            assert(seq![self@.config.status, self@.config.asset_tier]
                =~= Seq::<u8>::empty().push(self@.config.status).push(self@.config.asset_tier));
            assert(seq![
                self@.config.protocol_order_execution_fee_pct,
                self@.config.protocol_take_rate_pct,
                self@.config.protocol_liquidation_fee_pct,
                self@.config.loan_to_value_pct,
                self@.config.liquidation_threshold_pct,
            ] =~= Seq::<u8>::empty().push(self@.config.protocol_order_execution_fee_pct).push(
                self@.config.protocol_take_rate_pct,
            ).push(self@.config.protocol_liquidation_fee_pct).push(
                self@.config.loan_to_value_pct,
            ).push(self@.config.liquidation_threshold_pct));
            assert(seq![self@.liquidity.mint_decimals] =~= Seq::<u8>::empty().push(
                self@.liquidity.mint_decimals,
            ));
            assert(seq![self@.config.borrow_factor_pct] =~= Seq::<u8>::empty().push(
                self@.config.borrow_factor_pct,
            ));
            assert(seq![
                self@.config.disable_usage_as_coll_outside_emode,
                self@.config.utilization_limit_block_borrowing_above_pct,
                self@.config.autodeleverage_enabled,
            ] =~= Seq::<u8>::empty().push(self@.config.disable_usage_as_coll_outside_emode).push(
                self@.config.utilization_limit_block_borrowing_above_pct,
            ).push(self@.config.autodeleverage_enabled));
            assert(out@ =~= spec_reserve_bytes(self@));
        }
        out
    }
}

/// The canonical encoding of a well-formed reserve is 898 bytes long and
/// decodes back to the record it encodes.
#[verifier::rlimit(100)]
pub proof fn lemma_reserve_round_trip(v: ReserveV)
    requires
        v.wf(),
    ensures
        spec_reserve_bytes(v).len() == RESERVE_SIZE,
        spec_reserve_of(spec_reserve_bytes(v)) == v,
{
    lemma_auto_spec_u16_to_from_le_bytes();
    lemma_auto_spec_u32_to_from_le_bytes();
    lemma_auto_spec_u64_to_from_le_bytes();
    lemma_auto_spec_u128_to_from_le_bytes();
    lemma_u32_seq_round_trip(v.reserve_liquidity_padding);
    lemma_u32_seq_round_trip(v.reserve_collateral_padding);
    lemma_u32_seq_round_trip(v.config_padding);
    lemma_u32_seq_round_trip(v.padding);
    lemma_u32_seq_round_trip(v.config.reserved2);
    lemma_u32_seq_round_trip(v.config.elevation_groups);
    lemma_u64_seq_round_trip(v.liquidity.padding2);
    lemma_u64_seq_round_trip(v.liquidity.padding3);
    lemma_u64_seq_round_trip(v.collateral.padding1);
    lemma_u64_seq_round_trip(v.collateral.padding2);
    lemma_u64_seq_round_trip(v.config.reserved1);
    lemma_u64_seq_round_trip(v.config.borrow_limit_against_this_collateral_in_elevation_group);
    lemma_u64_seq_round_trip(v.borrowed_amounts_against_this_reserve_in_elevation_groups);
    let b = spec_reserve_bytes(v);
    let lu = spec_last_update_bytes(v.last_update);
    let lq = spec_liquidity_bytes(v.liquidity);
    let co = spec_collateral_bytes(v.collateral);
    let cf = spec_config_bytes(v.config);
    assert(lu.len() == 32);
    assert(lq.len() == 253);
    assert(co.len() == 88);
    assert(cf.len() == 345);
    assert(b.len() == 898);

    assert(b.subrange(0, 4) =~= spec_u32_to_le_bytes(v.version));
    assert(b.subrange(4, 36) =~= lu);
    assert(b.subrange(36, 68) =~= v.lending_market);
    assert(b.subrange(68, 100) =~= v.farm_collateral);
    assert(b.subrange(100, 132) =~= v.farm_debt);
    assert(b.subrange(132, 385) =~= lq);
    assert(b.subrange(385, 393) =~= spec_u32_seq_bytes(v.reserve_liquidity_padding));
    assert(b.subrange(393, 481) =~= co);
    assert(b.subrange(481, 489) =~= spec_u32_seq_bytes(v.reserve_collateral_padding));
    assert(b.subrange(489, 834) =~= cf);
    assert(b.subrange(834, 842) =~= spec_u32_seq_bytes(v.config_padding));
    assert(b.subrange(842, 850) =~= spec_u64_to_le_bytes(
        v.borrowed_amount_outside_elevation_group,
    ));
    assert(b.subrange(850, 882) =~= spec_u64_seq_bytes(
        v.borrowed_amounts_against_this_reserve_in_elevation_groups,
    ));
    assert(b.subrange(882, 890) =~= spec_u32_seq_bytes(v.padding));
    assert(b.subrange(890, 898) =~= v.discriminator);

    assert(lu.subrange(0, 8) =~= spec_u64_to_le_bytes(v.last_update.slot));
    assert(lu.subrange(8, 12) =~= spec_u32_to_le_bytes(v.last_update.stale));
    assert(lu.subrange(12, 16) =~= spec_u32_to_le_bytes(v.last_update.price_status));
    assert(lu.subrange(16, 32) =~= v.last_update.placeholder);
    assert(spec_last_update_of(lu) =~= v.last_update);

    assert(lq.subrange(0, 32) =~= v.liquidity.mint_pubkey);
    assert(lq.subrange(32, 64) =~= v.liquidity.supply_vault);
    assert(lq.subrange(64, 96) =~= v.liquidity.fee_vault);
    assert(lq.subrange(96, 112) =~= spec_u128_to_le_bytes(v.liquidity.available_amount));
    assert(lq.subrange(112, 120) =~= spec_u64_to_le_bytes(v.liquidity.borrowed_amount_sf));
    assert(lq.subrange(120, 128) =~= spec_u64_to_le_bytes(v.liquidity.market_price_sf));
    assert(lq.subrange(128, 132) =~= spec_u32_to_le_bytes(
        v.liquidity.market_price_last_updated_ts,
    ));
    assert(lq[132] == v.liquidity.mint_decimals);
    assert(lq.subrange(133, 137) =~= spec_u32_to_le_bytes(
        v.liquidity.deposit_limit_crossed_timestamp,
    ));
    assert(lq.subrange(137, 141) =~= spec_u32_to_le_bytes(
        v.liquidity.borrow_limit_crossed_timestamp,
    ));
    assert(lq.subrange(141, 173) =~= v.liquidity.cumulative_borrow_rate_bsf);
    assert(lq.subrange(173, 181) =~= spec_u64_to_le_bytes(
        v.liquidity.accumulated_protocol_fees_sf,
    ));
    assert(lq.subrange(181, 189) =~= spec_u64_to_le_bytes(
        v.liquidity.accumulated_referrer_fees_sf,
    ));
    assert(lq.subrange(189, 197) =~= spec_u64_to_le_bytes(v.liquidity.pending_referrer_fees_sf));
    assert(lq.subrange(197, 205) =~= spec_u64_to_le_bytes(v.liquidity.absolute_referral_rate_sf));
    assert(lq.subrange(205, 237) =~= v.liquidity.token_program);
    assert(lq.subrange(237, 245) =~= spec_u64_seq_bytes(v.liquidity.padding2));
    assert(lq.subrange(245, 253) =~= spec_u64_seq_bytes(v.liquidity.padding3));
    assert(spec_liquidity_of(lq) =~= v.liquidity);

    assert(co.subrange(0, 32) =~= v.collateral.mint_pubkey);
    assert(co.subrange(32, 40) =~= spec_u64_to_le_bytes(v.collateral.mint_total_supply));
    assert(co.subrange(40, 72) =~= v.collateral.supply_vault);
    assert(co.subrange(72, 80) =~= spec_u64_seq_bytes(v.collateral.padding1));
    assert(co.subrange(80, 88) =~= spec_u64_seq_bytes(v.collateral.padding2));
    assert(spec_collateral_of(co) =~= v.collateral);

    assert(cf[0] == v.config.status);
    assert(cf[1] == v.config.asset_tier);
    assert(cf.subrange(2, 4) =~= spec_u16_to_le_bytes(v.config.host_fixed_interest_rate_bps));
    assert(cf.subrange(4, 12) =~= spec_u32_seq_bytes(v.config.reserved2));
    assert(cf[12] == v.config.protocol_order_execution_fee_pct);
    assert(cf[13] == v.config.protocol_take_rate_pct);
    assert(cf[14] == v.config.protocol_liquidation_fee_pct);
    assert(cf[15] == v.config.loan_to_value_pct);
    assert(cf[16] == v.config.liquidation_threshold_pct);
    assert(cf.subrange(17, 19) =~= spec_u16_to_le_bytes(v.config.min_liquidation_bonus_bps));
    assert(cf.subrange(19, 21) =~= spec_u16_to_le_bytes(v.config.max_liquidation_bonus_bps));
    assert(cf.subrange(21, 23) =~= spec_u16_to_le_bytes(v.config.bad_debt_liquidation_bonus_bps));
    assert(cf.subrange(23, 25) =~= spec_u16_to_le_bytes(
        v.config.deleveraging_margin_call_period_secs,
    ));
    assert(cf.subrange(25, 27) =~= spec_u16_to_le_bytes(
        v.config.deleveraging_threshold_decrease_bps_per_day,
    ));
    assert(cf.subrange(27, 43) =~= v.config.fees);
    assert(cf.subrange(43, 131) =~= v.config.borrow_rate_curve);
    assert(cf[131] == v.config.borrow_factor_pct);
    assert(cf.subrange(132, 140) =~= spec_u64_to_le_bytes(v.config.deposit_limit));
    assert(cf.subrange(140, 148) =~= spec_u64_to_le_bytes(v.config.borrow_limit));
    assert(cf.subrange(148, 212) =~= v.config.token_info);
    assert(cf.subrange(212, 236) =~= v.config.deposit_withdrawal_cap);
    assert(cf.subrange(236, 260) =~= v.config.debt_withdrawal_cap);
    assert(cf.subrange(260, 292) =~= spec_u32_seq_bytes(v.config.elevation_groups));
    assert(cf[292] == v.config.disable_usage_as_coll_outside_emode);
    assert(cf[293] == v.config.utilization_limit_block_borrowing_above_pct);
    assert(cf[294] == v.config.autodeleverage_enabled);
    assert(cf.subrange(295, 303) =~= spec_u64_seq_bytes(v.config.reserved1));
    assert(cf.subrange(303, 311) =~= spec_u64_to_le_bytes(
        v.config.borrow_limit_outside_elevation_group,
    ));
    assert(cf.subrange(311, 343) =~= spec_u64_seq_bytes(
        v.config.borrow_limit_against_this_collateral_in_elevation_group,
    ));
    assert(cf.subrange(343, 345) =~= spec_u16_to_le_bytes(
        v.config.deleveraging_bonus_increase_bps_per_day,
    ));
    assert(spec_config_of(cf) =~= v.config);

    assert(spec_reserve_of(b) =~= v);
}

/// Whether a reserve is active: its configured status is 0.
pub open spec fn spec_reserve_active(r: KaminoReserve) -> bool {
    r.state.config.status == 0
}

/// The subsequence of active reserves, in order.
pub open spec fn spec_active_reserves(s: Seq<KaminoReserve>) -> Seq<KaminoReserve>
    decreases s.len(),
{
    if s.len() == 0 {
        Seq::empty()
    } else {
        spec_active_reserves(s.drop_last()) + (if spec_reserve_active(s.last()) {
            seq![s.last()]
        } else {
            Seq::empty()
        })
    }
}

/// Keeps only the active reserves — those whose configured status is 0 —
/// preserving their order.
pub fn get_reserves_active(reserves: Vec<KaminoReserve>) -> (r: Vec<KaminoReserve>)
    ensures
        r@ == spec_active_reserves(reserves@),
{
    let ghost orig = reserves@;
    let mut input = reserves;
    let mut out: Vec<KaminoReserve> = Vec::new();
    let ghost k: int = 0;
    proof {
        assert(orig.subrange(0, 0) =~= Seq::<KaminoReserve>::empty());
        assert(orig.subrange(0, orig.len() as int) =~= orig);
    }
    while input.len() > 0
        invariant
            0 <= k <= orig.len(),
            input@ == orig.subrange(k, orig.len() as int),
            out@ == spec_active_reserves(orig.subrange(0, k)),
        decreases input@.len(),
    {
        let e = input.remove(0);
        proof {
            assert(e == orig[k]);
            assert(input@ =~= orig.subrange(k + 1, orig.len() as int));
            assert(orig.subrange(0, k + 1).drop_last() =~= orig.subrange(0, k));
            assert(orig.subrange(0, k + 1).last() == orig[k]);
        }
        let ghost pre_out = out@;
        if e.state.config.status == 0 {
            out.push(e);
            proof {
                assert(out@ =~= pre_out + seq![orig[k]]);
            }
        } else {
            proof {
                assert(pre_out + Seq::<KaminoReserve>::empty() =~= pre_out);
            }
        }
        proof {
            k = k + 1;
        }
    }
    proof {
        assert(k == orig.len());
        assert(orig.subrange(0, orig.len() as int) =~= orig);
    }
    out
}

} // verus!
