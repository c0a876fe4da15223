//! The kamino lending market account record: a newer market layout decoded
//! from a fixed 272-byte buffer.
//!
//! Every field is a fixed-width scalar or byte region, so any exact-size
//! buffer decodes; longer buffers decode from their 272-byte prefix,
//! tolerating trailing padding appended by newer program versions. The two
//! oracle-percentage fields are fractional on chain; the record holds their
//! raw 32-bit representations.

use crate::address::Address;
use crate::error::KaminoError;
use crate::fields::push_bytes;
use crate::fields::push_u16_le;
use crate::fields::push_u32_le;
use crate::fields::push_u64_le;
use crate::fields::push_u8;
use crate::fields::read_address;
use crate::fields::read_bytes;
use crate::fields::read_u16_le;
use crate::fields::read_u32_le;
use crate::fields::read_u64_le;
use crate::fields::read_u8;
use vstd::bytes::lemma_auto_spec_u16_to_from_le_bytes;
use vstd::bytes::lemma_auto_spec_u32_to_from_le_bytes;
use vstd::bytes::lemma_auto_spec_u64_to_from_le_bytes;
use vstd::bytes::spec_u16_from_le_bytes;
use vstd::bytes::spec_u16_to_le_bytes;
use vstd::bytes::spec_u32_from_le_bytes;
use vstd::bytes::spec_u32_to_le_bytes;
use vstd::bytes::spec_u64_from_le_bytes;
use vstd::bytes::spec_u64_to_le_bytes;
use vstd::prelude::*;

verus! {

/// The serialized width of a kamino lending market record.
pub const LENDING_MARKET_SIZE: usize = 272;

/// A decoded kamino lending market account.
#[derive(Debug, Clone)]
pub struct LendingMarket {
    /// Version of the lending market layout.
    pub version: u8,
    /// Bump seed of the derived authority address.
    pub bump_seed: u32,
    /// Owner authority which can add new reserves.
    pub lending_market_owner: Address,
    /// Cache of the owner used while ownership changes settle.
    pub lending_market_owner_cache: Address,
    /// Currency the market quotes prices in: a zero-padded code or a mint
    /// address.
    pub quote_currency: Vec<u8>,
    /// Referral fee, as bps out of the protocol fee.
    pub referral_fee_bps: u16,
    pub emergency_mode: u8,
    pub auto_deleverage_enabled: u8,
    pub borrow_disabled: u8,
    /// Raw 32-bit representation of the price-refresh trigger percentage.
    pub price_refresh_trigger_to_max_age_pct_bits: u32,
    /// Share of an obligation's borrowed value open to one liquidation.
    pub liquidation_max_debt_close_factor_pct: u8,
    /// Raw 32-bit representation of the insolvency-risk LTV percentage.
    pub insolvency_risk_unhealthy_ltv_pct_bits: u32,
    /// Liquidation value below which a position is closed whole.
    pub min_full_liquidation_value_threshold: u64,
    /// Largest liquidation value permitted in one call.
    pub max_liquidatable_debt_market_value_at_once: u64,
    pub reserved0: u64,
    /// Global borrow value cap across obligations.
    pub global_allowed_borrow_value: u64,
    /// The risk council address.
    pub risk_council: Address,
    pub reserved1: u64,
    pub elevation_group_padding: u64,
    /// Smallest net value accepted in a position after a lending action.
    pub min_net_value_in_obligation_sf: u64,
    /// Threshold for skipping LTV priority checks on liquidation.
    pub min_value_skip_liquidation_ltv_checks: u64,
    /// Market name, zero-padded.
    pub name: Vec<u8>,
    /// Threshold for skipping borrow-factor priority checks.
    pub min_value_skip_liquidation_bf_checks: u64,
    /// Deposit required at reserve creation.
    pub min_initial_deposit_amount: u64,
    /// Whether obligation orders are evaluated during liquidations.
    pub obligation_orders_enabled: u8,
    pub padding2: Vec<u8>,
    pub padding1: u64,
}

/// Mathematical model of a kamino lending market record.
#[verifier::ext_equal]
pub struct LendingMarketV {
    pub version: u8,
    pub bump_seed: u32,
    pub lending_market_owner: Seq<u8>,
    pub lending_market_owner_cache: Seq<u8>,
    pub quote_currency: Seq<u8>,
    pub referral_fee_bps: u16,
    pub emergency_mode: u8,
    pub auto_deleverage_enabled: u8,
    pub borrow_disabled: u8,
    pub price_refresh_trigger_to_max_age_pct_bits: u32,
    pub liquidation_max_debt_close_factor_pct: u8,
    pub insolvency_risk_unhealthy_ltv_pct_bits: u32,
    pub min_full_liquidation_value_threshold: u64,
    pub max_liquidatable_debt_market_value_at_once: u64,
    pub reserved0: u64,
    pub global_allowed_borrow_value: u64,
    pub risk_council: Seq<u8>,
    pub reserved1: u64,
    pub elevation_group_padding: u64,
    pub min_net_value_in_obligation_sf: u64,
    pub min_value_skip_liquidation_ltv_checks: u64,
    pub name: Seq<u8>,
    pub min_value_skip_liquidation_bf_checks: u64,
    pub min_initial_deposit_amount: u64,
    pub obligation_orders_enabled: u8,
    pub padding2: Seq<u8>,
    pub padding1: u64,
}

impl View for LendingMarket {
    type V = LendingMarketV;

    open spec fn view(&self) -> LendingMarketV {
        LendingMarketV {
            version: self.version,
            bump_seed: self.bump_seed,
            lending_market_owner: self.lending_market_owner@,
            lending_market_owner_cache: self.lending_market_owner_cache@,
            quote_currency: self.quote_currency@,
            referral_fee_bps: self.referral_fee_bps,
            emergency_mode: self.emergency_mode,
            auto_deleverage_enabled: self.auto_deleverage_enabled,
            borrow_disabled: self.borrow_disabled,
            price_refresh_trigger_to_max_age_pct_bits: self.price_refresh_trigger_to_max_age_pct_bits,
            liquidation_max_debt_close_factor_pct: self.liquidation_max_debt_close_factor_pct,
            insolvency_risk_unhealthy_ltv_pct_bits: self.insolvency_risk_unhealthy_ltv_pct_bits,
            min_full_liquidation_value_threshold: self.min_full_liquidation_value_threshold,
            max_liquidatable_debt_market_value_at_once: self.max_liquidatable_debt_market_value_at_once,
            reserved0: self.reserved0,
            global_allowed_borrow_value: self.global_allowed_borrow_value,
            risk_council: self.risk_council@,
            reserved1: self.reserved1,
            elevation_group_padding: self.elevation_group_padding,
            min_net_value_in_obligation_sf: self.min_net_value_in_obligation_sf,
            min_value_skip_liquidation_ltv_checks: self.min_value_skip_liquidation_ltv_checks,
            name: self.name@,
            min_value_skip_liquidation_bf_checks: self.min_value_skip_liquidation_bf_checks,
            min_initial_deposit_amount: self.min_initial_deposit_amount,
            obligation_orders_enabled: self.obligation_orders_enabled,
            padding2: self.padding2@,
            padding1: self.padding1,
        }
    }
}

impl LendingMarketV {
    /// Every address holds 32 bytes and every byte region its fixed width.
    pub open spec fn wf(&self) -> bool {
        &&& self.lending_market_owner.len() == 32
        &&& self.lending_market_owner_cache.len() == 32
        &&& self.quote_currency.len() == 32
        &&& self.risk_council.len() == 32
        &&& self.name.len() == 32
        &&& self.padding2.len() == 4
    }
}

/// The record read from the first 272 bytes of `b`.
pub open spec fn spec_kamino_market_of(b: Seq<u8>) -> LendingMarketV {
    LendingMarketV {
        version: b[0],
        bump_seed: spec_u32_from_le_bytes(b.subrange(1, 5)),
        lending_market_owner: b.subrange(5, 37),
        lending_market_owner_cache: b.subrange(37, 69),
        quote_currency: b.subrange(69, 101),
        referral_fee_bps: spec_u16_from_le_bytes(b.subrange(101, 103)),
        emergency_mode: b[103],
        auto_deleverage_enabled: b[104],
        borrow_disabled: b[105],
        price_refresh_trigger_to_max_age_pct_bits: spec_u32_from_le_bytes(b.subrange(106, 110)),
        liquidation_max_debt_close_factor_pct: b[110],
        insolvency_risk_unhealthy_ltv_pct_bits: spec_u32_from_le_bytes(b.subrange(111, 115)),
        min_full_liquidation_value_threshold: spec_u64_from_le_bytes(b.subrange(115, 123)),
        max_liquidatable_debt_market_value_at_once: spec_u64_from_le_bytes(b.subrange(123, 131)),
        reserved0: spec_u64_from_le_bytes(b.subrange(131, 139)),
        global_allowed_borrow_value: spec_u64_from_le_bytes(b.subrange(139, 147)),
        risk_council: b.subrange(147, 179),
        reserved1: spec_u64_from_le_bytes(b.subrange(179, 187)),
        elevation_group_padding: spec_u64_from_le_bytes(b.subrange(187, 195)),
        min_net_value_in_obligation_sf: spec_u64_from_le_bytes(b.subrange(195, 203)),
        min_value_skip_liquidation_ltv_checks: spec_u64_from_le_bytes(b.subrange(203, 211)),
        name: b.subrange(211, 243),
        min_value_skip_liquidation_bf_checks: spec_u64_from_le_bytes(b.subrange(243, 251)),
        min_initial_deposit_amount: spec_u64_from_le_bytes(b.subrange(251, 259)),
        obligation_orders_enabled: b[259],
        padding2: b.subrange(260, 264),
        padding1: spec_u64_from_le_bytes(b.subrange(264, 272)),
    }
}

/// The canonical 272-byte encoding of a kamino lending market record.
pub open spec fn spec_kamino_market_bytes(v: LendingMarketV) -> Seq<u8> {
    seq![v.version] + spec_u32_to_le_bytes(v.bump_seed) + v.lending_market_owner
        + v.lending_market_owner_cache + v.quote_currency + spec_u16_to_le_bytes(v.referral_fee_bps)
        + seq![v.emergency_mode, v.auto_deleverage_enabled, v.borrow_disabled]
        + spec_u32_to_le_bytes(v.price_refresh_trigger_to_max_age_pct_bits) + seq![
        v.liquidation_max_debt_close_factor_pct,
    ] + spec_u32_to_le_bytes(v.insolvency_risk_unhealthy_ltv_pct_bits) + spec_u64_to_le_bytes(
        v.min_full_liquidation_value_threshold,
    ) + spec_u64_to_le_bytes(v.max_liquidatable_debt_market_value_at_once) + spec_u64_to_le_bytes(
        v.reserved0,
    ) + spec_u64_to_le_bytes(v.global_allowed_borrow_value) + v.risk_council + spec_u64_to_le_bytes(
        v.reserved1,
    ) + spec_u64_to_le_bytes(v.elevation_group_padding) + spec_u64_to_le_bytes(
        v.min_net_value_in_obligation_sf,
    ) + spec_u64_to_le_bytes(v.min_value_skip_liquidation_ltv_checks) + v.name
        + spec_u64_to_le_bytes(v.min_value_skip_liquidation_bf_checks) + spec_u64_to_le_bytes(
        v.min_initial_deposit_amount,
    ) + seq![v.obligation_orders_enabled] + v.padding2 + spec_u64_to_le_bytes(v.padding1)
}

/// The decoder's outcome on arbitrary bytes: buffers shorter than the
/// record are rejected as invalid program data; every other buffer decodes
/// from its 272-byte prefix.
pub open spec fn spec_kamino_market_from_bytes(b: Seq<u8>) -> Result<LendingMarketV, KaminoError> {
    if b.len() < 272 {
        Err(KaminoError::InvalidProgramData)
    } else {
        Ok(spec_kamino_market_of(b.subrange(0, 272)))
    }
}

impl LendingMarket {
    /// Decodes a kamino lending market from raw account bytes. Buffers
    /// shorter than the record are rejected as invalid program data;
    /// longer buffers decode from their 272-byte prefix, tolerating
    /// trailing padding of newer program versions.
    pub fn from_bytes(data: &[u8]) -> (r: Result<LendingMarket, KaminoError>)
        ensures
            match spec_kamino_market_from_bytes(data@) {
                Ok(v) => r matches Ok(m) && m@ == v && m@.wf(),
                Err(e) => r matches Err(e2) && e2 == e,
            },
    {
        let data_len = data.len();
        if data_len < LENDING_MARKET_SIZE {
            return Err(KaminoError::InvalidProgramData);
        }
        let ghost b = data@.subrange(0, 272);
        proof {
            assert(b[0] == data@[0]);
            assert(b[103] == data@[103]);
            assert(b[104] == data@[104]);
            assert(b[105] == data@[105]);
            assert(b[110] == data@[110]);
            assert(b[259] == data@[259]);
            assert(data@.subrange(1, 5) =~= b.subrange(1, 5));
            assert(data@.subrange(5, 37) =~= b.subrange(5, 37));
            assert(data@.subrange(37, 69) =~= b.subrange(37, 69));
            assert(data@.subrange(69, 101) =~= b.subrange(69, 101));
            assert(data@.subrange(101, 103) =~= b.subrange(101, 103));
            assert(data@.subrange(106, 110) =~= b.subrange(106, 110));
            assert(data@.subrange(111, 115) =~= b.subrange(111, 115));
            assert(data@.subrange(115, 123) =~= b.subrange(115, 123));
            assert(data@.subrange(123, 131) =~= b.subrange(123, 131));
            assert(data@.subrange(131, 139) =~= b.subrange(131, 139));
            assert(data@.subrange(139, 147) =~= b.subrange(139, 147));
            assert(data@.subrange(147, 179) =~= b.subrange(147, 179));
            assert(data@.subrange(179, 187) =~= b.subrange(179, 187));
            assert(data@.subrange(187, 195) =~= b.subrange(187, 195));
            assert(data@.subrange(195, 203) =~= b.subrange(195, 203));
            assert(data@.subrange(203, 211) =~= b.subrange(203, 211));
            assert(data@.subrange(211, 243) =~= b.subrange(211, 243));
            assert(data@.subrange(243, 251) =~= b.subrange(243, 251));
            assert(data@.subrange(251, 259) =~= b.subrange(251, 259));
            assert(data@.subrange(260, 264) =~= b.subrange(260, 264));
            assert(data@.subrange(264, 272) =~= b.subrange(264, 272));
        }
        Ok(LendingMarket {
            version: read_u8(data, 0),
            bump_seed: read_u32_le(data, 1),
            lending_market_owner: read_address(data, 5),
            lending_market_owner_cache: read_address(data, 37),
            quote_currency: read_bytes(data, 69, 32),
            referral_fee_bps: read_u16_le(data, 101),
            emergency_mode: read_u8(data, 103),
            auto_deleverage_enabled: read_u8(data, 104),
            borrow_disabled: read_u8(data, 105),
            price_refresh_trigger_to_max_age_pct_bits: read_u32_le(data, 106),
            liquidation_max_debt_close_factor_pct: read_u8(data, 110),
            insolvency_risk_unhealthy_ltv_pct_bits: read_u32_le(data, 111),
            min_full_liquidation_value_threshold: read_u64_le(data, 115),
            max_liquidatable_debt_market_value_at_once: read_u64_le(data, 123),
            reserved0: read_u64_le(data, 131),
            global_allowed_borrow_value: read_u64_le(data, 139),
            risk_council: read_address(data, 147),
            reserved1: read_u64_le(data, 179),
            elevation_group_padding: read_u64_le(data, 187),
            min_net_value_in_obligation_sf: read_u64_le(data, 195),
            min_value_skip_liquidation_ltv_checks: read_u64_le(data, 203),
            name: read_bytes(data, 211, 32),
            min_value_skip_liquidation_bf_checks: read_u64_le(data, 243),
            min_initial_deposit_amount: read_u64_le(data, 251),
            obligation_orders_enabled: read_u8(data, 259),
            padding2: read_bytes(data, 260, 4),
            padding1: read_u64_le(data, 264),
        })
    }

    /// Encodes the record into its canonical 272-byte form.
    pub fn encode(&self) -> (r: Vec<u8>)
        requires
            self@.wf(),
        ensures
            r@ == spec_kamino_market_bytes(self@),
    {
        let mut out: Vec<u8> = Vec::new();
        push_u8(&mut out, self.version);
        push_u32_le(&mut out, self.bump_seed);
        push_bytes(&mut out, self.lending_market_owner.as_bytes());
        push_bytes(&mut out, self.lending_market_owner_cache.as_bytes());
        push_bytes(&mut out, &self.quote_currency);
        push_u16_le(&mut out, self.referral_fee_bps);
        push_u8(&mut out, self.emergency_mode);
        push_u8(&mut out, self.auto_deleverage_enabled);
        push_u8(&mut out, self.borrow_disabled);
        push_u32_le(&mut out, self.price_refresh_trigger_to_max_age_pct_bits);
        push_u8(&mut out, self.liquidation_max_debt_close_factor_pct);
        push_u32_le(&mut out, self.insolvency_risk_unhealthy_ltv_pct_bits);
        push_u64_le(&mut out, self.min_full_liquidation_value_threshold);
        push_u64_le(&mut out, self.max_liquidatable_debt_market_value_at_once);
        push_u64_le(&mut out, self.reserved0);
        push_u64_le(&mut out, self.global_allowed_borrow_value);
        push_bytes(&mut out, self.risk_council.as_bytes());
        push_u64_le(&mut out, self.reserved1);
        push_u64_le(&mut out, self.elevation_group_padding);
        push_u64_le(&mut out, self.min_net_value_in_obligation_sf);
        push_u64_le(&mut out, self.min_value_skip_liquidation_ltv_checks);
        push_bytes(&mut out, &self.name);
        push_u64_le(&mut out, self.min_value_skip_liquidation_bf_checks);
        push_u64_le(&mut out, self.min_initial_deposit_amount);
        push_u8(&mut out, self.obligation_orders_enabled);
        push_bytes(&mut out, &self.padding2);
        push_u64_le(&mut out, self.padding1);
        proof {
            assert(seq![self@.version] =~= Seq::<u8>::empty().push(self@.version));
            assert(seq![
                self@.emergency_mode,
                self@.auto_deleverage_enabled,
                self@.borrow_disabled,
            ] =~= Seq::<u8>::empty().push(self@.emergency_mode).push(
                self@.auto_deleverage_enabled,
            ).push(self@.borrow_disabled));
            assert(seq![self@.liquidation_max_debt_close_factor_pct] =~= Seq::<u8>::empty().push(
                self@.liquidation_max_debt_close_factor_pct,
            ));
            assert(seq![self@.obligation_orders_enabled] =~= Seq::<u8>::empty().push(
                self@.obligation_orders_enabled,
            ));
            assert(out@ =~= spec_kamino_market_bytes(self@));
        }
        out
    }
}

/// The canonical encoding of a well-formed record is 272 bytes long and
/// decodes back to the record it encodes.
pub proof fn lemma_kamino_market_round_trip(v: LendingMarketV)
    requires
        v.wf(),
    ensures
        spec_kamino_market_bytes(v).len() == 272,
        spec_kamino_market_of(spec_kamino_market_bytes(v)) == v,
{
    lemma_auto_spec_u16_to_from_le_bytes();
    lemma_auto_spec_u32_to_from_le_bytes();
    lemma_auto_spec_u64_to_from_le_bytes();
    let b = spec_kamino_market_bytes(v);
    assert(b.len() == 272);
    assert(b.subrange(1, 5) =~= spec_u32_to_le_bytes(v.bump_seed));
    assert(b.subrange(5, 37) =~= v.lending_market_owner);
    assert(b.subrange(37, 69) =~= v.lending_market_owner_cache);
    assert(b.subrange(69, 101) =~= v.quote_currency);
    assert(b.subrange(101, 103) =~= spec_u16_to_le_bytes(v.referral_fee_bps));
    assert(b.subrange(106, 110) =~= spec_u32_to_le_bytes(
        v.price_refresh_trigger_to_max_age_pct_bits,
    ));
    assert(b.subrange(111, 115) =~= spec_u32_to_le_bytes(v.insolvency_risk_unhealthy_ltv_pct_bits));
    assert(b.subrange(115, 123) =~= spec_u64_to_le_bytes(v.min_full_liquidation_value_threshold));
    assert(b.subrange(123, 131) =~= spec_u64_to_le_bytes(
        v.max_liquidatable_debt_market_value_at_once,
    ));
    assert(b.subrange(131, 139) =~= spec_u64_to_le_bytes(v.reserved0));
    assert(b.subrange(139, 147) =~= spec_u64_to_le_bytes(v.global_allowed_borrow_value));
    assert(b.subrange(147, 179) =~= v.risk_council);
    assert(b.subrange(179, 187) =~= spec_u64_to_le_bytes(v.reserved1));
    assert(b.subrange(187, 195) =~= spec_u64_to_le_bytes(v.elevation_group_padding));
    assert(b.subrange(195, 203) =~= spec_u64_to_le_bytes(v.min_net_value_in_obligation_sf));
    assert(b.subrange(203, 211) =~= spec_u64_to_le_bytes(v.min_value_skip_liquidation_ltv_checks));
    assert(b.subrange(211, 243) =~= v.name);
    assert(b.subrange(243, 251) =~= spec_u64_to_le_bytes(v.min_value_skip_liquidation_bf_checks));
    assert(b.subrange(251, 259) =~= spec_u64_to_le_bytes(v.min_initial_deposit_amount));
    assert(b.subrange(260, 264) =~= v.padding2);
    assert(b.subrange(264, 272) =~= spec_u64_to_le_bytes(v.padding1));
    assert(spec_kamino_market_of(b) =~= v);
}

/// The ownership check made before any decode: the reported owner of the
/// fetched account must be the expected program.
pub fn check_account_owner(owner: &Address, expected_program: &Address) -> (r: Result<
    (),
    KaminoError,
>)
    ensures
        owner@ == expected_program@ ==> r is Ok,
        owner@ != expected_program@ ==> (r matches Err(e) && e == KaminoError::InvalidProgramData),
{
    if owner.eq_addr(expected_program) {
        Ok(())
    } else {
        Err(KaminoError::InvalidProgramData)
    }
}

impl LendingMarket {
    /// The verification-and-decode step of fetching a market account:
    /// rejects the bytes when the reported owner is not the expected
    /// program, and decodes them otherwise.
    pub fn from_owned_bytes(owner: &Address, expected_program: &Address, data: &[u8]) -> (r: Result<
        LendingMarket,
        KaminoError,
    >)
        ensures
            owner@ != expected_program@ ==> (r matches Err(e) && e
                == KaminoError::InvalidProgramData),
            owner@ == expected_program@ ==> match spec_kamino_market_from_bytes(data@) {
                Ok(v) => r matches Ok(m) && m@ == v && m@.wf(),
                Err(e) => r matches Err(e2) && e2 == e,
            },
    {
        check_account_owner(owner, expected_program)?;
        Self::from_bytes(data)
    }
}

} // verus!
