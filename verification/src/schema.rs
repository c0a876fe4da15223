//! The schema registry and the unified resilient decoder.
//!
//! Each record kind is a closed schema variant carrying its expected size
//! and its ordered field descriptors; a new on-chain layout is a new
//! variant, never a mutation of an existing one. The decoder tries, in
//! order: the strict exact-size reading, the relaxed reinterpretation of
//! the same bytes, and the strict reading of the exact-size prefix of a
//! longer buffer.

use crate::error::DecodeError;
use crate::kamino_market::spec_kamino_market_of;
use crate::market_metadata::spec_metadata_relaxed;
use crate::market_metadata::spec_metadata_strict;
use crate::market_metadata::spec_metadata_strict_ok;
use crate::lending_market::spec_market_of;
use crate::lending_market::spec_market_strict_ok;
use crate::rate_limiter::spec_rate_limiter_of;
use crate::rate_limiter::RateLimiter;
use crate::reserve::spec_reserve_of;
use crate::reserve::Reserve;
use crate::address::Address;
use crate::fields::read_u8;
use crate::fields::read_u16_le;
use vstd::prelude::*;

verus! {

/// The record kinds the decoder understands.
#[derive(Debug, Clone, Copy, PartialEq, Eq, Structural)]
pub enum SchemaKind {
    /// The solend lending market account.
    LendingMarket,
    /// The kamino lending market account, a newer market layout.
    KaminoLendingMarket,
    /// The lending market metadata account.
    LendingMarketMetadata,
    /// The reserve account.
    Reserve,
    /// A standalone rate limiter record.
    RateLimiter,
}

/// The wire width of one record of the given kind.
pub open spec fn spec_expected_size(kind: SchemaKind) -> int {
    match kind {
        SchemaKind::LendingMarket => 290,
        SchemaKind::KaminoLendingMarket => 272,
        SchemaKind::LendingMarketMetadata => 111,
        SchemaKind::Reserve => 898,
        SchemaKind::RateLimiter => 56,
    }
}

impl SchemaKind {
    /// The exact number of bytes a record of this kind occupies.
    pub fn expected_size_bytes(&self) -> (r: usize)
        ensures
            r == spec_expected_size(*self),
    {
        match self {
            SchemaKind::LendingMarket => 290,
            SchemaKind::KaminoLendingMarket => 272,
            SchemaKind::LendingMarketMetadata => 111,
            SchemaKind::Reserve => 898,
            SchemaKind::RateLimiter => 56,
        }
    }
}

/// The semantic type of one schema field.
#[derive(Debug, Clone, Copy, PartialEq, Eq, Structural)]
pub enum FieldType {
    /// A little-endian unsigned integer.
    UnsignedLe,
    /// A fixed-width byte region.
    Bytes,
    /// A 32-byte account address.
    AddressBytes,
    /// A zero-padded text region.
    Text,
    /// A length prefix governing the region that follows.
    LengthPrefix,
    /// An option tag byte followed by its 32-byte payload slot.
    OptionTag,
    /// An embedded sub-record with a fixed layout of its own.
    Nested,
    /// Reserved or padding bytes.
    Reserved,
}

/// One field of a schema: its name, its byte width, and its semantic type.
#[derive(Debug, Clone)]
pub struct FieldDesc {
    pub name: &'static str,
    pub width: usize,
    pub field_type: FieldType,
}

/// The summed byte widths of a field list.
pub open spec fn spec_widths_sum(fields: Seq<FieldDesc>) -> int
    decreases fields.len(),
{
    if fields.len() == 0 {
        0
    } else {
        spec_widths_sum(fields.drop_last()) + fields.last().width
    }
}

impl SchemaKind {
    /// The ordered field descriptors of this record kind. Their widths sum
    /// to the kind's expected size.
    pub fn fields(&self) -> (r: Vec<FieldDesc>)
        ensures
            spec_widths_sum(r@) == spec_expected_size(*self),
    {
        let mut out: Vec<FieldDesc> = Vec::new();
        match self {
            SchemaKind::LendingMarket => {
                push_field(&mut out, "version", 1, FieldType::UnsignedLe);
                push_field(&mut out, "bump_seed", 1, FieldType::UnsignedLe);
                push_field(&mut out, "owner", 32, FieldType::AddressBytes);
                push_field(&mut out, "quote_token_mint", 32, FieldType::AddressBytes);
                push_field(&mut out, "token_program_id", 32, FieldType::AddressBytes);
                push_field(&mut out, "oracle_program_id", 32, FieldType::AddressBytes);
                push_field(&mut out, "switchboard_oracle_program_id", 32, FieldType::AddressBytes);
                push_field(&mut out, "rate_limiter", 56, FieldType::Nested);
                push_field(&mut out, "whitelisted_liquidator", 33, FieldType::OptionTag);
                push_field(&mut out, "risk_authority", 32, FieldType::AddressBytes);
                push_field(&mut out, "reserved", 7, FieldType::Reserved);
            },
            SchemaKind::KaminoLendingMarket => {
                push_field(&mut out, "version", 1, FieldType::UnsignedLe);
                push_field(&mut out, "bump_seed", 4, FieldType::UnsignedLe);
                push_field(&mut out, "lending_market_owner", 32, FieldType::AddressBytes);
                push_field(&mut out, "lending_market_owner_cache", 32, FieldType::AddressBytes);
                push_field(&mut out, "quote_currency", 32, FieldType::Bytes);
                push_field(&mut out, "referral_fee_bps", 2, FieldType::UnsignedLe);
                push_field(&mut out, "emergency_mode", 1, FieldType::UnsignedLe);
                push_field(&mut out, "auto_deleverage_enabled", 1, FieldType::UnsignedLe);
                push_field(&mut out, "borrow_disabled", 1, FieldType::UnsignedLe);
                push_field(&mut out, "price_refresh_trigger_to_max_age_pct", 4, FieldType::Bytes);
                push_field(&mut out, "liquidation_max_debt_close_factor_pct", 1, FieldType::UnsignedLe);
                push_field(&mut out, "insolvency_risk_unhealthy_ltv_pct", 4, FieldType::Bytes);
                push_field(&mut out, "min_full_liquidation_value_threshold", 8, FieldType::UnsignedLe);
                push_field(&mut out, "max_liquidatable_debt_market_value_at_once", 8, FieldType::UnsignedLe);
                push_field(&mut out, "reserved0", 8, FieldType::Reserved);
                push_field(&mut out, "global_allowed_borrow_value", 8, FieldType::UnsignedLe);
                push_field(&mut out, "risk_council", 32, FieldType::AddressBytes);
                push_field(&mut out, "reserved1", 8, FieldType::Reserved);
                push_field(&mut out, "elevation_group_padding", 8, FieldType::Reserved);
                push_field(&mut out, "min_net_value_in_obligation_sf", 8, FieldType::UnsignedLe);
                push_field(&mut out, "min_value_skip_liquidation_ltv_checks", 8, FieldType::UnsignedLe);
                push_field(&mut out, "name", 32, FieldType::Text);
                push_field(&mut out, "min_value_skip_liquidation_bf_checks", 8, FieldType::UnsignedLe);
                push_field(&mut out, "min_initial_deposit_amount", 8, FieldType::UnsignedLe);
                push_field(&mut out, "obligation_orders_enabled", 1, FieldType::UnsignedLe);
                push_field(&mut out, "padding2", 4, FieldType::Reserved);
                push_field(&mut out, "padding1", 8, FieldType::Reserved);
            },
            SchemaKind::LendingMarketMetadata => {
                push_field(&mut out, "bump_seed", 8, FieldType::UnsignedLe);
                push_field(&mut out, "market_name_len", 2, FieldType::LengthPrefix);
                push_field(&mut out, "market_name", 24, FieldType::Text);
                push_field(&mut out, "market_description_len", 2, FieldType::LengthPrefix);
                push_field(&mut out, "market_description", 32, FieldType::Text);
                push_field(&mut out, "market_image_url_len", 2, FieldType::LengthPrefix);
                push_field(&mut out, "market_image_url", 24, FieldType::Text);
                push_field(&mut out, "lookup_tables_len", 1, FieldType::LengthPrefix);
                push_field(&mut out, "lookup_tables", 16, FieldType::Bytes);
            },
            SchemaKind::Reserve => {
                push_field(&mut out, "version", 4, FieldType::UnsignedLe);
                push_field(&mut out, "last_update", 32, FieldType::Nested);
                push_field(&mut out, "lending_market", 32, FieldType::AddressBytes);
                push_field(&mut out, "farm_collateral", 32, FieldType::AddressBytes);
                push_field(&mut out, "farm_debt", 32, FieldType::AddressBytes);
                push_field(&mut out, "liquidity", 253, FieldType::Nested);
                push_field(&mut out, "reserve_liquidity_padding", 8, FieldType::Reserved);
                push_field(&mut out, "collateral", 88, FieldType::Nested);
                push_field(&mut out, "reserve_collateral_padding", 8, FieldType::Reserved);
                push_field(&mut out, "config", 345, FieldType::Nested);
                push_field(&mut out, "config_padding", 8, FieldType::Reserved);
                push_field(&mut out, "borrowed_amount_outside_elevation_group", 8, FieldType::UnsignedLe);
                push_field(&mut out, "borrowed_amounts_against_this_reserve_in_elevation_groups", 32, FieldType::Bytes);
                push_field(&mut out, "padding", 8, FieldType::Reserved);
                push_field(&mut out, "discriminator", 8, FieldType::Bytes);
            },
            SchemaKind::RateLimiter => {
                push_field(&mut out, "window_duration", 8, FieldType::UnsignedLe);
                push_field(&mut out, "max_outflow", 8, FieldType::UnsignedLe);
                push_field(&mut out, "previous_quantity", 8, FieldType::UnsignedLe);
                push_field(&mut out, "window_start", 8, FieldType::UnsignedLe);
                push_field(&mut out, "current_quantity", 8, FieldType::UnsignedLe);
                push_field(&mut out, "reserved", 16, FieldType::Reserved);
            },
        }
        out
    }
}

/// Appends one field descriptor, extending the width sum by its width.
fn push_field(out: &mut Vec<FieldDesc>, name: &'static str, width: usize, field_type: FieldType)
    ensures
        final(out)@ == old(out)@.push(FieldDesc { name, width, field_type }),
        spec_widths_sum(final(out)@) == spec_widths_sum(old(out)@) + width,
{
    out.push(FieldDesc { name, width, field_type });
    proof {
        assert(out@.drop_last() =~= old(out)@);
    }
}

/// A record decoded by the unified decoder.
#[derive(Debug, Clone)]
pub enum DecodedRecord {
    Market(crate::lending_market::LendingMarket),
    KaminoMarket(crate::kamino_market::LendingMarket),
    Metadata(crate::market_metadata::LendingMarketMetadata),
    Reserve(Reserve),
    Limiter(RateLimiter),
}

/// Mathematical model of a decoded record.
#[verifier::ext_equal]
pub enum DecodedRecordV {
    Market(crate::lending_market::LendingMarketV),
    KaminoMarket(crate::kamino_market::LendingMarketV),
    Metadata(crate::market_metadata::LendingMarketMetadataV),
    Reserve(crate::reserve::ReserveV),
    Limiter(RateLimiter),
}

impl View for DecodedRecord {
    type V = DecodedRecordV;

    open spec fn view(&self) -> DecodedRecordV {
        match self {
            DecodedRecord::Market(m) => DecodedRecordV::Market(m@),
            DecodedRecord::KaminoMarket(m) => DecodedRecordV::KaminoMarket(m@),
            DecodedRecord::Metadata(m) => DecodedRecordV::Metadata(m@),
            DecodedRecord::Reserve(m) => DecodedRecordV::Reserve(m@),
            DecodedRecord::Limiter(l) => DecodedRecordV::Limiter(*l),
        }
    }
}

/// Which strategy produced a decoded record.
#[derive(Debug, Clone, Copy, PartialEq, Eq, Structural)]
pub enum DecodeStrategy {
    /// The exact-size canonical reading.
    Strict,
    /// The exact-size lenient reinterpretation.
    Relaxed,
    /// The strict reading of the exact-size prefix of a longer buffer.
    Truncated,
}

/// Advisory facts about a decode: the sizes seen and the strategy used.
/// They never alter control flow, but a relaxed or truncated strategy
/// signals schema drift to operators.
#[derive(Debug, Clone, Copy, PartialEq, Eq, Structural)]
pub struct Diagnostics {
    pub observed_len: usize,
    pub expected_len: usize,
    pub strategy: DecodeStrategy,
}

/// A fully decoded record with its diagnostics.
#[derive(Debug, Clone)]
pub struct DecodeSuccess {
    pub record: DecodedRecord,
    pub diagnostics: Diagnostics,
}

/// Whether the strict strategy accepts the exact-size buffer `b`.
pub open spec fn spec_strict_ok(kind: SchemaKind, b: Seq<u8>) -> bool {
    match kind {
        SchemaKind::LendingMarket => spec_market_strict_ok(b),
        SchemaKind::KaminoLendingMarket => true,
        SchemaKind::LendingMarketMetadata => spec_metadata_strict_ok(b),
        SchemaKind::Reserve => true,
        SchemaKind::RateLimiter => true,
    }
}

/// The strict reading of an exact-size buffer.
pub open spec fn spec_strict_record(kind: SchemaKind, b: Seq<u8>) -> DecodedRecordV {
    match kind {
        SchemaKind::LendingMarket => DecodedRecordV::Market(spec_market_of(b)),
        SchemaKind::KaminoLendingMarket => DecodedRecordV::KaminoMarket(spec_kamino_market_of(b)),
        SchemaKind::LendingMarketMetadata => DecodedRecordV::Metadata(spec_metadata_strict(b)),
        SchemaKind::Reserve => DecodedRecordV::Reserve(spec_reserve_of(b)),
        SchemaKind::RateLimiter => DecodedRecordV::Limiter(spec_rate_limiter_of(b)),
    }
}

/// The relaxed reading of an exact-size buffer. It coincides with the
/// strict reading wherever the strict strategy succeeds.
pub open spec fn spec_relaxed_record(kind: SchemaKind, b: Seq<u8>) -> DecodedRecordV {
    match kind {
        SchemaKind::LendingMarket => DecodedRecordV::Market(spec_market_of(b)),
        SchemaKind::KaminoLendingMarket => DecodedRecordV::KaminoMarket(spec_kamino_market_of(b)),
        SchemaKind::LendingMarketMetadata => DecodedRecordV::Metadata(spec_metadata_relaxed(b)),
        SchemaKind::Reserve => DecodedRecordV::Reserve(spec_reserve_of(b)),
        SchemaKind::RateLimiter => DecodedRecordV::Limiter(spec_rate_limiter_of(b)),
    }
}

/// The decoder's outcome on arbitrary bytes: buffers shorter than the
/// schema's expected size are rejected at once; exact-size buffers decode
/// strictly or, failing that, relaxed; longer buffers decode strictly from
/// their exact-size prefix or are rejected as a schema mismatch.
pub open spec fn spec_decode(kind: SchemaKind, b: Seq<u8>) -> Result<
    (DecodedRecordV, DecodeStrategy),
    DecodeError,
> {
    let n = spec_expected_size(kind);
    if b.len() < n {
        Err(DecodeError::InsufficientData)
    } else if b.len() == n {
        if spec_strict_ok(kind, b) {
            Ok((spec_strict_record(kind, b), DecodeStrategy::Strict))
        } else {
            Ok((spec_relaxed_record(kind, b), DecodeStrategy::Relaxed))
        }
    } else if spec_strict_ok(kind, b.subrange(0, n)) {
        Ok((spec_strict_record(kind, b.subrange(0, n)), DecodeStrategy::Truncated))
    } else {
        Err(DecodeError::SchemaMismatch)
    }
}

/// Decodes one record of the given kind from raw account bytes, trying the
/// strict, relaxed and truncated strategies in order, and reports which
/// strategy succeeded beside the observed and expected sizes.
pub fn decode(schema: SchemaKind, data: &[u8]) -> (r: Result<DecodeSuccess, DecodeError>)
    ensures
        match spec_decode(schema, data@) {
            Ok(p) => r matches Ok(s) && s.record@ == p.0 && s.diagnostics.strategy == p.1
                && s.diagnostics.observed_len == data@.len() && s.diagnostics.expected_len
                == spec_expected_size(schema),
            Err(e) => r matches Err(e2) && e2 == e,
        },
{
    let observed_len = data.len();
    let expected_len = schema.expected_size_bytes();
    if observed_len < expected_len {
        return Err(DecodeError::InsufficientData);
    }
    let strict_ok: bool = match schema {
        SchemaKind::LendingMarket => {
            let tag = read_u8(data, 218);
            proof {
                assert(data@.subrange(0, 290)[218] == data@[218]);
            }
            tag == 0 || tag == 1
        },
        SchemaKind::KaminoLendingMarket => true,
        SchemaKind::Reserve => true,
        SchemaKind::LendingMarketMetadata => {
            let name_len = read_u16_le(data, 8);
            let desc_len = read_u16_le(data, 34);
            let url_len = read_u16_le(data, 68);
            let count = read_u8(data, 94);
            proof {
                let b = data@.subrange(0, 111);
                assert(data@.subrange(8, 10) =~= b.subrange(8, 10));
                assert(data@.subrange(34, 36) =~= b.subrange(34, 36));
                assert(data@.subrange(68, 70) =~= b.subrange(68, 70));
                assert(data@[94] == b[94]);
            }
            name_len <= 24 && desc_len <= 32 && url_len <= 24 && count <= 16
        },
        SchemaKind::RateLimiter => true,
    };
    let strategy = if observed_len == expected_len {
        if strict_ok {
            DecodeStrategy::Strict
        } else {
            DecodeStrategy::Relaxed
        }
    } else {
        if strict_ok {
            DecodeStrategy::Truncated
        } else {
            return Err(DecodeError::SchemaMismatch);
        }
    };
    let record = match schema {
        SchemaKind::LendingMarket => {
            match crate::lending_market::LendingMarket::from_bytes(data) {
                Ok(m) => DecodedRecord::Market(m),
                Err(_) => {
                    proof {
                        assert(false);
                    }
                    return Err(DecodeError::SchemaMismatch);
                },
            }
        },
        SchemaKind::KaminoLendingMarket => {
            proof {
                if observed_len == 272 {
                    assert(data@.subrange(0, 272) =~= data@);
                }
            }
            match crate::kamino_market::LendingMarket::from_bytes(data) {
                Ok(m) => DecodedRecord::KaminoMarket(m),
                Err(_) => {
                    proof {
                        assert(false);
                    }
                    return Err(DecodeError::SchemaMismatch);
                },
            }
        },
        SchemaKind::LendingMarketMetadata => {
            match crate::market_metadata::LendingMarketMetadata::from_bytes(data) {
                Ok(m) => DecodedRecord::Metadata(m),
                Err(_) => {
                    proof {
                        assert(false);
                    }
                    return Err(DecodeError::SchemaMismatch);
                },
            }
        },
        SchemaKind::Reserve => {
            proof {
                if observed_len == 898 {
                    assert(data@.subrange(0, 898) =~= data@);
                }
            }
            match Reserve::from_bytes(data) {
                Ok(m) => DecodedRecord::Reserve(m),
                Err(_) => {
                    proof {
                        assert(false);
                    }
                    return Err(DecodeError::SchemaMismatch);
                },
            }
        },
        SchemaKind::RateLimiter => {
            let l = RateLimiter::decode_at(data, 0);
            proof {
                if observed_len == 56 {
                    assert(data@.subrange(0, 56) =~= data@);
                }
            }
            DecodedRecord::Limiter(l)
        },
    };
    Ok(DecodeSuccess { record, diagnostics: Diagnostics { observed_len, expected_len, strategy } })
}

impl DecodedRecordV {
    /// The schema kind this record belongs to.
    pub open spec fn schema_kind(&self) -> SchemaKind {
        match self {
            DecodedRecordV::Market(_) => SchemaKind::LendingMarket,
            DecodedRecordV::KaminoMarket(_) => SchemaKind::KaminoLendingMarket,
            DecodedRecordV::Metadata(_) => SchemaKind::LendingMarketMetadata,
            DecodedRecordV::Reserve(_) => SchemaKind::Reserve,
            DecodedRecordV::Limiter(_) => SchemaKind::RateLimiter,
        }
    }

    /// Whether the record's fields fit its schema.
    pub open spec fn wf(&self) -> bool {
        match self {
            DecodedRecordV::Market(m) => m.wf(),
            DecodedRecordV::KaminoMarket(m) => m.wf(),
            DecodedRecordV::Metadata(m) => m.wf(),
            DecodedRecordV::Reserve(m) => m.wf(),
            DecodedRecordV::Limiter(_) => true,
        }
    }
}

/// The canonical encoding of a record, under its own schema.
pub open spec fn spec_encode_record(v: DecodedRecordV) -> Seq<u8> {
    match v {
        DecodedRecordV::Market(m) => crate::lending_market::spec_market_bytes(m),
        DecodedRecordV::KaminoMarket(m) => crate::kamino_market::spec_kamino_market_bytes(m),
        DecodedRecordV::Metadata(m) => crate::market_metadata::spec_metadata_bytes(m),
        DecodedRecordV::Reserve(m) => crate::reserve::spec_reserve_bytes(m),
        DecodedRecordV::Limiter(l) => crate::rate_limiter::spec_rate_limiter_bytes(l),
    }
}

/// Decoding the canonical encoding of any well-formed record succeeds
/// through the strict strategy and returns the record unchanged.
pub proof fn lemma_decode_encode_round_trip(v: DecodedRecordV)
    requires
        v.wf(),
    ensures
        spec_encode_record(v).len() == spec_expected_size(v.schema_kind()),
        spec_decode(v.schema_kind(), spec_encode_record(v)) == Ok::<
            (DecodedRecordV, DecodeStrategy),
            DecodeError,
        >((v, DecodeStrategy::Strict)),
{
    match v {
        DecodedRecordV::Market(m) => {
            crate::lending_market::lemma_market_round_trip(m);
        },
        DecodedRecordV::KaminoMarket(m) => {
            crate::kamino_market::lemma_kamino_market_round_trip(m);
        },
        DecodedRecordV::Metadata(m) => {
            crate::market_metadata::lemma_metadata_round_trip(m);
        },
        DecodedRecordV::Reserve(m) => {
            crate::reserve::lemma_reserve_round_trip(m);
        },
        DecodedRecordV::Limiter(l) => {
            crate::rate_limiter::lemma_rate_limiter_round_trip(l);
        },
    }
}

/// Every buffer shorter than the schema's expected size is rejected as
/// insufficient data, whatever it holds.
pub proof fn lemma_decode_insufficient(kind: SchemaKind, b: Seq<u8>)
    requires
        b.len() < spec_expected_size(kind),
    ensures
        spec_decode(kind, b) == Err::<(DecodedRecordV, DecodeStrategy), DecodeError>(
            DecodeError::InsufficientData,
        ),
{
}

/// A buffer longer than the schema's expected size whose exact-size prefix
/// is strictly valid decodes through the truncated strategy, to exactly
/// the record that decoding the prefix alone yields.
pub proof fn lemma_decode_truncated(kind: SchemaKind, b: Seq<u8>)
    requires
        b.len() > spec_expected_size(kind),
        spec_strict_ok(kind, b.subrange(0, spec_expected_size(kind))),
    ensures
        spec_decode(kind, b) == Ok::<(DecodedRecordV, DecodeStrategy), DecodeError>(
            (
                spec_strict_record(kind, b.subrange(0, spec_expected_size(kind))),
                DecodeStrategy::Truncated,
            ),
        ),
        spec_decode(kind, b.subrange(0, spec_expected_size(kind))) == Ok::<
            (DecodedRecordV, DecodeStrategy),
            DecodeError,
        >(
            (
                spec_strict_record(kind, b.subrange(0, spec_expected_size(kind))),
                DecodeStrategy::Strict,
            ),
        ),
{
}

/// The ownership check callers make before decoding: the reported owner of
/// the fetched account must equal the expected program identifier.
pub fn check_owner(owner: &Address, expected_program: &Address) -> (r: Result<(), DecodeError>)
    ensures
        owner@ == expected_program@ ==> r is Ok,
        owner@ != expected_program@ ==> (r matches Err(e) && e == DecodeError::OwnershipMismatch),
{
    if owner.eq_addr(expected_program) {
        Ok(())
    } else {
        Err(DecodeError::OwnershipMismatch)
    }
}

/// Verifies ownership of a fetched account and then decodes its bytes:
/// an owner other than the expected program fails without attempting any
/// decode strategy.
pub fn decode_account(
    schema: SchemaKind,
    owner: &Address,
    expected_program: &Address,
    data: &[u8],
) -> (r: Result<DecodeSuccess, DecodeError>)
    ensures
        owner@ != expected_program@ ==> (r matches Err(e) && e == DecodeError::OwnershipMismatch),
        owner@ == expected_program@ ==> match spec_decode(schema, data@) {
            Ok(p) => r matches Ok(s) && s.record@ == p.0 && s.diagnostics.strategy == p.1
                && s.diagnostics.observed_len == data@.len() && s.diagnostics.expected_len
                == spec_expected_size(schema),
            Err(e) => r matches Err(e2) && e2 == e,
        },
{
    check_owner(owner, expected_program)?;
    decode(schema, data)
}

} // verus!
