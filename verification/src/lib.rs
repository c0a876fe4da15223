//! Decoding of fixed-layout lending-program account records, exact
//! transaction size estimation, and program-derived address computation.

use vstd::prelude::*;

mod address;
mod error;
mod fields;
pub mod kamino_market;
mod lending_market;
mod market_metadata;
mod obligation;
pub mod pda;
mod rate_limiter;
mod reserve;
mod schema;
mod transaction;

pub use address::Address;
pub use address::ADDRESS_BYTES;
pub use error::DecodeError;
pub use error::KaminoError;
pub use error::SolendError;
pub use lending_market::parse_lending_market;
pub use lending_market::LendingMarket;
pub use lending_market::LendingMarketV;
pub use lending_market::ParsedLendingMarketResult;
pub use lending_market::LENDING_MARKET_SIZE;
pub use obligation::get_obligation_pda_with_args;
pub use obligation::InitObligationArgsModel;
pub use obligation::ObligationType;
pub use pda::pda_of;
pub use pda::spec_seeds_ok;
pub use pda::MAX_SEEDS;
pub use pda::MAX_SEED_LEN;
pub use market_metadata::parse_lending_market_metadata;
pub use market_metadata::trim_string;
pub use market_metadata::LendingMarketMetadata;
pub use market_metadata::LendingMarketMetadataV;
pub use market_metadata::ParsedLendingMarketMetadataResult;
pub use market_metadata::LENDING_MARKET_METADATA_SIZE;
pub use reserve::get_reserves_active;
pub use reserve::RESERVE_SIZE;
pub use reserve::ElevationGroup;
pub use reserve::KaminoReserve;
pub use reserve::LastUpdate;
pub use reserve::LastUpdateLayout;
pub use reserve::Reserve;
pub use reserve::ReserveCollateral;
pub use reserve::ReserveConfig;
pub use reserve::ReserveLiquidity;
pub use schema::check_owner;
pub use schema::lemma_decode_encode_round_trip;
pub use schema::lemma_decode_insufficient;
pub use schema::lemma_decode_truncated;
pub use schema::spec_encode_record;
pub use schema::spec_relaxed_record;
pub use schema::spec_strict_ok;
pub use schema::spec_strict_record;
pub use schema::decode;
pub use schema::decode_account;
pub use schema::spec_decode;
pub use schema::spec_expected_size;
pub use schema::DecodeStrategy;
pub use schema::DecodeSuccess;
pub use schema::DecodedRecord;
pub use schema::DecodedRecordV;
pub use schema::Diagnostics;
pub use schema::FieldDesc;
pub use schema::FieldType;
pub use schema::SchemaKind;
pub use rate_limiter::ParsedRateLimiter;
pub use rate_limiter::RateLimiter;
pub use rate_limiter::RateLimiterConfig;
pub use rate_limiter::RATE_LIMITER_LEN;
pub use transaction::boolean_to_int;
pub use transaction::lemma_empty_transaction_size;
pub use transaction::lemma_size_order_independent;
pub use transaction::spec_compact_u16_len;
pub use transaction::spec_tx_size;
pub use transaction::spec_tx_size_result;
pub use transaction::AccountMetaV;
pub use transaction::InstructionV;
pub use transaction::default_priority_fee_config;
pub use transaction::estimate_size;
pub use transaction::get_size_of_compressed_u16;
pub use transaction::get_size_of_transaction;
pub use transaction::AccountMeta;
pub use transaction::Instruction;
pub use transaction::PriorityFeeConfig;
pub use transaction::DEFAULT_COMPUTE_BUDGET_UNITS;
pub use transaction::PACKET_DATA_SIZE;
pub use transaction::PACKET_DATA_SIZE_WITH_ROOM_FOR_COMPUTE_BUDGET;
