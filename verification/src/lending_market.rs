//! The solend lending market account record and its resilient decoder.
//!
//! The record is a fixed 290-byte layout: two header bytes, five addresses,
//! an embedded rate limiter, an optional whitelisted liquidator stored as a
//! tag byte plus a 32-byte address slot, a final address, and 7 reserved
//! bytes. The strict strategy accepts only the canonical option tags 0 and
//! 1; the relaxed strategy reinterprets any other tag as "present", which
//! deterministically recovers records whose option tag drifted.

use crate::address::Address;
use crate::error::SolendError;
use crate::fields::push_bytes;
use crate::fields::push_u8;
use crate::fields::push_zeros;
use crate::fields::read_address;
use crate::fields::read_u8;
use crate::fields::zero_bytes;
use crate::rate_limiter::spec_rate_limiter_bytes;
use crate::rate_limiter::spec_rate_limiter_of;
use crate::rate_limiter::lemma_rate_limiter_round_trip;
use crate::rate_limiter::RateLimiter;
use vstd::prelude::*;

verus! {

/// The serialized width of a lending market record.
pub const LENDING_MARKET_SIZE: usize = 290;

/// A decoded lending market account.
#[derive(Debug, Clone)]
pub struct LendingMarket {
    pub version: u8,
    pub bump_seed: u8,
    pub owner: Address,
    pub quote_token_mint: Address,
    pub token_program_id: Address,
    pub oracle_program_id: Address,
    pub switchboard_oracle_program_id: Address,
    pub rate_limiter: RateLimiter,
    pub whitelisted_liquidator: Option<Address>,
    pub risk_authority: Address,
}

/// Mathematical model of a lending market record.
#[verifier::ext_equal]
pub struct LendingMarketV {
    pub version: u8,
    pub bump_seed: u8,
    pub owner: Seq<u8>,
    pub quote_token_mint: Seq<u8>,
    pub token_program_id: Seq<u8>,
    pub oracle_program_id: Seq<u8>,
    pub switchboard_oracle_program_id: Seq<u8>,
    pub rate_limiter: RateLimiter,
    pub whitelisted_liquidator: Option<Seq<u8>>,
    pub risk_authority: Seq<u8>,
}

impl View for LendingMarket {
    type V = LendingMarketV;

    open spec fn view(&self) -> LendingMarketV {
        LendingMarketV {
            version: self.version,
            bump_seed: self.bump_seed,
            owner: self.owner@,
            quote_token_mint: self.quote_token_mint@,
            token_program_id: self.token_program_id@,
            oracle_program_id: self.oracle_program_id@,
            switchboard_oracle_program_id: self.switchboard_oracle_program_id@,
            rate_limiter: self.rate_limiter,
            whitelisted_liquidator: match self.whitelisted_liquidator {
                Some(a) => Some(a@),
                None => None,
            },
            risk_authority: self.risk_authority@,
        }
    }
}

impl LendingMarketV {
    /// Every address of the record holds exactly 32 bytes.
    pub open spec fn wf(&self) -> bool {
        &&& self.owner.len() == 32
        &&& self.quote_token_mint.len() == 32
        &&& self.token_program_id.len() == 32
        &&& self.oracle_program_id.len() == 32
        &&& self.switchboard_oracle_program_id.len() == 32
        &&& self.risk_authority.len() == 32
        &&& match self.whitelisted_liquidator {
            Some(a) => a.len() == 32,
            None => true,
        }
    }
}

/// Whether the strict strategy accepts the 290-byte buffer: the option tag
/// of the whitelisted liquidator must be the canonical 0 or 1.
pub open spec fn spec_market_strict_ok(b: Seq<u8>) -> bool {
    b[218] == 0 || b[218] == 1
}

/// The record read from a 290-byte buffer, with the liquidator present
/// exactly when the tag byte is nonzero. On strictly valid buffers this
/// coincides with the strict reading; on others it is the relaxed one.
pub open spec fn spec_market_of(b: Seq<u8>) -> LendingMarketV {
    LendingMarketV {
        version: b[0],
        bump_seed: b[1],
        owner: b.subrange(2, 34),
        quote_token_mint: b.subrange(34, 66),
        token_program_id: b.subrange(66, 98),
        oracle_program_id: b.subrange(98, 130),
        switchboard_oracle_program_id: b.subrange(130, 162),
        rate_limiter: spec_rate_limiter_of(b.subrange(162, 218)),
        whitelisted_liquidator: if b[218] == 0 {
            None
        } else {
            Some(b.subrange(219, 251))
        },
        risk_authority: b.subrange(251, 283),
    }
}

/// The canonical 290-byte encoding of a lending market record.
pub open spec fn spec_market_bytes(v: LendingMarketV) -> Seq<u8> {
    seq![v.version, v.bump_seed] + v.owner + v.quote_token_mint + v.token_program_id
        + v.oracle_program_id + v.switchboard_oracle_program_id + spec_rate_limiter_bytes(
        v.rate_limiter,
    ) + (match v.whitelisted_liquidator {
        Some(a) => seq![1u8] + a,
        None => seq![0u8] + zero_bytes(32),
    }) + v.risk_authority + zero_bytes(7)
}

/// The decoder's outcome on arbitrary bytes: too-short buffers are
/// rejected; exact-size buffers always decode, strictly where the option
/// tag is canonical and relaxed otherwise; longer buffers decode strictly
/// from their 290-byte prefix or are rejected.
pub open spec fn spec_market_from_bytes(b: Seq<u8>) -> Result<LendingMarketV, SolendError> {
    if b.len() < 290 {
        Err(SolendError::FailedToParse)
    } else if b.len() == 290 {
        Ok(spec_market_of(b))
    } else if spec_market_strict_ok(b.subrange(0, 290)) {
        Ok(spec_market_of(b.subrange(0, 290)))
    } else {
        Err(SolendError::FailedToParse)
    }
}

/// Reads the record held in the first 290 bytes, with the relaxed
/// interpretation of the option tag.
fn decode_market(data: &[u8]) -> (r: LendingMarket)
    requires
        data@.len() >= 290,
    ensures
        r@ == spec_market_of(data@.subrange(0, 290)),
        r@.wf(),
{
    let ghost b = data@.subrange(0, 290);
    let _len = data.len();
    let version = read_u8(data, 0);
    let bump_seed = read_u8(data, 1);
    let owner = read_address(data, 2);
    let quote_token_mint = read_address(data, 34);
    let token_program_id = read_address(data, 66);
    let oracle_program_id = read_address(data, 98);
    let switchboard_oracle_program_id = read_address(data, 130);
    let rate_limiter = RateLimiter::decode_at(data, 162);
    let tag = read_u8(data, 218);
    let whitelisted_liquidator = if tag == 0 {
        None
    } else {
        Some(read_address(data, 219))
    };
    let risk_authority = read_address(data, 251);
    proof {
        assert(b[0] == data@[0]);
        assert(b[1] == data@[1]);
        assert(b[218] == data@[218]);
        assert(data@.subrange(2, 34) =~= b.subrange(2, 34));
        assert(data@.subrange(34, 66) =~= b.subrange(34, 66));
        assert(data@.subrange(66, 98) =~= b.subrange(66, 98));
        assert(data@.subrange(98, 130) =~= b.subrange(98, 130));
        assert(data@.subrange(130, 162) =~= b.subrange(130, 162));
        assert(data@.subrange(162, 218) =~= b.subrange(162, 218));
        assert(data@.subrange(219, 251) =~= b.subrange(219, 251));
        assert(data@.subrange(251, 283) =~= b.subrange(251, 283));
    }
    LendingMarket {
        version,
        bump_seed,
        owner,
        quote_token_mint,
        token_program_id,
        oracle_program_id,
        switchboard_oracle_program_id,
        rate_limiter,
        whitelisted_liquidator,
        risk_authority,
    }
}

impl LendingMarket {
    /// Decodes a lending market from raw account bytes, trying the strict,
    /// relaxed and truncated strategies in order. Buffers shorter than the
    /// record are rejected; exact-size buffers always decode; longer
    /// buffers decode when their 290-byte prefix is strictly valid.
    pub fn from_bytes(data: &[u8]) -> (r: Result<LendingMarket, SolendError>)
        ensures
            match spec_market_from_bytes(data@) {
                Ok(v) => r matches Ok(m) && m@ == v && m@.wf(),
                Err(e) => r matches Err(e2) && e2 == e,
            },
    {
        if data.len() < LENDING_MARKET_SIZE {
            return Err(SolendError::FailedToParse);
        }
        if data.len() == LENDING_MARKET_SIZE {
            let m = decode_market(data);
            proof {
                assert(data@.subrange(0, 290) =~= data@);
            }
            return Ok(m);
        }
        let tag = read_u8(data, 218);
        if tag == 0 || tag == 1 {
            let m = decode_market(data);
            Ok(m)
        } else {
            Err(SolendError::FailedToParse)
        }
    }

    /// The relaxed strategy on its own: reinterprets a non-canonical
    /// option tag as "present" instead of failing, on an exact-size
    /// buffer. This replaces ad hoc byte flipping with one deterministic
    /// reinterpretation.
    pub fn try_fix_enum_tag_error(data: &[u8]) -> (r: Result<LendingMarket, SolendError>)
        ensures
            data@.len() == 290 ==> (r matches Ok(m) && m@ == spec_market_of(data@) && m@.wf()),
            data@.len() != 290 ==> (r matches Err(e) && e == SolendError::FailedToParse),
    {
        if data.len() != LENDING_MARKET_SIZE {
            return Err(SolendError::FailedToParse);
        }
        let m = decode_market(data);
        proof {
            assert(data@.subrange(0, 290) =~= data@);
        }
        Ok(m)
    }

    /// Encodes the record into its canonical 290-byte form.
    pub fn encode(&self) -> (r: Vec<u8>)
        requires
            self@.wf(),
        ensures
            r@ == spec_market_bytes(self@),
    {
        let mut out: Vec<u8> = Vec::new();
        push_u8(&mut out, self.version);
        push_u8(&mut out, self.bump_seed);
        push_bytes(&mut out, self.owner.as_bytes());
        push_bytes(&mut out, self.quote_token_mint.as_bytes());
        push_bytes(&mut out, self.token_program_id.as_bytes());
        push_bytes(&mut out, self.oracle_program_id.as_bytes());
        push_bytes(&mut out, self.switchboard_oracle_program_id.as_bytes());
        self.rate_limiter.encode_onto(&mut out);
        match &self.whitelisted_liquidator {
            Some(a) => {
                push_u8(&mut out, 1);
                push_bytes(&mut out, a.as_bytes());
            },
            None => {
                push_u8(&mut out, 0);
                push_zeros(&mut out, 32);
            },
        }
        push_bytes(&mut out, self.risk_authority.as_bytes());
        push_zeros(&mut out, 7);
        proof {
            assert(seq![self@.version, self@.bump_seed] =~= Seq::<u8>::empty().push(
                self@.version,
            ).push(self@.bump_seed));
            assert(out@ =~= spec_market_bytes(self@));
        }
        out
    }
}

/// The canonical encoding of a well-formed record is 290 bytes long, is
/// strictly valid, and decodes back to the record it encodes.
pub proof fn lemma_market_round_trip(v: LendingMarketV)
    requires
        v.wf(),
    ensures
        spec_market_bytes(v).len() == 290,
        spec_market_strict_ok(spec_market_bytes(v)),
        spec_market_of(spec_market_bytes(v)) == v,
{
    lemma_rate_limiter_round_trip(v.rate_limiter);
    let b = spec_market_bytes(v);
    assert(b.len() == 290);
    assert(b.subrange(2, 34) =~= v.owner);
    assert(b.subrange(34, 66) =~= v.quote_token_mint);
    assert(b.subrange(66, 98) =~= v.token_program_id);
    assert(b.subrange(98, 130) =~= v.oracle_program_id);
    assert(b.subrange(130, 162) =~= v.switchboard_oracle_program_id);
    assert(b.subrange(162, 218) =~= spec_rate_limiter_bytes(v.rate_limiter));
    assert(b.subrange(251, 283) =~= v.risk_authority);
    match v.whitelisted_liquidator {
        Some(a) => {
            assert(b[218] == 1);
            assert(b.subrange(219, 251) =~= a);
        },
        None => {
            assert(b[218] == 0);
        },
    }
    assert(spec_market_of(b) =~= v);
}

/// A lending market together with the account address it was read from.
#[derive(Debug, Clone)]
pub struct ParsedLendingMarketResult {
    pub info: LendingMarket,
    pub pubkey: Address,
}

/// Decodes a lending market from the raw bytes of the account at `pubkey`,
/// keeping the address beside the decoded record.
pub fn parse_lending_market(pubkey: Address, data: &[u8]) -> (r: Result<
    ParsedLendingMarketResult,
    SolendError,
>)
    ensures
        match spec_market_from_bytes(data@) {
            Ok(v) => r matches Ok(p) && p.info@ == v && p.info@.wf() && p.pubkey@ == pubkey@,
            Err(e) => r matches Err(e2) && e2 == e,
        },
{
    match LendingMarket::from_bytes(data) {
        Ok(info) => Ok(ParsedLendingMarketResult { info, pubkey }),
        Err(e) => Err(e),
    }
}

} // verus!
