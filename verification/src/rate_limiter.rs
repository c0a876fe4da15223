//! The rate limiter record embedded in a lending market account.

use crate::fields::push_u64_le;
use crate::fields::push_zeros;
use crate::fields::read_u64_le;
use crate::fields::zero_bytes;
use vstd::bytes::lemma_auto_spec_u64_to_from_le_bytes;
use vstd::bytes::spec_u64_from_le_bytes;
use vstd::bytes::spec_u64_to_le_bytes;
use vstd::prelude::*;

verus! {

/// The serialized width of a rate limiter record.
pub const RATE_LIMITER_LEN: usize = 56;

/// Rate limiter window configuration.
#[derive(Debug, Clone, Copy, PartialEq, Eq, Structural)]
pub struct RateLimiterConfig {
    /// Length of the sliding window, in slots.
    pub window_duration: u64,
    /// Maximum outflow permitted within one window.
    pub max_outflow: u64,
}

/// Sliding-window outflow limiter state.
#[derive(Debug, Clone, Copy, PartialEq, Eq, Structural)]
pub struct RateLimiter {
    pub config: RateLimiterConfig,
    pub previous_quantity: u64,
    pub window_start: u64,
    pub current_quantity: u64,
}

/// A decoded rate limiter together with the outflow still permitted, where
/// that has been computed.
#[derive(Debug, Clone, Copy, PartialEq, Eq, Structural)]
pub struct ParsedRateLimiter {
    pub config: RateLimiterConfig,
    pub window_start: u64,
    pub previous_quantity: u64,
    pub current_quantity: u64,
    pub remaining_outflow: Option<u64>,
}

/// The rate limiter encoded by the first 56 bytes of `b`: five
/// little-endian u64 fields followed by 16 reserved bytes.
pub open spec fn spec_rate_limiter_of(b: Seq<u8>) -> RateLimiter {
    RateLimiter {
        config: RateLimiterConfig {
            window_duration: spec_u64_from_le_bytes(b.subrange(0, 8)),
            max_outflow: spec_u64_from_le_bytes(b.subrange(8, 16)),
        },
        previous_quantity: spec_u64_from_le_bytes(b.subrange(16, 24)),
        window_start: spec_u64_from_le_bytes(b.subrange(24, 32)),
        current_quantity: spec_u64_from_le_bytes(b.subrange(32, 40)),
    }
}

/// The canonical 56-byte encoding of a rate limiter.
pub open spec fn spec_rate_limiter_bytes(r: RateLimiter) -> Seq<u8> {
    spec_u64_to_le_bytes(r.config.window_duration) + spec_u64_to_le_bytes(r.config.max_outflow)
        + spec_u64_to_le_bytes(r.previous_quantity) + spec_u64_to_le_bytes(r.window_start)
        + spec_u64_to_le_bytes(r.current_quantity) + zero_bytes(16)
}

impl RateLimiter {
    /// Decodes the rate limiter stored at `off` in a larger record.
    pub fn decode_at(data: &[u8], off: usize) -> (r: RateLimiter)
        requires
            off + RATE_LIMITER_LEN <= data@.len(),
        ensures
            r == spec_rate_limiter_of(data@.subrange(off as int, off + RATE_LIMITER_LEN)),
    {
        let ghost b = data@.subrange(off as int, off + RATE_LIMITER_LEN);
        let _len = data.len();
        let window_duration = read_u64_le(data, off);
        let max_outflow = read_u64_le(data, off + 8);
        let previous_quantity = read_u64_le(data, off + 16);
        let window_start = read_u64_le(data, off + 24);
        let current_quantity = read_u64_le(data, off + 32);
        proof {
            assert(data@.subrange(off as int, off + 8) =~= b.subrange(0, 8));
            assert(data@.subrange(off + 8, off + 16) =~= b.subrange(8, 16));
            assert(data@.subrange(off + 16, off + 24) =~= b.subrange(16, 24));
            assert(data@.subrange(off + 24, off + 32) =~= b.subrange(24, 32));
            assert(data@.subrange(off + 32, off + 40) =~= b.subrange(32, 40));
        }
        RateLimiter {
            config: RateLimiterConfig { window_duration, max_outflow },
            previous_quantity,
            window_start,
            current_quantity,
        }
    }

    /// Appends the canonical 56-byte encoding of this rate limiter.
    pub fn encode_onto(&self, out: &mut Vec<u8>)
        ensures
            final(out)@ == old(out)@ + spec_rate_limiter_bytes(*self),
    {
        push_u64_le(out, self.config.window_duration);
        push_u64_le(out, self.config.max_outflow);
        push_u64_le(out, self.previous_quantity);
        push_u64_le(out, self.window_start);
        push_u64_le(out, self.current_quantity);
        push_zeros(out, 16);
        proof {
            assert(out@ =~= old(out)@ + spec_rate_limiter_bytes(*self));
        }
    }
}

/// The canonical encoding is 56 bytes long and decodes back to the record
/// it encodes.
pub proof fn lemma_rate_limiter_round_trip(r: RateLimiter)
    ensures
        spec_rate_limiter_bytes(r).len() == RATE_LIMITER_LEN,
        spec_rate_limiter_of(spec_rate_limiter_bytes(r)) == r,
{
    lemma_auto_spec_u64_to_from_le_bytes();
    let b = spec_rate_limiter_bytes(r);
    assert(b.subrange(0, 8) =~= spec_u64_to_le_bytes(r.config.window_duration));
    assert(b.subrange(8, 16) =~= spec_u64_to_le_bytes(r.config.max_outflow));
    assert(b.subrange(16, 24) =~= spec_u64_to_le_bytes(r.previous_quantity));
    assert(b.subrange(24, 32) =~= spec_u64_to_le_bytes(r.window_start));
    assert(b.subrange(32, 40) =~= spec_u64_to_le_bytes(r.current_quantity));
}

} // verus!
