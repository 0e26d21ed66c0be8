//! Random draws, made with the `rand` crate's thread-local generator.

use rand::RngExt;
use vstd::prelude::*;

verus! {

/// Draws a value uniformly from `low..=high` with `rand::rng().random_range`.
/// The contract states only that the value lies in the range: which value
/// comes out is left to chance.
#[verifier::external_body]
pub fn random_in_range(low: u64, high: u64) -> (r: u64)
    requires
        low <= high,
    ensures
        low <= r <= high,
{
    rand::rng().random_range(low..=high)
}

/// An index drawn at random below `len`.
pub fn random_index(len: usize) -> (r: usize)
    requires
        len > 0,
    ensures
        r < len,
{
    random_in_range(0, (len - 1) as u64) as usize
}

/// A wait in nanoseconds drawn at random between `low_ms` and `high_ms`
/// milliseconds. Where the span fits in a `u64` of nanoseconds, a single draw
/// covers it; a longer span is drawn as whole milliseconds and then the
/// nanoseconds below the next millisecond.
pub fn random_wait_ns(low_ms: u64, high_ms: u64) -> (r: u128)
    requires
        low_ms <= high_ms,
    ensures
        low_ms * 1_000_000 <= r <= high_ms * 1_000_000,
{
    let low: u128 = (low_ms as u128) * 1_000_000;
    let span_ms: u64 = high_ms - low_ms;
    let span: u128 = (span_ms as u128) * 1_000_000;
    if span <= u64::MAX as u128 {
        let offset = random_in_range(0, span as u64);
        low + offset as u128
    } else {
        let whole_ms = random_in_range(0, span_ms);
        let below = if whole_ms < span_ms {
            random_in_range(0, 999_999)
        } else {
            0
        };
        proof {
            assert((whole_ms as u128) * 1_000_000 + below <= (span_ms as u128) * 1_000_000)
                by (nonlinear_arith)
                requires
                    whole_ms <= span_ms,
                    below <= 999_999,
                    whole_ms == span_ms ==> below == 0,
            ;
        }
        low + (whole_ms as u128) * 1_000_000 + below as u128
    }
}

/// The face a draw from `0..=1` shows: heads (`true`) exactly when the draw is zero.
pub fn coin_from_draw(draw: u64) -> (r: bool)
    ensures
        r == (draw == 0),
{
    draw == 0
}

/// A fair coin: the face of a draw from `0..=1`. Either face can come out.
pub fn coin_flip() -> bool {
    coin_from_draw(random_in_range(0, 1))
}

} // verus!
