//! Pagination of one collection, and the pause between two of its pages.

use rand::Rng;
use vstd::prelude::*;

verus! {

/// The number of the first page of every collection.
pub const FIRST_PAGE: i32 = 1;

/// The shortest pause between two pages, in milliseconds.
pub const PACING_MIN_MILLIS: u64 = 1000;

/// The bound that every pause between two pages stays under, in
/// milliseconds.
pub const PACING_LIMIT_MILLIS: u64 = 2000;

/// The page to request after `page`, given the number of the last page as
/// the listing of `page` reported it; `None` once `page` was the last one.
pub open spec fn spec_next_page(page: int, last_page: int) -> Option<int> {
    if page + 1 <= last_page {
        Some(page + 1)
    } else {
        None
    }
}

/// Whether `millis` is a pause that may be taken between two pages.
pub open spec fn spec_is_pacing_delay(millis: u64) -> bool {
    PACING_MIN_MILLIS <= millis < PACING_LIMIT_MILLIS
}

/// The thread-local random number generator of the `rand` crate.
#[verifier::external_type_specification]
#[verifier::external_body]
pub struct ExThreadRng(rand::rngs::ThreadRng);

/// `rand::thread_rng` hands out the generator of the current thread.
/// Nothing is claimed of it. It panics where the operating system gives
/// the generator no seed.
pub assume_specification[ rand::thread_rng ]() -> (rng: rand::rngs::ThreadRng);

/// `Rng::gen_range` on a half-open range of `u64`: for a range that is not
/// empty, the sample lies in the range. Which value it is, is left open.
#[verifier::external_body]
fn sample_below(rng: &mut rand::rngs::ThreadRng, low: u64, high: u64) -> (sample: u64)
    requires
        low < high,
    ensures
        low <= sample < high,
{
    rng.gen_range(low..high)
}

/// Decides whether another page follows `page`.
pub fn next_page(page: i32, last_page: i32) -> (next: Option<i32>)
    ensures
        spec_next_page(page as int, last_page as int) == match next {
            Some(following) => Some(following as int),
            None => None,
        },
{
    if page < last_page {
        Some(page + 1)
    } else {
        None
    }
}

/// Draws the pause to take before the next request, in milliseconds.
pub fn pacing_delay() -> (millis: u64)
    ensures
        spec_is_pacing_delay(millis),
{
    let mut rng = rand::thread_rng();
    sample_below(&mut rng, PACING_MIN_MILLIS, PACING_LIMIT_MILLIS)
}

} // verus!
