//! The random draws the library makes, each one a call into the `rand` crate.
//!
//! Nothing here is proved: every function below is a thin call whose contract
//! records what `rand` documents. A draw is never given a value in a contract,
//! only the range or the set it comes from.

use rand::seq::SliceRandom;
use rand::Rng;
use vstd::prelude::*;

verus! {

/// `rand::rngs::StdRng`, carried through the library as an opaque generator.
#[verifier::external_type_specification]
#[verifier::external_body]
pub struct ExStdRng(rand::rngs::StdRng);

/// `Rng::gen_range(low, high)` on a `StdRng`, for `u64`.
///
/// `rand` documents the result as lying in `[low, high)` and panics when
/// `low >= high`, so that case is excluded here.
#[verifier::external_body]
pub(crate) fn draw_u64(rng: &mut rand::rngs::StdRng, low: u64, high: u64) -> (v: u64)
    requires
        low < high,
    ensures
        low <= v < high,
{
    rng.gen_range(low, high)
}

/// `Rng::gen_range(low, high)` on a `StdRng`, for `usize`.
///
/// `rand` documents the result as lying in `[low, high)` and panics when
/// `low >= high`, so that case is excluded here.
#[verifier::external_body]
pub(crate) fn draw_index(rng: &mut rand::rngs::StdRng, low: usize, high: usize) -> (v: usize)
    requires
        low < high,
    ensures
        low <= v < high,
{
    rng.gen_range(low, high)
}

/// `SliceRandom::choose` on a slice, with a `StdRng`.
///
/// `rand` returns `None` for an empty slice and otherwise a reference to one
/// of the slice's elements.
#[verifier::external_body]
pub(crate) fn pick<'a, T>(rng: &mut rand::rngs::StdRng, options: &'a [T]) -> (picked: Option<&'a T>)
    ensures
        options@.len() == 0 <==> picked is None,
        picked matches Some(item) ==> exists|i: int|
            0 <= i < options@.len() && #[trigger] options@[i] == *item,
{
    options.choose(rng)
}

/// `Rng::gen_range(low, high)` on the thread-local generator of
/// `rand::thread_rng`, for `usize`: a value in `[low, high)`; `rand` panics
/// when `low >= high`, so that case is excluded here.
#[verifier::external_body]
pub(crate) fn thread_index(low: usize, high: usize) -> (v: usize)
    requires
        low < high,
    ensures
        low <= v < high,
{
    rand::thread_rng().gen_range(low, high)
}

/// `Rng::gen::<u8>()` on the thread-local generator of `rand::thread_rng`.
/// Any byte may come back, so nothing is promised of it.
#[verifier::external_body]
pub(crate) fn thread_byte() -> u8 {
    rand::thread_rng().gen()
}

/// `SliceRandom::shuffle` with the thread-local generator of
/// `rand::thread_rng`.
///
/// `rand` shuffles by swapping elements of the slice in place, so the slice
/// afterwards holds the same bytes, each as often as before, in some order.
#[verifier::external_body]
pub(crate) fn thread_shuffle(window: &mut [u8])
    ensures
        final(window)@.len() == old(window)@.len(),
        final(window)@.to_multiset() == old(window)@.to_multiset(),
{
    window.shuffle(&mut rand::thread_rng())
}

} // verus!
