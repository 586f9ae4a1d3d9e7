//! The random draws the game makes, each a call into `rand`.
use vstd::prelude::*;

use rand::seq::SliceRandom;
use rand::Rng;

verus! {

/// `after` holds the items of `before`, the item at `i` taken from position `p[i]`, and
/// `p` names each position once.
pub open spec fn is_permutation_of<T>(after: Seq<T>, before: Seq<T>, p: Seq<int>) -> bool {
    &&& after.len() == before.len()
    &&& p.len() == before.len()
    &&& forall|i: int| 0 <= i < p.len() ==> 0 <= #[trigger] p[i] < before.len()
    &&& forall|i: int, j: int| 0 <= i < j < p.len() ==> p[i] != p[j]
    &&& forall|i: int| 0 <= i < after.len() ==> #[trigger] after[i] == before[p[i]]
}

/// Calls `rand::random::<u32>()`. Any `u32` may come back: nothing is stated of it.
#[verifier::external_body]
pub(crate) fn random_u32() -> u32 {
    rand::random::<u32>()
}

/// Calls `rand::random::<bool>()`. Either value may come back: nothing is stated of it.
#[verifier::external_body]
pub(crate) fn random_bool() -> bool {
    rand::random::<bool>()
}

/// Calls `rand::random::<usize>()`. Any `usize` may come back: nothing is stated of it.
#[verifier::external_body]
pub(crate) fn random_usize() -> usize {
    rand::random::<usize>()
}

/// Calls `rand::thread_rng().gen_range(low..=high)`. rand documents that the value lies in
/// the inclusive range and that the call panics when the range is empty, hence the
/// `requires`. Which value of the range comes back is not stated.
#[verifier::external_body]
pub(crate) fn gen_range_inclusive(low: i32, high: i32) -> (r: i32)
    requires
        low <= high,
    ensures
        low <= r <= high,
{
    rand::thread_rng().gen_range(low..=high)
}

/// Calls `SliceRandom::shuffle` with `thread_rng()`, which rand documents as shuffling the
/// slice in place: the result is a permutation of the input. Which permutation is not stated.
#[verifier::external_body]
pub(crate) fn shuffle<T>(v: &mut Vec<T>)
    ensures
        exists|p: Seq<int>| is_permutation_of(final(v)@, old(v)@, p),
{
    v.shuffle(&mut rand::thread_rng())
}

/// Calls `SliceRandom::choose` with `thread_rng()` and copies the chosen item. rand
/// documents the result as one element of the slice, `None` exactly when it is empty.
/// Which element is not stated.
#[verifier::external_body]
pub(crate) fn choose_copied<T: Copy>(items: &[T]) -> (r: Option<T>)
    ensures
        items@.len() == 0 <==> r is None,
        r matches Some(x) ==> items@.contains(x),
{
    items.choose(&mut rand::thread_rng()).copied()
}

} // verus!
