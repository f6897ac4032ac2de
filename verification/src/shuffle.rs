use vstd::prelude::*;

use rand::seq::SliceRandom;

verus! {

/// Relies on rand's `SliceRandom::shuffle`: it permutes the slice in place
/// (a chain of swaps), so exactly the same elements remain, in some order.
#[verifier::external_body]
pub(crate) fn shuffle_vec<T: DeepView>(v: &mut Vec<T>)
    ensures
        final(v)@.len() == old(v)@.len(),
        final(v).deep_view().to_multiset() == old(v).deep_view().to_multiset(),
{
    let mut rng = rand::thread_rng();
    v.shuffle(&mut rng);
}

} // verus!
