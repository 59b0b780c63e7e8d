use vstd::prelude::*;
use array_init::array_init;

verus! {

/// Calls `array_init::array_init`, which builds an array by calling the
/// initializer once for each index, in rising order, and storing what call
/// `i` returned at index `i`. Trusted: each element of the result is a value
/// that the initializer may return for its index.
#[verifier::external_body]
pub(crate) fn array_from_fn<T, F: Fn(usize) -> T, const N: usize>(initializer: F) -> (array: [T; N])
    requires
        forall|i: usize| i < N ==> call_requires(initializer, (i,)),
    ensures
        forall|i: usize| i < N ==> call_ensures(initializer, (i,), #[trigger] array@[i as int]),
{
    array_init(initializer)
}

} // verus!
