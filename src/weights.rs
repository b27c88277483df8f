use vstd::prelude::*;

verus! {

/// Weight information for the registry's calls. Fees and weights are left to
/// the surrounding runtime, so this carries no data.
pub struct SubstrateWeight<T>(pub core::marker::PhantomData<T>);

} // verus!
