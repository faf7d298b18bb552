use vstd::prelude::*;

verus! {

/// The provider of the trailer's "is connected" property.
pub struct TrailerConnectedProviderImpl {}

impl TrailerConnectedProviderImpl {
    pub fn new() -> (r: TrailerConnectedProviderImpl) {
        TrailerConnectedProviderImpl {  }
    }

    /// The property's value: while this provider runs, the trailer is
    /// connected.
    pub fn get(&self) -> (r: bool)
        ensures
            r,
    {
        true
    }
}

} // verus!
