//! Assets that are known by the location of their origin.

use vstd::prelude::*;
use crate::error::Error;
use crate::location::MultiLocation;

verus! {

/// An amount of the fungible asset that is known by the location `id`.
#[derive(Debug, PartialEq, Eq)]
pub struct MultiAsset {
    /// Where the asset has its origin, as seen from the system that holds this value.
    pub id: MultiLocation,
    /// How much there is of it.
    pub amount: u128,
}

impl MultiAsset {
    /// The given amount of the asset known by `id`.
    pub fn new(id: MultiLocation, amount: u128) -> (asset: Self)
        ensures
            asset.id@ == id@,
            asset.amount == amount,
    {
        MultiAsset { id, amount }
    }

    /// Re-states where the asset has its origin, for the system that reaches the present
    /// one by `prepend`. The amount stays.
    ///
    /// Fails, and leaves the asset as it is, where the new location would overflow.
    pub fn reanchor(&mut self, prepend: &MultiLocation) -> (r: Result<(), Error>)
        ensures
            final(self).amount == old(self).amount,
            match r {
                Ok(_) => {
                    &&& old(self).id@.prepended_with(prepend@).representable()
                    &&& final(self).id@ == old(self).id@.prepended_with(prepend@)
                },
                Err(e) => {
                    &&& !old(self).id@.prepended_with(prepend@).representable()
                    &&& e == Error::Overflow
                    &&& final(self).id@ == old(self).id@
                },
            },
    {
        self.id.prepend_with(prepend)
    }
}

} // verus!
