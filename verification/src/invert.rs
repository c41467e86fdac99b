//! Inversion: from the way to another system, the way back from there.

use vstd::prelude::*;
use crate::error::Error;
use crate::junction::{Junction, JunctionView};
use crate::location::{Junctions, LocationView, MultiLocation, MAX_JUNCTIONS};

verus! {

/// The first `count` steps down from the root towards the local system: the junctions of
/// `ancestry` as far as they go, and [`JunctionView::OnlyChild`] for each step beyond them.
pub open spec fn ancestry_prefix(ancestry: Seq<JunctionView>, count: nat) -> Seq<JunctionView> {
    Seq::new(
        count,
        |i: int|
            if i < ancestry.len() {
                ancestry[i]
            } else {
                JunctionView::OnlyChild
            },
    )
}

/// The location by which the system at `location` reaches the local system, whose way
/// down from the root is `ancestry`. It ascends as many systems as `location` descends,
/// and descends as many as `location` ascends.
pub open spec fn inverted(ancestry: Seq<JunctionView>, location: LocationView) -> Result<
    LocationView,
    Error,
> {
    if location.parents > MAX_JUNCTIONS {
        Err(Error::Overflow)
    } else {
        Ok(
            LocationView {
                parents: location.interior.len(),
                interior: ancestry_prefix(ancestry, location.parents),
            },
        )
    }
}

/// Inverts locations for the system whose way down from the root is `ancestry`.
#[derive(Debug)]
pub struct LocationInverter {
    /// The junctions from the root down to the local system.
    pub ancestry: MultiLocation,
}

impl LocationInverter {
    /// The inverter of the system with the given ancestry.
    pub fn new(ancestry: MultiLocation) -> (inverter: Self)
        ensures
            inverter.ancestry@ == ancestry@,
    {
        LocationInverter { ancestry }
    }

    /// The way back from `location`. Fails with [`Error::Overflow`] exactly where
    /// `location` ascends more than [`MAX_JUNCTIONS`] systems.
    pub fn invert_location(&self, location: &MultiLocation) -> (r: Result<MultiLocation, Error>)
        ensures
            match r {
                Ok(back) => inverted(self.ancestry@.interior, location@) == Ok::<
                    LocationView,
                    Error,
                >(back@),
                Err(e) => inverted(self.ancestry@.interior, location@) == Err::<
                    LocationView,
                    Error,
                >(e),
            },
    {
        let ghost known = self.ancestry@.interior;
        let mut ancestry = self.ancestry.clone();
        let mut junctions = Junctions::here();
        let parents = location.parent_count();
        let mut i: u8 = 0;
        while i < parents
            invariant
                i <= parents == location@.parents,
                i <= MAX_JUNCTIONS,
                known == self.ancestry@.interior,
                junctions@ == ancestry_prefix(known, i as nat),
                i <= known.len() ==> ancestry@.interior == known.skip(i as int),
                i > known.len() ==> ancestry@.interior.len() == 0,
            decreases parents - i,
        {
            let next = match ancestry.take_first_interior() {
                Some(junction) => junction,
                None => Junction::OnlyChild,
            };
            match junctions.push(next) {
                Ok(_) => {},
                Err(_) => {
                    return Err(Error::Overflow);
                },
            }
            assert(junctions@ =~= ancestry_prefix(known, (i + 1) as nat));
            i += 1;
        }
        let back = MultiLocation::new(location.interior().len() as u8, junctions);
        Ok(back)
    }
}

} // verus!
