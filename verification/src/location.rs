//! Locations: how many systems to ascend, and the junctions to descend through after that.

use vstd::prelude::*;
use crate::error::Error;
use crate::junction::{Junction, JunctionView};

verus! {

/// The greatest number of junctions that a descent can hold.
pub const MAX_JUNCTIONS: usize = 8;

/// A descent: at most [`MAX_JUNCTIONS`] junctions, from the one nearest the root down.
#[derive(Debug, PartialEq, Eq)]
pub struct Junctions {
    items: Vec<Junction>,
}

impl View for Junctions {
    type V = Seq<JunctionView>;

    closed spec fn view(&self) -> Seq<JunctionView> {
        self.items@.map_values(|j: Junction| j@)
    }
}

impl Junctions {
    #[verifier::type_invariant]
    spec fn bounded(self) -> bool {
        self.items@.len() <= MAX_JUNCTIONS
    }

    /// The empty descent: the location stays where it is.
    pub fn here() -> (here: Self)
        ensures
            here@ == Seq::<JunctionView>::empty(),
    {
        Junctions { items: Vec::new() }
    }

    /// The descent through the given junctions, unless they are too many.
    pub fn from_vec(items: Vec<Junction>) -> (r: Result<Self, Error>)
        ensures
            match r {
                Ok(junctions) => items@.len() <= MAX_JUNCTIONS && junctions@ == items@.map_values(
                    |j: Junction| j@,
                ),
                Err(e) => items@.len() > MAX_JUNCTIONS && e == Error::Overflow,
            },
    {
        if items.len() > MAX_JUNCTIONS {
            Err(Error::Overflow)
        } else {
            Ok(Junctions { items })
        }
    }

    /// The number of junctions.
    pub fn len(&self) -> (n: usize)
        ensures
            n == self@.len(),
            n <= MAX_JUNCTIONS,
    {
        proof {
            use_type_invariant(self);
        }
        self.items.len()
    }

    /// The junction at the given place, counted from the root's side.
    pub fn at(&self, i: usize) -> (r: Option<&Junction>)
        ensures
            match r {
                Some(j) => i < self@.len() && j@ == self@[i as int],
                None => i >= self@.len(),
            },
    {
        if i < self.items.len() {
            Some(self.get(i))
        } else {
            None
        }
    }

    fn get(&self, i: usize) -> (junction: &Junction)
        requires
            i < self@.len(),
        ensures
            junction@ == self@[i as int],
    {
        &self.items[i]
    }

    /// The junction nearest the root.
    pub fn first(&self) -> (r: Option<&Junction>)
        ensures
            match r {
                Some(j) => 0 < self@.len() && j@ == self@[0],
                None => self@.len() == 0,
            },
    {
        self.at(0)
    }

    /// Removes the junction nearest the root and returns it.
    pub fn take_first(&mut self) -> (r: Option<Junction>)
        ensures
            match r {
                Some(j) => {
                    &&& old(self)@.len() > 0
                    &&& j@ == old(self)@[0]
                    &&& final(self)@ == old(self)@.skip(1)
                },
                None => old(self)@.len() == 0 && final(self)@ == old(self)@,
            },
    {
        proof {
            use_type_invariant(&*self);
        }
        if self.items.len() == 0 {
            None
        } else {
            let mut items: Vec<Junction> = Vec::new();
            core::mem::swap(&mut self.items, &mut items);
            let j = items.remove(0);
            self.items = items;
            assert(self@ =~= old(self)@.skip(1));
            Some(j)
        }
    }

    /// Appends a junction at the far end.
    pub fn push(&mut self, junction: Junction) -> (r: Result<(), Error>)
        ensures
            match r {
                Ok(_) => {
                    &&& old(self)@.len() < MAX_JUNCTIONS
                    &&& final(self)@ == old(self)@.push(junction@)
                },
                Err(e) => {
                    &&& old(self)@.len() == MAX_JUNCTIONS
                    &&& e == Error::Overflow
                    &&& final(self)@ == old(self)@
                },
            },
    {
        proof {
            use_type_invariant(&*self);
        }
        if self.items.len() >= MAX_JUNCTIONS {
            Err(Error::Overflow)
        } else {
            let mut items: Vec<Junction> = Vec::new();
            core::mem::swap(&mut self.items, &mut items);
            items.push(junction);
            self.items = items;
            assert(self@ =~= old(self)@.push(junction@));
            Ok(())
        }
    }

    /// This descent with one more junction at the far end.
    pub fn pushed_with(self, junction: Junction) -> (r: Result<Self, Error>)
        ensures
            match r {
                Ok(longer) => self@.len() < MAX_JUNCTIONS && longer@ == self@.push(junction@),
                Err(e) => self@.len() == MAX_JUNCTIONS && e == Error::Overflow,
            },
    {
        let mut longer = self;
        match longer.push(junction) {
            Ok(_) => Ok(longer),
            Err(e) => Err(e),
        }
    }
}

impl Clone for Junctions {
    fn clone(&self) -> (copy: Self)
        ensures
            copy@ == self@,
    {
        proof {
            use_type_invariant(self);
        }
        let mut items: Vec<Junction> = Vec::new();
        let mut i: usize = 0;
        while i < self.items.len()
            invariant
                i <= self.items@.len(),
                items@.len() == i,
                forall|k: int| 0 <= k < i ==> (#[trigger] items@[k])@ == self.items@[k]@,
            decreases self.items@.len() - i,
        {
            items.push(self.items[i].clone());
            i += 1;
        }
        let copy = Junctions { items };
        assert(copy@ =~= self@);
        copy
    }
}

/// A location relative to the system that states it: ascend through `parents` systems, then
/// descend through `interior`.
#[derive(Debug, PartialEq, Eq)]
pub struct MultiLocation {
    /// How many systems to ascend.
    pub parents: u8,
    /// The junctions to descend through after that.
    pub interior: Junctions,
}

/// Mathematical value of a [`MultiLocation`].
pub struct LocationView {
    pub parents: nat,
    pub interior: Seq<JunctionView>,
}

impl View for MultiLocation {
    type V = LocationView;

    open spec fn view(&self) -> LocationView {
        LocationView { parents: self.parents as nat, interior: self.interior@ }
    }
}

impl Clone for MultiLocation {
    fn clone(&self) -> (copy: Self)
        ensures
            copy@ == self@,
    {
        MultiLocation { parents: self.parents, interior: self.interior.clone() }
    }
}

impl LocationView {
    /// Whether a [`MultiLocation`] can hold this value.
    pub open spec fn representable(self) -> bool {
        self.parents <= u8::MAX && self.interior.len() <= MAX_JUNCTIONS
    }

    /// This location as seen from the system that reaches the stating system by `prefix`.
    ///
    /// The ascents of `self` are matched against the junctions of `prefix` from the front.
    /// The junctions of `prefix` that stay unmatched come before those of `self`; the ascents
    /// of `self` that stay unmatched are added to those of `prefix`.
    pub open spec fn prepended_with(self, prefix: LocationView) -> LocationView {
        let matched = if self.parents <= prefix.interior.len() {
            self.parents
        } else {
            prefix.interior.len()
        };
        LocationView {
            parents: (prefix.parents + self.parents - matched) as nat,
            interior: prefix.interior.skip(matched as int) + self.interior,
        }
    }
}

impl MultiLocation {
    /// The location that ascends through `parents` systems and then descends through
    /// `interior`.
    pub fn new(parents: u8, interior: Junctions) -> (location: Self)
        ensures
            location@ == (LocationView { parents: parents as nat, interior: interior@ }),
    {
        MultiLocation { parents, interior }
    }

    /// The stating system itself.
    pub fn here() -> (location: Self)
        ensures
            location@ == (LocationView { parents: 0, interior: Seq::empty() }),
    {
        MultiLocation { parents: 0, interior: Junctions::here() }
    }

    /// The system one level up.
    pub fn parent() -> (location: Self)
        ensures
            location@ == (LocationView { parents: 1, interior: Seq::empty() }),
    {
        MultiLocation { parents: 1, interior: Junctions::here() }
    }

    /// The system two levels up.
    pub fn grandparent() -> (location: Self)
        ensures
            location@ == (LocationView { parents: 2, interior: Seq::empty() }),
    {
        MultiLocation { parents: 2, interior: Junctions::here() }
    }

    /// How many systems the location ascends.
    pub fn parent_count(&self) -> (count: u8)
        ensures
            count == self@.parents,
    {
        self.parents
    }

    /// The junctions that the location descends through.
    pub fn interior(&self) -> (interior: &Junctions)
        ensures
            interior@ == self@.interior,
    {
        &self.interior
    }

    /// Whether the location ascends `count` systems and descends through none.
    pub fn contains_parents_only(&self, count: u8) -> (r: bool)
        ensures
            r == (self@.parents == count && self@.interior.len() == 0),
    {
        self.parents == count && self.interior.len() == 0
    }

    /// Removes the first junction of the descent and returns it.
    pub fn take_first_interior(&mut self) -> (r: Option<Junction>)
        ensures
            final(self)@.parents == old(self)@.parents,
            match r {
                Some(j) => {
                    &&& old(self)@.interior.len() > 0
                    &&& j@ == old(self)@.interior[0]
                    &&& final(self)@.interior == old(self)@.interior.skip(1)
                },
                None => old(self)@.interior.len() == 0 && final(self)@ == old(self)@,
            },
    {
        self.interior.take_first()
    }

    /// Re-states this location for the system that reaches the stating system by `prefix`.
    ///
    /// Fails, and leaves the location as it is, where the result would hold more than
    /// [`MAX_JUNCTIONS`] junctions or more ascents than a `u8` counts.
    pub fn prepend_with(&mut self, prefix: &MultiLocation) -> (r: Result<(), Error>)
        ensures
            match r {
                Ok(_) => {
                    &&& old(self)@.prepended_with(prefix@).representable()
                    &&& final(self)@ == old(self)@.prepended_with(prefix@)
                },
                Err(e) => {
                    &&& !old(self)@.prepended_with(prefix@).representable()
                    &&& e == Error::Overflow
                    &&& final(self)@ == old(self)@
                },
            },
    {
        let prefix_len = prefix.interior.len();
        let own_len = self.interior.len();
        let parents = self.parents as usize;
        let matched = if parents <= prefix_len {
            parents
        } else {
            prefix_len
        };
        let final_len = prefix_len - matched + own_len;
        let final_parents = prefix.parents as usize + parents - matched;
        if final_len > MAX_JUNCTIONS || final_parents > 255 {
            return Err(Error::Overflow);
        }
        let mut interior = Junctions::here();
        let mut i: usize = matched;
        while i < prefix_len
            invariant
                matched <= i <= prefix_len,
                prefix_len == prefix@.interior.len(),
                prefix_len - matched + own_len <= MAX_JUNCTIONS,
                interior@ == prefix@.interior.subrange(matched as int, i as int),
            decreases prefix_len - i,
        {
            let _ = interior.push(prefix.interior.get(i).clone());
            assert(interior@ =~= prefix@.interior.subrange(matched as int, i + 1));
            i += 1;
        }
        let mut k: usize = 0;
        while k < own_len
            invariant
                k <= own_len,
                own_len == self@.interior.len(),
                matched <= prefix_len == prefix@.interior.len(),
                prefix_len - matched + own_len <= MAX_JUNCTIONS,
                self@ == old(self)@,
                interior@ == prefix@.interior.skip(matched as int) + self@.interior.take(
                    k as int,
                ),
            decreases own_len - k,
        {
            let _ = interior.push(self.interior.get(k).clone());
            assert(interior@ =~= prefix@.interior.skip(matched as int) + self@.interior.take(
                k + 1,
            ));
            k += 1;
        }
        assert(self@.interior.take(own_len as int) =~= self@.interior);
        self.parents = final_parents as u8;
        self.interior = interior;
        Ok(())
    }
}

} // verus!
