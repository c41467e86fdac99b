//! The schemes that convert between a location and a local account. Each scheme converts
//! the locations of one shape and answers [`Error::NoMatch`] for every other input, so that
//! a caller can try one scheme after another.

use vstd::prelude::*;
use crate::account::{
    blake2_256, blake2_256_digest, hash_domain, hash_preimage, into_account, para_account_bytes,
    para_id_of_account, try_from_account, zeros,
};
use crate::error::Error;
use crate::junction::{Junction, JunctionView, NetworkId, NetworkIdView};
use crate::location::{Junctions, LocationView, MultiLocation};

verus! {

/// The location that descends from the stating system into the sub-system `id`.
pub open spec fn child_location(id: u32) -> LocationView {
    LocationView { parents: 0, interior: seq![JunctionView::Parachain(id)] }
}

/// The location that ascends one system and descends into the sub-system `id` there.
pub open spec fn sibling_location(id: u32) -> LocationView {
    LocationView { parents: 1, interior: seq![JunctionView::Parachain(id)] }
}

/// The location that ascends one system and stays there.
pub open spec fn parent_location() -> LocationView {
    LocationView { parents: 1, interior: Seq::empty() }
}

/// Whether all of the 32 bytes are zero.
fn is_zero_account(account: &[u8; 32]) -> (r: bool)
    ensures
        r == (account@ == zeros(32)),
{
    let mut i: usize = 0;
    while i < 32
        invariant
            i <= 32,
            forall|k: int| 0 <= k < i ==> account@[k] == 0,
        decreases 32 - i,
    {
        if account[i] != 0 {
            assert(zeros(32)[i as int] == 0);
            return false;
        }
        i += 1;
    }
    assert(account@ =~= zeros(32));
    true
}

/// The location that ascends `parents` systems and descends into the sub-system `id`.
fn parachain_location(parents: u8, id: u32) -> (location: MultiLocation)
    ensures
        location@ == (LocationView {
            parents: parents as nat,
            interior: seq![JunctionView::Parachain(id)],
        }),
{
    let mut interior = Junctions::here();
    let _ = interior.push(Junction::Parachain(id));
    assert(interior@ =~= seq![JunctionView::Parachain(id)]);
    MultiLocation::new(parents, interior)
}

/// The sub-system that `location` names, where it ascends `parents` systems and descends
/// through the one junction of a sub-system.
fn parachain_of(location: &MultiLocation, parents: u8) -> (r: Option<u32>)
    ensures
        match r {
            Some(id) => location@ == (LocationView {
                parents: parents as nat,
                interior: seq![JunctionView::Parachain(id)],
            }),
            None => !(location@.parents == parents && location@.interior.len() == 1
                && location@.interior[0] is Parachain),
        },
{
    if location.parents != parents || location.interior.len() != 1 {
        return None;
    }
    match location.interior.first() {
        Some(Junction::Parachain(id)) => {
            assert(location@.interior =~= seq![JunctionView::Parachain(*id)]);
            Some(*id)
        },
        _ => None,
    }
}

/// Gives every location an account: the Blake2b digest of the location's encoding, with
/// the encoded string `multiloc` before it. Nothing leads back from the digest.
#[derive(Debug, Clone, Copy)]
pub struct Account32Hash;

impl Account32Hash {
    /// The account of the location with the given encoding.
    pub open spec fn account_of(encoded_location: Seq<u8>) -> Seq<u8> {
        blake2_256_digest(hash_domain() + encoded_location)
    }

    /// The account of the location whose encoding is `encoded_location`. Never fails.
    pub fn convert_ref(encoded_location: &[u8]) -> (r: Result<[u8; 32], Error>)
        ensures
            r is Ok,
            r->Ok_0@ == Self::account_of(encoded_location@),
    {
        let preimage = hash_preimage(encoded_location);
        Ok(blake2_256(preimage.as_slice()))
    }

    /// Always fails: a digest does not give its location back.
    pub fn reverse_ref(who: &[u8; 32]) -> (r: Result<MultiLocation, Error>)
        ensures
            r is Err,
            r->Err_0 == Error::UnsupportedDirection,
    {
        Err(Error::UnsupportedDirection)
    }
}

/// Converts between the system one level up and the account whose bytes are all zero.
#[derive(Debug, Clone, Copy)]
pub struct ParentIsDefault;

impl ParentIsDefault {
    /// The account of `location` under this scheme.
    pub open spec fn account_of(location: LocationView) -> Result<Seq<u8>, Error> {
        if location == parent_location() {
            Ok(zeros(32))
        } else {
            Err(Error::NoMatch)
        }
    }

    /// The location of `account` under this scheme.
    pub open spec fn location_of(account: Seq<u8>) -> Result<LocationView, Error> {
        if account == zeros(32) {
            Ok(parent_location())
        } else {
            Err(Error::NoMatch)
        }
    }

    /// The zero account for the location that ascends one system and descends through
    /// nothing; no match for any other location.
    pub fn convert_ref(location: &MultiLocation) -> (r: Result<[u8; 32], Error>)
        ensures
            match r {
                Ok(account) => Self::account_of(location@) == Ok::<Seq<u8>, Error>(account@),
                Err(e) => Self::account_of(location@) == Err::<Seq<u8>, Error>(e),
            },
    {
        if location.contains_parents_only(1) {
            assert(location@.interior =~= Seq::empty());
            let account = [0u8; 32];
            assert(account@ =~= zeros(32));
            Ok(account)
        } else {
            Err(Error::NoMatch)
        }
    }

    /// The location one level up for the zero account; no match for any other account.
    pub fn reverse_ref(who: &[u8; 32]) -> (r: Result<MultiLocation, Error>)
        ensures
            match r {
                Ok(location) => Self::location_of(who@) == Ok::<LocationView, Error>(location@),
                Err(e) => Self::location_of(who@) == Err::<LocationView, Error>(e),
            },
    {
        if is_zero_account(who) {
            Ok(MultiLocation::parent())
        } else {
            Err(Error::NoMatch)
        }
    }
}

/// Converts between a sub-system of the stating system and the account derived from the
/// sub-system's numeric identifier.
#[derive(Debug, Clone, Copy)]
pub struct ChildParachainConvertsVia;

impl ChildParachainConvertsVia {
    /// The account of `location` under this scheme.
    pub open spec fn account_of(location: LocationView) -> Result<Seq<u8>, Error> {
        if location.parents == 0 && location.interior.len() == 1
            && location.interior[0] is Parachain {
            Ok(para_account_bytes(location.interior[0]->Parachain_0))
        } else {
            Err(Error::NoMatch)
        }
    }

    /// The location of `account` under this scheme.
    pub open spec fn location_of(account: Seq<u8>) -> Result<LocationView, Error> {
        match para_id_of_account(account) {
            Some(id) => Ok(child_location(id)),
            None => Err(Error::NoMatch),
        }
    }

    /// The account derived from the identifier of the sub-system that `location` descends
    /// into; no match unless `location` is such a descent and nothing else.
    pub fn convert_ref(location: &MultiLocation) -> (r: Result<[u8; 32], Error>)
        ensures
            match r {
                Ok(account) => Self::account_of(location@) == Ok::<Seq<u8>, Error>(account@),
                Err(e) => Self::account_of(location@) == Err::<Seq<u8>, Error>(e),
            },
    {
        match parachain_of(location, 0) {
            Some(id) => Ok(into_account(id)),
            None => Err(Error::NoMatch),
        }
    }

    /// The descent into the sub-system whose account `who` is; no match where `who` is not
    /// derived from an identifier.
    pub fn reverse_ref(who: &[u8; 32]) -> (r: Result<MultiLocation, Error>)
        ensures
            match r {
                Ok(location) => Self::location_of(who@) == Ok::<LocationView, Error>(location@),
                Err(e) => Self::location_of(who@) == Err::<LocationView, Error>(e),
            },
    {
        match try_from_account(who) {
            Some(id) => Ok(parachain_location(0, id)),
            None => Err(Error::NoMatch),
        }
    }
}

/// Converts between a sub-system beside the stating system, one level up and one down, and
/// the account derived from the sub-system's numeric identifier.
#[derive(Debug, Clone, Copy)]
pub struct SiblingParachainConvertsVia;

impl SiblingParachainConvertsVia {
    /// The account of `location` under this scheme.
    pub open spec fn account_of(location: LocationView) -> Result<Seq<u8>, Error> {
        if location.parents == 1 && location.interior.len() == 1
            && location.interior[0] is Parachain {
            Ok(para_account_bytes(location.interior[0]->Parachain_0))
        } else {
            Err(Error::NoMatch)
        }
    }

    /// The location of `account` under this scheme.
    pub open spec fn location_of(account: Seq<u8>) -> Result<LocationView, Error> {
        match para_id_of_account(account) {
            Some(id) => Ok(sibling_location(id)),
            None => Err(Error::NoMatch),
        }
    }

    /// The account derived from the identifier of the sibling that `location` names; no
    /// match unless `location` ascends one system and descends into a sub-system there.
    pub fn convert_ref(location: &MultiLocation) -> (r: Result<[u8; 32], Error>)
        ensures
            match r {
                Ok(account) => Self::account_of(location@) == Ok::<Seq<u8>, Error>(account@),
                Err(e) => Self::account_of(location@) == Err::<Seq<u8>, Error>(e),
            },
    {
        match parachain_of(location, 1) {
            Some(id) => Ok(into_account(id)),
            None => Err(Error::NoMatch),
        }
    }

    /// The location of the sibling whose account `who` is; no match where `who` is not
    /// derived from an identifier.
    pub fn reverse_ref(who: &[u8; 32]) -> (r: Result<MultiLocation, Error>)
        ensures
            match r {
                Ok(location) => Self::location_of(who@) == Ok::<LocationView, Error>(location@),
                Err(e) => Self::location_of(who@) == Err::<LocationView, Error>(e),
            },
    {
        match try_from_account(who) {
            Some(id) => Ok(parachain_location(1, id)),
            None => Err(Error::NoMatch),
        }
    }
}

/// Converts between a 32-byte account junction and the account with the same bytes, for
/// the one network that it is set up with.
#[derive(Debug)]
pub struct AccountId32Aliases {
    /// The network whose accounts are local accounts.
    pub network: NetworkId,
}

impl AccountId32Aliases {
    /// The scheme for the accounts of `network`.
    pub fn new(network: NetworkId) -> (scheme: Self)
        ensures
            scheme.network@ == network@,
    {
        AccountId32Aliases { network }
    }

    /// The account of `location` under this scheme: the junction's bytes, where the
    /// junction's network is the wildcard or the scheme's own.
    pub open spec fn account_of(&self, location: LocationView) -> Result<Seq<u8>, Error> {
        if location.parents == 0 && location.interior.len() == 1 {
            match location.interior[0] {
                JunctionView::AccountId32 { network, id } => {
                    if network == NetworkIdView::Any || network == self.network@ {
                        Ok(id)
                    } else {
                        Err(Error::NoMatch)
                    }
                },
                _ => Err(Error::NoMatch),
            }
        } else {
            Err(Error::NoMatch)
        }
    }

    /// The location of `account` under this scheme: the account junction within the
    /// scheme's own network.
    pub open spec fn location_of(&self, account: Seq<u8>) -> LocationView {
        LocationView {
            parents: 0,
            interior: seq![JunctionView::AccountId32 { network: self.network@, id: account }],
        }
    }

    /// The bytes of the account junction that `location` consists of; no match where
    /// `location` is anything else, or names another network.
    pub fn convert(&self, location: &MultiLocation) -> (r: Result<[u8; 32], Error>)
        ensures
            match r {
                Ok(account) => self.account_of(location@) == Ok::<Seq<u8>, Error>(account@),
                Err(e) => self.account_of(location@) == Err::<Seq<u8>, Error>(e),
            },
    {
        if location.parents != 0 || location.interior.len() != 1 {
            return Err(Error::NoMatch);
        }
        match location.interior.first() {
            Some(Junction::AccountId32 { network, id }) => {
                if network.is_any() || network.same_as(&self.network) {
                    Ok(*id)
                } else {
                    Err(Error::NoMatch)
                }
            },
            _ => Err(Error::NoMatch),
        }
    }

    /// The account junction for `who` within the scheme's network. Never fails.
    pub fn reverse(&self, who: [u8; 32]) -> (r: Result<MultiLocation, Error>)
        ensures
            r is Ok,
            r->Ok_0@ == self.location_of(who@),
    {
        let junction = Junction::AccountId32 { network: self.network.clone(), id: who };
        let mut interior = Junctions::here();
        let _ = interior.push(junction);
        assert(interior@ =~= seq![junction@]);
        Ok(MultiLocation::new(0, interior))
    }
}

/// Converts between a 20-byte account junction and the account with the same bytes, for
/// the one network that it is set up with.
#[derive(Debug)]
pub struct AccountKey20Aliases {
    /// The network whose accounts are local accounts.
    pub network: NetworkId,
}

impl AccountKey20Aliases {
    /// The scheme for the accounts of `network`.
    pub fn new(network: NetworkId) -> (scheme: Self)
        ensures
            scheme.network@ == network@,
    {
        AccountKey20Aliases { network }
    }

    /// The account of `location` under this scheme: the junction's bytes, where the
    /// junction's network is the wildcard or the scheme's own.
    pub open spec fn account_of(&self, location: LocationView) -> Result<Seq<u8>, Error> {
        if location.parents == 0 && location.interior.len() == 1 {
            match location.interior[0] {
                JunctionView::AccountKey20 { network, key } => {
                    if network == NetworkIdView::Any || network == self.network@ {
                        Ok(key)
                    } else {
                        Err(Error::NoMatch)
                    }
                },
                _ => Err(Error::NoMatch),
            }
        } else {
            Err(Error::NoMatch)
        }
    }

    /// The location of `account` under this scheme: the account junction within the
    /// scheme's own network.
    pub open spec fn location_of(&self, account: Seq<u8>) -> LocationView {
        LocationView {
            parents: 0,
            interior: seq![JunctionView::AccountKey20 { network: self.network@, key: account }],
        }
    }

    /// The bytes of the account junction that `location` consists of; no match where
    /// `location` is anything else, or names another network.
    pub fn convert(&self, location: &MultiLocation) -> (r: Result<[u8; 20], Error>)
        ensures
            match r {
                Ok(account) => self.account_of(location@) == Ok::<Seq<u8>, Error>(account@),
                Err(e) => self.account_of(location@) == Err::<Seq<u8>, Error>(e),
            },
    {
        if location.parents != 0 || location.interior.len() != 1 {
            return Err(Error::NoMatch);
        }
        match location.interior.first() {
            Some(Junction::AccountKey20 { network, key }) => {
                if network.is_any() || network.same_as(&self.network) {
                    Ok(*key)
                } else {
                    Err(Error::NoMatch)
                }
            },
            _ => Err(Error::NoMatch),
        }
    }

    /// The account junction for `who` within the scheme's network. Never fails.
    pub fn reverse(&self, who: [u8; 20]) -> (r: Result<MultiLocation, Error>)
        ensures
            r is Ok,
            r->Ok_0@ == self.location_of(who@),
    {
        let junction = Junction::AccountKey20 { network: self.network.clone(), key: who };
        let mut interior = Junctions::here();
        let _ = interior.push(junction);
        assert(interior@ =~= seq![junction@]);
        Ok(MultiLocation::new(0, interior))
    }
}

} // verus!
