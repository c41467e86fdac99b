//! Ordered conversion: a caller's list of schemes, tried one after another.

use vstd::prelude::*;
use crate::conversion::{
    Account32Hash, AccountId32Aliases, ChildParachainConvertsVia, ParentIsDefault,
    SiblingParachainConvertsVia,
};
use crate::error::Error;
use crate::location::{LocationView, MultiLocation};

verus! {

/// One of the schemes that yield 32-byte accounts, with what it is set up with.
#[derive(Debug)]
pub enum Converter {
    /// [`Account32Hash`].
    Account32Hash,
    /// [`ParentIsDefault`].
    ParentIsDefault,
    /// [`ChildParachainConvertsVia`].
    ChildParachain,
    /// [`SiblingParachainConvertsVia`].
    SiblingParachain,
    /// [`AccountId32Aliases`], for its network.
    AccountId32Aliases(AccountId32Aliases),
}

impl Converter {
    /// The account that the scheme gives the location, whose encoding is `encoded`.
    pub open spec fn account_of(&self, location: LocationView, encoded: Seq<u8>) -> Result<
        Seq<u8>,
        Error,
    > {
        match self {
            Converter::Account32Hash => Ok(Account32Hash::account_of(encoded)),
            Converter::ParentIsDefault => ParentIsDefault::account_of(location),
            Converter::ChildParachain => ChildParachainConvertsVia::account_of(location),
            Converter::SiblingParachain => SiblingParachainConvertsVia::account_of(location),
            Converter::AccountId32Aliases(scheme) => scheme.account_of(location),
        }
    }

    /// The location that the scheme gives the account.
    pub open spec fn location_of(&self, account: Seq<u8>) -> Result<LocationView, Error> {
        match self {
            Converter::Account32Hash => Err(Error::UnsupportedDirection),
            Converter::ParentIsDefault => ParentIsDefault::location_of(account),
            Converter::ChildParachain => ChildParachainConvertsVia::location_of(account),
            Converter::SiblingParachain => SiblingParachainConvertsVia::location_of(account),
            Converter::AccountId32Aliases(scheme) => Ok(scheme.location_of(account)),
        }
    }

    /// Converts the location by this scheme. `encoded` is the location's encoding, which
    /// only the hashing scheme reads.
    pub fn convert(&self, location: &MultiLocation, encoded: &[u8]) -> (r: Result<
        [u8; 32],
        Error,
    >)
        ensures
            match r {
                Ok(account) => self.account_of(location@, encoded@) == Ok::<Seq<u8>, Error>(
                    account@,
                ),
                Err(e) => self.account_of(location@, encoded@) == Err::<Seq<u8>, Error>(e),
            },
    {
        match self {
            Converter::Account32Hash => Account32Hash::convert_ref(encoded),
            Converter::ParentIsDefault => ParentIsDefault::convert_ref(location),
            Converter::ChildParachain => ChildParachainConvertsVia::convert_ref(location),
            Converter::SiblingParachain => SiblingParachainConvertsVia::convert_ref(location),
            Converter::AccountId32Aliases(scheme) => scheme.convert(location),
        }
    }

    /// Converts the account back by this scheme.
    pub fn reverse(&self, who: &[u8; 32]) -> (r: Result<MultiLocation, Error>)
        ensures
            match r {
                Ok(location) => self.location_of(who@) == Ok::<LocationView, Error>(location@),
                Err(e) => self.location_of(who@) == Err::<LocationView, Error>(e),
            },
    {
        match self {
            Converter::Account32Hash => Account32Hash::reverse_ref(who),
            Converter::ParentIsDefault => ParentIsDefault::reverse_ref(who),
            Converter::ChildParachain => ChildParachainConvertsVia::reverse_ref(who),
            Converter::SiblingParachain => SiblingParachainConvertsVia::reverse_ref(who),
            Converter::AccountId32Aliases(scheme) => scheme.reverse(*who),
        }
    }
}

/// Whether `converters[winner]` converts the location into `account` and no scheme before
/// it converts the location at all.
pub open spec fn first_to_convert(
    converters: Seq<Converter>,
    location: LocationView,
    encoded: Seq<u8>,
    winner: int,
    account: Seq<u8>,
) -> bool {
    &&& 0 <= winner < converters.len()
    &&& converters[winner].account_of(location, encoded) == Ok::<Seq<u8>, Error>(account)
    &&& forall|k: int|
        0 <= k < winner ==> (#[trigger] converters[k]).account_of(location, encoded) is Err
}

/// Whether `converters[winner]` converts the account back into `location` and no scheme
/// before it converts the account back at all.
pub open spec fn first_to_reverse(
    converters: Seq<Converter>,
    account: Seq<u8>,
    winner: int,
    location: LocationView,
) -> bool {
    &&& 0 <= winner < converters.len()
    &&& converters[winner].location_of(account) == Ok::<LocationView, Error>(location)
    &&& forall|k: int| 0 <= k < winner ==> (#[trigger] converters[k]).location_of(account) is Err
}

/// The account that the first scheme to convert the location gives it;
/// [`Error::NoMatch`] where none of the schemes converts it.
pub fn convert_location(
    converters: &Vec<Converter>,
    location: &MultiLocation,
    encoded: &[u8],
) -> (r: Result<[u8; 32], Error>)
    ensures
        match r {
            Ok(account) => exists|winner: int|
                first_to_convert(converters@, location@, encoded@, winner, account@),
            Err(e) => e == Error::NoMatch && forall|k: int|
                0 <= k < converters@.len() ==> (#[trigger] converters@[k]).account_of(
                    location@,
                    encoded@,
                ) is Err,
        },
{
    let mut i: usize = 0;
    while i < converters.len()
        invariant
            i <= converters@.len(),
            forall|k: int|
                0 <= k < i ==> (#[trigger] converters@[k]).account_of(location@, encoded@) is Err,
        decreases converters@.len() - i,
    {
        match converters[i].convert(location, encoded) {
            Ok(account) => {
                assert(first_to_convert(converters@, location@, encoded@, i as int, account@));
                return Ok(account);
            },
            Err(_) => {},
        }
        i += 1;
    }
    Err(Error::NoMatch)
}

/// The location that the first scheme to convert the account back gives it;
/// [`Error::NoMatch`] where none of the schemes converts it back.
pub fn reverse_account(converters: &Vec<Converter>, who: &[u8; 32]) -> (r: Result<
    MultiLocation,
    Error,
>)
    ensures
        match r {
            Ok(location) => exists|winner: int|
                first_to_reverse(converters@, who@, winner, location@),
            Err(e) => e == Error::NoMatch && forall|k: int|
                0 <= k < converters@.len() ==> (#[trigger] converters@[k]).location_of(who@) is Err,
        },
{
    let mut i: usize = 0;
    while i < converters.len()
        invariant
            i <= converters@.len(),
            forall|k: int| 0 <= k < i ==> (#[trigger] converters@[k]).location_of(who@) is Err,
        decreases converters@.len() - i,
    {
        match converters[i].reverse(who) {
            Ok(location) => {
                assert(first_to_reverse(converters@, who@, i as int, location@));
                return Ok(location);
            },
            Err(_) => {},
        }
        i += 1;
    }
    Err(Error::NoMatch)
}

} // verus!
