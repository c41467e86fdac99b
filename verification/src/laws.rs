//! What holds of the conversion schemes and of inversion, whatever the input.

use vstd::prelude::*;
use crate::account::{from_le_bytes, le_bytes, para_account_bytes, para_id_of_account, zeros};
use crate::conversion::{
    child_location, parent_location, sibling_location, AccountId32Aliases, AccountKey20Aliases,
    ChildParachainConvertsVia, ParentIsDefault, SiblingParachainConvertsVia,
};
use crate::error::Error;
use crate::invert::inverted;
use crate::junction::JunctionView;
use crate::location::{LocationView, MAX_JUNCTIONS};

verus! {

/// The four bytes of a number give the number back.
pub proof fn le_bytes_round_trip(value: u32)
    ensures
        le_bytes(value).len() == 4,
        from_le_bytes(le_bytes(value)) == value,
{
}

/// The account derived from a sub-system's identifier gives the identifier back.
pub proof fn para_account_round_trip(id: u32)
    ensures
        para_account_bytes(id).len() == 32,
        para_id_of_account(para_account_bytes(id)) == Some(id),
{
    let account = para_account_bytes(id);
    assert(account.take(4) =~= crate::account::para_tag());
    assert(account.skip(8) =~= zeros(24));
    assert(account.subrange(4, 8) =~= le_bytes(id));
    le_bytes_round_trip(id);
}

/// The system one level up and the zero account convert into each other, and the scheme
/// matches nothing else.
pub proof fn parent_is_default_matches_one_pair(location: LocationView, account: Seq<u8>)
    ensures
        ParentIsDefault::account_of(parent_location()) == Ok::<Seq<u8>, Error>(zeros(32)),
        ParentIsDefault::location_of(zeros(32)) == Ok::<LocationView, Error>(parent_location()),
        location != parent_location() ==> ParentIsDefault::account_of(location) == Err::<
            Seq<u8>,
            Error,
        >(Error::NoMatch),
        account != zeros(32) ==> ParentIsDefault::location_of(account) == Err::<
            LocationView,
            Error,
        >(Error::NoMatch),
{
}

/// The descent into any sub-system converts, and its account converts back into the very
/// same location.
pub proof fn child_parachain_round_trip(id: u32)
    ensures
        ChildParachainConvertsVia::account_of(child_location(id)) is Ok,
        ChildParachainConvertsVia::location_of(
            ChildParachainConvertsVia::account_of(child_location(id))->Ok_0,
        ) == Ok::<LocationView, Error>(child_location(id)),
{
    para_account_round_trip(id);
}

/// The location of any sibling converts, and its account converts back into the very same
/// location.
pub proof fn sibling_parachain_round_trip(id: u32)
    ensures
        SiblingParachainConvertsVia::account_of(sibling_location(id)) is Ok,
        SiblingParachainConvertsVia::location_of(
            SiblingParachainConvertsVia::account_of(sibling_location(id))->Ok_0,
        ) == Ok::<LocationView, Error>(sibling_location(id)),
{
    para_account_round_trip(id);
}

/// What a 32-byte alias scheme makes of an account, it converts back into that account.
pub proof fn account_id32_alias_round_trip(scheme: AccountId32Aliases, account: Seq<u8>)
    ensures
        scheme.account_of(scheme.location_of(account)) == Ok::<Seq<u8>, Error>(account),
{
}

/// What a 20-byte alias scheme makes of an account, it converts back into that account.
pub proof fn account_key20_alias_round_trip(scheme: AccountKey20Aliases, account: Seq<u8>)
    ensures
        scheme.account_of(scheme.location_of(account)) == Ok::<Seq<u8>, Error>(account),
{
}

/// Where the prefix descends at least as far as the location ascends, re-anchoring uses up
/// all the ascents of the location: the result ascends as the prefix does, and descends
/// through what is left of the prefix and then through the location's own junctions.
pub proof fn reanchor_absorbs_ascents(location: LocationView, prefix: LocationView)
    requires
        location.parents <= prefix.interior.len(),
    ensures
        location.prepended_with(prefix).parents == prefix.parents,
        location.prepended_with(prefix).interior == prefix.interior.skip(location.parents as int)
            + location.interior,
{
}

/// Where the location ascends further than the prefix descends, re-anchoring uses up the
/// whole descent of the prefix: the ascents that are left over are added to those of the
/// prefix, and the result descends through the location's own junctions only.
pub proof fn reanchor_keeps_excess_ascents(location: LocationView, prefix: LocationView)
    requires
        location.parents > prefix.interior.len(),
    ensures
        location.prepended_with(prefix).parents == prefix.parents + location.parents
            - prefix.interior.len(),
        location.prepended_with(prefix).interior == location.interior,
{
    assert(prefix.interior.skip(prefix.interior.len() as int) + location.interior
        =~= location.interior);
}

/// Inversion succeeds exactly for the locations that ascend no more than
/// [`MAX_JUNCTIONS`] systems, whatever the ancestry; it fails with [`Error::Overflow`] for
/// all others.
pub proof fn inversion_fails_on_overflow_only(ancestry: Seq<JunctionView>, location: LocationView)
    ensures
        location.parents <= MAX_JUNCTIONS <==> inverted(ancestry, location) is Ok,
        location.parents > MAX_JUNCTIONS <==> inverted(ancestry, location) == Err::<
            LocationView,
            Error,
        >(Error::Overflow),
{
}

/// The inverted location ascends as many systems as the location descends, and descends
/// as many as the location ascends: through the ancestry from the root down, and through
/// [`JunctionView::OnlyChild`] where the ancestry has ended.
pub proof fn inversion_swaps_ascent_and_descent(
    ancestry: Seq<JunctionView>,
    location: LocationView,
)
    requires
        location.parents <= MAX_JUNCTIONS,
    ensures
        inverted(ancestry, location)->Ok_0.parents == location.interior.len(),
        inverted(ancestry, location)->Ok_0.interior.len() == location.parents,
        forall|i: int|
            0 <= i < location.parents && i < ancestry.len() ==> inverted(
                ancestry,
                location,
            )->Ok_0.interior[i] == ancestry[i],
        forall|i: int|
            ancestry.len() <= i < location.parents ==> inverted(
                ancestry,
                location,
            )->Ok_0.interior[i] == JunctionView::OnlyChild,
{
}

/// Inverting twice need not give the location back: the way back from a sibling is not
/// inverted into the way to that sibling.
pub proof fn inversion_is_no_involution()
    ensures
        exists|ancestry: Seq<JunctionView>, location: LocationView|
            inverted(ancestry, location) is Ok && inverted(
                ancestry,
                inverted(ancestry, location)->Ok_0,
            ) is Ok && #[trigger] inverted(ancestry, inverted(ancestry, location)->Ok_0)->Ok_0
                != location,
{
    let ancestry = seq![JunctionView::Parachain(1)];
    let location = LocationView { parents: 1, interior: seq![JunctionView::Parachain(2)] };
    let back = inverted(ancestry, location)->Ok_0;
    assert(back.interior[0] == JunctionView::Parachain(1));
    let again = inverted(ancestry, back)->Ok_0;
    assert(again.interior[0] == JunctionView::Parachain(1));
    assert(location.interior[0] == JunctionView::Parachain(2));
    assert(inverted(ancestry, inverted(ancestry, location)->Ok_0)->Ok_0 != location);
}

} // verus!
