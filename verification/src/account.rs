//! Local account identifiers and the ways to derive one: by hashing, and from the numeric
//! identifier of a sub-system.

use vstd::prelude::*;
use vstd::string::*;
use polkadot_parachain_primitives::primitives::Id;
use sp_runtime::traits::AccountIdConversion;
use sp_runtime::AccountId32;

verus! {

/// The 256-bit Blake2b digest of `data`, as `sp_io::hashing::blake2_256` computes it.
pub uninterp spec fn blake2_256_digest(data: Seq<u8>) -> Seq<u8>;

/// Calls `sp_io::hashing::blake2_256`. Trusted: the result is the digest of the given bytes,
/// and of nothing else.
#[verifier::external_body]
pub(crate) fn blake2_256(data: &[u8]) -> (digest: [u8; 32])
    ensures
        digest@ == blake2_256_digest(data@),
{
    sp_io::hashing::blake2_256(data)
}

/// Calls `parity_scale_codec::Encode::encode` on a string. Trusted: a string of fewer than
/// 64 bytes is encoded as one byte that holds four times its length in bytes, followed by
/// the bytes of the string.
#[verifier::external_body]
pub(crate) fn scale_encode_str(text: &str) -> (encoded: Vec<u8>)
    requires
        text.spec_bytes().len() < 64,
    ensures
        encoded@ == seq![(4 * text.spec_bytes().len()) as u8] + text.spec_bytes(),
{
    parity_scale_codec::Encode::encode(text)
}

/// `count` zero bytes.
pub open spec fn zeros(count: nat) -> Seq<u8> {
    Seq::new(count, |i: int| 0u8)
}

/// The four bytes of `value`, the least significant first.
pub open spec fn le_bytes(value: u32) -> Seq<u8> {
    seq![
        (value % 256) as u8,
        (value / 256 % 256) as u8,
        (value / 65536 % 256) as u8,
        (value / 16777216) as u8,
    ]
}

/// The number whose four bytes, the least significant first, are `bytes`.
pub open spec fn from_le_bytes(bytes: Seq<u8>) -> u32
    recommends
        bytes.len() == 4,
{
    (bytes[0] + 256 * bytes[1] + 65536 * bytes[2] + 16777216 * bytes[3]) as u32
}

/// The four bytes that mark an account as derived from a sub-system's identifier: `para`.
pub open spec fn para_tag() -> Seq<u8> {
    seq![0x70u8, 0x61u8, 0x72u8, 0x61u8]
}

/// The account of the sub-system `id`: the tag, the identifier, and zeros up to 32 bytes.
pub open spec fn para_account_bytes(id: u32) -> Seq<u8> {
    para_tag() + le_bytes(id) + zeros(24)
}

/// The sub-system whose account `account` is, if it is the account of one.
pub open spec fn para_id_of_account(account: Seq<u8>) -> Option<u32>
    recommends
        account.len() == 32,
{
    if account.take(4) == para_tag() && account.skip(8) == zeros(24) {
        Some(from_le_bytes(account.subrange(4, 8)))
    } else {
        None
    }
}

/// Calls `AccountIdConversion::into_account_truncating` of `sp_runtime` on the `Id` of
/// `polkadot_parachain_primitives`, for a 32-byte account. Trusted: the account holds the
/// type's tag `para`, then the identifier's four bytes, least significant first, then zeros.
#[verifier::external_body]
pub(crate) fn into_account(id: u32) -> (account: [u8; 32])
    ensures
        account@ == para_account_bytes(id),
{
    let account: AccountId32 = Id::from(id).into_account_truncating();
    account.into()
}

/// Calls `AccountIdConversion::try_from_account` of `sp_runtime` for the `Id` of
/// `polkadot_parachain_primitives`, on a 32-byte account. Trusted: the identifier is given
/// back exactly where the account starts with the tag `para` and all that follows the
/// identifier's four bytes is zero.
#[verifier::external_body]
pub(crate) fn try_from_account(account: &[u8; 32]) -> (id: Option<u32>)
    ensures
        id == para_id_of_account(account@),
{
    let found: Option<Id> = Id::try_from_account(&AccountId32::new(*account));
    found.map(u32::from)
}

/// The account that stands for the sub-system `id` on the system above it.
pub fn para_account_id(id: u32) -> (account: [u8; 32])
    ensures
        account@ == para_account_bytes(id),
{
    into_account(id)
}

/// The bytes that come before an encoded location where an account is derived from it by
/// hashing: the encoded string `multiloc`.
pub open spec fn hash_domain() -> Seq<u8> {
    seq![0x20u8, 0x6du8, 0x75u8, 0x6cu8, 0x74u8, 0x69u8, 0x6cu8, 0x6fu8, 0x63u8]
}

/// The bytes that are hashed to derive an account from a location, given the location's
/// encoding.
pub fn hash_preimage(encoded_location: &[u8]) -> (preimage: Vec<u8>)
    ensures
        preimage@ == hash_domain() + encoded_location@,
{
    let tag = "multiloc";
    proof {
        reveal_strlit("multiloc");
        assert(is_ascii(tag));
        is_ascii_spec_bytes(tag);
    }
    let mut preimage = scale_encode_str(tag);
    assert(preimage@ =~= hash_domain());
    let mut i: usize = 0;
    while i < encoded_location.len()
        invariant
            i <= encoded_location@.len(),
            preimage@ == hash_domain() + encoded_location@.take(i as int),
        decreases encoded_location@.len() - i,
    {
        preimage.push(encoded_location[i]);
        assert(encoded_location@.take(i + 1) =~= encoded_location@.take(i as int).push(
            encoded_location@[i as int],
        ));
        i += 1;
    }
    assert(encoded_location@.take(i as int) =~= encoded_location@);
    preimage
}

} // verus!
