use xcm_location::account::{hash_preimage, para_account_id};
use xcm_location::conversion::{
    Account32Hash, AccountId32Aliases, AccountKey20Aliases, ChildParachainConvertsVia,
    ParentIsDefault, SiblingParachainConvertsVia,
};
use xcm_location::error::Error;
use xcm_location::junction::Junction::{
    self, AccountId32, AccountKey20, GeneralIndex, OnlyChild, PalletInstance, Parachain,
};
use xcm_location::junction::NetworkId::{Any, Kusama, Named, Polkadot};
use xcm_location::location::{Junctions, MultiLocation};

fn location(parents: u8, items: Vec<Junction>) -> MultiLocation {
    MultiLocation::new(parents, Junctions::from_vec(items).unwrap())
}

fn para_account(id_bytes: [u8; 4]) -> [u8; 32] {
    let mut account = [0u8; 32];
    account[0] = b'p';
    account[1] = b'a';
    account[2] = b'r';
    account[3] = b'a';
    account[4] = id_bytes[0];
    account[5] = id_bytes[1];
    account[6] = id_bytes[2];
    account[7] = id_bytes[3];
    account
}

#[test]
fn hash_preimage_starts_with_the_encoded_tag() {
    assert_eq!(hash_preimage(&[]), vec![0x20, b'm', b'u', b'l', b't', b'i', b'l', b'o', b'c']);
    assert_eq!(
        hash_preimage(&[1, 0]),
        vec![0x20, b'm', b'u', b'l', b't', b'i', b'l', b'o', b'c', 1, 0]
    );
}

#[test]
fn hash_scheme_gives_the_blake2_digest_of_tag_and_encoding() {
    assert_eq!(
        Account32Hash::convert_ref(&[1, 0]),
        Ok([
            0x32, 0x0c, 0x2c, 0x23, 0xec, 0xc8, 0x57, 0xdd, 0xd1, 0xa4, 0x71, 0x89, 0xaf, 0xad,
            0x10, 0x43, 0x8d, 0xd7, 0xad, 0xbd, 0x2d, 0x86, 0xc8, 0x45, 0x8a, 0x4b, 0x72, 0xc6,
            0x8f, 0xc4, 0xf4, 0x77,
        ])
    );
    assert_eq!(
        Account32Hash::convert_ref(&[0, 1, 0, 0xa1, 0x0f]),
        Ok([
            0x47, 0x85, 0xd6, 0x04, 0x8b, 0x10, 0x0a, 0xaa, 0x6f, 0xa9, 0x2f, 0xb4, 0x70, 0x83,
            0x39, 0x85, 0x24, 0xfe, 0xa2, 0xb0, 0x68, 0x71, 0x82, 0x36, 0x43, 0xca, 0x8c, 0x99,
            0xc7, 0x8b, 0xeb, 0x76,
        ])
    );
    assert_eq!(
        Account32Hash::convert_ref(&[]),
        Ok([
            0x0b, 0x77, 0x26, 0x40, 0x85, 0x1f, 0xfa, 0xbd, 0x52, 0x1b, 0x59, 0x8c, 0xdc, 0x34,
            0xf9, 0x71, 0xda, 0xc4, 0xe8, 0xdf, 0xad, 0xff, 0x56, 0xa1, 0x8c, 0x23, 0xe2, 0x4b,
            0xbe, 0x61, 0x9a, 0x8e,
        ])
    );
}

#[test]
fn hash_scheme_never_converts_back() {
    assert_eq!(Account32Hash::reverse_ref(&[0u8; 32]), Err(Error::UnsupportedDirection));
    assert_eq!(Account32Hash::reverse_ref(&[0xffu8; 32]), Err(Error::UnsupportedDirection));
    let digest = Account32Hash::convert_ref(&[1, 0]).unwrap();
    assert_eq!(Account32Hash::reverse_ref(&digest), Err(Error::UnsupportedDirection));
    assert_eq!(Account32Hash::reverse_ref(&para_account_id(1)), Err(Error::UnsupportedDirection));
}

#[test]
fn parent_converts_to_the_zero_account_and_back() {
    assert_eq!(ParentIsDefault::convert_ref(&MultiLocation::parent()), Ok([0u8; 32]));
    assert_eq!(ParentIsDefault::reverse_ref(&[0u8; 32]), Ok(MultiLocation::parent()));
    assert_eq!(ParentIsDefault::reverse_ref(&[0u8; 32]), Ok(location(1, vec![])));
}

#[test]
fn parent_scheme_matches_nothing_else() {
    assert_eq!(ParentIsDefault::convert_ref(&MultiLocation::here()), Err(Error::NoMatch));
    assert_eq!(ParentIsDefault::convert_ref(&MultiLocation::grandparent()), Err(Error::NoMatch));
    assert_eq!(ParentIsDefault::convert_ref(&location(1, vec![OnlyChild])), Err(Error::NoMatch));
    assert_eq!(ParentIsDefault::convert_ref(&location(1, vec![Parachain(1)])), Err(Error::NoMatch));

    let mut last = [0u8; 32];
    last[31] = 1;
    assert_eq!(ParentIsDefault::reverse_ref(&last), Err(Error::NoMatch));
    let mut first = [0u8; 32];
    first[0] = 1;
    assert_eq!(ParentIsDefault::reverse_ref(&first), Err(Error::NoMatch));
    assert_eq!(ParentIsDefault::reverse_ref(&para_account_id(0)), Err(Error::NoMatch));
}

#[test]
fn para_account_holds_tag_identifier_and_zeros() {
    assert_eq!(para_account_id(1), para_account([1, 0, 0, 0]));
    assert_eq!(para_account_id(0), para_account([0, 0, 0, 0]));
    assert_eq!(para_account_id(1000), para_account([0xe8, 0x03, 0, 0]));
    assert_eq!(para_account_id(0x0403_0201), para_account([1, 2, 3, 4]));
    assert_eq!(para_account_id(u32::MAX), para_account([0xff, 0xff, 0xff, 0xff]));
}

#[test]
fn child_converts_to_the_account_of_its_identifier() {
    assert_eq!(
        ChildParachainConvertsVia::convert_ref(&location(0, vec![Parachain(1000)])),
        Ok(para_account([0xe8, 0x03, 0, 0]))
    );
    assert_eq!(
        ChildParachainConvertsVia::convert_ref(&location(0, vec![Parachain(2)])),
        Ok(para_account_id(2))
    );
}

#[test]
fn child_scheme_matches_no_other_location() {
    for other in [
        location(0, vec![]),
        location(1, vec![Parachain(1000)]),
        location(2, vec![Parachain(1000)]),
        location(0, vec![Parachain(1000), OnlyChild]),
        location(0, vec![Parachain(1000), Parachain(1000)]),
        location(0, vec![PalletInstance(3)]),
        location(0, vec![GeneralIndex(1000)]),
        location(0, vec![AccountId32 { network: Any, id: para_account_id(1000) }]),
    ] {
        assert_eq!(ChildParachainConvertsVia::convert_ref(&other), Err(Error::NoMatch));
    }
}

#[test]
fn child_account_converts_back_into_the_same_location() {
    for id in [0u32, 1, 2, 255, 256, 1000, 2000, 65_535, 65_536, 0x0403_0201, u32::MAX] {
        let there = location(0, vec![Parachain(id)]);
        let account = ChildParachainConvertsVia::convert_ref(&there).unwrap();
        assert_eq!(ChildParachainConvertsVia::reverse_ref(&account), Ok(there));
    }
}

#[test]
fn child_scheme_converts_back_only_what_it_derived() {
    assert_eq!(
        ChildParachainConvertsVia::reverse_ref(&para_account([1, 2, 3, 4])),
        Ok(location(0, vec![Parachain(0x0403_0201)]))
    );
    assert_eq!(ChildParachainConvertsVia::reverse_ref(&[0u8; 32]), Err(Error::NoMatch));

    let mut sibling_tag = para_account([1, 0, 0, 0]);
    sibling_tag[0] = b's';
    sibling_tag[1] = b'i';
    sibling_tag[2] = b'b';
    sibling_tag[3] = b'l';
    assert_eq!(ChildParachainConvertsVia::reverse_ref(&sibling_tag), Err(Error::NoMatch));

    let mut trailing = para_account([1, 0, 0, 0]);
    trailing[31] = 1;
    assert_eq!(ChildParachainConvertsVia::reverse_ref(&trailing), Err(Error::NoMatch));
    let mut after_id = para_account([1, 0, 0, 0]);
    after_id[8] = 1;
    assert_eq!(ChildParachainConvertsVia::reverse_ref(&after_id), Err(Error::NoMatch));
}

#[test]
fn sibling_converts_to_the_account_of_its_identifier() {
    assert_eq!(
        SiblingParachainConvertsVia::convert_ref(&location(1, vec![Parachain(2000)])),
        Ok(para_account([0xd0, 0x07, 0, 0]))
    );
}

#[test]
fn sibling_scheme_matches_no_other_location() {
    for other in [
        location(1, vec![]),
        location(0, vec![Parachain(2000)]),
        location(2, vec![Parachain(2000)]),
        location(1, vec![Parachain(2000), OnlyChild]),
        location(1, vec![PalletInstance(3)]),
    ] {
        assert_eq!(SiblingParachainConvertsVia::convert_ref(&other), Err(Error::NoMatch));
    }
}

#[test]
fn sibling_account_converts_back_with_one_ascent() {
    for id in [0u32, 1, 2000, 2001, u32::MAX] {
        let there = location(1, vec![Parachain(id)]);
        let account = SiblingParachainConvertsVia::convert_ref(&there).unwrap();
        assert_eq!(SiblingParachainConvertsVia::reverse_ref(&account), Ok(there));
    }
    assert_eq!(SiblingParachainConvertsVia::reverse_ref(&[0u8; 32]), Err(Error::NoMatch));
    assert_eq!(SiblingParachainConvertsVia::reverse_ref(&[7u8; 32]), Err(Error::NoMatch));
}

#[test]
fn account32_alias_takes_the_wildcard_and_its_own_network() {
    let scheme = AccountId32Aliases::new(Kusama);
    let id = [7u8; 32];
    assert_eq!(scheme.convert(&location(0, vec![AccountId32 { network: Any, id }])), Ok(id));
    assert_eq!(scheme.convert(&location(0, vec![AccountId32 { network: Kusama, id }])), Ok(id));

    let named = AccountId32Aliases::new(Named(b"local".to_vec()));
    assert_eq!(
        named.convert(&location(0, vec![AccountId32 { network: Named(b"local".to_vec()), id }])),
        Ok(id)
    );
}

#[test]
fn account32_alias_matches_nothing_else() {
    let scheme = AccountId32Aliases::new(Kusama);
    let id = [7u8; 32];
    for other in [
        location(0, vec![AccountId32 { network: Polkadot, id }]),
        location(0, vec![AccountId32 { network: Named(b"kusama".to_vec()), id }]),
        location(1, vec![AccountId32 { network: Any, id }]),
        location(0, vec![AccountId32 { network: Any, id }, OnlyChild]),
        location(0, vec![AccountKey20 { network: Any, key: [7u8; 20] }]),
        location(0, vec![Parachain(7)]),
        location(0, vec![]),
    ] {
        assert_eq!(scheme.convert(&other), Err(Error::NoMatch));
    }

    let named = AccountId32Aliases::new(Named(b"local".to_vec()));
    for other in [
        location(0, vec![AccountId32 { network: Named(b"locaL".to_vec()), id }]),
        location(0, vec![AccountId32 { network: Named(b"loca".to_vec()), id }]),
        location(0, vec![AccountId32 { network: Named(vec![]), id }]),
        location(0, vec![AccountId32 { network: Kusama, id }]),
    ] {
        assert_eq!(named.convert(&other), Err(Error::NoMatch));
    }
}

#[test]
fn account32_alias_converts_back_into_its_own_network() {
    let scheme = AccountId32Aliases::new(Polkadot);
    let id = [9u8; 32];
    let there = scheme.reverse(id).unwrap();
    assert_eq!(there, location(0, vec![AccountId32 { network: Polkadot, id }]));
    assert_eq!(scheme.convert(&there), Ok(id));

    // What came in under the wildcard goes out under the network of the scheme.
    let wild = location(0, vec![AccountId32 { network: Any, id }]);
    let account = scheme.convert(&wild).unwrap();
    assert_ne!(scheme.reverse(account).unwrap(), wild);
}

#[test]
fn account20_alias_takes_the_wildcard_and_its_own_network() {
    let scheme = AccountKey20Aliases::new(Polkadot);
    let key = [3u8; 20];
    assert_eq!(scheme.convert(&location(0, vec![AccountKey20 { network: Any, key }])), Ok(key));
    assert_eq!(
        scheme.convert(&location(0, vec![AccountKey20 { network: Polkadot, key }])),
        Ok(key)
    );
}

#[test]
fn account20_alias_matches_nothing_else() {
    let scheme = AccountKey20Aliases::new(Polkadot);
    let key = [3u8; 20];
    for other in [
        location(0, vec![AccountKey20 { network: Kusama, key }]),
        location(1, vec![AccountKey20 { network: Any, key }]),
        location(0, vec![AccountKey20 { network: Any, key }, OnlyChild]),
        location(0, vec![AccountId32 { network: Any, id: [3u8; 32] }]),
        location(0, vec![]),
    ] {
        assert_eq!(scheme.convert(&other), Err(Error::NoMatch));
    }
}

#[test]
fn account20_alias_converts_back_into_its_own_network() {
    let scheme = AccountKey20Aliases::new(Named(b"evm".to_vec()));
    let key = [5u8; 20];
    let there = scheme.reverse(key).unwrap();
    assert_eq!(there, location(0, vec![AccountKey20 { network: Named(b"evm".to_vec()), key }]));
    assert_eq!(scheme.convert(&there), Ok(key));
}
