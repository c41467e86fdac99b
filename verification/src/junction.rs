//! Junctions: the single steps of a descent through the tree of consensus systems.

use vstd::prelude::*;

verus! {

/// The network an account junction belongs to.
#[derive(Debug, PartialEq, Eq)]
pub enum NetworkId {
    /// Wildcard: any network.
    Any,
    /// A network known by its name.
    Named(Vec<u8>),
    /// The Polkadot relay chain.
    Polkadot,
    /// The Kusama relay chain.
    Kusama,
}

/// Mathematical value of a [`NetworkId`].
pub enum NetworkIdView {
    Any,
    Named(Seq<u8>),
    Polkadot,
    Kusama,
}

impl View for NetworkId {
    type V = NetworkIdView;

    open spec fn view(&self) -> NetworkIdView {
        match self {
            NetworkId::Any => NetworkIdView::Any,
            NetworkId::Named(name) => NetworkIdView::Named(name@),
            NetworkId::Polkadot => NetworkIdView::Polkadot,
            NetworkId::Kusama => NetworkIdView::Kusama,
        }
    }
}

impl Clone for NetworkId {
    fn clone(&self) -> (copy: Self)
        ensures
            copy@ == self@,
    {
        match self {
            NetworkId::Any => NetworkId::Any,
            NetworkId::Named(name) => NetworkId::Named(copy_bytes(name)),
            NetworkId::Polkadot => NetworkId::Polkadot,
            NetworkId::Kusama => NetworkId::Kusama,
        }
    }
}

impl NetworkId {
    /// Whether this is the wildcard network.
    pub fn is_any(&self) -> (r: bool)
        ensures
            r == (self@ == NetworkIdView::Any),
    {
        match self {
            NetworkId::Any => true,
            _ => false,
        }
    }

    /// Whether two network identifiers denote the same network.
    pub fn same_as(&self, other: &NetworkId) -> (r: bool)
        ensures
            r == (self@ == other@),
    {
        match (self, other) {
            (NetworkId::Any, NetworkId::Any) => true,
            (NetworkId::Named(a), NetworkId::Named(b)) => same_bytes(a, b),
            (NetworkId::Polkadot, NetworkId::Polkadot) => true,
            (NetworkId::Kusama, NetworkId::Kusama) => true,
            _ => false,
        }
    }
}

/// One step of a descent.
#[derive(Debug, PartialEq, Eq)]
pub enum Junction {
    /// A sub-system (a child chain) known by its numeric identifier.
    Parachain(u32),
    /// A 32-byte account within the given network.
    AccountId32 { network: NetworkId, id: [u8; 32] },
    /// A 20-byte account within the given network.
    AccountKey20 { network: NetworkId, key: [u8; 20] },
    /// An instance of a pallet, by its index.
    PalletInstance(u8),
    /// A general index with no fixed meaning.
    GeneralIndex(u128),
    /// A general key with no fixed meaning.
    GeneralKey(Vec<u8>),
    /// The only child of its parent, whatever its identity.
    OnlyChild,
    /// A group of members acting together.
    Plurality,
}

/// Mathematical value of a [`Junction`].
pub enum JunctionView {
    Parachain(u32),
    AccountId32 { network: NetworkIdView, id: Seq<u8> },
    AccountKey20 { network: NetworkIdView, key: Seq<u8> },
    PalletInstance(u8),
    GeneralIndex(u128),
    GeneralKey(Seq<u8>),
    OnlyChild,
    Plurality,
}

impl View for Junction {
    type V = JunctionView;

    open spec fn view(&self) -> JunctionView {
        match self {
            Junction::Parachain(id) => JunctionView::Parachain(*id),
            Junction::AccountId32 { network, id } => JunctionView::AccountId32 {
                network: network@,
                id: id@,
            },
            Junction::AccountKey20 { network, key } => JunctionView::AccountKey20 {
                network: network@,
                key: key@,
            },
            Junction::PalletInstance(index) => JunctionView::PalletInstance(*index),
            Junction::GeneralIndex(index) => JunctionView::GeneralIndex(*index),
            Junction::GeneralKey(key) => JunctionView::GeneralKey(key@),
            Junction::OnlyChild => JunctionView::OnlyChild,
            Junction::Plurality => JunctionView::Plurality,
        }
    }
}

impl Clone for Junction {
    fn clone(&self) -> (copy: Self)
        ensures
            copy@ == self@,
    {
        match self {
            Junction::Parachain(id) => Junction::Parachain(*id),
            Junction::AccountId32 { network, id } => Junction::AccountId32 {
                network: network.clone(),
                id: *id,
            },
            Junction::AccountKey20 { network, key } => Junction::AccountKey20 {
                network: network.clone(),
                key: *key,
            },
            Junction::PalletInstance(index) => Junction::PalletInstance(*index),
            Junction::GeneralIndex(index) => Junction::GeneralIndex(*index),
            Junction::GeneralKey(key) => Junction::GeneralKey(copy_bytes(key)),
            Junction::OnlyChild => Junction::OnlyChild,
            Junction::Plurality => Junction::Plurality,
        }
    }
}

/// A fresh vector holding the same bytes.
pub fn copy_bytes(bytes: &Vec<u8>) -> (copy: Vec<u8>)
    ensures
        copy@ == bytes@,
{
    let mut copy: Vec<u8> = Vec::new();
    let mut i: usize = 0;
    while i < bytes.len()
        invariant
            i <= bytes.len(),
            copy@ == bytes@.take(i as int),
        decreases bytes.len() - i,
    {
        copy.push(bytes[i]);
        i += 1;
    }
    copy
}

/// Whether two vectors hold the same bytes.
pub fn same_bytes(a: &Vec<u8>, b: &Vec<u8>) -> (r: bool)
    ensures
        r == (a@ == b@),
{
    if a.len() != b.len() {
        return false;
    }
    let mut i: usize = 0;
    while i < a.len()
        invariant
            i <= a.len(),
            a.len() == b.len(),
            a@.take(i as int) == b@.take(i as int),
        decreases a.len() - i,
    {
        if a[i] != b[i] {
            return false;
        }
        assert(a@.take(i + 1) == a@.take(i as int).push(a@[i as int]));
        assert(b@.take(i + 1) == b@.take(i as int).push(b@[i as int]));
        i += 1;
    }
    assert(a@.take(a.len() as int) == a@);
    assert(b@.take(b.len() as int) == b@);
    true
}

} // verus!

