use vstd::prelude::*;

verus! {

/// A value filed under a key.
#[derive(Debug, Clone, Copy, PartialEq, Eq, PartialOrd, Ord)]
pub struct RoutingKey<K, V> {
    pub key: K,
    pub value: V,
}

impl<K, V> RoutingKey<K, V> {
    pub fn new(key: K, value: V) -> (r: Self)
        ensures
            r.key == key,
            r.value == value,
    {
        RoutingKey { key, value }
    }
}

/// The routes to fronts, exchanges, assets and instruments, each filed under its index.
#[derive(Debug)]
pub struct RoutingTable<Front, Exchange, Asset, Instrument> {
    pub fronts: Vec<RoutingKey<FrontIndex, Front>>,
    pub exchanges: Vec<RoutingKey<ExchangeIndex, Exchange>>,
    pub assets: Vec<RoutingKey<AssetIndex, Asset>>,
    pub instruments: Vec<RoutingKey<InstrumentIndex, Instrument>>,
}

#[derive(Debug, Clone, Copy, PartialEq, Eq, PartialOrd, Ord)]
pub struct FrontIndex(pub usize);

impl FrontIndex {
    pub fn new(index: usize) -> (r: Self)
        ensures
            r.0 == index,
    {
        FrontIndex(index)
    }
}

#[derive(Debug, Clone, Copy, PartialEq, Eq, PartialOrd, Ord)]
pub struct ExchangeIndex(pub usize);

impl ExchangeIndex {
    pub fn new(index: usize) -> (r: Self)
        ensures
            r.0 == index,
    {
        ExchangeIndex(index)
    }
}

#[derive(Debug, Clone, Copy, PartialEq, Eq, PartialOrd, Ord)]
pub struct AssetIndex(pub usize);

impl AssetIndex {
    pub fn new(index: usize) -> (r: Self)
        ensures
            r.0 == index,
    {
        AssetIndex(index)
    }
}

#[derive(Debug, Clone, Copy, PartialEq, Eq, PartialOrd, Ord)]
pub struct InstrumentIndex(pub usize);

impl InstrumentIndex {
    pub fn new(index: usize) -> (r: Self)
        ensures
            r.0 == index,
    {
        InstrumentIndex(index)
    }
}

} // verus!
