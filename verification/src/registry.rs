use vstd::prelude::*;
use crate::B160;
use crate::precompile::Precompile;
use crate::precompile::Routine;
use crate::spec_id::SpecId;
use crate::spec_u64_to_b160;
use crate::u64_to_b160;

verus! {

broadcast use vstd::map::group_map_axioms, vstd::set::group_set_axioms;

/// What an address table holds: each registered address, as a byte
/// sequence, bound to its entry.
pub uninterp spec fn addr_map_contents(m: AddrMap) -> Map<Seq<u8>, Precompile>;

/// The contents of a table with no bindings.
pub open spec fn empty_contents() -> Map<Seq<u8>, Precompile> {
    Map::<Seq<u8>, Precompile>::empty()
}

/// A hash table from 20-byte addresses to registry entries. It holds a
/// `hashbrown::HashMap`, the table every registry dispatches over; its
/// methods below are trusted to show ordinary map semantics, stated over
/// `addr_map_contents`.
#[verifier::external_body]
pub struct AddrMap {
    inner: hashbrown::HashMap<B160, Precompile>,
}

impl AddrMap {
    /// Relies on `hashbrown::HashMap::new`: an empty table.
    #[verifier::external_body]
    pub fn new() -> (r: Self)
        ensures
            addr_map_contents(r) == empty_contents(),
    {
        AddrMap { inner: hashbrown::HashMap::new() }
    }

    /// Relies on `hashbrown::HashMap::insert`: binds `key` to `value`,
    /// replacing any earlier binding of the same key.
    #[verifier::external_body]
    pub fn insert(&mut self, key: B160, value: Precompile)
        ensures
            addr_map_contents(*final(self)) == addr_map_contents(*old(self)).insert(key@, value),
    {
        self.inner.insert(key, value);
    }

    /// Relies on `hashbrown::HashMap::get`: the value bound to `key`, if any.
    #[verifier::external_body]
    pub fn get(&self, key: &B160) -> (r: Option<Precompile>)
        ensures
            addr_map_contents(*self).dom().contains(key@) ==> r == Some(
                addr_map_contents(*self)[key@],
            ),
            !addr_map_contents(*self).dom().contains(key@) ==> r is None,
    {
        self.inner.get(key).cloned()
    }

    /// Relies on `hashbrown::HashMap::contains_key`.
    #[verifier::external_body]
    pub fn contains_key(&self, key: &B160) -> (r: bool)
        ensures
            r == addr_map_contents(*self).dom().contains(key@),
    {
        self.inner.contains_key(key)
    }

    /// Relies on `hashbrown::HashMap::len`: the number of bindings, one per
    /// distinct key.
    #[verifier::external_body]
    pub fn len(&self) -> (r: usize)
        ensures
            r == addr_map_contents(*self).len(),
    {
        self.inner.len()
    }

    /// Relies on `hashbrown::HashMap::keys`: every registered key exactly
    /// once, in no promised order.
    #[verifier::external_body]
    pub fn keys(&self) -> (r: Vec<B160>)
        ensures
            forall|i: int, j: int|
                0 <= i < j < r@.len() ==> r@[i]@ != r@[j]@,
            forall|a: Seq<u8>|
                addr_map_contents(*self).dom().contains(a) <==> (exists|i: int|
                    0 <= i < r@.len() && #[trigger] r@[i]@ == a),
    {
        self.inner.keys().copied().collect()
    }
}

impl Clone for AddrMap {
    /// Relies on `hashbrown::HashMap::clone`: an independent table with the
    /// same bindings.
    #[verifier::external_body]
    fn clone(&self) -> (r: Self)
        ensures
            addr_map_contents(r) == addr_map_contents(*self),
    {
        AddrMap { inner: self.inner.clone() }
    }
}

/// The table active under the first ladder version: signature recovery, the
/// two hash routines, and the identity copy, at addresses 1 through 4.
pub open spec fn homestead_map() -> Map<Seq<u8>, Precompile> {
    Map::<Seq<u8>, Precompile>::empty()
        .insert(spec_u64_to_b160(1), Precompile::Standard(Routine::EcRecover))
        .insert(spec_u64_to_b160(2), Precompile::Standard(Routine::Sha256))
        .insert(spec_u64_to_b160(3), Precompile::Standard(Routine::Ripemd160))
        .insert(spec_u64_to_b160(4), Precompile::Standard(Routine::Identity))
}

/// The second ladder version layers the pairing-curve routines and modular
/// exponentiation, at addresses 5 through 8, over the first.
pub open spec fn byzantium_map() -> Map<Seq<u8>, Precompile> {
    homestead_map()
        .insert(spec_u64_to_b160(6), Precompile::Standard(Routine::Bn128Add(SpecId::BYZANTIUM)))
        .insert(spec_u64_to_b160(7), Precompile::Standard(Routine::Bn128Mul(SpecId::BYZANTIUM)))
        .insert(spec_u64_to_b160(8), Precompile::Standard(Routine::Bn128Pair(SpecId::BYZANTIUM)))
        .insert(spec_u64_to_b160(5), Precompile::Standard(Routine::ModExp(SpecId::BYZANTIUM)))
}

/// The third ladder version adds the compression-function routine at
/// address 9 and re-binds the curve routines to their cheaper schedule.
pub open spec fn istanbul_map() -> Map<Seq<u8>, Precompile> {
    byzantium_map()
        .insert(spec_u64_to_b160(9), Precompile::Standard(Routine::Blake2F))
        .insert(spec_u64_to_b160(6), Precompile::Standard(Routine::Bn128Add(SpecId::ISTANBUL)))
        .insert(spec_u64_to_b160(7), Precompile::Standard(Routine::Bn128Mul(SpecId::ISTANBUL)))
        .insert(spec_u64_to_b160(8), Precompile::Standard(Routine::Bn128Pair(SpecId::ISTANBUL)))
}

/// The fourth ladder version re-binds modular exponentiation to its revised
/// gas schedule; it introduces no new address.
pub open spec fn berlin_map() -> Map<Seq<u8>, Precompile> {
    istanbul_map().insert(spec_u64_to_b160(5), Precompile::Standard(Routine::ModExp(SpecId::BERLIN)))
}

/// `LATEST` permanently aliases the newest concrete version.
pub open spec fn latest_map() -> Map<Seq<u8>, Precompile> {
    berlin_map()
}

/// The table each ladder version resolves to.
pub open spec fn registry_map(spec: SpecId) -> Map<Seq<u8>, Precompile> {
    match spec {
        SpecId::HOMESTEAD => homestead_map(),
        SpecId::BYZANTIUM => byzantium_map(),
        SpecId::ISTANBUL => istanbul_map(),
        SpecId::BERLIN => berlin_map(),
        SpecId::LATEST => latest_map(),
    }
}

/// The immutable address-to-precompile mapping active under one protocol
/// version: built once per version, never mutated afterwards, a pure
/// dispatch table.
pub struct Precompiles {
    fun: AddrMap,
}

impl View for Precompiles {
    type V = Map<Seq<u8>, Precompile>;

    closed spec fn view(&self) -> Map<Seq<u8>, Precompile> {
        addr_map_contents(self.fun)
    }
}

impl Clone for Precompiles {
    /// An independent registry with the same bindings.
    fn clone(&self) -> (r: Self)
        ensures
            r@ == self@,
    {
        Precompiles { fun: self.fun.clone() }
    }
}

impl Precompiles {
    /// The registry of the first ladder version.
    pub fn homestead() -> (r: Self)
        ensures
            r@ == homestead_map(),
    {
        let mut fun = AddrMap::new();
        fun.insert(u64_to_b160(1), Precompile::Standard(Routine::EcRecover));
        fun.insert(u64_to_b160(2), Precompile::Standard(Routine::Sha256));
        fun.insert(u64_to_b160(3), Precompile::Standard(Routine::Ripemd160));
        fun.insert(u64_to_b160(4), Precompile::Standard(Routine::Identity));
        Precompiles { fun }
    }

    /// The registry of the second ladder version: the first version's table
    /// plus its four new entries.
    pub fn byzantium() -> (r: Self)
        ensures
            r@ == byzantium_map(),
    {
        let mut p = Self::homestead();
        p.fun.insert(u64_to_b160(6), Precompile::Standard(Routine::Bn128Add(SpecId::BYZANTIUM)));
        p.fun.insert(u64_to_b160(7), Precompile::Standard(Routine::Bn128Mul(SpecId::BYZANTIUM)));
        p.fun.insert(u64_to_b160(8), Precompile::Standard(Routine::Bn128Pair(SpecId::BYZANTIUM)));
        p.fun.insert(u64_to_b160(5), Precompile::Standard(Routine::ModExp(SpecId::BYZANTIUM)));
        p
    }

    /// The registry of the third ladder version.
    pub fn istanbul() -> (r: Self)
        ensures
            r@ == istanbul_map(),
    {
        let mut p = Self::byzantium();
        p.fun.insert(u64_to_b160(9), Precompile::Standard(Routine::Blake2F));
        p.fun.insert(u64_to_b160(6), Precompile::Standard(Routine::Bn128Add(SpecId::ISTANBUL)));
        p.fun.insert(u64_to_b160(7), Precompile::Standard(Routine::Bn128Mul(SpecId::ISTANBUL)));
        p.fun.insert(u64_to_b160(8), Precompile::Standard(Routine::Bn128Pair(SpecId::ISTANBUL)));
        p
    }

    /// The registry of the fourth ladder version.
    pub fn berlin() -> (r: Self)
        ensures
            r@ == berlin_map(),
    {
        let mut p = Self::istanbul();
        p.fun.insert(u64_to_b160(5), Precompile::Standard(Routine::ModExp(SpecId::BERLIN)));
        p
    }

    /// The registry of the newest concrete version.
    pub fn latest() -> (r: Self)
        ensures
            r@ == latest_map(),
    {
        Self::berlin()
    }

    /// The registry active under `spec`.
    pub fn new(spec: SpecId) -> (r: Self)
        ensures
            r@ == registry_map(spec),
    {
        match spec {
            SpecId::HOMESTEAD => Self::homestead(),
            SpecId::BYZANTIUM => Self::byzantium(),
            SpecId::ISTANBUL => Self::istanbul(),
            SpecId::BERLIN => Self::berlin(),
            SpecId::LATEST => Self::latest(),
        }
    }

    /// Every registered address, each exactly once, in no promised order:
    /// the registry is a set of addresses, not a sequence.
    pub fn addresses(&self) -> (r: Vec<B160>)
        ensures
            forall|i: int, j: int| 0 <= i < j < r@.len() ==> r@[i]@ != r@[j]@,
            forall|a: Seq<u8>|
                self@.dom().contains(a) <==> (exists|i: int|
                    0 <= i < r@.len() && #[trigger] r@[i]@ == a),
    {
        self.fun.keys()
    }

    /// Whether `address` is registered.
    pub fn contains(&self, address: &B160) -> (r: bool)
        ensures
            r == self@.dom().contains(address@),
    {
        self.fun.contains_key(address)
    }

    /// The entry registered at `address`: the lookup is total, returning an
    /// absent result for every unregistered address, never a fault.
    pub fn get(&self, address: &B160) -> (r: Option<Precompile>)
        ensures
            self@.dom().contains(address@) ==> r == Some(self@[address@]),
            !self@.dom().contains(address@) ==> r is None,
    {
        self.fun.get(address)
    }

    /// Whether the registry holds no entry.
    pub fn is_empty(&self) -> (r: bool)
        ensures
            r == (self@.len() == 0),
    {
        self.fun.len() == 0
    }

    /// How many addresses the registry holds.
    pub fn len(&self) -> (r: usize)
        ensures
            r == self@.len(),
    {
        self.fun.len()
    }
}

impl Default for Precompiles {
    /// The default registry is the newest version's.
    fn default() -> (r: Self)
        ensures
            r@ == latest_map(),
    {
        Self::new(SpecId::LATEST)
    }
}

/// Registry membership is monotonic in the ladder: every address registered
/// under an earlier version is registered under every later one, `LATEST`
/// standing at the top as the alias of the newest version.
pub proof fn lemma_registry_monotonic(a: SpecId, b: SpecId)
    requires
        a.spec_ordinal() <= b.spec_ordinal(),
    ensures
        registry_map(a).dom() <= registry_map(b).dom(),
{
    assert(homestead_map().dom() <= byzantium_map().dom());
    assert(byzantium_map().dom() <= istanbul_map().dom());
    assert(istanbul_map().dom() <= berlin_map().dom());
    assert(homestead_map().dom() <= istanbul_map().dom());
    assert(homestead_map().dom() <= berlin_map().dom());
    assert(byzantium_map().dom() <= berlin_map().dom());
    match a {
        SpecId::HOMESTEAD => {},
        SpecId::BYZANTIUM => {},
        SpecId::ISTANBUL => {},
        SpecId::BERLIN => {},
        SpecId::LATEST => {},
    }
}

/// Cardinality along the ladder: four entries at the first version, and
/// each later version growing by exactly the number of addresses it
/// introduces that no earlier version registered — four at the second
/// version, one at the third, none at the fourth, whose only entry
/// re-binds an address already present.
pub proof fn lemma_registry_cardinality()
    ensures
        homestead_map().len() == 4,
        byzantium_map().len() == 8,
        istanbul_map().len() == 9,
        berlin_map().len() == 9,
        latest_map().len() == berlin_map().len(),
{
    let k1 = spec_u64_to_b160(1);
    let k2 = spec_u64_to_b160(2);
    let k3 = spec_u64_to_b160(3);
    let k4 = spec_u64_to_b160(4);
    let k5 = spec_u64_to_b160(5);
    let k6 = spec_u64_to_b160(6);
    let k7 = spec_u64_to_b160(7);
    let k8 = spec_u64_to_b160(8);
    let k9 = spec_u64_to_b160(9);
    assert(k1[19] == 1u8);
    assert(k2[19] == 2u8);
    assert(k3[19] == 3u8);
    assert(k4[19] == 4u8);
    assert(k5[19] == 5u8);
    assert(k6[19] == 6u8);
    assert(k7[19] == 7u8);
    assert(k8[19] == 8u8);
    assert(k9[19] == 9u8);
    let s0 = Set::<Seq<u8>>::empty();
    let s4 = s0.insert(k1).insert(k2).insert(k3).insert(k4);
    assert(homestead_map().dom() =~= s4);
    assert(s4.len() == 4);
    let s8 = s4.insert(k6).insert(k7).insert(k8).insert(k5);
    assert(byzantium_map().dom() =~= s8);
    assert(s8.len() == 8);
    let s9 = s8.insert(k9);
    assert(istanbul_map().dom() =~= s9.insert(k6).insert(k7).insert(k8));
    assert(s9.insert(k6).insert(k7).insert(k8) =~= s9);
    assert(s9.len() == 9);
    assert(berlin_map().dom() =~= s9.insert(k5));
    assert(s9.insert(k5) =~= s9);
}

} // verus!
