//! The flags that steer one write to, or one read of, a map.

use vstd::prelude::*;

verus! {

/// No constraint: create the entry or overwrite it.
pub const ANY: u64 = 0;

/// The write fails if the key already has an entry.
pub const NO_EXIST: u64 = 1;

/// The write fails if the key has no entry.
pub const EXIST: u64 = 2;

/// The access happens under the spin lock that the value holds.
pub const LOCK: u64 = 4;

/// Every bit that has a name.
pub const ALL: u64 = 7;

/// A set of flags, kept as the bits that the kernel takes. Only named bits occur.
#[derive(Clone, Copy, Debug, PartialEq, Eq)]
pub struct MapFlags {
    bits: u64,
}

impl MapFlags {
    #[verifier::type_invariant]
    closed spec fn named_bits_only(self) -> bool {
        self.bits & !ALL == 0
    }

    /// The bits of this set.
    pub closed spec fn spec_bits(&self) -> u64 {
        self.bits
    }

    /// Whether every flag of `other` is in this set.
    pub open spec fn spec_contains(&self, other: MapFlags) -> bool {
        self.spec_bits() & other.spec_bits() == other.spec_bits()
    }

    /// The bits of this set, as the kernel takes them.
    #[verifier::when_used_as_spec(spec_bits)]
    pub fn bits(&self) -> (b: u64)
        ensures
            b == self.spec_bits(),
            b & !ALL == 0,
    {
        proof {
            use_type_invariant(self);
        }
        self.bits
    }

    /// The set without a flag, which is also `ANY`.
    pub fn empty() -> (f: MapFlags)
        ensures
            f.spec_bits() == 0,
    {
        assert(0u64 & !ALL == 0) by (bit_vector);
        MapFlags { bits: 0 }
    }

    /// The set of every flag.
    pub fn all() -> (f: MapFlags)
        ensures
            f.spec_bits() == ALL,
    {
        assert(ALL & !ALL == 0) by (bit_vector);
        MapFlags { bits: ALL }
    }

    /// No constraint.
    pub fn any() -> (f: MapFlags)
        ensures
            f.spec_bits() == ANY,
    {
        assert(ANY & !ALL == 0) by (bit_vector);
        MapFlags { bits: ANY }
    }

    /// The flag that makes a write fail on a key that has an entry.
    pub fn no_exist() -> (f: MapFlags)
        ensures
            f.spec_bits() == NO_EXIST,
    {
        assert(NO_EXIST & !ALL == 0) by (bit_vector);
        MapFlags { bits: NO_EXIST }
    }

    /// The flag that makes a write fail on a key that has no entry.
    pub fn exist() -> (f: MapFlags)
        ensures
            f.spec_bits() == EXIST,
    {
        assert(EXIST & !ALL == 0) by (bit_vector);
        MapFlags { bits: EXIST }
    }

    /// The flag that asks for the value's spin lock.
    pub fn lock() -> (f: MapFlags)
        ensures
            f.spec_bits() == LOCK,
    {
        assert(LOCK & !ALL == 0) by (bit_vector);
        MapFlags { bits: LOCK }
    }

    /// The set with exactly these bits, unless one of them has no name.
    pub fn from_bits(bits: u64) -> (f: Option<MapFlags>)
        ensures
            bits & !ALL == 0 ==> (f matches Some(set) && set.spec_bits() == bits),
            bits & !ALL != 0 ==> f is None,
    {
        if bits & !ALL == 0 {
            Some(MapFlags { bits })
        } else {
            None
        }
    }

    /// The set of the named bits among these.
    pub fn from_bits_truncate(bits: u64) -> (f: MapFlags)
        ensures
            f.spec_bits() == bits & ALL,
    {
        assert((bits & ALL) & !ALL == 0) by (bit_vector);
        MapFlags { bits: bits & ALL }
    }

    /// Whether the set holds no flag.
    pub fn is_empty(&self) -> (b: bool)
        ensures
            b == (self.spec_bits() == 0),
    {
        self.bits == 0
    }

    /// Whether the set holds every flag.
    pub fn is_all(&self) -> (b: bool)
        ensures
            b == (self.spec_bits() == ALL),
    {
        self.bits == ALL
    }

    /// Whether every flag of `other` is in this set.
    #[verifier::when_used_as_spec(spec_contains)]
    pub fn contains(&self, other: MapFlags) -> (b: bool)
        ensures
            b == self.spec_contains(other),
    {
        self.bits & other.bits == other.bits
    }

    /// Whether the two sets share a flag.
    pub fn intersects(&self, other: MapFlags) -> (b: bool)
        ensures
            b == (self.spec_bits() & other.spec_bits() != 0),
    {
        self.bits & other.bits != 0
    }

    /// The flags of either set.
    pub fn union(self, other: MapFlags) -> (f: MapFlags)
        ensures
            f.spec_bits() == self.spec_bits() | other.spec_bits(),
    {
        proof {
            use_type_invariant(self);
            use_type_invariant(other);
        }
        let a = self.bits;
        let b = other.bits;
        assert((a | b) & !ALL == 0) by (bit_vector)
            requires
                a & !ALL == 0,
                b & !ALL == 0,
        ;
        MapFlags { bits: a | b }
    }

    /// The flags of both sets.
    pub fn intersection(self, other: MapFlags) -> (f: MapFlags)
        ensures
            f.spec_bits() == self.spec_bits() & other.spec_bits(),
    {
        proof {
            use_type_invariant(self);
        }
        let a = self.bits;
        let b = other.bits;
        assert((a & b) & !ALL == 0) by (bit_vector)
            requires
                a & !ALL == 0,
        ;
        MapFlags { bits: a & b }
    }

    /// The flags of this set that are not in `other`.
    pub fn difference(self, other: MapFlags) -> (f: MapFlags)
        ensures
            f.spec_bits() == self.spec_bits() & !other.spec_bits(),
    {
        proof {
            use_type_invariant(self);
        }
        let a = self.bits;
        let b = other.bits;
        assert((a & !b) & !ALL == 0) by (bit_vector)
            requires
                a & !ALL == 0,
        ;
        MapFlags { bits: a & !b }
    }

    /// The flags that are not in this set.
    pub fn complement(self) -> (f: MapFlags)
        ensures
            f.spec_bits() == !self.spec_bits() & ALL,
    {
        let a = self.bits;
        assert((!a & ALL) & !ALL == 0) by (bit_vector);
        MapFlags { bits: !a & ALL }
    }

    /// Adds the flags of `other`.
    pub fn insert(&mut self, other: MapFlags)
        ensures
            final(self).spec_bits() == old(self).spec_bits() | other.spec_bits(),
    {
        *self = self.union(other);
    }

    /// Takes the flags of `other` out.
    pub fn remove(&mut self, other: MapFlags)
        ensures
            final(self).spec_bits() == old(self).spec_bits() & !other.spec_bits(),
    {
        *self = self.difference(other);
    }
}

} // verus!
