//! Capability flags. Each driver declares, once and for all, what it can do
//! and which options it understands. A flag set is a byte: one bit per flag.

use vstd::prelude::*;

verus! {

/// Whether every bit of `wanted` is also set in `have`.
pub open spec fn bits_contain(have: u8, wanted: u8) -> bool {
    have & wanted == wanted
}

/// A set contains a union exactly when it contains both halves.
pub proof fn lemma_contains_union(have: u8, a: u8, b: u8)
    ensures
        bits_contain(have, a | b) <==> bits_contain(have, a) && bits_contain(have, b),
{
    assert((have & (a | b) == (a | b)) <==> (have & a == a && have & b == b)) by (bit_vector);
}

/// Every set contains the empty set.
pub proof fn lemma_contains_empty(have: u8)
    ensures
        bits_contain(have, 0),
{
    assert(have & 0 == 0) by (bit_vector);
}

/// What a locator can do with data and schemas.
#[derive(Clone, Copy, Debug, PartialEq, Eq, Structural)]
pub struct LocatorFeatures {
    bits: u8,
}

impl View for LocatorFeatures {
    type V = u8;

    closed spec fn view(&self) -> u8 {
        self.bits
    }
}

impl LocatorFeatures {
    /// The locator can hand its rows to this process.
    pub const LOCAL_DATA: u8 = 0b0001;

    /// The locator can take rows from this process.
    pub const WRITE_LOCAL_DATA: u8 = 0b0010;

    /// The locator can take part in a transfer that bypasses this process.
    pub const WRITE_REMOTE_DATA: u8 = 0b0100;

    /// The locator can store a schema.
    pub const WRITE_SCHEMA: u8 = 0b1000;

    /// Every defined flag.
    pub const ALL: u8 = 0b1111;

    /// Whether every flag of `other` is in this set.
    pub open spec fn spec_contains(self, other: Self) -> bool {
        bits_contain(self@, other@)
    }

    /// The set without any flag.
    pub fn empty() -> (r: Self)
        ensures
            r@ == 0,
    {
        LocatorFeatures { bits: 0 }
    }

    /// The defined flags among `bits`; other bits are dropped.
    pub fn from_bits_truncate(bits: u8) -> (r: Self)
        ensures
            r@ == bits & Self::ALL,
    {
        LocatorFeatures { bits: bits & Self::ALL }
    }

    /// The set that holds `LOCAL_DATA` alone.
    pub fn local_data() -> (r: Self)
        ensures
            r@ == Self::LOCAL_DATA,
    {
        LocatorFeatures { bits: Self::LOCAL_DATA }
    }

    /// The set that holds `WRITE_LOCAL_DATA` alone.
    pub fn write_local_data() -> (r: Self)
        ensures
            r@ == Self::WRITE_LOCAL_DATA,
    {
        LocatorFeatures { bits: Self::WRITE_LOCAL_DATA }
    }

    /// The set that holds `WRITE_REMOTE_DATA` alone.
    pub fn write_remote_data() -> (r: Self)
        ensures
            r@ == Self::WRITE_REMOTE_DATA,
    {
        LocatorFeatures { bits: Self::WRITE_REMOTE_DATA }
    }

    /// The set that holds `WRITE_SCHEMA` alone.
    pub fn write_schema() -> (r: Self)
        ensures
            r@ == Self::WRITE_SCHEMA,
    {
        LocatorFeatures { bits: Self::WRITE_SCHEMA }
    }

    /// The byte that holds the flags.
    pub fn bits(&self) -> (r: u8)
        ensures
            r == self@,
    {
        self.bits
    }

    /// Whether the set holds no flag.
    pub fn is_empty(&self) -> (r: bool)
        ensures
            r == (self@ == 0),
    {
        self.bits == 0
    }

    /// Whether every flag of `other` is in this set.
    pub fn contains(&self, other: Self) -> (r: bool)
        ensures
            r == self.spec_contains(other),
    {
        self.bits & other.bits == other.bits
    }

    /// The flags of either set.
    pub fn union(self, other: Self) -> (r: Self)
        ensures
            r@ == self@ | other@,
    {
        LocatorFeatures { bits: self.bits | other.bits }
    }
}

/// Which options a driver understands when it is the source.
#[derive(Clone, Copy, Debug, PartialEq, Eq, Structural)]
pub struct SourceArgumentsFeatures {
    bits: u8,
}

impl View for SourceArgumentsFeatures {
    type V = u8;

    closed spec fn view(&self) -> u8 {
        self.bits
    }
}

impl SourceArgumentsFeatures {
    /// Driver arguments.
    pub const DRIVER_ARGS: u8 = 0b0001;

    /// A `WHERE` clause.
    pub const WHERE_CLAUSE: u8 = 0b0010;

    /// Every defined flag.
    pub const ALL: u8 = 0b0011;

    /// Whether every flag of `other` is in this set.
    pub open spec fn spec_contains(self, other: Self) -> bool {
        bits_contain(self@, other@)
    }

    /// The set without any flag.
    pub fn empty() -> (r: Self)
        ensures
            r@ == 0,
    {
        SourceArgumentsFeatures { bits: 0 }
    }

    /// The defined flags among `bits`; other bits are dropped.
    pub fn from_bits_truncate(bits: u8) -> (r: Self)
        ensures
            r@ == bits & Self::ALL,
    {
        SourceArgumentsFeatures { bits: bits & Self::ALL }
    }

    /// The set that holds `DRIVER_ARGS` alone.
    pub fn driver_args() -> (r: Self)
        ensures
            r@ == Self::DRIVER_ARGS,
    {
        SourceArgumentsFeatures { bits: Self::DRIVER_ARGS }
    }

    /// The set that holds `WHERE_CLAUSE` alone.
    pub fn where_clause() -> (r: Self)
        ensures
            r@ == Self::WHERE_CLAUSE,
    {
        SourceArgumentsFeatures { bits: Self::WHERE_CLAUSE }
    }

    /// The byte that holds the flags.
    pub fn bits(&self) -> (r: u8)
        ensures
            r == self@,
    {
        self.bits
    }

    /// Whether the set holds no flag.
    pub fn is_empty(&self) -> (r: bool)
        ensures
            r == (self@ == 0),
    {
        self.bits == 0
    }

    /// Whether every flag of `other` is in this set.
    pub fn contains(&self, other: Self) -> (r: bool)
        ensures
            r == self.spec_contains(other),
    {
        self.bits & other.bits == other.bits
    }

    /// The flags of either set.
    pub fn union(self, other: Self) -> (r: Self)
        ensures
            r@ == self@ | other@,
    {
        SourceArgumentsFeatures { bits: self.bits | other.bits }
    }
}

/// Which options a driver understands when it is the destination.
#[derive(Clone, Copy, Debug, PartialEq, Eq, Structural)]
pub struct DestinationArgumentsFeatures {
    bits: u8,
}

impl View for DestinationArgumentsFeatures {
    type V = u8;

    closed spec fn view(&self) -> u8 {
        self.bits
    }
}

impl DestinationArgumentsFeatures {
    /// Driver arguments.
    pub const DRIVER_ARGS: u8 = 0b0001;

    /// Every defined flag.
    pub const ALL: u8 = 0b0001;

    /// Whether every flag of `other` is in this set.
    pub open spec fn spec_contains(self, other: Self) -> bool {
        bits_contain(self@, other@)
    }

    /// The set without any flag.
    pub fn empty() -> (r: Self)
        ensures
            r@ == 0,
    {
        DestinationArgumentsFeatures { bits: 0 }
    }

    /// The defined flags among `bits`; other bits are dropped.
    pub fn from_bits_truncate(bits: u8) -> (r: Self)
        ensures
            r@ == bits & Self::ALL,
    {
        DestinationArgumentsFeatures { bits: bits & Self::ALL }
    }

    /// The set that holds `DRIVER_ARGS` alone.
    pub fn driver_args() -> (r: Self)
        ensures
            r@ == Self::DRIVER_ARGS,
    {
        DestinationArgumentsFeatures { bits: Self::DRIVER_ARGS }
    }

    /// The byte that holds the flags.
    pub fn bits(&self) -> (r: u8)
        ensures
            r == self@,
    {
        self.bits
    }

    /// Whether the set holds no flag.
    pub fn is_empty(&self) -> (r: bool)
        ensures
            r == (self@ == 0),
    {
        self.bits == 0
    }

    /// Whether every flag of `other` is in this set.
    pub fn contains(&self, other: Self) -> (r: bool)
        ensures
            r == self.spec_contains(other),
    {
        self.bits & other.bits == other.bits
    }

    /// The flags of either set.
    pub fn union(self, other: Self) -> (r: Self)
        ensures
            r@ == self@ | other@,
    {
        DestinationArgumentsFeatures { bits: self.bits | other.bits }
    }
}

/// Which policies a driver can follow when what it writes exists already.
#[derive(Clone, Copy, Debug, PartialEq, Eq, Structural)]
pub struct IfExistsFeatures {
    bits: u8,
}

impl View for IfExistsFeatures {
    type V = u8;

    closed spec fn view(&self) -> u8 {
        self.bits
    }
}

impl IfExistsFeatures {
    /// Fail.
    pub const ERROR: u8 = 0b0001;

    /// Add the new rows to the old ones.
    pub const APPEND: u8 = 0b0010;

    /// Replace the old rows.
    pub const OVERWRITE: u8 = 0b0100;

    /// Update the rows that match on the key columns, insert the others.
    pub const UPSERT: u8 = 0b1000;

    /// Every defined flag.
    pub const ALL: u8 = 0b1111;

    /// Whether every flag of `other` is in this set.
    pub open spec fn spec_contains(self, other: Self) -> bool {
        bits_contain(self@, other@)
    }

    /// The set without any flag.
    pub fn empty() -> (r: Self)
        ensures
            r@ == 0,
    {
        IfExistsFeatures { bits: 0 }
    }

    /// The defined flags among `bits`; other bits are dropped.
    pub fn from_bits_truncate(bits: u8) -> (r: Self)
        ensures
            r@ == bits & Self::ALL,
    {
        IfExistsFeatures { bits: bits & Self::ALL }
    }

    /// The set that holds `ERROR` alone.
    pub fn error() -> (r: Self)
        ensures
            r@ == Self::ERROR,
    {
        IfExistsFeatures { bits: Self::ERROR }
    }

    /// The set that holds `APPEND` alone.
    pub fn append() -> (r: Self)
        ensures
            r@ == Self::APPEND,
    {
        IfExistsFeatures { bits: Self::APPEND }
    }

    /// The set that holds `OVERWRITE` alone.
    pub fn overwrite() -> (r: Self)
        ensures
            r@ == Self::OVERWRITE,
    {
        IfExistsFeatures { bits: Self::OVERWRITE }
    }

    /// The set that holds `UPSERT` alone.
    pub fn upsert() -> (r: Self)
        ensures
            r@ == Self::UPSERT,
    {
        IfExistsFeatures { bits: Self::UPSERT }
    }

    /// The byte that holds the flags.
    pub fn bits(&self) -> (r: u8)
        ensures
            r == self@,
    {
        self.bits
    }

    /// Whether the set holds no flag.
    pub fn is_empty(&self) -> (r: bool)
        ensures
            r == (self@ == 0),
    {
        self.bits == 0
    }

    /// Whether every flag of `other` is in this set.
    pub fn contains(&self, other: Self) -> (r: bool)
        ensures
            r == self.spec_contains(other),
    {
        self.bits & other.bits == other.bits
    }

    /// The flags of either set.
    pub fn union(self, other: Self) -> (r: Self)
        ensures
            r@ == self@ | other@,
    {
        IfExistsFeatures { bits: self.bits | other.bits }
    }
}

/// Everything a driver declares about itself.
#[derive(Clone, Copy, Debug, PartialEq, Eq, Structural)]
pub struct Features {
    /// What the locator can do.
    pub locator: LocatorFeatures,
    /// The policies it can follow when it writes a schema.
    pub write_schema_if_exists: IfExistsFeatures,
    /// The options it understands as a source.
    pub source_args: SourceArgumentsFeatures,
    /// The options it understands as a destination.
    pub dest_args: DestinationArgumentsFeatures,
    /// The policies it can follow when it writes data.
    pub dest_if_exists: IfExistsFeatures,
}

impl Features {
    /// The declaration of a driver that can do nothing and understands no option.
    pub fn empty() -> (r: Self)
        ensures
            r.locator@ == 0,
            r.write_schema_if_exists@ == 0,
            r.source_args@ == 0,
            r.dest_args@ == 0,
            r.dest_if_exists@ == 0,
    {
        Features {
            locator: LocatorFeatures::empty(),
            write_schema_if_exists: IfExistsFeatures::empty(),
            source_args: SourceArgumentsFeatures::empty(),
            dest_args: DestinationArgumentsFeatures::empty(),
            dest_if_exists: IfExistsFeatures::empty(),
        }
    }
}

} // verus!
