//! Bit-set types for the control flags and the filter-specific note flags of
//! an event record, with the named kernel constants of the Darwin family.
//!
//! Flags are opaque bit patterns: the only operations are bitwise union,
//! intersection and containment testing. Several note-flag names share one
//! bit value, because their meaning depends on which filter the record uses.

use vstd::prelude::*;

verus! {

// Control flags governing the registration lifecycle (16-bit on this family).
pub const EV_ADD: u16 = 0x1;
pub const EV_DELETE: u16 = 0x2;
pub const EV_ENABLE: u16 = 0x4;
pub const EV_DISABLE: u16 = 0x8;
pub const EV_ONESHOT: u16 = 0x10;
pub const EV_CLEAR: u16 = 0x20;
pub const EV_RECEIPT: u16 = 0x40;
pub const EV_DISPATCH: u16 = 0x80;
pub const EV_FLAG0: u16 = 0x1000;
pub const EV_POLL: u16 = 0x1000;
pub const EV_FLAG1: u16 = 0x2000;
pub const EV_OOBAND: u16 = 0x2000;
pub const EV_ERROR: u16 = 0x4000;
pub const EV_EOF: u16 = 0x8000;
pub const EV_SYSFLAGS: u16 = 0xf000;

// Note flags for the user filter.
pub const NOTE_TRIGGER: u32 = 0x01000000;
pub const NOTE_FFNOP: u32 = 0x00000000;
pub const NOTE_FFAND: u32 = 0x40000000;
pub const NOTE_FFOR: u32 = 0x80000000;
pub const NOTE_FFCOPY: u32 = 0xc0000000;
pub const NOTE_FFCTRLMASK: u32 = 0xc0000000;
pub const NOTE_FFLAGSMASK: u32 = 0x00ffffff;

// Note flags for the read and write filters.
pub const NOTE_LOWAT: u32 = 0x00000001;

// Note flags for the filesystem-node filter.
pub const NOTE_DELETE: u32 = 0x00000001;
pub const NOTE_WRITE: u32 = 0x00000002;
pub const NOTE_EXTEND: u32 = 0x00000004;
pub const NOTE_ATTRIB: u32 = 0x00000008;
pub const NOTE_LINK: u32 = 0x00000010;
pub const NOTE_RENAME: u32 = 0x00000020;
pub const NOTE_REVOKE: u32 = 0x00000040;
pub const NOTE_NONE: u32 = 0x00000080;

// Note flags for the process filter.
pub const NOTE_EXIT: u32 = 0x80000000;
pub const NOTE_FORK: u32 = 0x40000000;
pub const NOTE_EXEC: u32 = 0x20000000;
pub const NOTE_SIGNAL: u32 = 0x08000000;
pub const NOTE_EXITSTATUS: u32 = 0x04000000;
pub const NOTE_PDATAMASK: u32 = 0x000fffff;
pub const NOTE_PCTRLMASK: u32 = 0xfff00000;

// Note flags for the virtual-memory pressure filter.
pub const NOTE_VM_PRESSURE: u32 = 0x80000000;
pub const NOTE_VM_PRESSURE_TERMINATE: u32 = 0x40000000;
pub const NOTE_VM_PRESSURE_SUDDEN_TERMINATE: u32 = 0x20000000;
pub const NOTE_VM_ERROR: u32 = 0x10000000;

// Note flags for the timer filter.
pub const NOTE_SECONDS: u32 = 0x00000001;
pub const NOTE_USECONDS: u32 = 0x00000002;
pub const NOTE_NSECONDS: u32 = 0x00000004;
pub const NOTE_ABSOLUTE: u32 = 0x00000008;

// Note flags for process-tracking via the process filter.
pub const NOTE_TRACK: u32 = 0x00000001;
pub const NOTE_TRACKERR: u32 = 0x00000002;
pub const NOTE_CHILD: u32 = 0x00000004;

/// A set of control flags, stored as the kernel's 16-bit pattern.
#[derive(Clone, Copy, Debug, PartialEq, Eq, Structural)]
pub struct EventFlag {
    pub bits: u16,
}

impl EventFlag {
    /// The set with no flags.
    pub open spec fn spec_empty() -> EventFlag {
        EventFlag { bits: 0 }
    }

    /// The set of every flag in `self` or in `other`.
    pub open spec fn spec_union(self, other: EventFlag) -> EventFlag {
        EventFlag { bits: self.bits | other.bits }
    }

    /// The set of every flag in both `self` and `other`.
    pub open spec fn spec_intersect(self, other: EventFlag) -> EventFlag {
        EventFlag { bits: self.bits & other.bits }
    }

    /// Whether every flag of `other` is also in `self`.
    pub open spec fn spec_contains(self, other: EventFlag) -> bool {
        self.bits & other.bits == other.bits
    }

    #[verifier::when_used_as_spec(spec_empty)]
    pub fn empty() -> (r: EventFlag)
        ensures
            r == EventFlag::spec_empty(),
    {
        EventFlag { bits: 0 }
    }

    pub fn from_bits(bits: u16) -> (r: EventFlag)
        ensures
            r.bits == bits,
    {
        EventFlag { bits }
    }

    pub fn bits(self) -> (r: u16)
        ensures
            r == self.bits,
    {
        self.bits
    }

    #[verifier::when_used_as_spec(spec_union)]
    pub fn union(self, other: EventFlag) -> (r: EventFlag)
        ensures
            r == self.spec_union(other),
    {
        EventFlag { bits: self.bits | other.bits }
    }

    #[verifier::when_used_as_spec(spec_intersect)]
    pub fn intersect(self, other: EventFlag) -> (r: EventFlag)
        ensures
            r == self.spec_intersect(other),
    {
        EventFlag { bits: self.bits & other.bits }
    }

    #[verifier::when_used_as_spec(spec_contains)]
    pub fn contains(self, other: EventFlag) -> (r: bool)
        ensures
            r == self.spec_contains(other),
    {
        self.bits & other.bits == other.bits
    }
}

/// Union of control-flag sets is commutative.
pub proof fn lemma_event_flag_union_commutative(a: EventFlag, b: EventFlag)
    ensures
        a.spec_union(b) == b.spec_union(a),
{
    let x: u16 = a.bits;
    let y: u16 = b.bits;
    assert(x | y == y | x) by (bit_vector);
}

/// Union of control-flag sets is associative.
pub proof fn lemma_event_flag_union_associative(a: EventFlag, b: EventFlag, c: EventFlag)
    ensures
        a.spec_union(b).spec_union(c) == a.spec_union(b.spec_union(c)),
{
    let x: u16 = a.bits;
    let y: u16 = b.bits;
    let z: u16 = c.bits;
    assert((x | y) | z == x | (y | z)) by (bit_vector);
}

/// The empty control-flag set is the identity for union.
pub proof fn lemma_event_flag_union_empty_identity(a: EventFlag)
    ensures
        a.spec_union(EventFlag::spec_empty()) == a,
        EventFlag::spec_empty().spec_union(a) == a,
{
    let x: u16 = a.bits;
    assert(x | 0 == x) by (bit_vector);
    assert(0 | x == x) by (bit_vector);
}

/// The containment test holds exactly when every bit of `b` is set in `a`.
pub proof fn lemma_event_flag_contains_is_subset(a: EventFlag, b: EventFlag)
    ensures
        a.spec_contains(b) <==> b.bits & !a.bits == 0,
{
    let x: u16 = a.bits;
    let y: u16 = b.bits;
    assert((x & y == y) <==> (y & !x == 0)) by (bit_vector);
}

/// A set of filter note-flags, stored as the kernel's 32-bit pattern.
#[derive(Clone, Copy, Debug, PartialEq, Eq, Structural)]
pub struct FilterFlag {
    pub bits: u32,
}

impl FilterFlag {
    /// The set with no flags.
    pub open spec fn spec_empty() -> FilterFlag {
        FilterFlag { bits: 0 }
    }

    /// The set of every flag in `self` or in `other`.
    pub open spec fn spec_union(self, other: FilterFlag) -> FilterFlag {
        FilterFlag { bits: self.bits | other.bits }
    }

    /// The set of every flag in both `self` and `other`.
    pub open spec fn spec_intersect(self, other: FilterFlag) -> FilterFlag {
        FilterFlag { bits: self.bits & other.bits }
    }

    /// Whether every flag of `other` is also in `self`.
    pub open spec fn spec_contains(self, other: FilterFlag) -> bool {
        self.bits & other.bits == other.bits
    }

    #[verifier::when_used_as_spec(spec_empty)]
    pub fn empty() -> (r: FilterFlag)
        ensures
            r == FilterFlag::spec_empty(),
    {
        FilterFlag { bits: 0 }
    }

    pub fn from_bits(bits: u32) -> (r: FilterFlag)
        ensures
            r.bits == bits,
    {
        FilterFlag { bits }
    }

    pub fn bits(self) -> (r: u32)
        ensures
            r == self.bits,
    {
        self.bits
    }

    #[verifier::when_used_as_spec(spec_union)]
    pub fn union(self, other: FilterFlag) -> (r: FilterFlag)
        ensures
            r == self.spec_union(other),
    {
        FilterFlag { bits: self.bits | other.bits }
    }

    #[verifier::when_used_as_spec(spec_intersect)]
    pub fn intersect(self, other: FilterFlag) -> (r: FilterFlag)
        ensures
            r == self.spec_intersect(other),
    {
        FilterFlag { bits: self.bits & other.bits }
    }

    #[verifier::when_used_as_spec(spec_contains)]
    pub fn contains(self, other: FilterFlag) -> (r: bool)
        ensures
            r == self.spec_contains(other),
    {
        self.bits & other.bits == other.bits
    }
}

/// Union of note-flag sets is commutative.
pub proof fn lemma_filter_flag_union_commutative(a: FilterFlag, b: FilterFlag)
    ensures
        a.spec_union(b) == b.spec_union(a),
{
    let x: u32 = a.bits;
    let y: u32 = b.bits;
    assert(x | y == y | x) by (bit_vector);
}

/// Union of note-flag sets is associative.
pub proof fn lemma_filter_flag_union_associative(a: FilterFlag, b: FilterFlag, c: FilterFlag)
    ensures
        a.spec_union(b).spec_union(c) == a.spec_union(b.spec_union(c)),
{
    let x: u32 = a.bits;
    let y: u32 = b.bits;
    let z: u32 = c.bits;
    assert((x | y) | z == x | (y | z)) by (bit_vector);
}

/// The empty note-flag set is the identity for union.
pub proof fn lemma_filter_flag_union_empty_identity(a: FilterFlag)
    ensures
        a.spec_union(FilterFlag::spec_empty()) == a,
        FilterFlag::spec_empty().spec_union(a) == a,
{
    let x: u32 = a.bits;
    assert(x | 0 == x) by (bit_vector);
    assert(0 | x == x) by (bit_vector);
}

/// The containment test holds exactly when every bit of `b` is set in `a`.
pub proof fn lemma_filter_flag_contains_is_subset(a: FilterFlag, b: FilterFlag)
    ensures
        a.spec_contains(b) <==> b.bits & !a.bits == 0,
{
    let x: u32 = a.bits;
    let y: u32 = b.bits;
    assert((x & y == y) <==> (y & !x == 0)) by (bit_vector);
}

} // verus!
