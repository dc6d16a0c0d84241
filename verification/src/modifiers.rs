//! The set of modifier keys held during a keyboard event.

use core::ops::{BitOr, Sub};
use vstd::prelude::*;
use vstd::std_specs::ops::{BitOrSpecImpl, SubSpecImpl};

verus! {

/// A set of modifier keys, one bit per key.
///
/// Bits outside the four named flags are kept as they come from the toolkit;
/// they count as modifiers of their own.
#[derive(Clone, Copy, Debug, PartialEq, Eq, Structural, Hash)]
pub struct Modifiers {
    pub bits: u32,
}

impl Modifiers {
    /// The set that holds exactly the given bits.
    pub fn new(bits: u32) -> (m: Modifiers)
        ensures
            m.bits == bits,
    {
        Modifiers { bits }
    }

    /// No modifier.
    #[verifier::allow_in_spec]
    pub fn none() -> Modifiers
        returns
            (Modifiers { bits: 0 }),
    {
        Modifiers { bits: 0 }
    }

    /// The alt key.
    #[verifier::allow_in_spec]
    pub fn alt() -> Modifiers
        returns
            (Modifiers { bits: 1 }),
    {
        Modifiers { bits: 1 }
    }

    /// The control key.
    #[verifier::allow_in_spec]
    pub fn control() -> Modifiers
        returns
            (Modifiers { bits: 2 }),
    {
        Modifiers { bits: 2 }
    }

    /// The shift key.
    #[verifier::allow_in_spec]
    pub fn shift() -> Modifiers
        returns
            (Modifiers { bits: 4 }),
    {
        Modifiers { bits: 4 }
    }

    /// The meta key.
    #[verifier::allow_in_spec]
    pub fn meta() -> Modifiers
        returns
            (Modifiers { bits: 8 }),
    {
        Modifiers { bits: 8 }
    }

    /// The raw bits of the set.
    pub fn bits(&self) -> (bits: u32)
        ensures
            bits == self.bits,
    {
        self.bits
    }

    /// The set without the flags of `other`.
    pub open spec fn spec_difference(self, other: Modifiers) -> Modifiers {
        Modifiers { bits: self.bits & !other.bits }
    }

    /// The set with the flags of both sets.
    pub open spec fn spec_union(self, other: Modifiers) -> Modifiers {
        Modifiers { bits: self.bits | other.bits }
    }

    /// Every flag of `other` is in the set.
    pub open spec fn spec_contains(self, other: Modifiers) -> bool {
        self.bits & other.bits == other.bits
    }

    /// Whether no flag is set.
    pub fn is_empty(&self) -> (r: bool)
        ensures
            r == (*self == Modifiers::none()),
    {
        self.bits == 0
    }

    /// Whether every flag of `other` is in the set.
    pub fn contains(&self, other: Modifiers) -> (r: bool)
        ensures
            r == self.spec_contains(other),
    {
        (self.bits & other.bits) == other.bits
    }

    /// The set with the flags of both sets.
    pub fn union(self, other: Modifiers) -> (m: Modifiers)
        ensures
            m == self.spec_union(other),
    {
        Modifiers { bits: self.bits | other.bits }
    }

    /// The set without the flags of `other`.
    pub fn difference(self, other: Modifiers) -> (m: Modifiers)
        ensures
            m == self.spec_difference(other),
    {
        Modifiers { bits: self.bits & !other.bits }
    }
}

impl Sub for Modifiers {
    type Output = Modifiers;

    fn sub(self, other: Modifiers) -> (m: Modifiers) {
        Modifiers { bits: self.bits & !other.bits }
    }
}

impl SubSpecImpl for Modifiers {
    open spec fn obeys_sub_spec() -> bool {
        true
    }

    open spec fn sub_req(self, other: Modifiers) -> bool {
        true
    }

    open spec fn sub_spec(self, other: Modifiers) -> Modifiers {
        self.spec_difference(other)
    }
}

impl BitOr for Modifiers {
    type Output = Modifiers;

    fn bitor(self, other: Modifiers) -> (m: Modifiers) {
        Modifiers { bits: self.bits | other.bits }
    }
}

impl BitOrSpecImpl for Modifiers {
    open spec fn obeys_bitor_spec() -> bool {
        true
    }

    open spec fn bitor_req(self, other: Modifiers) -> bool {
        true
    }

    open spec fn bitor_spec(self, other: Modifiers) -> Modifiers {
        self.spec_union(other)
    }
}

} // verus!
