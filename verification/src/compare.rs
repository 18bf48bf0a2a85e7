//! `==` and `<` on versions, both by precedence: two versions that differ
//! only in their build metadata are equal.
use crate::version::{precedence, Precedence, Version};
use core::cmp::Ordering;
use vstd::prelude::*;
use vstd::std_specs::cmp::{PartialEqSpecImpl, PartialOrdSpecImpl};

verus! {

impl PartialEq for Version {
    fn eq(&self, other: &Version) -> (r: bool) {
        match self.precedence(other) {
            Precedence::Same => true,
            _ => false,
        }
    }
}

impl PartialEqSpecImpl for Version {
    open spec fn obeys_eq_spec() -> bool {
        true
    }

    open spec fn eq_spec(&self, other: &Version) -> bool {
        precedence(self@, other@) == Precedence::Same
    }
}

impl Eq for Version {

}

impl PartialOrd for Version {
    fn partial_cmp(&self, other: &Version) -> (r: Option<Ordering>) {
        match self.precedence(other) {
            Precedence::Lower => Some(Ordering::Less),
            Precedence::Same => Some(Ordering::Equal),
            Precedence::Higher => Some(Ordering::Greater),
        }
    }
}

impl PartialOrdSpecImpl for Version {
    open spec fn obeys_partial_cmp_spec() -> bool {
        true
    }

    open spec fn partial_cmp_spec(&self, other: &Version) -> Option<Ordering> {
        match precedence(self@, other@) {
            Precedence::Lower => Some(Ordering::Less),
            Precedence::Same => Some(Ordering::Equal),
            Precedence::Higher => Some(Ordering::Greater),
        }
    }
}

} // verus!
