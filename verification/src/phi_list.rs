//! The container for a frame's merge placeholders. The placeholders
//! live in a `SmallVec` of the smallvec crate (almost every construct
//! declares zero or one result, so they stay inline); the verifier
//! cannot read that type, so the container is opaque to it and its
//! contents are named by `phis_of`, which the two trusted accessors
//! below relate to plain values.

use crate::values::PhiValue;
use smallvec::SmallVec;
use vstd::prelude::*;

verus! {

/// The ordered merge placeholders of one control frame, held in
/// smallvec's `SmallVec`. Opaque to the verifier; `phis_of` names what
/// it holds.
#[verifier::external_body]
#[derive(Debug)]
pub struct PhiList {
    items: SmallVec<[PhiValue; 1]>,
}

/// The ordered sequence of merge placeholders a `PhiList` holds.
pub uninterp spec fn phis_of(v: PhiList) -> Seq<PhiValue>;

impl PhiList {
    /// Relies on smallvec's `SmallVec::from_vec`: the new vector holds
    /// exactly the given elements, in order.
    #[verifier::external_body]
    pub fn from_vec(v: Vec<PhiValue>) -> (r: PhiList)
        ensures
            phis_of(r) == v@,
    {
        PhiList { items: SmallVec::from_vec(v) }
    }

    /// Relies on smallvec's `SmallVec::as_slice`: it extracts a slice
    /// containing the entire vector, in order.
    #[verifier::external_body]
    pub(crate) fn as_slice(&self) -> (r: &[PhiValue])
        ensures
            r@ == phis_of(*self),
    {
        self.items.as_slice()
    }
}

} // verus!
