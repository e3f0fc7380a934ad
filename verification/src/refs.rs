//! References to other resources, by identifier or by name.

use vstd::prelude::*;

verus! {

/// A reference to a resource. A verified reference holds the identifier of
/// a resource that is known to exist; any other holds an identifier or a
/// name that the service has yet to confirm.
#[derive(Clone, Debug, PartialEq, Eq)]
pub struct ResourceRef {
    pub value: String,
    pub verified: bool,
}

impl ResourceRef {
    /// A reference by identifier or name, not yet confirmed.
    pub fn new(value: String) -> (r: ResourceRef)
        ensures
            r.value == value,
            !r.verified,
    {
        ResourceRef { value, verified: false }
    }

    /// A reference by the identifier of a resource that is known to exist.
    pub fn new_verified(id: String) -> (r: ResourceRef)
        ensures
            r.value == id,
            r.verified,
    {
        ResourceRef { value: id, verified: true }
    }

    /// The identifier or name that this reference holds.
    pub fn value(&self) -> (v: &String)
        ensures
            *v == self.value,
    {
        &self.value
    }

    /// Whether the service has confirmed this reference.
    pub fn is_verified(&self) -> (b: bool)
        ensures
            b == self.verified,
    {
        self.verified
    }
}

} // verus!
