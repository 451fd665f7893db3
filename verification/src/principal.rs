//! Principals: authenticatable identities, carried as opaque byte-string
//! identifiers.
//!
//! The caller-authentication primitive itself is a host collaborator and out
//! of scope here: every operation that names a caller requires that the host
//! has already proved the caller controls this identity before the call.

use vstd::prelude::*;
use crate::bytes::{bytes_eq, copy_bytes};

verus! {

/// An authenticated identity, viewed as its identifier bytes.
pub struct Principal {
    pub id: Vec<u8>,
}

impl View for Principal {
    type V = Seq<u8>;

    open spec fn view(&self) -> Seq<u8> {
        self.id@
    }
}

impl Principal {
    /// A principal with the given identifier bytes.
    pub fn new(id: Vec<u8>) -> (r: Self)
        ensures
            r@ == id@,
    {
        Principal { id }
    }

    /// Whether two principals are the same identity.
    pub fn same_as(&self, other: &Principal) -> (r: bool)
        ensures
            r == (self@ == other@),
    {
        bytes_eq(&self.id, &other.id)
    }

    /// A fresh copy of this principal.
    pub fn duplicate(&self) -> (r: Self)
        ensures
            r@ == self@,
    {
        Principal { id: copy_bytes(&self.id) }
    }
}

} // verus!
