//! Shared ownership by reference count.
use vstd::prelude::*;

use std::rc::Rc;

verus! {

/// Relies on `Rc::clone`: the new reference points to the same value.
#[verifier::external_body]
pub(crate) fn share<T>(rc: &Rc<T>) -> (r: Rc<T>)
    ensures
        *r == **rc,
{
    Rc::clone(rc)
}

} // verus!
