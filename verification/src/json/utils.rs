//! Helpers for reading creature files.

use vstd::prelude::*;

verus! {

/// A value with the id it is given.
#[derive(Debug)]
pub struct WithId<T, Id> {
    pub value: T,
    pub id: Id,
}

} // verus!
