//! Packets sent over WebSocket between clients and servers.

use vstd::prelude::*;

verus! {

/// Represents either a borrowed or owned value and **can only be serialized**.
///
/// This is different from `Cow` in that it does not require `T: ToOwned`, making it easier to use
/// with types that need to be serialized but do not implement `ToOwned`.
#[derive(Debug)]
pub enum Bull<'a, T> {
    Borrowed(&'a T),
    Owned(T),
}

impl<'a, T> Bull<'a, T> {
    /// The value, borrowed or owned; this is what is serialized.
    pub fn value(&self) -> (value: &T)
        ensures
            *value == match *self {
                Bull::Borrowed(v) => *v,
                Bull::Owned(v) => v,
            },
    {
        match self {
            Bull::Borrowed(value) => value,
            Bull::Owned(value) => value,
        }
    }
}

/// Server: Update a single store with data
#[derive(Debug)]
pub struct OneStoreUpdate<'a, T> {
    pub store: &'a str,
    pub data: Bull<'a, T>,
}

} // verus!
