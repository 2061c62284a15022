use vstd::prelude::*;

verus! {

/// A 32-byte account identity, held as four 64-bit words.
///
/// The core only compares identities for equality: it does not authenticate
/// them.
#[derive(Clone, Copy, Debug, PartialEq, Eq, Structural)]
pub struct Key {
    pub w0: u64,
    pub w1: u64,
    pub w2: u64,
    pub w3: u64,
}

impl Key {
    pub fn new(w0: u64, w1: u64, w2: u64, w3: u64) -> (r: Key)
        ensures
            r == (Key { w0, w1, w2, w3 }),
    {
        Key { w0, w1, w2, w3 }
    }

    /// Whether two identities are the same.
    pub fn same(&self, other: &Key) -> (r: bool)
        ensures
            r == (*self == *other),
    {
        *self == *other
    }
}

} // verus!
