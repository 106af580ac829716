//! Opaque values that cross the boundary: submissions, descriptors and results.

use vstd::prelude::*;

verus! {

/// Task submission data: a serialized program with its run parameters, in the
/// backend's own format.
#[derive(Debug, Clone)]
pub struct Payload {
    pub data: Vec<u8>,
}

/// A device's capability and constraint descriptor, in the backend's own format.
#[derive(Debug, Clone)]
pub struct Target {
    pub data: Vec<u8>,
}

/// What a task produced, in the backend's own format.
#[derive(Debug, Clone)]
pub struct TaskResult {
    pub data: Vec<u8>,
}

/// A copy of `b`, byte for byte.
pub fn copy_bytes(b: &Vec<u8>) -> (r: Vec<u8>)
    ensures
        r@ == b@,
{
    let mut r: Vec<u8> = Vec::new();
    let mut i: usize = 0;
    while i < b.len()
        invariant
            i <= b@.len(),
            r@ == b@.subrange(0, i as int),
        decreases b@.len() - i,
    {
        r.push(b[i]);
        i = i + 1;
    }
    assert(r@ =~= b@);
    r
}

} // verus!
