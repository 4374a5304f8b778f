//! Small byte-buffer helpers.

use vstd::prelude::*;

verus! {

/// An exact copy of a byte buffer.
pub fn clone_bytes(data: &Vec<u8>) -> (r: Vec<u8>)
    ensures
        r@ == data@,
{
    let mut r: Vec<u8> = Vec::new();
    let mut i: usize = 0;
    while i < data.len()
        invariant
            i <= data.len(),
            r@ == data@.take(i as int),
        decreases data.len() - i,
    {
        r.push(data[i]);
        i = i + 1;
        proof {
            assert(r@ =~= data@.take(i as int));
        }
    }
    proof {
        assert(data@.take(data.len() as int) =~= data@);
    }
    r
}

} // verus!
