use vstd::prelude::*;

verus! {

/// A zero-filled byte buffer of `size` bytes, ready to be read into.
pub fn allocate(size: usize) -> (r: Vec<u8>)
    ensures
        r@ == Seq::new(size as nat, |i: int| 0u8),
{
    let mut buf: Vec<u8> = Vec::with_capacity(size);
    let mut i: usize = 0;
    while i < size
        invariant
            i <= size,
            buf@ == Seq::new(i as nat, |j: int| 0u8),
        decreases size - i,
    {
        buf.push(0u8);
        i = i + 1;
        assert(buf@ =~= Seq::new(i as nat, |j: int| 0u8));
    }
    buf
}

} // verus!
