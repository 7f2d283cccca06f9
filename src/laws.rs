use vstd::prelude::*;
use vstd::std_specs::ops::SubSpec;

use crate::pointer::ptr;

verus! {

/// A pointer made from an address gives that address back.
pub proof fn lemma_invalid_addr(a: usize)
    ensures
        ptr::invalid(a).addr() == a,
{
}

/// The null pointer is null.
pub proof fn lemma_null_is_null()
    ensures
        ptr::null().is_null(),
{
}

/// A pointer made from a nonzero address is not null.
pub proof fn lemma_nonzero_not_null(a: usize)
    requires
        a != 0,
    ensures
        !ptr::invalid(a).is_null(),
{
}

/// Going forward by an offset and back by the same offset returns to the
/// starting pointer, wrapping included.
pub proof fn lemma_add_then_sub(p: ptr, o: usize)
    ensures
        p.add(o).sub(o) == p,
{
    assert(p.add(o).sub(o) == p) by {
        crate::pointer::lemma_wrap_one_turn(p.addr + o);
        crate::pointer::lemma_wrap_one_turn(p.add(o).addr - o);
    }
}

/// The distance between two pointers is the wrapping difference of their
/// addresses, and `p - q` computes it.
pub proof fn lemma_diff_is_wrapping_sub(p: ptr, q: ptr)
    ensures
        p.diff(q) == p.addr().wrapping_sub(q.addr()),
        p.sub_spec(q) == p.diff(q),
{
    crate::pointer::lemma_wrap_one_turn(p.addr - q.addr);
}

/// Masking keeps exactly the address bits that are set in the mask.
pub proof fn lemma_mask_addr(p: ptr, m: usize)
    ensures
        p.mask(m).addr() == p.addr() & m,
{
}

} // verus!
