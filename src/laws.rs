use vstd::prelude::*;

use crate::block::{block_fits, block_is_zero, same_outside, zeroed};

verus! {

/// Whatever bytes a block held, once it has been zero-filled on release every
/// byte of it reads zero, and no byte outside it has changed.
pub proof fn released_block_reads_zero(m: Seq<u8>, addr: int, size: int)
    requires
        block_fits(m.len() as int, addr, size),
    ensures
        block_is_zero(zeroed(m, addr, size), addr, size),
        same_outside(zeroed(m, addr, size), m, addr, size),
{
}

/// What a released block reads afterwards does not depend on what was written
/// into it, nor on what earlier blocks at the same addresses held: two
/// memories that differ only inside the block read the same once it has been
/// zero-filled. Zero-filling an already zero-filled block changes nothing.
pub proof fn release_forgets_contents(m1: Seq<u8>, m2: Seq<u8>, addr: int, size: int)
    requires
        same_outside(m1, m2, addr, size),
    ensures
        zeroed(m1, addr, size) == zeroed(m2, addr, size),
        zeroed(zeroed(m1, addr, size), addr, size) == zeroed(m1, addr, size),
{
    assert(zeroed(m1, addr, size) =~= zeroed(m2, addr, size));
    assert(zeroed(zeroed(m1, addr, size), addr, size) =~= zeroed(m1, addr, size));
}

} // verus!
