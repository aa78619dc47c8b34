use vstd::prelude::*;

use crate::block::{
    block_fits, block_is_zero, copy_block, disjoint, placed, same_outside, zero_block,
    zeroed, Layout,
};

verus! {

/// The allocation capability: allocate, allocate zeroed and release blocks of
/// a memory that the caller passes in.
///
/// An implementation keeps its own bookkeeping in `self`. It may write only to
/// the block that it hands out or takes back. Each operation comes with a
/// relation that names its possible outcomes: the memory before and after, the
/// result, and the allocator's state afterwards (`next`). An allocator that
/// names none of its outcomes keeps the default, which admits any of them;
/// the decorators below state theirs exactly, in terms of their backing
/// allocator's.
pub trait BlockAllocator: Sized {
    /// `allocate(layout)` on this state and memory `before` may leave memory
    /// `after`, return `r` and leave the state `next`.
    open spec fn allocates(&self, before: Seq<u8>, layout: Layout, after: Seq<u8>, r: Option<usize>, next: Self) -> bool {
        true
    }

    /// The same for `allocate_zeroed(layout)`.
    open spec fn allocates_zeroed(&self, before: Seq<u8>, layout: Layout, after: Seq<u8>, r: Option<usize>, next: Self) -> bool {
        true
    }

    /// `deallocate(addr, layout)` on this state and memory `before` may leave
    /// memory `after` and the state `next`.
    open spec fn releases(&self, before: Seq<u8>, addr: int, layout: Layout, after: Seq<u8>, next: Self) -> bool {
        true
    }

    /// Hands out a block for `layout`, or `None` when it has none. Only the
    /// bytes of the block handed out may change.
    fn allocate(&mut self, mem: &mut [u8], layout: Layout) -> (r: Option<usize>)
        ensures
            old(self).allocates(old(mem)@, layout, final(mem)@, r, *final(self)),
            r matches Some(p) ==> placed(old(mem)@.len() as int, p as int, layout)
                && same_outside(final(mem)@, old(mem)@, p as int, layout.size as int),
            r is None ==> final(mem)@ == old(mem)@,
    ;

    /// As `allocate`, and every byte of the block handed out reads zero.
    fn allocate_zeroed(&mut self, mem: &mut [u8], layout: Layout) -> (r: Option<usize>)
        ensures
            old(self).allocates_zeroed(old(mem)@, layout, final(mem)@, r, *final(self)),
            r matches Some(p) ==> placed(old(mem)@.len() as int, p as int, layout)
                && same_outside(final(mem)@, old(mem)@, p as int, layout.size as int)
                && block_is_zero(final(mem)@, p as int, layout.size as int),
            r is None ==> final(mem)@ == old(mem)@,
    ;

    /// Takes back the block at `addr` that was handed out for `layout`. Only
    /// the bytes of that block may change.
    fn deallocate(&mut self, mem: &mut [u8], addr: usize, layout: Layout)
        requires
            block_fits(old(mem)@.len() as int, addr as int, layout.size as int),
        ensures
            old(self).releases(old(mem)@, addr as int, layout, final(mem)@, *final(self)),
            same_outside(final(mem)@, old(mem)@, addr as int, layout.size as int),
    ;
}

/// The smaller of two sizes.
pub open spec fn min_size(a: int, b: int) -> int {
    if a < b { a } else { b }
}

/// `after` is `before` once the block `[addr, addr + size)` has been moved to
/// `[p, p + new_size)`: no byte outside the two blocks changed, and where the
/// blocks do not overlap the new one starts with the old one's bytes.
pub open spec fn moved(before: Seq<u8>, after: Seq<u8>, addr: int, size: int, p: int, new_size: int) -> bool {
    &&& after.len() == before.len()
    &&& forall|i: int|
        0 <= i < before.len() && !in_either(i, addr, size, p, new_size) ==> #[trigger] after[i] == before[i]
    &&& disjoint(addr, size, p, new_size) ==> forall|k: int|
        0 <= k < min_size(size, new_size) ==> #[trigger] after[p + k] == before[addr + k]
}

/// `i` lies in one of the blocks `[a, a + n)` and `[b, b + k)`.
pub open spec fn in_either(i: int, a: int, n: int, b: int, k: int) -> bool {
    a <= i < a + n || b <= i < b + k
}

/// The outcome of moving the block at `addr` of `layout` to a new block of
/// `new_size` bytes, from state `a` and memory `before` to memory `after`,
/// result `r` and state `next`. On `None`: one failed `allocate` and nothing
/// else. On `Some(p)`: one `allocate` that returned `p`, a copy that changed
/// only the new block, then one `deallocate` of the old block with its own
/// address and layout; the bytes moved as `moved` says.
pub open spec fn reallocated<A: BlockAllocator>(
    a: A,
    before: Seq<u8>,
    addr: int,
    layout: Layout,
    new_size: int,
    after: Seq<u8>,
    r: Option<usize>,
    next: A,
) -> bool {
    let new_layout = Layout { size: new_size as usize, align: layout.align };
    &&& after.len() == before.len()
    &&& r is None ==> after == before && a.allocates(before, new_layout, after, r, next)
    &&& r matches Some(p) ==> {
        &&& placed(before.len() as int, p as int, new_layout)
        &&& moved(before, after, addr, layout.size as int, p as int, new_size)
        &&& exists|mid: Seq<u8>, s: A, copy: Seq<u8>|
            #[trigger] a.allocates(before, new_layout, mid, r, s)
                && same_outside(copy, mid, p as int, min_size(layout.size as int, new_size))
                && #[trigger] s.releases(copy, addr, layout, after, next)
    }
}

/// Moves the block at `addr` to a new block of `new_size` bytes with the same
/// alignment: allocates it, copies the bytes that both sizes hold, then
/// releases the old block through `deallocate`. On `None` nothing changes and
/// the old block stays in place.
fn move_block<A: BlockAllocator>(a: &mut A, mem: &mut [u8], addr: usize, layout: Layout, new_size: usize) -> (r: Option<usize>)
    requires
        block_fits(old(mem)@.len() as int, addr as int, layout.size as int),
    ensures
        reallocated(*old(a), old(mem)@, addr as int, layout, new_size as int, final(mem)@, r, *final(a)),
{
    let new_layout = Layout { size: new_size, align: layout.align };
    match a.allocate(mem, new_layout) {
        Some(p) => {
            let ghost mid = mem@;
            let ghost s = *a;
            let n: usize = if layout.size < new_size { layout.size } else { new_size };
            copy_block(mem, addr, p, n);
            let ghost copy = mem@;
            a.deallocate(mem, addr, layout);
            assert(same_outside(copy, mid, p as int, min_size(layout.size as int, new_size as int)));
            Some(p)
        },
        None => None,
    }
}

/// A decorator over a backing allocator that zero-fills every block as it is
/// released and only then hands it back. Allocation passes through unchanged.
pub struct ZeroizingAllocator<A>(pub A);

impl<A: BlockAllocator> BlockAllocator for ZeroizingAllocator<A> {
    /// One `allocate` of the backing allocator with the same layout.
    open spec fn allocates(&self, before: Seq<u8>, layout: Layout, after: Seq<u8>, r: Option<usize>, next: Self) -> bool {
        self.0.allocates(before, layout, after, r, next.0)
    }

    /// One `allocate_zeroed` of the backing allocator with the same layout.
    open spec fn allocates_zeroed(&self, before: Seq<u8>, layout: Layout, after: Seq<u8>, r: Option<usize>, next: Self) -> bool {
        self.0.allocates_zeroed(before, layout, after, r, next.0)
    }

    /// One `deallocate` of the backing allocator with the same address and
    /// layout, on the memory with the block already zero-filled.
    open spec fn releases(&self, before: Seq<u8>, addr: int, layout: Layout, after: Seq<u8>, next: Self) -> bool {
        self.0.releases(zeroed(before, addr, layout.size as int), addr, layout, after, next.0)
    }

    fn allocate(&mut self, mem: &mut [u8], layout: Layout) -> (r: Option<usize>) {
        self.0.allocate(mem, layout)
    }

    fn allocate_zeroed(&mut self, mem: &mut [u8], layout: Layout) -> (r: Option<usize>) {
        self.0.allocate_zeroed(mem, layout)
    }

    /// Zero-fills the block, then hands it to the backing allocator at the same
    /// address and with the same layout.
    fn deallocate(&mut self, mem: &mut [u8], addr: usize, layout: Layout) {
        zero_block(mem, addr, layout.size);
        self.0.deallocate(mem, addr, layout);
    }
}

impl<A: BlockAllocator> ZeroizingAllocator<A> {
    /// Moves a block to a new one of `new_size` bytes through this decorator's
    /// own `allocate` and `deallocate`, so the old block is zero-filled before
    /// the backing allocator takes it back.
    pub fn reallocate(&mut self, mem: &mut [u8], addr: usize, layout: Layout, new_size: usize) -> (r: Option<usize>)
        requires
            block_fits(old(mem)@.len() as int, addr as int, layout.size as int),
        ensures
            reallocated(*old(self), old(mem)@, addr as int, layout, new_size as int, final(mem)@, r, *final(self)),
    {
        move_block(self, mem, addr, layout, new_size)
    }
}

/// The same decorator with the hand-back left out: a released block is
/// zero-filled and then leaked, so that it stays readable. Allocation passes
/// through unchanged.
pub struct LeakingZeroizingAllocator<A>(pub A);

impl<A: BlockAllocator> BlockAllocator for LeakingZeroizingAllocator<A> {
    /// One `allocate` of the backing allocator with the same layout.
    open spec fn allocates(&self, before: Seq<u8>, layout: Layout, after: Seq<u8>, r: Option<usize>, next: Self) -> bool {
        self.0.allocates(before, layout, after, r, next.0)
    }

    /// One `allocate_zeroed` of the backing allocator with the same layout.
    open spec fn allocates_zeroed(&self, before: Seq<u8>, layout: Layout, after: Seq<u8>, r: Option<usize>, next: Self) -> bool {
        self.0.allocates_zeroed(before, layout, after, r, next.0)
    }

    /// The block is zero-filled and the backing allocator is not called.
    open spec fn releases(&self, before: Seq<u8>, addr: int, layout: Layout, after: Seq<u8>, next: Self) -> bool {
        &&& after == zeroed(before, addr, layout.size as int)
        &&& next == *self
    }

    fn allocate(&mut self, mem: &mut [u8], layout: Layout) -> (r: Option<usize>) {
        self.0.allocate(mem, layout)
    }

    fn allocate_zeroed(&mut self, mem: &mut [u8], layout: Layout) -> (r: Option<usize>) {
        self.0.allocate_zeroed(mem, layout)
    }

    /// Zero-fills the block and keeps it.
    fn deallocate(&mut self, mem: &mut [u8], addr: usize, layout: Layout)
        ensures
            final(mem)@ == zeroed(old(mem)@, addr as int, layout.size as int),
            *final(self) == *old(self),
    {
        zero_block(mem, addr, layout.size);
    }

}

impl<A: BlockAllocator> LeakingZeroizingAllocator<A> {
    /// Moves a block to a new one of `new_size` bytes through this decorator's
    /// own `allocate` and `deallocate`: the old block is left behind
    /// zero-filled, and the new one holds the bytes that both sizes hold.
    pub fn reallocate(&mut self, mem: &mut [u8], addr: usize, layout: Layout, new_size: usize) -> (r: Option<usize>)
        requires
            block_fits(old(mem)@.len() as int, addr as int, layout.size as int),
        ensures
            reallocated(*old(self), old(mem)@, addr as int, layout, new_size as int, final(mem)@, r, *final(self)),
            r matches Some(p) ==> block_is_zero(final(mem)@, addr as int, layout.size as int),
    {
        move_block(self, mem, addr, layout, new_size)
    }
}

} // verus!
