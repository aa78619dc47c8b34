use vstd::prelude::*;

verus! {

/// Size and alignment of a request, handed over at allocation and again at
/// release.
#[derive(Clone, Copy, Debug, PartialEq, Eq, Structural)]
pub struct Layout {
    pub size: usize,
    pub align: usize,
}

/// `i` lies in the block of `size` bytes that starts at `addr`.
pub open spec fn in_block(i: int, addr: int, size: int) -> bool {
    addr <= i < addr + size
}

/// The block `[addr, addr + size)` lies inside a memory of `len` bytes.
pub open spec fn block_fits(len: int, addr: int, size: int) -> bool {
    0 <= addr && 0 <= size && addr + size <= len
}

/// `m` as it reads once the block `[addr, addr + size)` has been zero-filled.
pub open spec fn zeroed(m: Seq<u8>, addr: int, size: int) -> Seq<u8> {
    Seq::new(m.len(), |i: int| if in_block(i, addr, size) { 0u8 } else { m[i] })
}

/// Every byte of the block `[addr, addr + size)` of `m` is zero.
pub open spec fn block_is_zero(m: Seq<u8>, addr: int, size: int) -> bool {
    forall|i: int| in_block(i, addr, size) ==> #[trigger] m[i] == 0
}

/// `a` and `b` have one length and agree on every byte outside the block
/// `[addr, addr + size)`.
pub open spec fn same_outside(a: Seq<u8>, b: Seq<u8>, addr: int, size: int) -> bool {
    &&& a.len() == b.len()
    &&& forall|i: int| 0 <= i < a.len() && !in_block(i, addr, size) ==> #[trigger] a[i] == b[i]
}

/// A block of `layout` placed at `p` lies inside a memory of `len` bytes and
/// starts at a multiple of the requested alignment.
pub open spec fn placed(len: int, p: int, layout: Layout) -> bool {
    &&& block_fits(len, p, layout.size as int)
    &&& layout.align > 0 ==> p % (layout.align as int) == 0
}

/// The blocks `[a, a + n)` and `[b, b + k)` share no byte.
pub open spec fn disjoint(a: int, n: int, b: int, k: int) -> bool {
    a + n <= b || b + k <= a
}

/// `m` as it reads once the `n` bytes at `from` have been copied to `to`,
/// where the two ranges do not overlap.
pub open spec fn copied(m: Seq<u8>, from: int, to: int, n: int) -> Seq<u8> {
    Seq::new(m.len(), |i: int| if in_block(i, to, n) { m[from + (i - to)] } else { m[i] })
}

/// Relies on `core::sync::atomic::compiler_fence`: a compile-time barrier that
/// keeps the stores before it from being moved after it. It touches no value.
#[verifier::external_body]
fn compiler_barrier() {
    core::sync::atomic::compiler_fence(core::sync::atomic::Ordering::SeqCst);
}

/// Relies on `core::hint::black_box`, an identity function that asks the
/// optimizer to treat the bytes behind the reference as read, so that the
/// stores that wrote them are kept. std documents this as best-effort, not as
/// a guarantee. Through a shared reference to plain bytes it changes nothing.
#[verifier::external_body]
fn observe(bytes: &[u8]) {
    core::hint::black_box(bytes);
}

/// Overwrites the block `[addr, addr + size)` of `mem` with zeros, one byte at
/// a time, then hands the block to `black_box` and fences the stores, so that
/// the optimizer does its best to keep them although a release follows. Safe
/// code has no volatile store; that the stores survive is best-effort.
pub fn zero_block(mem: &mut [u8], addr: usize, size: usize)
    requires
        block_fits(old(mem)@.len() as int, addr as int, size as int),
    ensures
        final(mem)@ == zeroed(old(mem)@, addr as int, size as int),
{
    let len: usize = mem.len();
    let mut i: usize = 0;
    while i < size
        invariant
            i <= size,
            len as int == old(mem)@.len(),
            block_fits(old(mem)@.len() as int, addr as int, size as int),
            mem@.len() == old(mem)@.len(),
            forall|j: int| 0 <= j < mem@.len() ==> #[trigger] mem@[j] == (
                if in_block(j, addr as int, i as int) { 0u8 } else { old(mem)@[j] }),
        decreases size - i,
    {
        mem[addr + i] = 0;
        i = i + 1;
    }
    observe(mem);
    compiler_barrier();
    assert(mem@ =~= zeroed(old(mem)@, addr as int, size as int));
}

/// Copies the `n` bytes at `from` to `to`, front to back. Only the bytes at
/// `to` change; where the two ranges do not overlap they end up holding what
/// was at `from`.
pub(crate) fn copy_block(mem: &mut [u8], from: usize, to: usize, n: usize)
    requires
        block_fits(old(mem)@.len() as int, from as int, n as int),
        block_fits(old(mem)@.len() as int, to as int, n as int),
    ensures
        same_outside(final(mem)@, old(mem)@, to as int, n as int),
        disjoint(from as int, n as int, to as int, n as int) ==> final(mem)@ == copied(
            old(mem)@,
            from as int,
            to as int,
            n as int,
        ),
{
    let len: usize = mem.len();
    let mut i: usize = 0;
    while i < n
        invariant
            i <= n,
            len as int == old(mem)@.len(),
            block_fits(old(mem)@.len() as int, from as int, n as int),
            block_fits(old(mem)@.len() as int, to as int, n as int),
            same_outside(mem@, old(mem)@, to as int, i as int),
            disjoint(from as int, n as int, to as int, n as int) ==> forall|j: int|
                0 <= j < i ==> #[trigger] mem@[to + j] == old(mem)@[from + j],
        decreases n - i,
    {
        let b: u8 = mem[from + i];
        mem[to + i] = b;
        i = i + 1;
    }
    if from + n <= to || to + n <= from {
        assert forall|j: int| 0 <= j < mem@.len() implies #[trigger] mem@[j] == copied(
            old(mem)@,
            from as int,
            to as int,
            n as int,
        )[j] by {
            if in_block(j, to as int, n as int) {
                assert(mem@[to + (j - to)] == old(mem)@[from + (j - to)]);
            }
        }
        assert(mem@ =~= copied(old(mem)@, from as int, to as int, n as int));
    }
}

} // verus!
