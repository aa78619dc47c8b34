//! An allocator decorator that overwrites every block with zeros when it is
//! released, before the backing allocator may reuse it.
//!
//! Memory is modelled as a byte slice whose indices are addresses; a block is
//! the range `[addr, addr + size)` of that slice.
mod allocator;
mod block;
mod laws;

pub use allocator::{BlockAllocator, LeakingZeroizingAllocator, ZeroizingAllocator};
pub use block::{zero_block, Layout};
pub use laws::{release_forgets_contents, released_block_reads_zero};
