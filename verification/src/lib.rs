//! Composable allocators built from a small pair of capabilities.
//!
//! The crate revolves around two contracts: an *allocation* capability
//! ([`Allocator`]: acquire and release address ranges described by a
//! [`Layout`]) and an *ownership* capability ([`ArenaAllocator`]: decide
//! whether an address range lies in an allocator's managed region).
//! The [`primitive`] module provides primitive allocators over these contracts,
//! and the [`combinator`] module provides wrappers that compose them into
//! richer strategies.
//!
//! Addresses are kept as plain offsets into each allocator's arena, so the
//! bookkeeping here is pure arithmetic; pairing an allocator with an actual
//! byte buffer is left to unverified glue around this crate.

use vstd::prelude::*;

pub mod primitive;
pub mod combinator;

verus! {

/// Whether `n` is a power of two.
pub open spec fn is_power_of_two(n: int) -> bool
    decreases n,
{
    if n <= 0 {
        false
    } else if n == 1 {
        true
    } else {
        n % 2 == 0 && is_power_of_two(n / 2)
    }
}

/// Decides [`is_power_of_two`] for a machine word.
pub fn check_power_of_two(n: usize) -> (b: bool)
    ensures
        b == is_power_of_two(n as int),
{
    if n == 0 {
        return false;
    }
    let mut m: usize = n;
    while m % 2 == 0
        invariant
            1 <= m <= n,
            is_power_of_two(n as int) == is_power_of_two(m as int),
        decreases m,
    {
        m = m / 2;
    }
    m == 1
}

/// An allocation request: a size in bytes and a power-of-two alignment.
///
/// Sizes may be zero; zero-sized requests never fail for capacity reasons.
#[derive(Clone, Copy, Debug, PartialEq, Eq, Structural)]
pub struct Layout {
    pub size: usize,
    pub align: usize,
}

impl Layout {
    /// A layout is well formed when its alignment is a power of two.
    pub open spec fn wf(self) -> bool {
        is_power_of_two(self.align as int)
    }

    /// Builds a layout, rejecting alignments that are not powers of two.
    pub fn from_size_align(size: usize, align: usize) -> (r: Option<Layout>)
        ensures
            r is Some <==> is_power_of_two(align as int),
            r matches Some(l) ==> l == (Layout { size, align }) && l.wf(),
    {
        if check_power_of_two(align) {
            Some(Layout { size, align })
        } else {
            None
        }
    }
}

/// The number of padding bytes that advance `cursor` to the next multiple of
/// `align`.
pub open spec fn pad_to_align(cursor: int, align: int) -> int
    recommends
        align > 0,
{
    if cursor % align == 0 {
        0
    } else {
        align - cursor % align
    }
}

/// A successful allocation: the half-open address range
/// `[addr, addr + size)`.
#[derive(Clone, Copy, Debug, PartialEq, Eq, Structural)]
pub struct Block {
    pub addr: usize,
    pub size: usize,
}

/// Allocation failure: capacity is exhausted, arithmetic on the request
/// would overflow the address space, or a predicate rejected the request.
#[derive(Clone, Copy, Debug, PartialEq, Eq, Structural)]
pub struct AllocError;

/// The allocation capability: acquire and release address ranges.
///
/// Allocators are single-threaded state machines. What a call returns is
/// pinned down by `alloc_result`, and how a call may change the state by the
/// `alloc_transition` and `dealloc_transition` relations, so that every
/// implementation carries an exact model of its behaviour.
pub trait Allocator: Sized {
    /// Internal well-formedness of the allocator's state.
    spec fn inv(self) -> bool;

    /// The outcome `allocate` returns in this state for this layout.
    spec fn alloc_result(self, layout: Layout) -> Result<Block, AllocError>;

    /// How a call to `allocate` relates the state before (`self`) to the
    /// state after (`post`).
    spec fn alloc_transition(self, layout: Layout, post: Self) -> bool;

    /// How a call to `deallocate` relates the state before (`self`) to the
    /// state after (`post`).
    spec fn dealloc_transition(self, addr: usize, layout: Layout, post: Self) -> bool;

    /// Acquires an address range for `layout`, or reports failure.
    ///
    /// Failure is an ordinary return value, never a panic.
    fn allocate(&mut self, layout: Layout) -> (r: Result<Block, AllocError>)
        requires
            old(self).inv(),
            layout.wf(),
        ensures
            final(self).inv(),
            r == old(self).alloc_result(layout),
            old(self).alloc_transition(layout, *final(self)),
    ;

    /// Releases the range previously returned for `layout` at `addr`.
    ///
    /// A range that the allocator cannot reclaim is accepted and ignored:
    /// the call never fails.
    fn deallocate(&mut self, addr: usize, layout: Layout)
        requires
            old(self).inv(),
            layout.wf(),
        ensures
            final(self).inv(),
            old(self).dealloc_transition(addr, layout, *final(self)),
    ;
}

/// The ownership capability: region-based allocators that can decide whether
/// an address range lies in their managed region.
///
/// Composites use this query to route deallocation to the branch that
/// produced a range, without keeping a side table.
pub trait ArenaAllocator: Allocator {
    /// Whether the range `[addr, addr + size)` lies fully inside this
    /// allocator's arena.
    spec fn spec_contains(self, addr: int, size: int) -> bool;

    /// Decides [`Self::spec_contains`] for the range described by `addr` and
    /// `layout`.
    ///
    /// Pure and total: it never panics, even for ranges this allocator never
    /// produced.
    fn contains(&self, addr: usize, layout: Layout) -> (b: bool)
        requires
            self.inv(),
        ensures
            b == self.spec_contains(addr as int, layout.size as int),
    ;
}

} // verus!
