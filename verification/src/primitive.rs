//! Primitive allocators: the always-failing sentinel, the bump-pointer
//! stack allocator, and the chunk-list ownership view of an external arena.

use vstd::prelude::*;
use crate::{AllocError, Allocator, ArenaAllocator, Block, Layout, pad_to_align};

verus! {

/// Allocator that always fails allocation.
///
/// Deallocation is a no-op and it owns nothing: a safe terminal element for
/// combinator chains.
#[derive(Clone, Copy, Debug, PartialEq, Eq, Structural)]
pub struct Failing;

impl Allocator for Failing {
    open spec fn inv(self) -> bool {
        true
    }

    open spec fn alloc_result(self, layout: Layout) -> Result<Block, AllocError> {
        Err(AllocError)
    }

    open spec fn alloc_transition(self, layout: Layout, post: Self) -> bool {
        post == self
    }

    open spec fn dealloc_transition(self, addr: usize, layout: Layout, post: Self) -> bool {
        post == self
    }

    fn allocate(&mut self, layout: Layout) -> (r: Result<Block, AllocError>) {
        Err(AllocError)
    }

    fn deallocate(&mut self, addr: usize, layout: Layout) {
    }
}

impl ArenaAllocator for Failing {
    open spec fn spec_contains(self, addr: int, size: int) -> bool {
        false
    }

    fn contains(&self, addr: usize, layout: Layout) -> (b: bool) {
        false
    }
}

/// Bump-pointer stack allocator over an arena of `N` bytes.
///
/// Addresses are offsets into the arena, so the arena's base is offset 0 and
/// the managed region is `[0, N)`. The cursor splits the arena: everything
/// below it is allocated, everything from it up to `N` is free. Reclamation
/// is LIFO-only: `deallocate` retracts the cursor exactly when the freed
/// range is the current top of the stack, and otherwise changes nothing.
#[derive(Clone, Copy, Debug)]
pub struct Stack<const N: usize> {
    pub cursor: usize,
}

impl<const N: usize> Stack<N> {
    /// A fresh stack allocator with an empty arena.
    pub fn new() -> (s: Self)
        ensures
            s.inv(),
            s.cursor == 0,
    {
        Stack { cursor: 0 }
    }

    /// Mass-frees every outstanding allocation by retracting the cursor to
    /// the arena's base. No per-object cleanup runs.
    pub fn reset(&mut self)
        ensures
            final(self).inv(),
            final(self).cursor == 0,
    {
        self.cursor = 0;
    }

    /// Where the next allocation for `layout` would start: the cursor,
    /// advanced to the next multiple of the requested alignment.
    pub open spec fn spec_start(self, layout: Layout) -> int {
        self.cursor + pad_to_align(self.cursor as int, layout.align as int)
    }

    /// Whether the padded request fits in the free part of the arena.
    pub open spec fn spec_fits(self, layout: Layout) -> bool {
        self.spec_start(layout) + layout.size <= N
    }

    /// The state `allocate` leaves behind: the cursor moves to the end of
    /// the new block on success and stays put on failure. Zero-sized
    /// requests consume no space.
    pub open spec fn spec_alloc_post(self, layout: Layout) -> Self {
        if layout.size > 0 && self.spec_fits(layout) {
            Stack { cursor: (self.spec_start(layout) + layout.size) as usize }
        } else {
            self
        }
    }

    /// The state `deallocate` leaves behind: the cursor retracts to `addr`
    /// exactly when `[addr, addr + size)` is the top of the stack.
    pub open spec fn spec_dealloc_post(self, addr: usize, size: usize) -> Self {
        if addr + size == self.cursor {
            Stack { cursor: addr }
        } else {
            self
        }
    }
}

impl<const N: usize> Default for Stack<N> {
    fn default() -> (s: Self)
        ensures
            s.inv(),
            s.cursor == 0,
    {
        Stack::new()
    }
}

impl<const N: usize> Allocator for Stack<N> {
    open spec fn inv(self) -> bool {
        self.cursor <= N
    }

    open spec fn alloc_result(self, layout: Layout) -> Result<Block, AllocError> {
        if layout.size == 0 {
            Ok(Block { addr: self.cursor, size: 0 })
        } else if self.spec_fits(layout) {
            Ok(Block { addr: self.spec_start(layout) as usize, size: layout.size })
        } else {
            Err(AllocError)
        }
    }

    open spec fn alloc_transition(self, layout: Layout, post: Self) -> bool {
        post == self.spec_alloc_post(layout)
    }

    open spec fn dealloc_transition(self, addr: usize, layout: Layout, post: Self) -> bool {
        post == self.spec_dealloc_post(addr, layout.size)
    }

    fn allocate(&mut self, layout: Layout) -> (r: Result<Block, AllocError>) {
        if layout.size == 0 {
            return Ok(Block { addr: self.cursor, size: 0 });
        }
        let rem: usize = self.cursor % layout.align;
        let pad: usize = if rem == 0 {
            0
        } else {
            layout.align - rem
        };
        if pad > N - self.cursor {
            return Err(AllocError);
        }
        let start: usize = self.cursor + pad;
        if layout.size > N - start {
            return Err(AllocError);
        }
        self.cursor = start + layout.size;
        Ok(Block { addr: start, size: layout.size })
    }

    fn deallocate(&mut self, addr: usize, layout: Layout) {
        if addr <= self.cursor && self.cursor - addr == layout.size {
            self.cursor = addr;
        }
    }
}

impl<const N: usize> ArenaAllocator for Stack<N> {
    open spec fn spec_contains(self, addr: int, size: int) -> bool {
        addr + size <= N
    }

    fn contains(&self, addr: usize, layout: Layout) -> (b: bool) {
        addr <= N && layout.size <= N - addr
    }
}

/// Allocation on the stack allocator succeeds exactly when the padded
/// request fits before capacity. On success the returned block starts at the
/// cursor advanced by the alignment padding, spans the requested size, is
/// aligned, and the cursor moves to the block's end; zero-sized requests are
/// placed at the cursor itself and consume no space.
pub proof fn stack_allocate_law<const N: usize>(s: Stack<N>, layout: Layout)
    requires
        s.inv(),
        layout.wf(),
    ensures
        layout.size > 0 ==> (s.alloc_result(layout) is Ok <==> s.spec_start(layout) + layout.size
            <= N),
        layout.size > 0 ==> (s.alloc_result(layout) matches Ok(b) ==> b == (Block {
            addr: (s.cursor + pad_to_align(s.cursor as int, layout.align as int)) as usize,
            size: layout.size,
        }) && (b.addr as int) % (layout.align as int) == 0 && s.spec_alloc_post(layout).cursor == b.addr
            + b.size),
        layout.size == 0 ==> s.alloc_result(layout) == Ok::<Block, AllocError>(Block {
            addr: s.cursor,
            size: 0,
        }) && s.spec_alloc_post(layout) == s,
{
    lemma_power_of_two_pos(layout.align as int);
    lemma_pad_aligns(s.cursor as int, layout.align as int);
}

/// Failed allocation never changes the stack allocator's state.
pub proof fn stack_failed_allocate_law<const N: usize>(s: Stack<N>, layout: Layout)
    requires
        s.inv(),
        layout.wf(),
    ensures
        s.alloc_result(layout) is Err ==> s.spec_alloc_post(layout) == s,
{
}

/// LIFO reclamation: freeing the block that `allocate` just returned
/// restores the allocator's state exactly, provided the request needed no
/// alignment padding (with padding, the cursor retracts to the block's
/// padded start instead).
pub proof fn stack_lifo_reclaim_law<const N: usize>(s: Stack<N>, layout: Layout)
    requires
        s.inv(),
        layout.wf(),
        pad_to_align(s.cursor as int, layout.align as int) == 0,
    ensures
        layout.size > 0 ==> (s.alloc_result(layout) matches Ok(b) ==> s.spec_alloc_post(
            layout,
        ).spec_dealloc_post(b.addr, b.size) == s),
{
}

/// Freeing any range that is not the current top of the stack changes
/// nothing: the range stays allocated until a matching top-of-stack free
/// walks back to it or the allocator is reset.
pub proof fn stack_non_top_free_law<const N: usize>(s: Stack<N>, addr: usize, size: usize)
    ensures
        addr + size != s.cursor ==> s.spec_dealloc_post(addr, size) == s,
{
}

/// The stack allocator owns exactly the ranges that lie fully inside its
/// arena `[0, N)`; a range that crosses the boundary, even by one byte, is
/// outside.
pub proof fn stack_contains_law<const N: usize>(s: Stack<N>, addr: usize, size: usize)
    ensures
        s.spec_contains(addr as int, size as int) <==> addr + size <= N,
{
}

/// A power of two is positive.
pub proof fn lemma_power_of_two_pos(n: int)
    requires
        crate::is_power_of_two(n),
    ensures
        n >= 1,
{
}

/// Advancing `cursor` by its padding lands on a multiple of `align`.
pub proof fn lemma_pad_aligns(cursor: int, align: int)
    requires
        align > 0,
        cursor >= 0,
    ensures
        (cursor + pad_to_align(cursor, align)) % align == 0,
{
    let rem = cursor % align;
    if rem != 0 {
        vstd::arithmetic::div_mod::lemma_fundamental_div_mod(cursor, align);
        let q = cursor / align;
        assert(cursor + pad_to_align(cursor, align) == align * (q + 1)) by {
            assert(cursor == align * q + rem);
            vstd::arithmetic::mul::lemma_mul_is_distributive_add(align, q, 1);
        }
        vstd::arithmetic::div_mod::lemma_mod_multiples_basic(q + 1, align);
    }
}

/// One allocated chunk of an external arena: a base address and a length in
/// bytes, describing the range `[addr, addr + size)`.
#[derive(Clone, Copy, Debug, PartialEq, Eq, Structural)]
pub struct Chunk {
    pub addr: usize,
    pub size: usize,
}

/// Whether a chunk's range fully contains `[addr, addr + size)`.
pub open spec fn chunk_covers(chunk: Chunk, addr: int, size: int) -> bool {
    chunk.addr <= addr && addr + size <= chunk.addr + chunk.size
}

/// The ownership view of an external arena that hands memory out from a
/// list of chunks: each entry is one allocated chunk's address range.
///
/// The arena itself stays outside this crate; unverified glue reads its
/// chunk list into this type, and the containment scan over the list is
/// verified here.
#[derive(Debug)]
pub struct ChunkList {
    pub chunks: Vec<Chunk>,
}

impl ChunkList {
    /// A view of an arena with no chunks; it owns nothing.
    pub fn new() -> (c: Self)
        ensures
            c.chunks@ =~= Seq::<Chunk>::empty(),
    {
        ChunkList { chunks: Vec::new() }
    }

    /// Records one more allocated chunk.
    pub fn push(&mut self, chunk: Chunk)
        ensures
            final(self).chunks@ == old(self).chunks@.push(chunk),
    {
        self.chunks.push(chunk);
    }

    /// Whether some chunk's range fully contains `[addr, addr + size)`.
    pub open spec fn spec_contains(self, addr: int, size: int) -> bool {
        exists|i: int|
            0 <= i < self.chunks@.len() && chunk_covers(self.chunks@[i], addr, size)
    }

    /// Decides [`Self::spec_contains`] by scanning the chunk list.
    ///
    /// Pure and total: it never panics, whatever the queried range, and the
    /// comparison never wraps around the address space.
    pub fn contains(&self, addr: usize, layout: Layout) -> (b: bool)
        ensures
            b == self.spec_contains(addr as int, layout.size as int),
    {
        let mut i: usize = 0;
        while i < self.chunks.len()
            invariant
                i <= self.chunks@.len(),
                forall|j: int|
                    0 <= j < i ==> !chunk_covers(
                        self.chunks@[j],
                        addr as int,
                        layout.size as int,
                    ),
            decreases self.chunks@.len() - i,
        {
            let chunk = self.chunks[i];
            if chunk.addr <= addr {
                let offset: usize = addr - chunk.addr;
                if offset <= chunk.size && layout.size <= chunk.size - offset {
                    return true;
                }
            }
            i = i + 1;
        }
        false
    }
}

} // verus!
