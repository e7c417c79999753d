//! Allocator combinators: wrappers that compose the allocation and
//! ownership capabilities of inner allocators into richer strategies.

use vstd::prelude::*;
use crate::{AllocError, Allocator, ArenaAllocator, Block, Layout};

verus! {

/// A pure condition over allocation requests, evaluated by [`Cond`] before each
/// allocation attempt.
pub trait LayoutPredicate: Sized {
    /// Whether the predicate accepts `layout`.
    spec fn spec_holds(self, layout: Layout) -> bool;

    /// Decides [`Self::spec_holds`].
    fn holds(&self, layout: Layout) -> (b: bool)
        ensures
            b == self.spec_holds(layout),
    ;
}

/// Accepts exactly the requests of at most `limit` bytes.
#[derive(Clone, Copy, Debug, PartialEq, Eq, Structural)]
pub struct SizeAtMost {
    pub limit: usize,
}

impl LayoutPredicate for SizeAtMost {
    open spec fn spec_holds(self, layout: Layout) -> bool {
        layout.size <= self.limit
    }

    fn holds(&self, layout: Layout) -> (b: bool) {
        layout.size <= self.limit
    }
}

/// An allocator that forwards allocation to its inner allocator only when a
/// predicate accepts the request, and fails it otherwise.
///
/// The predicate is a hard filter: when it rejects a layout, the inner
/// allocator is not consulted at all, however much capacity it has.
/// Deallocation and ownership pass through untouched.
#[derive(Clone, Copy, Debug)]
pub struct Cond<A, F> {
    pub alloc: A,
    pub pred: F,
}

impl<A, F> Cond<A, F> {
    /// Puts `pred` in front of `alloc`.
    pub fn new(alloc: A, pred: F) -> (c: Self)
        ensures
            c == (Cond { alloc, pred }),
    {
        Cond { alloc, pred }
    }
}

impl<A: Allocator, F: LayoutPredicate> Allocator for Cond<A, F> {
    open spec fn inv(self) -> bool {
        self.alloc.inv()
    }

    open spec fn alloc_result(self, layout: Layout) -> Result<Block, AllocError> {
        if self.pred.spec_holds(layout) {
            self.alloc.alloc_result(layout)
        } else {
            Err(AllocError)
        }
    }

    open spec fn alloc_transition(self, layout: Layout, post: Self) -> bool {
        if self.pred.spec_holds(layout) {
            self.alloc.alloc_transition(layout, post.alloc) && post.pred == self.pred
        } else {
            post == self
        }
    }

    open spec fn dealloc_transition(self, addr: usize, layout: Layout, post: Self) -> bool {
        self.alloc.dealloc_transition(addr, layout, post.alloc) && post.pred == self.pred
    }

    fn allocate(&mut self, layout: Layout) -> (r: Result<Block, AllocError>) {
        if self.pred.holds(layout) {
            self.alloc.allocate(layout)
        } else {
            Err(AllocError)
        }
    }

    fn deallocate(&mut self, addr: usize, layout: Layout) {
        self.alloc.deallocate(addr, layout);
    }
}

impl<A: ArenaAllocator, F: LayoutPredicate> ArenaAllocator for Cond<A, F> {
    open spec fn spec_contains(self, addr: int, size: int) -> bool {
        self.alloc.spec_contains(addr, size)
    }

    fn contains(&self, addr: usize, layout: Layout) -> (b: bool) {
        self.alloc.contains(addr, layout)
    }
}

/// An allocator that tries its primary allocator first and falls back to
/// its secondary on failure.
///
/// Deallocation is routed by the primary's ownership query: a range the
/// primary owns goes back to the primary, every other range goes to the
/// secondary. Callers therefore need not remember which branch produced a
/// range.
#[derive(Clone, Copy, Debug)]
pub struct Fallback<P, S> {
    pub primary: P,
    pub secondary: S,
}

impl<P, S> Fallback<P, S> {
    /// Composes `primary` with `secondary` as its fallback.
    pub fn new(primary: P, secondary: S) -> (f: Self)
        ensures
            f == (Fallback { primary, secondary }),
    {
        Fallback { primary, secondary }
    }

    /// The primary allocator.
    pub fn primary(&self) -> (p: &P)
        ensures
            *p == self.primary,
    {
        &self.primary
    }

    /// The secondary allocator.
    pub fn secondary(&self) -> (s: &S)
        ensures
            *s == self.secondary,
    {
        &self.secondary
    }
}

impl<P: ArenaAllocator, S: Allocator> Allocator for Fallback<P, S> {
    open spec fn inv(self) -> bool {
        self.primary.inv() && self.secondary.inv()
    }

    open spec fn alloc_result(self, layout: Layout) -> Result<Block, AllocError> {
        if self.primary.alloc_result(layout) is Ok {
            self.primary.alloc_result(layout)
        } else {
            self.secondary.alloc_result(layout)
        }
    }

    open spec fn alloc_transition(self, layout: Layout, post: Self) -> bool {
        self.primary.alloc_transition(layout, post.primary) && if self.primary.alloc_result(
            layout,
        ) is Ok {
            post.secondary == self.secondary
        } else {
            self.secondary.alloc_transition(layout, post.secondary)
        }
    }

    open spec fn dealloc_transition(self, addr: usize, layout: Layout, post: Self) -> bool {
        if self.primary.spec_contains(addr as int, layout.size as int) {
            self.primary.dealloc_transition(addr, layout, post.primary) && post.secondary
                == self.secondary
        } else {
            post.primary == self.primary && self.secondary.dealloc_transition(
                addr,
                layout,
                post.secondary,
            )
        }
    }

    fn allocate(&mut self, layout: Layout) -> (r: Result<Block, AllocError>) {
        let r = self.primary.allocate(layout);
        match r {
            Ok(block) => Ok(block),
            Err(_) => self.secondary.allocate(layout),
        }
    }

    fn deallocate(&mut self, addr: usize, layout: Layout) {
        if self.primary.contains(addr, layout) {
            self.primary.deallocate(addr, layout);
        } else {
            self.secondary.deallocate(addr, layout);
        }
    }
}

impl<P: ArenaAllocator, S: ArenaAllocator> ArenaAllocator for Fallback<P, S> {
    open spec fn spec_contains(self, addr: int, size: int) -> bool {
        self.primary.spec_contains(addr, size) || self.secondary.spec_contains(addr, size)
    }

    fn contains(&self, addr: usize, layout: Layout) -> (b: bool) {
        self.primary.contains(addr, layout) || self.secondary.contains(addr, layout)
    }
}

/// One observed allocation attempt: the request and its outcome.
#[derive(Clone, Copy, Debug)]
pub struct AllocEvent {
    pub layout: Layout,
    pub result: Result<Block, AllocError>,
}

/// A sink for allocation outcomes, driven by [`Inspect`].
///
/// Its abstract state is the history of events it has seen; observing an
/// event appends exactly that event to the history.
pub trait Observer: Sized {
    /// The events observed so far, oldest first.
    spec fn history(self) -> Seq<AllocEvent>;

    /// Records one allocation attempt's outcome.
    fn observe(&mut self, layout: Layout, result: Result<Block, AllocError>)
        ensures
            final(self).history() == old(self).history().push(
                AllocEvent { layout, result },
            ),
    ;
}

/// An observer that keeps every event in a vector.
#[derive(Debug)]
pub struct Recorder {
    pub events: Vec<AllocEvent>,
}

impl Recorder {
    /// A recorder that has seen nothing yet.
    pub fn new() -> (r: Self)
        ensures
            r.history() =~= Seq::<AllocEvent>::empty(),
    {
        Recorder { events: Vec::new() }
    }
}

impl Observer for Recorder {
    open spec fn history(self) -> Seq<AllocEvent> {
        self.events@
    }

    fn observe(&mut self, layout: Layout, result: Result<Block, AllocError>) {
        self.events.push(AllocEvent { layout, result });
    }
}

/// An allocator that forwards allocation to its inner allocator and hands
/// every attempt's outcome to an observer, exactly once per call, without
/// altering what the caller gets back.
///
/// Deallocation and ownership pass through unobserved.
#[derive(Debug)]
pub struct Inspect<A, F> {
    pub alloc: A,
    pub observer: F,
}

impl<A, F> Inspect<A, F> {
    /// Lets `observer` watch every allocation attempt on `alloc`.
    pub fn new(alloc: A, observer: F) -> (i: Self)
        ensures
            i == (Inspect { alloc, observer }),
    {
        Inspect { alloc, observer }
    }
}

impl<A: Allocator, F: Observer> Allocator for Inspect<A, F> {
    open spec fn inv(self) -> bool {
        self.alloc.inv()
    }

    open spec fn alloc_result(self, layout: Layout) -> Result<Block, AllocError> {
        self.alloc.alloc_result(layout)
    }

    open spec fn alloc_transition(self, layout: Layout, post: Self) -> bool {
        self.alloc.alloc_transition(layout, post.alloc) && post.observer.history()
            == self.observer.history().push(
            AllocEvent { layout, result: self.alloc.alloc_result(layout) },
        )
    }

    open spec fn dealloc_transition(self, addr: usize, layout: Layout, post: Self) -> bool {
        self.alloc.dealloc_transition(addr, layout, post.alloc) && post.observer
            == self.observer
    }

    fn allocate(&mut self, layout: Layout) -> (r: Result<Block, AllocError>) {
        let r = self.alloc.allocate(layout);
        self.observer.observe(layout, r);
        r
    }

    fn deallocate(&mut self, addr: usize, layout: Layout) {
        self.alloc.deallocate(addr, layout);
    }
}

impl<A: ArenaAllocator, F: Observer> ArenaAllocator for Inspect<A, F> {
    open spec fn spec_contains(self, addr: int, size: int) -> bool {
        self.alloc.spec_contains(addr, size)
    }

    fn contains(&self, addr: usize, layout: Layout) -> (b: bool) {
        self.alloc.contains(addr, layout)
    }
}

/// Extension methods that wrap any allocator in a combinator.
///
/// Every allocator has them, so composites can be spelled from the inside
/// out: `stack.cond(pred).fallback(other).inspect(observer)`.
pub trait Allocandrescu: Allocator {
    /// Puts the predicate `pred` in front of `self`.
    fn cond<F: LayoutPredicate>(self, pred: F) -> (c: Cond<Self, F>)
        ensures
            c == (Cond { alloc: self, pred }),
    {
        Cond::new(self, pred)
    }

    /// Composes `self` with `secondary` as its fallback.
    fn fallback<S: Allocator>(self, secondary: S) -> (f: Fallback<Self, S>) where
        Self: ArenaAllocator
        ensures
            f == (Fallback { primary: self, secondary }),
    {
        Fallback::new(self, secondary)
    }

    /// Lets `observer` watch every allocation attempt on `self`.
    fn inspect<F: Observer>(self, observer: F) -> (i: Inspect<Self, F>)
        ensures
            i == (Inspect { alloc: self, observer }),
    {
        Inspect::new(self, observer)
    }
}

impl<A: Allocator> Allocandrescu for A {
}

/// A conditioned allocator fails whenever its predicate rejects the request, even
/// if the inner allocator has capacity, and then leaves every state
/// untouched; when the predicate accepts, the outcome is exactly the inner
/// allocator's.
pub proof fn cond_predicate_law<A: Allocator, F: LayoutPredicate>(
    c: Cond<A, F>,
    layout: Layout,
    post: Cond<A, F>,
)
    ensures
        !c.pred.spec_holds(layout) ==> c.alloc_result(layout) == Err::<Block, AllocError>(
            AllocError,
        ),
        !c.pred.spec_holds(layout) && c.alloc_transition(layout, post) ==> post == c,
        c.pred.spec_holds(layout) ==> c.alloc_result(layout) == c.alloc.alloc_result(layout),
{
}

/// Fallback allocation is an ordered, first-success policy: the result is
/// the primary's whenever the primary succeeds, and the secondary's
/// otherwise.
pub proof fn fallback_allocate_law<P: ArenaAllocator, S: Allocator>(
    f: Fallback<P, S>,
    layout: Layout,
)
    ensures
        f.primary.alloc_result(layout) is Ok ==> f.alloc_result(layout)
            == f.primary.alloc_result(layout),
        f.primary.alloc_result(layout) is Err ==> f.alloc_result(layout)
            == f.secondary.alloc_result(layout),
{
}

/// Fallback deallocation routes by ownership: a range the primary owns goes
/// to the primary's deallocate and leaves the secondary untouched; every
/// other range goes to the secondary and leaves the primary untouched.
pub proof fn fallback_deallocate_law<P: ArenaAllocator, S: Allocator>(
    f: Fallback<P, S>,
    addr: usize,
    layout: Layout,
    post: Fallback<P, S>,
)
    requires
        f.dealloc_transition(addr, layout, post),
    ensures
        f.primary.spec_contains(addr as int, layout.size as int) ==> f.primary.dealloc_transition(
            addr,
            layout,
            post.primary,
        ) && post.secondary == f.secondary,
        !f.primary.spec_contains(addr as int, layout.size as int)
            ==> f.secondary.dealloc_transition(addr, layout, post.secondary) && post.primary
            == f.primary,
{
}

/// An inspected allocation returns the inner allocator's outcome unmodified,
/// and the observer sees exactly one new event per call: the request paired
/// with that outcome.
pub proof fn inspect_observe_law<A: Allocator, F: Observer>(
    i: Inspect<A, F>,
    layout: Layout,
    post: Inspect<A, F>,
)
    requires
        i.alloc_transition(layout, post),
    ensures
        i.alloc_result(layout) == i.alloc.alloc_result(layout),
        post.observer.history() == i.observer.history().push(
            AllocEvent { layout, result: i.alloc.alloc_result(layout) },
        ),
{
}

} // verus!
