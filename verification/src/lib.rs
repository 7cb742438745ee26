//! A two-way generator: a computation that can suspend itself, hand a value
//! out to its driver, and later be resumed with a value the driver sends back,
//! any number of times before returning a final result.
//!
//! The computation body is written as an explicit resumable state machine (the
//! [`Computation`] trait): each drive runs it until it either suspends with a
//! yielded value or finishes with its result. The engine coordinates the two
//! sides through a single handshake slot ([`SwapSpaceSlot`]) whose phase
//! ([`SwapSpace`]) records which side may act next; every transition of that
//! phase is checked against the handshake protocol.

pub mod bodies;
mod computation;
mod futuring;
mod iter;
pub mod laws;
mod wrapper;

pub use computation::BodyStep;
pub use computation::Computation;
pub use futuring::FuturePoll;
pub use futuring::YieldedFuture;
pub use iter::GeneratorIterator;
pub use iter::GeneratorIteratorState;
pub use iter::QuerySource;
pub use iter::RepeatUnit;
pub use iter::VecSource;
pub use wrapper::GeneratorWrapper;
pub use wrapper::GeneratorWrapperInner;

use vstd::prelude::*;

verus! {

use core::marker::PhantomData;
use vstd::pervasive::unreached;

/// The phase of the handshake between the driver and the computation.
///
/// Exactly one side holds write access to the slot at a time; the phase says
/// which, and carries the value currently in flight across the boundary.
pub enum SwapSpace<Q, Y> {
    /// Freshly created; the computation has not yet begun.
    JustStarted,
    /// The driver has just handed in a query value.
    GotQuery(Q),
    /// Control flow is inside the computation body; the query (or the start
    /// value) has been consumed and the body is running.
    ProcessingQuery,
    /// The body has just emitted a value and suspended.
    Yielding(Y),
    /// The body is suspended and the driver has collected the yielded value.
    WaitingForQuery,
    /// The body has returned its final result; querying again is an error.
    Finished,
}

/// The handshake slot: holds exactly one phase, shared (in turns) by the
/// driver-facing generator and the computation's suspension points.
pub struct SwapSpaceSlot<Q, Y> {
    current: SwapSpace<Q, Y>,
}

impl<Q, Y> SwapSpaceSlot<Q, Y> {
    /// The phase currently held in the slot.
    pub closed spec fn phase(self) -> SwapSpace<Q, Y> {
        self.current
    }

    /// A fresh slot for a generator that has not yet begun.
    pub fn new() -> (slot: Self)
        ensures
            slot.phase() is JustStarted,
    {
        SwapSpaceSlot { current: SwapSpace::JustStarted }
    }

    /// Replace the current phase with `next`, returning the old phase.
    pub fn replace(&mut self, next: SwapSpace<Q, Y>) -> (prev: SwapSpace<Q, Y>)
        ensures
            final(self).phase() == next,
            prev == old(self).phase(),
    {
        let mut taken = next;
        core::mem::swap(&mut self.current, &mut taken);
        taken
    }

    /// Read the current phase without disturbing it.
    pub fn borrow(&self) -> (p: &SwapSpace<Q, Y>)
        ensures
            *p == self.phase(),
    {
        &self.current
    }
}

/// The suspension capability handed to a computation body: its sole operation,
/// [`YieldWrapper::ield`], produces a suspension point.
pub struct YieldWrapper<Q, Y> {
    _query: PhantomData<Q>,
    _yielded: PhantomData<Y>,
}

impl<Q, Y> YieldWrapper<Q, Y> {
    pub(crate) fn new() -> (y: Self) {
        YieldWrapper { _query: PhantomData, _yielded: PhantomData }
    }

    /// Emit `yielded` and suspend, to be re-entered later as `continue_as`
    /// with the query the driver sends back.
    pub fn ield<B, R>(&self, yielded: Y, continue_as: B) -> (step: BodyStep<B, Y, R>)
        ensures
            step == BodyStep::<B, Y, R>::Suspended(yielded, continue_as),
    {
        BodyStep::Suspended(yielded, continue_as)
    }
}

/// A started generator: it owns the computation and the handshake slot, and
/// it is driven one suspension point at a time through [`Self::query`].
pub struct StartedGenerator<B: Computation> {
    gen_func: crate::futuring::GenFunc<B>,
    swap_slot: SwapSpaceSlot<B::Query, B::Yielded>,
}

impl<B: Computation> StartedGenerator<B> {
    /// Whether the computation has returned its final result.
    pub closed spec fn is_finished(self) -> bool {
        self.gen_func is Consumed
    }

    /// The view of the body suspended at its current suspension point
    /// (meaningful only while the generator is not finished).
    pub closed spec fn suspended(self) -> B::V {
        self.gen_func->Suspended_0.cont().deep_view()
    }

    /// Between calls, the generator is in exactly one of two legal states:
    /// suspended at a yield point with the slot awaiting a query, or finished
    /// with the slot closed to further queries.
    pub closed spec fn wf(self) -> bool {
        match self.gen_func {
            crate::futuring::GenFunc::Unlaunched(_, _) => false,
            crate::futuring::GenFunc::Suspended(_) => self.swap_slot.phase() is WaitingForQuery,
            crate::futuring::GenFunc::Consumed => self.swap_slot.phase() is Finished,
        }
    }

    /// Create a generator around `body` and immediately drive it to its first
    /// suspension point (or to completion), starting it with `start`.
    pub fn run_with(start: B::Start, body: B) -> (r: (
        Self,
        GeneratorResponse<B::Yielded, B::Return>,
    ))
        ensures
            r.0.wf(),
            match B::launch_spec(body.deep_view(), start.deep_view()) {
                BodyStep::Suspended(yv, bv) => {
                    &&& !r.0.is_finished()
                    &&& r.0.suspended() == bv
                    &&& r.1 matches GeneratorResponse::Yielding(y) && y.deep_view() == yv
                },
                BodyStep::Finished(rv) => {
                    &&& r.0.is_finished()
                    &&& r.1 matches GeneratorResponse::Done(ret) && ret.deep_view() == rv
                },
            },
    {
        let swap_slot = SwapSpaceSlot::new();
        let mut me = StartedGenerator {
            gen_func: crate::futuring::GenFunc::Unlaunched(body, start),
            swap_slot,
        };
        // The body must be stepped immediately: the driver can only get its
        // first yielded value (or the result) out of this call.
        let out = me.step_generator();
        (me, out)
    }

    /// Deliver `query` to the suspended body and drive it to its next
    /// suspension point or to completion.
    ///
    /// Querying a generator whose body has already returned its final result
    /// is the one recoverable error: it leaves the generator untouched and
    /// returns [`AlreadyFinished`].
    pub fn query(&mut self, query: B::Query) -> (r: Result<
        GeneratorResponse<B::Yielded, B::Return>,
        AlreadyFinished,
    >)
        requires
            old(self).wf(),
        ensures
            final(self).wf(),
            old(self).is_finished() ==> r is Err && *final(self) == *old(self),
            !old(self).is_finished() ==> match B::resume_spec(
                old(self).suspended(),
                query.deep_view(),
            ) {
                BodyStep::Suspended(yv, bv) => {
                    &&& !final(self).is_finished()
                    &&& final(self).suspended() == bv
                    &&& r matches Ok(GeneratorResponse::Yielding(y)) && y.deep_view() == yv
                },
                BodyStep::Finished(rv) => {
                    &&& final(self).is_finished()
                    &&& r matches Ok(GeneratorResponse::Done(ret)) && ret.deep_view() == rv
                },
            },
    {
        match self.swap_slot.replace(SwapSpace::GotQuery(query)) {
            SwapSpace::WaitingForQuery => Ok(self.step_generator()),
            SwapSpace::Finished => {
                // Put the closed phase back: the failed query must leave the
                // generator exactly as it found it.
                let _prev = self.swap_slot.replace(SwapSpace::Finished);
                Err(AlreadyFinished)
            },
            _ => unreached(),
        }
    }

    /// Drive the computation one handshake unit forward and classify the
    /// immediate outcome: suspended again, or finished.
    fn step_generator(&mut self) -> (r: GeneratorResponse<B::Yielded, B::Return>)
        requires
            (old(self).gen_func is Unlaunched && old(self).swap_slot.phase() is JustStarted) || (
            old(self).gen_func is Suspended && old(self).swap_slot.phase() is GotQuery),
        ensures
            final(self).wf(),
            ({
                let step = match old(self).gen_func {
                    crate::futuring::GenFunc::Unlaunched(b, s) => B::launch_spec(
                        b.deep_view(),
                        s.deep_view(),
                    ),
                    crate::futuring::GenFunc::Suspended(fut) => B::resume_spec(
                        fut.cont().deep_view(),
                        old(self).swap_slot.phase()->GotQuery_0.deep_view(),
                    ),
                    crate::futuring::GenFunc::Consumed => arbitrary(),
                };
                match step {
                    BodyStep::Suspended(yv, bv) => {
                        &&& !final(self).is_finished()
                        &&& final(self).suspended() == bv
                        &&& r matches GeneratorResponse::Yielding(y) && y.deep_view() == yv
                    },
                    BodyStep::Finished(rv) => {
                        &&& final(self).is_finished()
                        &&& r matches GeneratorResponse::Done(ret) && ret.deep_view() == rv
                    },
                }
            }),
    {
        let result = crate::futuring::resume(&mut self.gen_func, &mut self.swap_slot);
        match result {
            Some(finished) => {
                match self.swap_slot.replace(SwapSpace::Finished) {
                    SwapSpace::ProcessingQuery => GeneratorResponse::Done(finished),
                    _ => unreached(),
                }
            },
            None => {
                match self.swap_slot.replace(SwapSpace::WaitingForQuery) {
                    SwapSpace::Yielding(yielded) => GeneratorResponse::Yielding(yielded),
                    _ => unreached(),
                }
            },
        }
    }
}

impl<B: Computation> StartedGenerator<B> {
    /// Turn this (already started, not yet finished) generator into an
    /// iterator that feeds it queries from `source`.
    pub fn iter_over<I: QuerySource<B::Query>>(self, source: I) -> (it: GeneratorIterator<B, I>)
        requires
            self.wf(),
            !self.is_finished(),
        ensures
            it.wf(),
            it.inner_spec() == GeneratorIteratorState::<B, I>::Running(self, source),
    {
        GeneratorIterator::new(GeneratorIteratorState::Running(self, source))
    }
}

impl<B: Computation<Start = ()>> StartedGenerator<B> {
    /// An iterator over a body that has not been started yet: the first step
    /// starts it, later steps feed it queries from `source`.
    pub fn jumpstart_iter_over<I: QuerySource<B::Query>>(source: I, body: B) -> (it:
        GeneratorIterator<B, I>)
        ensures
            it.wf(),
            it.inner_spec() == GeneratorIteratorState::<B, I>::NoInitStart(body, (), source),
    {
        GeneratorIterator::new(GeneratorIteratorState::self_start(body, (), source))
    }
}

impl<B: Computation<Query = ()>> StartedGenerator<B> {
    /// An iterator that drives this generator with unit queries until it
    /// finishes.
    pub fn iter(self) -> (it: GeneratorIterator<B, RepeatUnit>)
        requires
            self.wf(),
            !self.is_finished(),
        ensures
            it.wf(),
            it.inner_spec() == GeneratorIteratorState::<B, RepeatUnit>::Running(self, RepeatUnit),
    {
        self.iter_over(RepeatUnit)
    }
}

impl<B: Computation<Start = (), Query = ()>> StartedGenerator<B> {
    /// An iterator that starts the body on its first step and then drives it
    /// with unit queries until it finishes.
    pub fn jumpstart_iter(body: B) -> (it: GeneratorIterator<B, RepeatUnit>)
        ensures
            it.wf(),
            it.inner_spec() == GeneratorIteratorState::<B, RepeatUnit>::NoInitStart(
                body,
                (),
                RepeatUnit,
            ),
    {
        Self::jumpstart_iter_over(RepeatUnit, body)
    }
}

impl<B: Computation<Start = ()>> StartedGenerator<B> {
    /// [`Self::run_with`] for a body that takes a unit start value.
    pub fn run(body: B) -> (r: (Self, GeneratorResponse<B::Yielded, B::Return>))
        ensures
            r.0.wf(),
            match B::launch_spec(body.deep_view(), ().deep_view()) {
                BodyStep::Suspended(yv, bv) => {
                    &&& !r.0.is_finished()
                    &&& r.0.suspended() == bv
                    &&& r.1 matches GeneratorResponse::Yielding(y) && y.deep_view() == yv
                },
                BodyStep::Finished(rv) => {
                    &&& r.0.is_finished()
                    &&& r.1 matches GeneratorResponse::Done(ret) && ret.deep_view() == rv
                },
            },
    {
        Self::run_with((), body)
    }
}

impl<B: Computation<Query = ()>> StartedGenerator<B> {
    /// [`Self::query`] with a unit query.
    pub fn resume(&mut self) -> (r: Result<
        GeneratorResponse<B::Yielded, B::Return>,
        AlreadyFinished,
    >)
        requires
            old(self).wf(),
        ensures
            final(self).wf(),
            old(self).is_finished() ==> r is Err && *final(self) == *old(self),
            !old(self).is_finished() ==> match B::resume_spec(
                old(self).suspended(),
                ().deep_view(),
            ) {
                BodyStep::Suspended(yv, bv) => {
                    &&& !final(self).is_finished()
                    &&& final(self).suspended() == bv
                    &&& r matches Ok(GeneratorResponse::Yielding(y)) && y.deep_view() == yv
                },
                BodyStep::Finished(rv) => {
                    &&& final(self).is_finished()
                    &&& r matches Ok(GeneratorResponse::Done(ret)) && ret.deep_view() == rv
                },
            },
    {
        self.query(())
    }
}

/// The result of driving a generator one step: either it yielded a value, or
/// it finished with its final result.
#[derive(Debug, Clone, PartialEq, Eq)]
pub enum GeneratorResponse<Y, R> {
    Yielding(Y),
    Done(R),
}

/// The one recoverable error: querying a generator whose computation has
/// already returned its final result.
#[derive(Debug, Clone, Copy, PartialEq, Eq)]
pub struct AlreadyFinished;

} // verus!
