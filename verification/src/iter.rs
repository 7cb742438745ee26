//! Driving a generator against an external supply of query values, exposing
//! the yielded values one at a time.
//!
//! A [`GeneratorIterator`] repeatedly takes a query from a [`QuerySource`] and
//! feeds it to the generator, until either the source runs out of queries or
//! the generator returns its final result. For a generator with unit queries
//! the endless [`RepeatUnit`] source drives it to completion.

use vstd::prelude::*;

verus! {

use vstd::pervasive::unreached;

use crate::BodyStep;
use crate::Computation;
use crate::GeneratorResponse;
use crate::StartedGenerator;

/// A supply of query values for a generator to consume, one at a time.
pub trait QuerySource<Q>: Sized {
    /// The query the next call to `next_q` will produce, if any.
    spec fn peek(self) -> Option<Q>;

    /// How a source that has just produced a query relates to what it was
    /// before it produced it.
    spec fn stepped(pre: Self, post: Self) -> bool;

    /// Take the next query out of the source.
    fn next_q(&mut self) -> (r: Option<Q>)
        ensures
            r == old(self).peek(),
            r is Some ==> Self::stepped(*old(self), *final(self)),
            r is None ==> *final(self) == *old(self),
    ;
}

/// A finite supply of queries, handed out in order.
pub struct VecSource<Q> {
    queries: Vec<Q>,
}

impl<Q> VecSource<Q> {
    /// The queries still to be handed out, first one first.
    pub closed spec fn queries(self) -> Seq<Q> {
        self.queries@
    }

    pub fn new(queries: Vec<Q>) -> (s: Self)
        ensures
            s.queries() == queries@,
    {
        VecSource { queries }
    }

    /// How many queries are still to be handed out.
    pub fn remaining(&self) -> (n: usize)
        ensures
            n == self.queries().len(),
    {
        self.queries.len()
    }
}

impl<Q> QuerySource<Q> for VecSource<Q> {
    open spec fn peek(self) -> Option<Q> {
        if self.queries().len() == 0 {
            None
        } else {
            Some(self.queries()[0])
        }
    }

    open spec fn stepped(pre: Self, post: Self) -> bool {
        &&& pre.queries().len() > 0
        &&& post.queries() == pre.queries().subrange(1, pre.queries().len() as int)
    }

    fn next_q(&mut self) -> (r: Option<Q>)
        ensures
            r == old(self).peek(),
            r is Some ==> Self::stepped(*old(self), *final(self)),
            r is None ==> *final(self) == *old(self),
    {
        if self.queries.len() == 0 {
            None
        } else {
            let q = self.queries.remove(0);
            proof {
                assert(final(self).queries() =~= old(self).queries().subrange(
                    1,
                    old(self).queries().len() as int,
                ));
            }
            Some(q)
        }
    }
}

/// The endless supply of unit queries, for generators that need no input to
/// be driven forward.
pub struct RepeatUnit;

impl QuerySource<()> for RepeatUnit {
    open spec fn peek(self) -> Option<()> {
        Some(())
    }

    open spec fn stepped(pre: Self, post: Self) -> bool {
        post == pre
    }

    fn next_q(&mut self) -> (r: Option<()>)
        ensures
            r == old(self).peek(),
            r is Some ==> Self::stepped(*old(self), *final(self)),
            r is None ==> *final(self) == *old(self),
    {
        Some(())
    }
}

/// Tracks the state of the [`GeneratorIterator`].
pub enum GeneratorIteratorState<B: Computation, I> {
    /// The body has not been started yet; it will be on the first step.
    NoInitStart(B, B::Start, I),
    /// Normal operation: the generator is suspended and the source may still
    /// hold queries.
    Running(StartedGenerator<B>, I),
    /// The source ran out of queries while the generator was still suspended.
    ExhaustedIterator(StartedGenerator<B>),
    /// The generator returned its final result.
    GeneratorDone(B::Return, I),
    /// Transient placeholder while a step moves the state out; never
    /// observable between calls.
    TmpDodgeBorrowck,
}

/// Whether an iterator state is one of the legal between-calls states.
pub open spec fn state_wf<B: Computation, I>(state: GeneratorIteratorState<B, I>) -> bool {
    match state {
        GeneratorIteratorState::NoInitStart(_, _, _) => true,
        GeneratorIteratorState::Running(g, _) => g.wf() && !g.is_finished(),
        GeneratorIteratorState::ExhaustedIterator(g) => g.wf() && !g.is_finished(),
        GeneratorIteratorState::GeneratorDone(_, _) => true,
        GeneratorIteratorState::TmpDodgeBorrowck => false,
    }
}

/// Iterates over a generator, feeding it queries from a [`QuerySource`].
///
/// Each step hands the next query to the generator and produces the value the
/// generator yields for it, until the source is exhausted or the generator
/// finishes; [`GeneratorIterator::consume_response`] then recovers the final
/// result, if the generator produced one.
pub struct GeneratorIterator<B: Computation, I> {
    inner: GeneratorIteratorState<B, I>,
}

impl<B: Computation, I> GeneratorIterator<B, I> {
    /// The iterator's current state.
    pub closed spec fn inner_spec(self) -> GeneratorIteratorState<B, I> {
        self.inner
    }

    /// Legal between calls: the state is legal.
    pub open spec fn wf(self) -> bool {
        state_wf(self.inner_spec())
    }

    pub(crate) fn new(inner: GeneratorIteratorState<B, I>) -> (it: Self)
        requires
            state_wf(inner),
        ensures
            it.inner_spec() == inner,
    {
        GeneratorIterator { inner }
    }

    /// Read the iterator's current state.
    pub fn inner(&self) -> (state: &GeneratorIteratorState<B, I>)
        ensures
            *state == self.inner_spec(),
    {
        &self.inner
    }

    /// If the inner generator ever returned its final result, hand the result
    /// out; otherwise `None`.
    pub fn consume_response(self) -> (r: Option<B::Return>)
        ensures
            match self.inner_spec() {
                GeneratorIteratorState::GeneratorDone(result, _) => r == Some(result),
                _ => r is None,
            },
    {
        match self.inner {
            GeneratorIteratorState::GeneratorDone(result, _) => Some(result),
            _ => None,
        }
    }
}

impl<B: Computation, I: QuerySource<B::Query>> GeneratorIterator<B, I> {
    /// One step: start the body if it has not started; otherwise feed the
    /// next query to the suspended generator. Produces the value the
    /// generator yields, or `None` once the source is exhausted or the
    /// generator has finished.
    pub fn next(&mut self) -> (r: Option<B::Yielded>)
        requires
            old(self).wf(),
        ensures
            final(self).wf(),
            match old(self).inner_spec() {
                GeneratorIteratorState::NoInitStart(b, s, it) => match B::launch_spec(
                    b.deep_view(),
                    s.deep_view(),
                ) {
                    BodyStep::Suspended(yv, bv) => {
                        &&& r matches Some(y) && y.deep_view() == yv
                        &&& final(self).inner_spec() matches GeneratorIteratorState::Running(
                            g2,
                            it2,
                        ) && g2.suspended() == bv && it2 == it
                    },
                    BodyStep::Finished(rv) => {
                        &&& r is None
                        &&& final(self).inner_spec() matches GeneratorIteratorState::GeneratorDone(
                            ret,
                            it2,
                        ) && ret.deep_view() == rv && it2 == it
                    },
                },
                GeneratorIteratorState::Running(g, it) => match it.peek() {
                    None => {
                        &&& r is None
                        &&& final(self).inner_spec()
                            matches GeneratorIteratorState::ExhaustedIterator(g2) && g2 == g
                    },
                    Some(q) => match B::resume_spec(g.suspended(), q.deep_view()) {
                        BodyStep::Suspended(yv, bv) => {
                            &&& r matches Some(y) && y.deep_view() == yv
                            &&& final(self).inner_spec() matches GeneratorIteratorState::Running(
                                g2,
                                it2,
                            ) && g2.suspended() == bv && I::stepped(it, it2)
                        },
                        BodyStep::Finished(rv) => {
                            &&& r is None
                            &&& final(self).inner_spec()
                                matches GeneratorIteratorState::GeneratorDone(ret, it2)
                                && ret.deep_view() == rv && I::stepped(it, it2)
                        },
                    },
                },
                _ => r is None && *final(self) == *old(self),
            },
    {
        let mut taken = GeneratorIteratorState::TmpDodgeBorrowck;
        core::mem::swap(&mut self.inner, &mut taken);
        match taken {
            GeneratorIteratorState::NoInitStart(body, start, source) => {
                let (started, resp) = StartedGenerator::run_with(start, body);
                match resp {
                    GeneratorResponse::Yielding(yielded) => {
                        self.inner = GeneratorIteratorState::Running(started, source);
                        Some(yielded)
                    },
                    GeneratorResponse::Done(result) => {
                        self.inner = GeneratorIteratorState::GeneratorDone(result, source);
                        None
                    },
                }
            },
            GeneratorIteratorState::Running(mut generator, mut source) => {
                match source.next_q() {
                    None => {
                        self.inner = GeneratorIteratorState::ExhaustedIterator(generator);
                        None
                    },
                    Some(next) => {
                        match generator.query(next) {
                            Ok(GeneratorResponse::Yielding(yielded)) => {
                                self.inner = GeneratorIteratorState::Running(generator, source);
                                Some(yielded)
                            },
                            Ok(GeneratorResponse::Done(result)) => {
                                self.inner = GeneratorIteratorState::GeneratorDone(result, source);
                                None
                            },
                            Err(_) => unreached(),
                        }
                    },
                }
            },
            GeneratorIteratorState::ExhaustedIterator(generator) => {
                self.inner = GeneratorIteratorState::ExhaustedIterator(generator);
                None
            },
            GeneratorIteratorState::GeneratorDone(result, source) => {
                self.inner = GeneratorIteratorState::GeneratorDone(result, source);
                None
            },
            GeneratorIteratorState::TmpDodgeBorrowck => None,
        }
    }
}

impl<B: Computation, I> GeneratorIteratorState<B, I> {
    /// The state for an iterator whose body starts itself on the first step.
    pub(crate) fn self_start(body: B, start: B::Start, source: I) -> (s: Self)
        ensures
            s == GeneratorIteratorState::NoInitStart(body, start, source),
    {
        GeneratorIteratorState::NoInitStart(body, start, source)
    }
}

} // verus!
