//! The convenience `GeneratorWrapper`: one value that owns a generator
//! through its whole lifecycle, from unstarted body to finished computation,
//! and enforces the legal call sequence on it.

use vstd::prelude::*;

verus! {

use vstd::pervasive::unreached;

use crate::AlreadyFinished;
use crate::BodyStep;
use crate::Computation;
use crate::GeneratorResponse;
use crate::StartedGenerator;

/// A started or unstarted generator, behind one stable handle.
pub struct GeneratorWrapper<B: Computation> {
    inner: GeneratorWrapperInner<B>,
}

/// The wrapper's own lifecycle state.
pub enum GeneratorWrapperInner<B: Computation> {
    /// Created; the body has not been started.
    Unstarted { body: B },
    /// Transient placeholder while `start` moves the body out; never
    /// observable between calls.
    Starting,
    /// The body has been started and is owned by the generator.
    Started(StartedGenerator<B>),
}

impl<B: Computation> GeneratorWrapper<B> {
    /// Whether `start` has been called on this handle.
    pub closed spec fn is_started(self) -> bool {
        self.inner is Started
    }

    /// Whether the started computation has returned its final result.
    pub closed spec fn is_finished(self) -> bool {
        self.inner is Started && self.inner->Started_0.is_finished()
    }

    /// The view of the body as handed in, before `start` (meaningful only
    /// while unstarted).
    pub closed spec fn unstarted_body(self) -> B::V {
        self.inner->Unstarted_body.deep_view()
    }

    /// The view of the body at its current suspension point (meaningful only
    /// while started and not finished).
    pub closed spec fn suspended(self) -> B::V {
        self.inner->Started_0.suspended()
    }

    /// Between calls the wrapper is never mid-`start`, and a started
    /// generator is itself well-formed.
    pub closed spec fn wf(self) -> bool {
        match self.inner {
            GeneratorWrapperInner::Unstarted { body: _ } => true,
            GeneratorWrapperInner::Starting => false,
            GeneratorWrapperInner::Started(g) => g.wf(),
        }
    }

    /// Wrap `body` without starting anything yet.
    pub fn new(body: B) -> (w: Self)
        ensures
            w.wf(),
            !w.is_started(),
            w.unstarted_body() == body.deep_view(),
    {
        GeneratorWrapper { inner: GeneratorWrapperInner::Unstarted { body } }
    }

    /// Start the wrapped body with `init` and drive it to its first
    /// suspension point or to completion.
    ///
    /// Starting an already-started generator is a misuse the caller must rule
    /// out; it is excluded here rather than tolerated at run time.
    pub fn start(&mut self, init: B::Start) -> (r: GeneratorResponse<B::Yielded, B::Return>)
        requires
            old(self).wf(),
            !old(self).is_started(),
        ensures
            final(self).wf(),
            final(self).is_started(),
            match B::launch_spec(old(self).unstarted_body(), init.deep_view()) {
                BodyStep::Suspended(yv, bv) => {
                    &&& !final(self).is_finished()
                    &&& final(self).suspended() == bv
                    &&& r matches GeneratorResponse::Yielding(y) && y.deep_view() == yv
                },
                BodyStep::Finished(rv) => {
                    &&& final(self).is_finished()
                    &&& r matches GeneratorResponse::Done(ret) && ret.deep_view() == rv
                },
            },
    {
        let mut taken = GeneratorWrapperInner::Starting;
        core::mem::swap(&mut self.inner, &mut taken);
        match taken {
            GeneratorWrapperInner::Unstarted { body } => {
                let (started, out) = StartedGenerator::run_with(init, body);
                self.inner = GeneratorWrapperInner::Started(started);
                out
            },
            _ => unreached(),
        }
    }

    /// Deliver `query` to the started generator and drive it one step.
    ///
    /// Querying before `start` is a misuse the caller must rule out; querying
    /// after the final result is the one recoverable error.
    pub fn query(&mut self, query: B::Query) -> (r: Result<
        GeneratorResponse<B::Yielded, B::Return>,
        AlreadyFinished,
    >)
        requires
            old(self).wf(),
            old(self).is_started(),
        ensures
            final(self).wf(),
            final(self).is_started(),
            old(self).is_finished() ==> r is Err && *final(self) == *old(self),
            !old(self).is_finished() ==> match B::resume_spec(
                old(self).suspended(),
                query.deep_view(),
            ) {
                BodyStep::Suspended(yv, bv) => {
                    &&& !final(self).is_finished()
                    &&& final(self).suspended() == bv
                    &&& r matches Ok(GeneratorResponse::Yielding(y)) && y.deep_view() == yv
                },
                BodyStep::Finished(rv) => {
                    &&& final(self).is_finished()
                    &&& r matches Ok(GeneratorResponse::Done(ret)) && ret.deep_view() == rv
                },
            },
    {
        match &mut self.inner {
            GeneratorWrapperInner::Started(started) => started.query(query),
            _ => unreached(),
        }
    }

    /// Whether this handle has been started.
    pub fn has_started(&self) -> (r: bool)
        requires
            self.wf(),
        ensures
            r == self.is_started(),
    {
        match &self.inner {
            GeneratorWrapperInner::Unstarted { body: _ } => false,
            GeneratorWrapperInner::Starting => false,
            GeneratorWrapperInner::Started(_) => true,
        }
    }
}

impl<B: Computation<Query = ()>> GeneratorWrapper<B> {
    /// [`Self::query`] with a unit query.
    pub fn resume(&mut self) -> (r: Result<
        GeneratorResponse<B::Yielded, B::Return>,
        AlreadyFinished,
    >)
        requires
            old(self).wf(),
            old(self).is_started(),
        ensures
            final(self).wf(),
            final(self).is_started(),
            old(self).is_finished() ==> r is Err && *final(self) == *old(self),
            !old(self).is_finished() ==> match B::resume_spec(
                old(self).suspended(),
                ().deep_view(),
            ) {
                BodyStep::Suspended(yv, bv) => {
                    &&& !final(self).is_finished()
                    &&& final(self).suspended() == bv
                    &&& r matches Ok(GeneratorResponse::Yielding(y)) && y.deep_view() == yv
                },
                BodyStep::Finished(rv) => {
                    &&& final(self).is_finished()
                    &&& r matches Ok(GeneratorResponse::Done(ret)) && ret.deep_view() == rv
                },
            },
    {
        self.query(())
    }
}

} // verus!
