//! The resumable computation abstraction: a user-supplied state machine that
//! the generator engine drives one suspension point at a time.

use vstd::prelude::*;

verus! {

use crate::YieldWrapper;

/// What a computation body did when it was driven: it either suspended,
/// emitting a value and a continuation to be resumed later, or it finished
/// with its final result.
pub enum BodyStep<B, Y, R> {
    /// The body emitted `Y` and paused; `B` is the body as it stands at the
    /// suspension point, ready to be resumed with the next query.
    Suspended(Y, B),
    /// The body ran to completion and returned `R`.
    Finished(R),
}

impl<B: DeepView, Y: DeepView, R: DeepView> DeepView for BodyStep<B, Y, R> {
    type V = BodyStep<B::V, Y::V, R::V>;

    open spec fn deep_view(&self) -> Self::V {
        match self {
            BodyStep::Suspended(y, b) => BodyStep::Suspended(y.deep_view(), b.deep_view()),
            BodyStep::Finished(r) => BodyStep::Finished(r.deep_view()),
        }
    }
}

/// A computation body: ordinary sequential logic cut at its suspension points
/// into an explicit state machine.
///
/// `launch` runs the body from its beginning; `resume` re-enters it at the
/// suspension point it last paused at, delivering the driver's query. Both are
/// pinned, at the level of views, to the spec-mode unfolding given by
/// `launch_spec` and `resume_spec`, so a body's whole trace is a mathematical
/// function of the body and the values the driver feeds it.
pub trait Computation: Sized + DeepView {
    /// What the driver passes to start the computation.
    type Start: DeepView;

    /// What the driver passes to resume the computation at a suspension point.
    type Query: DeepView;

    /// What the computation emits each time it suspends.
    type Yielded: DeepView;

    /// What the computation returns when it completes.
    type Return: DeepView;

    /// The body's first step, as a function of its view and the start value.
    spec fn launch_spec(body: Self::V, start: <Self::Start as DeepView>::V) -> BodyStep<
        Self::V,
        <Self::Yielded as DeepView>::V,
        <Self::Return as DeepView>::V,
    >;

    /// The body's step out of a suspension point, as a function of its view
    /// and the delivered query.
    spec fn resume_spec(body: Self::V, query: <Self::Query as DeepView>::V) -> BodyStep<
        Self::V,
        <Self::Yielded as DeepView>::V,
        <Self::Return as DeepView>::V,
    >;

    /// Run the body from its beginning until it first suspends or completes.
    fn launch(self, y: YieldWrapper<Self::Query, Self::Yielded>, start: Self::Start) -> (step:
        BodyStep<Self, Self::Yielded, Self::Return>)
        ensures
            step.deep_view() == Self::launch_spec(self.deep_view(), start.deep_view()),
    ;

    /// Re-enter the body at its current suspension point with `query`, and run
    /// it until it suspends again or completes.
    fn resume(self, y: YieldWrapper<Self::Query, Self::Yielded>, query: Self::Query) -> (step:
        BodyStep<Self, Self::Yielded, Self::Return>)
        ensures
            step.deep_view() == Self::resume_spec(self.deep_view(), query.deep_view()),
    ;
}

} // verus!
