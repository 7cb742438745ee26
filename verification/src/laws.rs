//! Whole-trace statements about driving a computation: what a body emits over
//! a full run, that the run ends exactly when the body finishes, and that the
//! engine adds no nondeterminism of its own.

use vstd::prelude::*;

verus! {

use vstd::pervasive::unreached;

use crate::BodyStep;
use crate::Computation;
use crate::GeneratorResponse;
use crate::StartedGenerator;

/// The views of the values a body will emit when driven from `step` with the
/// queries `qs` delivered in order: one value per suspension point reached,
/// stopping when the body finishes or the queries run out.
pub open spec fn emitted_views<B: Computation>(
    step: BodyStep<B::V, <B::Yielded as DeepView>::V, <B::Return as DeepView>::V>,
    qs: Seq<<B::Query as DeepView>::V>,
) -> Seq<<B::Yielded as DeepView>::V>
    decreases qs.len(),
{
    match step {
        BodyStep::Finished(_) => Seq::empty(),
        BodyStep::Suspended(yv, bv) => {
            if qs.len() == 0 {
                seq![yv]
            } else {
                seq![yv] + emitted_views::<B>(B::resume_spec(bv, qs[0]), qs.skip(1))
            }
        },
    }
}

/// The view of the final result a body will reach when driven from `step`
/// with the queries `qs`, or `None` if the queries run out while the body is
/// still suspended.
pub open spec fn outcome_view<B: Computation>(
    step: BodyStep<B::V, <B::Yielded as DeepView>::V, <B::Return as DeepView>::V>,
    qs: Seq<<B::Query as DeepView>::V>,
) -> Option<<B::Return as DeepView>::V>
    decreases qs.len(),
{
    match step {
        BodyStep::Finished(rv) => Some(rv),
        BodyStep::Suspended(_, bv) => {
            if qs.len() == 0 {
                None
            } else {
                outcome_view::<B>(B::resume_spec(bv, qs[0]), qs.skip(1))
            }
        },
    }
}

/// What a generator suspended at body view `bv` will still emit when fed the
/// queries `qs`: the yield at `bv` itself has already been collected.
pub open spec fn rest_emitted<B: Computation>(
    bv: B::V,
    qs: Seq<<B::Query as DeepView>::V>,
) -> Seq<<B::Yielded as DeepView>::V> {
    if qs.len() == 0 {
        Seq::empty()
    } else {
        emitted_views::<B>(B::resume_spec(bv, qs[0]), qs.skip(1))
    }
}

/// The final result a generator suspended at body view `bv` will still reach
/// when fed the queries `qs`, if any.
pub open spec fn rest_outcome<B: Computation>(
    bv: B::V,
    qs: Seq<<B::Query as DeepView>::V>,
) -> Option<<B::Return as DeepView>::V> {
    if qs.len() == 0 {
        None
    } else {
        outcome_view::<B>(B::resume_spec(bv, qs[0]), qs.skip(1))
    }
}

/// Drive a body through a whole session: start it with `start`, then feed it
/// the queries in order until it finishes or the queries run out.
///
/// The values it yielded, in order, and the final result (if one was reached)
/// are exactly the unfolding of the body's own step functions: the engine
/// neither drops, reorders, nor invents a value.
pub fn run_session<B: Computation>(body: B, start: B::Start, queries: Vec<B::Query>) -> (out: (
    Vec<B::Yielded>,
    Option<B::Return>,
))
    ensures
        out.0.deep_view() == emitted_views::<B>(
            B::launch_spec(body.deep_view(), start.deep_view()),
            queries.deep_view(),
        ),
        out.1.deep_view() == outcome_view::<B>(
            B::launch_spec(body.deep_view(), start.deep_view()),
            queries.deep_view(),
        ),
{
    let ghost step0 = B::launch_spec(body.deep_view(), start.deep_view());
    let ghost qs_all = queries.deep_view();
    let mut rest = queries;
    let mut yields: Vec<B::Yielded> = Vec::new();
    let mut outcome: Option<B::Return> = None;
    let (mut generator, first) = StartedGenerator::run_with(start, body);
    match first {
        GeneratorResponse::Yielding(yielded) => {
            yields.push(yielded);
            proof {
                let yv = yielded.deep_view();
                assert(yields.deep_view() =~= seq![yv]);
                assert(seq![yv] + Seq::<<B::Yielded as DeepView>::V>::empty() =~= seq![yv]);
            }
        },
        GeneratorResponse::Done(result) => {
            outcome = Some(result);
            proof {
                assert(yields.deep_view() =~= Seq::<<B::Yielded as DeepView>::V>::empty());
            }
        },
    }
    while outcome.is_none() && rest.len() > 0
        invariant
            generator.wf(),
            outcome is None ==> {
                &&& !generator.is_finished()
                &&& emitted_views::<B>(step0, qs_all) == yields.deep_view() + rest_emitted::<B>(
                    generator.suspended(),
                    rest.deep_view(),
                )
                &&& outcome_view::<B>(step0, qs_all) == rest_outcome::<B>(
                    generator.suspended(),
                    rest.deep_view(),
                )
            },
            outcome is Some ==> {
                &&& emitted_views::<B>(step0, qs_all) == yields.deep_view()
                &&& outcome_view::<B>(step0, qs_all) == outcome.deep_view()
            },
        decreases rest.len(),
    {
        let ghost bv = generator.suspended();
        let ghost qr = rest.deep_view();
        let q = rest.remove(0);
        proof {
            assert(rest.deep_view() =~= qr.skip(1));
        }
        match generator.query(q) {
            Ok(GeneratorResponse::Yielding(yielded)) => {
                let ghost pre = yields.deep_view();
                yields.push(yielded);
                proof {
                    let yv = yielded.deep_view();
                    let tail = rest_emitted::<B>(generator.suspended(), rest.deep_view());
                    assert(yields.deep_view() =~= pre + seq![yv]);
                    assert(seq![yv] + Seq::<<B::Yielded as DeepView>::V>::empty() =~= seq![yv]);
                    assert(pre + (seq![yv] + tail) =~= (pre + seq![yv]) + tail);
                }
            },
            Ok(GeneratorResponse::Done(result)) => {
                outcome = Some(result);
                proof {
                    assert(yields.deep_view() + Seq::<
                        <B::Yielded as DeepView>::V,
                    >::empty() =~= yields.deep_view());
                }
            },
            Err(_) => {
                return unreached();
            },
        }
    }
    if outcome.is_none() {
        proof {
            assert(yields.deep_view() + rest_emitted::<B>(generator.suspended(), rest.deep_view())
                =~= yields.deep_view());
        }
    }
    (yields, outcome)
}

/// The engine introduces no nondeterminism: the emitted values and the
/// outcome of a run are functions of the body, the start value and the
/// queries alone, so re-running the same body from scratch with the same
/// inputs produces the same trace. Together with the contract of
/// [`run_session`], which pins every actual run to these functions, this says
/// two runs on equal inputs cannot differ.
pub proof fn lemma_trace_deterministic<B: Computation>(
    step1: BodyStep<B::V, <B::Yielded as DeepView>::V, <B::Return as DeepView>::V>,
    step2: BodyStep<B::V, <B::Yielded as DeepView>::V, <B::Return as DeepView>::V>,
    qs1: Seq<<B::Query as DeepView>::V>,
    qs2: Seq<<B::Query as DeepView>::V>,
)
    requires
        step1 == step2,
        qs1 == qs2,
    ensures
        emitted_views::<B>(step1, qs1) == emitted_views::<B>(step2, qs2),
        outcome_view::<B>(step1, qs1) == outcome_view::<B>(step2, qs2),
{
}

/// One emitted value per suspension point, in order: as long as no outcome is
/// reached the body has suspended once for the start and once for every
/// query, so the emitted values number exactly one more than the queries; and
/// an outcome can only be reached with at most one emitted value per query.
/// So a body with `n + 1` suspension points driven with `n` queries yields
/// all of its `n + 1` values and no outcome; the next query reaches the
/// outcome.
pub proof fn lemma_trace_shape<B: Computation>(
    step: BodyStep<B::V, <B::Yielded as DeepView>::V, <B::Return as DeepView>::V>,
    qs: Seq<<B::Query as DeepView>::V>,
)
    requires
        step is Suspended,
    ensures
        outcome_view::<B>(step, qs) is None ==> emitted_views::<B>(step, qs).len() == qs.len()
            + 1,
        outcome_view::<B>(step, qs) is Some ==> emitted_views::<B>(step, qs).len() <= qs.len(),
    decreases qs.len(),
{
    if let BodyStep::Suspended(_, bv) = step {
        if qs.len() > 0 {
            let next = B::resume_spec(bv, qs[0]);
            match next {
                BodyStep::Suspended(_, _) => {
                    lemma_trace_shape::<B>(next, qs.skip(1));
                },
                BodyStep::Finished(_) => {},
            }
        }
    }
}

} // verus!
