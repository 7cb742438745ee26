//! The suspension primitive: the piece that turns "emit a value and pause
//! here" into a transfer of control back to the driver, through the shared
//! handshake slot.

use vstd::prelude::*;

verus! {

use vstd::pervasive::unreached;

use crate::BodyStep;
use crate::Computation;
use crate::SwapSpace;
use crate::SwapSpaceSlot;
use crate::YieldWrapper;

/// A suspension point in flight: the body has emitted a value (now deposited
/// in the slot) and paused; `cont` is the body as it stands at that point,
/// waiting to be re-entered with the driver's next query.
pub struct YieldedFuture<B: Computation> {
    cont: B,
}

/// What polling a [`YieldedFuture`] produced.
pub enum FuturePoll<B: Computation> {
    /// The yielded value is still in the slot: the driver has not collected
    /// it, so the suspension point stays pending.
    Pending(YieldedFuture<B>),
    /// A query had been delivered; it was consumed from the slot, and the
    /// suspended body is handed back to be resumed with it.
    Ready(B::Query, B),
}

impl<B: Computation> YieldedFuture<B> {
    /// The suspended body held at this suspension point.
    pub closed spec fn cont(self) -> B {
        self.cont
    }

    /// Begin a suspension: deposit the yielded value in the slot.
    ///
    /// The old phase must show the body running (or just started, for a body
    /// that suspends before its first query is consumed); anything else is a
    /// protocol violation.
    pub fn new(
        swap_slot: &mut SwapSpaceSlot<B::Query, B::Yielded>,
        yielded: B::Yielded,
        cont: B,
    ) -> (fut: Self)
        requires
            old(swap_slot).phase() is ProcessingQuery || old(swap_slot).phase() is JustStarted,
        ensures
            final(swap_slot).phase() == SwapSpace::<B::Query, B::Yielded>::Yielding(yielded),
            fut.cont() == cont,
    {
        match swap_slot.replace(SwapSpace::Yielding(yielded)) {
            SwapSpace::ProcessingQuery | SwapSpace::JustStarted => {},
            _ => {
                return unreached();
            },
        }
        YieldedFuture { cont }
    }

    /// Advance the suspension point one check.
    ///
    /// If the slot still holds the yielded value, the driver has not acted
    /// yet: the point stays pending. If the slot holds a delivered query,
    /// consume it (marking the body as running again) and hand the suspended
    /// body back together with the query.
    pub fn poll(self, swap_slot: &mut SwapSpaceSlot<B::Query, B::Yielded>) -> (r: FuturePoll<B>)
        requires
            old(swap_slot).phase() is Yielding || old(swap_slot).phase() is GotQuery,
        ensures
            match old(swap_slot).phase() {
                SwapSpace::Yielding(_) => {
                    &&& r == FuturePoll::Pending(self)
                    &&& final(swap_slot).phase() == old(swap_slot).phase()
                },
                SwapSpace::GotQuery(q) => {
                    &&& r == FuturePoll::Ready(q, self.cont())
                    &&& final(swap_slot).phase() is ProcessingQuery
                },
                _ => false,
            },
    {
        let pending = match swap_slot.borrow() {
            SwapSpace::Yielding(_) => true,
            SwapSpace::GotQuery(_) => false,
            _ => unreached(),
        };
        if pending {
            return FuturePoll::Pending(self);
        }
        match swap_slot.replace(SwapSpace::ProcessingQuery) {
            SwapSpace::GotQuery(query) => FuturePoll::Ready(query, self.cont),
            _ => unreached(),
        }
    }
}

/// The engine's handle on the computation itself: not yet launched, suspended
/// at a yield point, or consumed because it returned its final result.
pub(crate) enum GenFunc<B: Computation> {
    Unlaunched(B, B::Start),
    Suspended(YieldedFuture<B>),
    Consumed,
}

/// One driving tick: run the computation until it either suspends through a
/// yield point or completes.
///
/// Returns `Some` with the final result if the body completed (the slot is
/// left showing the body ran), `None` if it suspended (the slot holds the
/// yielded value).
pub(crate) fn resume<B: Computation>(
    gen_func: &mut GenFunc<B>,
    swap_slot: &mut SwapSpaceSlot<B::Query, B::Yielded>,
) -> (r: Option<B::Return>)
    requires
        (*old(gen_func) is Unlaunched && old(swap_slot).phase() is JustStarted) || (*old(gen_func)
            is Suspended && old(swap_slot).phase() is GotQuery),
    ensures
        ({
            let step = match *old(gen_func) {
                GenFunc::Unlaunched(b, s) => B::launch_spec(b.deep_view(), s.deep_view()),
                GenFunc::Suspended(fut) => B::resume_spec(
                    fut.cont().deep_view(),
                    old(swap_slot).phase()->GotQuery_0.deep_view(),
                ),
                GenFunc::Consumed => arbitrary(),
            };
            match step {
                BodyStep::Suspended(yv, bv) => {
                    &&& r is None
                    &&& *final(gen_func) is Suspended
                    &&& (*final(gen_func))->Suspended_0.cont().deep_view() == bv
                    &&& final(swap_slot).phase() is Yielding
                    &&& final(swap_slot).phase()->Yielding_0.deep_view() == yv
                },
                BodyStep::Finished(rv) => {
                    &&& r is Some
                    &&& r->Some_0.deep_view() == rv
                    &&& *final(gen_func) is Consumed
                    &&& final(swap_slot).phase() is ProcessingQuery
                },
            }
        }),
{
    let mut taken = GenFunc::Consumed;
    core::mem::swap(gen_func, &mut taken);
    match taken {
        GenFunc::Unlaunched(body, start) => {
            // The step function marks the body as running before entering it,
            // so that a body which completes without ever suspending leaves
            // the slot in the phase completion is consumed from.
            let _prev = swap_slot.replace(SwapSpace::ProcessingQuery);
            let y = YieldWrapper::new();
            match body.launch(y, start) {
                BodyStep::Suspended(yielded, cont) => {
                    let fut = YieldedFuture::new(swap_slot, yielded, cont);
                    *gen_func = GenFunc::Suspended(fut);
                    None
                },
                BodyStep::Finished(result) => Some(result),
            }
        },
        GenFunc::Suspended(fut) => {
            match fut.poll(swap_slot) {
                FuturePoll::Pending(_) => unreached(),
                FuturePoll::Ready(query, cont) => {
                    let y = YieldWrapper::new();
                    match cont.resume(y, query) {
                        BodyStep::Suspended(yielded, cont2) => {
                            let fut2 = YieldedFuture::new(swap_slot, yielded, cont2);
                            *gen_func = GenFunc::Suspended(fut2);
                            None
                        },
                        BodyStep::Finished(result) => Some(result),
                    }
                },
            }
        },
        GenFunc::Consumed => unreached(),
    }
}

} // verus!
