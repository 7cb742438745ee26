//! Ready-made computation bodies: small state machines implementing
//! [`Computation`], used to exercise and demonstrate the generator engine.

use vstd::prelude::*;

verus! {

use crate::BodyStep;
use crate::Computation;
use crate::YieldWrapper;

/// A body that yields a fixed script of values, one per suspension point
/// (ignoring the unit queries), and then finishes with a fixed result.
///
/// With an empty script it finishes the moment it is started, without ever
/// suspending.
pub struct ScriptedBody<Y, R> {
    /// The values still to be yielded, in order.
    pub yields: Vec<Y>,
    /// The final result.
    pub result: R,
}

/// The view of a [`ScriptedBody`]: the remaining script and the result.
pub struct ScriptedBodyView<YV, RV> {
    pub yields: Seq<YV>,
    pub result: RV,
}

/// One step of a [`ScriptedBody`]: emit the head of the script, or finish
/// once the script is exhausted.
pub open spec fn scripted_step<YV, RV>(body: ScriptedBodyView<YV, RV>) -> BodyStep<
    ScriptedBodyView<YV, RV>,
    YV,
    RV,
> {
    if body.yields.len() == 0 {
        BodyStep::Finished(body.result)
    } else {
        BodyStep::Suspended(
            body.yields[0],
            ScriptedBodyView {
                yields: body.yields.subrange(1, body.yields.len() as int),
                result: body.result,
            },
        )
    }
}

impl<Y: DeepView, R: DeepView> DeepView for ScriptedBody<Y, R> {
    type V = ScriptedBodyView<Y::V, R::V>;

    open spec fn deep_view(&self) -> Self::V {
        ScriptedBodyView { yields: self.yields.deep_view(), result: self.result.deep_view() }
    }
}

impl<Y: DeepView, R: DeepView> ScriptedBody<Y, R> {
    /// Emit the next scripted value, or finish.
    fn step(self, y: YieldWrapper<(), Y>) -> (step: BodyStep<Self, Y, R>)
        ensures
            step.deep_view() == scripted_step(self.deep_view()),
    {
        let mut me = self;
        if me.yields.len() == 0 {
            BodyStep::Finished(me.result)
        } else {
            let yielded = me.yields.remove(0);
            proof {
                assert(me.yields.deep_view() =~= self.deep_view().yields.subrange(
                    1,
                    self.deep_view().yields.len() as int,
                ));
            }
            y.ield(yielded, me)
        }
    }
}

impl<Y: DeepView, R: DeepView> Computation for ScriptedBody<Y, R> {
    type Start = ();

    type Query = ();

    type Yielded = Y;

    type Return = R;

    open spec fn launch_spec(body: Self::V, start: ()) -> BodyStep<Self::V, Y::V, R::V> {
        scripted_step(body)
    }

    open spec fn resume_spec(body: Self::V, query: ()) -> BodyStep<Self::V, Y::V, R::V> {
        scripted_step(body)
    }

    fn launch(self, y: YieldWrapper<(), Y>, start: ()) -> (step: BodyStep<Self, Y, R>) {
        self.step(y)
    }

    fn resume(self, y: YieldWrapper<(), Y>, query: ()) -> (step: BodyStep<Self, Y, R>) {
        self.step(y)
    }
}

/// `x * 2`, saturating at the largest `u32` value.
pub open spec fn double_sat(x: u32) -> u32 {
    if x <= 0x7fff_ffffu32 {
        (x * 2) as u32
    } else {
        u32::MAX
    }
}

/// A body that keeps doubling an accumulator, yielding each doubled value,
/// until the accumulator reaches `threshold`; then it finishes. It is started
/// with the accumulator's initial value and driven with unit queries.
#[derive(Clone, Copy)]
pub struct DoubleUntil {
    /// The accumulator at the current suspension point.
    pub acc: u32,
    /// The body finishes once the accumulator is at least this.
    pub threshold: u32,
}

impl DeepView for DoubleUntil {
    type V = DoubleUntil;

    open spec fn deep_view(&self) -> DoubleUntil {
        *self
    }
}

/// One loop iteration of [`DoubleUntil`]: finish once the accumulator has
/// reached the threshold, else double it and yield it.
pub open spec fn double_until_step(body: DoubleUntil) -> BodyStep<DoubleUntil, u32, Seq<char>> {
    if body.acc >= body.threshold {
        BodyStep::Finished("All done!"@)
    } else {
        BodyStep::Suspended(
            double_sat(body.acc),
            DoubleUntil { acc: double_sat(body.acc), threshold: body.threshold },
        )
    }
}

impl DoubleUntil {
    fn advance(self, y: YieldWrapper<(), u32>) -> (step: BodyStep<Self, u32, &'static str>)
        ensures
            step.deep_view() == double_until_step(self),
    {
        if self.acc >= self.threshold {
            BodyStep::Finished("All done!")
        } else {
            let doubled: u32 = if self.acc <= 0x7fff_ffff {
                self.acc * 2
            } else {
                u32::MAX
            };
            y.ield(doubled, DoubleUntil { acc: doubled, threshold: self.threshold })
        }
    }
}

impl Computation for DoubleUntil {
    type Start = u32;

    type Query = ();

    type Yielded = u32;

    type Return = &'static str;

    open spec fn launch_spec(body: DoubleUntil, start: u32) -> BodyStep<DoubleUntil, u32, Seq<
        char,
    >> {
        double_until_step(DoubleUntil { acc: start, threshold: body.threshold })
    }

    open spec fn resume_spec(body: DoubleUntil, query: ()) -> BodyStep<DoubleUntil, u32, Seq<
        char,
    >> {
        double_until_step(body)
    }

    fn launch(self, y: YieldWrapper<(), u32>, start: u32) -> (step: BodyStep<Self, u32, &'static str>) {
        let me = DoubleUntil { acc: start, threshold: self.threshold };
        me.advance(y)
    }

    fn resume(self, y: YieldWrapper<(), u32>, query: ()) -> (step: BodyStep<Self, u32, &'static str>) {
        self.advance(y)
    }
}

/// A body that runs a fixed number of rounds. Each round doubles an
/// accumulator and yields it (doubled once more when `amplify` is set); each
/// query it is resumed with must be the index of the round it answers, in
/// order, or the body gives up. After the last round it finishes with
/// `done_msg`.
#[derive(Clone, Copy)]
pub struct DoublingBody {
    /// The accumulator at the current suspension point.
    pub acc: u32,
    /// The current round, and therefore the query the body expects next.
    pub round: u32,
    /// How many rounds to run.
    pub rounds: u32,
    /// Yield the doubled accumulator doubled once more.
    pub amplify: bool,
    /// The final result after the last round.
    pub done_msg: &'static str,
}

impl DeepView for DoublingBody {
    type V = DoublingBody;

    open spec fn deep_view(&self) -> DoublingBody {
        *self
    }
}

/// One loop iteration of [`DoublingBody`] at the current round: finish after
/// the last round, else double and yield.
pub open spec fn doubling_iteration(body: DoublingBody) -> BodyStep<DoublingBody, u32, Seq<
    char,
>> {
    if body.round >= body.rounds {
        BodyStep::Finished(body.done_msg@)
    } else {
        BodyStep::Suspended(
            if body.amplify {
                double_sat(double_sat(body.acc))
            } else {
                double_sat(body.acc)
            },
            DoublingBody {
                acc: double_sat(body.acc),
                round: body.round,
                rounds: body.rounds,
                amplify: body.amplify,
                done_msg: body.done_msg,
            },
        )
    }
}

impl DoublingBody {
    fn iteration(self, y: YieldWrapper<u32, u32>) -> (step: BodyStep<Self, u32, &'static str>)
        ensures
            step.deep_view() == doubling_iteration(self),
    {
        if self.round >= self.rounds {
            BodyStep::Finished(self.done_msg)
        } else {
            let acc2: u32 = if self.acc <= 0x7fff_ffff {
                self.acc * 2
            } else {
                u32::MAX
            };
            let yielded: u32 = if self.amplify {
                if acc2 <= 0x7fff_ffff {
                    acc2 * 2
                } else {
                    u32::MAX
                }
            } else {
                acc2
            };
            y.ield(
                yielded,
                DoublingBody {
                    acc: acc2,
                    round: self.round,
                    rounds: self.rounds,
                    amplify: self.amplify,
                    done_msg: self.done_msg,
                },
            )
        }
    }
}

impl Computation for DoublingBody {
    type Start = ();

    type Query = u32;

    type Yielded = u32;

    type Return = &'static str;

    open spec fn launch_spec(body: DoublingBody, start: ()) -> BodyStep<DoublingBody, u32, Seq<
        char,
    >> {
        doubling_iteration(body)
    }

    open spec fn resume_spec(body: DoublingBody, query: u32) -> BodyStep<DoublingBody, u32, Seq<
        char,
    >> {
        if body.round >= body.rounds {
            BodyStep::Finished(body.done_msg@)
        } else if query != body.round {
            BodyStep::Finished("got a query out of order"@)
        } else {
            doubling_iteration(
                DoublingBody {
                    acc: body.acc,
                    round: (body.round + 1) as u32,
                    rounds: body.rounds,
                    amplify: body.amplify,
                    done_msg: body.done_msg,
                },
            )
        }
    }

    fn launch(self, y: YieldWrapper<u32, u32>, start: ()) -> (step: BodyStep<Self, u32, &'static str>) {
        self.iteration(y)
    }

    fn resume(self, y: YieldWrapper<u32, u32>, query: u32) -> (step: BodyStep<Self, u32, &'static str>) {
        if self.round >= self.rounds {
            BodyStep::Finished(self.done_msg)
        } else if query != self.round {
            BodyStep::Finished("got a query out of order")
        } else {
            DoublingBody {
                acc: self.acc,
                round: self.round + 1,
                rounds: self.rounds,
                amplify: self.amplify,
                done_msg: self.done_msg,
            }.iteration(y)
        }
    }
}

/// `a + b`, clamped into the `i32` range.
pub open spec fn clamp_add(a: i32, b: i32) -> i32 {
    if a + b > i32::MAX {
        i32::MAX
    } else if a + b < i32::MIN {
        i32::MIN
    } else {
        (a + b) as i32
    }
}

/// A body in two phases. It is started with a count: that many times it
/// yields `"One"` and adds the query it gets back to a tally. Then it yields
/// `"Two"` tally many times (ignoring the queries), and finishes.
#[derive(Clone, Copy)]
pub enum TallyBody {
    /// Suspended at a `"One"` yield: `left` more additions to collect,
    /// `count` collected so far.
    CountOnes { left: i32, count: i32 },
    /// Suspended at a `"Two"` yield: `left` more `"Two"`s are owed, this one
    /// included.
    EmitTwos { left: i32 },
}

impl DeepView for TallyBody {
    type V = TallyBody;

    open spec fn deep_view(&self) -> TallyBody {
        *self
    }
}

/// Enter the second phase of [`TallyBody`] owing `left` yields of `"Two"`.
pub open spec fn tally_twos_step(left: i32) -> BodyStep<TallyBody, Seq<char>, Seq<char>> {
    if left <= 0 {
        BodyStep::Finished("All done!"@)
    } else {
        BodyStep::Suspended("Two"@, TallyBody::EmitTwos { left })
    }
}

/// Continue the first phase of [`TallyBody`] with `left` additions still to
/// collect into `count`; once none are left, the second phase owes `count`
/// yields of `"Two"`.
pub open spec fn tally_ones_step(left: i32, count: i32) -> BodyStep<TallyBody, Seq<char>, Seq<
    char,
>> {
    if left <= 0 {
        tally_twos_step(count)
    } else {
        BodyStep::Suspended("One"@, TallyBody::CountOnes { left, count })
    }
}

impl Computation for TallyBody {
    type Start = i32;

    type Query = i32;

    type Yielded = &'static str;

    type Return = &'static str;

    open spec fn launch_spec(body: TallyBody, start: i32) -> BodyStep<TallyBody, Seq<char>, Seq<
        char,
    >> {
        tally_ones_step(start, 0)
    }

    open spec fn resume_spec(body: TallyBody, query: i32) -> BodyStep<TallyBody, Seq<char>, Seq<
        char,
    >> {
        match body {
            TallyBody::CountOnes { left, count } => {
                if left <= 0 {
                    tally_twos_step(count)
                } else {
                    tally_ones_step((left - 1) as i32, clamp_add(count, query))
                }
            },
            TallyBody::EmitTwos { left } => {
                if left <= 0 {
                    BodyStep::Finished("All done!"@)
                } else {
                    tally_twos_step((left - 1) as i32)
                }
            },
        }
    }

    fn launch(self, y: YieldWrapper<i32, &'static str>, start: i32) -> (step: BodyStep<
        Self,
        &'static str,
        &'static str,
    >) {
        if start <= 0 {
            TallyBody::twos(y, 0)
        } else {
            y.ield("One", TallyBody::CountOnes { left: start, count: 0 })
        }
    }

    fn resume(self, y: YieldWrapper<i32, &'static str>, query: i32) -> (step: BodyStep<
        Self,
        &'static str,
        &'static str,
    >) {
        match self {
            TallyBody::CountOnes { left, count } => {
                if left <= 0 {
                    TallyBody::twos(y, count)
                } else {
                    let sum: i64 = count as i64 + query as i64;
                    let count2: i32 = if sum > i32::MAX as i64 {
                        i32::MAX
                    } else if sum < i32::MIN as i64 {
                        i32::MIN
                    } else {
                        sum as i32
                    };
                    if left - 1 <= 0 {
                        TallyBody::twos(y, count2)
                    } else {
                        y.ield("One", TallyBody::CountOnes { left: left - 1, count: count2 })
                    }
                }
            },
            TallyBody::EmitTwos { left } => {
                if left <= 0 {
                    BodyStep::Finished("All done!")
                } else {
                    TallyBody::twos(y, left - 1)
                }
            },
        }
    }
}

impl TallyBody {
    /// The second phase: yield `"Two"` if any are owed, else finish.
    fn twos(y: YieldWrapper<i32, &'static str>, left: i32) -> (step: BodyStep<
        Self,
        &'static str,
        &'static str,
    >)
        ensures
            step.deep_view() == tally_twos_step(left),
    {
        if left <= 0 {
            BodyStep::Finished("All done!")
        } else {
            y.ield("Two", TallyBody::EmitTwos { left })
        }
    }
}

/// A body that asks a fixed list of prompts, one suspension point per prompt,
/// and finishes by splicing the collected answers into a template: piece,
/// answer, piece, answer, ..., piece.
pub struct TemplateBody {
    /// The prompts still to be asked, each yielded at its own suspension
    /// point.
    pub prompts: Vec<&'static str>,
    /// The fixed text around the answers: one piece more than there are
    /// prompts.
    pub pieces: Vec<&'static str>,
    /// The answers collected so far.
    pub answers: Vec<String>,
}

/// The view of a [`TemplateBody`].
pub struct TemplateBodyView {
    pub prompts: Seq<Seq<char>>,
    pub pieces: Seq<Seq<char>>,
    pub answers: Seq<Seq<char>>,
}

impl DeepView for TemplateBody {
    type V = TemplateBodyView;

    open spec fn deep_view(&self) -> TemplateBodyView {
        TemplateBodyView {
            prompts: self.prompts.deep_view(),
            pieces: self.pieces.deep_view(),
            answers: self.answers.deep_view(),
        }
    }
}

/// The piece at position `i`, or empty text if there is none.
pub open spec fn piece_at(pieces: Seq<Seq<char>>, i: int) -> Seq<char> {
    if 0 <= i < pieces.len() {
        pieces[i]
    } else {
        Seq::empty()
    }
}

/// The template text from position `i` on: `pieces[i] + answers[i] +
/// pieces[i+1] + ... + answers[n-1] + pieces[n]`. Missing pieces count as
/// empty; pieces past one more than the answers are ignored.
pub open spec fn rendered_from(pieces: Seq<Seq<char>>, answers: Seq<Seq<char>>, i: int) -> Seq<
    char,
>
    decreases answers.len() - i,
{
    if i < 0 || i >= answers.len() {
        piece_at(pieces, i)
    } else {
        piece_at(pieces, i) + answers[i] + rendered_from(pieces, answers, i + 1)
    }
}

/// The whole template text with the answers spliced in.
pub open spec fn rendered(pieces: Seq<Seq<char>>, answers: Seq<Seq<char>>) -> Seq<char> {
    rendered_from(pieces, answers, 0)
}

/// One step of a [`TemplateBody`]: ask the next prompt, or finish with the
/// rendered template once every prompt is answered.
pub open spec fn template_step(body: TemplateBodyView) -> BodyStep<TemplateBodyView, Seq<char>, Seq<
    char,
>> {
    if body.prompts.len() == 0 {
        BodyStep::Finished(rendered(body.pieces, body.answers))
    } else {
        BodyStep::Suspended(
            body.prompts[0],
            TemplateBodyView {
                prompts: body.prompts.skip(1),
                pieces: body.pieces,
                answers: body.answers,
            },
        )
    }
}

impl TemplateBody {
    /// Splice `answers[i..]` into `pieces[i..]`.
    fn render_from(pieces: &Vec<&'static str>, answers: &Vec<String>, i: usize) -> (s: String)
        requires
            i <= answers.len(),
        ensures
            s@ == rendered_from(pieces.deep_view(), answers.deep_view(), i as int),
        decreases answers.len() - i,
    {
        let mut s: String = if i < pieces.len() {
            String::from_str(pieces[i])
        } else {
            String::new()
        };
        if i < answers.len() {
            s.append(answers[i].as_str());
            let rest = Self::render_from(pieces, answers, i + 1);
            s.append(rest.as_str());
        }
        s
    }

    /// Ask the next prompt, or finish with the rendered template.
    fn step(self, y: YieldWrapper<String, &'static str>) -> (step: BodyStep<
        Self,
        &'static str,
        String,
    >)
        ensures
            step.deep_view() == template_step(self.deep_view()),
    {
        let mut me = self;
        if me.prompts.len() == 0 {
            BodyStep::Finished(Self::render_from(&me.pieces, &me.answers, 0))
        } else {
            let prompt = me.prompts.remove(0);
            proof {
                assert(me.prompts.deep_view() =~= self.deep_view().prompts.skip(1));
            }
            y.ield(prompt, me)
        }
    }
}

impl Computation for TemplateBody {
    type Start = ();

    type Query = String;

    type Yielded = &'static str;

    type Return = String;

    open spec fn launch_spec(body: TemplateBodyView, start: ()) -> BodyStep<
        TemplateBodyView,
        Seq<char>,
        Seq<char>,
    > {
        template_step(body)
    }

    open spec fn resume_spec(body: TemplateBodyView, query: Seq<char>) -> BodyStep<
        TemplateBodyView,
        Seq<char>,
        Seq<char>,
    > {
        template_step(
            TemplateBodyView {
                prompts: body.prompts,
                pieces: body.pieces,
                answers: body.answers.push(query),
            },
        )
    }

    fn launch(self, y: YieldWrapper<String, &'static str>, start: ()) -> (step: BodyStep<
        Self,
        &'static str,
        String,
    >) {
        self.step(y)
    }

    fn resume(self, y: YieldWrapper<String, &'static str>, query: String) -> (step: BodyStep<
        Self,
        &'static str,
        String,
    >) {
        let mut me = self;
        me.answers.push(query);
        proof {
            assert(me.answers.deep_view() =~= self.deep_view().answers.push(query.deep_view()));
        }
        me.step(y)
    }
}

} // verus!
