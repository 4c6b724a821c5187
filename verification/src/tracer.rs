use vstd::prelude::*;
use crate::geometry::Point;

verus! {

/// Step budget of one field line: a line that has taken this many steps
/// without reaching a sink is left open.
pub const MAX_LINE_ITERS: usize = 4096;

/// How a field line stands.
#[derive(Clone, Copy, Debug, PartialEq, Eq, Structural)]
pub enum TraceStatus {
    /// The line may still grow.
    Tracing,
    /// The last point of the line lies inside the capture radius of a sink.
    Captured,
    /// The step budget is spent and no point of the line lies in a sink.
    Exhausted,
}

/// One candidate step of a trace: the point reached, and whether that point
/// lies inside the capture radius of some negative charge.
#[derive(Clone, Copy, Debug, PartialEq, Eq, Structural)]
pub struct Sample {
    pub point: Point,
    pub in_sink: bool,
}

/// The mathematical content of a field line: its points, seed first, and
/// whether the last of them was reported inside a sink.
pub struct Trace {
    pub points: Seq<Point>,
    pub captured: bool,
}

impl Trace {
    /// Steps taken so far: every point but the seed is one step.
    pub open spec fn steps(self) -> int {
        self.points.len() - 1
    }

    pub open spec fn status(self) -> TraceStatus {
        if self.captured {
            TraceStatus::Captured
        } else if self.steps() >= MAX_LINE_ITERS {
            TraceStatus::Exhausted
        } else {
            TraceStatus::Tracing
        }
    }

    /// A fresh line holds its seed and nothing else.
    pub open spec fn start(seed: Point) -> Trace {
        Trace { points: seq![seed], captured: false }
    }

    /// A line that is still tracing takes the sample's point and stops at once
    /// if that point is in a sink. A finished line ignores the sample.
    pub open spec fn step(self, sample: Sample) -> Trace {
        if self.status() == TraceStatus::Tracing {
            Trace { points: self.points.push(sample.point), captured: sample.in_sink }
        } else {
            self
        }
    }

    /// The line grown from `seed` by offering it `samples` in order.
    pub open spec fn replay(seed: Point, samples: Seq<Sample>) -> Trace
        decreases samples.len(),
    {
        if samples.len() == 0 {
            Trace::start(seed)
        } else {
            Trace::replay(seed, samples.drop_last()).step(samples.last())
        }
    }

    /// A line has its seed, and never more steps than the budget allows.
    pub open spec fn wf(self) -> bool {
        1 <= self.points.len() <= MAX_LINE_ITERS + 1
    }
}

/// The state in which the stepper is called for the `i`-th time.
pub open spec fn state_before<S>(start: S, run: Seq<(S, Sample)>, i: int) -> S {
    if i == 0 {
        start
    } else {
        run[i - 1].0
    }
}

/// Whether `run` is what `step` can return when it is called again and again,
/// first on `start` and then each time on the state that it returned last.
pub open spec fn is_run<S, F: Fn(S) -> (S, Sample)>(
    step: &F,
    start: S,
    run: Seq<(S, Sample)>,
) -> bool {
    forall|i: int|
        0 <= i < run.len() ==> call_ensures(step, (state_before(start, run, i),), #[trigger] run[i])
}

/// The samples of a run, without the states.
pub open spec fn samples_of<S>(run: Seq<(S, Sample)>) -> Seq<Sample> {
    run.map_values(|r: (S, Sample)| r.1)
}

/// Whether `line` is a finished line grown from `seed` by the samples that
/// `step` returned, called first on `start` and never again once the line was
/// over.
pub open spec fn is_trace_of<S, F: Fn(S) -> (S, Sample)>(
    step: &F,
    seed: Point,
    start: S,
    line: Trace,
) -> bool {
    &&& line.wf()
    &&& line.points[0] == seed
    &&& line.status() != TraceStatus::Tracing
    &&& exists|run: Seq<(S, Sample)>|
        #![trigger is_run(step, start, run)]
        {
            &&& is_run(step, start, run)
            &&& run.len() == line.steps()
            &&& line == Trace::replay(seed, samples_of(run))
        }
}

/// However a line is grown, it is its seed followed by the points of the
/// samples it accepted, in order and without gaps; it holds between one and
/// `MAX_LINE_ITERS + 1` points; only the last accepted sample can lie in a
/// sink, and the line is captured exactly when it does; and a line that is
/// still tracing has accepted every sample offered.
pub proof fn lemma_replay_shape(seed: Point, samples: Seq<Sample>)
    ensures
        ({
            let line = Trace::replay(seed, samples);
            &&& line.wf()
            &&& line.steps() <= samples.len()
            &&& line.points[0] == seed
            &&& forall|i: int| 0 <= i < line.steps() ==> line.points[i + 1] == samples[i].point
            &&& forall|i: int| 0 <= i < line.steps() - 1 ==> !samples[i].in_sink
            &&& line.captured <==> line.steps() >= 1 && samples[line.steps() - 1].in_sink
            &&& line.status() == TraceStatus::Tracing ==> line.steps() == samples.len()
        }),
    decreases samples.len(),
{
    if samples.len() > 0 {
        let before = Trace::replay(seed, samples.drop_last());
        lemma_replay_shape(seed, samples.drop_last());
        let line = before.step(samples.last());
        assert(line == Trace::replay(seed, samples));
        assert forall|i: int| 0 <= i < line.steps() implies line.points[i + 1]
            == samples[i].point by {
            if i < before.steps() {
                assert(samples.drop_last()[i] == samples[i]);
            }
        }
        assert forall|i: int| 0 <= i < line.steps() - 1 implies !samples[i].in_sink by {
            assert(samples.drop_last()[i] == samples[i]);
        }
        if before.steps() >= 1 {
            assert(samples.drop_last()[before.steps() - 1] == samples[before.steps() - 1]);
        }
    }
}

/// A line ends in exactly one of two ways, and it does end. A captured line
/// took at most `MAX_LINE_ITERS` steps, and its last point is the first sample
/// that lies in a sink. An exhausted line took exactly `MAX_LINE_ITERS` steps,
/// and none of them reached a sink. A line that was offered `MAX_LINE_ITERS`
/// samples or more is one or the other.
pub proof fn lemma_trace_outcome(seed: Point, samples: Seq<Sample>)
    ensures
        ({
            let line = Trace::replay(seed, samples);
            let last = line.steps() - 1;
            &&& samples.len() >= MAX_LINE_ITERS ==> line.status() != TraceStatus::Tracing
            &&& line.status() == TraceStatus::Captured ==> {
                &&& 1 <= line.steps() <= MAX_LINE_ITERS
                &&& line.points.last() == samples[last].point
                &&& samples[last].in_sink
                &&& forall|i: int| 0 <= i < last ==> !samples[i].in_sink
            }
            &&& line.status() == TraceStatus::Exhausted ==> {
                &&& line.steps() == MAX_LINE_ITERS
                &&& forall|i: int| 0 <= i < MAX_LINE_ITERS ==> !samples[i].in_sink
            }
        }),
{
    lemma_replay_shape(seed, samples);
}

/// Offering further samples to a finished line changes nothing.
pub proof fn lemma_finished_line_is_final(seed: Point, samples: Seq<Sample>, more: Seq<Sample>)
    requires
        Trace::replay(seed, samples).status() != TraceStatus::Tracing,
    ensures
        Trace::replay(seed, samples + more) == Trace::replay(seed, samples),
    decreases more.len(),
{
    if more.len() == 0 {
        assert(samples + more =~= samples);
    } else {
        lemma_finished_line_is_final(seed, samples, more.drop_last());
        assert((samples + more).drop_last() =~= samples + more.drop_last());
        assert((samples + more).last() == more.last());
    }
}

/// A field line under construction. The caller computes each next point of
/// the streamline and reports it, together with the result of the capture
/// test, through [`FieldLine::advance`]; the line decides when it is over.
pub struct FieldLine {
    points: Vec<Point>,
    captured: bool,
}

impl View for FieldLine {
    type V = Trace;

    closed spec fn view(&self) -> Trace {
        Trace { points: self.points@, captured: self.captured }
    }
}

impl FieldLine {
    #[verifier::type_invariant]
    spec fn inv(&self) -> bool {
        self@.wf()
    }

    /// Starts a line at its seed point.
    pub fn start(seed: Point) -> (line: FieldLine)
        ensures
            line@ == Trace::start(seed),
    {
        let mut points: Vec<Point> = Vec::new();
        points.push(seed);
        assert(points@ =~= seq![seed]);
        FieldLine { points, captured: false }
    }

    /// Offers the line its next sample and returns the line after the step.
    pub fn advance(self, sample: Sample) -> (next: FieldLine)
        ensures
            next@ == self@.step(sample),
    {
        proof {
            use_type_invariant(&self);
        }
        if self.captured || self.points.len() > MAX_LINE_ITERS {
            return self;
        }
        let mut points = self.points;
        points.push(sample.point);
        FieldLine { points, captured: sample.in_sink }
    }

    /// Traces a whole line. The stepper turns the state of the integration
    /// into the next state and the sample reached; it is called until the line
    /// is over, and never again after that.
    pub fn trace<S, F: Fn(S) -> (S, Sample)>(seed: Point, start: S, step: &F) -> (line: FieldLine)
        requires
            forall|s: S| call_requires(step, (s,)),
        ensures
            is_trace_of(step, seed, start, line@),
    {
        let mut line = FieldLine::start(seed);
        let mut state = start;
        let ghost mut run: Seq<(S, Sample)> = Seq::empty();
        assert(samples_of(run) =~= Seq::<Sample>::empty());
        while line.is_tracing()
            invariant
                forall|s: S| call_requires(step, (s,)),
                is_run(step, start, run),
                state == state_before(start, run, run.len() as int),
                line@ == Trace::replay(seed, samples_of(run)),
                run.len() == line@.steps(),
                line@.wf(),
            decreases MAX_LINE_ITERS - line@.steps(),
        {
            let (next, sample) = step(state);
            let ghost before = run;
            proof {
                run = before.push((next, sample));
                assert(samples_of(run).drop_last() =~= samples_of(before));
                assert forall|i: int| 0 <= i < run.len() implies call_ensures(
                    step,
                    (state_before(start, run, i),),
                    #[trigger] run[i],
                ) by {
                    if i < before.len() {
                        assert(run[i] == before[i]);
                        assert(state_before(start, run, i) == state_before(start, before, i));
                    }
                }
            }
            state = next;
            line = line.advance(sample);
            proof {
                use_type_invariant(&line);
            }
        }
        proof {
            lemma_replay_shape(seed, samples_of(run));
        }
        line
    }

    /// Grows a line from `seed` by offering it `samples` in order. Samples
    /// behind the one that ends the line are not looked at.
    pub fn replay(seed: Point, samples: &Vec<Sample>) -> (line: FieldLine)
        ensures
            line@ == Trace::replay(seed, samples@),
    {
        let mut line = FieldLine::start(seed);
        let n = samples.len();
        let mut i: usize = 0;
        while i < n && line.is_tracing()
            invariant
                i <= n,
                n == samples@.len(),
                line@ == Trace::replay(seed, samples@.take(i as int)),
            decreases n - i,
        {
            line = line.advance(samples[i]);
            assert(samples@.take(i + 1).drop_last() =~= samples@.take(i as int));
            i = i + 1;
        }
        proof {
            assert(samples@.take(i as int) + samples@.skip(i as int) =~= samples@);
            if i < n {
                lemma_finished_line_is_final(seed, samples@.take(i as int), samples@.skip(i as int));
            }
        }
        line
    }

    pub fn status(&self) -> (status: TraceStatus)
        ensures
            status == self@.status(),
    {
        proof {
            use_type_invariant(self);
        }
        if self.captured {
            TraceStatus::Captured
        } else if self.points.len() > MAX_LINE_ITERS {
            TraceStatus::Exhausted
        } else {
            TraceStatus::Tracing
        }
    }

    pub fn is_tracing(&self) -> (tracing: bool)
        ensures
            tracing == (self@.status() == TraceStatus::Tracing),
    {
        proof {
            use_type_invariant(self);
        }
        !self.captured && self.points.len() <= MAX_LINE_ITERS
    }

    /// The polyline traced so far, seed first.
    pub fn points(&self) -> (points: &Vec<Point>)
        ensures
            points@ == self@.points,
            self@.wf(),
    {
        proof {
            use_type_invariant(self);
        }
        &self.points
    }

    /// Steps taken so far.
    pub fn steps(&self) -> (n: usize)
        ensures
            n == self@.steps(),
            n <= MAX_LINE_ITERS,
    {
        proof {
            use_type_invariant(self);
        }
        self.points.len() - 1
    }
}

} // verus!
