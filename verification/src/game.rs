use vstd::prelude::*;
use crate::geometry::Point;
use crate::icon::Placement;
use crate::input::Key;
use crate::particle::Charge;
use crate::tracer::{is_trace_of, FieldLine, Sample, Trace};

verus! {

/// Number of field lines that leave every positive charge. Line `k` starts
/// at the angle `k * pi / 8`.
pub const LINES_PER_CHARGE: usize = 16;

/// One field line to trace: the position of the positive charge it leaves,
/// and the index of its starting angle, below `LINES_PER_CHARGE`.
#[derive(Clone, Copy, Debug, PartialEq, Eq, Structural)]
pub struct Emission {
    pub origin: Point,
    pub direction: u8,
}

/// What a redraw of the canvas shows.
pub struct Frame {
    /// One icon per charge, in the order the charges were placed.
    pub icons: Vec<Placement>,
    /// The field lines, grouped by source in placement order.
    pub lines: Vec<FieldLine>,
}

/// The value nearest to `v` that an `i16` can hold.
pub open spec fn saturated_i16(v: int) -> i16 {
    if v > i16::MAX {
        i16::MAX
    } else if v < i16::MIN {
        i16::MIN
    } else {
        v as i16
    }
}

/// The icon of a charge sits on the charge, as far as 16 bits reach.
pub open spec fn placement_of(c: Charge) -> Placement {
    Placement { particle: c.class(), x: saturated_i16(c.x as int), y: saturated_i16(c.y as int) }
}

pub open spec fn placements(charges: Seq<Charge>) -> Seq<Placement> {
    charges.map_values(|c: Charge| placement_of(c))
}

/// The charges that emit field lines, in placement order.
pub open spec fn sources(charges: Seq<Charge>) -> Seq<Charge> {
    charges.filter(|c: Charge| c.is_source())
}

/// The charges that capture field lines, in placement order.
pub open spec fn sinks(charges: Seq<Charge>) -> Seq<Charge> {
    charges.filter(|c: Charge| c.is_sink())
}

pub open spec fn position_of(c: Charge) -> Point {
    Point { x: c.x, y: c.y }
}

pub open spec fn sink_positions(charges: Seq<Charge>) -> Seq<Point> {
    sinks(charges).map_values(|c: Charge| position_of(c))
}

/// Line `j` of a redraw leaves source `j / 16` in direction `j % 16`.
pub open spec fn emission_plan(charges: Seq<Charge>) -> Seq<Emission> {
    let from = sources(charges);
    Seq::new(
        LINES_PER_CHARGE as nat * from.len(),
        |j: int|
            Emission {
                origin: position_of(from[j / (LINES_PER_CHARGE as int)]),
                direction: (j % (LINES_PER_CHARGE as int)) as u8,
            },
    )
}

/// The lines that leave one source, by direction.
pub open spec fn rays(c: Charge) -> Seq<Emission> {
    Seq::new(
        LINES_PER_CHARGE as nat,
        |d: int| Emission { origin: position_of(c), direction: d as u8 },
    )
}

/// Placing one more charge adds its lines behind those already planned, if it
/// is a source, and leaves the plan alone otherwise.
pub proof fn lemma_emission_plan_push(charges: Seq<Charge>, c: Charge)
    ensures
        emission_plan(charges.push(c)) == if c.is_source() {
            emission_plan(charges) + rays(c)
        } else {
            emission_plan(charges)
        },
{
    charges.lemma_filter_push(c, |c: Charge| c.is_source());
    if c.is_source() {
        let from = sources(charges);
        let longer = emission_plan(charges.push(c));
        let joined = emission_plan(charges) + rays(c);
        assert(sources(charges.push(c)) == from.push(c));
        assert forall|j: int| 0 <= j < longer.len() implies #[trigger] longer[j] == joined[j] by {
            if j < LINES_PER_CHARGE * from.len() {
                assert(j / (LINES_PER_CHARGE as int) < from.len());
            } else {
                assert(j / (LINES_PER_CHARGE as int) == from.len());
                assert(j % (LINES_PER_CHARGE as int) == j - LINES_PER_CHARGE * from.len());
            }
        }
        assert(longer =~= joined);
    }
}

/// Whether `line` is the field line of `emission`: a finished line that
/// starts where `seed` puts it and follows the samples of `step`.
pub open spec fn is_line_of<S, G: Fn(Emission) -> (Point, S), F: Fn(S) -> (S, Sample)>(
    seed: &G,
    step: &F,
    emission: Emission,
    line: Trace,
) -> bool {
    exists|first: (Point, S)|
        #![trigger call_ensures(seed, (emission,), first)]
        call_ensures(seed, (emission,), first) && is_trace_of(step, first.0, first.1, line)
}

/// What a key does to the magnitude selected for the next charge. The count
/// stops at the ends of the `i64` range.
pub open spec fn adjusted_charge(steps: int, key: Key) -> int {
    match key {
        Key::Equals => if steps < i64::MAX { steps + 1 } else { steps },
        Key::Minus => if steps > i64::MIN { steps - 1 } else { steps },
        Key::N => 0,
        _ => steps,
    }
}

/// The field model: the charges placed so far, and the magnitude, in
/// elementary-charge steps, that the next charge will get.
pub struct Game {
    particles: Vec<Charge>,
    current_selected_charge: i64,
}

impl Default for Game {
    /// An empty canvas; the next charge is neutral.
    fn default() -> (game: Game)
        ensures
            game.charges() == Seq::<Charge>::empty(),
            game.selected_charge() == 0,
    {
        Game { particles: Vec::new(), current_selected_charge: 0 }
    }
}

impl Game {
    /// The charges placed so far, oldest first.
    pub closed spec fn charges(&self) -> Seq<Charge> {
        self.particles@
    }

    /// The magnitude the next charge will get.
    pub closed spec fn selected_charge(&self) -> int {
        self.current_selected_charge as int
    }

    /// Appends a charge of `steps` elementary charges at `(x, y)`. Any position
    /// will do, one that is taken already too.
    pub fn add_charge(&mut self, x: i32, y: i32, steps: i64)
        ensures
            final(self).charges() == old(self).charges().push(Charge { x, y, steps }),
            final(self).selected_charge() == old(self).selected_charge(),
    {
        self.particles.push(Charge { x, y, steps });
    }

    /// Places a charge of the selected magnitude at `(x, y)` and returns it.
    pub fn handle_mouse_down(&mut self, x: i32, y: i32) -> (placed: Charge)
        ensures
            placed == (Charge { x, y, steps: old(self).selected_charge() as i64 }),
            final(self).charges() == old(self).charges().push(placed),
            final(self).selected_charge() == old(self).selected_charge(),
    {
        let steps = self.current_selected_charge;
        self.add_charge(x, y, steps);
        Charge { x, y, steps }
    }

    /// Adjusts the magnitude selected for the next charge and returns it.
    pub fn handle_keydown(&mut self, key: Key) -> (selected: i64)
        ensures
            final(self).selected_charge() == adjusted_charge(old(self).selected_charge(), key),
            final(self).charges() == old(self).charges(),
            selected == final(self).selected_charge(),
    {
        self.current_selected_charge = adjust_charge(self.current_selected_charge, key);
        self.current_selected_charge
    }

    /// One icon per charge, in placement order.
    pub fn icons(&self) -> (icons: Vec<Placement>)
        ensures
            icons@ == placements(self.charges()),
    {
        let mut icons: Vec<Placement> = Vec::new();
        let n = self.particles.len();
        let mut i: usize = 0;
        while i < n
            invariant
                i <= n,
                n == self.particles@.len(),
                icons@ == placements(self.particles@.take(i as int)),
            decreases n - i,
        {
            let c = self.particles[i];
            icons.push(
                Placement { particle: c.particle(), x: saturate_i16(c.x), y: saturate_i16(c.y) },
            );
            proof {
                let done = self.particles@.take(i as int);
                assert(self.particles@.take(i + 1) =~= done.push(c));
                done.lemma_push_map_commute(|c: Charge| placement_of(c), c);
            }
            i = i + 1;
        }
        assert(self.particles@.take(n as int) =~= self.particles@);
        icons
    }

    /// The field lines to trace: `LINES_PER_CHARGE` for every positive
    /// charge, none for any other.
    pub fn emissions(&self) -> (plan: Vec<Emission>)
        ensures
            plan@ == emission_plan(self.charges()),
    {
        let mut plan: Vec<Emission> = Vec::new();
        let n = self.particles.len();
        let mut i: usize = 0;
        while i < n
            invariant
                i <= n,
                n == self.particles@.len(),
                plan@ == emission_plan(self.particles@.take(i as int)),
            decreases n - i,
        {
            let c = self.particles[i];
            let ghost done = self.particles@.take(i as int);
            if c.steps > 0 {
                let origin = Point { x: c.x, y: c.y };
                let mut d: u8 = 0;
                while d < LINES_PER_CHARGE as u8
                    invariant
                        d <= LINES_PER_CHARGE,
                        origin == position_of(c),
                        plan@ == emission_plan(done) + rays(c).take(d as int),
                    decreases LINES_PER_CHARGE - d,
                {
                    plan.push(Emission { origin, direction: d });
                    assert(rays(c).take(d + 1) =~= rays(c).take(d as int).push(rays(c)[d as int]));
                    d = d + 1;
                }
                assert(rays(c).take(LINES_PER_CHARGE as int) =~= rays(c));
            }
            proof {
                assert(self.particles@.take(i + 1) =~= done.push(c));
                lemma_emission_plan_push(done, c);
            }
            i = i + 1;
        }
        assert(self.particles@.take(n as int) =~= self.particles@);
        plan
    }

    /// The positions of the negative charges, in placement order.
    pub fn sinks(&self) -> (positions: Vec<Point>)
        ensures
            positions@ == sink_positions(self.charges()),
    {
        let mut positions: Vec<Point> = Vec::new();
        let n = self.particles.len();
        let mut i: usize = 0;
        while i < n
            invariant
                i <= n,
                n == self.particles@.len(),
                positions@ == sink_positions(self.particles@.take(i as int)),
            decreases n - i,
        {
            let c = self.particles[i];
            if c.steps < 0 {
                positions.push(Point { x: c.x, y: c.y });
            }
            proof {
                let done = self.particles@.take(i as int);
                assert(self.particles@.take(i + 1) =~= done.push(c));
                done.lemma_filter_push(c, |c: Charge| c.is_sink());
                if c.is_sink() {
                    sinks(done).lemma_push_map_commute(|c: Charge| position_of(c), c);
                }
            }
            i = i + 1;
        }
        assert(self.particles@.take(n as int) =~= self.particles@);
        positions
    }

    /// Redraws the canvas: an icon for every charge, and a traced field line
    /// for every emission. `seed` turns an emission into the first point of
    /// its line and the state in which the integration starts; `step` takes
    /// the integration one step further.
    pub fn on_update<S, G, F>(&self, seed: G, step: F) -> (frame: Frame) where
        G: Fn(Emission) -> (Point, S),
        F: Fn(S) -> (S, Sample),

        requires
            forall|e: Emission| call_requires(seed, (e,)),
            forall|s: S| call_requires(step, (s,)),
        ensures
            frame.icons@ == placements(self.charges()),
            frame.lines@.len() == emission_plan(self.charges()).len(),
            forall|j: int|
                0 <= j < frame.lines@.len() ==> is_line_of(
                    &seed,
                    &step,
                    emission_plan(self.charges())[j],
                    (#[trigger] frame.lines@[j])@,
                ),
    {
        let icons = self.icons();
        let plan = self.emissions();
        let mut lines: Vec<FieldLine> = Vec::new();
        let n = plan.len();
        let mut j: usize = 0;
        while j < n
            invariant
                j <= n,
                n == plan@.len(),
                lines@.len() == j,
                forall|e: Emission| call_requires(seed, (e,)),
                forall|s: S| call_requires(step, (s,)),
                forall|k: int|
                    0 <= k < j ==> is_line_of(&seed, &step, plan@[k], (#[trigger] lines@[k])@),
            decreases n - j,
        {
            let (pixel, start) = seed(plan[j]);
            let line = FieldLine::trace(pixel, start, &step);
            assert(call_ensures(seed, (plan@[j as int],), (pixel, start)));
            lines.push(line);
            j = j + 1;
        }
        Frame { icons, lines }
    }

    pub fn particles(&self) -> (charges: &Vec<Charge>)
        ensures
            charges@ == self.charges(),
    {
        &self.particles
    }

    pub fn current_selected_charge(&self) -> (steps: i64)
        ensures
            steps == self.selected_charge(),
    {
        self.current_selected_charge
    }
}

/// The magnitude selected after `key` was pressed while `steps` was selected.
pub fn adjust_charge(steps: i64, key: Key) -> (adjusted: i64)
    ensures
        adjusted == adjusted_charge(steps as int, key),
{
    match key {
        Key::Equals => if steps < i64::MAX {
            steps + 1
        } else {
            steps
        },
        Key::Minus => if steps > i64::MIN {
            steps - 1
        } else {
            steps
        },
        Key::N => 0,
        _ => steps,
    }
}

fn saturate_i16(v: i32) -> (r: i16)
    ensures
        r == saturated_i16(v as int),
{
    if v > i16::MAX as i32 {
        i16::MAX
    } else if v < i16::MIN as i32 {
        i16::MIN
    } else {
        v as i16
    }
}

/// A redraw traces exactly `LINES_PER_CHARGE` lines for every positive
/// charge, whatever other charges there are. Each line leaves a positive
/// charge, in a direction below `LINES_PER_CHARGE`.
pub proof fn lemma_line_count(charges: Seq<Charge>)
    ensures
        emission_plan(charges).len() == LINES_PER_CHARGE * sources(charges).len(),
        forall|j: int|
            0 <= j < emission_plan(charges).len() ==> {
                &&& (#[trigger] emission_plan(charges)[j]).direction < LINES_PER_CHARGE
                &&& exists|i: int|
                    0 <= i < charges.len() && (#[trigger] charges[i]).is_source()
                        && emission_plan(charges)[j].origin == position_of(charges[i])
            },
{
    let from = sources(charges);
    assert forall|j: int| 0 <= j < emission_plan(charges).len() implies {
        &&& (#[trigger] emission_plan(charges)[j]).direction < LINES_PER_CHARGE
        &&& exists|i: int|
            0 <= i < charges.len() && (#[trigger] charges[i]).is_source() && emission_plan(
                charges,
            )[j].origin == position_of(charges[i])
    } by {
        let s = j / (LINES_PER_CHARGE as int);
        assert(0 <= s < from.len());
        charges.lemma_filter_pred(|c: Charge| c.is_source(), s);
        assert(from.contains(from[s]));
        charges.lemma_filter_contains_rev(|c: Charge| c.is_source(), from[s]);
        let i = choose|i: int| 0 <= i < charges.len() && charges[i] == from[s];
        assert(charges[i].is_source());
    }
}

/// A charge set emits no field line at all exactly when none of its charges
/// is positive: neutral and negative charges never emit.
pub proof fn lemma_no_source_no_lines(charges: Seq<Charge>)
    ensures
        emission_plan(charges).len() == 0 <==> forall|i: int|
            0 <= i < charges.len() ==> !(#[trigger] charges[i]).is_source(),
{
    let from = sources(charges);
    if from.len() > 0 {
        charges.lemma_filter_pred(|c: Charge| c.is_source(), 0);
        assert(from.contains(from[0]));
        charges.lemma_filter_contains_rev(|c: Charge| c.is_source(), from[0]);
        let i = choose|i: int| 0 <= i < charges.len() && charges[i] == from[0];
        assert(charges[i].is_source());
    } else {
        assert forall|i: int| 0 <= i < charges.len() implies !(#[trigger] charges[i]).is_source() by {
            if charges[i].is_source() {
                charges.lemma_filter_contains(|c: Charge| c.is_source(), i);
            }
        }
    }
}

} // verus!
