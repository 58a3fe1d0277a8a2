//! Animated values that move between a fixed set of targets.
//!
//! All quantities are fixed-point: a fraction is an integer of millionths, so
//! that [`UNIT`] stands for one. An [`Eased`] value is advanced by one call of
//! [`Eased::update`] per animation tick.

use vstd::prelude::*;
use vstd::slice::slice_to_vec;

verus! {

/// The fixed-point representation of one: fractions are counted in millionths.
pub const UNIT: u32 = 1_000_000;

/// Interval in milliseconds between two animation ticks.
pub const ANIMATION_TICKRATE: u32 = 16;

/// A value that can be blended linearly with another of its kind.
///
/// Nothing is asked of a blend but that it returns: an [`Eased`] value calls
/// it only between the two ends of a transition, and answers for the ends
/// itself.
pub trait Lerpable: Copy {
    /// Blends `start` and `end`; `factor` is a fraction in millionths.
    fn lerp(start: &Self, end: &Self, factor: u32) -> (blend: Self)
        requires
            factor <= UNIT,
    ;
}

/// `blend` is what the blend of `V` gives for `start` and `end`, `factor`
/// millionths of the way along.
pub open spec fn blends_to<V: Lerpable>(start: V, end: V, factor: u32, blend: V) -> bool {
    call_ensures(V::lerp, (&start, &end, factor), blend)
}

/// The scalar blend `start + factor * (end - start)`, rounded towards `start`
/// to a whole number.
pub open spec fn lerp_int(start: int, end: int, factor: int) -> int {
    if start <= end {
        start + (factor * (end - start)) / (UNIT as int)
    } else {
        start - (factor * (start - end)) / (UNIT as int)
    }
}

/// A scalar blend never leaves the interval between its ends, and is exact at
/// both of them.
pub proof fn lemma_lerp_int_bounds(start: int, end: int, factor: int)
    requires
        0 <= factor <= UNIT,
    ensures
        start <= end ==> start <= lerp_int(start, end, factor) <= end,
        end <= start ==> end <= lerp_int(start, end, factor) <= start,
        lerp_int(start, end, 0) == start,
        lerp_int(start, end, UNIT as int) == end,
{
    let u = UNIT as int;
    let d = if start <= end { end - start } else { start - end };
    assert(0 <= factor * d <= u * d) by (nonlinear_arith)
        requires 0 <= factor <= u, 0 <= d;
    assert(0 <= (factor * d) / u <= d) by (nonlinear_arith)
        requires 0 <= factor * d <= u * d, u == 1_000_000;
    assert((0 * d) / u == 0);
    assert((u * d) / u == d) by (nonlinear_arith)
        requires u == 1_000_000;
}

/// A scalar blend moves towards its end as the factor grows.
pub proof fn lemma_lerp_int_monotonic(start: int, end: int, f: int, g: int)
    requires
        0 <= f <= g <= UNIT,
    ensures
        start <= end ==> lerp_int(start, end, f) <= lerp_int(start, end, g),
        end <= start ==> lerp_int(start, end, g) <= lerp_int(start, end, f),
{
    let u = UNIT as int;
    let d = if start <= end { end - start } else { start - end };
    assert(f * d <= g * d) by (nonlinear_arith)
        requires f <= g, 0 <= d;
    assert((f * d) / u <= (g * d) / u) by (nonlinear_arith)
        requires f * d <= g * d, u == 1_000_000;
}

impl Lerpable for i32 {
    fn lerp(start: &i32, end: &i32, factor: u32) -> (blend: i32)
        ensures
            blend == lerp_int(*start as int, *end as int, factor as int),
    {
        let from: i64 = *start as i64;
        let to: i64 = *end as i64;
        let weight: i64 = factor as i64;
        let unit: i64 = UNIT as i64;
        proof {
            lemma_lerp_int_bounds(from as int, to as int, factor as int);
        }
        if from <= to {
            let span: i64 = to - from;
            assert(0 <= weight * span <= 1_000_000 * 0x1_0000_0000) by (nonlinear_arith)
                requires 0 <= weight <= 1_000_000, 0 <= span <= 0x1_0000_0000;
            let step: i64 = weight * span / unit;
            (from + step) as i32
        } else {
            let span: i64 = from - to;
            assert(0 <= weight * span <= 1_000_000 * 0x1_0000_0000) by (nonlinear_arith)
                requires 0 <= weight <= 1_000_000, 0 <= span <= 0x1_0000_0000;
            let step: i64 = weight * span / unit;
            (from - step) as i32
        }
    }
}

/// A curve that maps the progress of a transition to the fraction of the way
/// travelled.
#[derive(Debug, Clone, Copy, PartialEq, Eq, Structural)]
pub enum Easing {
    Linear,
    Smoothstep,
}

/// The smoothstep polynomial `x²(3 − 2x)` on fractions, rounded down to a
/// whole number of millionths.
pub open spec fn smoothstep(x: int) -> int {
    (x * x * (3 * UNIT - 2 * x)) / (UNIT as int * UNIT as int)
}

impl Easing {
    /// The value of the curve at `x`, as a mathematical function.
    pub open spec fn ease_spec(self, x: int) -> int {
        match self {
            Easing::Linear => x,
            Easing::Smoothstep => smoothstep(x),
        }
    }

    /// Evaluates the curve at the fraction `x`.
    pub fn ease(self, x: u32) -> (y: u32)
        requires
            x <= UNIT,
        ensures
            y == self.ease_spec(x as int),
            y <= UNIT,
    {
        match self {
            Easing::Linear => x,
            Easing::Smoothstep => {
                let wide: u64 = x as u64;
                let unit: u64 = UNIT as u64;
                assert(wide * wide <= 1_000_000_000_000) by (nonlinear_arith)
                    requires wide <= 1_000_000;
                let square: u64 = wide * wide;
                let slope: u64 = 3 * unit - 2 * wide;
                assert(square * slope <= 3_000_000_000_000_000_000) by (nonlinear_arith)
                    requires square <= 1_000_000_000_000, slope <= 3_000_000;
                let scaled: u64 = square * slope / (unit * unit);
                proof {
                    lemma_ease_bounds(Easing::Smoothstep, x as int);
                }
                scaled as u32
            }
        }
    }
}

/// Either curve keeps fractions within `[0, UNIT]`.
pub proof fn lemma_ease_bounds(easing: Easing, x: int)
    requires
        0 <= x <= UNIT,
    ensures
        0 <= easing.ease_spec(x) <= UNIT,
{
    let u = UNIT as int;
    let n = x * x * (3 * u - 2 * x);
    assert(0 <= n <= u * u * u) by (nonlinear_arith)
        requires 0 <= x <= u, n == x * x * (3 * u - 2 * x), u == 1_000_000;
    assert(0 <= n / (u * u) <= u) by (nonlinear_arith)
        requires 0 <= n <= u * u * u, u == 1_000_000;
}

/// Either curve starts at zero and ends at one.
pub proof fn lemma_ease_ends(easing: Easing)
    ensures
        easing.ease_spec(0) == 0,
        easing.ease_spec(UNIT as int) == UNIT,
{
    let u = UNIT as int;
    assert((0 * 0 * (3 * u - 2 * 0)) / (u * u) == 0) by (nonlinear_arith)
        requires u == 1_000_000;
    assert((u * u * (3 * u - 2 * u)) / (u * u) == u) by (nonlinear_arith)
        requires u == 1_000_000;
}

/// Either curve is monotonic on `[0, UNIT]`: more progress never means less
/// of the way travelled.
pub proof fn lemma_ease_monotonic(easing: Easing, x: int, y: int)
    requires
        0 <= x <= y <= UNIT,
    ensures
        easing.ease_spec(x) <= easing.ease_spec(y),
{
    let u = UNIT as int;
    let p = x * x * (3 * u - 2 * x);
    let q = y * y * (3 * u - 2 * y);
    lemma_smoothstep_numerator_monotonic(x, y);
    assert(p / (u * u) <= q / (u * u)) by (nonlinear_arith)
        requires p <= q, u == 1_000_000;
}

/// The polynomial `x²(3 − 2x)`, scaled to millionths, does not fall on
/// `[0, UNIT]`.
proof fn lemma_smoothstep_numerator_monotonic(x: int, y: int)
    requires
        0 <= x <= y <= UNIT,
    ensures
        x * x * (3 * UNIT - 2 * x) <= y * y * (3 * UNIT - 2 * y),
{
    let d = y - x;
    let xx = x * x;
    let xy = x * y;
    let yy = y * y;
    // Each square and the product lie under the same multiple of a factor.
    assert(xx <= 1_000_000 * x) by (nonlinear_arith)
        requires 0 <= x <= 1_000_000, xx == x * x;
    assert(yy <= 1_000_000 * y) by (nonlinear_arith)
        requires 0 <= y <= 1_000_000, yy == y * y;
    assert(xy <= 1_000_000 * x) by (nonlinear_arith)
        requires 0 <= x, 0 <= y <= 1_000_000, xy == x * y;
    assert(xy <= 1_000_000 * y) by (nonlinear_arith)
        requires 0 <= x <= 1_000_000, 0 <= y, xy == x * y;
    let gain = 3_000_000 * (x + y) - 2 * (xx + xy + yy);
    assert(gain >= 0);
    // The difference of the two values is the distance times that gain.
    assert(yy - xx == d * (x + y)) by (nonlinear_arith)
        requires d == y - x, xx == x * x, yy == y * y;
    assert(yy * y - xx * x == d * (xx + xy + yy)) by (nonlinear_arith)
        requires d == y - x, xx == x * x, yy == y * y, xy == x * y;
    assert(d * gain == 3_000_000 * (d * (x + y)) - 2 * (d * (xx + xy + yy))) by (nonlinear_arith)
        requires gain == 3_000_000 * (x + y) - 2 * (xx + xy + yy);
    assert(d * gain >= 0) by (nonlinear_arith)
        requires d >= 0, gain >= 0;
    assert(xx * (3_000_000 - 2 * x) == 3_000_000 * xx - 2 * (xx * x)) by (nonlinear_arith);
    assert(yy * (3_000_000 - 2 * y) == 3_000_000 * yy - 2 * (yy * y)) by (nonlinear_arith);
}

/// The progress gained per tick by a transition that is to last `duration`
/// milliseconds: the tick interval over the duration, kept within
/// `[1, UNIT]` millionths.
pub open spec fn speed_spec(duration: int) -> int {
    if duration <= 0 {
        UNIT as int
    } else {
        let raw = (ANIMATION_TICKRATE * UNIT) / duration;
        if raw < 1 {
            1
        } else if raw > UNIT {
            UNIT as int
        } else {
            raw
        }
    }
}

/// The mathematical model of an [`Eased`] value.
pub struct EasedView<V> {
    pub easing: Easing,
    /// Progress gained per tick, in millionths.
    pub speed: int,
    /// Index of the target that is aimed at.
    pub target_idx: int,
    /// Progress of the running transition, in millionths.
    pub progress: int,
    /// Where the running transition began.
    pub start: V,
    /// Every value that can be aimed at.
    pub targets: Seq<V>,
}

impl<V: Lerpable> EasedView<V> {
    /// The invariant of every animated value.
    pub open spec fn wf(self) -> bool {
        &&& self.targets.len() > 0
        &&& 0 <= self.target_idx < self.targets.len()
        &&& 0 <= self.progress <= UNIT
        &&& 1 <= self.speed <= UNIT
    }

    /// Where the running transition ends: the target that is aimed at.
    pub open spec fn end(self) -> V {
        self.targets[self.target_idx]
    }

    /// No transition is under way.
    pub open spec fn settled(self) -> bool {
        self.progress >= UNIT
    }

    /// `value` is on display: the target at rest, the start where a
    /// transition has just begun, and between the two what the blend of `V`
    /// gives for the eased progress.
    pub open spec fn shows(self, value: V) -> bool {
        if self.settled() {
            value == self.end()
        } else if self.progress == 0 {
            value == self.start
        } else {
            blends_to(
                self.start,
                self.end(),
                self.easing.ease_spec(self.progress) as u32,
                value,
            )
        }
    }

    /// The state one tick later.
    pub open spec fn updated(self) -> Self {
        if self.progress < UNIT {
            let advanced = self.progress + self.speed;
            EasedView { progress: if advanced < UNIT { advanced } else { UNIT as int }, ..self }
        } else {
            self
        }
    }

    /// The state after `ticks` ticks.
    pub open spec fn updated_by(self, ticks: nat) -> Self
        decreases ticks,
    {
        if ticks == 0 {
            self
        } else {
            self.updated().updated_by((ticks - 1) as nat)
        }
    }

    /// `after` is the state after aiming at the target `idx`: unchanged when
    /// that target is already reached, else a new transition that begins at
    /// what was on display.
    pub open spec fn retargets_to(self, idx: int, after: Self) -> bool {
        if idx == self.target_idx && self.settled() {
            after == self
        } else {
            &&& after == (EasedView { start: after.start, progress: 0, target_idx: idx, ..self })
            &&& self.shows(after.start)
        }
    }

    /// The state right after construction: settled on the target `idx`.
    pub open spec fn settled_at(idx: int, easing: Easing, duration: int, targets: Seq<V>) -> Self {
        EasedView {
            easing,
            speed: speed_spec(duration),
            target_idx: idx,
            progress: UNIT as int,
            start: targets[idx],
            targets,
        }
    }
}

/// A value that is animated between the entries of a fixed list of targets.
#[derive(Debug)]
pub struct Eased<V: Lerpable> {
    easing: Easing,
    /// Amount to increment progress by, per tick.
    speed: u32,
    /// The currently desired target index.
    target_idx: usize,
    /// `0..=UNIT` progress between `start` and the target.
    progress: u32,
    /// Start value of the currently running animation.
    start: V,
    /// All possible target values.
    targets: Vec<V>,
}

impl<V: Lerpable> View for Eased<V> {
    type V = EasedView<V>;

    closed spec fn view(&self) -> EasedView<V> {
        EasedView {
            easing: self.easing,
            speed: self.speed as int,
            target_idx: self.target_idx as int,
            progress: self.progress as int,
            start: self.start,
            targets: self.targets@,
        }
    }
}

impl<V: Lerpable> Clone for Eased<V> {
    fn clone(&self) -> (copy: Self)
        ensures
            copy@ == self@,
            copy@.wf(),
    {
        proof {
            use_type_invariant(self);
        }
        let targets = slice_to_vec(self.targets.as_slice());
        assert(targets@ =~= self.targets@);
        Eased {
            easing: self.easing,
            speed: self.speed,
            target_idx: self.target_idx,
            progress: self.progress,
            start: self.start,
            targets,
        }
    }
}

impl<V: Lerpable> Eased<V> {
    #[verifier::type_invariant]
    spec fn inv(self) -> bool {
        self@.wf()
    }

    /// Creates a value that rests on `targets[initial_target_idx]`; a later
    /// transition lasts about `duration` milliseconds.
    pub fn new(initial_target_idx: usize, easing: Easing, duration: u32, targets: &[V]) -> (eased:
        Self)
        requires
            targets@.len() > 0,
            initial_target_idx < targets@.len(),
        ensures
            eased@ == EasedView::settled_at(
                initial_target_idx as int,
                easing,
                duration as int,
                targets@,
            ),
            eased@.wf(),
            eased@.shows(targets@[initial_target_idx as int]),
            eased@.settled(),
    {
        Eased {
            easing,
            speed: speed_for(duration),
            target_idx: initial_target_idx,
            progress: UNIT,
            start: targets[initial_target_idx],
            targets: slice_to_vec(targets),
        }
    }

    /// Aims at the target `target_idx` and hands the value back.
    pub fn with_target_idx(self, target_idx: usize) -> (eased: Self)
        requires
            target_idx < self@.targets.len(),
        ensures
            self@.retargets_to(target_idx as int, eased@),
            eased@.wf(),
    {
        let mut eased = self;
        eased.set_target_idx(target_idx);
        eased
    }

    /// Set a new target index and start an animation from the *current*
    /// interpolated value.
    pub fn set_target_idx(&mut self, target_idx: usize)
        requires
            target_idx < old(self)@.targets.len(),
        ensures
            old(self)@.retargets_to(target_idx as int, final(self)@),
            final(self)@.wf(),
    {
        proof {
            use_type_invariant(&*self);
        }
        // If the new target equals the old target and we're already settled, nothing to do.
        if target_idx == self.target_idx && self.progress >= UNIT {
            return ;
        }
        self.start = self.get();
        self.progress = 0;
        self.target_idx = target_idx;
    }

    /// Whether a transition is under way.
    pub fn is_running(&self) -> (running: bool)
        ensures
            running == !self@.settled(),
            self@.wf(),
    {
        proof {
            use_type_invariant(self);
        }
        self.progress < UNIT
    }

    /// Advances a running transition by one tick.
    pub fn update(&mut self)
        ensures
            final(self)@ == old(self)@.updated(),
            final(self)@.wf(),
        no_unwind
    {
        proof {
            use_type_invariant(&*self);
        }
        if self.progress < UNIT {
            let advanced: u32 = self.progress + self.speed;
            self.progress = if advanced < UNIT { advanced } else { UNIT };
        }
    }

    /// The value on display.
    pub fn get(&self) -> (value: V)
        ensures
            self@.shows(value),
            self@.wf(),
    {
        proof {
            use_type_invariant(self);
        }
        if self.progress >= UNIT {
            self.targets[self.target_idx]
        } else if self.progress == 0 {
            self.start
        } else {
            let factor: u32 = self.easing.ease(self.progress);
            V::lerp(&self.start, &self.targets[self.target_idx], factor)
        }
    }

    /// The index of the target that is aimed at.
    pub fn target_idx(&self) -> (idx: usize)
        ensures
            idx == self@.target_idx,
            self@.wf(),
    {
        proof {
            use_type_invariant(self);
        }
        self.target_idx
    }
}

/// Computes the progress gained per tick for a transition of `duration`
/// milliseconds.
fn speed_for(duration: u32) -> (speed: u32)
    ensures
        speed == speed_spec(duration as int),
        1 <= speed <= UNIT,
{
    if duration == 0 {
        UNIT
    } else {
        let per_tick: u64 = ANIMATION_TICKRATE as u64;
        assert(per_tick * (UNIT as u64) == 16_000_000) by (nonlinear_arith)
            requires per_tick == 16, UNIT == 1_000_000;
        let raw: u64 = (per_tick * UNIT as u64) / duration as u64;
        if raw < 1 {
            1
        } else if raw > UNIT as u64 {
            UNIT
        } else {
            raw as u32
        }
    }
}

/// A settled value displays the target it aims at, exactly, and nothing else.
pub proof fn lemma_settled_value<V: Lerpable>(v: EasedView<V>, value: V)
    requires
        v.settled(),
    ensures
        v.shows(value) <==> value == v.end(),
{
}

/// A freshly constructed value rests on its initial target and is not running.
pub proof fn lemma_new_is_settled<V: Lerpable>(
    idx: int,
    easing: Easing,
    duration: int,
    targets: Seq<V>,
    value: V,
)
    requires
        0 <= idx < targets.len(),
    ensures
        EasedView::settled_at(idx, easing, duration, targets).wf(),
        EasedView::settled_at(idx, easing, duration, targets).settled(),
        EasedView::settled_at(idx, easing, duration, targets).shows(value) <==> value
            == targets[idx],
{
}

/// Once settled, a tick changes nothing: neither the state nor the value on
/// display, however often it is repeated.
pub proof fn lemma_update_settled_is_identity<V: Lerpable>(v: EasedView<V>, ticks: nat)
    requires
        v.settled(),
    ensures
        v.updated() == v,
        v.updated_by(ticks) == v,
    decreases ticks,
{
    if ticks > 0 {
        lemma_update_settled_is_identity(v, (ticks - 1) as nat);
    }
}

/// Aiming a settled value at the target it rests on starts no transition and
/// leaves the value as it is.
pub proof fn lemma_retarget_settled_is_identity<V: Lerpable>(v: EasedView<V>, after: EasedView<V>)
    requires
        v.settled(),
    ensures
        v.retargets_to(v.target_idx, after) <==> after == v,
{
}

/// Redirecting a value, at rest or in mid-transition, does not make it jump:
/// whatever it displays right after the redirection, it displayed before, and
/// a transition that was started begins there.
pub proof fn lemma_redirect_continuity<V: Lerpable>(
    v: EasedView<V>,
    idx: int,
    after: EasedView<V>,
    shown: V,
)
    requires
        v.wf(),
        0 <= idx < v.targets.len(),
        v.retargets_to(idx, after),
    ensures
        after.wf(),
        after.target_idx == idx,
        after.end() == v.targets[idx],
        after.shows(shown) ==> v.shows(shown),
        after != v ==> after.progress == 0 && v.shows(after.start) && after.shows(after.start),
{
}

/// A transition advances by its speed per tick and stops at one: after `ticks`
/// ticks the progress is the old progress plus `ticks` times the speed, capped.
pub proof fn lemma_updated_by_progress<V: Lerpable>(v: EasedView<V>, ticks: nat)
    requires
        v.wf(),
    ensures
        v.updated_by(ticks).wf(),
        v.updated_by(ticks) == (EasedView {
            progress: if v.progress + ticks * v.speed < UNIT {
                v.progress + ticks * v.speed
            } else {
                UNIT as int
            },
            ..v
        }),
    decreases ticks,
{
    if ticks == 0 {
        assert(ticks * v.speed == 0) by (nonlinear_arith)
            requires ticks == 0;
    } else {
        let next = v.updated();
        lemma_updated_by_progress(next, (ticks - 1) as nat);
        assert(ticks * v.speed == v.speed + (ticks - 1) * v.speed) by (nonlinear_arith);
        assert((ticks - 1) * v.speed >= 0) by (nonlinear_arith)
            requires ticks >= 1, v.speed >= 1;
        assert(next.speed == v.speed);
    }
}

/// Every transition comes to rest: a value is settled after as many ticks as
/// its speed needs to cover what is left, and displays its target from then on.
pub proof fn lemma_updates_settle<V: Lerpable>(v: EasedView<V>, ticks: nat)
    requires
        v.wf(),
        v.progress + ticks * v.speed >= UNIT,
    ensures
        v.updated_by(ticks).settled(),
        v.updated_by(ticks).shows(v.end()),
{
    lemma_updated_by_progress(v, ticks);
}

/// A scalar on its way displays the scalar blend of its start and its target
/// at the eased progress, at rest and at the start of a transition too.
pub proof fn lemma_scalar_shows(v: EasedView<i32>, value: i32)
    requires
        v.wf(),
        v.shows(value),
    ensures
        value == lerp_int(v.start as int, v.end() as int, v.easing.ease_spec(v.progress)),
{
    lemma_ease_ends(v.easing);
    lemma_ease_bounds(v.easing, v.progress);
    lemma_lerp_int_bounds(v.start as int, v.end() as int, 0);
}

} // verus!
