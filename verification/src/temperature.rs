//! Temperatures, target ranges and the sample generator.
//!
//! Temperatures are fixed-point numbers: an `i64` counts millionths of a degree.
//! The generator keeps an unclamped running value and yields, at each step, that
//! value moved away from a threshold whenever it comes too close to one.

use vstd::prelude::*;

use crate::outside::draw_between;

verus! {

/// One degree.
pub const DEGREE: i64 = 1_000_000;

/// A yielded value this close to a threshold, or closer, is moved away from it.
pub const BOUNDARY_MARGIN: i64 = 10_000;

/// How far inside (upper threshold) or beyond (lower threshold) a moved value lands.
pub const CLAMP_OFFSET: i64 = 11_000;

/// A draw is a signed fraction of the random range, in parts of this scale.
pub const JITTER_SCALE: i64 = 1_000_000;

/// Division that rounds toward zero, for a positive divisor.
pub open spec fn trunc_div(a: int, b: int) -> int {
    if a >= 0 {
        a / b
    } else {
        -((-a) / b)
    }
}

/// Absolute value.
pub open spec fn magnitude(x: int) -> int {
    if x >= 0 {
        x
    } else {
        -x
    }
}

/// Whether `value` lies within the boundary margin of `threshold`.
pub open spec fn near(value: int, threshold: int) -> bool {
    -BOUNDARY_MARGIN <= value - threshold <= BOUNDARY_MARGIN
}

/// Whether `draw` is a fraction the generator accepts: at least -100% and under 100%.
pub open spec fn valid_draw(draw: int) -> bool {
    -JITTER_SCALE <= draw < JITTER_SCALE
}

/// The perturbation that `draw` stands for when the random range is `random_range`.
pub open spec fn jitter(draw: int, random_range: int) -> int {
    trunc_div(draw * random_range, JITTER_SCALE as int)
}

/// Whether a running value that starts at `cur` stays an `i64` over `steps` steps
/// that each add `delta` and a perturbation of at most `random_range` in size.
pub open spec fn walk_fits(cur: int, delta: int, steps: int, random_range: int) -> bool {
    &&& i64::MIN <= cur <= i64::MAX
    &&& i64::MIN <= cur + steps * (delta - magnitude(random_range))
    &&& cur + steps * (delta + magnitude(random_range)) <= i64::MAX
}

/// The target interval of an experiment.
#[derive(Clone, Copy, Debug, PartialEq, Eq, Structural)]
pub struct TempRange {
    pub lower_threshold: i64,
    pub upper_threshold: i64,
}

impl TempRange {
    /// The thresholds are in order.
    pub open spec fn wf(self) -> bool {
        self.lower_threshold <= self.upper_threshold
    }

    pub open spec fn width(self) -> int {
        self.upper_threshold - self.lower_threshold
    }

    /// The stabilization target: the lower threshold plus half the width.
    pub open spec fn midpoint(self) -> int {
        self.lower_threshold + trunc_div(self.width(), 2)
    }

    /// Both values that a clamped sample can take are representable.
    pub open spec fn clamp_fits(self) -> bool {
        &&& self.upper_threshold - CLAMP_OFFSET >= i64::MIN
        &&& self.lower_threshold + CLAMP_OFFSET <= i64::MAX
    }

    /// The range is so narrow or so wide that moving a value away from one
    /// threshold cannot put it next to the other.
    pub open spec fn separable(self) -> bool {
        &&& self.wf()
        &&& (self.width() < CLAMP_OFFSET - BOUNDARY_MARGIN || self.width() > CLAMP_OFFSET
            + BOUNDARY_MARGIN)
    }

    /// What the generator yields for the running value `cur`.
    pub open spec fn emitted(self, cur: int) -> int {
        if near(cur, self.upper_threshold as int) {
            self.upper_threshold - CLAMP_OFFSET
        } else if near(cur, self.lower_threshold as int) {
            self.lower_threshold + CLAMP_OFFSET
        } else {
            cur
        }
    }

    /// Whether `value` lies farther than the boundary margin from both
    /// thresholds.
    pub open spec fn clears(self, value: int) -> bool {
        !near(value, self.upper_threshold as int) && !near(value, self.lower_threshold as int)
    }

    /// Whether `value` is below the lower or above the upper threshold.
    pub open spec fn excludes(self, value: int) -> bool {
        value > self.upper_threshold || value < self.lower_threshold
    }

    /// A range, unless the lower threshold exceeds the upper one.
    pub fn new(lower_threshold: i64, upper_threshold: i64) -> (r: Option<Self>)
        ensures
            lower_threshold > upper_threshold ==> r is None,
            lower_threshold <= upper_threshold ==> r == Some(
                (TempRange { lower_threshold, upper_threshold }),
            ),
    {
        if lower_threshold > upper_threshold {
            return None;
        }
        Some(TempRange { upper_threshold, lower_threshold })
    }

    /// The midpoint, computed without overflow for any two thresholds.
    pub fn target(&self) -> (mid: i64)
        ensures
            mid == self.midpoint(),
    {
        let width: i128 = self.upper_threshold as i128 - self.lower_threshold as i128;
        let half: i128 = div_toward_zero(width, 2);
        let mid: i128 = self.lower_threshold as i128 + half;
        mid as i64
    }

    /// Whether `clamp_fits` holds.
    pub fn can_clamp(&self) -> (b: bool)
        ensures
            b == self.clamp_fits(),
    {
        self.upper_threshold >= i64::MIN + CLAMP_OFFSET && self.lower_threshold <= i64::MAX
            - CLAMP_OFFSET
    }
}

/// Exec counterpart of `trunc_div`.
fn div_toward_zero(a: i128, b: i128) -> (q: i128)
    requires
        b > 0,
        a > i128::MIN,
    ensures
        q == trunc_div(a as int, b as int),
        a >= 0 ==> 0 <= q <= a,
        a <= 0 ==> a <= q <= 0,
{
    if a >= 0 {
        let q: i128 = a / b;
        proof {
            lemma_quotient_bounds(a as int, b as int);
        }
        q
    } else {
        let q: i128 = (-a) / b;
        proof {
            lemma_quotient_bounds(-(a as int), b as int);
        }
        -q
    }
}

/// For `a >= 0` and `b > 0`: `0 <= a / b <= a` and `b * (a / b) <= a < b * (a / b) + b`.
pub proof fn lemma_quotient_bounds(a: int, b: int)
    requires
        a >= 0,
        b > 0,
    ensures
        0 <= a / b <= a,
        b * (a / b) <= a < b * (a / b) + b,
{
    vstd::arithmetic::div_mod::lemma_fundamental_div_mod(a, b);
    vstd::arithmetic::div_mod::lemma_mod_bound(a, b);
    vstd::arithmetic::div_mod::lemma_div_pos_is_pos(a, b);
    let q = a / b;
    assert(q <= a) by (nonlinear_arith)
        requires
            b >= 1,
            q >= 0,
            b * q <= a,
    ;
}

/// The value a temperature reading has, with the range it is judged against.
#[derive(Clone, Copy, Debug, PartialEq, Eq, Structural)]
pub struct TemperatureSample {
    pub cur: i64,
    pub temp_range: TempRange,
}

impl TemperatureSample {
    pub fn new(cur: i64, temp_range: TempRange) -> (s: Self)
        ensures
            s == (TemperatureSample { cur, temp_range }),
    {
        TemperatureSample { cur, temp_range }
    }

    /// The per-step change with which `len` steps lead from `cur` to the midpoint.
    pub open spec fn stabilization_delta(self, len: nat) -> int {
        if len == 0 {
            0
        } else {
            trunc_div(self.temp_range.midpoint() - self.cur, len as int)
        }
    }

    /// The running value after `k` steps of a stabilization of `len` steps.
    pub open spec fn stabilized_after(self, len: nat, k: nat) -> int {
        self.cur + k * self.stabilization_delta(len)
    }

    pub fn is_out_of_range(&self) -> (b: bool)
        ensures
            b == self.temp_range.excludes(self.cur as int),
    {
        self.cur > self.temp_range.upper_threshold || self.cur < self.temp_range.lower_threshold
    }

    pub fn cur(&self) -> (c: i64)
        ensures
            c == self.cur,
    {
        self.cur
    }

    /// Whether `walk_fits` holds of this sample's value and the given walk.
    pub fn can_walk(&self, delta: i64, len: usize, random_range: i64) -> (b: bool)
        ensures
            b == walk_fits(self.cur as int, delta as int, len as int, random_range as int),
    {
        let reach: i128 = if random_range >= 0 {
            random_range as i128
        } else {
            -(random_range as i128)
        };
        let up: i128 = delta as i128 + reach;
        let down: i128 = delta as i128 - reach;
        let steps: i128 = len as i128;
        let room_up: i128 = i64::MAX as i128 - self.cur as i128;
        let room_down: i128 = self.cur as i128 - i64::MIN as i128;
        let fits_up = up <= 0 || steps <= div_toward_zero(room_up, up);
        let fits_down = down >= 0 || steps <= div_toward_zero(room_down, -down);
        proof {
            let s = len as int;
            if up > 0 {
                lemma_quotient_bounds(room_up as int, up as int);
                lemma_scaled_bound(s, up as int, room_up as int);
            } else {
                assert(s * (up as int) <= 0) by (nonlinear_arith)
                    requires
                        s >= 0,
                        up <= 0,
                ;
            }
            if down < 0 {
                lemma_quotient_bounds(room_down as int, -(down as int));
                lemma_scaled_bound(s, -(down as int), room_down as int);
                assert(s * (down as int) == -(s * (-(down as int)))) by (nonlinear_arith);
            } else {
                assert(s * (down as int) >= 0) by (nonlinear_arith)
                    requires
                        s >= 0,
                        down >= 0,
                ;
            }
        }
        fits_up && fits_down
    }

    /// Whether `stabilization_samples` takes this sample and `len`.
    pub fn can_stabilize(&self, len: usize) -> (b: bool)
        ensures
            b == (self.temp_range.clamp_fits() && i64::MIN <= self.stabilization_delta(len as nat)
                <= i64::MAX),
    {
        if !self.temp_range.can_clamp() {
            return false;
        }
        if len == 0 {
            return true;
        }
        let gap: i128 = self.temp_range.target() as i128 - self.cur as i128;
        let step: i128 = div_toward_zero(gap, len as i128);
        i64::MIN as i128 <= step && step <= i64::MAX as i128
    }

    /// Whether `carry_out_samples` takes this sample and `len`.
    pub fn can_carry_out(&self, len: usize) -> (b: bool)
        ensures
            b == (self.temp_range.clamp_fits() && i64::MIN <= self.temp_range.width() <= i64::MAX
                && walk_fits(self.cur as int, 0, len as int, self.temp_range.width())),
    {
        let width: i128 = self.temp_range.upper_threshold as i128
            - self.temp_range.lower_threshold as i128;
        if !self.temp_range.can_clamp() || width < i64::MIN as i128 || width > i64::MAX as i128 {
            return false;
        }
        self.can_walk(0, len, width as i64)
    }

    /// A generator that borrows this sample and advances it `len` times by `delta`
    /// plus a perturbation of at most `random_range`.
    pub fn iter_mut(&mut self, delta: i64, len: usize, random_range: i64) -> (it: IterMut<'_>)
        requires
            old(self).temp_range.clamp_fits(),
            walk_fits(old(self).cur as int, delta as int, len as int, random_range as int),
        ensures
            it.wf(),
            *it.sample == *old(self),
            *final(it.sample) == *final(self),
            it.delta == delta,
            it.len == len,
            it.iteration == 0,
            it.random_range == random_range,
    {
        IterMut { sample: self, iteration: 0, delta, len, random_range }
    }

    /// The generator of the stabilization stage: `len` equal steps toward the
    /// midpoint of the range, without perturbation.
    pub fn stabilization_samples(&mut self, len: usize) -> (it: IterMut<'_>)
        requires
            old(self).temp_range.clamp_fits(),
            i64::MIN <= old(self).stabilization_delta(len as nat) <= i64::MAX,
        ensures
            it.wf(),
            *it.sample == *old(self),
            *final(it.sample) == *final(self),
            it.delta == old(self).stabilization_delta(len as nat),
            it.len == len,
            it.iteration == 0,
            it.random_range == 0,
    {
        let final_temperature: i64 = self.temp_range.target();
        let delta: i64 = if len == 0 {
            0
        } else {
            let gap: i128 = final_temperature as i128 - self.cur as i128;
            let step: i128 = div_toward_zero(gap, len as i128);
            proof {
                lemma_steps_stay_short(gap as int, len as int, len as int);
            }
            step as i64
        };
        self.iter_mut(delta, len, 0)
    }

    /// The generator of the carry-out stage: `len` steps that each add a
    /// perturbation of at most the width of the range.
    pub fn carry_out_samples(&mut self, len: usize) -> (it: IterMut<'_>)
        requires
            old(self).temp_range.clamp_fits(),
            i64::MIN <= old(self).temp_range.width() <= i64::MAX,
            walk_fits(old(self).cur as int, 0, len as int, old(self).temp_range.width()),
        ensures
            it.wf(),
            *it.sample == *old(self),
            *final(it.sample) == *final(self),
            it.delta == 0,
            it.len == len,
            it.iteration == 0,
            it.random_range == old(self).temp_range.width(),
    {
        let random_range: i64 = self.temp_range.upper_threshold - self.temp_range.lower_threshold;
        self.iter_mut(0, len, random_range)
    }
}

/// `k * trunc_div(a, n)` lies between 0 and `a` for `0 <= k <= n`.
pub proof fn lemma_steps_stay_short(a: int, n: int, k: int)
    requires
        n > 0,
        0 <= k <= n,
    ensures
        a >= 0 ==> 0 <= k * trunc_div(a, n) <= a,
        a <= 0 ==> a <= k * trunc_div(a, n) <= 0,
{
    if a >= 0 {
        lemma_quotient_bounds(a, n);
        let q = a / n;
        assert(0 <= k * q <= n * q) by (nonlinear_arith)
            requires
                0 <= k <= n,
                q >= 0,
        ;
    } else {
        lemma_quotient_bounds(-a, n);
        let q = (-a) / n;
        assert(0 <= k * q <= n * q) by (nonlinear_arith)
            requires
                0 <= k <= n,
                q >= 0,
        ;
        assert(k * (-q) == -(k * q)) by (nonlinear_arith);
    }
}

/// For `up > 0` and `room >= 0`: `steps <= room / up` exactly when `steps * up <= room`.
proof fn lemma_scaled_bound(steps: int, up: int, room: int)
    requires
        steps >= 0,
        up > 0,
        room >= 0,
    ensures
        steps <= room / up <==> steps * up <= room,
{
    lemma_quotient_bounds(room, up);
    let q = room / up;
    if steps <= q {
        assert(steps * up <= up * q) by (nonlinear_arith)
            requires
                0 <= steps <= q,
                up > 0,
        ;
    } else {
        assert(steps * up >= up * q + up) by (nonlinear_arith)
            requires
                steps >= q + 1,
                up > 0,
        ;
    }
}

/// A single-pass generator of temperature samples over a borrowed sample.
pub struct IterMut<'a> {
    pub sample: &'a mut TemperatureSample,
    pub delta: i64,
    pub len: usize,
    pub iteration: usize,
    pub random_range: i64,
}

impl<'a> IterMut<'a> {
    /// The steps taken do not exceed the length, a clamped value is representable,
    /// and the running value stays an `i64` over the steps that remain.
    pub open spec fn wf(&self) -> bool {
        &&& self.iteration <= self.len
        &&& self.sample.temp_range.clamp_fits()
        &&& walk_fits(
            self.sample.cur as int,
            self.delta as int,
            self.len - self.iteration,
            self.random_range as int,
        )
    }

    /// `self` is `before` one step later, the step's fraction being `draw`.
    pub open spec fn follows(&self, before: &Self, draw: int) -> bool {
        &&& self.delta == before.delta
        &&& self.len == before.len
        &&& self.random_range == before.random_range
        &&& self.sample.temp_range == before.sample.temp_range
        &&& self.iteration == before.iteration + 1
        &&& self.sample.cur == before.sample.cur + before.delta + jitter(
            draw,
            before.random_range as int,
        )
    }

    /// `self` and `before` hold the same values.
    pub open spec fn same_state(&self, before: &Self) -> bool {
        &&& self.delta == before.delta
        &&& self.len == before.len
        &&& self.random_range == before.random_range
        &&& self.iteration == before.iteration
        &&& *self.sample == *before.sample
    }

    /// The sample that the generator yields in its present state.
    pub open spec fn yielded(&self) -> TemperatureSample {
        TemperatureSample {
            cur: self.sample.temp_range.emitted(self.sample.cur as int) as i64,
            temp_range: self.sample.temp_range,
        }
    }

    /// Takes one step with the given fraction of the random range and yields the
    /// sample: the new running value, moved away from a threshold it is near to.
    pub fn next_with(&mut self, draw: i64) -> (r: TemperatureSample)
        requires
            old(self).wf(),
            old(self).iteration < old(self).len,
            valid_draw(draw as int),
        ensures
            final(self).wf(),
            *final(final(self).sample) == *final(old(self).sample),
            final(self).follows(old(self), draw as int),
            r == final(self).yielded(),
            r.cur == r.temp_range.emitted(final(self).sample.cur as int),
            r.temp_range.separable() ==> r.temp_range.clears(r.cur as int),
    {
        proof {
            lemma_jitter_within_range(draw as int, self.random_range as int);
        }
        let product: i128 = (draw as i128) * (self.random_range as i128);
        let absolute_val: i128 = div_toward_zero(product, JITTER_SCALE as i128);
        proof {
            lemma_one_step_fits(
                self.sample.cur as int,
                self.delta as int,
                self.len - self.iteration,
                self.random_range as int,
                absolute_val as int,
            );
        }
        let moved: i128 = self.sample.cur as i128 + self.delta as i128 + absolute_val;
        self.sample.cur = moved as i64;
        self.iteration = self.iteration + 1;
        let range = self.sample.temp_range;
        let to_upper: i128 = moved - range.upper_threshold as i128;
        let to_lower: i128 = moved - range.lower_threshold as i128;
        let ret = if -(BOUNDARY_MARGIN as i128) <= to_upper && to_upper <= BOUNDARY_MARGIN as i128 {
            TemperatureSample { cur: range.upper_threshold - CLAMP_OFFSET, temp_range: range }
        } else if -(BOUNDARY_MARGIN as i128) <= to_lower && to_lower <= BOUNDARY_MARGIN as i128 {
            TemperatureSample { cur: range.lower_threshold + CLAMP_OFFSET, temp_range: range }
        } else {
            *self.sample
        };
        proof {
            if range.separable() {
                lemma_emitted_clears_thresholds(range, moved as int);
            }
        }
        ret
    }

    /// Yields the next sample, or `None` once `len` samples were yielded. The
    /// fraction of the random range is drawn at random; with a random range of
    /// zero nothing is drawn.
    pub fn next(&mut self) -> (r: Option<TemperatureSample>)
        requires
            old(self).wf(),
        ensures
            final(self).wf(),
            *final(final(self).sample) == *final(old(self).sample),
            old(self).iteration >= old(self).len ==> r is None && final(self).same_state(old(self)),
            old(self).iteration < old(self).len ==> r == Some(final(self).yielded()) && exists|
                draw: int,
            |
                valid_draw(draw) && #[trigger] final(self).follows(old(self), draw),
            old(self).iteration < old(self).len && old(self).random_range == 0 ==> final(self).follows(
                old(self),
                0,
            ),
            r matches Some(s) ==> (s.temp_range.separable() ==> s.temp_range.clears(s.cur as int)),
    {
        if self.iteration >= self.len {
            return None;
        }
        let draw: i64 = if self.random_range != 0 {
            draw_between(-JITTER_SCALE, JITTER_SCALE)
        } else {
            0
        };
        let ret = self.next_with(draw);
        proof {
            if self.random_range == 0 {
                lemma_no_jitter_without_range(draw as int);
            }
        }
        Some(ret)
    }
}

/// A perturbation is no larger than the random range it is a fraction of.
pub proof fn lemma_jitter_within_range(draw: int, random_range: int)
    requires
        valid_draw(draw),
    ensures
        magnitude(jitter(draw, random_range)) <= magnitude(random_range),
        magnitude(draw * random_range) <= JITTER_SCALE * magnitude(random_range),
{
    let p = draw * random_range;
    let m = magnitude(random_range);
    assert(magnitude(p) <= JITTER_SCALE * m) by (nonlinear_arith)
        requires
            -JITTER_SCALE <= draw < JITTER_SCALE,
            p == draw * random_range,
            m == magnitude(random_range),
    ;
    let a = magnitude(p);
    lemma_quotient_bounds(a, JITTER_SCALE as int);
    let q = a / (JITTER_SCALE as int);
    assert(q <= m) by (nonlinear_arith)
        requires
            JITTER_SCALE * q <= a,
            a <= JITTER_SCALE * m,
            JITTER_SCALE > 0,
    ;
}

/// One step of a walk that fits stays an `i64`, and the rest of the walk fits.
proof fn lemma_one_step_fits(cur: int, delta: int, steps: int, random_range: int, moved_by: int)
    requires
        steps >= 1,
        walk_fits(cur, delta, steps, random_range),
        magnitude(moved_by) <= magnitude(random_range),
    ensures
        walk_fits(cur + delta + moved_by, delta, steps - 1, random_range),
{
    let reach = magnitude(random_range);
    let up = delta + reach;
    let down = delta - reach;
    assert(steps * up == (steps - 1) * up + up) by (nonlinear_arith);
    assert(steps * down == (steps - 1) * down + down) by (nonlinear_arith);
    if up >= 0 {
        assert((steps - 1) * up >= 0) by (nonlinear_arith)
            requires
                steps >= 1,
                up >= 0,
        ;
    }
    if down <= 0 {
        assert((steps - 1) * down <= 0) by (nonlinear_arith)
            requires
                steps >= 1,
                down <= 0,
        ;
    }
    if up < 0 {
        assert((steps - 1) * up <= 0) by (nonlinear_arith)
            requires
                steps >= 1,
                up < 0,
        ;
    }
    if down > 0 {
        assert((steps - 1) * down >= 0) by (nonlinear_arith)
            requires
                steps >= 1,
                down > 0,
        ;
    }
}

/// No yielded value lies within the boundary margin of either threshold,
/// whatever the running value, as long as the range is separable.
pub proof fn lemma_emitted_clears_thresholds(range: TempRange, cur: int)
    requires
        range.separable(),
    ensures
        range.clears(range.emitted(cur)),
{
}

/// Without a random range there is no perturbation, whatever is drawn.
pub proof fn lemma_no_jitter_without_range(draw: int)
    ensures
        jitter(draw, 0) == 0,
{
}

/// In a stabilization, each step takes the running value toward the midpoint of
/// the range and never past it: the distance to the midpoint does not grow, and
/// it shrinks whenever the per-step change is not zero.
pub proof fn lemma_stabilization_converges(start: TemperatureSample, len: nat, k: nat)
    requires
        k < len,
    ensures
        magnitude(start.temp_range.midpoint() - start.stabilized_after(len, (k + 1) as nat)) <= magnitude(
            start.temp_range.midpoint() - start.stabilized_after(len, k),
        ),
        start.stabilization_delta(len) != 0 ==> magnitude(
            start.temp_range.midpoint() - start.stabilized_after(len, (k + 1) as nat),
        ) < magnitude(start.temp_range.midpoint() - start.stabilized_after(len, k)),
        start.cur <= start.temp_range.midpoint() ==> start.stabilized_after(len, k)
            <= start.stabilized_after(len, (k + 1) as nat) <= start.temp_range.midpoint(),
        start.cur >= start.temp_range.midpoint() ==> start.stabilized_after(len, k)
            >= start.stabilized_after(len, (k + 1) as nat) >= start.temp_range.midpoint(),
{
    let gap = start.temp_range.midpoint() - start.cur;
    let delta = start.stabilization_delta(len);
    lemma_steps_stay_short(gap, len as int, k as int);
    lemma_steps_stay_short(gap, len as int, k as int + 1);
    lemma_steps_stay_short(gap, len as int, 1);
    assert((k + 1) * delta == k * delta + delta) by (nonlinear_arith);
}

/// A stabilization of `len` steps ends less than `len` units from the midpoint:
/// what the division of the gap into equal steps leaves over.
pub proof fn lemma_stabilization_reaches_midpoint(start: TemperatureSample, len: nat)
    requires
        len >= 1,
    ensures
        magnitude(start.temp_range.midpoint() - start.stabilized_after(len, len)) < len,
{
    let gap = start.temp_range.midpoint() - start.cur;
    if gap >= 0 {
        lemma_quotient_bounds(gap, len as int);
    } else {
        lemma_quotient_bounds(-gap, len as int);
        let q = (-gap) / (len as int);
        assert(len * (-q) == -(len * q)) by (nonlinear_arith);
    }
}

/// A stabilization that starts inside the range stays inside it, and all its
/// steps together cover at most half the width, rounded up; so each step is
/// shorter than the width divided by the number of steps, unless the range is
/// narrower than two units.
pub proof fn lemma_stabilization_stays_inside(start: TemperatureSample, len: nat, k: nat)
    requires
        start.temp_range.wf(),
        !start.temp_range.excludes(start.cur as int),
        len >= 1,
        k <= len,
    ensures
        !start.temp_range.excludes(start.stabilized_after(len, k)),
        2 * (len * magnitude(start.stabilization_delta(len))) <= start.temp_range.width() + 1,
        start.temp_range.width() >= 2 ==> len * magnitude(start.stabilization_delta(len))
            < start.temp_range.width(),
{
    let range = start.temp_range;
    let gap = range.midpoint() - start.cur;
    let delta = start.stabilization_delta(len);
    lemma_quotient_bounds(range.width(), 2);
    lemma_steps_stay_short(gap, len as int, k as int);
    lemma_steps_stay_short(gap, len as int, len as int);
    assert(len * magnitude(delta) == magnitude(len * delta)) by (nonlinear_arith)
        requires
            len >= 0,
    ;
}

} // verus!
