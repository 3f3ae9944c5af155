//! Interpolation curves over one phase of an animation.
//!
//! Values are fixed-point integers: a value `v` stands for `v * 10^-decimal_places`,
//! so rounding an interpolated value to the configured number of decimal places
//! is rounding it to the nearest integer. Offsets are computed on the magnitude of
//! the distance to travel and rounded half up.
use vstd::prelude::*;
use vstd::arithmetic::div_mod::{lemma_div_is_ordered, lemma_fundamental_div_mod};

verus! {

/// The largest magnitude of a value that a phase starts from or ends at.
pub const MAX_PHASE_VALUE: i64 = 2_000_000_000_000_000;

/// One contiguous timed segment of an animation.
#[derive(Clone, Copy, Debug, PartialEq, Eq, Structural)]
pub struct Phase {
    pub start: i64,
    pub end: i64,
    pub duration_ms: u32,
    /// Whether the phase follows the ease-out curve rather than the linear one.
    pub eased: bool,
}

pub open spec fn in_phase_range(v: int) -> bool {
    -MAX_PHASE_VALUE <= v <= MAX_PHASE_VALUE
}

impl Phase {
    pub open spec fn in_range(self) -> bool {
        in_phase_range(self.start as int) && in_phase_range(self.end as int)
    }

    /// A phase counts down when it starts above its end.
    pub open spec fn counts_down(self) -> bool {
        self.start > self.end
    }

    /// `v` lies between the phase's start and end, both included.
    pub open spec fn spans(self, v: int) -> bool {
        if self.counts_down() {
            self.end <= v <= self.start
        } else {
            self.start <= v <= self.end
        }
    }
}

/// The value that phase `p` shows `t` milliseconds after it began: the end
/// value once the duration has passed, else the start moved toward the end by
/// the curve's offset.
pub open spec fn phase_value(p: Phase, t: int) -> int {
    if t >= p.duration_ms {
        p.end as int
    } else if p.counts_down() {
        p.start - offset(p.eased, p.start - p.end, t, p.duration_ms as int)
    } else {
        p.start + offset(p.eased, p.end - p.start, t, p.duration_ms as int)
    }
}

/// Linear offset after `t` of `d` milliseconds over a distance `c`:
/// `c * t / d`, rounded to the nearest integer.
pub open spec fn linear_offset(c: int, t: int, d: int) -> int {
    (2 * c * t + d) / (2 * d)
}

/// Quadratic ease-out offset after `t` of `d` milliseconds over a distance `c`:
/// `c * (1 - (1 - t/d)^2)`, rounded to the nearest integer.
pub open spec fn eased_offset(c: int, t: int, d: int) -> int {
    (2 * c * t * (2 * d - t) + d * d) / (2 * d * d)
}

/// The offset of the chosen curve.
pub open spec fn offset(eased: bool, c: int, t: int, d: int) -> int {
    if eased {
        eased_offset(c, t, d)
    } else {
        linear_offset(c, t, d)
    }
}

/// `x / k <= q` whenever `x < k * (q + 1)`.
proof fn lemma_div_below(x: int, k: int, q: int)
    requires
        0 <= x,
        0 < k,
        0 <= q,
        x < k * (q + 1),
    ensures
        x / k <= q,
{
    lemma_fundamental_div_mod(x, k);
    assert(x / k <= q) by (nonlinear_arith)
        requires
            x == k * (x / k) + x % k,
            0 <= x % k,
            x < k * (q + 1),
            0 < k,
    {
        if x / k > q {
            assert(k * (x / k) >= k * (q + 1));
        }
    }
}

/// Both curves start at zero, end at the full distance and never go past it.
pub proof fn lemma_offset_bounds(eased: bool, c: int, t: int, d: int)
    requires
        0 <= c,
        0 <= t <= d,
        0 < d,
    ensures
        0 <= offset(eased, c, t, d) <= c,
        offset(eased, c, 0, d) == 0,
        offset(eased, c, d, d) == c,
{
    assert(0 <= 2 * c * t) by (nonlinear_arith)
        requires 0 <= c, 0 <= t;
    assert(2 * c * t <= 2 * c * d) by (nonlinear_arith)
        requires 0 <= c, t <= d;
    assert(0 <= 2 * c * t * (2 * d - t)) by (nonlinear_arith)
        requires 0 <= c, 0 <= t <= d;
    assert(2 * c * t * (2 * d - t) <= 2 * c * d * d) by (nonlinear_arith)
        requires 0 <= c, 0 <= t <= d;
    assert(0 < d * d) by (nonlinear_arith)
        requires 0 < d;
    assert(0 < 2 * d * d) by (nonlinear_arith)
        requires 0 < d;
    assert(2 * c * t + d < 2 * d * (c + 1)) by (nonlinear_arith)
        requires 2 * c * t <= 2 * c * d, 0 < d;
    assert(2 * c * t * (2 * d - t) + d * d < 2 * d * d * (c + 1)) by (nonlinear_arith)
        requires 2 * c * t * (2 * d - t) <= 2 * c * d * d, 0 < d * d;
    assert(d < 2 * d * (0 + 1)) by (nonlinear_arith)
        requires 0 < d;
    assert(d * d < 2 * d * d * (0 + 1)) by (nonlinear_arith)
        requires 0 < d * d;
    assert(2 * c * 0 == 0);
    assert(2 * c * 0 * (2 * d - 0) == 0);
    assert(2 * c * d * (2 * d - d) == 2 * c * d * d) by (nonlinear_arith);
    lemma_div_is_ordered(0, 2 * c * t + d, 2 * d);
    lemma_div_below(2 * c * t + d, 2 * d, c);
    lemma_div_is_ordered(0, 2 * c * t * (2 * d - t) + d * d, 2 * d * d);
    lemma_div_below(2 * c * t * (2 * d - t) + d * d, 2 * d * d, c);
    lemma_div_below(d, 2 * d, 0);
    lemma_div_below(d * d, 2 * d * d, 0);
    lemma_div_is_ordered(0, d, 2 * d);
    lemma_div_is_ordered(0, d * d, 2 * d * d);
    lemma_fundamental_div_mod(2 * c * d + d, 2 * d);
    lemma_fundamental_div_mod(2 * c * d * d + d * d, 2 * d * d);
    assert((2 * c * d + d) / (2 * d) == c) by (nonlinear_arith)
        requires
            2 * c * d + d == (2 * d) * ((2 * c * d + d) / (2 * d)) + (2 * c * d + d) % (2 * d),
            0 <= (2 * c * d + d) % (2 * d) < 2 * d,
            0 < d,
    ;
    assert((2 * c * d * d + d * d) / (2 * d * d) == c) by (nonlinear_arith)
        requires
            2 * c * d * d + d * d == (2 * d * d) * ((2 * c * d * d + d * d) / (2 * d * d))
                + (2 * c * d * d + d * d) % (2 * d * d),
            0 <= (2 * c * d * d + d * d) % (2 * d * d) < 2 * d * d,
            0 < d * d,
    ;
}

/// A phase never shows a value outside the span from its start to its end,
/// and once its duration has passed it shows its end exactly.
pub proof fn lemma_phase_value_spans(p: Phase, t: int)
    requires
        0 <= t,
    ensures
        p.spans(phase_value(p, t)),
        t >= p.duration_ms ==> phase_value(p, t) == p.end,
        t == 0 && p.duration_ms > 0 ==> phase_value(p, t) == p.start,
{
    if t < p.duration_ms {
        let c = if p.counts_down() { p.start - p.end } else { p.end - p.start };
        lemma_offset_bounds(p.eased, c, t, p.duration_ms as int);
    }
}

/// Within one phase the shown value moves only toward the end: it never
/// decreases in a phase that counts up, and never increases in one that counts
/// down.
pub proof fn lemma_phase_value_monotonic(p: Phase, t1: int, t2: int)
    requires
        0 <= t1 <= t2,
    ensures
        !p.counts_down() ==> phase_value(p, t1) <= phase_value(p, t2),
        p.counts_down() ==> phase_value(p, t1) >= phase_value(p, t2),
{
    lemma_phase_value_spans(p, t1);
    lemma_phase_value_spans(p, t2);
    let d = p.duration_ms as int;
    let c = if p.counts_down() { p.start - p.end } else { p.end - p.start };
    if t2 < d {
        lemma_offset_monotonic(p.eased, c, t1, t2, d);
    }
}

/// Both curves are non-decreasing in time.
pub proof fn lemma_offset_monotonic(eased: bool, c: int, t1: int, t2: int, d: int)
    requires
        0 <= c,
        0 <= t1 <= t2 <= d,
        0 < d,
    ensures
        offset(eased, c, t1, d) <= offset(eased, c, t2, d),
{
    assert(2 * c * t1 <= 2 * c * t2) by (nonlinear_arith)
        requires 0 <= c, t1 <= t2;
    assert(2 * c * t1 * (2 * d - t1) <= 2 * c * t2 * (2 * d - t2)) by (nonlinear_arith)
        requires 0 <= c, 0 <= t1 <= t2 <= d;
    assert(0 < 2 * d * d) by (nonlinear_arith)
        requires 0 < d;
    lemma_div_is_ordered(2 * c * t1 + d, 2 * c * t2 + d, 2 * d);
    lemma_div_is_ordered(2 * c * t1 * (2 * d - t1) + d * d, 2 * c * t2 * (2 * d - t2) + d * d, 2 * d * d);
}

/// The offset of the chosen curve, computed on 128-bit intermediates.
fn offset_exec(eased: bool, c: u64, t: u32, d: u32) -> (r: u64)
    requires
        c <= 2 * MAX_PHASE_VALUE,
        t < d,
    ensures
        r == offset(eased, c as int, t as int, d as int),
        r <= c,
{
    proof {
        lemma_offset_bounds(eased, c as int, t as int, d as int);
    }
    let c128 = c as u128;
    let t128 = t as u128;
    let d128 = d as u128;
    if eased {
        assert(2 * c128 * t128 <= 2 * 4_000_000_000_000_000 * 4_294_967_295) by (nonlinear_arith)
            requires c128 <= 4_000_000_000_000_000, t128 <= 4_294_967_295;
        assert(2 * c128 * t128 * (2 * d128 - t128) <= 2 * 4_000_000_000_000_000 * 4_294_967_295 * 8_589_934_590)
            by (nonlinear_arith)
            requires
                2 * c128 * t128 <= 2 * 4_000_000_000_000_000 * 4_294_967_295,
                0 <= 2 * d128 - t128 <= 8_589_934_590,
        ;
        assert(d128 * d128 <= 4_294_967_295 * 4_294_967_295) by (nonlinear_arith)
            requires d128 <= 4_294_967_295;
        assert(0 < d128 * d128) by (nonlinear_arith)
            requires 0 < d128;
        let dd: u128 = d128 * d128;
        let num: u128 = 2 * c128 * t128 * (2 * d128 - t128) + dd;
        let den: u128 = 2 * dd;
        assert(den == 2 * d128 * d128) by (nonlinear_arith)
            requires dd == d128 * d128, den == 2 * dd;
        (num / den) as u64
    } else {
        assert(2 * c128 * t128 <= 2 * 4_000_000_000_000_000 * 4_294_967_295) by (nonlinear_arith)
            requires c128 <= 4_000_000_000_000_000, t128 <= 4_294_967_295;
        let num: u128 = 2 * c128 * t128 + d128;
        let den: u128 = 2 * d128;
        (num / den) as u64
    }
}

impl Phase {
    /// The value that this phase shows `t` milliseconds after it began.
    pub fn value_at(&self, t: u64) -> (r: i64)
        requires
            self.in_range(),
        ensures
            r == phase_value(*self, t as int),
            self.spans(r as int),
    {
        proof {
            lemma_phase_value_spans(*self, t as int);
        }
        if t >= self.duration_ms as u64 {
            self.end
        } else if self.start > self.end {
            let c = (self.start - self.end) as u64;
            let off = offset_exec(self.eased, c, t as u32, self.duration_ms);
            self.start - off as i64
        } else {
            let c = (self.end - self.start) as u64;
            let off = offset_exec(self.eased, c, t as u32, self.duration_ms);
            self.start + off as i64
        }
    }
}

} // verus!
