//! Interpolated path for a drag: one step for every started ten pixels of distance.
use vstd::prelude::*;

verus! {

/// Whether `n` is the number of steps for a displacement of `(dx, dy)`: the least
/// `n >= 1` with `10 * n >= sqrt(dx * dx + dy * dy)`, that is `ceil(distance / 10)`
/// but at least one.
pub open spec fn is_step_count(n: int, dx: int, dy: int) -> bool {
    &&& n >= 1
    &&& 100 * n * n >= dx * dx + dy * dy
    &&& (n == 1 || 100 * (n - 1) * (n - 1) < dx * dx + dy * dy)
}

/// `a / n` rounded toward zero.
pub open spec fn trunc_div(a: int, n: int) -> int {
    if a >= 0 {
        a / n
    } else {
        -((-a) / n)
    }
}

/// The relative displacement of each step.
pub open spec fn step_of(dx: int, dy: int, n: int) -> (int, int) {
    (trunc_div(dx, n), trunc_div(dy, n))
}

/// Bound on each coordinate difference that the planner accepts: any two `i32`
/// coordinates, or an `i32` and a `u32` read as `i32`, differ by less.
pub open spec fn in_plan_range(d: int) -> bool {
    -0x1_0000_0000 <= d <= 0x1_0000_0000
}

proof fn lemma_square_bound(a: int, b: int)
    requires
        0 <= a <= b,
    ensures
        a * a <= b * b,
{
    assert(a * a <= a * b) by (nonlinear_arith)
        requires
            0 <= a <= b,
    ;
    assert(a * b <= b * b) by (nonlinear_arith)
        requires
            0 <= a <= b,
    ;
}

/// A step never moves more than ten pixels along either axis.
pub proof fn lemma_step_small(n: int, dx: int, dy: int)
    requires
        is_step_count(n, dx, dy),
    ensures
        -10 <= trunc_div(dx, n) <= 10,
        -10 <= trunc_div(dy, n) <= 10,
{
    lemma_axis_small(n, dx, dy);
    lemma_axis_small(n, dy, dx);
}

proof fn lemma_axis_small(n: int, a: int, b: int)
    requires
        n >= 1,
        100 * n * n >= a * a + b * b,
    ensures
        -10 <= trunc_div(a, n) <= 10,
{
    let m = if a >= 0 { a } else { -a };
    assert(m * m == a * a) by (nonlinear_arith)
        requires
            m == a || m == -a,
    ;
    assert(b * b >= 0) by (nonlinear_arith);
    if m > 10 * n {
        lemma_square_bound(10 * n, m);
        assert((10 * n) * (10 * n) == 100 * n * n) by (nonlinear_arith);
        assert(m * m >= 100 * n * n);
        assert(m * m == 100 * n * n);
        lemma_square_bound(10 * n + 1, m);
        assert((10 * n + 1) * (10 * n + 1) > 100 * n * n) by (nonlinear_arith)
            requires
                n >= 1,
        ;
    }
    assert(m <= 10 * n);
    assert(m / n <= 10) by (nonlinear_arith)
        requires
            0 <= m <= 10 * n,
            n >= 1,
    ;
    assert(m / n >= 0) by (nonlinear_arith)
        requires
            0 <= m,
            n >= 1,
    ;
}

/// The number of steps for a displacement of `(dx, dy)`.
pub fn step_count(dx: i64, dy: i64) -> (n: u64)
    requires
        in_plan_range(dx as int),
        in_plan_range(dy as int),
    ensures
        is_step_count(n as int, dx as int, dy as int),
        n <= 0x2_0000_0000,
{
    let ax: u128 = if dx < 0 { (-dx) as u128 } else { dx as u128 };
    let ay: u128 = if dy < 0 { (-dy) as u128 } else { dy as u128 };
    proof {
        lemma_square_bound(ax as int, 0x1_0000_0000);
        lemma_square_bound(ay as int, 0x1_0000_0000);
        assert(ax * ax == dx * dx) by (nonlinear_arith)
            requires
                ax == dx || ax == -dx,
        ;
        assert(ay * ay == dy * dy) by (nonlinear_arith)
            requires
                ay == dy || ay == -dy,
        ;
    }
    let d2: u128 = ax * ax + ay * ay;
    let mut lo: u128 = 0;
    let mut hi: u128 = 0x2_0000_0000;
    assert(100 * hi * hi >= d2) by (nonlinear_arith)
        requires
            hi == 0x2_0000_0000,
            d2 <= 0x2_0000_0000_0000_0000,
    ;
    while hi - lo > 1
        invariant
            lo < hi <= 0x2_0000_0000,
            lo == 0 || 100 * lo * lo < d2,
            100 * hi * hi >= d2,
            d2 == dx * dx + dy * dy,
        decreases hi - lo,
    {
        let mid = lo + (hi - lo) / 2;
        proof {
            lemma_square_bound(mid as int, 0x2_0000_0000);
        }
        let sq = 100 * (mid * mid);
        assert(sq == 100 * mid * mid) by (nonlinear_arith)
            requires
                sq == 100 * (mid * mid),
        ;
        if sq >= d2 {
            hi = mid;
        } else {
            lo = mid;
        }
    }
    assert(hi == lo + 1);
    hi as u64
}

/// Rounds `a / n` toward zero.
fn div_toward_zero(a: i64, n: u64) -> (r: i64)
    requires
        n >= 1,
        in_plan_range(a as int),
    ensures
        r == trunc_div(a as int, n as int),
{
    if a >= 0 {
        assert((a as u64) / n <= a as u64) by (nonlinear_arith)
            requires
                n >= 1,
        ;
        ((a as u64) / n) as i64
    } else {
        let m = (-a) as u64;
        assert(m / n <= m) by (nonlinear_arith)
            requires
                n >= 1,
        ;
        -((m / n) as i64)
    }
}

/// The displacement of each step of a path with `n` steps for `(dx, dy)`.
pub fn step_displacement(dx: i64, dy: i64, n: u64) -> (r: (i32, i32))
    requires
        is_step_count(n as int, dx as int, dy as int),
        in_plan_range(dx as int),
        in_plan_range(dy as int),
    ensures
        r.0 == step_of(dx as int, dy as int, n as int).0,
        r.1 == step_of(dx as int, dy as int, n as int).1,
        -10 <= r.0 <= 10,
        -10 <= r.1 <= 10,
{
    let sx = div_toward_zero(dx, n);
    let sy = div_toward_zero(dy, n);
    proof {
        lemma_step_small(n as int, dx as int, dy as int);
    }
    (sx as i32, sy as i32)
}

/// The drag path planner.
pub struct DragPathPlanner;

impl DragPathPlanner {
    /// The relative displacements that lead from `start` toward `end`: as many as the
    /// step count, each the displacement divided by it and rounded toward zero. The
    /// last one is realised as an absolute move to `end`, which removes rounding drift.
    pub fn plan(start: (i32, i32), end: (i32, i32)) -> (r: Vec<(i32, i32)>)
        ensures
            is_step_count(r@.len() as int, end.0 - start.0, end.1 - start.1),
            forall|i: int|
                0 <= i < r@.len() ==> (#[trigger] r@[i]).0 == step_of(end.0 - start.0, end.1 - start.1, r@.len() as int).0
                    && r@[i].1 == step_of(end.0 - start.0, end.1 - start.1, r@.len() as int).1,
    {
        let dx = end.0 as i64 - start.0 as i64;
        let dy = end.1 as i64 - start.1 as i64;
        let n = step_count(dx, dy);
        let step = step_displacement(dx, dy, n);
        let mut r: Vec<(i32, i32)> = Vec::new();
        let mut i: u64 = 0;
        while i < n
            invariant
                i <= n,
                r@.len() == i,
                step.0 == step_of(dx as int, dy as int, n as int).0,
                step.1 == step_of(dx as int, dy as int, n as int).1,
                forall|j: int| 0 <= j < r@.len() ==> #[trigger] r@[j] == step,
            decreases n - i,
        {
            r.push(step);
            i = i + 1;
        }
        r
    }
}

} // verus!
