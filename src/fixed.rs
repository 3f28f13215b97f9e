//! Fixed-point planar vectors.
use vstd::prelude::*;

verus! {

/// Fixed-point units in one pixel.
pub const UNIT: i64 = 1000;

/// Largest magnitude a coordinate may take.
pub const MAX_COORD: i64 = 1_000_000_000;

/// Nanoseconds in one second.
pub const NANOS_PER_SEC: u64 = 1_000_000_000;

/// A point or a direction in the plane, in fixed-point units.
#[derive(Clone, Copy, Debug, PartialEq, Eq, Structural)]
pub struct Vec2 {
    pub x: i64,
    pub y: i64,
}

/// Every coordinate lies within `MAX_COORD` of zero.
pub open spec fn in_range(a: int) -> bool {
    -MAX_COORD <= a <= MAX_COORD
}

/// Integer square root: the largest `r` with `r * r <= n`.
pub open spec fn is_isqrt(n: nat, r: nat) -> bool {
    r * r <= n < (r + 1) * (r + 1)
}

/// Division rounding toward zero, for a positive divisor.
pub open spec fn div_trunc(a: int, b: int) -> int {
    if a >= 0 {
        a / b
    } else {
        -((-a) / b)
    }
}

/// The value nearest to `a` within `[-MAX_COORD, MAX_COORD]`.
pub open spec fn clamp_coord(a: int) -> int {
    if a > MAX_COORD {
        MAX_COORD as int
    } else if a < -MAX_COORD {
        -MAX_COORD
    } else {
        a
    }
}

impl View for Vec2 {
    type V = (int, int);

    open spec fn view(&self) -> (int, int) {
        (self.x as int, self.y as int)
    }
}

/// The integer square root of `n`.
pub open spec fn root(n: nat) -> nat {
    choose|r: nat| is_isqrt(n, r)
}

/// `a / sqrt(n)` rounded toward zero.
pub open spec fn over_root(a: int, n: int) -> int {
    let q = root(((a * a) / n) as nat) as int;
    if a >= 0 {
        q
    } else {
        -q
    }
}

/// `r` is `a / sqrt(n)` rounded toward zero: `|r| <= |a| / sqrt(n) < |r| + 1`,
/// squared so that no root is taken.
pub open spec fn within_unit(r: int, a: int, n: int) -> bool {
    let ar = if r >= 0 {
        r
    } else {
        -r
    };
    &&& r * r * n <= a * a
    &&& a * a < (ar + 1) * (ar + 1) * n
    &&& (a >= 0 ==> r >= 0)
    &&& (a <= 0 ==> r <= 0)
}

/// `v` scaled to length `mag`, or zero when `v` is zero; each coordinate is
/// `coordinate * mag / |v|` rounded toward zero.
pub open spec fn scale_to(v: (int, int), mag: int) -> (int, int) {
    let n = v.0 * v.0 + v.1 * v.1;
    if n == 0 {
        (0, 0)
    } else {
        (over_root(v.0 * mag, n), over_root(v.1 * mag, n))
    }
}

/// `v` multiplied by the fixed-point factor `s` (`UNIT` stands for one),
/// rounded toward zero and clamped into range.
pub open spec fn scaled(v: (int, int), s: int) -> (int, int) {
    (clamp_coord(div_trunc(v.0 * s, UNIT as int)), clamp_coord(div_trunc(v.1 * s, UNIT as int)))
}

/// The vector with the given coordinates.
pub open spec fn vec_of(v: (int, int)) -> Vec2 {
    Vec2 { x: v.0 as i64, y: v.1 as i64 }
}

/// `v` turned a quarter turn counter-clockwise.
pub open spec fn perp(v: (int, int)) -> (int, int) {
    (-v.1, v.0)
}

/// How far a rate `v` (units per second) carries over `dt` nanoseconds,
/// clamped into range.
pub open spec fn over_time(v: int, dt: int) -> int {
    clamp_coord(div_trunc(v * dt, NANOS_PER_SEC as int))
}

/// `a + b` clamped into range, coordinate by coordinate.
pub open spec fn add_clamped(a: (int, int), b: (int, int)) -> (int, int) {
    (clamp_coord(a.0 + b.0), clamp_coord(a.1 + b.1))
}

/// `v` carried over `dt` nanoseconds, coordinate by coordinate.
pub open spec fn step(v: (int, int), dt: int) -> (int, int) {
    (over_time(v.0, dt), over_time(v.1, dt))
}

impl Vec2 {
    pub open spec fn wf(self) -> bool {
        in_range(self.x as int) && in_range(self.y as int)
    }

    /// Squared Euclidean length.
    pub open spec fn norm_sq(self) -> nat {
        (self.x * self.x + self.y * self.y) as nat
    }

    pub open spec fn is_zero(self) -> bool {
        self.x == 0 && self.y == 0
    }

    pub fn zero() -> (r: Vec2)
        ensures
            r.is_zero(),
    {
        Vec2 { x: 0, y: 0 }
    }

    pub fn new(x: i64, y: i64) -> (r: Vec2)
        ensures
            r.x == x,
            r.y == y,
    {
        Vec2 { x, y }
    }
}

/// Two integer square roots of one number agree.
pub proof fn lemma_isqrt_unique(n: nat, a: nat, b: nat)
    requires
        is_isqrt(n, a),
        is_isqrt(n, b),
    ensures
        a == b,
{
    if a < b {
        assert((a + 1) * (a + 1) <= b * b) by (nonlinear_arith)
            requires
                a < b,
        ;
    } else if b < a {
        assert((b + 1) * (b + 1) <= a * a) by (nonlinear_arith)
            requires
                b < a,
        ;
    }
}

/// `root` is the integer square root.
pub proof fn lemma_root(n: nat, r: nat)
    requires
        is_isqrt(n, r),
    ensures
        root(n) == r,
{
    lemma_isqrt_unique(n, root(n), r);
}

/// Every natural number has an integer square root.
pub proof fn lemma_isqrt_exists(n: nat)
    ensures
        exists|r: nat| #[trigger] is_isqrt(n, r),
    decreases n,
{
    if n == 0 {
        assert(is_isqrt(n, 0)) by (nonlinear_arith)
            requires
                n == 0,
        ;
    } else {
        lemma_isqrt_exists((n - 1) as nat);
        let r = choose|r: nat| #[trigger] is_isqrt((n - 1) as nat, r);
        if (r + 1) * (r + 1) <= n {
            assert((r + 2) * (r + 2) > n) by (nonlinear_arith)
                requires
                    r * r <= n - 1,
                    (r + 1) * (r + 1) <= n,
                    n - 1 < (r + 1) * (r + 1),
            ;
            assert(is_isqrt(n, r + 1));
        } else {
            assert(is_isqrt(n, r));
        }
    }
}

/// `root(n)` is the integer square root of `n`.
pub proof fn lemma_root_is_isqrt(n: nat)
    ensures
        is_isqrt(n, root(n)),
{
    lemma_isqrt_exists(n);
}

/// `over_root` rounds toward zero.
pub proof fn lemma_over_root(a: int, n: int)
    requires
        n > 0,
    ensures
        within_unit(over_root(a, n), a, n),
{
    assert(a * a >= 0) by (nonlinear_arith);
    let m = (a * a) / n;
    vstd::arithmetic::div_mod::lemma_fundamental_div_mod(a * a, n);
    assert(m >= 0) by (nonlinear_arith)
        requires
            n > 0,
            a * a >= 0,
            m == (a * a) / n,
    ;
    let r = root(m as nat) as int;
    lemma_root_is_isqrt(m as nat);
    assert(m * n <= a * a < (m + 1) * n) by (nonlinear_arith)
        requires
            a * a == n * m + (a * a) % n,
            0 <= (a * a) % n < n,
    ;
    assert(r * r * n <= a * a) by (nonlinear_arith)
        requires
            r * r <= m,
            m * n <= a * a,
            n > 0,
    ;
    assert(a * a < (r + 1) * (r + 1) * n) by (nonlinear_arith)
        requires
            m < (r + 1) * (r + 1),
            a * a < (m + 1) * n,
            n > 0,
    ;
    assert((-r) * (-r) * n == r * r * n) by (nonlinear_arith);
    if a == 0 {
        assert(m == 0);
        assert(r == 0) by (nonlinear_arith)
            requires
                r * r <= 0,
        ;
    }
    let ar = if over_root(a, n) >= 0 {
        over_root(a, n)
    } else {
        -over_root(a, n)
    };
    assert(ar == r);
    assert(over_root(a, n) * over_root(a, n) * n == r * r * n);
}

/// Scaling an in-range vector to an in-range length stays in range, each
/// coordinate at most `|mag|`, and rounds each coordinate toward zero.
pub proof fn lemma_scale_to_in_range(v: (int, int), mag: int)
    requires
        in_range(v.0),
        in_range(v.1),
        in_range(mag),
    ensures
        in_range(scale_to(v, mag).0),
        in_range(scale_to(v, mag).1),
{
    let (x, y) = v;
    let n = x * x + y * y;
    assert(x * x >= 0 && y * y >= 0) by (nonlinear_arith);
    if n != 0 {
        lemma_over_root_bound(x, y, mag);
        lemma_over_root_bound(y, x, mag);
    }
}

/// The coordinate `x` of `(x, y)` scaled to `mag` is at most `|mag|`.
proof fn lemma_over_root_bound(x: int, y: int, mag: int)
    requires
        x * x + y * y > 0,
        in_range(mag),
    ensures
        -MAX_COORD <= over_root(x * mag, x * x + y * y) <= MAX_COORD,
        -(if mag >= 0 { mag } else { -mag }) <= over_root(x * mag, x * x + y * y),
        over_root(x * mag, x * x + y * y) <= (if mag >= 0 { mag } else { -mag }),
{
    let n = x * x + y * y;
    let am = if mag >= 0 { mag } else { -mag };
    let a = x * mag;
    lemma_over_root(a, n);
    let r = over_root(a, n);
    let ar = if r >= 0 { r } else { -r };
    assert(am * am == mag * mag) by (nonlinear_arith)
        requires
            am == mag || am == -mag,
    ;
    assert(a * a <= am * am * n) by (nonlinear_arith)
        requires
            a == x * mag,
            n == x * x + y * y,
            am * am == mag * mag,
    ;
    assert(ar * ar == r * r) by (nonlinear_arith)
        requires
            ar == r || ar == -r,
    ;
    assert(ar <= am) by (nonlinear_arith)
        requires
            ar * ar * n <= a * a,
            a * a <= am * am * n,
            n > 0,
            ar >= 0,
            am >= 0,
    ;
}

/// Division of `a` by a positive `b`, rounding toward zero.
pub fn div_toward_zero(a: i128, b: i128) -> (r: i128)
    requires
        b > 0,
        a > i128::MIN,
    ensures
        r == div_trunc(a as int, b as int),
{
    if a >= 0 {
        a / b
    } else {
        let q = (-a) / b;
        -q
    }
}

/// Integer square root by bisection.
pub fn isqrt(n: u128) -> (r: u64)
    ensures
        is_isqrt(n as nat, r as nat),
{
    let mut lo: u128 = 0;
    let mut hi: u128 = 0x1_0000_0000_0000_0000u128;
    assert(hi * hi > n) by (nonlinear_arith)
        requires
            hi == 0x1_0000_0000_0000_0000u128,
            n <= 0xffff_ffff_ffff_ffff_ffff_ffff_ffff_ffffu128,
    ;
    while hi - lo > 1
        invariant
            lo < hi <= 0x1_0000_0000_0000_0000u128,
            lo * lo <= n,
            n < hi * hi,
        decreases hi - lo,
    {
        let mid: u128 = lo + (hi - lo) / 2;
        assert(mid < hi);
        assert(mid * mid <= hi * hi && mid * mid <= 0xffff_ffff_ffff_fffe_0000_0000_0000_0001int)
            by (nonlinear_arith)
            requires
                mid < hi,
                hi <= 0x1_0000_0000_0000_0000u128,
        ;
        if mid * mid <= n {
            lo = mid;
        } else {
            hi = mid;
        }
    }
    assert(hi == lo + 1);
    lo as u64
}

impl Vec2 {
    /// Length rounded down to an integer.
    pub fn length(&self) -> (r: u64)
        requires
            self.wf(),
        ensures
            is_isqrt(self.norm_sq(), r as nat),
            r as nat == root(self.norm_sq()),
    {
        let x = self.x as i128;
        let y = self.y as i128;
        assert(x * x <= 1_000_000_000_000_000_000 && y * y <= 1_000_000_000_000_000_000)
            by (nonlinear_arith)
            requires
                -1_000_000_000 <= x <= 1_000_000_000,
                -1_000_000_000 <= y <= 1_000_000_000,
        ;
        assert(x * x >= 0 && y * y >= 0) by (nonlinear_arith);
        let n = (x * x + y * y) as u128;
        let r = isqrt(n);
        proof {
            lemma_root(self.norm_sq(), r as nat);
        }
        r
    }

    /// This vector scaled to length `mag`; zero stays zero. Each
    /// coordinate is rounded toward zero, so it is off by less than one unit.
    pub fn scale_to(&self, mag: i64) -> (r: Vec2)
        requires
            self.wf(),
            in_range(mag as int),
        ensures
            r@ == scale_to(self@, mag as int),
            r.wf(),
            !self.is_zero() ==> within_unit(r.x as int, self.x * mag, self.norm_sq() as int)
                && within_unit(r.y as int, self.y * mag, self.norm_sq() as int),
            self.is_zero() ==> r.is_zero(),
    {
        let x = self.x as i128;
        let y = self.y as i128;
        let m = mag as i128;
        proof {
            assert(x * x <= 1_000_000_000_000_000_000 && y * y <= 1_000_000_000_000_000_000)
                by (nonlinear_arith)
                requires
                    -1_000_000_000 <= x <= 1_000_000_000,
                    -1_000_000_000 <= y <= 1_000_000_000,
            ;
            assert(x * x >= 0 && y * y >= 0) by (nonlinear_arith);
            assert(-1_000_000_000_000_000_000 <= x * m <= 1_000_000_000_000_000_000
                && -1_000_000_000_000_000_000 <= y * m <= 1_000_000_000_000_000_000)
                by (nonlinear_arith)
                requires
                    -1_000_000_000 <= x <= 1_000_000_000,
                    -1_000_000_000 <= y <= 1_000_000_000,
                    -1_000_000_000 <= m <= 1_000_000_000,
            ;
        }
        let n = (x * x + y * y) as u128;
        if n == 0 {
            proof {
                assert(x * x == 0 && y * y == 0);
                assert(x == 0) by (nonlinear_arith) requires x * x == 0;
                assert(y == 0) by (nonlinear_arith) requires y * y == 0;
            }
            return Vec2 { x: 0, y: 0 };
        }
        proof {
            if self.x == 0 && self.y == 0 {
                assert(x * x + y * y == 0) by (nonlinear_arith)
                    requires
                        x == 0,
                        y == 0,
                ;
            }
            lemma_scale_to_in_range(self@, mag as int);
            lemma_over_root(x * m, n as int);
            lemma_over_root(y * m, n as int);
        }
        let qx = over_root_exec(x * m, n);
        let qy = over_root_exec(y * m, n);
        Vec2 { x: qx, y: qy }
    }

    /// This vector turned a quarter turn counter-clockwise.
    pub fn perp(&self) -> (r: Vec2)
        requires
            self.wf(),
        ensures
            r@ == perp(self@),
            r.wf(),
    {
        Vec2 { x: -self.y, y: self.x }
    }

    /// The opposite vector.
    pub fn neg(&self) -> (r: Vec2)
        requires
            self.wf(),
        ensures
            r@ == (-self@.0, -self@.1),
            r.wf(),
    {
        Vec2 { x: -self.x, y: -self.y }
    }

    /// Sum with each coordinate clamped into range.
    pub fn add_clamped(&self, o: &Vec2) -> (r: Vec2)
        requires
            self.wf(),
            o.wf(),
        ensures
            r@ == add_clamped(self@, o@),
            r.wf(),
    {
        Vec2 { x: clamp_sum(self.x, o.x), y: clamp_sum(self.y, o.y) }
    }

    /// Difference `self - o`, clamped into range.
    pub fn sub_clamped(&self, o: &Vec2) -> (r: Vec2)
        requires
            self.wf(),
            o.wf(),
        ensures
            r@ == add_clamped(self@, (-o@.0, -o@.1)),
            r.wf(),
    {
        Vec2 { x: clamp_sum(self.x, -o.x), y: clamp_sum(self.y, -o.y) }
    }

    /// What a rate of this vector per second amounts to over `dt` nanoseconds.
    pub fn over(&self, dt: u64) -> (r: Vec2)
        requires
            self.wf(),
        ensures
            r@ == step(self@, dt as int),
            r.wf(),
    {
        Vec2 { x: over_coord(self.x, dt), y: over_coord(self.y, dt) }
    }
}

impl Vec2 {
    /// This vector multiplied by the fixed-point factor `s`.
    pub fn scaled(&self, s: i64) -> (r: Vec2)
        requires
            self.wf(),
            in_range(s as int),
        ensures
            r@ == scaled(self@, s as int),
            r.wf(),
    {
        Vec2 { x: scale_coord(self.x, s), y: scale_coord(self.y, s) }
    }
}

fn scale_coord(v: i64, s: i64) -> (r: i64)
    requires
        in_range(v as int),
        in_range(s as int),
    ensures
        r == clamp_coord(div_trunc(v * s, UNIT as int)),
{
    assert(-1_000_000_000_000_000_000 <= v * s <= 1_000_000_000_000_000_000)
        by (nonlinear_arith)
        requires
            -1_000_000_000 <= v <= 1_000_000_000,
            -1_000_000_000 <= s <= 1_000_000_000,
    ;
    let q = div_toward_zero((v as i128) * (s as i128), UNIT as i128);
    if q > MAX_COORD as i128 {
        MAX_COORD
    } else if q < -MAX_COORD as i128 {
        -MAX_COORD
    } else {
        q as i64
    }
}

/// `a / sqrt(n)` rounded toward zero.
fn over_root_exec(a: i128, n: u128) -> (r: i64)
    requires
        n > 0,
        -1_000_000_000_000_000_000 <= a <= 1_000_000_000_000_000_000,
    ensures
        r == over_root(a as int, n as int),
{
    let abs: u128 = if a >= 0 {
        a as u128
    } else {
        (-a) as u128
    };
    assert(abs * abs <= 1_000_000_000_000_000_000_000_000_000_000_000_000) by (nonlinear_arith)
        requires
            0 <= abs <= 1_000_000_000_000_000_000,
    ;
    assert(abs * abs == a * a) by (nonlinear_arith)
        requires
            abs == a || abs == -a,
    ;
    let m = abs * abs / n;
    assert(m <= abs * abs) by (nonlinear_arith)
        requires
            n > 0,
            m == (abs * abs) as int / (n as int),
            abs * abs >= 0,
    ;
    let q = isqrt(m);
    proof {
        lemma_root(m as nat, q as nat);
        assert(q <= 1_000_000_000_000_000_000) by (nonlinear_arith)
            requires
                q * q <= m,
                m <= 1_000_000_000_000_000_000_000_000_000_000_000_000,
                q >= 0,
        ;
    }
    if a >= 0 {
        q as i64
    } else {
        -(q as i64)
    }
}

fn clamp_sum(a: i64, b: i64) -> (r: i64)
    requires
        in_range(a as int),
        in_range(b as int),
    ensures
        r == clamp_coord(a + b),
{
    let s = a + b;
    if s > MAX_COORD {
        MAX_COORD
    } else if s < -MAX_COORD {
        -MAX_COORD
    } else {
        s
    }
}

fn over_coord(v: i64, dt: u64) -> (r: i64)
    requires
        in_range(v as int),
    ensures
        r == over_time(v as int, dt as int),
        in_range(r as int),
{
    assert(-1_000_000_000 * 0x1_0000_0000_0000_0000int <= v * dt <= 1_000_000_000 * 0x1_0000_0000_0000_0000int)
        by (nonlinear_arith)
        requires
            -1_000_000_000 <= v <= 1_000_000_000,
            0 <= dt < 0x1_0000_0000_0000_0000int,
    ;
    let p = (v as i128) * (dt as i128);
    let q = div_toward_zero(p, NANOS_PER_SEC as i128);
    if q > MAX_COORD as i128 {
        MAX_COORD
    } else if q < -MAX_COORD as i128 {
        -MAX_COORD
    } else {
        q as i64
    }
}

} // verus!
