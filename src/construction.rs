//! Where the bullets of a formation stand: the geometry of each shape.
//!
//! Offsets are given exactly, in polar form with rational angles in degrees.
//! The point of an offset lies in the direction `direction`, at distance
//! `1 / cos(tilt)` from the origin: on the unit circle when the tilt is zero,
//! on a circumscribed polygon's edge otherwise.
use vstd::prelude::*;

verus! {

/// Largest bullet count and side count that offsets are computed for.
pub const MAX_COUNT: u64 = 0xffff_ffff;

/// The shape a formation's bullets are laid out in.
#[derive(Clone, Copy, Debug, PartialEq, Eq, Structural)]
pub enum ConstructionType {
    /// Evenly on the unit circle.
    Circle,
    /// On a regular polygon with the given number of sides, circumscribing
    /// the unit circle.
    RegularPolygon(u64),
    /// As on a regular polygon, each point turned by its own tilt, which
    /// gives a star.
    Shuriken(u64),
}

/// An angle of `num / den` degrees.
#[derive(Clone, Copy, Debug, PartialEq, Eq, Structural)]
pub struct Degrees {
    pub num: i128,
    pub den: u128,
}

/// A point relative to a formation's origin, before scaling.
#[derive(Clone, Copy, Debug, PartialEq, Eq, Structural)]
pub struct UnitOffset {
    /// Direction of the point.
    pub direction: Degrees,
    /// Its distance from the origin is `1 / cos(tilt)`.
    pub tilt: Degrees,
}

impl View for UnitOffset {
    /// `(direction.num, direction.den, tilt.num, tilt.den)`
    type V = (int, int, int, int);

    open spec fn view(&self) -> (int, int, int, int) {
        (
            self.direction.num as int,
            self.direction.den as int,
            self.tilt.num as int,
            self.tilt.den as int,
        )
    }
}

/// The tilt of the `progress`-th of `amount` points on an `n`-gon, in units
/// of `1 / (n * amount)` degrees: the distance of the point's exact angle
/// `360 * progress / amount` from the middle of the nearest edge, in
/// `[-180/n, 180/n)` degrees.
pub open spec fn polygon_tilt(n: int, progress: int, amount: int) -> int {
    (360 * n * progress + 180 * amount) % (360 * amount) - 180 * amount
}

/// The offset of the `progress`-th of `amount` bullets laid out as `shape`.
pub open spec fn offset_of(shape: ConstructionType, progress: int, amount: int) -> (
    int,
    int,
    int,
    int,
) {
    match shape {
        ConstructionType::Circle => (360 * progress, amount, 0, 1),
        ConstructionType::RegularPolygon(n) => (
            360 * progress,
            amount,
            polygon_tilt(n as int, progress, amount),
            n * amount,
        ),
        ConstructionType::Shuriken(n) => (
            360 * progress * n + polygon_tilt(n as int, progress, amount),
            amount * n,
            polygon_tilt(n as int, progress, amount),
            n * amount,
        ),
    }
}

impl ConstructionType {
    /// The shape can be laid out: a polygon has at least one side, and the
    /// side count stays within `MAX_COUNT`.
    pub open spec fn wf(self) -> bool {
        match self {
            ConstructionType::Circle => true,
            ConstructionType::RegularPolygon(n) => 1 <= n <= MAX_COUNT,
            ConstructionType::Shuriken(n) => 1 <= n <= MAX_COUNT,
        }
    }

    /// The offset of the `progress`-th of `bullet_amount` bullets; offsets
    /// repeat every `bullet_amount` steps of `progress`.
    pub fn translation(&self, progress: u64, bullet_amount: u64) -> (r: UnitOffset)
        requires
            self.wf(),
            1 <= bullet_amount <= MAX_COUNT,
        ensures
            r@ == offset_of(*self, progress as int, bullet_amount as int),
            r.direction.den > 0,
            r.tilt.den > 0,
    {
        let turn = 360 * progress as i128;
        proof {
            if let ConstructionType::RegularPolygon(n) = *self {
                lemma_den_bound(n, bullet_amount);
            }
            if let ConstructionType::Shuriken(n) = *self {
                lemma_den_bound(n, bullet_amount);
            }
        }
        match *self {
            ConstructionType::Circle => UnitOffset {
                direction: Degrees { num: turn, den: bullet_amount as u128 },
                tilt: Degrees { num: 0, den: 1 },
            },
            ConstructionType::RegularPolygon(n) => {
                let tilt = polygon_tilt_of(n, progress, bullet_amount);
                UnitOffset {
                    direction: Degrees { num: turn, den: bullet_amount as u128 },
                    tilt: Degrees { num: tilt, den: (n as u128) * (bullet_amount as u128) },
                }
            },
            ConstructionType::Shuriken(n) => {
                let tilt = polygon_tilt_of(n, progress, bullet_amount);
                assert(0 <= turn * n <= 360 * 0x1_0000_0000_0000_0000 * 0x1_0000_0000) by (nonlinear_arith)
                    requires
                        0 <= turn <= 360 * 0x1_0000_0000_0000_0000,
                        0 <= n <= 0x1_0000_0000,
                ;
                let num = turn * (n as i128) + tilt;
                UnitOffset {
                    direction: Degrees { num, den: (bullet_amount as u128) * (n as u128) },
                    tilt: Degrees { num: tilt, den: (n as u128) * (bullet_amount as u128) },
                }
            },
        }
    }
}

/// Offsets repeat every turn: `amount` steps further on, a point has the
/// same tilt and a direction one full turn further.
pub proof fn offsets_repeat_each_turn(shape: ConstructionType, p: nat, amount: nat)
    requires
        shape.wf(),
        amount >= 1,
    ensures
        offset_of(shape, (p + amount) as int, amount as int).1 == offset_of(shape, p as int, amount as int).1,
        offset_of(shape, (p + amount) as int, amount as int).2 == offset_of(shape, p as int, amount as int).2,
        offset_of(shape, (p + amount) as int, amount as int).3 == offset_of(shape, p as int, amount as int).3,
        offset_of(shape, (p + amount) as int, amount as int).0 == offset_of(shape, p as int, amount as int).0
            + 360 * offset_of(shape, p as int, amount as int).1,
{
    match shape {
        ConstructionType::Circle => {},
        ConstructionType::RegularPolygon(n) => {
            lemma_tilt_period(n as int, p as int, amount as int);
        },
        ConstructionType::Shuriken(n) => {
            lemma_tilt_period(n as int, p as int, amount as int);
            assert(360 * (p + amount) * n == 360 * p * n + 360 * (amount * n)) by (nonlinear_arith);
        },
    }
}

proof fn lemma_tilt_period(n: int, p: int, amount: int)
    requires
        n >= 1,
        amount >= 1,
    ensures
        polygon_tilt(n, p + amount, amount) == polygon_tilt(n, p, amount),
{
    let m = 360 * amount;
    let x = 360 * n * p + 180 * amount;
    assert(360 * n * (p + amount) + 180 * amount == m * n + x) by (nonlinear_arith)
        requires
            m == 360 * amount,
            x == 360 * n * p + 180 * amount,
    ;
    vstd::arithmetic::div_mod::lemma_mod_multiples_vanish(n, x, m);
}

/// A polygon's tilt lies within half an edge of the edge's middle:
/// `-180/n <= tilt < 180/n` degrees.
pub proof fn polygon_tilt_within_edge(n: nat, p: nat, amount: nat)
    requires
        n >= 1,
        amount >= 1,
    ensures
        -180 * amount <= polygon_tilt(n as int, p as int, amount as int) < 180 * amount,
{
    vstd::arithmetic::div_mod::lemma_mod_bound((360 * n * p + 180 * amount) as int, (360 * amount) as int);
}

/// Circle offsets lie on the unit circle (their tilt is zero), in the
/// directions `360 * progress / total` degrees: each one `360 / total`
/// degrees past the one before it, all within one turn, so no two coincide.
pub proof fn circle_offsets_evenly_spaced(p: nat, q: nat, total: nat)
    requires
        p < q < total,
    ensures
        offset_of(ConstructionType::Circle, p as int, total as int).2 == 0,
        offset_of(ConstructionType::Circle, q as int, total as int).2 == 0,
        offset_of(ConstructionType::Circle, p as int, total as int).1 == total,
        offset_of(ConstructionType::Circle, q as int, total as int).1 == total,
        offset_of(ConstructionType::Circle, q as int, total as int).0 - offset_of(
            ConstructionType::Circle,
            p as int,
            total as int,
        ).0 == 360 * (q - p),
        0 <= offset_of(ConstructionType::Circle, p as int, total as int).0,
        offset_of(ConstructionType::Circle, q as int, total as int).0 < 360 * total,
{
}

proof fn lemma_den_bound(n: u64, amount: u64)
    requires
        1 <= n <= MAX_COUNT,
        1 <= amount <= MAX_COUNT,
    ensures
        1 <= n * amount <= 0x1_0000_0000 * 0x1_0000_0000,
        1 <= amount * n <= 0x1_0000_0000 * 0x1_0000_0000,
{
    assert(1 <= n * amount <= 0x1_0000_0000 * 0x1_0000_0000) by (nonlinear_arith)
        requires
            1 <= n <= 0x1_0000_0000,
            1 <= amount <= 0x1_0000_0000,
    ;
}

fn polygon_tilt_of(n: u64, progress: u64, amount: u64) -> (r: i128)
    requires
        1 <= n <= MAX_COUNT,
        1 <= amount <= MAX_COUNT,
    ensures
        r == polygon_tilt(n as int, progress as int, amount as int),
        -180 * amount <= r < 180 * amount,
{
    assert(n * progress <= 0x1_0000_0000 * 0x1_0000_0000_0000_0000) by (nonlinear_arith)
        requires
            0 <= n <= 0x1_0000_0000,
            0 <= progress < 0x1_0000_0000_0000_0000,
    ;
    let np = (n as u128) * (progress as u128);
    let x = 360 * np + 180 * (amount as u128);
    assert(x == 360 * n * progress + 180 * amount) by (nonlinear_arith)
        requires
            np == n * progress,
            x == 360 * np + 180 * amount,
    ;
    let m = 360 * (amount as u128);
    proof {
        vstd::arithmetic::div_mod::lemma_mod_bound(x as int, m as int);
    }
    (x % m) as i128 - 180 * (amount as i128)
}

} // verus!
