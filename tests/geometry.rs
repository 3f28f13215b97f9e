use danmaku::construction::{ConstructionType, UnitOffset};
use danmaku::fixed::{isqrt, Vec2, UNIT};

fn to_point(o: &UnitOffset) -> (f64, f64) {
    let dir = (o.direction.num as f64 / o.direction.den as f64).to_radians();
    let tilt = (o.tilt.num as f64 / o.tilt.den as f64).to_radians();
    let r = 1.0 / tilt.cos();
    (dir.cos() * r, dir.sin() * r)
}

#[test]
fn circle_offsets_on_unit_circle() {
    let total: u64 = 12;
    for p in 0..total {
        let o = ConstructionType::Circle.translation(p, total);
        assert_eq!(o.direction.num, 360 * p as i128);
        assert_eq!(o.direction.den, 12);
        assert_eq!(o.tilt.num, 0);
        let (x, y) = to_point(&o);
        assert!(((x * x + y * y).sqrt() - 1.0).abs() < 1e-9);
    }
}

#[test]
fn circle_offsets_evenly_spaced_by_angle() {
    let total: u64 = 7;
    let step = 2.0 * std::f64::consts::PI / total as f64;
    for p in 0..total - 1 {
        let a = to_point(&ConstructionType::Circle.translation(p, total));
        let b = to_point(&ConstructionType::Circle.translation(p + 1, total));
        let gap = (a.0 * b.0 + a.1 * b.1).clamp(-1.0, 1.0).acos();
        assert!((gap - step).abs() < 1e-9);
    }
}

#[test]
fn polygon_corner_lies_on_square() {
    // the point at 45 degrees of a square is its corner, sqrt(2) away
    let o = ConstructionType::RegularPolygon(4).translation(1, 8);
    assert_eq!((o.direction.num, o.direction.den), (360, 8));
    // (360*4*1 + 180*8) % (360*8) - 180*8 = -1440, in 1/32 degree
    assert_eq!((o.tilt.num, o.tilt.den), (-1440, 32));
    let (x, y) = to_point(&o);
    assert!((x - 1.0).abs() < 1e-9 && (y - 1.0).abs() < 1e-9);
    // edge middles lie on the unit circle
    let mid = ConstructionType::RegularPolygon(4).translation(0, 8);
    assert_eq!(mid.tilt.num, 0);
    let mid2 = ConstructionType::RegularPolygon(4).translation(2, 8);
    assert_eq!(mid2.tilt.num, 0);
}

#[test]
fn shuriken_turns_points_by_their_tilt() {
    let o = ConstructionType::Shuriken(4).translation(1, 8);
    // 45 degrees turned by -45 degrees
    assert_eq!(o.direction.num, 0);
    assert_eq!(o.direction.den, 32);
    assert_eq!((o.tilt.num, o.tilt.den), (-1440, 32));
    let o = ConstructionType::Shuriken(3).translation(1, 12);
    // 30 degrees; tilt (360*3 + 180*12) % (360*12) - 180*12 = 1080, i.e. 30 degrees
    assert_eq!((o.tilt.num, o.tilt.den), (1080, 36));
    assert_eq!(o.direction.num, 360 * 3 + 1080);
    assert_eq!(o.direction.den, 36);
}

#[test]
fn polygon_points_lie_on_the_edges() {
    // 96 points on a square: each lies on the square of half-width 1
    for p in 0..96 {
        let (x, y) = to_point(&ConstructionType::RegularPolygon(4).translation(p, 96));
        let edge = x.abs().max(y.abs());
        assert!((edge - 1.0).abs() < 1e-9, "point {} at {}", p, edge);
    }
    let o = ConstructionType::RegularPolygon(4).translation(1, 96);
    assert_eq!((o.tilt.num, o.tilt.den), (1440, 384));
}

#[test]
fn offsets_repeat_after_a_turn() {
    for shape in [ConstructionType::Circle, ConstructionType::RegularPolygon(6), ConstructionType::Shuriken(3)] {
        for p in 0..10 {
            let a = to_point(&shape.translation(p, 10));
            let b = to_point(&shape.translation(p + 10, 10));
            assert!((a.0 - b.0).abs() < 1e-9 && (a.1 - b.1).abs() < 1e-9);
        }
    }
}

#[test]
fn integer_square_root() {
    assert_eq!(isqrt(0), 0);
    assert_eq!(isqrt(1), 1);
    assert_eq!(isqrt(24), 4);
    assert_eq!(isqrt(25), 5);
    assert_eq!(isqrt(2_000_000_000_000_000_000_000_000), 1_414_213_562_373);
}

#[test]
fn vector_scaling_and_turning() {
    let v = Vec2::new(3000, 4000);
    assert_eq!(v.length(), 5000);
    assert_eq!(v.scale_to(10), Vec2::new(6, 8));
    assert_eq!(v.scale_to(-10), Vec2::new(-6, -8));
    assert_eq!(Vec2::new(-3000, 4000).scale_to(7), Vec2::new(-4, 5));
    assert_eq!(Vec2::zero().scale_to(10), Vec2::zero());
    assert_eq!(v.perp(), Vec2::new(-4000, 3000));
    assert_eq!(v.neg(), Vec2::new(-3000, -4000));
    assert_eq!(v.scaled(2500), Vec2::new(7500, 10000));
    assert_eq!(v.over(500_000_000), Vec2::new(1500, 2000));
    assert_eq!(Vec2::new(-3, 0).over(500_000_000), Vec2::new(-1, 0));
    let big = Vec2::new(999_999_999, 0);
    assert_eq!(big.add_clamped(&big), Vec2::new(1_000_000_000, 0));
    assert_eq!(v.sub_clamped(&Vec2::new(1000, 1000)), Vec2::new(2000, 3000));
}

#[test]
fn short_vectors_scale_to_their_length() {
    // (1, 1) has length sqrt(2): 60 px/s along it is 42.43 px/s per axis
    let v = Vec2::new(1, 1).scale_to(60 * UNIT);
    assert_eq!(v, Vec2::new(42_426, 42_426));
    let w = Vec2::new(1, 2).scale_to(1000);
    assert_eq!(w, Vec2::new(447, 894));
    let z = Vec2::new(-1, 1).perp().scale_to(-60 * UNIT);
    assert_eq!(z, Vec2::new(42_426, 42_426));
}
