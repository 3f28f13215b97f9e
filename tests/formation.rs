use danmaku::bounds::Rect;
use danmaku::construction::ConstructionType;
use danmaku::fixed::{Vec2, UNIT};
use danmaku::movement::MovementType;
use danmaku::pattern::{Pattern, PatternParams};

fn circle_slots(n: u64) -> Vec<Vec2> {
    (0..n)
        .map(|p| {
            let o = ConstructionType::Circle.translation(p, n);
            let a = (o.direction.num as f64 / o.direction.den as f64).to_radians();
            Vec2::new(
                (a.cos() * UNIT as f64).round() as i64,
                (a.sin() * UNIT as f64).round() as i64,
            )
        })
        .collect()
}

fn formation(n: u64, cadence: u64, scale_px: i64, movement: MovementType) -> Pattern {
    let params = PatternParams {
        scale: scale_px * UNIT,
        bullet_amount: n,
        bullet_movement: movement,
        construction_frequency: cadence,
    };
    Pattern::new(
        params,
        ConstructionType::Circle,
        MovementType::Still,
        Vec2::zero(),
        circle_slots(n),
    )
}

#[test]
fn construction_is_monotone() {
    let n: u64 = 4;
    let t: u64 = 100_000_000;
    let mut f = formation(n, t, 10, MovementType::Circle { speed: 5000, accel: 0 });
    for k in 1..=n {
        f.tick(t);
        assert_eq!(f.construction.progress, k);
        assert_eq!(f.bullets.len() as u64, k);
        assert!(!f.construction.finished);
        assert!(f.bullets.iter().all(|b| b.disabled));
    }
    f.tick(t);
    assert_eq!(f.construction.progress, n);
    assert!(f.construction.finished);
    assert!(f.bullets.iter().all(|b| !b.disabled));
    f.tick(t);
    assert_eq!(f.construction.progress, n);
    assert_eq!(f.bullets.len() as u64, n);
}

#[test]
fn ticks_between_periods_spawn_nothing() {
    let mut f = formation(3, 100, 10, MovementType::Still);
    f.tick(50);
    assert_eq!(f.construction.progress, 0);
    f.tick(50);
    assert_eq!(f.construction.progress, 1);
    // many periods at once still spawn one bullet
    f.tick(1000);
    assert_eq!(f.construction.progress, 2);
}

#[test]
fn disabled_bullets_stay_at_rest() {
    let mut f = formation(5, 10, 20, MovementType::Linear { velocity: Vec2::new(9000, 0), accel: 50 });
    for _ in 0..5 {
        f.tick(10);
        for b in f.bullets.iter() {
            assert!(b.disabled);
            assert_eq!(b.velocity, Vec2::zero());
            assert_eq!(b.acceleration, Vec2::zero());
        }
    }
}

#[test]
fn activation_gives_start_velocity() {
    let m = MovementType::Circle { speed: 30_000, accel: 300 };
    let mut f = formation(6, 10, 40, m);
    for _ in 0..6 {
        f.tick(10);
    }
    let before: Vec<Vec2> = f.bullets.iter().map(|b| b.position).collect();
    f.tick(10);
    assert!(f.construction.finished);
    assert!(!f.body.disabled);
    for (b, p) in f.bullets.iter().zip(before.iter()) {
        assert_eq!(b.position, *p);
        assert_eq!(b.velocity, m.start_velocity(*p));
        assert_eq!(b.acceleration, Vec2::zero());
    }
    // from the next tick on the profile accelerates them
    let before: Vec<Vec2> = f.bullets.iter().map(|b| b.position).collect();
    f.tick(10);
    for (b, p) in f.bullets.iter().zip(before.iter()) {
        assert_eq!(b.acceleration, m.acceleration(*p));
        assert_ne!(b.acceleration, Vec2::zero());
    }
}

#[test]
fn zero_bullet_formation_is_finished_at_once() {
    let mut f = formation(0, 10, 40, MovementType::Still);
    assert!(f.construction.finished);
    f.tick(10);
    assert!(!f.body.disabled);
    assert_eq!(f.bullets.len(), 0);
}

#[test]
fn circle_formation_end_to_end() {
    let m = MovementType::Circle { speed: 60 * UNIT, accel: 0 };
    let mut f = formation(12, 100_000_000, 100, m);
    for _ in 0..13 {
        f.tick(100_000_000);
    }
    assert_eq!(f.construction.progress, 12);
    assert!(f.construction.finished);
    assert_eq!(f.bullets.len(), 12);
    for b in f.bullets.iter() {
        let (vx, vy) = (b.velocity.x as f64, b.velocity.y as f64);
        let (px, py) = (b.position.x as f64, b.position.y as f64);
        let speed = (vx * vx + vy * vy).sqrt() / UNIT as f64;
        assert!((speed - 60.0).abs() < 0.1);
        // tangential: at a right angle to the radius
        let cos = (vx * px + vy * py) / ((vx * vx + vy * vy).sqrt() * (px * px + py * py).sqrt());
        assert!(cos.abs() < 1e-3);
    }
}

#[test]
fn out_of_bounds_bullets_are_despawned() {
    let level = Rect { min: Vec2::new(0, 0), max: Vec2::new(100 * UNIT, 100 * UNIT) };
    let params = PatternParams {
        scale: UNIT,
        bullet_amount: 2,
        bullet_movement: MovementType::Still,
        construction_frequency: 10,
    };
    // slots at (150, 50) and (50, 50) pixels
    let slots = vec![Vec2::new(150 * UNIT, 50 * UNIT), Vec2::new(50 * UNIT, 50 * UNIT)];
    let mut f = Pattern::new(params, ConstructionType::Circle, MovementType::Still, Vec2::zero(), slots);
    f.tick(10);
    f.tick(10);
    assert_eq!(f.bullets.len(), 2);
    f.despawn_out_of_bounds(Vec2::zero(), &level);
    assert_eq!(f.bullets.len(), 1);
    assert_eq!(f.bullets[0].position, Vec2::new(50 * UNIT, 50 * UNIT));
    for _ in 0..100 {
        f.tick(10);
        f.despawn_out_of_bounds(Vec2::zero(), &level);
        assert_eq!(f.bullets.len(), 1);
    }
    assert!(level.out_of_bounds(Vec2::new(150 * UNIT, 50 * UNIT)));
    assert!(!level.out_of_bounds(Vec2::new(100 * UNIT, 0)));
    assert!(level.out_of_bounds(Vec2::new(-1, 0)));
}

#[test]
fn despawn_uses_world_position() {
    let level = Rect { min: Vec2::new(0, 0), max: Vec2::new(100 * UNIT, 100 * UNIT) };
    let params = PatternParams {
        scale: UNIT,
        bullet_amount: 1,
        bullet_movement: MovementType::Still,
        construction_frequency: 10,
    };
    let slots = vec![Vec2::new(50 * UNIT, 50 * UNIT)];
    let mut f = Pattern::new(params, ConstructionType::Circle, MovementType::Still, Vec2::zero(), slots);
    f.tick(10);
    // the parent stands 60 pixels to the right: the bullet is at 110
    f.despawn_out_of_bounds(Vec2::new(60 * UNIT, 0), &level);
    assert_eq!(f.bullets.len(), 0);
}
