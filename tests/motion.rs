use danmaku::fixed::Vec2;
use danmaku::movement::MovementType;
use danmaku::pattern::Body;
use danmaku::timer::{OnceTimer, RepeatingTimer};

#[test]
fn still_profile_never_moves() {
    let p = Vec2::new(5000, -7000);
    assert_eq!(MovementType::Still.start_velocity(p), Vec2::zero());
    assert_eq!(MovementType::Still.acceleration(p), Vec2::zero());
}

#[test]
fn linear_profile_keeps_its_velocity() {
    let m = MovementType::Linear { velocity: Vec2::new(0, -8000), accel: 300 };
    let p = Vec2::new(123, 456);
    assert_eq!(m.start_velocity(p), Vec2::new(0, -8000));
    assert_eq!(m.acceleration(p), Vec2::new(0, -300));
    let still = MovementType::Linear { velocity: Vec2::zero(), accel: 300 };
    assert_eq!(still.acceleration(p), Vec2::zero());
}

#[test]
fn circle_profile_is_tangential_then_centripetal() {
    let m = MovementType::Circle { speed: 60_000, accel: 300 };
    let p = Vec2::new(100_000, 0);
    assert_eq!(m.start_velocity(p), Vec2::new(0, 60_000));
    assert_eq!(m.acceleration(p), Vec2::new(-300, 0));
    let q = Vec2::new(0, -40_000);
    assert_eq!(m.start_velocity(q), Vec2::new(60_000, 0));
    assert_eq!(m.acceleration(q), Vec2::new(0, 300));
    let away = MovementType::Circle { speed: 60_000, accel: -300 };
    assert_eq!(away.acceleration(p), Vec2::new(300, 0));
    assert_eq!(m.start_velocity(Vec2::zero()), Vec2::zero());
}

#[test]
fn repeating_timer_fires_once_per_tick() {
    let mut t = RepeatingTimer::new(100, 0);
    assert!(!t.tick(40));
    assert_eq!(t.elapsed, 40);
    assert!(t.tick(60));
    assert_eq!(t.elapsed, 0);
    // several periods in one tick still make one event
    assert!(t.tick(250));
    assert_eq!(t.elapsed, 50);
    assert!(t.just_finished);
    assert!(!t.tick(10));
    assert!(!t.just_finished);
    let mut phased = RepeatingTimer::new(100, 90);
    assert!(phased.tick(10));
    let mut zero = RepeatingTimer::new(0, 0);
    assert!(zero.tick(0));
    assert_eq!(zero.elapsed, 0);
}

#[test]
fn once_timer_finishes_and_stays() {
    let mut t = OnceTimer::new(1000);
    assert!(!t.tick(600));
    assert_eq!(t.elapsed, 600);
    assert!(t.tick(600));
    assert_eq!(t.elapsed, 1000);
    assert!(t.tick(5));
    assert_eq!(t.elapsed, 1000);
}

#[test]
fn body_activation_and_integration() {
    let m = MovementType::Circle { speed: 60_000, accel: 1000 };
    let mut b = Body::resting(Vec2::new(100_000, 0), m);
    assert!(b.disabled);
    b.activate();
    assert!(!b.disabled);
    assert_eq!(b.velocity, Vec2::new(0, 60_000));
    assert_eq!(b.acceleration, Vec2::zero());
    b.integrate(500_000_000);
    assert_eq!(b.acceleration, Vec2::new(-1000, 0));
    assert_eq!(b.velocity, Vec2::new(-500, 60_000));
    assert_eq!(b.position, Vec2::new(99_750, 30_000));
}
