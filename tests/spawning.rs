use danmaku::bounds::Rect;
use danmaku::construction::ConstructionType;
use danmaku::damage::{bullet_player_collision, ChangeHealth};
use danmaku::fixed::{Vec2, UNIT};
use danmaku::look_dir::LookDir;
use danmaku::movement::MovementType;
use danmaku::pattern::PatternParams;
use danmaku::spawner::{EmptyAmmoList, Turret, TurretAmmo, TurretAmmoList};
use danmaku::spell_card::{BossFight, FightEvent, NoSuchSpellCard, SpellCard, SpellCardList};
use std::str::FromStr;

fn ammo(n: u64, speed: i64) -> TurretAmmo {
    TurretAmmo {
        params: PatternParams {
            scale: 10 * UNIT,
            bullet_amount: n,
            bullet_movement: MovementType::Still,
            construction_frequency: 10,
        },
        construction: ConstructionType::Circle,
        speed,
        accel: 5,
        slots: (0..n).map(|i| Vec2::new(UNIT, i as i64)).collect(),
    }
}

#[test]
fn empty_ammo_list_is_refused() {
    assert_eq!(TurretAmmoList::new(Vec::new()).err(), Some(EmptyAmmoList));
}

#[test]
fn ammo_list_cycles_round_robin() {
    let m = 3;
    let mut list = TurretAmmoList::new((0..m).map(|k| ammo(k + 1, 100)).collect()).unwrap();
    assert_eq!(list.current(), 0);
    let mut seen = Vec::new();
    for k in 1..=m as usize {
        let i = list.advance();
        assert_eq!(i, k % m as usize);
        seen.push(list.list[i].params.bullet_amount);
    }
    assert_eq!(list.current(), 0);
    assert_eq!(seen, vec![2, 3, 1]);
}

#[test]
fn turret_fires_toward_player() {
    let list = TurretAmmoList::new(vec![ammo(2, 200 * UNIT), ammo(3, 100 * UNIT)]).unwrap();
    let mut turret = Turret::from_params(Vec2::zero(), list, 100, 0);
    let player = Vec2::new(0, 50 * UNIT);
    assert!(!turret.shoot(50, player));
    assert_eq!(turret.patterns.len(), 0);
    assert!(turret.shoot(50, player));
    assert_eq!(turret.patterns.len(), 1);
    let p = &turret.patterns[0];
    // the second entry fires first
    assert_eq!(p.params.bullet_amount, 3);
    assert_eq!(p.body.movement, MovementType::Linear { velocity: Vec2::new(0, 100 * UNIT), accel: 5 });
    assert!(p.body.disabled);
    assert_eq!(turret.ammo.current(), 1);
    assert!(turret.shoot(100, player));
    assert_eq!(turret.patterns[1].params.bullet_amount, 2);
    assert_eq!(turret.ammo.current(), 0);
}

#[test]
fn turret_tick_runs_every_phase() {
    let list = TurretAmmoList::new(vec![ammo(1, 100 * UNIT)]).unwrap();
    let mut turret = Turret::from_params(Vec2::new(10 * UNIT, 10 * UNIT), list, 1000, 990);
    let level = Rect { min: Vec2::zero(), max: Vec2::new(100 * UNIT, 100 * UNIT) };
    // no player: nothing happens
    assert!(!turret.tick(10, None, Some(level)));
    assert_eq!(turret.patterns.len(), 0);
    let player = Vec2::new(90 * UNIT, 10 * UNIT);
    assert!(turret.tick(10, Some(player), Some(level)));
    assert_eq!(turret.patterns.len(), 1);
    // the one bullet is spawned, then the formation finishes and flies
    for _ in 0..3 {
        turret.tick(10, Some(player), Some(level));
    }
    let p = &turret.patterns[0];
    assert!(p.construction.finished);
    assert!(!p.body.disabled);
    assert_eq!(p.bullets.len(), 1);
    assert_eq!(p.body.velocity, Vec2::new(100 * UNIT, 0));
    // once its bullet leaves the level, the spent formation goes too
    for _ in 0..200 {
        turret.tick(10_000_000, Some(player), Some(level));
    }
    assert!(turret.patterns.iter().all(|p| !p.bullets.is_empty() || !p.construction.finished));
}

#[test]
fn one_damage_per_tick_at_most() {
    assert_eq!(bullet_player_collision(&vec![]), None);
    assert_eq!(bullet_player_collision(&vec![false, false]), None);
    assert_eq!(bullet_player_collision(&vec![false, true]), Some(ChangeHealth(-1)));
    assert_eq!(bullet_player_collision(&vec![true, true, true]), Some(ChangeHealth(-1)));
}

#[test]
fn spell_cards_by_name() {
    assert_eq!(SpellCard::from_name("CirclesOfFifth"), Ok(SpellCard::CirclesOfFifth));
    assert_eq!(SpellCard::from_name("CirclesOfFifths"), Err(NoSuchSpellCard));
    assert_eq!(SpellCard::from_name(""), Err(NoSuchSpellCard));
    assert_eq!(SpellCard::from_str("CirclesOfFifth"), Ok(SpellCard::CirclesOfFifth));
}

#[test]
fn random_spell_card_is_taken_out() {
    let mut list = SpellCardList(vec![SpellCard::CirclesOfFifth, SpellCard::CirclesOfFifth]);
    assert_eq!(list.random(), Some(SpellCard::CirclesOfFifth));
    assert_eq!(list.0.len(), 1);
    assert_eq!(list.random(), Some(SpellCard::CirclesOfFifth));
    assert_eq!(list.random(), None);
}

#[test]
fn circles_of_fifth_plays_eight_shots() {
    let setup = SpellCard::CirclesOfFifth.setup();
    assert_eq!(setup.frequency, 1_000_000_000);
    assert_eq!(setup.length, 100_000_000_000);
    assert_eq!(setup.shots.len(), 8);
    assert_eq!(setup.shots[3].construction, ConstructionType::RegularPolygon(6));
    assert_eq!(setup.shots[5].construction, ConstructionType::Shuriken(3));
    assert_eq!(setup.shots[7].speed, 0);
}

#[test]
fn look_dir_conversions() {
    assert_eq!(LookDir::default(), LookDir::Right);
    assert_eq!(i32::from(&LookDir::Left), -1);
    assert_eq!(i8::from(&LookDir::Right), 1);
    assert_eq!(Vec2::from(&LookDir::Left), Vec2::new(-UNIT, 0));
    assert_eq!(LookDir::from(5i32), LookDir::Right);
    assert_eq!(LookDir::from(-5i32), LookDir::Left);
    assert_eq!(LookDir::from(0i8), LookDir::Right);
    assert_eq!(LookDir::from(-1i8), LookDir::Left);
}

#[test]
fn fired_formation_starts_its_construction() {
    let list = TurretAmmoList::new(vec![ammo(2, 100 * UNIT)]).unwrap();
    let mut turret = Turret::from_params(Vec2::zero(), list, 10, 0);
    assert!(turret.shoot(10, Vec2::new(UNIT, UNIT)));
    let p = &turret.patterns[0];
    assert_eq!(p.construction.timer.duration, 10);
    assert_eq!(p.construction.timer.elapsed, 0);
    assert!(!p.construction.finished);
    // aimed along the diagonal at 100 px/s
    assert_eq!(
        p.body.movement,
        MovementType::Linear { velocity: Vec2::new(70_710, 70_710), accel: 5 }
    );
}

#[test]
fn ammo_validity_is_checked() {
    assert!(ammo(2, 100).is_valid());
    let mut bad = ammo(2, 100);
    bad.slots.pop();
    assert!(!bad.is_valid());
    let mut far = ammo(1, 100);
    far.speed = i64::MAX;
    assert!(!far.is_valid());
    let list = TurretAmmoList::new(vec![ammo(1, 100), bad]).unwrap();
    assert!(!list.is_valid());
    assert!(TurretAmmoList::new(vec![ammo(1, 100)]).unwrap().is_valid());
}

#[test]
fn bullet_boxes_overlap_the_player() {
    let list = TurretAmmoList::new(vec![ammo(2, 0)]).unwrap();
    let mut turret = Turret::from_params(Vec2::new(100, 0), list, 10, 0);
    let player = Vec2::new(10 * UNIT, 0);
    turret.shoot(10, player);
    turret.tick_patterns(10);
    turret.tick_patterns(10);
    let p = &turret.patterns[0];
    assert_eq!(p.bullets.len(), 2);
    // bullets at (10 px + 100, 0) and (10 px + 100, 10 units)
    assert_eq!(p.overlaps(turret.origin, player, Vec2::new(100, 100)), vec![true, true]);
    assert_eq!(p.overlaps(turret.origin, player, Vec2::new(100, 5)), vec![true, false]);
    assert_eq!(p.overlaps(turret.origin, player, Vec2::new(99, 100)), vec![false, false]);
}

#[test]
fn boss_fight_plays_cards_until_none_left() {
    let mut fight = BossFight::new(SpellCardList(vec![SpellCard::CirclesOfFifth]));
    assert_eq!(fight.step(0), FightEvent::Started(SpellCard::CirclesOfFifth));
    assert_eq!(fight.timer.duration, 100_000_000_000);
    assert_eq!(fight.step(50_000_000_000), FightEvent::Continued);
    assert_eq!(fight.step(50_000_000_000), FightEvent::Ended);
    assert_eq!(fight.active, None);
    assert_eq!(fight.step(1), FightEvent::Exhausted);
}
