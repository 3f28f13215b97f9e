//! Turrets: rotate through a list of formations and fire them at the player.
use crate::bounds::{inside_only, world_of, Rect};
use crate::construction::{ConstructionType, MAX_COUNT};
use crate::fixed::{add_clamped, in_range, scale_to, vec_of, Vec2, MAX_COORD};
use crate::movement::MovementType;
use crate::pattern::{resting, ticked, Pattern, PatternParams};
use crate::timer::{repeat_elapsed, repeat_fires, RepeatingTimer};
use vstd::prelude::*;

verus! {

/// One kind of shot: a formation, and the speed and acceleration it flies
/// toward the player with.
#[derive(Debug)]
pub struct TurretAmmo {
    pub params: PatternParams,
    pub construction: ConstructionType,
    pub speed: i64,
    pub accel: i64,
    /// Unit offsets of the formation's bullets, in spawn order.
    pub slots: Vec<Vec2>,
}

impl TurretAmmo {
    pub open spec fn wf(self) -> bool {
        &&& self.params.wf()
        &&& self.construction.wf()
        &&& in_range(self.speed as int)
        &&& in_range(self.accel as int)
        &&& self.slots@.len() == self.params.bullet_amount
        &&& forall|i: int| 0 <= i < self.slots@.len() ==> (#[trigger] self.slots@[i]).wf()
    }
}

impl TurretAmmo {
    /// Whether the shot can be fired: `wf`.
    pub fn is_valid(&self) -> (r: bool)
        ensures
            r == self.wf(),
    {
        let ok = self.params.scale >= -MAX_COORD && self.params.scale <= MAX_COORD
            && movement_ok(&self.params.bullet_movement) && construction_ok(&self.construction)
            && self.speed >= -MAX_COORD && self.speed <= MAX_COORD && self.accel >= -MAX_COORD
            && self.accel <= MAX_COORD && self.slots.len() as u64 == self.params.bullet_amount;
        if !ok {
            return false;
        }
        let mut i: usize = 0;
        while i < self.slots.len()
            invariant
                i <= self.slots@.len(),
                forall|j: int| 0 <= j < i ==> (#[trigger] self.slots@[j]).wf(),
            decreases self.slots@.len() - i,
        {
            if !vec_ok(&self.slots[i]) {
                return false;
            }
            i = i + 1;
        }
        true
    }
}

fn vec_ok(v: &Vec2) -> (r: bool)
    ensures
        r == v.wf(),
{
    v.x >= -MAX_COORD && v.x <= MAX_COORD && v.y >= -MAX_COORD && v.y <= MAX_COORD
}

fn movement_ok(m: &MovementType) -> (r: bool)
    ensures
        r == m.wf(),
{
    match m {
        MovementType::Still => true,
        MovementType::Linear { velocity, accel } => vec_ok(velocity) && *accel >= -MAX_COORD
            && *accel <= MAX_COORD,
        MovementType::Circle { speed, accel } => *speed >= -MAX_COORD && *speed <= MAX_COORD
            && *accel >= -MAX_COORD && *accel <= MAX_COORD,
    }
}

fn construction_ok(c: &ConstructionType) -> (r: bool)
    ensures
        r == c.wf(),
{
    match c {
        ConstructionType::Circle => true,
        ConstructionType::RegularPolygon(n) => *n >= 1 && *n <= MAX_COUNT,
        ConstructionType::Shuriken(n) => *n >= 1 && *n <= MAX_COUNT,
    }
}

/// The index after `i` in a round-robin over `len` entries.
pub open spec fn next_index(i: nat, len: nat) -> nat {
    if i + 1 >= len {
        0
    } else {
        i + 1
    }
}

/// An ammo list was built with no entry.
#[derive(Clone, Copy, Debug, PartialEq, Eq, Structural)]
pub struct EmptyAmmoList;

/// The shots of a turret, taken in turn.
#[derive(Debug)]
pub struct TurretAmmoList {
    pub list: Vec<TurretAmmo>,
    i: usize,
}

impl TurretAmmoList {
    pub open spec fn wf(self) -> bool {
        &&& self.entries().len() > 0
        &&& self.index() < self.entries().len()
        &&& forall|k: int| 0 <= k < self.entries().len() ==> (#[trigger] self.entries()[k]).wf()
    }

    /// The shots, in order.
    pub closed spec fn entries(self) -> Seq<TurretAmmo> {
        self.list@
    }

    /// The index of the shot fired last (zero before any).
    pub closed spec fn index(self) -> nat {
        self.i as nat
    }

    /// A list starting at its first entry; an empty list is refused.
    pub fn new(list: Vec<TurretAmmo>) -> (r: Result<TurretAmmoList, EmptyAmmoList>)
        ensures
            list@.len() == 0 <==> r is Err,
            r matches Ok(a) ==> a.entries() == list@ && a.index() == 0,
    {
        if list.len() == 0 {
            Err(EmptyAmmoList)
        } else {
            Ok(TurretAmmoList { list, i: 0 })
        }
    }

    /// Whether every shot can be fired: `wf`.
    pub fn is_valid(&self) -> (r: bool)
        ensures
            r == self.wf(),
    {
        if self.list.len() == 0 || self.i >= self.list.len() {
            return false;
        }
        let mut k: usize = 0;
        while k < self.list.len()
            invariant
                k <= self.list@.len(),
                forall|j: int| 0 <= j < k ==> (#[trigger] self.list@[j]).wf(),
            decreases self.list@.len() - k,
        {
            if !self.list[k].is_valid() {
                return false;
            }
            k = k + 1;
        }
        true
    }

    /// The index of the shot fired last (zero before any).
    pub fn current(&self) -> (r: usize)
        ensures
            r == self.index(),
    {
        self.i
    }

    /// Moves to the next shot, wrapping after the last; returns its index.
    pub fn advance(&mut self) -> (r: usize)
        requires
            old(self).wf(),
        ensures
            final(self).wf(),
            final(self).entries() == old(self).entries(),
            final(self).index() == next_index(old(self).index(), old(self).entries().len()),
            r == final(self).index(),
    {
        let i = if self.i >= self.list.len() - 1 {
            0
        } else {
            self.i + 1
        };
        self.i = i;
        i
    }
}

/// A formation is spent once it is complete, enabled, and has no bullet
/// left: it is then despawned.
pub open spec fn spent(p: Pattern) -> bool {
    p.construction.finished && !p.body.disabled && p.bullets@.len() == 0
}

/// The formations of `ps` that are not spent, in order.
pub open spec fn live_only(ps: Seq<Pattern>) -> Seq<Pattern>
    decreases ps.len(),
{
    if ps.len() == 0 {
        seq![]
    } else if spent(ps[0]) {
        live_only(ps.drop_first())
    } else {
        seq![ps[0]] + live_only(ps.drop_first())
    }
}

/// The formation `ammo` makes when fired from `origin` at `player`: it
/// flies toward the player at the shot's speed, accelerating along its
/// way by the shot's acceleration.
pub open spec fn shot_movement(ammo: TurretAmmo, origin: Vec2, player: Vec2) -> MovementType {
    MovementType::Linear {
        velocity: vec_of(
            scale_to(add_clamped(player@, (-origin@.0, -origin@.1)), ammo.speed as int),
        ),
        accel: ammo.accel,
    }
}

/// A turret before and after its shoot timer advanced by `delta`, aiming
/// at `player`; `fired` tells whether a shot was fired.
pub open spec fn shot(old: Turret, new: Turret, delta: nat, player: Vec2, fired: bool) -> bool {
    let timer = old.shoot_timer;
    &&& new.origin == old.origin
    &&& new.shoot_timer.duration == timer.duration
    &&& new.shoot_timer.elapsed == repeat_elapsed(timer.duration as nat, timer.elapsed as nat, delta)
    &&& fired == repeat_fires(timer.duration as nat, timer.elapsed as nat, delta)
    &&& new.ammo.entries() == old.ammo.entries()
    &&& !fired ==> new.ammo.index() == old.ammo.index() && new.patterns@ == old.patterns@
    &&& fired ==> {
        let k = next_index(old.ammo.index(), old.ammo.entries().len());
        let ammo = old.ammo.entries()[k as int];
        let n = old.patterns@.len();
        &&& new.ammo.index() == k
        &&& new.patterns@.len() == n + 1
        &&& new.patterns@.subrange(0, n as int) == old.patterns@
        &&& new.patterns@[n as int].params == ammo.params
        &&& new.patterns@[n as int].construction_type == ammo.construction
        &&& new.patterns@[n as int].slots@ == ammo.slots@
        &&& new.patterns@[n as int].body == resting(
            vec_of((0, 0)),
            shot_movement(ammo, old.origin, player),
        )
        &&& new.patterns@[n as int].bullets@.len() == 0
        &&& new.patterns@[n as int].construction.progress == 0
        &&& new.patterns@[n as int].construction.finished == (ammo.params.bullet_amount == 0)
        &&& new.patterns@[n as int].construction.timer == RepeatingTimer {
            duration: ammo.params.construction_frequency,
            elapsed: 0,
            just_finished: false,
        }
    }
}

/// A turret: fires a formation from its ammo list each time its timer
/// finishes a period, and owns the formations it fired.
#[derive(Debug)]
pub struct Turret {
    /// World position.
    pub origin: Vec2,
    pub ammo: TurretAmmoList,
    pub shoot_timer: RepeatingTimer,
    pub patterns: Vec<Pattern>,
}

fn copy_slots(v: &Vec<Vec2>) -> (r: Vec<Vec2>)
    ensures
        r@ == v@,
{
    let mut r: Vec<Vec2> = Vec::new();
    let mut i: usize = 0;
    while i < v.len()
        invariant
            i <= v@.len(),
            r@ == v@.subrange(0, i as int),
        decreases v@.len() - i,
    {
        r.push(v[i]);
        i = i + 1;
        assert(r@ =~= v@.subrange(0, i as int));
    }
    assert(v@.subrange(0, v@.len() as int) =~= v@);
    r
}

impl Turret {
    pub open spec fn wf(self) -> bool {
        &&& self.origin.wf()
        &&& self.ammo.wf()
        &&& forall|i: int| 0 <= i < self.patterns@.len() ==> (#[trigger] self.patterns@[i]).wf()
    }

    /// A turret at `origin` that fires every `delay` nanoseconds, its timer
    /// standing at `phase`.
    pub fn from_params(origin: Vec2, ammo: TurretAmmoList, delay: u64, phase: u64) -> (r: Turret)
        requires
            origin.wf(),
            ammo.wf(),
        ensures
            r.wf(),
            r.origin == origin,
            r.ammo == ammo,
            r.shoot_timer.duration == delay,
            r.shoot_timer.elapsed == phase,
            !r.shoot_timer.just_finished,
            r.patterns@.len() == 0,
    {
        Turret {
            origin,
            ammo,
            shoot_timer: RepeatingTimer::new(delay, phase),
            patterns: Vec::new(),
        }
    }

    /// Advances the shoot timer by `delta` nanoseconds. When it finishes a
    /// period, the ammo list moves to its next shot and a formation of that
    /// shot is added, at the turret, flying toward `player`. Returns whether
    /// a shot was fired.
    pub fn shoot(&mut self, delta: u64, player: Vec2) -> (fired: bool)
        requires
            old(self).wf(),
            player.wf(),
        ensures
            final(self).wf(),
            shot(*old(self), *final(self), delta as nat, player, fired),
    {
        let ghost before = self.patterns@;
        let fired = self.shoot_timer.tick(delta);
        if fired {
            let k = self.ammo.advance();
            let ammo = &self.ammo.list[k];
            assert(ammo.wf());
            let aim = player.sub_clamped(&self.origin).scale_to(ammo.speed);
            let movement = MovementType::Linear { velocity: aim, accel: ammo.accel };
            let pattern = Pattern::new(
                ammo.params,
                ammo.construction,
                movement,
                Vec2::zero(),
                copy_slots(&ammo.slots),
            );
            self.patterns.push(pattern);
            assert(self.patterns@.subrange(0, before.len() as int) =~= before);
        }
        fired
    }

    /// Ticks every formation by `delta` nanoseconds.
    pub fn tick_patterns(&mut self, delta: u64)
        requires
            old(self).wf(),
        ensures
            final(self).wf(),
            patterns_ticked(*old(self), *final(self), delta as nat),
    {
        let n = self.patterns.len();
        let mut i: usize = 0;
        while i < n
            invariant
                i <= n == self.patterns@.len() == old(self).patterns@.len(),
                self.origin == old(self).origin,
                self.ammo == old(self).ammo,
                self.shoot_timer == old(self).shoot_timer,
                old(self).wf(),
                forall|j: int| 0 <= j < n ==> (#[trigger] self.patterns@[j]).wf(),
                forall|j: int|
                    0 <= j < i ==> ticked(
                        #[trigger] old(self).patterns@[j],
                        self.patterns@[j],
                        delta as nat,
                    ),
                forall|j: int| i <= j < n ==> #[trigger] self.patterns@[j] == old(self).patterns@[j],
            decreases n - i,
        {
            self.patterns[i].tick(delta);
            i = i + 1;
        }
    }

    /// Despawns, in every formation, the bullets that stand outside `level`.
    pub fn despawn_out_of_bounds(&mut self, level: &Rect)
        requires
            old(self).wf(),
        ensures
            final(self).wf(),
            bullets_bounded(*old(self), *final(self), *level),
    {
        let n = self.patterns.len();
        let mut i: usize = 0;
        while i < n
            invariant
                i <= n == self.patterns@.len() == old(self).patterns@.len(),
                self.origin == old(self).origin,
                self.ammo == old(self).ammo,
                self.shoot_timer == old(self).shoot_timer,
                old(self).wf(),
                forall|j: int| 0 <= j < n ==> (#[trigger] self.patterns@[j]).wf(),
                forall|j: int|
                    0 <= j < i ==> bounded(
                        #[trigger] old(self).patterns@[j],
                        self.patterns@[j],
                        old(self).origin,
                        *level,
                    ),
                forall|j: int| i <= j < n ==> #[trigger] self.patterns@[j] == old(self).patterns@[j],
            decreases n - i,
        {
            let origin = self.origin;
            self.patterns[i].despawn_out_of_bounds(origin, level);
            i = i + 1;
        }
    }

    /// Despawns the spent formations; the others stay, in order.
    pub fn despawn_no_children(&mut self)
        requires
            old(self).wf(),
        ensures
            final(self).wf(),
            spent_removed(*old(self), *final(self)),
    {
        let n = self.patterns.len();
        let mut i: usize = n;
        while i > 0
            invariant
                i <= n == old(self).patterns@.len(),
                self.origin == old(self).origin,
                self.ammo == old(self).ammo,
                self.shoot_timer == old(self).shoot_timer,
                old(self).wf(),
                self.patterns@ == old(self).patterns@.subrange(0, i as int) + live_only(
                    old(self).patterns@.subrange(i as int, n as int),
                ),
                forall|j: int| 0 <= j < self.patterns@.len() ==> (#[trigger] self.patterns@[j]).wf(),
            decreases i,
        {
            i = i - 1;
            let ghost tail = old(self).patterns@.subrange(i as int, n as int);
            assert(tail.drop_first() =~= old(self).patterns@.subrange(i + 1, n as int));
            assert(tail[0] == old(self).patterns@[i as int]);
            if is_spent(&self.patterns[i]) {
                let _ = self.patterns.remove(i);
                assert(self.patterns@ =~= old(self).patterns@.subrange(0, i as int) + live_only(tail));
            } else {
                assert(self.patterns@ =~= old(self).patterns@.subrange(0, i as int) + live_only(tail));
            }
        }
        assert(old(self).patterns@.subrange(0, n as int) =~= old(self).patterns@);
    }
}

impl Turret {
    /// One tick of `delta` nanoseconds, phase by phase: the turret shoots
    /// (when there is a player to aim at), every formation is ticked, the
    /// bullets outside the level are despawned (when the level is known),
    /// and the spent formations are despawned. Returns whether a shot was
    /// fired.
    pub fn tick(&mut self, delta: u64, player: Option<Vec2>, level: Option<Rect>) -> (fired: bool)
        requires
            old(self).wf(),
            player matches Some(p) ==> p.wf(),
        ensures
            final(self).wf(),
            player is None ==> !fired,
            exists|a: Turret, b: Turret, c: Turret|
                {
                    &&& match player {
                        Some(p) => shot(*old(self), a, delta as nat, p, fired),
                        None => a == *old(self),
                    }
                    &&& #[trigger] patterns_ticked(a, b, delta as nat)
                    &&& match level {
                        Some(l) => bullets_bounded(b, c, l),
                        None => c == b,
                    }
                    &&& #[trigger] spent_removed(c, *final(self))
                },
    {
        let ghost start = *self;
        let fired = match player {
            Some(p) => self.shoot(delta, p),
            None => false,
        };
        let ghost a = *self;
        self.tick_patterns(delta);
        let ghost b = *self;
        match level {
            Some(l) => self.despawn_out_of_bounds(&l),
            None => {},
        }
        let ghost c = *self;
        self.despawn_no_children();
        assert(patterns_ticked(a, b, delta as nat));
        fired
    }
}

fn is_spent(p: &Pattern) -> (r: bool)
    ensures
        r == spent(*p),
{
    p.construction.finished && !p.body.disabled && p.bullets.len() == 0
}

/// A turret before and after each of its formations was ticked by `delta`.
pub open spec fn patterns_ticked(old: Turret, new: Turret, delta: nat) -> bool {
    &&& new.origin == old.origin
    &&& new.ammo == old.ammo
    &&& new.shoot_timer == old.shoot_timer
    &&& new.patterns@.len() == old.patterns@.len()
    &&& forall|i: int|
        0 <= i < old.patterns@.len() ==> ticked(#[trigger] old.patterns@[i], new.patterns@[i], delta)
}

/// A turret before and after the bullets outside `level` were despawned.
pub open spec fn bullets_bounded(old: Turret, new: Turret, level: Rect) -> bool {
    &&& new.origin == old.origin
    &&& new.ammo == old.ammo
    &&& new.shoot_timer == old.shoot_timer
    &&& new.patterns@.len() == old.patterns@.len()
    &&& forall|i: int|
        0 <= i < old.patterns@.len() ==> bounded(
            #[trigger] old.patterns@[i],
            new.patterns@[i],
            old.origin,
            level,
        )
}

/// A turret before and after its spent formations were despawned.
pub open spec fn spent_removed(old: Turret, new: Turret) -> bool {
    &&& new.origin == old.origin
    &&& new.ammo == old.ammo
    &&& new.shoot_timer == old.shoot_timer
    &&& new.patterns@ == live_only(old.patterns@)
}

/// A formation before and after its out-of-bounds bullets are despawned,
/// its turret standing at `origin`.
pub open spec fn bounded(old: Pattern, new: Pattern, origin: Vec2, level: Rect) -> bool {
    &&& new.bullets@ == inside_only(old.bullets@, level, world_of(origin@, old.body.position@))
    &&& new.params == old.params
    &&& new.construction == old.construction
    &&& new.construction_type == old.construction_type
    &&& new.body == old.body
    &&& new.slots@ == old.slots@
}

/// Taking `k` shots from a fresh list of `m` entries leaves it at index
/// `k mod m`: after `m` shots it is back at the first entry, and the `k`-th
/// shot is the entry `k mod m`.
pub proof fn ammo_round_trip(trace: Seq<nat>, m: nat)
    requires
        m > 0,
        trace.len() >= 1,
        trace[0] == 0,
        forall|k: int| 0 <= k < trace.len() - 1 ==> #[trigger] trace[k + 1] == next_index(trace[k], m),
    ensures
        forall|k: int| 0 <= k < trace.len() ==> #[trigger] trace[k] == k % (m as int),
        trace.len() > m ==> trace[m as int] == 0,
    decreases trace.len(),
{
    assert(0int % (m as int) == 0) by {
        vstd::arithmetic::div_mod::lemma_small_mod(0, m);
    }
    if trace.len() > 1 {
        let prefix = trace.drop_last();
        ammo_round_trip(prefix, m);
        let k = trace.len() - 1;
        assert(prefix[k - 1] == trace[k - 1]);
        let j = k - 1;
        assert(trace[j + 1] == next_index(trace[j], m));
        assert(trace[k - 1] == (k - 1) % (m as int));
        lemma_next_mod(k - 1, m as int);
        assert forall|j: int| 0 <= j < trace.len() implies #[trigger] trace[j] == j % (m as int) by {
            if j < k {
                assert(prefix[j] == trace[j]);
            }
        }
    }
    if trace.len() > m {
        vstd::arithmetic::div_mod::lemma_mod_self_0(m as int);
    }
}

/// How many of the first `k` steps of a run fired a shot.
pub open spec fn shots_in(fired: Seq<bool>, k: int) -> int
    decreases k,
{
    if k <= 0 {
        0
    } else {
        shots_in(fired, k - 1) + if fired[k - 1] {
            1int
        } else {
            0int
        }
    }
}

/// Over a run of shoot steps of a turret whose list of `M` shots stands at
/// its first entry: the shots never change, after `j` shots the list stands
/// at entry `j mod M` (back at the first after `M` shots), and the formation
/// fired by the `j`-th shot is built from entry `j mod M`.
pub proof fn turret_cycles_ammo(
    trace: Seq<Turret>,
    deltas: Seq<nat>,
    players: Seq<Vec2>,
    fired: Seq<bool>,
)
    requires
        trace.len() >= 1,
        deltas.len() == trace.len() - 1,
        players.len() == trace.len() - 1,
        fired.len() == trace.len() - 1,
        trace[0].ammo.wf(),
        trace[0].ammo.index() == 0,
        forall|k: int|
            0 <= k < trace.len() - 1 ==> shot(
                #[trigger] trace[k],
                trace[k + 1],
                deltas[k],
                players[k],
                fired[k],
            ),
    ensures
        forall|k: int|
            0 <= k < trace.len() ==> (#[trigger] trace[k]).ammo.entries() == trace[0].ammo.entries()
                && trace[k].ammo.index() == shots_in(fired, k) % (trace[0].ammo.entries().len() as int),
        forall|k: int|
            0 <= k < trace.len() - 1 && #[trigger] fired[k] ==> {
                let e = trace[0].ammo.entries()[shots_in(fired, k + 1) % (
                trace[0].ammo.entries().len() as int)];
                let last = trace[k + 1].patterns@[trace[k].patterns@.len() as int];
                &&& trace[k + 1].patterns@.len() == trace[k].patterns@.len() + 1
                &&& last.params == e.params
                &&& last.construction_type == e.construction
                &&& last.body.movement == shot_movement(e, trace[k].origin, players[k])
            },
{
    assert forall|k: int| 0 <= k < trace.len() implies (#[trigger] trace[k]).ammo.entries()
        == trace[0].ammo.entries() && trace[k].ammo.index() == shots_in(fired, k) % (
    trace[0].ammo.entries().len() as int) by {
        lemma_shots_prefix(trace, deltas, players, fired, k);
    }
    assert forall|k: int| 0 <= k < trace.len() - 1 && #[trigger] fired[k] implies {
        let e = trace[0].ammo.entries()[shots_in(fired, k + 1) % (
        trace[0].ammo.entries().len() as int)];
        let last = trace[k + 1].patterns@[trace[k].patterns@.len() as int];
        &&& trace[k + 1].patterns@.len() == trace[k].patterns@.len() + 1
        &&& last.params == e.params
        &&& last.construction_type == e.construction
        &&& last.body.movement == shot_movement(e, trace[k].origin, players[k])
    } by {
        lemma_shots_prefix(trace, deltas, players, fired, k);
        lemma_shots_prefix(trace, deltas, players, fired, k + 1);
        assert(shot(trace[k], trace[k + 1], deltas[k], players[k], fired[k]));
    }
}

proof fn lemma_shots_prefix(
    trace: Seq<Turret>,
    deltas: Seq<nat>,
    players: Seq<Vec2>,
    fired: Seq<bool>,
    k: int,
)
    requires
        trace.len() >= 1,
        deltas.len() == trace.len() - 1,
        players.len() == trace.len() - 1,
        fired.len() == trace.len() - 1,
        trace[0].ammo.wf(),
        trace[0].ammo.index() == 0,
        forall|j: int|
            0 <= j < trace.len() - 1 ==> shot(
                #[trigger] trace[j],
                trace[j + 1],
                deltas[j],
                players[j],
                fired[j],
            ),
        0 <= k < trace.len(),
    ensures
        shots_in(fired, k) >= 0,
        trace[k].ammo.entries() == trace[0].ammo.entries(),
        trace[k].ammo.index() == shots_in(fired, k) % (trace[0].ammo.entries().len() as int),
    decreases k,
{
    let m = trace[0].ammo.entries().len() as int;
    if k == 0 {
        vstd::arithmetic::div_mod::lemma_small_mod(0, m as nat);
    } else {
        lemma_shots_prefix(trace, deltas, players, fired, k - 1);
        assert(shot(trace[k - 1], trace[k], deltas[k - 1], players[k - 1], fired[k - 1]));
        if fired[k - 1] {
            lemma_next_mod(shots_in(fired, k - 1), m);
        }
    }
}

proof fn lemma_next_mod(j: int, m: int)
    requires
        j >= 0,
        m > 0,
    ensures
        next_index((j % m) as nat, m as nat) == (j + 1) % m,
{
    vstd::arithmetic::div_mod::lemma_fundamental_div_mod(j, m);
    vstd::arithmetic::div_mod::lemma_fundamental_div_mod(j + 1, m);
    if j % m + 1 >= m {
        vstd::arithmetic::div_mod::lemma_mod_add_multiples_vanish(0, m);
        assert((j + 1) % m == 0) by {
            assert(j + 1 == (j / m + 1) * m) by (nonlinear_arith)
                requires
                    j == m * (j / m) + j % m,
                    j % m == m - 1,
            ;
            vstd::arithmetic::div_mod::lemma_mod_multiples_basic(j / m + 1, m);
        }
    } else {
        assert((j + 1) % m == j % m + 1) by {
            vstd::arithmetic::div_mod::lemma_mod_add_multiples_vanish(j % m + 1, m);
            assert(j + 1 == (j / m) * m + (j % m + 1)) by (nonlinear_arith)
                requires
                    j == m * (j / m) + j % m,
            ;
            vstd::arithmetic::div_mod::lemma_fundamental_div_mod_converse(
                j + 1,
                m,
                j / m,
                j % m + 1,
            );
        }
    }
}

} // verus!
