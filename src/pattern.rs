//! Formations: timed construction of bullets into a shape, their activation
//! once complete, and their movement afterwards.
use crate::construction::ConstructionType;
use crate::fixed::{add_clamped, in_range, scaled, step, vec_of, Vec2};
use crate::movement::{
    acceleration_of, lemma_start_velocity_in_range, start_velocity_of, MovementType,
};
use crate::timer::{repeat_elapsed, repeat_fires, RepeatingTimer};
use vstd::prelude::*;

verus! {

/// Something that moves by a movement profile: a bullet, or a formation
/// itself. Its position is relative to its parent.
#[derive(Clone, Copy, Debug, PartialEq, Eq, Structural)]
pub struct Body {
    pub position: Vec2,
    pub velocity: Vec2,
    pub acceleration: Vec2,
    pub movement: MovementType,
    /// Held still while its formation is under construction.
    pub disabled: bool,
}

/// A body just spawned at `position`: disabled and at rest.
pub open spec fn resting(position: Vec2, movement: MovementType) -> Body {
    Body {
        position,
        velocity: vec_of((0, 0)),
        acceleration: vec_of((0, 0)),
        movement,
        disabled: true,
    }
}

/// `b` enabled, with the start velocity of its profile and no acceleration.
pub open spec fn activated(b: Body) -> Body {
    Body {
        velocity: vec_of(start_velocity_of(b.movement, b.position@)),
        acceleration: vec_of((0, 0)),
        disabled: false,
        ..b
    }
}

/// `b` after `dt` nanoseconds of motion: the acceleration is recomputed from
/// the profile, the velocity grows by it and the position by the velocity.
pub open spec fn integrated(b: Body, dt: nat) -> Body {
    let a = acceleration_of(b.movement, b.position@);
    let v = add_clamped(b.velocity@, step(a, dt as int));
    let p = add_clamped(b.position@, step(v, dt as int));
    Body { position: vec_of(p), velocity: vec_of(v), acceleration: vec_of(a), ..b }
}

impl Body {
    /// Every quantity in range; a disabled body is at rest.
    pub open spec fn wf(self) -> bool {
        &&& self.position.wf()
        &&& self.velocity.wf()
        &&& self.acceleration.wf()
        &&& self.movement.wf()
        &&& self.disabled ==> self.velocity.is_zero() && self.acceleration.is_zero()
    }

    /// A disabled body at rest at `position`.
    pub fn resting(position: Vec2, movement: MovementType) -> (r: Body)
        requires
            position.wf(),
            movement.wf(),
        ensures
            r == resting(position, movement),
            r.wf(),
    {
        Body { position, velocity: Vec2::zero(), acceleration: Vec2::zero(), movement, disabled: true }
    }

    /// Enables the body with the start velocity of its profile.
    pub fn activate(&mut self)
        requires
            old(self).wf(),
        ensures
            *final(self) == activated(*old(self)),
            final(self).wf(),
    {
        self.velocity = self.movement.start_velocity(self.position);
        self.acceleration = Vec2::zero();
        self.disabled = false;
    }

    /// Moves the body for `dt` nanoseconds.
    pub fn integrate(&mut self, dt: u64)
        requires
            old(self).wf(),
            !old(self).disabled,
        ensures
            *final(self) == integrated(*old(self), dt as nat),
            final(self).wf(),
    {
        let a = self.movement.acceleration(self.position);
        let v = self.velocity.add_clamped(&a.over(dt));
        let p = self.position.add_clamped(&v.over(dt));
        self.acceleration = a;
        self.velocity = v;
        self.position = p;
    }
}

/// Enables every body of `bodies`.
fn activate_all(bodies: &mut Vec<Body>)
    requires
        forall|i: int| 0 <= i < old(bodies)@.len() ==> (#[trigger] old(bodies)@[i]).wf(),
    ensures
        final(bodies)@.len() == old(bodies)@.len(),
        forall|i: int|
            0 <= i < old(bodies)@.len() ==> #[trigger] final(bodies)@[i] == activated(
                old(bodies)@[i],
            ),
        forall|i: int| 0 <= i < final(bodies)@.len() ==> (#[trigger] final(bodies)@[i]).wf(),
{
    let n = bodies.len();
    let mut i: usize = 0;
    while i < n
        invariant
            i <= n == bodies@.len() == old(bodies)@.len(),
            forall|j: int| 0 <= j < i ==> #[trigger] bodies@[j] == activated(old(bodies)@[j]),
            forall|j: int| i <= j < n ==> #[trigger] bodies@[j] == old(bodies)@[j],
            forall|j: int| 0 <= j < n ==> (#[trigger] bodies@[j]).wf(),
        decreases n - i,
    {
        let mut b = bodies[i];
        b.activate();
        bodies.set(i, b);
        i = i + 1;
    }
}

/// Moves every body of `bodies` for `dt` nanoseconds.
fn integrate_all(bodies: &mut Vec<Body>, dt: u64)
    requires
        forall|i: int|
            0 <= i < old(bodies)@.len() ==> (#[trigger] old(bodies)@[i]).wf() && !old(
                bodies,
            )@[i].disabled,
    ensures
        final(bodies)@.len() == old(bodies)@.len(),
        forall|i: int|
            0 <= i < old(bodies)@.len() ==> #[trigger] final(bodies)@[i] == integrated(
                old(bodies)@[i],
                dt as nat,
            ),
        forall|i: int| 0 <= i < final(bodies)@.len() ==> (#[trigger] final(bodies)@[i]).wf(),
{
    let n = bodies.len();
    let mut i: usize = 0;
    while i < n
        invariant
            i <= n == bodies@.len() == old(bodies)@.len(),
            forall|j: int|
                0 <= j < i ==> #[trigger] bodies@[j] == integrated(old(bodies)@[j], dt as nat),
            forall|j: int| i <= j < n ==> #[trigger] bodies@[j] == old(bodies)@[j],
            forall|j: int| 0 <= j < n ==> (#[trigger] bodies@[j]).wf(),
            forall|j: int| i <= j < n ==> !(#[trigger] bodies@[j]).disabled,
        decreases n - i,
    {
        let mut b = bodies[i];
        b.integrate(dt);
        bodies.set(i, b);
        i = i + 1;
    }
}

/// What a formation is built from.
#[derive(Clone, Copy, Debug, PartialEq, Eq, Structural)]
pub struct PatternParams {
    /// Fixed-point factor applied to the unit offsets (`UNIT` stands for one).
    pub scale: i64,
    /// How many bullets the formation holds when complete.
    pub bullet_amount: u64,
    /// The profile every bullet moves by.
    pub bullet_movement: MovementType,
    /// Nanoseconds between two bullets.
    pub construction_frequency: u64,
}

impl PatternParams {
    pub open spec fn wf(self) -> bool {
        in_range(self.scale as int) && self.bullet_movement.wf()
    }
}

/// How far construction has come.
#[derive(Clone, Copy, Debug, PartialEq, Eq, Structural)]
pub struct PatternConstruction {
    /// Bullets spawned so far.
    pub progress: u64,
    pub timer: RepeatingTimer,
    pub finished: bool,
}

/// A formation: a group of bullets sharing an origin, built one bullet per
/// timer period, enabled all together once complete.
#[derive(Debug)]
pub struct Pattern {
    pub params: PatternParams,
    pub construction_type: ConstructionType,
    pub construction: PatternConstruction,
    /// The formation's own motion, relative to its spawner.
    pub body: Body,
    /// Unit offsets of the bullets, one per bullet, in spawn order.
    pub slots: Vec<Vec2>,
    /// The bullets alive, positioned relative to the formation.
    pub bullets: Vec<Body>,
}

/// The bullet spawned into slot `slot` of a formation.
pub open spec fn spawned(slot: Vec2, params: PatternParams) -> Body {
    resting(vec_of(scaled(slot@, params.scale as int)), params.bullet_movement)
}

/// The relation between a formation before and after one tick of `delta`
/// nanoseconds.
pub open spec fn ticked(old: Pattern, new: Pattern, delta: nat) -> bool {
    let timer = old.construction.timer;
    let fired = repeat_fires(timer.duration as nat, timer.elapsed as nat, delta);
    let progress = old.construction.progress;
    let finished = old.construction.finished || (fired && progress >= old.params.bullet_amount);
    let spawn = fired && !finished;
    let n = old.bullets@.len();
    &&& new.params == old.params
    &&& new.construction_type == old.construction_type
    &&& new.slots@ == old.slots@
    &&& new.construction.timer == RepeatingTimer {
        duration: timer.duration,
        elapsed: repeat_elapsed(timer.duration as nat, timer.elapsed as nat, delta) as u64,
        just_finished: fired,
    }
    &&& new.construction.finished == finished
    &&& new.construction.progress == progress + if spawn {
        1int
    } else {
        0int
    }
    &&& new.bullets@.len() == n + if spawn {
        1int
    } else {
        0int
    }
    &&& spawn ==> new.bullets@[n as int] == spawned(old.slots@[progress as int], old.params)
    &&& if old.body.disabled && finished {
        &&& new.body == activated(old.body)
        &&& forall|i: int| 0 <= i < n ==> #[trigger] new.bullets@[i] == activated(old.bullets@[i])
    } else if old.body.disabled {
        &&& new.body == old.body
        &&& forall|i: int| 0 <= i < n ==> #[trigger] new.bullets@[i] == old.bullets@[i]
    } else {
        &&& new.body == integrated(old.body, delta)
        &&& forall|i: int|
            0 <= i < n ==> #[trigger] new.bullets@[i] == integrated(old.bullets@[i], delta)
    }
}

impl Pattern {
    /// The formation's invariant.
    pub open spec fn wf(self) -> bool {
        &&& self.params.wf()
        &&& self.construction_type.wf()
        &&& self.construction.progress <= self.params.bullet_amount
        &&& self.construction.finished ==> self.construction.progress == self.params.bullet_amount
        &&& !self.construction.finished ==> self.body.disabled
        &&& self.slots@.len() == self.params.bullet_amount
        &&& forall|i: int| 0 <= i < self.slots@.len() ==> (#[trigger] self.slots@[i]).wf()
        &&& self.bullets@.len() <= self.construction.progress
        &&& self.body.wf()
        &&& forall|i: int|
            0 <= i < self.bullets@.len() ==> {
                &&& (#[trigger] self.bullets@[i]).wf()
                &&& self.bullets@[i].disabled == self.body.disabled
                &&& self.bullets@[i].movement == self.params.bullet_movement
            }
    }

    /// Whether the formation and its bullets are still held for construction.
    pub open spec fn is_disabled(self) -> bool {
        self.body.disabled
    }

    /// A formation about to be built at `position`, moving by `movement`.
    /// `slots` holds the unit offset of each bullet in spawn order; a
    /// formation of no bullets is complete from the start.
    pub fn new(
        params: PatternParams,
        construction_type: ConstructionType,
        movement: MovementType,
        position: Vec2,
        slots: Vec<Vec2>,
    ) -> (r: Pattern)
        requires
            params.wf(),
            construction_type.wf(),
            movement.wf(),
            position.wf(),
            slots@.len() == params.bullet_amount,
            forall|i: int| 0 <= i < slots@.len() ==> (#[trigger] slots@[i]).wf(),
        ensures
            r.wf(),
            r.params == params,
            r.construction_type == construction_type,
            r.slots@ == slots@,
            r.body == resting(position, movement),
            r.bullets@.len() == 0,
            r.construction.progress == 0,
            r.construction.finished == (params.bullet_amount == 0),
            r.construction.timer.duration == params.construction_frequency,
            r.construction.timer.elapsed == 0,
            !r.construction.timer.just_finished,
    {
        Pattern {
            params,
            construction_type,
            construction: PatternConstruction {
                progress: 0,
                timer: RepeatingTimer::new(params.construction_frequency, 0),
                finished: params.bullet_amount == 0,
            },
            body: Body::resting(position, movement),
            slots,
            bullets: Vec::new(),
        }
    }

    /// One tick of `delta` nanoseconds: the construction timer advances; on
    /// a finished period the next bullet is spawned, disabled, into its slot,
    /// or, with every bullet spawned, the formation is marked finished. A
    /// finished formation that is still disabled is then enabled with all
    /// its bullets, each taking the start velocity of its profile; one that
    /// was enabled already moves, with its bullets, by their profiles.
    pub fn tick(&mut self, delta: u64)
        requires
            old(self).wf(),
        ensures
            final(self).wf(),
            ticked(*old(self), *final(self), delta as nat),
    {
        let fired = self.construction.timer.tick(delta);
        if fired {
            if self.construction.progress >= self.params.bullet_amount {
                self.construction.finished = true;
            }
            if !self.construction.finished {
                assert(self.construction.progress < self.slots.len());
                let k = self.construction.progress as usize;
                assert(k == self.construction.progress);
                let slot = self.slots[k];
                let b = Body::resting(slot.scaled(self.params.scale), self.params.bullet_movement);
                self.bullets.push(b);
                self.construction.progress = self.construction.progress + 1;
            }
        }
        if self.body.disabled {
            if self.construction.finished {
                activate_all(&mut self.bullets);
                self.body.activate();
            }
        } else {
            integrate_all(&mut self.bullets, delta);
            self.body.integrate(delta);
        }
    }
}

/// A bullet held for construction is at rest, whatever its profile.
pub proof fn disabled_bullets_at_rest(p: Pattern)
    requires
        p.wf(),
    ensures
        forall|i: int|
            0 <= i < p.bullets@.len() && (#[trigger] p.bullets@[i]).disabled ==> p.bullets@[i].velocity@
                == (0int, 0int) && p.bullets@[i].acceleration@ == (0int, 0int),
{
}

/// On the tick a formation's construction finishes, it is enabled, and each
/// of its bullets is enabled where it stands, moving at the start velocity
/// of its profile at that position.
pub proof fn activation_sets_start_velocity(old: Pattern, new: Pattern, delta: nat)
    requires
        old.wf(),
        ticked(old, new, delta),
        old.is_disabled(),
        new.construction.finished,
    ensures
        !new.is_disabled(),
        new.bullets@.len() == old.bullets@.len(),
        forall|i: int|
            0 <= i < new.bullets@.len() ==> {
                &&& !(#[trigger] new.bullets@[i]).disabled
                &&& new.bullets@[i].position == old.bullets@[i].position
                &&& new.bullets@[i].velocity@ == start_velocity_of(
                    new.bullets@[i].movement,
                    new.bullets@[i].position@,
                )
            },
{
    assert forall|i: int| 0 <= i < new.bullets@.len() implies {
        &&& !(#[trigger] new.bullets@[i]).disabled
        &&& new.bullets@[i].position == old.bullets@[i].position
        &&& new.bullets@[i].velocity@ == start_velocity_of(
            new.bullets@[i].movement,
            new.bullets@[i].position@,
        )
    } by {
        let b = old.bullets@[i];
        assert(b.wf());
        lemma_start_velocity_in_range(b.movement, b.position);
    }
}

/// How many of the first `k` ticks of `trace` finished a timer period.
pub open spec fn periods_in(trace: Seq<Pattern>, k: int) -> int
    decreases k,
{
    if k <= 0 {
        0
    } else {
        periods_in(trace, k - 1) + if trace[k].construction.timer.just_finished {
            1int
        } else {
            0int
        }
    }
}

/// Ticking a fresh formation (nothing spawned, not finished) with a target
/// of `N`, by ticks of any lengths: once its timer has finished `k`
/// periods, `min(k, N)` bullets have been spawned and are alive; the
/// formation is finished exactly when `k > N`, and its bullets are disabled
/// exactly while it is not.
pub proof fn construction_monotonic(trace: Seq<Pattern>, deltas: Seq<nat>)
    requires
        trace.len() >= 1,
        deltas.len() == trace.len() - 1,
        forall|k: int| 0 <= k < trace.len() ==> (#[trigger] trace[k]).wf(),
        trace[0].construction.progress == 0,
        trace[0].bullets@.len() == 0,
        !trace[0].construction.finished,
        forall|k: int|
            0 <= k < trace.len() - 1 ==> ticked(#[trigger] trace[k], trace[k + 1], deltas[k]),
    ensures
        forall|k: int|
            0 <= k < trace.len() ==> {
                let n = trace[0].params.bullet_amount as int;
                let p = periods_in(trace, k);
                let done = if p <= n {
                    p
                } else {
                    n
                };
                &&& (#[trigger] trace[k]).construction.progress == done
                &&& trace[k].bullets@.len() == done
                &&& trace[k].construction.finished == (p > n)
                &&& forall|i: int|
                    0 <= i < trace[k].bullets@.len() ==> (#[trigger] trace[k].bullets@[i]).disabled
                        == (p <= n)
            },
{
    assert forall|k: int| 0 <= k < trace.len() implies {
        let n = trace[0].params.bullet_amount as int;
        let p = periods_in(trace, k);
        let done = if p <= n {
            p
        } else {
            n
        };
        &&& (#[trigger] trace[k]).construction.progress == done
        &&& trace[k].bullets@.len() == done
        &&& trace[k].construction.finished == (p > n)
        &&& forall|i: int|
            0 <= i < trace[k].bullets@.len() ==> (#[trigger] trace[k].bullets@[i]).disabled == (p
                <= n)
    } by {
        lemma_trace_prefix(trace, deltas, k);
    }
}

/// The state after `k` ticks of the trace of `construction_monotonic`.
proof fn lemma_trace_prefix(trace: Seq<Pattern>, deltas: Seq<nat>, k: int)
    requires
        trace.len() >= 1,
        deltas.len() == trace.len() - 1,
        forall|j: int| 0 <= j < trace.len() ==> (#[trigger] trace[j]).wf(),
        trace[0].construction.progress == 0,
        trace[0].bullets@.len() == 0,
        !trace[0].construction.finished,
        forall|j: int|
            0 <= j < trace.len() - 1 ==> ticked(#[trigger] trace[j], trace[j + 1], deltas[j]),
        0 <= k < trace.len(),
    ensures
        ({
            let n = trace[0].params.bullet_amount as int;
            let p = periods_in(trace, k);
            let done = if p <= n {
                p
            } else {
                n
            };
            &&& p >= 0
            &&& trace[k].params == trace[0].params
            &&& trace[k].construction.progress == done
            &&& trace[k].bullets@.len() == done
            &&& trace[k].construction.finished == (p > n)
            &&& trace[k].body.disabled == (p <= n)
            &&& forall|i: int|
                0 <= i < trace[k].bullets@.len() ==> (#[trigger] trace[k].bullets@[i]).disabled
                    == (p <= n)
        }),
    decreases k,
{
    if k == 0 {
        assert(trace[0].body.disabled);
    } else {
        lemma_trace_prefix(trace, deltas, k - 1);
        let prev = trace[k - 1];
        let cur = trace[k];
        assert(ticked(prev, cur, deltas[k - 1]));
        assert(cur.wf());
    }
}

} // verus!
