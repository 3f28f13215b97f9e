//! Retiring bullets that leave the level, and formations left empty.
use crate::fixed::Vec2;
use crate::pattern::{Body, Pattern};
use vstd::prelude::*;

verus! {

/// The level's rectangle in world coordinates.
#[derive(Clone, Copy, Debug, PartialEq, Eq, Structural)]
pub struct Rect {
    pub min: Vec2,
    pub max: Vec2,
}

/// Whether the point `p` lies outside `r`; its edges count as inside.
pub open spec fn outside(r: Rect, p: (int, int)) -> bool {
    p.0 > r.max.x || p.1 > r.max.y || p.0 < r.min.x || p.1 < r.min.y
}

/// The world position of a body at `local` under a parent at `base`.
pub open spec fn world_of(base: (int, int), local: (int, int)) -> (int, int) {
    (base.0 + local.0, base.1 + local.1)
}

/// The bodies of `bs` that stand inside `r` under a parent at `base`, in
/// their order.
pub open spec fn inside_only(bs: Seq<Body>, r: Rect, base: (int, int)) -> Seq<Body>
    decreases bs.len(),
{
    if bs.len() == 0 {
        seq![]
    } else {
        let rest = inside_only(bs.drop_last(), r, base);
        if outside(r, world_of(base, bs.last().position@)) {
            rest
        } else {
            rest.push(bs.last())
        }
    }
}

/// Whether two boxes centred at `p` and `q` overlap, `reach` being the sum
/// of their half sizes along each axis.
pub open spec fn touching(p: (int, int), q: (int, int), reach: (int, int)) -> bool {
    -reach.0 <= p.0 - q.0 <= reach.0 && -reach.1 <= p.1 - q.1 <= reach.1
}

impl Rect {
    /// Whether `pos` lies outside the rectangle.
    pub fn out_of_bounds(&self, pos: Vec2) -> (r: bool)
        ensures
            r == outside(*self, pos@),
    {
        pos.x > self.max.x || pos.y > self.max.y || pos.x < self.min.x || pos.y < self.min.y
    }
}

/// Every body of `inside_only(bs, ..)` is a body of `bs`.
proof fn lemma_inside_only_from(bs: Seq<Body>, r: Rect, base: (int, int))
    ensures
        inside_only(bs, r, base).len() <= bs.len(),
        forall|j: int|
            0 <= j < inside_only(bs, r, base).len() ==> exists|i: int|
                0 <= i < bs.len() && bs[i] == #[trigger] inside_only(bs, r, base)[j],
    decreases bs.len(),
{
    if bs.len() > 0 {
        let rest = inside_only(bs.drop_last(), r, base);
        lemma_inside_only_from(bs.drop_last(), r, base);
        assert forall|j: int| 0 <= j < inside_only(bs, r, base).len() implies exists|i: int|
            0 <= i < bs.len() && bs[i] == #[trigger] inside_only(bs, r, base)[j] by {
            if j < rest.len() {
                let i = choose|i: int| 0 <= i < bs.drop_last().len() && bs.drop_last()[i] == rest[j];
                assert(bs[i] == inside_only(bs, r, base)[j]);
            } else {
                assert(bs[bs.len() - 1] == inside_only(bs, r, base)[j]);
            }
        }
    }
}

/// Despawning by bounds keeps exactly the bodies inside the level: no body
/// kept stands outside, and every body that stands inside is kept.
pub proof fn despawn_keeps_exactly_inside(bs: Seq<Body>, r: Rect, base: (int, int))
    ensures
        forall|j: int|
            0 <= j < inside_only(bs, r, base).len() ==> !outside(
                r,
                world_of(base, (#[trigger] inside_only(bs, r, base)[j]).position@),
            ),
        forall|i: int|
            0 <= i < bs.len() && !outside(r, world_of(base, (#[trigger] bs[i]).position@))
                ==> inside_only(bs, r, base).contains(bs[i]),
    decreases bs.len(),
{
    if bs.len() > 0 {
        let init = bs.drop_last();
        let rest = inside_only(init, r, base);
        despawn_keeps_exactly_inside(init, r, base);
        let all = inside_only(bs, r, base);
        assert forall|j: int| 0 <= j < all.len() implies !outside(
            r,
            world_of(base, (#[trigger] all[j]).position@),
        ) by {
            if j < rest.len() {
                assert(all[j] == rest[j]);
            }
        }
        assert forall|i: int|
            0 <= i < bs.len() && !outside(r, world_of(base, (#[trigger] bs[i]).position@)) implies all.contains(
            bs[i],
        ) by {
            if i < bs.len() - 1 {
                assert(init[i] == bs[i]);
                assert(rest.contains(bs[i]));
                let k = choose|k: int| 0 <= k < rest.len() && rest[k] == bs[i];
                assert(all[k] == bs[i]);
            } else {
                assert(all[all.len() - 1] == bs[i]);
            }
        }
    }
}

impl Pattern {
    /// For each bullet, in order, whether its box overlaps the player's box
    /// centred at `player`; the formation's parent stands at `base`, and
    /// `reach` is the sum of the two boxes' half sizes.
    pub fn overlaps(&self, base: Vec2, player: Vec2, reach: Vec2) -> (r: Vec<bool>)
        requires
            self.wf(),
            base.wf(),
            player.wf(),
            reach.wf(),
        ensures
            r@.len() == self.bullets@.len(),
            forall|j: int|
                0 <= j < r@.len() ==> #[trigger] r@[j] == touching(
                    world_of(world_of(base@, self.body.position@), self.bullets@[j].position@),
                    player@,
                    reach@,
                ),
    {
        let ox = base.x + self.body.position.x;
        let oy = base.y + self.body.position.y;
        let mut r: Vec<bool> = Vec::new();
        let mut i: usize = 0;
        while i < self.bullets.len()
            invariant
                self.wf(),
                player.wf(),
                reach.wf(),
                ox == base.x + self.body.position.x,
                oy == base.y + self.body.position.y,
                -2_000_000_000 <= ox <= 2_000_000_000,
                -2_000_000_000 <= oy <= 2_000_000_000,
                i <= self.bullets@.len(),
                r@.len() == i,
                forall|j: int|
                    0 <= j < i ==> #[trigger] r@[j] == touching(
                        world_of(world_of(base@, self.body.position@), self.bullets@[j].position@),
                        player@,
                        reach@,
                    ),
            decreases self.bullets@.len() - i,
        {
            let b = self.bullets[i];
            let dx = ox + b.position.x - player.x;
            let dy = oy + b.position.y - player.y;
            r.push(-reach.x <= dx && dx <= reach.x && -reach.y <= dy && dy <= reach.y);
            i = i + 1;
        }
        r
    }

    /// Despawns the bullets whose world position lies outside `level`, the
    /// formation's parent standing at `base`; the others stay, in order.
    pub fn despawn_out_of_bounds(&mut self, base: Vec2, level: &Rect)
        requires
            old(self).wf(),
            base.wf(),
        ensures
            final(self).wf(),
            final(self).bullets@ == inside_only(
                old(self).bullets@,
                *level,
                world_of(base@, old(self).body.position@),
            ),
            final(self).params == old(self).params,
            final(self).construction == old(self).construction,
            final(self).construction_type == old(self).construction_type,
            final(self).body == old(self).body,
            final(self).slots@ == old(self).slots@,
    {
        let ghost origin = world_of(base@, self.body.position@);
        let ox = base.x + self.body.position.x;
        let oy = base.y + self.body.position.y;
        let n = self.bullets.len();
        let mut kept: Vec<Body> = Vec::new();
        let mut i: usize = 0;
        while i < n
            invariant
                n == self.bullets@.len(),
                *self == *old(self),
                self.wf(),
                -2_000_000_000_000 <= ox <= 2_000_000_000_000,
                -2_000_000_000_000 <= oy <= 2_000_000_000_000,
                i <= n,
                ox == origin.0,
                oy == origin.1,
                kept@ == inside_only(self.bullets@.subrange(0, i as int), *level, origin),
        decreases n - i,
        {
            let b = self.bullets[i];
            let pos = Vec2 { x: ox + b.position.x, y: oy + b.position.y };
            let out = level.out_of_bounds(pos);
            proof {
                let s = self.bullets@.subrange(0, i + 1);
                assert(s.drop_last() =~= self.bullets@.subrange(0, i as int));
                assert(s.last() == b);
            }
            if !out {
                kept.push(b);
            }
            i = i + 1;
        }
        assert(self.bullets@.subrange(0, n as int) =~= self.bullets@);
        proof {
            lemma_inside_only_from(self.bullets@, *level, origin);
        }
        self.bullets = kept;
    }
}

} // verus!
