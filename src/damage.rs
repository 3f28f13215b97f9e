//! Damage the player takes from bullets.
use vstd::prelude::*;

verus! {

/// A change of the player's health by the given amount.
#[derive(Clone, Copy, Debug, PartialEq, Eq, Structural)]
pub struct ChangeHealth(pub i64);

/// The damage of one tick, given for each bullet whether it overlaps the
/// player: one point when any does, whatever their number; none otherwise.
pub fn bullet_player_collision(overlaps: &Vec<bool>) -> (r: Option<ChangeHealth>)
    ensures
        r == (if exists|i: int| 0 <= i < overlaps@.len() && #[trigger] overlaps@[i] {
            Some(ChangeHealth(-1i64))
        } else {
            None
        }),
{
    let mut i: usize = 0;
    while i < overlaps.len()
        invariant
            i <= overlaps@.len(),
            forall|j: int| 0 <= j < i ==> !#[trigger] overlaps@[j],
        decreases overlaps@.len() - i,
    {
        if overlaps[i] {
            return Some(ChangeHealth(-1));
        }
        i = i + 1;
    }
    None
}

} // verus!
