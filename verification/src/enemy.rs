//! How an enemy decides what to do: it hops at random while the player is
//! near.

use vstd::prelude::*;
use crate::actor::Actor;
use crate::grid::W;
use crate::rand::{state_after, xorshift, Rand};

verus! {

/// Ticks for which an enemy's jump stays pending.
pub const HOP_TICKS: i32 = 3;

/// An enemy notices the player within this squared distance.
pub const SIGHT: isize = 70;

/// The enemy is close enough to the player to notice it.
pub open spec fn sees(enemy: Actor, player: Actor) -> bool {
    (player.pos.x - enemy.pos.x) * (player.pos.x - enemy.pos.x) + (player.pos.y - enemy.pos.y) * (
    player.pos.y - enemy.pos.y) < SIGHT
}

/// The intent chosen by a draw: left, none or right.
pub open spec fn roll(r: usize) -> int {
    -1 + r % 3
}

/// A first choice the enemy does not keep: standing still, or heading into
/// the border it stands against.
pub open spec fn rerolls(enemy: Actor, power: int) -> bool {
    power == 0 || (enemy.pos.x == 1 && power == -1) || (enemy.pos.x == W - 2 && power == 1)
}

/// The number of draws an enemy's decision takes from stream state `seed`.
pub open spec fn chase_draws(enemy: Actor, player: Actor, seed: usize) -> nat {
    if !sees(enemy, player) {
        0
    } else if rerolls(enemy, roll(xorshift(seed))) {
        2
    } else {
        1
    }
}

/// The enemy after its decision. Near the player it requests a jump and draws
/// an intent, drawing once more if the first is one it does not keep; far
/// from the player it drops any pending jump.
pub open spec fn chased(enemy: Actor, player: Actor, seed: usize) -> Actor {
    if sees(enemy, player) {
        let first = roll(xorshift(seed));
        let power = if rerolls(enemy, first) {
            roll(xorshift(xorshift(seed)))
        } else {
            first
        };
        Actor { jump: HOP_TICKS, right_power: power as isize, ..enemy }
    } else {
        Actor { jump: 0, ..enemy }
    }
}

/// Lets an enemy decide.
pub fn chase(enemy: &mut Actor, player: &Actor, rand: &mut Rand)
    requires
        old(enemy).wf(),
        player.wf(),
    ensures
        *final(enemy) == chased(*old(enemy), *player, old(rand).0),
        final(rand).0 == state_after(old(rand).0, chase_draws(*old(enemy), *player, old(rand).0)),
        final(enemy).wf(),
{
    let across = player.pos.x - enemy.pos.x;
    let down = player.pos.y - enemy.pos.y;
    assert(0 <= across * across <= 6400 && 0 <= down * down <= 576) by (nonlinear_arith)
        requires
            -80 <= across <= 80,
            -24 <= down <= 24,
    ;
    let dist = across * across + down * down;
    proof {
        reveal_with_fuel(state_after, 3);
    }
    if dist < SIGHT {
        enemy.jump = HOP_TICKS;
        enemy.right_power = -1 + (rand.next() % 3) as isize;
        if enemy.right_power == 0 || (enemy.pos.x == 1 && enemy.right_power == -1) || (enemy.pos.x
            == W - 2 && enemy.right_power == 1) {
            enemy.right_power = -1 + (rand.next() % 3) as isize;
        }
    } else {
        enemy.jump = 0;
    }
}

} // verus!
