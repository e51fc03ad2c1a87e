use vstd::prelude::*;

use crate::geometry::{in_bounds, Position};
use crate::zombie::{after_hits, updated, TickInput, ZombieDrawable};

verus! {

/// The per-tick state-advance pass over all agents.
#[derive(Clone, Copy, Debug, PartialEq, Eq, Structural)]
pub struct PreDrawSystem {}

/// Agent `z` after one full tick: the motion policy, then the projectiles.
pub open spec fn ticked(
    z: ZombieDrawable,
    player: Position,
    tick: u64,
    input: TickInput,
    bullets: Seq<Position>,
) -> ZombieDrawable {
    after_hits(updated(z, player, tick, input), bullets, input.death_roll)
}

impl PreDrawSystem {
    pub fn new() -> (r: PreDrawSystem)
        ensures
            r == (PreDrawSystem {}),
    {
        PreDrawSystem {}
    }

    /// Advances every agent by one tick: agent `i` gets the collaborators'
    /// report `inputs[i]`, moves, and is then tested against `bullets`.
    pub fn run(
        &self,
        zombies: &mut Vec<ZombieDrawable>,
        player: Position,
        game_time: u64,
        inputs: &Vec<TickInput>,
        bullets: &Vec<Position>,
    )
        requires
            old(zombies)@.len() == inputs@.len(),
            in_bounds(player),
            forall|i: int| 0 <= i < old(zombies)@.len() ==> #[trigger] old(zombies)@[i].well_placed(),
        ensures
            final(zombies)@.len() == old(zombies)@.len(),
            forall|i: int|
                0 <= i < old(zombies)@.len() ==> #[trigger] final(zombies)@[i] == ticked(
                    old(zombies)@[i],
                    player,
                    game_time,
                    inputs@[i],
                    bullets@,
                ),
    {
        let ghost start = zombies@;
        let mut i: usize = 0;
        while i < zombies.len()
            invariant
                0 <= i <= zombies@.len(),
                zombies@.len() == start.len(),
                start.len() == inputs@.len(),
                in_bounds(player),
                forall|j: int| 0 <= j < start.len() ==> #[trigger] start[j].well_placed(),
                forall|j: int| i <= j < start.len() ==> #[trigger] zombies@[j] == start[j],
                forall|j: int|
                    0 <= j < i ==> #[trigger] zombies@[j] == ticked(
                        start[j],
                        player,
                        game_time,
                        inputs@[j],
                        bullets@,
                    ),
            decreases start.len() - i,
        {
            let mut z = zombies[i];
            let input = inputs[i];
            assert(z.well_placed());
            z.update(player, game_time, &input);
            z.check_bullet_hits(bullets, input.death_roll);
            zombies[i] = z;
            i = i + 1;
        }
    }
}

} // verus!
