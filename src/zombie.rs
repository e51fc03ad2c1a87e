use vstd::prelude::*;

use crate::geometry::{boxes_overlap, in_bounds, overlaps, Position, UNIT};
use crate::orientation::{is_terminal, Orientation, Stance};

verus! {

/// Below this distance from the player an agent pursues; at or beyond it, it wanders.
pub const PURSUIT_RANGE: i64 = 300 * UNIT;

/// Displacement per tick while pursuing (1.4 world units).
pub const PURSUIT_SPEED: i64 = 1400;

/// Displacement per tick while wandering (1.0 world unit).
pub const WANDER_SPEED: i64 = UNIT;

/// Half-extent of the square hit box of an agent and of a projectile.
pub const HIT_HALF_EXTENT: i64 = 15 * UNIT;

/// What the collaborators around the simulation report for one agent and one tick.
#[derive(Clone, Copy, Debug, PartialEq, Eq, Structural)]
pub struct TickInput {
    /// Heading that the path-finding step gives from the agent towards the player.
    pub pursuit_heading: Orientation,
    /// Whether the tile under the agent can be entered.
    pub can_move: bool,
    /// Heading towards a randomly chosen point near the agent.
    pub wander_heading: Orientation,
    /// A fair coin: `true` picks the normal death, `false` the critical one.
    pub death_roll: bool,
}

/// Simulation record of one hostile agent.
#[derive(Clone, Copy, Debug, PartialEq, Eq, Structural)]
pub struct ZombieDrawable {
    pub position: Position,
    /// Player position seen at the previous tick.
    pub previous_player_position: Position,
    /// Orientation that the wander policy and the bounce off blocked tiles
    /// set; `Still` makes the animation fall back on the walking frames.
    pub orientation: Orientation,
    pub stance: Stance,
    /// Direction used to choose the sprite row.
    pub facing_direction: Orientation,
    pub last_decision_tick: u64,
    /// Current heading; `Still` is the zero displacement.
    pub movement_vector: Orientation,
    pub alive_frame_index: usize,
    pub death_frame_index: usize,
    /// Displacement per tick along `movement_vector`, in position steps.
    pub movement_speed: i64,
}

/// The wander policy draws a new target this tick.
pub open spec fn redecides(last_decision_tick: u64, tick: u64) -> bool {
    last_decision_tick + 2 < tick || tick == 0
}

/// How far the player moved since the previous tick, on each axis.
pub open spec fn scroll(z: ZombieDrawable, player: Position) -> (int, int) {
    (player.x - z.previous_player_position.x, player.y - z.previous_player_position.y)
}

/// The agent is within pursuit range. Positions are camera-relative with the
/// player at the origin; the agent's position is taken after compensating for
/// this tick's scroll.
pub open spec fn pursues(z: ZombieDrawable, player: Position) -> bool {
    let dx = z.position.x - scroll(z, player).0;
    let dy = z.position.y - scroll(z, player).1;
    dx * dx + dy * dy < PURSUIT_RANGE * PURSUIT_RANGE
}

/// The idle policy: bounce back from a tile that cannot be entered, then, when
/// it is time, head for a new random target.
pub open spec fn wander(z: ZombieDrawable, tick: u64, input: TickInput) -> ZombieDrawable {
    let bounced = if !input.can_move {
        ZombieDrawable {
            movement_vector: z.movement_vector.reversed_spec(),
            orientation: z.movement_vector.reversed_spec(),
            ..z
        }
    } else {
        z
    };
    if redecides(z.last_decision_tick, tick) {
        ZombieDrawable {
            stance: Stance::Walking,
            last_decision_tick: tick,
            movement_vector: input.wander_heading,
            facing_direction: input.wander_heading,
            orientation: input.wander_heading,
            ..bounced
        }
    } else {
        bounced
    }
}

/// Heading, stance and speed chosen for this tick, before the agent moves.
pub open spec fn decided(z: ZombieDrawable, player: Position, tick: u64, input: TickInput) -> ZombieDrawable {
    if is_terminal(z.stance) {
        ZombieDrawable { movement_vector: Orientation::Still, ..z }
    } else if pursues(z, player) {
        ZombieDrawable {
            facing_direction: input.pursuit_heading,
            movement_vector: input.pursuit_heading,
            stance: Stance::Walking,
            movement_speed: PURSUIT_SPEED,
            ..z
        }
    } else {
        ZombieDrawable { movement_speed: WANDER_SPEED, ..wander(z, tick, input) }
    }
}

/// Displacement along one axis for a step component `s` (in thousandths of
/// a unit heading) at `speed`, rounded toward zero.
pub open spec fn axis_move(s: int, speed: int) -> int {
    if s >= 0 {
        s * speed / 1000
    } else {
        -((-s) * speed / 1000)
    }
}

/// The agent after one tick of the motion policy.
pub open spec fn updated(z: ZombieDrawable, player: Position, tick: u64, input: TickInput) -> ZombieDrawable {
    let d = decided(z, player, tick, input);
    let step = d.movement_vector.step_spec();
    ZombieDrawable {
        position: Position {
            x: (z.position.x + axis_move(step.0, d.movement_speed as int) + scroll(z, player).0) as i64,
            y: (z.position.y + axis_move(step.1, d.movement_speed as int) + scroll(z, player).1) as i64,
        },
        previous_player_position: player,
        ..d
    }
}

/// Some projectile's hit box overlaps the one centred on `p`.
pub open spec fn hit_by_any(p: Position, bullets: Seq<Position>) -> bool {
    exists|i: int|
        0 <= i < bullets.len() && #[trigger] boxes_overlap(
            p,
            bullets[i],
            HIT_HALF_EXTENT as int,
            HIT_HALF_EXTENT as int,
        )
}

/// The agent after the projectiles of this tick were tested against it.
pub open spec fn after_hits(z: ZombieDrawable, bullets: Seq<Position>, death_roll: bool) -> ZombieDrawable {
    if !is_terminal(z.stance) && hit_by_any(z.position, bullets) {
        ZombieDrawable {
            stance: if death_roll { Stance::NormalDeath } else { Stance::CriticalDeath },
            ..z
        }
    } else {
        z
    }
}

impl ZombieDrawable {
    /// The coordinates are in range and the speed is one the policy sets.
    pub open spec fn well_placed(self) -> bool {
        &&& in_bounds(self.position)
        &&& in_bounds(self.previous_player_position)
        &&& 0 <= self.movement_speed <= PURSUIT_SPEED
    }

    pub fn is_well_placed(&self) -> (r: bool)
        ensures
            r == self.well_placed(),
    {
        self.position.is_in_bounds() && self.previous_player_position.is_in_bounds()
            && 0 <= self.movement_speed && self.movement_speed <= PURSUIT_SPEED
    }

    /// A standing agent at `position`, facing left, with zero speed.
    pub fn new(position: Position) -> (r: ZombieDrawable)
        ensures
            r == (ZombieDrawable {
                position,
                previous_player_position: Position { x: 0, y: 0 },
                orientation: Orientation::Left,
                stance: Stance::Still,
                facing_direction: Orientation::Left,
                last_decision_tick: 0,
                movement_vector: Orientation::Still,
                alive_frame_index: 0,
                death_frame_index: 0,
                movement_speed: 0,
            }),
    {
        ZombieDrawable {
            position,
            previous_player_position: Position::new(0, 0),
            orientation: Orientation::Left,
            stance: Stance::Still,
            facing_direction: Orientation::Left,
            last_decision_tick: 0,
            movement_vector: Orientation::Still,
            alive_frame_index: 0,
            death_frame_index: 0,
            movement_speed: 0,
        }
    }

    /// Advances the alive animation frame, wrapping to 0 after `max_idx`.
    pub fn update_alive_idx(&mut self, max_idx: usize)
        ensures
            *final(self) == (ZombieDrawable {
                alive_frame_index: if old(self).alive_frame_index < max_idx {
                    (old(self).alive_frame_index + 1) as usize
                } else {
                    0
                },
                ..*old(self)
            }),
            old(self).alive_frame_index <= max_idx ==> final(self).alive_frame_index <= max_idx,
    {
        if self.alive_frame_index < max_idx {
            self.alive_frame_index = self.alive_frame_index + 1;
        } else {
            self.alive_frame_index = 0;
        }
    }

    /// Advances the death animation frame, clamped at `max_idx`.
    pub fn update_death_idx(&mut self, max_idx: usize)
        ensures
            *final(self) == (ZombieDrawable {
                death_frame_index: if old(self).death_frame_index < max_idx {
                    (old(self).death_frame_index + 1) as usize
                } else {
                    max_idx
                },
                ..*old(self)
            }),
            final(self).death_frame_index <= max_idx,
    {
        if self.death_frame_index < max_idx {
            self.death_frame_index = self.death_frame_index + 1;
        } else {
            self.death_frame_index = max_idx;
        }
    }

    /// What the path-finding, walkability and wander-target collaborators are
    /// asked about this tick: the vector from the agent to `player`, and the
    /// player position that becomes the new snapshot.
    pub fn collaborator_query(&self, player: Position) -> (r: (Position, Position))
        requires
            in_bounds(self.position),
            in_bounds(player),
        ensures
            r.0.x == player.x - self.position.x,
            r.0.y == player.y - self.position.y,
            r.1 == player,
    {
        (Position::new(player.x - self.position.x, player.y - self.position.y), player)
    }

    /// One tick of the motion policy: follow the player's scroll, then pursue
    /// within range, wander beyond it, and stay put once dead.
    pub fn update(&mut self, player: Position, game_time: u64, input: &TickInput)
        requires
            old(self).well_placed(),
            in_bounds(player),
        ensures
            *final(self) == updated(*old(self), player, game_time, *input),
            0 <= final(self).movement_speed <= PURSUIT_SPEED,
    {
        let ghost start = *self;
        let off_x: i64 = player.x - self.previous_player_position.x;
        let off_y: i64 = player.y - self.previous_player_position.y;
        let dx: i128 = self.position.x as i128 - off_x as i128;
        let dy: i128 = self.position.y as i128 - off_y as i128;
        proof {
            lemma_square_fits(dx);
            lemma_square_fits(dy);
        }
        let dist_sq: i128 = dx * dx + dy * dy;
        let range: i128 = PURSUIT_RANGE as i128;
        if !self.stance.is_dead() {
            if dist_sq < range * range {
                let h = input.pursuit_heading;
                self.facing_direction = h;
                self.movement_vector = h;
                self.stance = Stance::Walking;
                self.movement_speed = PURSUIT_SPEED;
            } else {
                self.idle_direction_movement(game_time, input);
                self.movement_speed = WANDER_SPEED;
            }
        } else {
            self.movement_vector = Orientation::Still;
        }
        assert(*self == decided(start, player, game_time, *input));
        let (sx, sy) = self.movement_vector.step();
        let speed = self.movement_speed;
        let mx = axis_displacement(sx, speed);
        let my = axis_displacement(sy, speed);
        self.position = Position::new(self.position.x + mx + off_x, self.position.y + my + off_y);
        self.previous_player_position = player;
    }

    fn idle_direction_movement(&mut self, game_time: u64, input: &TickInput)
        ensures
            *final(self) == wander(*old(self), game_time, *input),
    {
        if !input.can_move {
            let back = self.movement_vector.reversed();
            self.movement_vector = back;
            self.orientation = back;
        }
        let due = self.last_decision_tick < game_time && game_time - self.last_decision_tick > 2;
        if due || game_time == 0 {
            let h = input.wander_heading;
            self.stance = Stance::Walking;
            self.last_decision_tick = game_time;
            self.movement_vector = h;
            self.facing_direction = h;
            self.orientation = h;
        }
    }

    /// Tests every projectile against the agent; the first overlap kills a
    /// living agent with the stance that `death_roll` picks.
    pub fn check_bullet_hits(&mut self, bullets: &Vec<Position>, death_roll: bool)
        ensures
            *final(self) == after_hits(*old(self), bullets@, death_roll),
    {
        let ghost start = *self;
        let mut i: usize = 0;
        while i < bullets.len()
            invariant
                0 <= i <= bullets.len(),
                *self == after_hits(start, bullets@.subrange(0, i as int), death_roll),
            decreases bullets.len() - i,
        {
            let hit = overlaps(self.position, bullets[i], HIT_HALF_EXTENT, HIT_HALF_EXTENT);
            proof {
                let prev = bullets@.subrange(0, i as int);
                let next = bullets@.subrange(0, i as int + 1);
                assert(next[i as int] == bullets@[i as int]);
                if hit_by_any(start.position, prev) {
                    let k = choose|k: int|
                        0 <= k < prev.len() && #[trigger] boxes_overlap(
                            start.position,
                            prev[k],
                            HIT_HALF_EXTENT as int,
                            HIT_HALF_EXTENT as int,
                        );
                    assert(next[k] == prev[k]);
                }
                if hit_by_any(start.position, next) && !hit {
                    let k = choose|k: int|
                        0 <= k < next.len() && #[trigger] boxes_overlap(
                            start.position,
                            next[k],
                            HIT_HALF_EXTENT as int,
                            HIT_HALF_EXTENT as int,
                        );
                    assert(k != i);
                    assert(next[k] == prev[k]);
                }
                assert(hit_by_any(start.position, next) == (hit_by_any(start.position, prev) || hit));
            }
            if hit && !self.stance.is_dead() {
                self.stance = if death_roll { Stance::NormalDeath } else { Stance::CriticalDeath };
            }
            i = i + 1;
        }
        assert(bullets@.subrange(0, bullets@.len() as int) == bullets@);
    }
}

fn axis_displacement(s: i64, speed: i64) -> (r: i64)
    requires
        -1000 <= s <= 1000,
        0 <= speed <= PURSUIT_SPEED,
    ensures
        r == axis_move(s as int, speed as int),
        -PURSUIT_SPEED <= r <= PURSUIT_SPEED,
{
    let m: i64 = if s >= 0 { s } else { -s };
    assert(0 <= m * speed <= 1000 * PURSUIT_SPEED) by (nonlinear_arith)
        requires
            0 <= m <= 1000,
            0 <= speed <= PURSUIT_SPEED,
    ;
    let d: i64 = m * speed / 1000;
    if s >= 0 {
        d
    } else {
        -d
    }
}

proof fn lemma_square_fits(d: i128)
    requires
        -0x1000_0000_0000 <= d <= 0x1000_0000_0000,
    ensures
        0 <= d * d <= 0x100_0000_0000_0000_0000_0000,
{
    assert(0 <= d * d <= 0x100_0000_0000_0000_0000_0000) by (nonlinear_arith)
        requires
            -0x1000_0000_0000 <= d <= 0x1000_0000_0000,
    ;
}

/// A dead agent stays dead: neither a tick of the motion policy nor any
/// projectile changes a death stance, and the motion policy leaves such an
/// agent with no heading.
pub proof fn lemma_terminal_stance_kept(
    z: ZombieDrawable,
    player: Position,
    tick: u64,
    input: TickInput,
    bullets: Seq<Position>,
    death_roll: bool,
)
    requires
        is_terminal(z.stance),
    ensures
        updated(z, player, tick, input).stance == z.stance,
        updated(z, player, tick, input).movement_vector == Orientation::Still,
        after_hits(z, bullets, death_roll) == z,
        after_hits(updated(z, player, tick, input), bullets, death_roll) == updated(
            z,
            player,
            tick,
            input,
        ),
{
}

} // verus!
