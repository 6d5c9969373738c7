//! The actor: the physics and state machine that moves the player and the
//! enemies through the grid, one tick at a time.

use vstd::prelude::*;
use crate::grid::{blocks_fall, blocks_rise, index_of, interior, Cell, Grid, Pos, H, W};
use crate::num::{abs, abs_of, clamp, clamp_of, signum, signum_of};
use crate::particle::{burst, spawn_particles, Particle, BURST};
use crate::pixel::Color;
use crate::rand::{state_after, Rand};

verus! {

/// Ticks a dash lasts.
pub const DASH_TICKS: usize = 20;

/// Ticks of cooldown after a dash.
pub const DASH_COOLDOWN: usize = 60;

/// A repeated direction press within this many ticks starts a dash.
pub const DOUBLE_TAP_WINDOW: isize = 20;

/// The dash ability of an actor.
#[derive(Clone, Copy, PartialEq, Eq, Structural, Debug)]
pub enum Dash {
    /// A dash may be started.
    Ready,
    /// Dashing, with this many further dashing ticks to come.
    Dashing(usize),
    /// Recovering, with this many further ticks before the dash is ready.
    Loading(usize),
}

/// The player or an enemy.
#[derive(Clone, Copy, PartialEq, Eq, Structural, Debug)]
pub struct Actor {
    /// Current cell.
    pub pos: Pos,
    /// The cell occupied before the last update; the trail starts there.
    pub old_pos: Pos,
    /// Horizontal intent: -1 left, 0 none, 1 right.
    pub right_power: isize,
    /// The frame on which the intent was last set.
    pub last_power_frame: isize,
    /// Ticks for which a requested jump stays pending.
    pub jump: i32,
    /// Whether a second jump may still be made in the air.
    pub double_jump_ready: bool,
    /// Airborne.
    pub fly: bool,
    /// A fast fall was requested for the next update.
    pub down: bool,
    /// Vertical velocity, positive downwards.
    pub dy: isize,
    /// Horizontal velocity.
    pub dx: isize,
    /// The player, as opposed to an enemy.
    pub is_player: bool,
    /// Dash state.
    pub dash: Dash,
    /// The frame on which the actor last left the ground; the cadence of
    /// airborne movement is counted from it.
    pub phase: isize,
}

/// The vertical impulse of a jump: stronger when the actor is not steering.
pub open spec fn impulse(right_power: int) -> int {
    if right_power == 0 {
        6
    } else {
        5
    }
}

/// The dash state one tick later. A dash counts down and turns into the
/// cooldown, the cooldown counts down and turns into readiness, and readiness
/// stays: a tick never starts a dash.
pub open spec fn advance_dash(d: Dash) -> Dash {
    match d {
        Dash::Dashing(n) => if n > 0 {
            Dash::Dashing((n - 1) as usize)
        } else {
            Dash::Loading(DASH_COOLDOWN)
        },
        Dash::Loading(n) => if n > 0 {
            Dash::Loading((n - 1) as usize)
        } else {
            Dash::Ready
        },
        Dash::Ready => Dash::Ready,
    }
}

/// Whether airborne movement steps on `frames`: on every third frame, the
/// first being the second frame after the actor left the ground at `phase`.
pub open spec fn on_cadence(frames: int, phase: int) -> bool {
    (frames - phase + 1) % 3 == 0
}

/// The colour of the dust an actor raises.
pub open spec fn dust_color(a: Actor) -> Color {
    if a.is_player {
        Color::Yellow
    } else {
        Color::Green
    }
}

impl Actor {
    /// The actor stands inside the border, as does the start of its trail; its
    /// intent and horizontal velocity are unit steps; it has no vertical
    /// velocity while grounded, rises no faster than a jump throws it, and
    /// falls no faster than the rows it has fallen through allow.
    pub open spec fn wf(&self) -> bool {
        &&& interior(self.pos.x as int, self.pos.y as int)
        &&& interior(self.old_pos.x as int, self.old_pos.y as int)
        &&& -1 <= self.right_power <= 1
        &&& -1 <= self.dx <= 1
        &&& -6 <= self.dy <= self.pos.y
        &&& !self.fly ==> self.dy == 0
    }

    /// The actor spends the coming tick dashing.
    pub open spec fn dashes(&self) -> bool {
        advance_dash(self.dash) is Dashing
    }

    /// A grounded actor with a pending jump: it jumps.
    pub open spec fn jumps(&self) -> bool {
        !self.fly && self.jump > 0
    }

    /// A grounded actor that leaves the ground, by jumping or because nothing
    /// below holds it.
    pub open spec fn leaves_ground(&self, grid: Seq<Cell>) -> bool {
        &&& !self.fly
        &&& (self.jump > 0 || !blocks_fall(grid[index_of(self.pos.x as int, self.pos.y + 1)]))
    }

    /// Every tick begins alike: the dash state advances and the position is
    /// remembered.
    pub open spec fn begun(&self) -> Actor {
        Actor { dash: advance_dash(self.dash), old_pos: self.pos, ..*self }
    }

    /// A dashing tick: one cell of pure horizontal displacement by the
    /// intent, kept inside the border, with no vertical velocity. The grid is
    /// not consulted.
    pub open spec fn slid(&self) -> Actor {
        Actor {
            pos: Pos {
                x: clamp(self.pos.x + self.right_power, 1, W - 2) as isize,
                y: self.pos.y,
            },
            dx: self.right_power,
            dy: 0,
            ..*self
        }
    }

    /// A grounded actor with a pending jump jumps, and one with nothing to
    /// stand on starts to fall. Leaving the ground restarts the cadence at
    /// `frames`. An airborne actor, and one that stays on the ground, is
    /// unchanged.
    pub open spec fn launched(&self, frames: int, grid: Seq<Cell>) -> Actor {
        Actor {
            double_jump_ready: self.jumps() || self.double_jump_ready,
            dy: if self.jumps() {
                (self.dy - impulse(self.right_power as int)) as isize
            } else {
                self.dy
            },
            dx: if self.jumps() {
                self.right_power
            } else {
                self.dx
            },
            jump: if self.jumps() {
                0
            } else {
                self.jump
            },
            fly: self.fly || self.leaves_ground(grid),
            phase: if self.leaves_ground(grid) {
                frames as isize
            } else {
                self.phase
            },
            ..*self
        }
    }

    /// An airborne actor takes its controls: a pending jump spends the double
    /// jump, replacing the vertical velocity by a fresh impulse; a fast-fall
    /// request stops horizontal movement and cancels any upward velocity.
    pub open spec fn steered(&self) -> Actor {
        let again = self.jump > 0 && self.double_jump_ready;
        let dy = if again {
            -impulse(self.right_power as int)
        } else {
            self.dy as int
        };
        let dx = if again {
            self.right_power
        } else {
            self.dx
        };
        Actor {
            double_jump_ready: self.double_jump_ready && !again,
            dx: if self.down {
                0
            } else {
                dx
            },
            dy: (if self.down && dy < 0 {
                0
            } else {
                dy
            }) as isize,
            ..*self
        }
    }

    /// The column an airborne actor occupies after horizontal movement: it
    /// moves by its velocity on the cadence only, and is kept inside the
    /// border.
    pub open spec fn drifted_x(&self, frames: int) -> int {
        clamp(
            if on_cadence(frames, self.phase as int) {
                self.pos.x + self.dx
            } else {
                self.pos.x as int
            },
            1,
            W - 2,
        )
    }

    /// An airborne actor takes a vertical step on `frames`: always when its
    /// speed is 5 or more, else on the cadence.
    pub open spec fn steps(&self, frames: int) -> bool {
        abs(self.dy as int) >= 5 || on_cadence(frames, self.phase as int)
    }

    /// A falling actor is stopped by the cell below it: solid or wall.
    pub open spec fn floored(&self, frames: int, grid: Seq<Cell>) -> bool {
        &&& self.steps(frames)
        &&& self.dy > 0
        &&& blocks_fall(grid[index_of(self.drifted_x(frames), self.pos.y + 1)])
    }

    /// A rising actor is stopped by the cell above it: wall only.
    pub open spec fn ceiled(&self, frames: int, grid: Seq<Cell>) -> bool {
        &&& self.steps(frames)
        &&& self.dy < 0
        &&& blocks_rise(grid[index_of(self.drifted_x(frames), self.pos.y - 1)])
    }

    /// An airborne actor moves: horizontally on the cadence, then vertically by
    /// one cell in the direction of its velocity unless a cell stops it. A
    /// stop zeroes the vertical velocity; a stop from below also grounds the
    /// actor and zeroes the horizontal velocity. An actor still airborne gains
    /// one unit of downward velocity on the cadence.
    pub open spec fn moved(&self, frames: int, grid: Seq<Cell>) -> Actor {
        let floored = self.floored(frames, grid);
        let stopped = floored || self.ceiled(frames, grid);
        let dy = if stopped {
            0
        } else {
            self.dy as int
        };
        Actor {
            pos: Pos {
                x: self.drifted_x(frames) as isize,
                y: if self.steps(frames) && !stopped {
                    (self.pos.y + signum(self.dy as int)) as isize
                } else {
                    self.pos.y
                },
            },
            fly: !floored,
            dx: if floored {
                0
            } else {
                self.dx
            },
            dy: if !floored && on_cadence(frames, self.phase as int) {
                (dy + 1) as isize
            } else {
                dy as isize
            },
            ..*self
        }
    }

    /// The end of an ordinary tick: the fast-fall request is spent and a
    /// pending jump comes one tick closer to lapsing.
    pub open spec fn settled(&self) -> Actor {
        Actor {
            down: false,
            jump: if self.jump > 1 {
                (self.jump - 1) as i32
            } else {
                0
            },
            ..*self
        }
    }

    /// The actor one tick later.
    pub open spec fn stepped(&self, frames: int, grid: Seq<Cell>) -> Actor {
        if self.dashes() {
            self.begun().slid()
        } else {
            let a = self.begun().launched(frames, grid);
            if a.fly {
                a.steered().moved(frames, grid).settled()
            } else {
                a.settled()
            }
        }
    }

    /// The actor leaves the ground on the coming tick.
    pub open spec fn takes_off(&self, grid: Seq<Cell>) -> bool {
        !self.dashes() && self.leaves_ground(grid)
    }

    /// The actor comes to rest on the coming tick.
    pub open spec fn lands(&self, frames: int, grid: Seq<Cell>) -> bool {
        &&& !self.dashes()
        &&& self.begun().launched(frames, grid).fly
        &&& self.begun().launched(frames, grid).steered().floored(frames, grid)
    }

    /// The actor moves up a row on the coming tick: it is airborne with
    /// upward velocity, takes a vertical step, and no wall is above it.
    pub open spec fn rises(&self, frames: int, grid: Seq<Cell>) -> bool {
        let a = self.begun().launched(frames, grid).steered();
        &&& !self.dashes()
        &&& a.fly
        &&& a.steps(frames)
        &&& a.dy < 0
        &&& !a.ceiled(frames, grid)
    }

    /// The dust raised on the coming tick, drawn from stream state `seed`: a
    /// burst where the actor leaves the ground, or a burst where it lands.
    pub open spec fn dust(&self, frames: int, grid: Seq<Cell>, seed: usize) -> Seq<Particle> {
        if self.takes_off(grid) {
            burst(self.pos, dust_color(*self), seed, BURST as nat)
        } else if self.lands(frames, grid) {
            burst(self.stepped(frames, grid).pos, dust_color(*self), seed, BURST as nat)
        } else {
            Seq::empty()
        }
    }

    /// The number of draws the coming tick takes from the random stream.
    pub open spec fn draws(&self, frames: int, grid: Seq<Cell>) -> nat {
        if self.takes_off(grid) || self.lands(frames, grid) {
            4 * BURST as nat
        } else {
            0
        }
    }

    /// A press of the direction key for `power` on `frames` is the second of
    /// a double tap: the dash is ready, the actor already steers that way,
    /// and the last press is fewer than twenty frames old.
    pub open spec fn double_taps(&self, power: int, frames: int) -> bool {
        &&& self.dash == Dash::Ready
        &&& self.right_power == power
        &&& frames - self.last_power_frame < DOUBLE_TAP_WINDOW
    }

    /// The actor after a press of the direction key for `power`. A double tap
    /// starts a dash; a dashing actor ignores the key; otherwise the intent
    /// and the frame of the press are recorded.
    pub open spec fn pressed(&self, power: int, frames: int) -> Actor {
        if self.double_taps(power, frames) {
            Actor { dash: Dash::Dashing(DASH_TICKS), ..*self }
        } else if self.dash is Dashing {
            *self
        } else {
            Actor { right_power: power as isize, last_power_frame: frames as isize, ..*self }
        }
    }

    /// The actor after `n` ticks on an unchanging grid, the first of them
    /// being the tick of frame `frames`.
    pub open spec fn after_ticks(&self, n: nat, frames: int, grid: Seq<Cell>) -> Actor
        decreases n,
    {
        if n == 0 {
            *self
        } else {
            self.after_ticks((n - 1) as nat, frames, grid).stepped(frames + n - 1, grid)
        }
    }
}

/// A direction key.
#[derive(Clone, Copy, PartialEq, Eq, Structural, Debug)]
pub enum Heading {
    Left,
    Right,
}

/// The horizontal intent a direction key stands for.
pub open spec fn power_of(h: Heading) -> int {
    match h {
        Heading::Left => -1,
        Heading::Right => 1,
    }
}

/// The dash state `n` ticks after `d`.
pub open spec fn dash_after(d: Dash, n: nat) -> Dash
    decreases n,
{
    if n == 0 {
        d
    } else {
        advance_dash(dash_after(d, (n - 1) as nat))
    }
}

/// The course of a dash: twenty dashing ticks, then the cooldown of sixty,
/// then readiness for good.
pub proof fn dash_lifecycle(k: nat)
    ensures
        k <= 20 ==> dash_after(Dash::Dashing(DASH_TICKS), k) == Dash::Dashing((20 - k) as usize),
        20 < k <= 81 ==> dash_after(Dash::Dashing(DASH_TICKS), k) == Dash::Loading(
            (81 - k) as usize,
        ),
        81 < k ==> dash_after(Dash::Dashing(DASH_TICKS), k) == Dash::Ready,
    decreases k,
{
    if k > 0 {
        dash_lifecycle((k - 1) as nat);
    }
}

/// The only transitions a tick makes: a dash counts down or ends in the full
/// cooldown, the cooldown counts down or ends in readiness, and readiness
/// stays. No tick starts a dash.
pub proof fn dash_transitions(d: Dash)
    ensures
        d matches Dash::Dashing(n) ==> advance_dash(d) == if n > 0 {
            Dash::Dashing((n - 1) as usize)
        } else {
            Dash::Loading(DASH_COOLDOWN)
        },
        d matches Dash::Loading(n) ==> advance_dash(d) == if n > 0 {
            Dash::Loading((n - 1) as usize)
        } else {
            Dash::Ready
        },
        d is Ready ==> advance_dash(d) is Ready,
        advance_dash(d) is Dashing ==> d is Dashing,
{
}

/// Whatever else happens to an actor, its dash state after `n` ticks is the
/// one the schedule gives.
pub proof fn ticks_follow_dash_schedule(a: Actor, n: nat, frames: int, grid: Seq<Cell>)
    ensures
        a.after_ticks(n, frames, grid).dash == dash_after(a.dash, n),
    decreases n,
{
    if n > 0 {
        ticks_follow_dash_schedule(a, (n - 1) as nat, frames, grid);
    }
}

/// A key press changes the dash state in one case only: a double tap while
/// ready starts a dash of twenty ticks.
pub proof fn only_double_tap_starts_dash(a: Actor, power: int, frames: int)
    ensures
        a.pressed(power, frames).dash == if a.double_taps(power, frames) {
            Dash::Dashing(DASH_TICKS)
        } else {
            a.dash
        },
        a.double_taps(power, frames) ==> a.dash is Ready,
{
}

/// A dashing tick does not depend on the grid: the actor slides by its
/// intent, inside the border, whatever the cells it passes through hold.
pub proof fn dash_ignores_the_grid(a: Actor, frames: int, grid: Seq<Cell>, other: Seq<Cell>)
    requires
        a.dashes(),
    ensures
        a.stepped(frames, grid) == a.stepped(frames, other),
        a.stepped(frames, grid).dy == 0,
        a.stepped(frames, grid).pos.y == a.pos.y,
        a.stepped(frames, grid).pos.x == clamp(a.pos.x + a.right_power, 1, W - 2),
{
}

/// An airborne actor that falls onto a cell that stops it lands on that very
/// tick: it is grounded where it is, with no velocity left.
pub proof fn falling_actor_lands(a: Actor, frames: int, grid: Seq<Cell>)
    requires
        a.wf(),
        !a.dashes(),
        a.fly,
        a.dy > 0,
        !(a.jump > 0 && a.double_jump_ready),
        a.steps(frames),
        blocks_fall(grid[index_of(a.stepped(frames, grid).pos.x as int, a.pos.y + 1)]),
    ensures
        a.lands(frames, grid),
        !a.stepped(frames, grid).fly,
        a.stepped(frames, grid).dx == 0,
        a.stepped(frames, grid).dy == 0,
        a.stepped(frames, grid).pos.y == a.pos.y,
{
}

/// An airborne actor moving up is stopped by wall only: through air and
/// through rubble alike it rises one row on every tick on which it steps.
pub proof fn rising_actor_passes_rubble(a: Actor, frames: int, grid: Seq<Cell>)
    requires
        a.wf(),
        !a.dashes(),
        a.fly,
        a.dy < 0,
        !a.down,
        a.steered().steps(frames),
        grid[index_of(a.stepped(frames, grid).pos.x as int, a.pos.y - 1)] != Cell::Wall,
    ensures
        a.rises(frames, grid),
        a.stepped(frames, grid).pos.y == a.pos.y - 1,
        a.stepped(frames, grid).fly,
{
}

/// Whether airborne movement steps on `frames` for an actor that left the
/// ground at `phase`.
pub fn cadence(frames: isize, phase: isize) -> (on: bool)
    requires
        isize::MIN <= frames - phase < isize::MAX,
    ensures
        on == on_cadence(frames as int, phase as int),
{
    (frames - phase + 1) % 3 == 0
}

/// Begins a tick and says whether it is a dashing one.
fn begin(actor: &mut Actor) -> (dashing: bool)
    requires
        old(actor).wf(),
    ensures
        *final(actor) == old(actor).begun(),
        final(actor).wf(),
        dashing == old(actor).dashes(),
{
    actor.dash = match actor.dash {
        Dash::Loading(n) => if n > 0 {
            Dash::Loading(n - 1)
        } else {
            Dash::Ready
        },
        Dash::Dashing(n) => if n > 0 {
            Dash::Dashing(n - 1)
        } else {
            Dash::Loading(DASH_COOLDOWN)
        },
        Dash::Ready => Dash::Ready,
    };
    actor.old_pos = actor.pos;
    match actor.dash {
        Dash::Dashing(_) => true,
        _ => false,
    }
}

/// Moves a dashing actor.
fn slide(actor: &mut Actor)
    requires
        old(actor).wf(),
    ensures
        *final(actor) == old(actor).slid(),
        final(actor).wf(),
{
    actor.pos.x = clamp_of(actor.pos.x + actor.right_power, 1, W - 2);
    actor.dx = actor.right_power;
    actor.dy = 0;
}

/// Lets a grounded actor jump or fall off, and says whether it left the
/// ground.
fn launch(actor: &mut Actor, frames: isize, map: &Grid) -> (left: bool)
    requires
        old(actor).wf(),
        map.wf(),
    ensures
        *final(actor) == old(actor).launched(frames as int, map@),
        final(actor).wf(),
        left == old(actor).leaves_ground(map@),
        left ==> final(actor).dy <= 0,
{
    let fly0 = actor.fly;
    if !actor.fly && actor.jump > 0 {
        actor.double_jump_ready = true;
        actor.dy = actor.dy - (5 + if actor.right_power == 0 {
            1isize
        } else {
            0isize
        });
        actor.dx = actor.right_power;
        actor.fly = true;
        actor.jump = 0;
    }
    if !actor.fly {
        match map.cell(actor.pos.x, actor.pos.y + 1) {
            Cell::Solid | Cell::Wall => {},
            Cell::Air => {
                actor.fly = true;
            },
        }
    }
    let left = actor.fly && !fly0;
    if left {
        actor.phase = frames;
    }
    left
}

/// Applies the controls of an airborne actor.
fn steer(actor: &mut Actor)
    requires
        old(actor).wf(),
        old(actor).fly,
    ensures
        *final(actor) == old(actor).steered(),
        final(actor).wf(),
        final(actor).fly == old(actor).fly,
        old(actor).dy <= 0 ==> final(actor).dy <= 0,
{
    if actor.jump > 0 && actor.double_jump_ready {
        actor.double_jump_ready = false;
        actor.dy = 0;
        actor.dy = actor.dy - (5 + if actor.right_power == 0 {
            1isize
        } else {
            0isize
        });
        actor.dx = actor.right_power;
    }
    if actor.down {
        actor.dx = 0;
        if actor.dy < 0 {
            actor.dy = 0;
        }
    }
}

/// Moves an airborne actor against the map and says whether it landed.
fn travel(actor: &mut Actor, frames: isize, map: &Grid) -> (floored: bool)
    requires
        old(actor).wf(),
        old(actor).fly,
        map.wf(),
        isize::MIN <= frames - old(actor).phase < isize::MAX,
    ensures
        *final(actor) == old(actor).moved(frames as int, map@),
        final(actor).wf(),
        floored == old(actor).floored(frames as int, map@),
{
    let alt3: bool = cadence(frames, actor.phase);
    if alt3 {
        actor.pos.x = actor.pos.x + actor.dx;
    }
    actor.pos.x = clamp_of(actor.pos.x, 1, W - 2);
    let mut floored = false;
    if abs_of(actor.dy) >= 5 || alt3 {
        let mut ceiled = false;
        if signum_of(actor.dy) > 0 {
            match map.cell(actor.pos.x, actor.pos.y + 1) {
                Cell::Solid | Cell::Wall => {
                    floored = true;
                },
                Cell::Air => {},
            }
        }
        if signum_of(actor.dy) < 0 {
            match map.cell(actor.pos.x, actor.pos.y - 1) {
                Cell::Wall => {
                    ceiled = true;
                },
                _ => {},
            }
        }
        if ceiled {
            actor.dy = 0;
        }
        if floored {
            actor.dy = 0;
        }
        if !ceiled && !floored {
            actor.pos.y = actor.pos.y + signum_of(actor.dy);
        }
    }
    if floored {
        actor.fly = false;
        actor.dy = 0;
        actor.dx = 0;
    }
    if actor.fly {
        if alt3 {
            actor.dy = actor.dy + 1;
        }
    }
    floored
}

/// Ends an ordinary tick.
fn settle(actor: &mut Actor)
    requires
        old(actor).wf(),
    ensures
        *final(actor) == old(actor).settled(),
        final(actor).wf(),
{
    actor.down = false;
    actor.jump = if actor.jump > 1 {
        actor.jump - 1
    } else {
        0
    };
}

/// Advances `actor` by one tick against `map`.
///
/// A dashing actor only slides sideways. Any other actor may jump or fall off
/// a ledge, and while airborne steers, drifts, rises through rubble, is
/// stopped by wall above and by rubble or wall below, and is pulled down.
/// Leaving the ground and landing each raise a burst of dust, drawn from
/// `rand`. The map is left as it was.
pub fn update_char(
    actor: &mut Actor,
    frames: isize,
    map: &mut Grid,
    rand: &mut Rand,
    particles: &mut Vec<Particle>,
)
    requires
        old(actor).wf(),
        old(map).wf(),
        isize::MIN <= frames - old(actor).phase < isize::MAX,
    ensures
        *final(actor) == old(actor).stepped(frames as int, old(map)@),
        final(actor).wf(),
        1 <= final(actor).pos.x <= W - 2,
        1 <= final(actor).pos.y <= H - 2,
        final(map)@ == old(map)@,
        final(actor).dash is Dashing ==> {
            &&& final(actor).dy == 0
            &&& final(actor).pos.y == old(actor).pos.y
            &&& final(actor).pos.x == clamp(
                old(actor).pos.x + old(actor).right_power,
                1,
                W - 2,
            )
        },
        old(actor).lands(frames as int, old(map)@) ==> {
            &&& !final(actor).fly
            &&& final(actor).dx == 0
            &&& final(actor).dy == 0
        },
        old(actor).rises(frames as int, old(map)@) ==> {
            &&& final(actor).fly
            &&& final(actor).pos.y == old(actor).pos.y - 1
        },
        !(final(actor).dash is Dashing) && !final(actor).fly ==> blocks_fall(
            old(map).at(final(actor).pos.x as int, final(actor).pos.y + 1),
        ),
        final(actor).phase == old(actor).phase || final(actor).phase == frames,
        final(actor).last_power_frame == old(actor).last_power_frame,
        !(old(actor).takes_off(old(map)@) && old(actor).lands(frames as int, old(map)@)),
        final(particles)@ == old(particles)@ + old(actor).dust(
            frames as int,
            old(map)@,
            old(rand).0,
        ),
        final(rand).0 == state_after(old(rand).0, old(actor).draws(frames as int, old(map)@)),
        forall|i: int|
            old(particles)@.len() <= i < final(particles)@.len()
                ==> (#[trigger] final(particles)@[i]).wf(),
{
    let color = if actor.is_player {
        Color::Yellow
    } else {
        Color::Green
    };
    if begin(actor) {
        slide(actor);
        assert(particles@ =~= old(particles)@ + Seq::empty());
        return ;
    }
    if launch(actor, frames, map) {
        spawn_particles(particles, actor.pos, rand, color);
    }
    if actor.fly {
        steer(actor);
        if travel(actor, frames, map) {
            spawn_particles(particles, actor.pos, rand, color);
        }
    }
    settle(actor);
    proof {
        if !old(actor).takes_off(map@) && !old(actor).lands(frames as int, map@) {
            assert(particles@ =~= old(particles)@ + Seq::empty());
        }
    }
}

/// Handles a press of a direction key on `frames`: the second of a double
/// tap starts a dash, any other press sets the intent unless the actor is
/// dashing.
pub fn press(actor: &mut Actor, heading: Heading, frames: isize)
    requires
        old(actor).wf(),
        isize::MIN <= frames - old(actor).last_power_frame <= isize::MAX,
    ensures
        *final(actor) == old(actor).pressed(power_of(heading), frames as int),
        final(actor).wf(),
{
    let power: isize = match heading {
        Heading::Left => -1,
        Heading::Right => 1,
    };
    if actor.dash == Dash::Ready && actor.right_power == power && frames - actor.last_power_frame
        < DOUBLE_TAP_WINDOW {
        actor.dash = Dash::Dashing(DASH_TICKS);
    }
    match actor.dash {
        Dash::Dashing(_) => {},
        _ => {
            actor.right_power = power;
            actor.last_power_frame = frames;
        },
    }
}

} // verus!
