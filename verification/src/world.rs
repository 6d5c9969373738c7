//! The world: everything the game holds between ticks, how terminal events
//! change it, and how one tick advances and draws it.

use vstd::prelude::*;
use crate::actor::{power_of, press, update_char, Actor, Dash};
use crate::compose::{compose, composed, title, title_of};
use crate::enemy::{chase, chase_draws, chased};
use crate::grid::{gen_map, map_of, seed_after_map, valid_cells, Cell, Grid, Pos, CELLS, H, W};
use crate::input::{command_of, decode, Command, Event};
use crate::num::{clamp, clamp_of};
use crate::particle::{aged_all, alive, overlay, step_particles, Particle};
use crate::pixel::{clean, neutral, sentinel, Color, Frame, Pixel};
use crate::rand::{state_after, Rand};
use crate::render::{all_changed_redraws_all, cmd_at, draw_commands, render, DrawCmd};

verus! {

/// The stream state a game starts from.
pub const SEED: usize = 5;

/// The number of enemies.
pub const ENEMIES: usize = 2;

/// Ticks the screen flashes after a catch; no catch counts meanwhile.
pub const FLASH_TICKS: i32 = 60;

/// Ticks for which the player's jump stays pending.
pub const JUMP_TICKS: i32 = 10;

/// What the caller is to do after an event has been handled.
#[derive(Clone, Copy, PartialEq, Eq, Structural, Debug)]
pub enum Action {
    /// Carry on.
    Continue,
    /// Leave the game.
    Quit,
    /// The game is now paused: show the pause banner.
    Pause,
    /// The game resumes: wait a moment before the next tick.
    Resume,
}

/// The state of the world, as mathematics.
pub struct State {
    /// The state of the random stream.
    pub seed: usize,
    pub player: Actor,
    /// The enemies, in spawn order.
    pub enemies: Seq<Actor>,
    /// The active particles, oldest first.
    pub particles: Seq<Particle>,
    /// Focus is lost: nothing moves and nothing is drawn.
    pub paused: bool,
    /// The frame composed last.
    pub pixels: Seq<Pixel>,
    /// What the terminal shows.
    pub drawn: Seq<Pixel>,
    pub map: Seq<Cell>,
    /// The number of the current frame.
    pub frames: int,
    pub score: nat,
    /// Ticks of flash left after a catch.
    pub switching: int,
    /// The title shown in the top row.
    pub title: Seq<char>,
}

/// The player meets this enemy while no flash is under way.
pub open spec fn catches(player: Actor, enemy: Actor, switching: int) -> bool {
    switching == 0 && player.pos == enemy.pos
}

/// A last-drawn buffer that forces a full redraw.
pub open spec fn invalidated() -> Seq<Pixel> {
    Seq::new(CELLS as nat, |i: int| sentinel())
}

/// The column an enemy is spawned in, from two draws: up to thirty cells
/// from the left or from the right border, inside the border.
pub open spec fn spawn_column(r: usize, side: usize) -> int {
    clamp(
        if side % 2 == 0 {
            (r % 30) as int
        } else {
            W - 1 - r % 30
        },
        1,
        W - 2,
    )
}

/// An actor at rest on the bottom row.
pub open spec fn fresh(x: int, trail_x: int, is_player: bool) -> Actor {
    Actor {
        pos: Pos { x: x as isize, y: (H - 2) as isize },
        old_pos: Pos { x: trail_x as isize, y: (H - 2) as isize },
        right_power: 0,
        last_power_frame: 0,
        jump: 0,
        double_jump_ready: true,
        fly: false,
        down: false,
        dy: 0,
        dx: 0,
        is_player,
        dash: Dash::Ready,
        phase: 0,
    }
}

/// The first `n` enemies spawned from stream state `seed`; each takes two
/// draws.
pub open spec fn spawned(seed: usize, n: nat) -> Seq<Actor> {
    Seq::new(
        n,
        |i: int|
            fresh(
                spawn_column(
                    state_after(seed, (2 * i + 1) as nat),
                    state_after(seed, (2 * i + 2) as nat),
                ),
                3 + W / 2,
                false,
            ),
    )
}

impl State {
    /// The state a game starts in: the player in the middle of the bottom
    /// row, the enemies spawned from the first draws, the map generated from
    /// the draws that follow, and a terminal of which nothing is known.
    pub open spec fn initial(seed: usize, version: Seq<char>) -> State {
        let s = state_after(seed, 2 * ENEMIES as nat);
        State {
            seed: seed_after_map(s),
            player: fresh(W / 2, W / 2, true),
            enemies: spawned(seed, ENEMIES as nat),
            particles: Seq::empty(),
            paused: false,
            pixels: Seq::new(CELLS as nat, |i: int| neutral()),
            drawn: invalidated(),
            map: map_of(s),
            frames: 0,
            score: 0,
            switching: 0,
            title: title_of(version),
        }
    }

    /// An actor of this world is valid and its clocks are not ahead of the
    /// frame counter.
    pub open spec fn admits(self, a: Actor) -> bool {
        &&& a.wf()
        &&& 0 <= a.phase <= self.frames
        &&& 0 <= a.last_power_frame <= self.frames
    }

    /// Every part of the world is valid.
    pub open spec fn wf(self) -> bool {
        &&& self.admits(self.player)
        &&& forall|i: int| 0 <= i < self.enemies.len() ==> self.admits(#[trigger] self.enemies[i])
        &&& forall|i: int| 0 <= i < self.particles.len() ==> (#[trigger] self.particles[i]).wf()
        &&& valid_cells(self.map)
        &&& self.pixels.len() == CELLS
        &&& self.drawn.len() == CELLS
        &&& 0 <= self.frames < isize::MAX
        &&& self.score <= u32::MAX
        &&& 0 <= self.switching <= FLASH_TICKS
    }

    /// The state once a new frame has begun.
    pub open spec fn begun(self) -> State {
        State { frames: self.frames + 1, ..self }
    }

    /// The state after a terminal event. Regaining focus while paused ends
    /// the pause and invalidates what was drawn, as does a resize; losing
    /// focus pauses; a key acts on the player.
    pub open spec fn handled(self, e: Event) -> State {
        match e {
            Event::FocusGained => if self.paused {
                State { paused: false, drawn: invalidated(), ..self }
            } else {
                self
            },
            Event::FocusLost => State { paused: true, ..self },
            Event::Resize(_, _) => State { drawn: invalidated(), ..self },
            Event::Key(k) => match command_of(k) {
                Command::Steer(h) => State {
                    player: self.player.pressed(power_of(h), self.frames),
                    ..self
                },
                Command::Jump => State {
                    player: Actor { jump: JUMP_TICKS, ..self.player },
                    ..self
                },
                Command::Drop => State {
                    player: Actor { down: true, right_power: 0, ..self.player },
                    ..self
                },
                _ => self,
            },
            Event::Other => self,
        }
    }

    /// What the caller is to do after a terminal event.
    pub open spec fn action_for(self, e: Event) -> Action {
        match e {
            Event::FocusGained => if self.paused {
                Action::Resume
            } else {
                Action::Continue
            },
            Event::FocusLost => if self.paused {
                Action::Continue
            } else {
                Action::Pause
            },
            Event::Key(k) => if command_of(k) == Command::Quit {
                Action::Quit
            } else {
                Action::Continue
            },
            _ => Action::Continue,
        }
    }

    /// The first step of a tick: the player moves, raising its dust, and the
    /// flash counts down.
    pub open spec fn player_moved(self) -> State {
        State {
            player: self.player.stepped(self.frames, self.map),
            particles: self.particles + self.player.dust(self.frames, self.map, self.seed),
            seed: state_after(self.seed, self.player.draws(self.frames, self.map)),
            switching: if self.switching > 0 {
                self.switching - 1
            } else {
                0
            },
            ..self
        }
    }

    /// The turn of enemy `i`: it decides; if it then shares the player's cell
    /// and no flash is under way, the catch scores, starts the flash and
    /// replaces the map; and it moves on the map as it then is.
    pub open spec fn enemy_moved(self, i: int) -> State {
        let hunter = chased(self.enemies[i], self.player, self.seed);
        let decided = state_after(self.seed, chase_draws(self.enemies[i], self.player, self.seed));
        let caught = catches(self.player, hunter, self.switching);
        let map = if caught {
            map_of(decided)
        } else {
            self.map
        };
        let seed = if caught {
            seed_after_map(decided)
        } else {
            decided
        };
        State {
            enemies: self.enemies.update(i, hunter.stepped(self.frames, map)),
            particles: self.particles + hunter.dust(self.frames, map, seed),
            seed: state_after(seed, hunter.draws(self.frames, map)),
            map,
            switching: if caught {
                FLASH_TICKS as int
            } else {
                self.switching
            },
            score: if caught {
                self.score + 1
            } else {
                self.score
            },
            ..self
        }
    }

    /// The state after the first `n` enemies have had their turn, in spawn
    /// order.
    pub open spec fn enemies_moved(self, n: nat) -> State
        decreases n,
    {
        if n == 0 {
            self
        } else {
            self.enemies_moved((n - 1) as nat).enemy_moved(n - 1)
        }
    }

    /// The state after the simulation part of a tick: the player, then every
    /// enemy.
    pub open spec fn simulated(self) -> State {
        self.player_moved().enemies_moved(self.enemies.len())
    }

    /// The state after the frame has been composed: the particles are aged and
    /// drawn over the composition where it is empty, and the spent ones are
    /// dropped.
    pub open spec fn painted(self) -> State {
        let aged = aged_all(self.particles, self.frames);
        State {
            pixels: overlay(
                composed(
                    self.map,
                    self.switching,
                    self.title,
                    self.score,
                    self.enemies,
                    self.player,
                ),
                aged,
            ),
            particles: aged.filter(alive()),
            ..self
        }
    }

    /// The state after a tick. A paused world does not change; otherwise the
    /// world is simulated and painted, and the terminal then shows the new
    /// frame.
    pub open spec fn ticked(self) -> State {
        if self.paused {
            self
        } else {
            let s = self.simulated().painted();
            State { drawn: s.pixels, ..s }
        }
    }

    /// The draw commands a tick emits: none while paused, else those that
    /// turn what the terminal shows into the new frame.
    pub open spec fn shown(self) -> Seq<DrawCmd> {
        if self.paused {
            Seq::empty()
        } else {
            draw_commands(self.simulated().painted().pixels, self.drawn, CELLS as int)
        }
    }
}

/// Scores a catch. If the player shares the enemy's cell while no flash is
/// under way, the score goes up by one, the flash starts, and the map is
/// replaced by a new one generated from `rand`. Otherwise nothing changes.
pub fn check_catch(
    player: &Actor,
    enemy: &Actor,
    switching: &mut i32,
    score: &mut u32,
    map: &mut Grid,
    rand: &mut Rand,
) -> (caught: bool)
    requires
        old(map).wf(),
        catches(*player, *enemy, *old(switching) as int) ==> *old(score) < u32::MAX,
    ensures
        caught == catches(*player, *enemy, *old(switching) as int),
        caught ==> {
            &&& *final(score) == *old(score) + 1
            &&& *final(switching) == FLASH_TICKS
            &&& final(map)@ == map_of(old(rand).0)
            &&& final(rand).0 == seed_after_map(old(rand).0)
        },
        !caught ==> {
            &&& *final(score) == *old(score)
            &&& *final(switching) == *old(switching)
            &&& final(map)@ == old(map)@
            &&& final(rand).0 == old(rand).0
        },
        final(map).wf(),
{
    if *switching == 0 && player.pos.x == enemy.pos.x && player.pos.y == enemy.pos.y {
        *switching = FLASH_TICKS;
        *map = gen_map(rand);
        *score = *score + 1;
        true
    } else {
        false
    }
}

/// The world of one game.
pub struct World {
    rand: Rand,
    player: Actor,
    enemies: Vec<Actor>,
    particles: Vec<Particle>,
    paused: bool,
    pixels: Frame,
    drawn: Frame,
    map: Grid,
    frames: isize,
    score: u32,
    switching: i32,
    title: Vec<char>,
}

impl View for World {
    type V = State;

    closed spec fn view(&self) -> State {
        State {
            seed: self.rand.0,
            player: self.player,
            enemies: self.enemies@,
            particles: self.particles@,
            paused: self.paused,
            pixels: self.pixels@,
            drawn: self.drawn@,
            map: self.map@,
            frames: self.frames as int,
            score: self.score as nat,
            switching: self.switching as int,
            title: self.title@,
        }
    }
}

/// Makes an actor at rest on the bottom row.
fn rest(x: isize, trail_x: isize, is_player: bool) -> (a: Actor)
    requires
        1 <= x <= W - 2,
        1 <= trail_x <= W - 2,
    ensures
        a == fresh(x as int, trail_x as int, is_player),
        a.wf(),
{
    Actor {
        pos: Pos { x, y: H - 2 },
        old_pos: Pos { x: trail_x, y: H - 2 },
        right_power: 0,
        last_power_frame: 0,
        jump: 0,
        double_jump_ready: true,
        fly: false,
        down: false,
        dy: 0,
        dx: 0,
        is_player,
        dash: Dash::Ready,
        phase: 0,
    }
}

impl World {
    /// Every part of the world is valid.
    pub open spec fn wf(&self) -> bool {
        self@.wf()
    }

    /// Sets up a game from a stream state and the version shown in the title.
    pub fn new(seed: usize, version: &str) -> (w: World)
        ensures
            w@ == State::initial(seed, version@),
            w.wf(),
    {
        let mut rand = Rand(seed);
        let player = rest(W / 2, W / 2, true);
        let mut enemies: Vec<Actor> = Vec::new();
        let mut n: usize = 0;
        while n < ENEMIES
            invariant
                n <= ENEMIES,
                enemies@ == spawned(seed, n as nat),
                rand.0 == state_after(seed, (2 * n) as nat),
                forall|i: int| 0 <= i < enemies@.len() ==> (#[trigger] enemies@[i]).wf(),
            decreases ENEMIES - n,
        {
            let r = (rand.next() % 30) as isize;
            let x = if rand.next() % 2 == 0 {
                r
            } else {
                W - 1 - r
            };
            enemies.push(rest(clamp_of(x, 1, W - 2), 3 + W / 2, false));
            proof {
                reveal_with_fuel(state_after, 3);
                assert(enemies@ =~= spawned(seed, (n + 1) as nat));
            }
            n += 1;
        }
        let map = gen_map(&mut rand);
        let pixels = Frame::blank();
        let drawn = Frame::invalid();
        let w = World {
            rand,
            player,
            enemies,
            particles: Vec::new(),
            paused: false,
            pixels,
            drawn,
            map,
            frames: 0,
            score: 0,
            switching: 0,
            title: title(version),
        };
        proof {
            let s = State::initial(seed, version@);
            assert(w@.pixels =~= s.pixels);
            assert(w@.drawn =~= s.drawn);
            assert(w@.particles =~= s.particles);
        }
        w
    }

    /// Begins a new frame: the frame counter goes up by one.
    pub fn begin_frame(&mut self)
        requires
            old(self).wf(),
            old(self)@.frames + 1 < isize::MAX,
        ensures
            final(self)@ == old(self)@.begun(),
            final(self).wf(),
    {
        self.frames = self.frames + 1;
    }

    /// Handles one terminal event and says what the caller is to do.
    pub fn handle_event(&mut self, e: Event) -> (a: Action)
        requires
            old(self).wf(),
        ensures
            final(self)@ == old(self)@.handled(e),
            a == old(self)@.action_for(e),
            final(self).wf(),
    {
        match e {
            Event::FocusGained => {
                if self.paused {
                    self.drawn = Frame::invalid();
                    self.paused = false;
                    assert(self@.drawn =~= invalidated());
                    Action::Resume
                } else {
                    Action::Continue
                }
            },
            Event::FocusLost => {
                if self.paused {
                    Action::Continue
                } else {
                    self.paused = true;
                    Action::Pause
                }
            },
            Event::Resize(_, _) => {
                self.drawn = Frame::invalid();
                assert(self@.drawn =~= invalidated());
                Action::Continue
            },
            Event::Key(k) => {
                match decode(k) {
                    Command::Quit => Action::Quit,
                    Command::Steer(h) => {
                        press(&mut self.player, h, self.frames);
                        Action::Continue
                    },
                    Command::Jump => {
                        self.player.jump = JUMP_TICKS;
                        Action::Continue
                    },
                    Command::Drop => {
                        self.player.down = true;
                        self.player.right_power = 0;
                        Action::Continue
                    },
                    Command::Ignore => Action::Continue,
                }
            },
            Event::Other => Action::Continue,
        }
    }

    /// Advances the world by one tick and returns the draw commands that bring
    /// the terminal up to date. The player moves first, then each enemy in
    /// spawn order decides, is checked for a catch, and moves. The frame is
    /// then composed, the particles are aged and drawn over it, and the
    /// result is held against what the terminal shows. A paused world does
    /// nothing.
    pub fn tick(&mut self) -> (cmds: Vec<DrawCmd>)
        requires
            old(self).wf(),
            !old(self)@.paused ==> old(self)@.score < u32::MAX,
        ensures
            final(self)@ == old(self)@.ticked(),
            cmds@ == old(self)@.shown(),
            final(self).wf(),
            !old(self)@.paused ==> clean(final(self)@.pixels),
            final(self)@.score == old(self)@.score || (final(self)@.score == old(self)@.score + 1
                && final(self)@.switching == FLASH_TICKS),
            !old(self)@.paused && old(self)@.drawn == invalidated() ==> cmds@ == Seq::new(
                CELLS as nat,
                |i: int| cmd_at(i, final(self)@.pixels[i]),
            ),
    {
        if self.paused {
            return Vec::new();
        }
        let ghost s0 = self@;
        update_char(
            &mut self.player,
            self.frames,
            &mut self.map,
            &mut self.rand,
            &mut self.particles,
        );
        self.switching = if self.switching > 0 {
            self.switching - 1
        } else {
            0
        };
        let mut i: usize = 0;
        while i < self.enemies.len()
            invariant
                i <= self.enemies.len(),
                self.enemies.len() == s0.enemies.len(),
                self.wf(),
                !self.paused,
                self@ == s0.player_moved().enemies_moved(i as nat),
                self@.score == s0.score || (self@.score == s0.score + 1 && self@.switching
                    == FLASH_TICKS),
                self@.drawn == s0.drawn,
                s0.score < u32::MAX,
            decreases self.enemies.len() - i,
        {
            let ghost s = self@;
            let mut enemy = self.enemies[i];
            chase(&mut enemy, &self.player, &mut self.rand);
            check_catch(
                &self.player,
                &enemy,
                &mut self.switching,
                &mut self.score,
                &mut self.map,
                &mut self.rand,
            );
            update_char(
                &mut enemy,
                self.frames,
                &mut self.map,
                &mut self.rand,
                &mut self.particles,
            );
            self.enemies[i] = enemy;
            assert(self@ == s.enemy_moved(i as int));
            i += 1;
        }
        compose(
            &mut self.pixels,
            &self.map,
            self.switching,
            &self.title,
            self.score,
            &self.enemies,
            &self.player,
        );
        step_particles(&mut self.particles, self.frames, &mut self.pixels);
        proof {
            if self.drawn@ == invalidated() {
                all_changed_redraws_all(self.pixels@, self.drawn@, CELLS as int);
            }
        }
        render(&self.pixels, &mut self.drawn)
    }

    /// Whether the game is paused.
    pub fn paused(&self) -> (p: bool)
        ensures
            p == self@.paused,
    {
        self.paused
    }

    /// The number of the current frame.
    pub fn frames(&self) -> (f: isize)
        ensures
            f == self@.frames,
    {
        self.frames
    }

    /// The score.
    pub fn score(&self) -> (s: u32)
        ensures
            s == self@.score,
    {
        self.score
    }

    /// Ticks of flash left after a catch.
    pub fn switching(&self) -> (s: i32)
        ensures
            s == self@.switching,
    {
        self.switching
    }

    /// The player.
    pub fn player(&self) -> (a: Actor)
        ensures
            a == self@.player,
    {
        self.player
    }

    /// The enemies, in spawn order.
    pub fn enemies(&self) -> (e: &Vec<Actor>)
        ensures
            e@ == self@.enemies,
    {
        &self.enemies
    }

    /// The active particles.
    pub fn particles(&self) -> (p: &Vec<Particle>)
        ensures
            p@ == self@.particles,
    {
        &self.particles
    }

    /// The map.
    pub fn map(&self) -> (g: &Grid)
        ensures
            g@ == self@.map,
    {
        &self.map
    }

    /// The frame composed last.
    pub fn pixels(&self) -> (f: &Frame)
        ensures
            f@ == self@.pixels,
    {
        &self.pixels
    }
}

/// What to show while the game is paused.
pub struct Banner {
    /// Column of the first character.
    pub x: u16,
    /// Row of the text.
    pub y: u16,
    /// Background colour.
    pub back: Color,
    /// Foreground colour.
    pub front: Color,
    /// The text.
    pub text: &'static str,
    /// Column to leave the cursor in.
    pub park_x: u16,
    /// Row to leave the cursor in.
    pub park_y: u16,
}

/// The pause banner: black on red in the middle of the screen, with the
/// cursor left in the bottom right corner.
pub fn pause_banner() -> (b: Banner)
    ensures
        b.x == W / 2 - 3,
        b.y == H / 2 - 1,
        b.back == Color::Red,
        b.front == Color::Black,
        b.text@ == "PAUSED"@,
        b.park_x == W - 1,
        b.park_y == H - 1,
{
    Banner {
        x: (W / 2 - 3) as u16,
        y: (H / 2 - 1) as u16,
        back: Color::Red,
        front: Color::Black,
        text: "PAUSED",
        park_x: (W - 1) as u16,
        park_y: (H - 1) as u16,
    }
}

} // verus!
