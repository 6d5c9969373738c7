//! Short-lived cosmetic particles: spawning in bursts, ageing, and drawing
//! onto the cells of a frame that nothing else has claimed.

use vstd::prelude::*;
use crate::grid::{index_of, interior, Pos, H, W};
use crate::num::{abs, abs_of, divides, signum, signum_of};
use crate::pixel::{clean, neutral, Color, Frame, Pixel};
use crate::rand::{state_after, xorshift, Rand};

verus! {

/// Particles spawned by one burst.
pub const BURST: usize = 5;

/// The longest life a particle is spawned with.
pub const MAX_LIFE: isize = 19;

/// An ephemeral speck of dust.
#[derive(Clone, Copy, PartialEq, Eq, Structural, Debug)]
pub struct Particle {
    /// Where it is. It may drift off the screen and back.
    pub p: Pos,
    /// Horizontal velocity.
    pub dx: isize,
    /// Vertical velocity; drag pulls it towards 3.
    pub dy: isize,
    /// Remaining life in ticks.
    pub life: isize,
    /// The glyph it is drawn with.
    pub kind: char,
    /// The colour it is drawn in.
    pub color: Color,
}

impl Particle {
    /// An active particle: it has life left, its velocity is within the
    /// spawn limits, it has drifted from the interior by no more than the
    /// life it has spent, and its colour shows on an empty cell.
    pub open spec fn wf(&self) -> bool {
        &&& self.color != Color::Black
        &&& 0 < self.life <= MAX_LIFE
        &&& -3 <= self.dx <= 3
        &&& -3 <= self.dy <= 3
        &&& 1 - (MAX_LIFE - self.life) <= self.p.x <= W - 2 + (MAX_LIFE - self.life)
        &&& 1 - (MAX_LIFE - self.life) <= self.p.y <= H - 2 + (MAX_LIFE - self.life)
    }

    /// The particle lies inside the border, where it may be drawn.
    pub open spec fn visible(&self) -> bool {
        interior(self.p.x as int, self.p.y as int)
    }
}

/// The glyph chosen by a draw reduced modulo 6.
pub open spec fn glyph_of(k: int) -> char {
    if k == 0 {
        '*'
    } else if k == 1 {
        '.'
    } else if k == 2 {
        '\u{a8}'
    } else if k == 3 {
        '\u{a4}'
    } else if k == 4 {
        '\''
    } else {
        '\u{b2}'
    }
}

/// The particle made at `pos` from four consecutive draws starting at stream
/// state `s`: horizontal velocity in `[-3, 3]`, vertical velocity in
/// `[-3, 1]`, life in `[10, 19]`, and one of six glyphs.
pub open spec fn particle_from(pos: Pos, color: Color, s: usize) -> Particle {
    let r1 = xorshift(s);
    let r2 = xorshift(r1);
    let r3 = xorshift(r2);
    let r4 = xorshift(r3);
    Particle {
        p: pos,
        dx: (-3 + r1 % 7) as isize,
        dy: (-3 + r2 % 5) as isize,
        life: (10 + r3 % 10) as isize,
        kind: glyph_of((r4 % 6) as int),
        color,
    }
}

/// The first `n` particles of a burst at `pos`, drawn from stream state `s`.
pub open spec fn burst(pos: Pos, color: Color, s: usize, n: nat) -> Seq<Particle> {
    Seq::new(n, |i: int| particle_from(pos, color, state_after(s, (4 * i) as nat)))
}

/// Appends a burst of five particles at `pos`, consuming twenty draws.
pub fn spawn_particles(particles: &mut Vec<Particle>, pos: Pos, rand: &mut Rand, color: Color)
    ensures
        final(particles)@ == old(particles)@ + burst(pos, color, old(rand).0, BURST as nat),
        final(rand).0 == state_after(old(rand).0, 4 * BURST as nat),
        interior(pos.x as int, pos.y as int) && color != Color::Black ==> forall|i: int|
            old(particles)@.len() <= i < final(particles)@.len()
                ==> (#[trigger] final(particles)@[i]).wf(),
{
    let ghost seed = rand.0;
    let ghost before = particles@;
    let mut n: usize = 0;
    while n < BURST
        invariant
            n <= BURST,
            particles@ == before + burst(pos, color, seed, n as nat),
            rand.0 == state_after(seed, (4 * n) as nat),
        decreases BURST - n,
    {
        let ghost s0 = rand.0;
        let dx: isize = -3 + (rand.next() % 7) as isize;
        let dy: isize = -3 + (rand.next() % 5) as isize;
        let life: isize = 10 + (rand.next() % 10) as isize;
        let k = rand.next() % 6;
        let kind = if k == 0 {
            '*'
        } else if k == 1 {
            '.'
        } else if k == 2 {
            '\u{a8}'
        } else if k == 3 {
            '\u{a4}'
        } else if k == 4 {
            '\''
        } else {
            '\u{b2}'
        };
        particles.push(Particle { p: pos, dx, dy, life, kind, color });
        proof {
            reveal_with_fuel(state_after, 5);
            assert(particles@ =~= before + burst(pos, color, seed, (n + 1) as nat));
        }
        n += 1;
    }
}

/// One tick of a particle's life: it loses one tick of life, drifts one cell
/// along each axis on the ticks that its speed on that axis selects (every
/// `6 - |v|` ticks), and on every fourth tick of remaining life is dragged
/// down, its vertical velocity rising by one up to 3.
pub open spec fn aged(p: Particle, frames: int) -> Particle {
    let life = p.life - 1;
    let x = if frames % (6 - abs(p.dx as int)) == 0 {
        p.p.x + signum(p.dx as int)
    } else {
        p.p.x as int
    };
    let step_y = if 6 - abs(p.dy as int) < 1 {
        1
    } else {
        6 - abs(p.dy as int)
    };
    let y = if frames % step_y == 0 {
        p.p.y + signum(p.dy as int)
    } else {
        p.p.y as int
    };
    let dy = if life % 4 == 0 && p.dy < 3 {
        p.dy + 1
    } else {
        p.dy as int
    };
    Particle {
        p: Pos { x: x as isize, y: y as isize },
        dx: p.dx,
        dy: dy as isize,
        life: life as isize,
        kind: p.kind,
        color: p.color,
    }
}

/// Every particle of `ps` after one tick.
pub open spec fn aged_all(ps: Seq<Particle>, frames: int) -> Seq<Particle> {
    Seq::new(ps.len(), |i: int| aged(ps[i], frames))
}

/// The test that keeps a particle in the active set.
pub open spec fn alive() -> spec_fn(Particle) -> bool {
    |p: Particle| p.life > 0
}

/// `px` after particle `p` has tried to draw itself: it claims its cell only if
/// it is visible and the cell is still empty.
pub open spec fn draw_particle(px: Seq<Pixel>, p: Particle) -> Seq<Pixel> {
    let i = index_of(p.p.x as int, p.p.y as int);
    if p.visible() && px[i] == neutral() {
        px.update(i, Pixel { back: Color::Black, front: p.color, glyph: p.kind })
    } else {
        px
    }
}

/// `px` after the particles of `ps` have drawn themselves in order.
pub open spec fn overlay(px: Seq<Pixel>, ps: Seq<Particle>) -> Seq<Pixel>
    decreases ps.len(),
{
    if ps.len() == 0 {
        px
    } else {
        draw_particle(overlay(px, ps.drop_last()), ps.last())
    }
}

/// A tick takes one tick of life from every particle, and a particle stays
/// in the active set exactly as long as it has life left.
pub proof fn spent_particles_are_dropped(ps: Seq<Particle>, frames: int, i: int)
    requires
        0 <= i < ps.len(),
        isize::MIN < ps[i].life,
    ensures
        aged(ps[i], frames).life == ps[i].life - 1,
        aged_all(ps, frames).filter(alive()).contains(aged(ps[i], frames)) <==> ps[i].life > 1,
{
    let all = aged_all(ps, frames);
    assert(all[i] == aged(ps[i], frames));
    if all[i].life > 0 {
        all.lemma_filter_contains(alive(), i);
    }
    if all.filter(alive()).contains(all[i]) {
        let k = choose|k: int| 0 <= k < all.filter(alive()).len() && all.filter(alive())[k] == all[i];
        all.lemma_filter_pred(alive(), k);
    }
}

/// Ages one particle by a tick.
pub fn age(p: Particle, frames: isize) -> (q: Particle)
    requires
        p.wf(),
    ensures
        q == aged(p, frames as int),
        q.life == p.life - 1,
        q.life > 0 ==> q.wf(),
{
    let life = p.life - 1;
    let mut x = p.p.x;
    let mut y = p.p.y;
    if divides(6 - abs_of(p.dx), frames) {
        x = x + signum_of(p.dx);
    }
    let span = 6 - abs_of(p.dy);
    let step_y = if span < 1 {
        1
    } else {
        span
    };
    if divides(step_y, frames) {
        y = y + signum_of(p.dy);
    }
    let mut dy = p.dy;
    if life % 4 == 0 && dy < 3 {
        dy = dy + 1;
    }
    Particle { p: Pos { x, y }, dx: p.dx, dy, life, kind: p.kind, color: p.color }
}

/// Advances the particle system by one tick and draws it. Every particle is
/// aged, then draws itself onto `frame` if it is on screen and its cell is
/// still empty, so that a particle never covers the map, an actor, text or an
/// earlier particle. Particles whose life has run out are then removed; the
/// others keep their order.
pub fn step_particles(particles: &mut Vec<Particle>, frames: isize, frame: &mut Frame)
    requires
        old(frame).wf(),
        forall|i: int| 0 <= i < old(particles)@.len() ==> (#[trigger] old(particles)@[i]).wf(),
    ensures
        final(particles)@ == aged_all(old(particles)@, frames as int).filter(alive()),
        final(frame)@ == overlay(old(frame)@, aged_all(old(particles)@, frames as int)),
        final(frame).wf(),
        forall|i: int| 0 <= i < final(particles)@.len() ==> (#[trigger] final(particles)@[i]).wf(),
        forall|i: int|
            0 <= i < old(frame)@.len() && old(frame)@[i] != neutral()
                ==> final(frame)@[i] == old(frame)@[i],
        clean(old(frame)@) ==> clean(final(frame)@),
{
    let ghost all = aged_all(particles@, frames as int);
    let ghost px0 = frame@;
    let mut kept: Vec<Particle> = Vec::new();
    let mut i: usize = 0;
    while i < particles.len()
        invariant
            i <= particles.len(),
            all == aged_all(particles@, frames as int),
            forall|j: int| 0 <= j < particles@.len() ==> (#[trigger] particles@[j]).wf(),
            frame.wf(),
            px0.len() == frame@.len(),
            kept@ == all.take(i as int).filter(alive()),
            frame@ == overlay(px0, all.take(i as int)),
            forall|j: int| 0 <= j < kept@.len() ==> (#[trigger] kept@[j]).wf(),
            forall|j: int| 0 <= j < px0.len() && px0[j] != neutral() ==> frame@[j] == px0[j],
            clean(px0) ==> clean(frame@),
        decreases particles.len() - i,
    {
        let q = age(particles[i], frames);
        proof {
            let next = all.take(i as int + 1);
            assert(next.drop_last() =~= all.take(i as int));
            assert(next.last() == q);
            reveal(Seq::filter);
        }
        if 1 <= q.p.x && q.p.x < W - 1 && 1 <= q.p.y && q.p.y < H - 1 {
            let at = (q.p.x + q.p.y * W) as usize;
            let seen = frame.pixel(at);
            if seen.back == Color::Black && seen.front == Color::Black && seen.glyph == ' ' {
                frame.set(at, Pixel { back: Color::Black, front: q.color, glyph: q.kind });
            }
        }
        if q.life > 0 {
            kept.push(q);
        }
        i += 1;
    }
    proof {
        assert(all.take(i as int) =~= all);
    }
    *particles = kept;
}

} // verus!
