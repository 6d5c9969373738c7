//! The frame compositor: layers the map, the status row and the actors with
//! their trails into a full pixel buffer.

use vstd::prelude::*;
use crate::actor::{Actor, Dash};
use crate::grid::{index_of, Cell, Grid, CELLS, W};
use crate::num::{abs, signum_of};
use crate::pixel::{clean, Color, Frame, Pixel};

verus! {

/// The flat position from which the title is written.
pub const TITLE_START: usize = 1;

/// How a map cell looks: rubble and wall in one colour, air in the
/// background colour, and everything in the former while the screen flashes.
pub open spec fn map_pixel(c: Cell, flash: bool) -> Pixel {
    let color = if flash || c != Cell::Air {
        Color::DarkBlue
    } else {
        Color::Black
    };
    Pixel { back: color, front: color, glyph: ' ' }
}

/// The bottom layer: the map, cell by cell.
pub open spec fn map_layer(grid: Seq<Cell>, flash: bool) -> Seq<Pixel> {
    Seq::new(CELLS as nat, |i: int| map_pixel(grid[i], flash))
}

/// How a character of the status row looks.
pub open spec fn label(c: char) -> Pixel {
    Pixel { back: Color::DarkBlue, front: Color::White, glyph: c }
}

/// `px` with `text` written from flat position `start`; what would run past
/// the end of the buffer is cut.
pub open spec fn with_text(px: Seq<Pixel>, start: int, text: Seq<char>) -> Seq<Pixel> {
    Seq::new(
        px.len(),
        |i: int|
            if start <= i < start + text.len() {
                label(text[i - start])
            } else {
                px[i]
            },
    )
}

/// The title: the game's name, a space, and the version.
pub open spec fn title_of(version: Seq<char>) -> Seq<char> {
    seq!['y', 'j', 'u', 'm', 'p', ' '] + version
}

/// The character for a decimal digit.
pub open spec fn digit(d: int) -> char {
    (48 + d) as char
}

/// The decimal numeral of `n`, most significant digit first.
pub open spec fn decimal(n: nat) -> Seq<char>
    decreases n,
{
    if n < 10 {
        seq![digit(n as int)]
    } else {
        decimal(n / 10).push(digit((n % 10) as int))
    }
}

/// Whether the separators of the score show on this tick of the flash: they
/// blink in periods of eight ticks.
pub open spec fn blinks(switching: int) -> bool {
    switching > 0 && switching % 8 < 4
}

/// The score line: the word, the score, and a separator on either side.
pub open spec fn score_line(score: nat, switching: int) -> Seq<char> {
    let sep = if blinks(switching) {
        '-'
    } else {
        ' '
    };
    seq![sep, 'S', 'c', 'o', 'r', 'e', ':', ' '] + decimal(score) + seq![sep]
}

/// The flat position from which a line of `len` characters is written so as
/// to sit in the middle of the top row.
pub open spec fn centered(len: int) -> int {
    W / 2 - len / 2
}

/// The coordinate reached after `k` unit steps from `from` towards `to`.
pub open spec fn toward(from: int, to: int, k: int) -> int {
    if from <= to {
        if from + k < to {
            from + k
        } else {
            to
        }
    } else {
        if from - k > to {
            from - k
        } else {
            to
        }
    }
}

/// The number of cells in an actor's trail: the larger of the two distances
/// it moved.
pub open spec fn trail_len(a: Actor) -> int {
    let across = abs(a.pos.x - a.old_pos.x);
    let down = abs(a.pos.y - a.old_pos.y);
    if across < down {
        down
    } else {
        across
    }
}

/// The flat position of the `k`-th cell of an actor's trail. The trail runs
/// from the previous position towards the current one, diagonally while both
/// coordinates differ and straight afterwards.
pub open spec fn trail_cell(a: Actor, k: int) -> int {
    index_of(
        toward(a.old_pos.x as int, a.pos.x as int, k),
        toward(a.old_pos.y as int, a.pos.y as int, k),
    )
}

/// The glyph of an actor: it shows which way the actor steers.
pub open spec fn logo(a: Actor) -> char {
    if a.right_power == 1 {
        '>'
    } else if a.right_power == -1 {
        '<'
    } else {
        'Y'
    }
}

/// How a cell of an actor's trail looks.
pub open spec fn trail_pixel(a: Actor) -> Pixel {
    Pixel {
        back: if a.is_player {
            Color::DarkYellow
        } else {
            Color::DarkGreen
        },
        front: Color::Black,
        glyph: logo(a),
    }
}

/// How an actor's head looks. The player's colour shows its dash state.
pub open spec fn head_pixel(a: Actor) -> Pixel {
    Pixel {
        back: if a.is_player {
            match a.dash {
                Dash::Dashing(_) => Color::White,
                Dash::Loading(_) => Color::DarkYellow,
                Dash::Ready => Color::Yellow,
            }
        } else {
            Color::Green
        },
        front: Color::Black,
        glyph: logo(a),
    }
}

/// `px` with the first `n` cells of an actor's trail drawn.
pub open spec fn with_trail(px: Seq<Pixel>, a: Actor, n: int) -> Seq<Pixel>
    decreases n,
{
    if n <= 0 {
        px
    } else {
        with_trail(px, a, n - 1).update(trail_cell(a, n - 1), trail_pixel(a))
    }
}

/// `px` with an actor drawn: its trail, then its head over it.
pub open spec fn with_actor(px: Seq<Pixel>, a: Actor) -> Seq<Pixel> {
    with_trail(px, a, trail_len(a)).update(
        index_of(a.pos.x as int, a.pos.y as int),
        head_pixel(a),
    )
}

/// `px` with the actors drawn in order, later ones over earlier ones.
pub open spec fn with_actors(px: Seq<Pixel>, actors: Seq<Actor>) -> Seq<Pixel>
    decreases actors.len(),
{
    if actors.len() == 0 {
        px
    } else {
        with_actor(with_actors(px, actors.drop_last()), actors.last())
    }
}

/// The composed frame, before particles: the map, the title from the second
/// cell of the top row, the score line centred in the top row, the enemies
/// in spawn order, and the player on top.
pub open spec fn composed(
    grid: Seq<Cell>,
    switching: int,
    title: Seq<char>,
    score: nat,
    enemies: Seq<Actor>,
    player: Actor,
) -> Seq<Pixel> {
    let line = score_line(score, switching);
    let status = with_text(
        with_text(map_layer(grid, switching > 0), TITLE_START as int, title),
        centered(line.len() as int),
        line,
    );
    with_actor(with_actors(status, enemies), player)
}

/// Appends the decimal numeral of `n` to `out`.
pub fn push_decimal(out: &mut Vec<char>, n: u32)
    ensures
        final(out)@ == old(out)@ + decimal(n as nat),
        1 <= decimal(n as nat).len() <= 10,
    decreases n,
{
    if n >= 10 {
        push_decimal(out, n / 10);
    }
    out.push((48u8 + (n % 10) as u8) as char);
    proof {
        assert(final(out)@ =~= old(out)@ + decimal(n as nat));
        assert(decimal(n as nat).len() <= 10) by {
            reveal_with_fuel(decimal, 11);
        }
    }
}

/// Builds the title from the version.
pub fn title(version: &str) -> (t: Vec<char>)
    ensures
        t@ == title_of(version@),
{
    let mut t: Vec<char> = Vec::new();
    t.push('y');
    t.push('j');
    t.push('u');
    t.push('m');
    t.push('p');
    t.push(' ');
    let n = version.unicode_len();
    let mut i: usize = 0;
    while i < n
        invariant
            i <= n,
            n == version@.len(),
            t@ == title_of(version@.take(i as int)),
        decreases n - i,
    {
        t.push(version.get_char(i));
        proof {
            assert(t@ =~= title_of(version@.take(i as int + 1)));
        }
        i += 1;
    }
    proof {
        assert(version@.take(n as int) =~= version@);
    }
    t
}

/// Builds the score line.
pub fn score_text(score: u32, switching: i32) -> (line: Vec<char>)
    ensures
        line@ == score_line(score as nat, switching as int),
        10 <= line@.len() <= 19,
{
    let sep = if switching > 0 && switching % 8 < 4 {
        '-'
    } else {
        ' '
    };
    let mut line: Vec<char> = Vec::new();
    line.push(sep);
    line.push('S');
    line.push('c');
    line.push('o');
    line.push('r');
    line.push('e');
    line.push(':');
    line.push(' ');
    push_decimal(&mut line, score);
    line.push(sep);
    proof {
        assert(line@ =~= score_line(score as nat, switching as int));
    }
    line
}

/// Fills the frame with the map layer.
pub fn paint_map(frame: &mut Frame, map: &Grid, flash: bool)
    requires
        old(frame).wf(),
        map.wf(),
    ensures
        final(frame)@ == map_layer(map@, flash),
        final(frame).wf(),
        clean(final(frame)@),
{
    let mut i: usize = 0;
    while i < CELLS
        invariant
            i <= CELLS,
            frame.wf(),
            map.wf(),
            forall|j: int| 0 <= j < i ==> frame@[j] == map_pixel(map@[j], flash),
        decreases CELLS - i,
    {
        let x = (i % (W as usize)) as isize;
        let y = (i / (W as usize)) as isize;
        let color = match map.cell(x, y) {
            Cell::Air => if flash {
                Color::DarkBlue
            } else {
                Color::Black
            },
            Cell::Solid | Cell::Wall => Color::DarkBlue,
        };
        frame.set(i, Pixel { back: color, front: color, glyph: ' ' });
        i += 1;
    }
    proof {
        assert(frame@ =~= map_layer(map@, flash));
    }
}

/// Writes `text` into the frame from flat position `start`, cutting what
/// would run past the end of the buffer.
pub fn paint_text(frame: &mut Frame, start: usize, text: &Vec<char>)
    requires
        old(frame).wf(),
    ensures
        final(frame)@ == with_text(old(frame)@, start as int, text@),
        final(frame).wf(),
        clean(old(frame)@) ==> clean(final(frame)@),
{
    let ghost px = frame@;
    let mut k: usize = 0;
    while k < text.len() && start < CELLS && k < CELLS - start
        invariant
            k <= text.len(),
            frame.wf(),
            px.len() == CELLS,
            clean(px) ==> clean(frame@),
            forall|j: int|
                0 <= j < CELLS ==> #[trigger] frame@[j] == if start <= j < start + k {
                    label(text@[j - start])
                } else {
                    px[j]
                },
        decreases text.len() - k,
    {
        let ghost before = frame@;
        frame.set(start + k, Pixel { back: Color::DarkBlue, front: Color::White, glyph: text[k] });
        proof {
            assert(frame@ == before.update(start + k, label(text@[k as int])));
        }
        k += 1;
    }
    proof {
        assert(frame@ =~= with_text(px, start as int, text@));
    }
}

/// Draws an actor into the frame: its trail from the previous position up to
/// but not including the current one, then its head.
pub fn paint_actor(frame: &mut Frame, a: &Actor)
    requires
        old(frame).wf(),
        a.wf(),
    ensures
        final(frame)@ == with_actor(old(frame)@, *a),
        final(frame).wf(),
        clean(old(frame)@) ==> clean(final(frame)@),
{
    let ghost px = frame@;
    let glyph = if a.right_power == 1 {
        '>'
    } else if a.right_power == -1 {
        '<'
    } else {
        'Y'
    };
    let trail = Pixel {
        back: if a.is_player {
            Color::DarkYellow
        } else {
            Color::DarkGreen
        },
        front: Color::Black,
        glyph,
    };
    let mut sx = a.old_pos.x;
    let mut sy = a.old_pos.y;
    let ghost mut k: int = 0;
    while sx != a.pos.x || sy != a.pos.y
        invariant
            a.wf(),
            frame.wf(),
            0 <= k <= trail_len(*a),
            sx == toward(a.old_pos.x as int, a.pos.x as int, k),
            sy == toward(a.old_pos.y as int, a.pos.y as int, k),
            trail == trail_pixel(*a),
            frame@ == with_trail(px, *a, k),
            clean(px) ==> clean(frame@),
        decreases trail_len(*a) - k,
    {
        frame.set((sx + sy * W) as usize, trail);
        sy = sy + signum_of(a.pos.y - sy);
        sx = sx + signum_of(a.pos.x - sx);
        proof {
            k = k + 1;
        }
    }
    let head = Pixel {
        back: if a.is_player {
            match a.dash {
                Dash::Dashing(_) => Color::White,
                Dash::Loading(_) => Color::DarkYellow,
                Dash::Ready => Color::Yellow,
            }
        } else {
            Color::Green
        },
        front: Color::Black,
        glyph,
    };
    frame.set((a.pos.x + a.pos.y * W) as usize, head);
}

/// Rebuilds the whole frame from the state of the world, particles aside.
pub fn compose(
    frame: &mut Frame,
    map: &Grid,
    switching: i32,
    title: &Vec<char>,
    score: u32,
    enemies: &Vec<Actor>,
    player: &Actor,
)
    requires
        old(frame).wf(),
        map.wf(),
        player.wf(),
        forall|i: int| 0 <= i < enemies@.len() ==> (#[trigger] enemies@[i]).wf(),
    ensures
        final(frame)@ == composed(
            map@,
            switching as int,
            title@,
            score as nat,
            enemies@,
            *player,
        ),
        final(frame).wf(),
        clean(final(frame)@),
{
    paint_map(frame, map, switching > 0);
    paint_text(frame, TITLE_START, title);
    let line = score_text(score, switching);
    paint_text(frame, (W as usize) / 2 - line.len() / 2, &line);
    let ghost status = frame@;
    let mut i: usize = 0;
    while i < enemies.len()
        invariant
            i <= enemies.len(),
            frame.wf(),
            clean(frame@),
            forall|j: int| 0 <= j < enemies@.len() ==> (#[trigger] enemies@[j]).wf(),
            frame@ == with_actors(status, enemies@.take(i as int)),
        decreases enemies.len() - i,
    {
        proof {
            assert(enemies@.take(i as int + 1).drop_last() =~= enemies@.take(i as int));
        }
        paint_actor(frame, &enemies[i]);
        i += 1;
    }
    proof {
        assert(enemies@.take(i as int) =~= enemies@);
    }
    paint_actor(frame, player);
}

} // verus!
