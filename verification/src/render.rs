//! The diff renderer: turns a new frame into draw commands for exactly the
//! cells that differ from what the terminal already shows.

use vstd::prelude::*;
use crate::grid::{CELLS, W};
use crate::pixel::{sentinel, Color, Frame, Pixel};

verus! {

/// One positioned draw: move to `(x, y)`, set both colours, print the glyph.
#[derive(Clone, Copy, PartialEq, Eq, Structural, Debug)]
pub struct DrawCmd {
    /// Column.
    pub x: u16,
    /// Row.
    pub y: u16,
    /// Foreground colour.
    pub front: Color,
    /// Background colour.
    pub back: Color,
    /// The character to print.
    pub glyph: char,
}

/// The command that draws pixel `p` at flat position `i`.
pub open spec fn cmd_at(i: int, p: Pixel) -> DrawCmd {
    DrawCmd {
        x: (i % (W as int)) as u16,
        y: (i / (W as int)) as u16,
        front: p.front,
        back: p.back,
        glyph: p.glyph,
    }
}

/// The positions below `n` at which `cur` differs from `last`, ascending.
pub open spec fn changed_cells(cur: Seq<Pixel>, last: Seq<Pixel>, n: int) -> Seq<int>
    decreases n,
{
    if n <= 0 {
        Seq::empty()
    } else if cur[n - 1] != last[n - 1] {
        changed_cells(cur, last, n - 1).push(n - 1)
    } else {
        changed_cells(cur, last, n - 1)
    }
}

/// The draw commands that bring a terminal showing the first `n` cells of
/// `last` up to date with `cur`: one for each changed cell, in ascending
/// order of position, each carrying the new pixel.
pub open spec fn draw_commands(cur: Seq<Pixel>, last: Seq<Pixel>, n: int) -> Seq<DrawCmd> {
    let cells = changed_cells(cur, last, n);
    Seq::new(cells.len(), |k: int| cmd_at(cells[k], cur[cells[k]]))
}

/// The changed cells are listed in strictly ascending order, so no cell is
/// listed twice, and all lie below the bound.
pub proof fn changed_cells_ascend(cur: Seq<Pixel>, last: Seq<Pixel>, n: int)
    ensures
        forall|k: int|
            0 <= k < changed_cells(cur, last, n).len() ==> 0 <= #[trigger] changed_cells(
                cur,
                last,
                n,
            )[k] < n,
        forall|j: int, k: int|
            0 <= j < k < changed_cells(cur, last, n).len() ==> changed_cells(cur, last, n)[j]
                < changed_cells(cur, last, n)[k],
    decreases n,
{
    if n > 0 {
        changed_cells_ascend(cur, last, n - 1);
        let rest = changed_cells(cur, last, n - 1);
        let all = changed_cells(cur, last, n);
        assert forall|k: int| 0 <= k < all.len() implies 0 <= #[trigger] all[k] < n by {
            if k < rest.len() {
                assert(all[k] == rest[k]);
            }
        }
        assert forall|j: int, k: int| 0 <= j < k < all.len() implies all[j] < all[k] by {
            assert(all[j] == rest[j]);
            if k < rest.len() {
                assert(all[k] == rest[k]);
            }
        }
    }
}

/// A cell is listed as changed exactly when it lies below the bound and its
/// pixel differs from the one last drawn.
pub proof fn changed_cells_exact(cur: Seq<Pixel>, last: Seq<Pixel>, n: int, i: int)
    ensures
        changed_cells(cur, last, n).contains(i) <==> 0 <= i < n && cur[i] != last[i],
    decreases n,
{
    if n > 0 {
        changed_cells_exact(cur, last, n - 1, i);
        let rest = changed_cells(cur, last, n - 1);
        if cur[n - 1] != last[n - 1] {
            let all = rest.push(n - 1);
            assert(all.last() == n - 1);
            if rest.contains(i) {
                let k = choose|k: int| 0 <= k < rest.len() && rest[k] == i;
                assert(all[k] == i);
            }
            if all.contains(i) && i != n - 1 {
                let k = choose|k: int| 0 <= k < all.len() && all[k] == i;
                assert(rest[k] == i);
            }
        }
    }
}

/// Rendering a frame over itself draws nothing. A pass leaves the drawn
/// buffer equal to the frame it rendered, so a second pass over the same
/// frame is silent.
pub proof fn unchanged_frame_draws_nothing(cur: Seq<Pixel>, n: int)
    ensures
        changed_cells(cur, cur, n).len() == 0,
        draw_commands(cur, cur, n).len() == 0,
    decreases n,
{
    if n > 0 {
        unchanged_frame_draws_nothing(cur, n - 1);
    }
}

/// Where every cell differs from the one last drawn, every cell is redrawn:
/// one command per cell, in order.
pub proof fn all_changed_redraws_all(cur: Seq<Pixel>, last: Seq<Pixel>, n: int)
    requires
        0 <= n,
        forall|i: int| 0 <= i < n ==> cur[i] != last[i],
    ensures
        changed_cells(cur, last, n) == Seq::new(n as nat, |i: int| i),
        draw_commands(cur, last, n) == Seq::new(n as nat, |i: int| cmd_at(i, cur[i])),
    decreases n,
{
    if n > 0 {
        all_changed_redraws_all(cur, last, n - 1);
    }
    assert(changed_cells(cur, last, n) =~= Seq::new(n as nat, |i: int| i));
    assert(draw_commands(cur, last, n) =~= Seq::new(n as nat, |i: int| cmd_at(i, cur[i])));
}

/// After an invalidation the first pass redraws exactly the cells that
/// differ from the sentinel; a frame that holds no sentinel is redrawn whole.
pub proof fn invalidated_frame_is_redrawn(cur: Seq<Pixel>, last: Seq<Pixel>, i: int)
    requires
        cur.len() == CELLS,
        last.len() == CELLS,
        forall|j: int| 0 <= j < CELLS ==> last[j] == sentinel(),
    ensures
        changed_cells(cur, last, CELLS as int).contains(i) <==> 0 <= i < CELLS && cur[i]
            != sentinel(),
        (forall|j: int| 0 <= j < CELLS ==> cur[j] != sentinel()) ==> draw_commands(
            cur,
            last,
            CELLS as int,
        ) == Seq::new(CELLS as nat, |j: int| cmd_at(j, cur[j])),
{
    changed_cells_exact(cur, last, CELLS as int, i);
    if forall|j: int| 0 <= j < CELLS ==> cur[j] != sentinel() {
        all_changed_redraws_all(cur, last, CELLS as int);
    }
}

/// Emits the draw commands for the cells of `current` that differ from
/// `drawn`, in one pass over the buffer, and brings `drawn` up to date.
/// Unchanged cells emit nothing.
pub fn render(current: &Frame, drawn: &mut Frame) -> (cmds: Vec<DrawCmd>)
    requires
        current.wf(),
        old(drawn).wf(),
    ensures
        cmds@ == draw_commands(current@, old(drawn)@, CELLS as int),
        final(drawn)@ == current@,
        final(drawn).wf(),
{
    let ghost last = drawn@;
    let mut cmds: Vec<DrawCmd> = Vec::new();
    let mut i: usize = 0;
    while i < CELLS
        invariant
            i <= CELLS,
            current.wf(),
            drawn.wf(),
            last.len() == CELLS,
            cmds@ == draw_commands(current@, last, i as int),
            forall|j: int| 0 <= j < i ==> drawn@[j] == current@[j],
            forall|j: int| i <= j < CELLS ==> drawn@[j] == last[j],
        decreases CELLS - i,
    {
        let p = current.pixel(i);
        let d = drawn.pixel(i);
        if p.back != d.back || p.front != d.front || p.glyph != d.glyph {
            drawn.set(i, p);
            cmds.push(
                DrawCmd {
                    x: (i % (W as usize)) as u16,
                    y: (i / (W as usize)) as u16,
                    front: p.front,
                    back: p.back,
                    glyph: p.glyph,
                },
            );
        }
        proof {
            assert(cmds@ =~= draw_commands(current@, last, i as int + 1));
        }
        i += 1;
    }
    assert(drawn@ =~= current@);
    cmds
}

} // verus!
