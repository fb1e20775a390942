use vstd::prelude::*;

use crate::grid::{grid_col, grid_col_spec, grid_row, grid_row_spec, HEIGHT, WIDTH};
use crate::status::{classify, classify_spec, Status};

verus! {

/// The derived display grid: one status per cell, stored row by row.
pub struct Canvas {
    pub cells: Vec<Status>,
}

impl Canvas {
    /// The canvas holds exactly one cell for every grid coordinate.
    pub open spec fn wf(self) -> bool {
        self.cells.len() == (WIDTH as int) * (HEIGHT as int)
    }

    /// The status held in column `x`, row `y`.
    pub open spec fn cell(self, x: int, y: int) -> Status {
        self.cells@[y * (WIDTH as int) + x]
    }

    /// A fresh canvas with every cell Dead.
    pub fn new() -> (c: Canvas)
        ensures
            c.wf(),
            forall|x: int, y: int|
                0 <= x < WIDTH as int && 0 <= y < HEIGHT as int ==> c.cell(x, y) == Status::Dead,
    {
        let size: usize = (WIDTH as usize) * (HEIGHT as usize);
        let mut cells: Vec<Status> = Vec::new();
        let mut k: usize = 0;
        while k < size
            invariant
                k <= size,
                cells.len() == k,
                forall|j: int| 0 <= j < k ==> cells@[j] == Status::Dead,
            decreases size - k,
        {
            cells.push(Status::Dead);
            k = k + 1;
        }
        let c = Canvas { cells };
        proof {
            assert forall|x: int, y: int|
                0 <= x < WIDTH as int && 0 <= y < HEIGHT as int implies c.cell(x, y)
                == Status::Dead by {
                assert(0 <= y * (WIDTH as int) + x < (WIDTH as int) * (HEIGHT as int))
                    by (nonlinear_arith)
                    requires
                        0 <= x < WIDTH as int,
                        0 <= y < HEIGHT as int,
                ;
            }
        }
        c
    }
}

/// The entity is drawn: its position is present, its alive flag is present
/// and true, and its health is present and at least one.
pub open spec fn paints(p: Option<(isize, isize)>, a: Option<bool>, h: Option<usize>) -> bool {
    &&& p is Some
    &&& a == Some(true)
    &&& h is Some
    &&& h.unwrap() >= 1
}

/// Entity `e` writes the cell at column `x`, row `y`.
pub open spec fn writes_cell(
    positions: Seq<Option<(isize, isize)>>,
    alives: Seq<Option<bool>>,
    healths: Seq<Option<usize>>,
    e: int,
    x: int,
    y: int,
) -> bool {
    &&& paints(positions[e], alives[e], healths[e])
    &&& grid_col_spec(positions[e].unwrap().0) == x
    &&& grid_row_spec(positions[e].unwrap().1) == y
}

/// No entity with index in `[lo, hi)` writes the cell at `(x, y)`.
pub open spec fn no_writer_in(
    positions: Seq<Option<(isize, isize)>>,
    alives: Seq<Option<bool>>,
    healths: Seq<Option<usize>>,
    lo: int,
    hi: int,
    x: int,
    y: int,
) -> bool {
    forall|e: int| lo <= e < hi ==> !writes_cell(positions, alives, healths, e, x, y)
}

/// What the cell at `(x, y)` must hold once the first `upto` entities have
/// been drawn: Dead when none of them writes it, and otherwise the health
/// classification of the last among them that does.
pub open spec fn cell_ok(
    positions: Seq<Option<(isize, isize)>>,
    alives: Seq<Option<bool>>,
    healths: Seq<Option<usize>>,
    upto: int,
    x: int,
    y: int,
    val: Status,
) -> bool {
    &&& (no_writer_in(positions, alives, healths, 0, upto, x, y) ==> val == Status::Dead)
    &&& forall|e: int|
        0 <= e < upto && writes_cell(positions, alives, healths, e, x, y) && no_writer_in(
            positions,
            alives,
            healths,
            e + 1,
            upto,
            x,
            y,
        ) ==> val == classify_spec(healths[e].unwrap() as int)
}

/// CanvasRender: recompute the whole canvas from positions, alive flags and
/// healths. Every entity whose position is present, whose alive flag is
/// present and true and whose health is present and at least one paints its
/// health classification into the cell its clamped, translated position lands
/// in; where entities collide on one cell the last one in entity order wins;
/// every other cell is Dead.
pub fn component_render_system(
    canvas: &mut Canvas,
    positions: &Vec<Option<(isize, isize)>>,
    alives: &Vec<Option<bool>>,
    healths: &Vec<Option<usize>>,
)
    requires
        alives.len() == positions.len(),
        healths.len() == positions.len(),
    ensures
        final(canvas).wf(),
        forall|x: int, y: int|
            0 <= x < WIDTH as int && 0 <= y < HEIGHT as int ==> cell_ok(
                positions@,
                alives@,
                healths@,
                positions@.len() as int,
                x,
                y,
                final(canvas).cell(x, y),
            ),
{
    let n: usize = positions.len();
    let mut fresh = Canvas::new();
    let mut e: usize = 0;
    while e < n
        invariant
            e <= n,
            n == positions.len(),
            alives.len() == n,
            healths.len() == n,
            fresh.wf(),
            forall|x: int, y: int|
                0 <= x < WIDTH as int && 0 <= y < HEIGHT as int ==> cell_ok(
                    positions@,
                    alives@,
                    healths@,
                    e as int,
                    x,
                    y,
                    fresh.cell(x, y),
                ),
        decreases n - e,
    {
        let p = positions[e];
        let a = alives[e];
        let h = healths[e];
        let ghost pre = fresh;
        if p.is_some() && a.is_some() && a.unwrap() && h.is_some() && h.unwrap() >= 1 {
            let (px, py) = p.unwrap();
            let gx = grid_col(px);
            let gy = grid_row(py);
            let idx: usize = gy * (WIDTH as usize) + gx;
            assert(idx < fresh.cells.len());
            let st = classify(h.unwrap());
            fresh.cells.set(idx, st);
            proof {
                assert(writes_cell(positions@, alives@, healths@, e as int, gx as int, gy as int));
                assert forall|x: int, y: int|
                    0 <= x < WIDTH as int && 0 <= y < HEIGHT as int implies cell_ok(
                    positions@,
                    alives@,
                    healths@,
                    e + 1,
                    x,
                    y,
                    fresh.cell(x, y),
                ) by {
                    if x == gx as int && y == gy as int {
                        assert(fresh.cell(x, y) == st);
                        assert(!no_writer_in(positions@, alives@, healths@, 0, e + 1, x, y));
                    } else {
                        assert(y * (WIDTH as int) + x != idx as int) by (nonlinear_arith)
                            requires
                                0 <= x < WIDTH as int,
                                0 <= y < HEIGHT as int,
                                0 <= (gx as int) && (gx as int) < WIDTH as int,
                                0 <= (gy as int) && (gy as int) < HEIGHT as int,
                                idx as int == (gy as int) * (WIDTH as int) + (gx as int),
                                !(x == gx as int && y == gy as int),
                        ;
                        assert(fresh.cell(x, y) == pre.cell(x, y));
                        assert(!writes_cell(positions@, alives@, healths@, e as int, x, y));
                        assert(cell_ok(positions@, alives@, healths@, e as int, x, y, pre.cell(x, y)));
                    }
                }
            }
        } else {
            proof {
                assert forall|x: int, y: int|
                    0 <= x < WIDTH as int && 0 <= y < HEIGHT as int implies cell_ok(
                    positions@,
                    alives@,
                    healths@,
                    e + 1,
                    x,
                    y,
                    fresh.cell(x, y),
                ) by {
                    assert(!writes_cell(positions@, alives@, healths@, e as int, x, y));
                    assert(cell_ok(positions@, alives@, healths@, e as int, x, y, fresh.cell(x, y)));
                }
            }
        }
        e = e + 1;
    }
    canvas.cells = fresh.cells;
}

/// The frame rate shown beside the canvas, from the timestamps, in
/// milliseconds, of this render and the one before: sixty when no time has
/// passed, else one thousand divided by the elapsed time.
pub fn frame_rate(now: u128, then: u128) -> (fps: u128)
    requires
        then <= now,
    ensures
        now == then ==> fps == 60,
        now > then ==> fps == 1000int / (now - then),
{
    if now - then == 0 {
        60
    } else {
        1000 / (now - then)
    }
}

} // verus!
