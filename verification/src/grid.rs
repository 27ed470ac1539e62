//! The toroidal grid and its update rule: a rectangular matrix of boolean
//! cells whose neighbor lookups wrap at both edges, advanced one generation
//! at a time by the standard rule (a live cell survives with 2 or 3 live
//! neighbors, a dead cell comes alive with exactly 3), always evaluated
//! against a stable snapshot of the current generation.
//!
//! One step visits every cell, so its cost grows with `width * height`; this
//! bounds the sustainable tick rate on very large viewports.

use vstd::prelude::*;

verus! {

/// The row above (or column to the left of) index `i`, wrapping at the edge
/// of a dimension of size `n`.
pub open spec fn wrap_dec(i: int, n: int) -> int {
    (i + n - 1) % n
}

/// The row below (or column to the right of) index `i`, wrapping at the edge
/// of a dimension of size `n`.
pub open spec fn wrap_inc(i: int, n: int) -> int {
    (i + 1) % n
}

/// 1 if the cell at `(r, c)` of `g` is alive, else 0.
pub open spec fn live_at(g: Seq<Seq<bool>>, r: int, c: int) -> int {
    if g[r][c] {
        1int
    } else {
        0int
    }
}

/// The eight toroidal neighbor coordinates of `(r, c)` in an `h x w` grid,
/// row by row. On dimensions smaller than 3 some coordinates coincide; the
/// neighborhood still has eight members, counted with multiplicity.
pub open spec fn neighbor_positions(h: int, w: int, r: int, c: int) -> Seq<(int, int)> {
    let up = wrap_dec(r, h);
    let down = wrap_inc(r, h);
    let left = wrap_dec(c, w);
    let right = wrap_inc(c, w);
    seq![
        (up, left),
        (up, c),
        (up, right),
        (r, left),
        (r, right),
        (down, left),
        (down, c),
        (down, right),
    ]
}

/// How many of the eight toroidal neighbors of `(r, c)` are alive, counted
/// with multiplicity.
pub open spec fn live_neighbors(g: Seq<Seq<bool>>, h: int, w: int, r: int, c: int) -> int {
    let up = wrap_dec(r, h);
    let down = wrap_inc(r, h);
    let left = wrap_dec(c, w);
    let right = wrap_inc(c, w);
    live_at(g, up, left) + live_at(g, up, c) + live_at(g, up, right) + live_at(g, r, left)
        + live_at(g, r, right) + live_at(g, down, left) + live_at(g, down, c)
        + live_at(g, down, right)
}

/// The standard update rule for one cell, read entirely from the old
/// generation `g`: a live cell survives with 2 or 3 live neighbors, a dead
/// cell comes alive with exactly 3, every other cell is dead next.
pub open spec fn next_cell(g: Seq<Seq<bool>>, h: int, w: int, r: int, c: int) -> bool {
    let n = live_neighbors(g, h, w, r, c);
    if g[r][c] {
        2 <= n <= 3
    } else {
        n == 3
    }
}

/// Law: in any grid of at least 1 x 1, every cell's neighborhood has exactly
/// eight members, each of them a valid in-bounds coordinate even when the
/// cell sits on an edge or corner (the coordinates wrap), and the
/// live-neighbor count is exactly the number of live cells among those eight
/// members, so it never exceeds 8.
pub proof fn lemma_neighbor_wrap(g: Seq<Seq<bool>>, h: int, w: int, r: int, c: int)
    requires
        1 <= h,
        1 <= w,
        0 <= r < h,
        0 <= c < w,
    ensures
        neighbor_positions(h, w, r, c).len() == 8,
        forall|i: int|
            0 <= i < 8 ==> {
                let p = #[trigger] neighbor_positions(h, w, r, c)[i];
                0 <= p.0 < h && 0 <= p.1 < w
            },
        ({
            let ps = neighbor_positions(h, w, r, c);
            live_neighbors(g, h, w, r, c) == live_at(g, ps[0].0, ps[0].1) + live_at(
                g,
                ps[1].0,
                ps[1].1,
            ) + live_at(g, ps[2].0, ps[2].1) + live_at(g, ps[3].0, ps[3].1) + live_at(
                g,
                ps[4].0,
                ps[4].1,
            ) + live_at(g, ps[5].0, ps[5].1) + live_at(g, ps[6].0, ps[6].1) + live_at(
                g,
                ps[7].0,
                ps[7].1,
            )
        }),
        0 <= live_neighbors(g, h, w, r, c) <= 8,
{
    let ps = neighbor_positions(h, w, r, c);
    assert forall|i: int| 0 <= i < 8 implies {
        let p = #[trigger] ps[i];
        0 <= p.0 < h && 0 <= p.1 < w
    } by {
        assert(0 <= (r + h - 1) % h < h);
        assert(0 <= (r + 1) % h < h);
        assert(0 <= (c + w - 1) % w < w);
        assert(0 <= (c + 1) % w < w);
    }
}

/// A toroidal grid of boolean cells: `height` rows of `width` cells each.
/// Zero width or height is a valid degenerate state in which a step does
/// nothing.
pub struct Grid {
    pub width: u16,
    pub height: u16,
    pub cells: Vec<Vec<bool>>,
}

impl View for Grid {
    type V = Seq<Seq<bool>>;

    open spec fn view(&self) -> Seq<Seq<bool>> {
        self.cells@.map_values(|row: Vec<bool>| row@)
    }
}

impl Grid {
    /// Every row has exactly `width` cells and there are exactly `height`
    /// rows: the invariant every constructor establishes and every method
    /// preserves.
    pub open spec fn wf(&self) -> bool {
        &&& self.cells@.len() == self.height
        &&& forall|i: int|
            0 <= i < self.cells@.len() ==> (#[trigger] self.cells@[i])@.len() == self.width
    }

    /// The grid with every cell dead.
    pub open spec fn all_dead(&self) -> bool {
        forall|r: int, c: int|
            0 <= r < self.height && 0 <= c < self.width ==> !(#[trigger] self@[r][c])
    }

    /// An all-dead grid of the given dimensions.
    pub fn new(width: u16, height: u16) -> (g: Grid)
        ensures
            g.wf(),
            g.width == width,
            g.height == height,
            g.all_dead(),
    {
        let mut cells: Vec<Vec<bool>> = Vec::new();
        let mut r: usize = 0;
        while r < height as usize
            invariant
                r <= height,
                cells@.len() == r,
                forall|i: int| 0 <= i < r ==> (#[trigger] cells@[i])@.len() == width,
                forall|i: int, j: int|
                    0 <= i < r && 0 <= j < width ==> !(#[trigger] cells@[i]@[j]),
            decreases height - r,
        {
            let mut row: Vec<bool> = Vec::new();
            let mut c: usize = 0;
            while c < width as usize
                invariant
                    c <= width,
                    row@.len() == c,
                    forall|j: int| 0 <= j < c ==> !(#[trigger] row@[j]),
                decreases width - c,
            {
                row.push(false);
                c += 1;
            }
            cells.push(row);
            r += 1;
        }
        Grid { width, height, cells }
    }

    /// Read one cell.
    pub fn get(&self, row: usize, col: usize) -> (alive: bool)
        requires
            self.wf(),
            row < self.height,
            col < self.width,
        ensures
            alive == self@[row as int][col as int],
    {
        self.cells[row][col]
    }

    /// Overwrite one cell. Out-of-range coordinates are rejected: the grid
    /// is left unchanged and `false` is returned.
    pub fn set_cell(&mut self, row: usize, col: usize, alive: bool) -> (ok: bool)
        requires
            old(self).wf(),
        ensures
            final(self).wf(),
            final(self).width == old(self).width,
            final(self).height == old(self).height,
            ok == (row < old(self).height && col < old(self).width),
            ok ==> final(self)@ == old(self)@.update(
                row as int,
                old(self)@[row as int].update(col as int, alive),
            ),
            !ok ==> *final(self) == *old(self),
    {
        if row < self.height as usize && col < self.width as usize {
            let row_ref = &mut self.cells[row];
            row_ref.set(col, alive);
            assert(self@ =~= old(self)@.update(
                row as int,
                old(self)@[row as int].update(col as int, alive),
            ));
            true
        } else {
            false
        }
    }

    /// Count the live cells among the eight toroidal neighbors of
    /// `(row, col)`, with multiplicity.
    pub fn live_neighbor_count(&self, row: usize, col: usize) -> (n: u8)
        requires
            self.wf(),
            row < self.height,
            col < self.width,
        ensures
            n == live_neighbors(
                self@,
                self.height as int,
                self.width as int,
                row as int,
                col as int,
            ),
            n <= 8,
    {
        let h = self.height as usize;
        let w = self.width as usize;
        let up = (row + h - 1) % h;
        let down = (row + 1) % h;
        let left = (col + w - 1) % w;
        let right = (col + 1) % w;
        let mut n: u8 = 0;
        if self.cells[up][left] {
            n += 1;
        }
        if self.cells[up][col] {
            n += 1;
        }
        if self.cells[up][right] {
            n += 1;
        }
        if self.cells[row][left] {
            n += 1;
        }
        if self.cells[row][right] {
            n += 1;
        }
        if self.cells[down][left] {
            n += 1;
        }
        if self.cells[down][col] {
            n += 1;
        }
        if self.cells[down][right] {
            n += 1;
        }
        n
    }

    /// Advance one generation. Every cell of the new generation is computed
    /// from a stable snapshot of the old one (a fresh matrix is filled while
    /// the old one stays untouched), so a step never observes its own
    /// partially-updated output.
    pub fn step(&mut self)
        requires
            old(self).wf(),
        ensures
            final(self).wf(),
            final(self).width == old(self).width,
            final(self).height == old(self).height,
            forall|r: int, c: int|
                0 <= r < old(self).height && 0 <= c < old(self).width
                    ==> #[trigger] final(self)@[r][c] == next_cell(
                    old(self)@,
                    old(self).height as int,
                    old(self).width as int,
                    r,
                    c,
                ),
    {
        if self.width == 0 || self.height == 0 {
            return ;
        }
        let h = self.height as usize;
        let w = self.width as usize;
        let mut next: Vec<Vec<bool>> = Vec::new();
        let mut r: usize = 0;
        while r < h
            invariant
                *self == *old(self),
                self.wf(),
                h == self.height as int,
                w == self.width as int,
                1 <= h,
                1 <= w,
                r <= h,
                next@.len() == r,
                forall|i: int| 0 <= i < r ==> (#[trigger] next@[i])@.len() == w,
                forall|i: int, j: int|
                    0 <= i < r && 0 <= j < w ==> #[trigger] next@[i]@[j] == next_cell(
                        self@,
                        h as int,
                        w as int,
                        i,
                        j,
                    ),
            decreases h - r,
        {
            let mut row: Vec<bool> = Vec::new();
            let mut c: usize = 0;
            while c < w
                invariant
                    *self == *old(self),
                    self.wf(),
                    h == self.height as int,
                    w == self.width as int,
                    r < h,
                    c <= w,
                    row@.len() == c,
                    forall|j: int|
                        0 <= j < c ==> #[trigger] row@[j] == next_cell(
                            self@,
                            h as int,
                            w as int,
                            r as int,
                            j,
                        ),
                decreases w - c,
            {
                let live = self.live_neighbor_count(r, c);
                let alive_now = self.cells[r][c];
                let alive_next = if alive_now {
                    2 <= live && live <= 3
                } else {
                    live == 3
                };
                row.push(alive_next);
                c += 1;
            }
            next.push(row);
            r += 1;
        }
        self.cells = next;
    }

    /// The cells in row-major order, the shape a renderer paints: entry
    /// `r * width + c` of the result is cell `(r, c)`.
    pub fn cells_row_major(&self) -> (out: Vec<bool>)
        requires
            self.wf(),
        ensures
            out@.len() == self.height * self.width,
            forall|k: int|
                0 <= k < out@.len() ==> #[trigger] out@[k] == self@[k / (self.width as int)][k % (
                self.width as int)],
    {
        let h = self.height as usize;
        let w = self.width as usize;
        let mut out: Vec<bool> = Vec::new();
        if w == 0 {
            assert(out@.len() == self.height * self.width) by (nonlinear_arith)
                requires
                    w == self.width as int,
                    w == 0,
                    out@.len() == 0,
            ;
            return out;
        }
        let mut r: usize = 0;
        while r < h
            invariant
                self.wf(),
                h == self.height as int,
                w == self.width as int,
                1 <= w,
                r <= h,
                out@.len() == r * w,
                forall|k: int|
                    0 <= k < out@.len() ==> #[trigger] out@[k] == self@[k / (w as int)][k % (
                    w as int)],
            decreases h - r,
        {
            let mut c: usize = 0;
            while c < w
                invariant
                    self.wf(),
                    h == self.height as int,
                    w == self.width as int,
                    1 <= w,
                    r < h,
                    c <= w,
                    out@.len() == r * w + c,
                    forall|k: int|
                        0 <= k < out@.len() ==> #[trigger] out@[k] == self@[k / (w as int)][k % (
                        w as int)],
                decreases w - c,
            {
                proof {
                    vstd::arithmetic::div_mod::lemma_fundamental_div_mod_converse(
                        r * w + c,
                        w as int,
                        r as int,
                        c as int,
                    );
                    assert(r * w + c < usize::MAX) by (nonlinear_arith)
                        requires
                            r < h,
                            c < w,
                            h <= u16::MAX,
                            w <= u16::MAX,
                    ;
                }
                out.push(self.cells[r][c]);
                c += 1;
            }
            proof {
                assert(r * w + w == (r + 1) * w) by (nonlinear_arith);
            }
            r += 1;
        }
        out
    }

    /// Replace the grid by an all-dead grid of the given dimensions,
    /// discarding all prior content.
    pub fn resize(&mut self, width: u16, height: u16)
        ensures
            final(self).wf(),
            final(self).width == width,
            final(self).height == height,
            final(self).all_dead(),
    {
        *self = Grid::new(width, height);
    }
}

} // verus!
