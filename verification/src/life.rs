use vstd::prelude::*;
use vstd::string::StringExecFns;

verus! {

/// One cell of the universe.
#[derive(Debug, Clone, Copy, PartialEq, Eq, Structural)]
pub enum Cell {
    Dead,
    Alive,
}

/// 1 for a live cell, 0 for a dead one.
pub open spec fn cell01(c: Cell) -> int {
    if c is Alive {
        1
    } else {
        0
    }
}

/// The glyph a cell renders as.
pub open spec fn cell_char(c: Cell) -> char {
    if c is Dead {
        '◻'
    } else {
        '◼'
    }
}

/// The cell the initial universe holds at linear position `i`.
pub open spec fn initial_cell(i: int) -> Cell {
    if i % 3 == 0 || i % 7 == 0 {
        Cell::Alive
    } else {
        Cell::Dead
    }
}

/// The rule thresholds of a universe.
#[derive(Debug, Clone, Copy, PartialEq, Eq, Structural)]
pub struct UniverseConfig {
    pub lower_alive_bound: u8,
    pub upper_alive_bound: u8,
    pub revive_count: u8,
}

impl UniverseConfig {
    /// Bundle the three rule thresholds.
    pub fn new(lower_alive_bound: u8, upper_alive_bound: u8, revive_count: u8) -> (r:
        UniverseConfig)
        ensures
            r == (UniverseConfig { lower_alive_bound, upper_alive_bound, revive_count }),
    {
        UniverseConfig { lower_alive_bound, upper_alive_bound, revive_count }
    }
}

/// The neighborhood contribution of one delta pair: zero for the pair (0, 0),
/// else 1 exactly when the wrapped neighbor cell is alive. `dx` runs over
/// {h - 1, 0, 1} and is wrapped by the width, `dy` runs over {w - 1, 0, 1}
/// and is wrapped by the height, mirroring the stored grid's torus walk.
pub open spec fn neighbor_contrib(
    cells: Seq<Cell>,
    w: int,
    h: int,
    x: int,
    y: int,
    dx: int,
    dy: int,
) -> int {
    if dx == 0 && dy == 0 {
        0
    } else {
        cell01(cells[((dy + y) % h) * w + (dx + x) % w])
    }
}

/// The number of live neighbors of (x, y): the sum over the nine delta pairs,
/// the pair (0, 0) contributing nothing. When a dimension is 1 or 2 the delta
/// values coincide, so some neighbors are counted more than once; the count
/// follows the stored grid's walk literally.
pub open spec fn spec_nlive(cells: Seq<Cell>, w: int, h: int, x: int, y: int) -> int {
    neighbor_contrib(cells, w, h, x, y, h - 1, w - 1) + neighbor_contrib(
        cells,
        w,
        h,
        x,
        y,
        h - 1,
        0,
    ) + neighbor_contrib(cells, w, h, x, y, h - 1, 1) + neighbor_contrib(
        cells,
        w,
        h,
        x,
        y,
        0,
        w - 1,
    ) + neighbor_contrib(cells, w, h, x, y, 0, 0) + neighbor_contrib(cells, w, h, x, y, 0, 1)
        + neighbor_contrib(cells, w, h, x, y, 1, w - 1) + neighbor_contrib(cells, w, h, x, y, 1, 0)
        + neighbor_contrib(cells, w, h, x, y, 1, 1)
}

/// The successor of cell (x, y): a live cell dies outside the configured
/// neighbor bounds, a dead cell revives at exactly the revive count, and
/// every other cell is carried over.
pub open spec fn next_cell(
    cells: Seq<Cell>,
    w: int,
    h: int,
    conf: UniverseConfig,
    x: int,
    y: int,
) -> Cell {
    let cur = cells[y * w + x];
    let n = spec_nlive(cells, w, h, x, y);
    if cur is Alive && (n < conf.lower_alive_bound || n > conf.upper_alive_bound) {
        Cell::Dead
    } else if cur is Dead && n == conf.revive_count {
        Cell::Alive
    } else {
        cur
    }
}

/// Byte `k` of the RGBA image: every fourth byte is the alpha of the cell
/// it belongs to, 255 when alive and 0 when dead; all other bytes are 0.
pub open spec fn image_byte(cells: Seq<Cell>, k: int) -> int {
    if k % 4 == 3 {
        if cells[k / 4] is Alive {
            255
        } else {
            0
        }
    } else {
        0
    }
}

/// Writing a grid row-major, every cell of a finished row, and of the
/// current row up to the write head, sits below the write head's index.
proof fn lemma_grid_bound(w: int, yy: int, xx: int, y: int, x: int)
    requires
        0 <= xx < w,
        0 <= yy,
        0 <= x,
        yy < y || (yy == y && xx < x),
    ensures
        0 <= yy * w + xx < y * w + x,
{
    assert(yy * w + xx < y * w + x) by (nonlinear_arith)
        requires
            0 <= xx < w,
            0 <= yy,
            0 <= x,
            yy < y || (yy == y && xx < x),
    ;
    assert(yy * w + xx >= 0) by (nonlinear_arith)
        requires
            0 <= xx,
            0 <= yy,
            0 <= w,
    ;
}

/// Stepping to the next row advances the write head by one row's width.
proof fn lemma_next_row(w: int, y: int)
    ensures
        (y + 1) * w == y * w + w,
{
    assert((y + 1) * w == y * w + w) by (nonlinear_arith);
}

/// A toroidal cellular universe.
#[derive(Debug)]
pub struct Universe {
    conf: UniverseConfig,
    width: u32,
    height: u32,
    cells: Vec<Cell>,
}

impl Universe {
    /// The rule thresholds.
    pub closed spec fn spec_conf(self) -> UniverseConfig {
        self.conf
    }

    /// The grid width.
    pub closed spec fn spec_width(self) -> int {
        self.width as int
    }

    /// The grid height.
    pub closed spec fn spec_height(self) -> int {
        self.height as int
    }

    /// The cells in row-major order.
    pub closed spec fn spec_cells(self) -> Seq<Cell> {
        self.cells@
    }

    #[verifier::type_invariant]
    pub closed spec fn wf(self) -> bool {
        &&& self.cells@.len() == self.width as int * self.height as int
        &&& self.width as int * self.height as int <= u32::MAX as int
    }

    /// The linear position of column `x` in row `y`.
    fn pos(&self, x: u32, y: u32) -> (r: usize)
        requires
            x < self.spec_width(),
            y < self.spec_height(),
        ensures
            r == y * self.spec_width() + x,
            r < self.spec_cells().len(),
    {
        proof {
            use_type_invariant(self);
            assert((y as int * self.width as int + x as int) < (self.width as int) * (self.height as int))
                by (nonlinear_arith)
                requires
                    x < self.width,
                    y < self.height,
            ;
        }
        (y * self.width + x) as usize
    }

    /// The neighborhood contribution of one delta pair.
    fn neighbor_one(&self, x: u32, y: u32, dx: u32, dy: u32) -> (r: u8)
        requires
            x < self.spec_width(),
            y < self.spec_height(),
            dx == self.spec_height() - 1 || dx == 0 || dx == 1,
            dy == self.spec_width() - 1 || dy == 0 || dy == 1,
        ensures
            r == neighbor_contrib(
                self.spec_cells(),
                self.spec_width(),
                self.spec_height(),
                x as int,
                y as int,
                dx as int,
                dy as int,
            ),
            r <= 1,
    {
        proof {
            use_type_invariant(self);
            assert((self.width as int - 1) + (self.height as int - 1) <= u32::MAX as int)
                by (nonlinear_arith)
                requires
                    1 <= self.width,
                    1 <= self.height,
                    self.width as int * self.height as int <= u32::MAX as int,
            ;
        }
        if dx == 0 && dy == 0 {
            0
        } else {
            let a = (dx + x) % self.width;
            let b = (dy + y) % self.height;
            let idx = self.pos(a, b);
            if matches!(self.cells[idx], Cell::Alive) {
                1
            } else {
                0
            }
        }
    }

    /// The number of live neighbors of (x, y), walking the torus as the grid
    /// stores it.
    fn num_live_neighbors(&self, x: u32, y: u32) -> (r: u8)
        requires
            x < self.spec_width(),
            y < self.spec_height(),
        ensures
            r == spec_nlive(
                self.spec_cells(),
                self.spec_width(),
                self.spec_height(),
                x as int,
                y as int,
            ),
    {
        let dxh = self.height - 1;
        let dyw = self.width - 1;
        let mut count: u8 = 0;
        count = count + self.neighbor_one(x, y, dxh, dyw);
        count = count + self.neighbor_one(x, y, dxh, 0);
        count = count + self.neighbor_one(x, y, dxh, 1);
        count = count + self.neighbor_one(x, y, 0, dyw);
        count = count + self.neighbor_one(x, y, 0, 0);
        count = count + self.neighbor_one(x, y, 0, 1);
        count = count + self.neighbor_one(x, y, 1, dyw);
        count = count + self.neighbor_one(x, y, 1, 0);
        count = count + self.neighbor_one(x, y, 1, 1);
        count
    }

    /// A fresh universe: every third and every seventh cell starts alive.
    pub fn new(width: u32, height: u32, conf: UniverseConfig) -> (r: Universe)
        requires
            width as int * height as int <= u32::MAX as int,
        ensures
            r.spec_conf() == conf,
            r.spec_width() == width,
            r.spec_height() == height,
            r.spec_cells().len() == width as int * height as int,
            forall|i: int|
                0 <= i < width as int * height as int ==> #[trigger] r.spec_cells()[i]
                    == initial_cell(i),
    {
        let n = width * height;
        let mut cells: Vec<Cell> = Vec::new();
        let mut i: u32 = 0;
        while i < n
            invariant
                i <= n,
                cells@.len() == i,
                forall|j: int| 0 <= j < i ==> #[trigger] cells@[j] == initial_cell(j),
            decreases n - i,
        {
            let c = if i % 3 == 0 || i % 7 == 0 {
                Cell::Alive
            } else {
                Cell::Dead
            };
            cells.push(c);
            i = i + 1;
        }
        Universe { conf, width, height, cells }
    }

    /// Advance the whole universe one generation: every cell steps by the
    /// rule simultaneously, against the old generation.
    pub fn update(&mut self)
        ensures
            final (self).spec_conf() == old(self).spec_conf(),
            final (self).spec_width() == old(self).spec_width(),
            final (self).spec_height() == old(self).spec_height(),
            final (self).spec_cells().len() == old(self).spec_cells().len(),
            forall|x: int, y: int|
                0 <= x < old(self).spec_width() && 0 <= y < old(self).spec_height()
                    ==> #[trigger] final (self).spec_cells()[y * old(self).spec_width() + x]
                    == next_cell(
                    old(self).spec_cells(),
                    old(self).spec_width(),
                    old(self).spec_height(),
                    old(self).spec_conf(),
                    x,
                    y,
                ),
    {
        proof {
            use_type_invariant(&*self);
        }
        let ghost orig = *self;
        let w = self.width;
        let h = self.height;
        let mut next: Vec<Cell> = Vec::new();
        let mut y: u32 = 0;
        while y < h
            invariant
                y <= h,
                w == self.width,
                h == self.height,
                *self == orig,
                self.wf(),
                next@.len() == y * w,
                forall|xx: int, yy: int|
                    0 <= xx < w && 0 <= yy < y ==> #[trigger] next@[yy * w + xx] == next_cell(
                        self.spec_cells(),
                        w as int,
                        h as int,
                        self.spec_conf(),
                        xx,
                        yy,
                    ),
            decreases h - y,
        {
            let mut x: u32 = 0;
            while x < w
                invariant
                    y < h,
                    x <= w,
                    w == self.width,
                    h == self.height,
                    *self == orig,
                    self.wf(),
                    next@.len() == y * w + x,
                    forall|xx: int, yy: int|
                        0 <= xx < w && 0 <= yy < y ==> #[trigger] next@[yy * w + xx] == next_cell(
                            self.spec_cells(),
                            w as int,
                            h as int,
                            self.spec_conf(),
                            xx,
                            yy,
                        ),
                    forall|xx: int|
                        0 <= xx < x ==> #[trigger] next@[y * w + xx] == next_cell(
                            self.spec_cells(),
                            w as int,
                            h as int,
                            self.spec_conf(),
                            xx,
                            y as int,
                        ),
                decreases w - x,
            {
                proof {
                    assert((y as int * w as int + x as int) < (w as int) * (h as int))
                        by (nonlinear_arith)
                        requires
                            x < w,
                            y < h,
                    ;
                }
                let write_head_pos = self.pos(x, y);
                let live_neighbors = self.num_live_neighbors(x, y);
                let cur = self.cells[write_head_pos];
                let c = if matches!(cur, Cell::Alive) && (live_neighbors
                    < self.conf.lower_alive_bound || live_neighbors
                    > self.conf.upper_alive_bound) {
                    Cell::Dead
                } else if matches!(cur, Cell::Dead) && live_neighbors == self.conf.revive_count {
                    Cell::Alive
                } else {
                    cur
                };
                proof {
                    assert forall|xx: int, yy: int|
                        0 <= xx < w as int && (yy < y as int || (yy == y as int && xx < x as int))
                            && 0 <= yy implies 0 <= #[trigger] (yy * (w as int) + xx) < y as int * w as int
                        + x as int by {
                        lemma_grid_bound(w as int, yy, xx, y as int, x as int);
                    }
                }
                next.push(c);
                x = x + 1;
            }
            proof {
                lemma_next_row(w as int, y as int);
            }
            y = y + 1;
        }
        proof {
            assert(h as int * w as int == w as int * h as int) by (nonlinear_arith);
        }
        self.cells = next;
    }

    /// Render the universe as text: one row of glyphs per grid row, each
    /// terminated by a newline.
    pub fn render(&self) -> (r: String)
        ensures
            r@.len() == self.spec_height() * (self.spec_width() + 1),
            forall|x: int, y: int|
                0 <= x < self.spec_width() && 0 <= y < self.spec_height() ==> #[trigger] r@[y * (
                self.spec_width() + 1) + x] == cell_char(
                    self.spec_cells()[y * self.spec_width() + x],
                ),
            forall|y: int|
                0 <= y < self.spec_height() ==> #[trigger] r@[y * (self.spec_width() + 1)
                    + self.spec_width()] == '\n',
    {
        proof {
            use_type_invariant(self);
            reveal_strlit("◻");
            reveal_strlit("◼");
            reveal_strlit("\n");
        }
        let w = self.width;
        let h = self.height;
        let mut out = String::new();
        let mut y: u32 = 0;
        while y < h
            invariant
                y <= h,
                w == self.spec_width(),
                h == self.spec_height(),
                self.wf(),
                "◻"@ =~= seq!['◻'],
                "◼"@ =~= seq!['◼'],
                "\n"@ =~= seq!['\n'],
                out@.len() == y * (w + 1),
                forall|xx: int, yy: int|
                    0 <= xx < w && 0 <= yy < y ==> #[trigger] out@[yy * (w as int + 1) + xx]
                        == cell_char(self.spec_cells()[yy * w as int + xx]),
                forall|yy: int|
                    0 <= yy < y ==> #[trigger] out@[yy * (w as int + 1) + w as int] == '\n',
            decreases h - y,
        {
            let mut x: u32 = 0;
            while x < w
                invariant
                    y < h,
                    x <= w,
                    w == self.spec_width(),
                    h == self.spec_height(),
                    self.wf(),
                    "◻"@ =~= seq!['◻'],
                    "◼"@ =~= seq!['◼'],
                    "\n"@ =~= seq!['\n'],
                    out@.len() == y * (w + 1) + x,
                    forall|xx: int, yy: int|
                        0 <= xx < w && 0 <= yy < y ==> #[trigger] out@[yy * (w as int + 1) + xx]
                            == cell_char(self.spec_cells()[yy * w as int + xx]),
                    forall|yy: int|
                        0 <= yy < y ==> #[trigger] out@[yy * (w as int + 1) + w as int] == '\n',
                    forall|xx: int|
                        0 <= xx < x ==> #[trigger] out@[y * (w as int + 1) + xx] == cell_char(
                            self.spec_cells()[y * w as int + xx],
                        ),
                decreases w - x,
            {
                let idx = self.pos(x, y);
                proof {
                    assert forall|xx: int, yy: int|
                        0 <= xx < w as int + 1 && (yy < y as int || (yy == y as int && xx
                            < x as int)) && 0 <= yy implies 0 <= #[trigger] (yy * (w as int + 1) + xx)
                        < y as int * (w as int + 1) + x as int by {
                        lemma_grid_bound(w as int + 1, yy, xx, y as int, x as int);
                    }
                }
                if matches!(self.cells[idx], Cell::Dead) {
                    out.append("◻");
                } else {
                    out.append("◼");
                }
                x = x + 1;
            }
            proof {
                assert forall|xx: int, yy: int|
                    0 <= xx < w as int + 1 && (yy < y as int || (yy == y as int && xx < w as int))
                        && 0 <= yy implies 0 <= #[trigger] (yy * (w as int + 1) + xx) < y as int * (w as int + 1)
                    + w as int by {
                    lemma_grid_bound(w as int + 1, yy, xx, y as int, w as int);
                }
            }
            out.append("\n");
            proof {
                lemma_next_row(w as int + 1, y as int);
            }
            y = y + 1;
        }
        out
    }

    /// The universe as RGBA bytes, four per cell: opaque black for a live
    /// cell, transparent black for a dead one.
    pub fn to_image_data(&self) -> (r: Vec<u8>)
        ensures
            r@.len() == 4 * self.spec_cells().len(),
            forall|k: int|
                0 <= k < r@.len() ==> #[trigger] r@[k] == image_byte(self.spec_cells(), k),
    {
        let n = self.cells.len();
        let mut out: Vec<u8> = Vec::new();
        let mut i: usize = 0;
        while i < n
            invariant
                i <= n,
                n == self.spec_cells().len(),
                out@.len() == 4 * i,
                forall|k: int|
                    0 <= k < 4 * i ==> #[trigger] out@[k] == image_byte(self.spec_cells(), k),
            decreases n - i,
        {
            let a: u8 = if matches!(self.cells[i], Cell::Alive) {
                255
            } else {
                0
            };
            out.push(0);
            out.push(0);
            out.push(0);
            out.push(a);
            proof {
                assert(out@[4 * i as int] == image_byte(self.spec_cells(), 4 * i as int));
                assert(out@[4 * i as int + 1] == image_byte(self.spec_cells(), 4 * i as int + 1));
                assert(out@[4 * i as int + 2] == image_byte(self.spec_cells(), 4 * i as int + 2));
                assert(out@[4 * i as int + 3] == image_byte(self.spec_cells(), 4 * i as int + 3));
            }
            i = i + 1;
        }
        out
    }
}

/// A small demonstration universe rendered once.
pub fn greet() -> (r: String)
    ensures
        r@.len() == 10 * 11,
        forall|x: int, y: int|
            0 <= x < 10 && 0 <= y < 10 ==> #[trigger] r@[y * 11 + x] == cell_char(
                initial_cell(y * 10 + x),
            ),
        forall|y: int| 0 <= y < 10 ==> #[trigger] r@[y * 11 + 10] == '\n',
{
    let conf = UniverseConfig { lower_alive_bound: 2, upper_alive_bound: 4, revive_count: 3 };
    let univ = Universe::new(10, 10, conf);
    univ.render()
}

} // verus!
