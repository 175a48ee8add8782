use vstd::prelude::*;

verus! {

/// An integer grid coordinate `(x, y)`.
#[derive(Clone, Copy, Debug, PartialEq, Eq, Structural)]
pub struct Cell {
    pub x: i64,
    pub y: i64,
}

/// A position in pixel space.
#[derive(Clone, Copy, Debug, PartialEq, Eq, Structural)]
pub struct PixelPos {
    pub x: i64,
    pub y: i64,
}

/// Clamps `v` into `[0, hi - 1]`.
pub open spec fn clamp_coord(v: int, hi: int) -> int {
    if v < 0 {
        0
    } else if v > hi - 1 {
        hi - 1
    } else {
        v
    }
}

/// Center of the cell with coordinate `c` along one axis of cell size `size`.
pub open spec fn center_coord(c: int, size: int) -> int {
    c * size + size / 2
}

proof fn lemma_floor_div_fits(v: i64, d: i64)
    requires
        d > 0,
    ensures
        i64::MIN <= v as int / d as int <= i64::MAX,
{
    let q = v as int / d as int;
    vstd::arithmetic::div_mod::lemma_fundamental_div_mod(v as int, d as int);
    assert(i64::MIN <= q <= i64::MAX) by (nonlinear_arith)
        requires
            v == d * q + v % d,
            0 <= v % d < d,
            d >= 1,
            i64::MIN <= v <= i64::MAX,
    ;
}

/// The board: its size in cells and the pixel size of one cell.
#[derive(Clone, Copy, Debug)]
pub struct Grid {
    pub width: i64,
    pub height: i64,
    pub cell_width: i64,
    pub cell_height: i64,
}

impl Grid {
    pub open spec fn wf(&self) -> bool {
        &&& self.width > 0
        &&& self.height > 0
        &&& self.cell_width > 0
        &&& self.cell_height > 0
    }

    pub open spec fn in_bounds(&self, c: Cell) -> bool {
        0 <= c.x < self.width && 0 <= c.y < self.height
    }

    pub open spec fn clamp_spec(&self, c: Cell) -> Cell {
        Cell {
            x: clamp_coord(c.x as int, self.width as int) as i64,
            y: clamp_coord(c.y as int, self.height as int) as i64,
        }
    }

    pub fn new(width: i64, height: i64, cell_width: i64, cell_height: i64) -> (r: Grid)
        requires
            width > 0,
            height > 0,
            cell_width > 0,
            cell_height > 0,
        ensures
            r.wf(),
            r.width == width,
            r.height == height,
            r.cell_width == cell_width,
            r.cell_height == cell_height,
    {
        Grid { width, height, cell_width, cell_height }
    }

    /// Whether `c` lies on the board.
    pub fn is_within_bounds(&self, c: Cell) -> (r: bool)
        ensures
            r == self.in_bounds(c),
    {
        0 <= c.x && c.x < self.width && 0 <= c.y && c.y < self.height
    }

    /// Clamps `c` component-wise into `[0, width - 1] x [0, height - 1]`.
    pub fn clamp(&self, c: Cell) -> (r: Cell)
        requires
            self.wf(),
        ensures
            r == self.clamp_spec(c),
    {
        let x: i64 = if c.x < 0 {
            0
        } else if c.x > self.width - 1 {
            self.width - 1
        } else {
            c.x
        };
        let y: i64 = if c.y < 0 {
            0
        } else if c.y > self.height - 1 {
            self.height - 1
        } else {
            c.y
        };
        Cell { x, y }
    }

    pub open spec fn map_position_spec(&self, c: Cell) -> (int, int) {
        (center_coord(c.x as int, self.cell_width as int), center_coord(
            c.y as int,
            self.cell_height as int,
        ))
    }

    pub open spec fn grid_coordinates_spec(&self, p: PixelPos) -> (int, int) {
        (p.x as int / self.cell_width as int, p.y as int / self.cell_height as int)
    }

    /// Pixel position of the center of cell `c`: `c * cell_size + cell_size / 2`.
    /// Defined for every cell whose center is representable.
    pub fn calculate_map_position(&self, c: Cell) -> (r: PixelPos)
        requires
            self.wf(),
            i64::MIN <= self.map_position_spec(c).0 <= i64::MAX,
            i64::MIN <= self.map_position_spec(c).1 <= i64::MAX,
        ensures
            r.x == self.map_position_spec(c).0,
            r.y == self.map_position_spec(c).1,
    {
        let x = c.x as i128 * self.cell_width as i128 + (self.cell_width / 2) as i128;
        let y = c.y as i128 * self.cell_height as i128 + (self.cell_height / 2) as i128;
        PixelPos { x: x as i64, y: y as i64 }
    }

    /// The cell holding pixel position `p`: floor division by the cell size.
    /// The result may lie off the board.
    pub fn calculate_grid_coordinates(&self, p: PixelPos) -> (r: Cell)
        requires
            self.wf(),
        ensures
            r.x == self.grid_coordinates_spec(p).0,
            r.y == self.grid_coordinates_spec(p).1,
    {
        proof {
            lemma_floor_div_fits(p.x, self.cell_width);
            lemma_floor_div_fits(p.y, self.cell_height);
        }
        let x = p.x.checked_div_euclid(self.cell_width).unwrap();
        let y = p.y.checked_div_euclid(self.cell_height).unwrap();
        Cell { x, y }
    }

    pub open spec fn index_spec(&self, c: Cell) -> int {
        c.x + self.width * c.y
    }

    /// Row-major index of `c`: `Some(x + width * y)` for a cell on the board
    /// whose index fits in `usize`, `None` otherwise.
    pub fn as_index(&self, c: Cell) -> (r: Option<usize>)
        requires
            self.wf(),
        ensures
            r == (if self.in_bounds(c) && self.index_spec(c) <= usize::MAX {
                Some(self.index_spec(c) as usize)
            } else {
                None
            }),
    {
        if self.is_within_bounds(c) {
            proof {
                assert(0 <= self.width * c.y < self.width * self.height) by (nonlinear_arith)
                    requires
                        0 <= c.y < self.height,
                        self.width > 0,
                ;
                assert(self.width * self.height <= 0x7fff_ffff_ffff_ffff * 0x7fff_ffff_ffff_ffffint)
                    by (nonlinear_arith)
                    requires
                        0 < self.width <= 0x7fff_ffff_ffff_ffff,
                        0 < self.height <= 0x7fff_ffff_ffff_ffff,
                ;
            }
            let idx = c.x as i128 + self.width as i128 * c.y as i128;
            if idx <= usize::MAX as i128 {
                Some(idx as usize)
            } else {
                None
            }
        } else {
            None
        }
    }
}

pub open spec fn row_major_cell(k: int, width: int) -> Cell {
    Cell { x: (k % width) as i64, y: (k / width) as i64 }
}

/// Every cell of the board, where a tile is placed: row by row from `y = 0`,
/// each row from `x = 0`, so that cell `k` of the result is
/// `(k % width, k / width)`.
pub fn spawn_grid(grid: &Grid) -> (r: Vec<Cell>)
    requires
        grid.wf(),
        grid.width * grid.height <= usize::MAX,
    ensures
        r@.len() == grid.width * grid.height,
        forall|k: int| 0 <= k < r@.len() ==> #[trigger] r@[k] == row_major_cell(k, grid.width as int),
{
    let mut cells: Vec<Cell> = Vec::new();
    let mut y: i64 = 0;
    while y < grid.height
        invariant
            grid.wf(),
            0 <= y <= grid.height,
            cells@.len() == y * grid.width,
            forall|k: int|
                0 <= k < cells@.len() ==> #[trigger] cells@[k] == row_major_cell(
                    k,
                    grid.width as int,
                ),
        decreases grid.height - y,
    {
        let mut x: i64 = 0;
        while x < grid.width
            invariant
                grid.wf(),
                0 <= y < grid.height,
                0 <= x <= grid.width,
                cells@.len() == y * grid.width + x,
                forall|k: int|
                    0 <= k < cells@.len() ==> #[trigger] cells@[k] == row_major_cell(
                        k,
                        grid.width as int,
                    ),
            decreases grid.width - x,
        {
            proof {
                vstd::arithmetic::div_mod::lemma_fundamental_div_mod_converse(
                    y * grid.width + x,
                    grid.width as int,
                    y as int,
                    x as int,
                );
            }
            cells.push(Cell { x, y });
            x = x + 1;
        }
        proof {
            assert((y + 1) * grid.width == y * grid.width + grid.width) by (nonlinear_arith);
        }
        y = y + 1;
    }
    proof {
        assert(grid.height * grid.width == grid.width * grid.height) by (nonlinear_arith);
    }
    cells
}

/// Clamping a cell that already lies on the board leaves it unchanged.
pub proof fn lemma_clamp_identity(g: Grid, c: Cell)
    requires
        g.wf(),
        g.in_bounds(c),
    ensures
        g.clamp_spec(c) == c,
{
}

/// Clamping always yields a cell on the board.
pub proof fn lemma_clamp_in_bounds(g: Grid, c: Cell)
    requires
        g.wf(),
    ensures
        g.in_bounds(g.clamp_spec(c)),
{
}

/// Converting a pixel position to its cell and back to that cell's center
/// lands strictly within one cell size of the original position, on each axis.
pub proof fn lemma_pixel_round_trip(g: Grid, p: PixelPos)
    requires
        g.wf(),
    ensures
        ({
            let cx = g.grid_coordinates_spec(p).0;
            let cy = g.grid_coordinates_spec(p).1;
            let back = g.map_position_spec(Cell { x: cx as i64, y: cy as i64 });
            &&& p.x - g.cell_width < back.0 < p.x + g.cell_width
            &&& p.y - g.cell_height < back.1 < p.y + g.cell_height
        }),
{
    lemma_floor_div_fits(p.x, g.cell_width);
    lemma_floor_div_fits(p.y, g.cell_height);
    lemma_center_near(p.x as int, g.cell_width as int);
    lemma_center_near(p.y as int, g.cell_height as int);
}

proof fn lemma_center_near(v: int, d: int)
    requires
        d > 0,
    ensures
        v - d < center_coord(v / d, d) < v + d,
{
    let q = v / d;
    vstd::arithmetic::div_mod::lemma_fundamental_div_mod(v, d);
    vstd::arithmetic::div_mod::lemma_fundamental_div_mod(d, 2);
    assert(v - d < q * d + d / 2 < v + d) by (nonlinear_arith)
        requires
            v == d * q + v % d,
            0 <= v % d < d,
            d == 2 * (d / 2) + d % 2,
            0 <= d % 2 < 2,
            d >= 1,
    ;
}

} // verus!
