//! The static scene: a rectangular grid of cube instances.
//!
//! The grid is walked with `z` outermost and `x` innermost. Each cell becomes
//! one instance whose position and tint are whole numbers; turning them into
//! the floating-point records that the GPU reads is left to the caller.

use vstd::prelude::*;
use vstd::arithmetic::div_mod::{lemma_mod_pos_bound, lemma_multiply_divide_lt, lemma_div_pos_is_pos};

verus! {

/// The half-open range `start..end` of one grid axis (empty when `end <= start`).
#[derive(Clone, Copy, Debug, PartialEq, Eq, Structural)]
pub struct GridRange {
    pub start: i32,
    pub end: i32,
}

/// The extent of the grid on each axis.
#[derive(Clone, Copy, Debug, PartialEq, Eq, Structural)]
pub struct GridBounds {
    pub x: GridRange,
    pub y: GridRange,
    pub z: GridRange,
}

/// A point with whole coordinates.
#[derive(Clone, Copy, Debug, PartialEq, Eq, Structural)]
pub struct GridPoint {
    pub x: i32,
    pub y: i32,
    pub z: i32,
}

impl GridRange {
    /// The number of values in the range.
    pub open spec fn size(self) -> nat {
        if self.end > self.start {
            (self.end - self.start) as nat
        } else {
            0
        }
    }

    /// The number of values in the range.
    pub fn len(&self) -> (r: usize)
        ensures
            r == self.size(),
    {
        if self.end > self.start {
            (self.end as i64 - self.start as i64) as usize
        } else {
            0
        }
    }
}

impl GridBounds {
    /// The number of cells in the grid.
    pub open spec fn cell_count(self) -> nat {
        self.x.size() * self.y.size() * self.z.size()
    }

    /// The cell at position `i` of the walk: `x` varies fastest, then `y`,
    /// then `z`.
    pub open spec fn cell_at(self, i: int) -> GridPoint {
        let nx = self.x.size() as int;
        let ny = self.y.size() as int;
        GridPoint {
            x: (self.x.start + i % nx) as i32,
            y: (self.y.start + (i / nx) % ny) as i32,
            z: (self.z.start + i / (nx * ny)) as i32,
        }
    }
}

/// Every cell of the grid, in walk order.
pub fn grid_cells(b: &GridBounds) -> (r: Vec<GridPoint>)
    requires
        b.cell_count() <= usize::MAX,
    ensures
        r@.len() == b.cell_count(),
        forall|i: int| 0 <= i < r@.len() ==> #[trigger] r@[i] == b.cell_at(i),
{
    let nx = b.x.len();
    let ny = b.y.len();
    let nz = b.z.len();
    let mut cells: Vec<GridPoint> = Vec::new();
    if nx == 0 || ny == 0 || nz == 0 {
        proof {
            assert(b.cell_count() == 0) by (nonlinear_arith)
                requires
                    nx == 0 || ny == 0 || nz == 0,
                    b.cell_count() == nx * ny * nz,
            ;
        }
        return cells;
    }
    proof {
        assert(nx * ny <= nx * ny * nz) by (nonlinear_arith)
            requires
                nx > 0,
                ny > 0,
                nz > 0,
        ;
    }
    let nxy: usize = nx * ny;
    let total: usize = nxy * nz;
    for i in 0..total
        invariant
            nx == b.x.size(),
            ny == b.y.size(),
            nz == b.z.size(),
            nx > 0,
            ny > 0,
            nz > 0,
            nxy == nx * ny,
            total == nxy * nz,
            total == b.cell_count(),
            cells@.len() == i,
            forall|j: int| 0 <= j < i ==> #[trigger] cells@[j] == b.cell_at(j),
    {
        let xi: usize = i % nx;
        let yi: usize = (i / nx) % ny;
        let zi: usize = i / nxy;
        proof {
            lemma_mod_pos_bound(i as int, nx as int);
            lemma_div_pos_is_pos(i as int, nx as int);
            lemma_mod_pos_bound((i / nx) as int, ny as int);
            lemma_multiply_divide_lt(i as int, nxy as int, nz as int);
        }
        let x = (b.x.start as i64 + xi as i64) as i32;
        let y = (b.y.start as i64 + yi as i64) as i32;
        let z = (b.z.start as i64 + zi as i64) as i32;
        cells.push(GridPoint { x, y, z });
    }
    cells
}

/// Every cell of a grid lies inside the grid's bounds.
pub proof fn cell_at_in_bounds(b: GridBounds, i: int)
    requires
        0 <= i < b.cell_count(),
    ensures
        b.x.start <= b.cell_at(i).x < b.x.end,
        b.y.start <= b.cell_at(i).y < b.y.end,
        b.z.start <= b.cell_at(i).z < b.z.end,
{
    let nx = b.x.size() as int;
    let ny = b.y.size() as int;
    let nz = b.z.size() as int;
    assert(nx > 0 && ny > 0 && nz > 0) by (nonlinear_arith)
        requires
            0 <= i < nx * ny * nz,
            nx >= 0,
            ny >= 0,
            nz >= 0,
    ;
    assert(nx * ny * nz == (nx * ny) * nz) by (nonlinear_arith);
    assert(nx * ny > 0) by (nonlinear_arith)
        requires
            nx > 0,
            ny > 0,
    ;
    lemma_mod_pos_bound(i, nx);
    lemma_div_pos_is_pos(i, nx);
    lemma_mod_pos_bound(i / nx, ny);
    lemma_div_pos_is_pos(i, nx * ny);
    lemma_multiply_divide_lt(i, nx * ny, nz);
}

/// How far the scene is shifted along `z`.
pub const SCENE_Z_SHIFT: i32 = 100;

/// How far the blue channel of a tint is shifted from `z`.
pub const TINT_Z_SHIFT: i32 = 200;

/// A tint channel of `n` stands for the color value `n / TINT_STEPS`.
pub const TINT_STEPS: i32 = 200;

/// An instance's color in steps of `1 / TINT_STEPS`; alpha is always one.
#[derive(Clone, Copy, Debug, PartialEq, Eq, Structural)]
pub struct Tint {
    pub red: i32,
    pub green: i32,
    pub blue: i32,
}

/// The whole-number description of one cube instance.
#[derive(Clone, Copy, Debug, PartialEq, Eq, Structural)]
pub struct InstanceSeed {
    pub position: GridPoint,
    pub tint: Tint,
}

/// The instance made from a grid cell: it stands at the cell shifted by
/// `SCENE_Z_SHIFT` along `z`, and is tinted by the cell's coordinates, blue
/// shifted by `TINT_Z_SHIFT`.
pub open spec fn seed_of(c: GridPoint) -> InstanceSeed {
    InstanceSeed {
        position: GridPoint { x: c.x, y: c.y, z: (c.z + SCENE_Z_SHIFT) as i32 },
        tint: Tint { red: c.x, green: c.y, blue: (c.z + TINT_Z_SHIFT) as i32 },
    }
}

/// The instance made from a grid cell.
pub fn instance_seed(c: &GridPoint) -> (r: InstanceSeed)
    requires
        c.z <= i32::MAX - TINT_Z_SHIFT,
    ensures
        r == seed_of(*c),
{
    InstanceSeed {
        position: GridPoint { x: c.x, y: c.y, z: c.z + SCENE_Z_SHIFT },
        tint: Tint { red: c.x, green: c.y, blue: c.z + TINT_Z_SHIFT },
    }
}

/// One instance for each cell of the grid, in walk order.
pub fn grid_instances(b: &GridBounds) -> (r: Vec<InstanceSeed>)
    requires
        b.cell_count() <= usize::MAX,
        b.cell_count() > 0 ==> b.z.end <= i32::MAX - TINT_Z_SHIFT,
    ensures
        r@.len() == b.cell_count(),
        forall|i: int| 0 <= i < r@.len() ==> #[trigger] r@[i] == seed_of(b.cell_at(i)),
{
    let cells = grid_cells(b);
    let mut seeds: Vec<InstanceSeed> = Vec::new();
    for i in 0..cells.len()
        invariant
            cells@.len() == b.cell_count(),
            b.cell_count() > 0 ==> b.z.end <= i32::MAX - TINT_Z_SHIFT,
            forall|j: int| 0 <= j < cells@.len() ==> #[trigger] cells@[j] == b.cell_at(j),
            seeds@.len() == i,
            forall|j: int| 0 <= j < i ==> #[trigger] seeds@[j] == seed_of(b.cell_at(j)),
    {
        proof {
            cell_at_in_bounds(*b, i as int);
        }
        seeds.push(instance_seed(&cells[i]));
    }
    seeds
}

/// The bounds of the scene's grid: `x` and `y` in `0..100`, `z` in `-100..0`.
pub open spec fn scene_bounds_spec() -> GridBounds {
    GridBounds {
        x: GridRange { start: 0, end: 100 },
        y: GridRange { start: 0, end: 100 },
        z: GridRange { start: -100i32, end: 0 },
    }
}

/// The bounds of the scene's grid.
pub fn scene_bounds() -> (r: GridBounds)
    ensures
        r == scene_bounds_spec(),
{
    GridBounds {
        x: GridRange { start: 0, end: 100 },
        y: GridRange { start: 0, end: 100 },
        z: GridRange { start: -100, end: 0 },
    }
}

/// The scene's instances: a hundred by a hundred by a hundred cubes.
pub fn scene_instances() -> (r: Vec<InstanceSeed>)
    ensures
        r@.len() == 1_000_000,
        forall|i: int| 0 <= i < r@.len() ==> #[trigger] r@[i] == seed_of(scene_bounds_spec().cell_at(i)),
{
    let b = scene_bounds();
    assert(b.x.size() == 100 && b.y.size() == 100 && b.z.size() == 100);
    assert(b.cell_count() == 1_000_000) by (nonlinear_arith)
        requires
            b.x.size() == 100,
            b.y.size() == 100,
            b.z.size() == 100,
            b.cell_count() == b.x.size() * b.y.size() * b.z.size(),
    ;
    grid_instances(&b)
}

} // verus!
