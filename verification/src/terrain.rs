//! The terrain height map: a read-only 2D grid of integer altitudes stored
//! in a `vec2d::Vec2D`, queried by integer cell to decide when a jump lands.
//! Out-of-range cells are recovered as ground level 0 by `altitude_or_ground`
//! and reported as an error by `altitude`.

use vstd::prelude::*;

verus! {

#[verifier::external_type_specification]
#[verifier::external_body]
#[verifier::reject_recursive_types(T)]
pub struct ExVec2D<T>(vec2d::Vec2D<T>);

/// What a grid holds: the altitude at each cell (x, y) inside its size.
pub uninterp spec fn grid_cells(g: vec2d::Vec2D<i32>) -> Map<(int, int), int>;

/// The (width, height) a grid was created with.
pub uninterp spec fn grid_size(g: vec2d::Vec2D<i32>) -> (nat, nat);

/// Relies on vec2d::Vec2D::from_vec: when `cells.len()` equals
/// `width * height` it builds the grid whose cell (x, y) is the row-major
/// element `y * width + x` of `cells`, and it returns `None` otherwise.
/// `Size::area` multiplies width by height, so the product must fit in
/// `usize`.
#[verifier::external_body]
fn grid_from_vec(width: usize, height: usize, cells: Vec<i32>) -> (r: Option<vec2d::Vec2D<i32>>)
    requires
        width * height <= usize::MAX,
    ensures
        r is Some <==> cells@.len() == width * height,
        r matches Some(g) ==> {
            &&& grid_size(g) == (width as nat, height as nat)
            &&& forall|x: int, y: int|
                0 <= x < width && 0 <= y < height ==> grid_cells(g)[(x, y)] == cells@[y * width
                    + x] as int
        },
{
    vec2d::Vec2D::from_vec(vec2d::Size { width, height }, cells)
}

/// Relies on vec2d::Vec2D::from_example: every cell of the new grid holds
/// a clone of the example element. `Size::area` multiplies width by height,
/// so the product must fit in `usize`.
#[verifier::external_body]
fn grid_from_example(width: usize, height: usize, fill: i32) -> (r: vec2d::Vec2D<i32>)
    requires
        width * height <= usize::MAX,
    ensures
        grid_size(r) == (width as nat, height as nat),
        forall|x: int, y: int|
            0 <= x < width && 0 <= y < height ==> grid_cells(r)[(x, y)] == fill as int,
{
    vec2d::Vec2D::from_example(vec2d::Size { width, height }, &fill)
}

/// Relies on vec2d::Vec2D::get: returns the element at (x, y) when that
/// coordinate lies strictly inside the grid's size, and `None` otherwise.
#[verifier::external_body]
fn grid_get(g: &vec2d::Vec2D<i32>, x: usize, y: usize) -> (r: Option<i32>)
    ensures
        r is Some <==> ((x as nat) < grid_size(*g).0 && (y as nat) < grid_size(*g).1),
        r matches Some(v) ==> v as int == grid_cells(*g)[(x as int, y as int)],
{
    g.get(vec2d::Coord { x, y }).copied()
}

/// A terrain query named a cell outside the map.
#[derive(Clone, Copy, PartialEq, Eq, Structural, Debug)]
pub struct TerrainOutOfBounds;

/// A 2D grid of integer ground altitudes, indexed by integer (x, y) cell
/// and read-only from the core's perspective.
pub struct TerrainMap {
    grid: vec2d::Vec2D<i32>,
}

impl TerrainMap {
    /// Number of cells along the x axis.
    pub closed spec fn width(&self) -> nat {
        grid_size(self.grid).0
    }

    /// Number of cells along the y axis.
    pub closed spec fn height(&self) -> nat {
        grid_size(self.grid).1
    }

    /// The stored altitude of a cell inside the map.
    pub closed spec fn cell(&self, x: int, y: int) -> int {
        grid_cells(self.grid)[(x, y)]
    }

    /// Whether (x, y) names a cell of the map.
    pub open spec fn contains(&self, x: int, y: int) -> bool {
        0 <= x < self.width() && 0 <= y < self.height()
    }

    /// The altitude a landing test sees at (x, y): the stored altitude
    /// inside the map, and ground level 0 outside it, so that a character
    /// that strays off the map can always land.
    pub open spec fn ground(&self, x: int, y: int) -> int {
        if self.contains(x, y) {
            self.cell(x, y)
        } else {
            0
        }
    }

    /// A width-by-height map whose every cell is at altitude `fill`.
    pub fn new(width: usize, height: usize, fill: i32) -> (r: TerrainMap)
        requires
            width * height <= usize::MAX,
        ensures
            r.width() == width as nat,
            r.height() == height as nat,
            forall|x: int, y: int| r.contains(x, y) ==> r.cell(x, y) == fill as int,
    {
        TerrainMap { grid: grid_from_example(width, height, fill) }
    }

    /// A width-by-height map whose cell (x, y) takes the row-major element
    /// `y * width + x` of `cells`; `None` when the lengths do not match.
    pub fn from_cells(width: usize, height: usize, cells: Vec<i32>) -> (r: Option<TerrainMap>)
        requires
            width * height <= usize::MAX,
        ensures
            r is Some <==> cells@.len() == width * height,
            r matches Some(m) ==> {
                &&& m.width() == width as nat
                &&& m.height() == height as nat
                &&& forall|x: int, y: int|
                    m.contains(x, y) ==> m.cell(x, y) == cells@[y * width + x] as int
            },
    {
        match grid_from_vec(width, height, cells) {
            Some(grid) => Some(TerrainMap { grid }),
            None => None,
        }
    }

    /// The stored altitude at cell (x, y), or `TerrainOutOfBounds` exactly
    /// when (x, y) falls outside the map.
    pub fn altitude(&self, x: i32, y: i32) -> (r: Result<i32, TerrainOutOfBounds>)
        ensures
            r is Ok <==> self.contains(x as int, y as int),
            r matches Ok(a) ==> a as int == self.cell(x as int, y as int),
    {
        if x < 0 || y < 0 {
            Err(TerrainOutOfBounds)
        } else {
            match grid_get(&self.grid, x as usize, y as usize) {
                Some(a) => Ok(a),
                None => Err(TerrainOutOfBounds),
            }
        }
    }

    /// The altitude the landing test uses: the stored altitude inside the
    /// map, recovered as ground level 0 outside it.
    pub fn altitude_or_ground(&self, x: i32, y: i32) -> (r: i32)
        ensures
            r as int == self.ground(x as int, y as int),
    {
        match self.altitude(x, y) {
            Ok(a) => a,
            Err(_) => 0,
        }
    }
}

} // verus!
