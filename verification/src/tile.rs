//! Coordinate model and board generation: two bounded tile-grid coordinate
//! types (16 values per axis), the row-major index/coordinate conversion
//! pair, the closed direction and arrow-kind enumerations, and the fixed
//! 16x16 grid of immutable directional tiles drawn from the generator.

use vstd::prelude::*;

use crate::rng::{Xs, xs_u32, spec_xorshift, spec_xs_u32};

verus! {

/// Counts of grid cells.
pub type Count = u32;

/// The raw value of one tile-grid coordinate axis.
pub type Coord = u8;

/// One of the 8 compass directions: a closed set in a fixed order, used both
/// for tile content and for eye movement.
#[derive(Clone, Copy, Debug, PartialEq, Eq, Structural)]
pub enum Dir {
    Up,
    UpRight,
    Right,
    DownRight,
    Down,
    DownLeft,
    Left,
    UpLeft,
}

/// The direction a bounded draw in `[0, 8)` selects, in the fixed order of
/// the enumeration.
pub open spec fn spec_dir_from_index(n: int) -> Dir {
    if n == 0 {
        Dir::Up
    } else if n == 1 {
        Dir::UpRight
    } else if n == 2 {
        Dir::Right
    } else if n == 3 {
        Dir::DownRight
    } else if n == 4 {
        Dir::Down
    } else if n == 5 {
        Dir::DownLeft
    } else if n == 6 {
        Dir::Left
    } else {
        Dir::UpLeft
    }
}

impl Dir {
    /// How many directions there are.
    pub const COUNT: usize = 8;

    /// Every direction, in the fixed order of the enumeration.
    pub const ALL: [Dir; 8] = [
        Dir::Up,
        Dir::UpRight,
        Dir::Right,
        Dir::DownRight,
        Dir::Down,
        Dir::DownLeft,
        Dir::Left,
        Dir::UpLeft,
    ];

    /// Draws one direction uniformly from the generator.
    pub fn from_rng(rng: &mut Xs) -> (r: Dir)
        ensures
            r == spec_dir_from_index(spec_xs_u32(*old(rng), 0, 8)),
            *final(rng) == spec_xorshift(*old(rng)),
    {
        let n = xs_u32(rng, 0, 8);
        match n {
            0 => Dir::Up,
            1 => Dir::UpRight,
            2 => Dir::Right,
            3 => Dir::DownRight,
            4 => Dir::Down,
            5 => Dir::DownLeft,
            6 => Dir::Left,
            _ => Dir::UpLeft,
        }
    }
}

impl Default for Dir {
    fn default() -> (r: Self)
        ensures
            r == Dir::Up,
    {
        Dir::Up
    }
}

/// The visual variant of a tile's arrow: a closed set of 2 values.
#[derive(Clone, Copy, Debug, PartialEq, Eq, Structural)]
pub enum ArrowKind {
    Red,
    Green,
}

/// The arrow kind a bounded draw in `[0, 2)` selects, in the fixed order of
/// the enumeration.
pub open spec fn spec_arrow_from_index(n: int) -> ArrowKind {
    if n == 0 {
        ArrowKind::Red
    } else {
        ArrowKind::Green
    }
}

impl ArrowKind {
    /// How many arrow kinds there are.
    pub const COUNT: usize = 2;

    /// Every arrow kind, in the fixed order of the enumeration.
    pub const ALL: [ArrowKind; 2] = [ArrowKind::Red, ArrowKind::Green];

    /// Draws one arrow kind uniformly from the generator.
    pub fn from_rng(rng: &mut Xs) -> (r: ArrowKind)
        ensures
            r == spec_arrow_from_index(spec_xs_u32(*old(rng), 0, 2)),
            *final(rng) == spec_xorshift(*old(rng)),
    {
        let n = xs_u32(rng, 0, 2);
        if n == 0 {
            ArrowKind::Red
        } else {
            ArrowKind::Green
        }
    }
}

impl Default for ArrowKind {
    fn default() -> (r: Self)
        ensures
            r == ArrowKind::Red,
    {
        ArrowKind::Red
    }
}

/// The horizontal axis of a tile's grid position, always in `[0, 15]`.
#[derive(Clone, Copy, Debug, PartialEq, Eq, Structural)]
pub struct X(pub Coord);

impl X {
    /// The largest coordinate value on this axis.
    pub const MAX: Coord = 15;

    /// How many coordinate values this axis has.
    pub const COUNT: Count = 16;

    /// The coordinate is in range.
    pub open spec fn wf(self) -> bool {
        self.0 <= 15
    }

    /// One cell rightward, absorbed at the grid edge.
    pub fn saturating_inc(self) -> (r: X)
        ensures
            r.wf(),
            r.0 == if self.0 < 15 { self.0 + 1 } else { 15int },
    {
        if self.0 < 15 {
            X(self.0 + 1)
        } else {
            X(15)
        }
    }

    /// One cell leftward, absorbed at the grid edge.
    pub fn saturating_dec(self) -> (r: X)
        ensures
            self.wf() ==> r.wf(),
            r.0 == if self.0 > 0 { self.0 - 1 } else { 0int },
    {
        if self.0 > 0 {
            X(self.0 - 1)
        } else {
            X(0)
        }
    }
}

impl Default for X {
    fn default() -> (r: Self)
        ensures
            r == X(0),
    {
        X(0)
    }
}

impl From<X> for Coord {
    fn from(x: X) -> (r: Coord) {
        x.0
    }
}

impl vstd::std_specs::convert::FromSpecImpl<X> for Coord {
    open spec fn obeys_from_spec() -> bool {
        true
    }

    open spec fn from_spec(x: X) -> Coord {
        x.0
    }
}

/// The vertical axis of a tile's grid position, always in `[0, 15]`.
#[derive(Clone, Copy, Debug, PartialEq, Eq, Structural)]
pub struct Y(pub Coord);

impl Y {
    /// The largest coordinate value on this axis.
    pub const MAX: Coord = 15;

    /// How many coordinate values this axis has.
    pub const COUNT: Count = 16;

    /// The coordinate is in range.
    pub open spec fn wf(self) -> bool {
        self.0 <= 15
    }

    /// One cell downward, absorbed at the grid edge.
    pub fn saturating_inc(self) -> (r: Y)
        ensures
            r.wf(),
            r.0 == if self.0 < 15 { self.0 + 1 } else { 15int },
    {
        if self.0 < 15 {
            Y(self.0 + 1)
        } else {
            Y(15)
        }
    }

    /// One cell upward, absorbed at the grid edge.
    pub fn saturating_dec(self) -> (r: Y)
        ensures
            self.wf() ==> r.wf(),
            r.0 == if self.0 > 0 { self.0 - 1 } else { 0int },
    {
        if self.0 > 0 {
            Y(self.0 - 1)
        } else {
            Y(0)
        }
    }
}

impl Default for Y {
    fn default() -> (r: Self)
        ensures
            r == Y(0),
    {
        Y(0)
    }
}

impl From<Y> for Coord {
    fn from(y: Y) -> (r: Coord) {
        y.0
    }
}

impl vstd::std_specs::convert::FromSpecImpl<Y> for Coord {
    open spec fn obeys_from_spec() -> bool {
        true
    }

    open spec fn from_spec(y: Y) -> Coord {
        y.0
    }
}

/// A full grid coordinate; 16 x 16 = 256 distinct positions.
#[derive(Clone, Copy, Debug, PartialEq, Eq, Structural)]
pub struct XY {
    pub x: X,
    pub y: Y,
}

impl XY {
    /// How many distinct grid positions there are.
    pub const COUNT: Count = 256;

    /// Both coordinates are in range.
    pub open spec fn wf(self) -> bool {
        self.x.wf() && self.y.wf()
    }
}

impl Default for XY {
    fn default() -> (r: Self)
        ensures
            r == (XY { x: X(0), y: Y(0) }),
    {
        XY { x: X(0), y: Y(0) }
    }
}

/// The row-major array index of a grid position.
pub fn xy_to_i(xy: XY) -> (r: usize)
    ensures
        r == xy.y.0 * 16 + xy.x.0,
        xy.wf() ==> r < 256,
{
    xy.y.0 as usize * 16 + xy.x.0 as usize
}

/// The row-major array index of a pair of raw per-axis values.
pub fn xy_to_i_usize(xy: (usize, usize)) -> (r: usize)
    requires
        xy.1 * 16 + xy.0 <= usize::MAX,
    ensures
        r == xy.1 * 16 + xy.0,
{
    let (x, y) = xy;
    y * 16 + x
}

/// The grid position a row-major array index denotes.
pub open spec fn spec_i_to_xy(index: int) -> XY {
    XY { x: X((index % 16) as Coord), y: Y(((index % 256) / 16) as Coord) }
}

/// Converts a row-major array index back to a grid position; together with
/// `xy_to_i` this pair is the single source of truth for tile positions,
/// which are never stored inside the tiles themselves.
pub fn i_to_xy(index: usize) -> (r: XY)
    ensures
        r == spec_i_to_xy(index as int),
        r.wf(),
        index < 256 ==> r.x.0 == index % 16 && r.y.0 == index / 16,
{
    XY { x: X((index % 16) as Coord), y: Y(((index % 256) / 16) as Coord) }
}

/// One grid cell's static content, generated once at board creation and
/// immutable thereafter. The cell's position is implicit in its array index
/// and never stored here.
#[derive(Clone, Copy, Debug, PartialEq, Eq, Structural)]
pub struct TileData {
    pub dir: Dir,
    pub arrow_kind: ArrowKind,
}

/// The generator state and tile content after drawing one tile: a direction
/// (8-way), then an arrow kind (2-way), in that fixed order.
pub open spec fn spec_tile_step(xs: Xs) -> (Xs, TileData) {
    let d = spec_xs_u32(xs, 0, 8);
    let xs1 = spec_xorshift(xs);
    let a = spec_xs_u32(xs1, 0, 2);
    (
        spec_xorshift(xs1),
        TileData { dir: spec_dir_from_index(d), arrow_kind: spec_arrow_from_index(a) },
    )
}

impl TileData {
    /// Draws one tile's content from the generator: its direction, then its
    /// arrow kind.
    pub fn from_rng(rng: &mut Xs) -> (r: TileData)
        ensures
            r == spec_tile_step(*old(rng)).1,
            *final(rng) == spec_tile_step(*old(rng)).0,
    {
        let dir = Dir::from_rng(rng);
        let arrow_kind = ArrowKind::from_rng(rng);
        TileData { dir, arrow_kind }
    }
}

impl Default for TileData {
    fn default() -> (r: Self)
        ensures
            r == (TileData { dir: Dir::Up, arrow_kind: ArrowKind::Red }),
    {
        TileData { dir: Dir::Up, arrow_kind: ArrowKind::Red }
    }
}

/// How many tiles the grid holds.
pub const TILES_LENGTH: usize = 256;

/// The generator state and tile sequence after drawing the first `n` tiles
/// in row-major order: cell 0 before cell 1, and within each cell the
/// direction before the arrow kind. This fixed consumption order is part of
/// the reproducibility contract.
pub open spec fn spec_tiles_prefix(xs: Xs, n: int) -> (Xs, Seq<TileData>)
    decreases n,
{
    if n <= 0 {
        (xs, Seq::empty())
    } else {
        let prev = spec_tiles_prefix(xs, n - 1);
        let step = spec_tile_step(prev.0);
        (step.0, prev.1.push(step.1))
    }
}

/// The full grid: a fixed-size ordered sequence of 256 tiles, row-major
/// (`index = y * 16 + x`), never resized.
#[derive(Clone, Debug, PartialEq, Eq)]
pub struct Tiles {
    pub tiles: Vec<TileData>,
}

impl Tiles {
    /// The grid has exactly its fixed number of cells.
    pub open spec fn wf(self) -> bool {
        self.tiles@.len() == 256
    }

    /// Draws the whole grid from the generator, one tile per cell in
    /// row-major order. The same seed always yields the same board.
    pub fn from_rng(rng: &mut Xs) -> (r: Tiles)
        ensures
            r.wf(),
            r.tiles@ == spec_tiles_prefix(*old(rng), 256).1,
            *final(rng) == spec_tiles_prefix(*old(rng), 256).0,
    {
        let ghost xs0 = *rng;
        let mut tiles: Vec<TileData> = Vec::new();
        let mut i: usize = 0;
        while i < 256
            invariant
                i <= 256,
                tiles@.len() == i,
                *rng == spec_tiles_prefix(xs0, i as int).0,
                tiles@ == spec_tiles_prefix(xs0, i as int).1,
            decreases 256 - i,
        {
            let td = TileData::from_rng(rng);
            tiles.push(td);
            i = i + 1;
        }
        Tiles { tiles }
    }
}

impl Default for Tiles {
    fn default() -> (r: Self)
        ensures
            r.wf(),
            forall|i: int|
                0 <= i < 256 ==> r.tiles@[i] == (TileData {
                    dir: Dir::Up,
                    arrow_kind: ArrowKind::Red,
                }),
    {
        let tiles = vec![TileData { dir: Dir::Up, arrow_kind: ArrowKind::Red }; 256];
        Tiles { tiles }
    }
}

} // verus!
