//! The tile map: a static, row-major grid of integer occupancy codes (zero
//! for empty, nonzero for solid variants; the code also counts how many
//! blocks stand stacked on the cell), immutable after construction.
//!
//! Besides guarded lookups the module offers the cheap grid-probe movement
//! test (out-of-bounds counts as solid, so the camera cannot walk off an
//! authored level), a byte codec with a proved round trip, and the layout
//! pass that materializes the grid as world-placed instances.

use vstd::prelude::*;

verus! {

use vstd::bytes::{
    lemma_auto_spec_u32_to_from_le_bytes, spec_u32_from_le_bytes, spec_u32_to_le_bytes,
    u32_from_le_bytes, u32_to_le_bytes,
};
use vstd::slice::slice_subrange;
use crate::collision::Instance;
use crate::fixed::{fdiv64, Vec3, POS_LIMIT, UNIT};
use crate::shapes::EXTENT_LIMIT;

/// Why a tile map was rejected at construction time.
#[derive(Clone, Copy, Debug, PartialEq, Eq, Structural)]
pub enum TileMapError {
    /// The cell list does not hold exactly `width * depth` entries.
    CellCountMismatch,
}

/// Why a byte string failed to decode as a tile map.
#[derive(Clone, Copy, Debug, PartialEq, Eq, Structural)]
pub enum DecodeError {
    /// Too short to hold the two dimensions.
    TooShort,
    /// The length does not match the dimensions in the header.
    LengthMismatch,
}

/// Direction of a one-cell grid probe.
#[derive(Clone, Copy, Debug, PartialEq, Eq, Structural)]
pub enum GridDir {
    XNeg,
    XPos,
    ZNeg,
    ZPos,
}

/// A static grid of occupancy codes, `width * depth` cells in row-major,
/// z-major order (`index = z * width + x`).
#[derive(Debug)]
pub struct TileMap {
    pub cells: Vec<u32>,
    pub width: usize,
    pub depth: usize,
}

impl TileMap {
    /// The one structural invariant: the cell count matches the dimensions.
    pub open spec fn wf(self) -> bool {
        self.cells@.len() == self.width * self.depth
    }

    /// Build a map, failing fast on a malformed cell list rather than
    /// truncate or pad it.
    pub fn new(cells: Vec<u32>, width: usize, depth: usize) -> (r: Result<TileMap, TileMapError>)
        ensures
            r is Ok <==> cells@.len() == width * depth,
            r is Ok ==> r->Ok_0 == (TileMap { cells, width, depth }) && r->Ok_0.wf(),
            r is Err ==> r->Err_0 == TileMapError::CellCountMismatch,
    {
        let len = cells.len();
        match width.checked_mul(depth) {
            Some(n) => {
                if len == n {
                    Ok(TileMap { cells, width, depth })
                } else {
                    Err(TileMapError::CellCountMismatch)
                }
            },
            None => Err(TileMapError::CellCountMismatch),
        }
    }

    /// The code of the cell at `(x, z)`, for positions inside the grid.
    pub open spec fn cell_spec(self, x: int, z: int) -> u32 {
        self.cells@[z * self.width + x]
    }

    /// Guarded lookup: the cell's code, or nothing outside the grid.
    pub fn cell(&self, x: usize, z: usize) -> (r: Option<u32>)
        requires
            self.wf(),
        ensures
            x < self.width && z < self.depth ==> r == Some(self.cell_spec(x as int, z as int)),
            !(x < self.width && z < self.depth) ==> r is None,
    {
        if x < self.width && z < self.depth {
            let len = self.cells.len();
            proof {
                assert(0 <= z * self.width && z * self.width + x < self.width * self.depth)
                    by (nonlinear_arith)
                    requires
                        x < self.width,
                        z < self.depth,
                ;
            }
            Some(self.cells[z * self.width + x])
        } else {
            None
        }
    }

    /// Whether a cell blocks movement; anything outside the authored grid
    /// counts as solid, so the level's edge is a wall.
    pub open spec fn solid_at_spec(self, x: int, z: int) -> bool {
        if 0 <= x < self.width && 0 <= z < self.depth {
            self.cell_spec(x, z) != 0
        } else {
            true
        }
    }

    /// Guarded occupancy test over signed cell coordinates.
    pub fn solid_at(&self, x: i64, z: i64) -> (solid: bool)
        requires
            self.wf(),
        ensures
            solid == self.solid_at_spec(x as int, z as int),
    {
        if x < 0 || z < 0 {
            return true;
        }
        if (x as u64) >= (self.width as u64) || (z as u64) >= (self.depth as u64) {
            return true;
        }
        let xu = x as usize;
        let zu = z as usize;
        let len = self.cells.len();
        proof {
            assert(0 <= zu * self.width && zu * self.width + xu < self.width * self.depth)
                by (nonlinear_arith)
                requires
                    xu < self.width,
                    zu < self.depth,
            ;
        }
        self.cells[zu * self.width + xu] != 0
    }

    /// Where a one-cell probe from a world position looks, and what it sees:
    /// the destination cell one step along `dir` from the camera's cell.
    pub open spec fn grid_probe_spec(self, pos_x: int, pos_z: int, cell_size: int, dir: GridDir)
        -> bool {
        let cx = pos_x / cell_size;
        let cz = pos_z / cell_size;
        match dir {
            GridDir::XNeg => self.solid_at_spec(cx - 1, cz),
            GridDir::XPos => self.solid_at_spec(cx + 1, cz),
            GridDir::ZNeg => self.solid_at_spec(cx, cz - 1),
            GridDir::ZPos => self.solid_at_spec(cx, cz + 1),
        }
    }

    /// The cheap movement test for pure-grid levels: is the next cell along
    /// `dir` solid? Out-of-bounds destinations read as solid.
    pub fn grid_probe(&self, pos_x: i64, pos_z: i64, cell_size: i64, dir: GridDir) -> (blocked:
        bool)
        requires
            self.wf(),
            0 < cell_size <= POS_LIMIT,
            -POS_LIMIT <= pos_x <= POS_LIMIT,
            -POS_LIMIT <= pos_z <= POS_LIMIT,
        ensures
            blocked == self.grid_probe_spec(pos_x as int, pos_z as int, cell_size as int, dir),
    {
        let cx = fdiv64(pos_x, cell_size);
        let cz = fdiv64(pos_z, cell_size);
        match dir {
            GridDir::XNeg => self.solid_at(cx - 1, cz),
            GridDir::XPos => self.solid_at(cx + 1, cz),
            GridDir::ZNeg => self.solid_at(cx, cz - 1),
            GridDir::ZPos => self.solid_at(cx, cz + 1),
        }
    }
}

/// The little-endian bytes of the cells from index `i` on.
pub open spec fn cells_bytes_from(cells: Seq<u32>, i: int) -> Seq<u8>
    decreases cells.len() - i,
{
    if i < 0 || i >= cells.len() {
        Seq::empty()
    } else {
        spec_u32_to_le_bytes(cells[i]) + cells_bytes_from(cells, i + 1)
    }
}

/// A tile map's byte form: the two dimensions as little-endian 32-bit
/// words, then every cell code in grid order.
pub open spec fn encode_spec(m: TileMap) -> Seq<u8> {
    spec_u32_to_le_bytes(m.width as u32) + spec_u32_to_le_bytes(m.depth as u32) + cells_bytes_from(
        m.cells@,
        0,
    )
}

/// The width a byte string declares.
pub open spec fn decoded_width(b: Seq<u8>) -> int {
    spec_u32_from_le_bytes(b.subrange(0, 4)) as int
}

/// The depth a byte string declares.
pub open spec fn decoded_depth(b: Seq<u8>) -> int {
    spec_u32_from_le_bytes(b.subrange(4, 8)) as int
}

/// The `i`-th cell code a byte string carries.
pub open spec fn decoded_cell(b: Seq<u8>, i: int) -> u32 {
    spec_u32_from_le_bytes(b.subrange(8 + 4 * i, 12 + 4 * i))
}

/// A byte string decodes iff it holds a header and exactly the cells the
/// header promises.
pub open spec fn decode_accepts(b: Seq<u8>) -> bool {
    &&& b.len() >= 8
    &&& b.len() == 8 + 4 * (decoded_width(b) * decoded_depth(b))
}

impl TileMap {
    /// Serialize to bytes. The dimensions must fit the 32-bit header.
    pub fn encode(&self) -> (r: Vec<u8>)
        requires
            self.wf(),
            self.width < 0x1_0000_0000,
            self.depth < 0x1_0000_0000,
        ensures
            r@ == encode_spec(*self),
    {
        let mut out = u32_to_le_bytes(self.width as u32);
        let mut header2 = u32_to_le_bytes(self.depth as u32);
        out.append(&mut header2);
        let n = self.cells.len();
        let mut i: usize = 0;
        while i < n
            invariant
                0 <= i <= n,
                n == self.cells@.len(),
                out@ + cells_bytes_from(self.cells@, i as int) == encode_spec(*self),
            decreases n - i,
        {
            let mut cell = u32_to_le_bytes(self.cells[i]);
            out.append(&mut cell);
            i += 1;
        }
        proof {
            assert(out@ =~= encode_spec(*self));
        }
        out
    }

    /// Parse bytes back into a map, saying exactly why a string is refused.
    pub fn decode(bytes: &[u8]) -> (r: Result<TileMap, DecodeError>)
        ensures
            r is Ok <==> decode_accepts(bytes@),
            r is Ok ==> ({
                let m = r->Ok_0;
                &&& m.wf()
                &&& m.width == decoded_width(bytes@)
                &&& m.depth == decoded_depth(bytes@)
                &&& forall|i: int|
                    0 <= i < m.cells@.len() ==> m.cells@[i] == decoded_cell(bytes@, i)
            }),
            bytes@.len() < 8 ==> r == Result::<TileMap, DecodeError>::Err(DecodeError::TooShort),
            bytes@.len() >= 8 && !decode_accepts(bytes@) ==> r == Result::<TileMap, DecodeError>::Err(
                DecodeError::LengthMismatch,
            ),
    {
        if bytes.len() < 8 {
            return Err(DecodeError::TooShort);
        }
        let w32 = u32_from_le_bytes(slice_subrange(bytes, 0, 4));
        let d32 = u32_from_le_bytes(slice_subrange(bytes, 4, 8));
        proof {
            assert((w32 as int) * (d32 as int) <= 0xffff_fffe_0000_0001) by (nonlinear_arith)
                requires
                    0 <= w32 <= 0xffff_ffff,
                    0 <= d32 <= 0xffff_ffff,
            ;
        }
        let n64: u64 = (w32 as u64) * (d32 as u64);
        let expected: u128 = 8 + 4 * (n64 as u128);
        if (bytes.len() as u128) != expected {
            return Err(DecodeError::LengthMismatch);
        }
        let n = n64 as usize;
        let blen = bytes.len();
        let mut cells: Vec<u32> = Vec::new();
        let mut i: usize = 0;
        while i < n
            invariant
                0 <= i <= n,
                n64 == w32 * d32,
                n == n64,
                blen == bytes@.len(),
                bytes@.len() == 8 + 4 * (n as int),
                cells@.len() == i as int,
                forall|j: int| 0 <= j < i ==> cells@[j] == decoded_cell(bytes@, j),
            decreases n - i,
        {
            let cell = u32_from_le_bytes(slice_subrange(bytes, 8 + 4 * i, 12 + 4 * i));
            cells.push(cell);
            i += 1;
        }
        let m = TileMap { cells, width: w32 as usize, depth: d32 as usize };
        proof {
            assert(decoded_width(bytes@) == w32 as int);
            assert(decoded_depth(bytes@) == d32 as int);
            assert(m.wf()) by (nonlinear_arith)
                requires
                    m.cells@.len() == n as int,
                    n as int == w32 as int * d32 as int,
                    m.width == w32 as int,
                    m.depth == d32 as int,
            ;
        }
        Ok(m)
    }
}

/// The byte form of the cells from `i` on is four bytes per cell.
proof fn lemma_cells_bytes_len(cells: Seq<u32>, i: int)
    requires
        0 <= i <= cells.len(),
    ensures
        cells_bytes_from(cells, i).len() == 4 * (cells.len() - i),
    decreases cells.len() - i,
{
    lemma_auto_spec_u32_to_from_le_bytes();
    if i < cells.len() {
        lemma_cells_bytes_len(cells, i + 1);
    }
}

/// Within the byte form of the cells from `j` on, cell `i` sits at offset
/// `4 * (i - j)`.
proof fn lemma_cells_bytes_slice(cells: Seq<u32>, j: int, i: int)
    requires
        0 <= j <= i < cells.len(),
    ensures
        cells_bytes_from(cells, j).subrange(4 * (i - j), 4 * (i - j) + 4) == spec_u32_to_le_bytes(
            cells[i],
        ),
    decreases i - j,
{
    lemma_auto_spec_u32_to_from_le_bytes();
    lemma_cells_bytes_len(cells, j);
    lemma_cells_bytes_len(cells, j + 1);
    if i == j {
        assert(cells_bytes_from(cells, j).subrange(0, 4) =~= spec_u32_to_le_bytes(cells[j]));
    } else {
        lemma_cells_bytes_slice(cells, j + 1, i);
        assert(cells_bytes_from(cells, j).subrange(4 * (i - j), 4 * (i - j) + 4)
            =~= cells_bytes_from(cells, j + 1).subrange(4 * (i - j - 1), 4 * (i - j - 1) + 4));
    }
}

/// Round-trip law: the byte form of a well-formed map decodes, and what it
/// decodes to carries the same dimensions and the same cell codes.
pub proof fn lemma_encode_decode_round_trip(m: TileMap)
    requires
        m.wf(),
        m.width < 0x1_0000_0000,
        m.depth < 0x1_0000_0000,
    ensures
        decode_accepts(encode_spec(m)),
        decoded_width(encode_spec(m)) == m.width,
        decoded_depth(encode_spec(m)) == m.depth,
        forall|i: int| 0 <= i < m.cells@.len() ==> decoded_cell(encode_spec(m), i) == m.cells@[i],
{
    lemma_auto_spec_u32_to_from_le_bytes();
    lemma_cells_bytes_len(m.cells@, 0);
    let b = encode_spec(m);
    assert(b.subrange(0, 4) =~= spec_u32_to_le_bytes(m.width as u32));
    assert(b.subrange(4, 8) =~= spec_u32_to_le_bytes(m.depth as u32));
    assert forall|i: int| 0 <= i < m.cells@.len() implies decoded_cell(b, i) == m.cells@[i] by {
        lemma_cells_bytes_slice(m.cells@, 0, i);
        assert(b.subrange(8 + 4 * i, 12 + 4 * i) =~= cells_bytes_from(m.cells@, 0).subrange(
            4 * i,
            4 * i + 4,
        ));
    }
}

/// The world placements of one cell's stack of blocks: the cell's code
/// counts how many blocks stand on it, spaced by the block's full height.
pub open spec fn stack_instances(x: int, z: int, count: int, w: int, h: int, d: int, yb: int)
    -> Seq<Instance>
    decreases count,
{
    if count <= 0 {
        Seq::<Instance>::empty()
    } else {
        stack_instances(x, z, count - 1, w, h, d, yb).push(
            Instance {
                position: Vec3 {
                    x: (2 * w * x) as i64,
                    y: (yb + 2 * h * (count - 1)) as i64,
                    z: (2 * d * z) as i64,
                },
            },
        )
    }
}

/// The placements of row `z`, cells `0 .. upto_x`.
pub open spec fn row_instances(
    cells: Seq<u32>,
    mw: int,
    z: int,
    upto_x: int,
    w: int,
    h: int,
    d: int,
    yb: int,
) -> Seq<Instance>
    decreases upto_x,
{
    if upto_x <= 0 {
        Seq::<Instance>::empty()
    } else {
        row_instances(cells, mw, z, upto_x - 1, w, h, d, yb) + stack_instances(
            upto_x - 1,
            z,
            cells[z * mw + (upto_x - 1)] as int,
            w,
            h,
            d,
            yb,
        )
    }
}

/// The placements of rows `0 .. upto_z`.
pub open spec fn grid_instances(
    cells: Seq<u32>,
    mw: int,
    upto_z: int,
    w: int,
    h: int,
    d: int,
    yb: int,
) -> Seq<Instance>
    decreases upto_z,
{
    if upto_z <= 0 {
        Seq::<Instance>::empty()
    } else {
        grid_instances(cells, mw, upto_z - 1, w, h, d, yb) + row_instances(
            cells,
            mw,
            upto_z - 1,
            mw,
            w,
            h,
            d,
            yb,
        )
    }
}

/// Every placement a map materializes to, in grid order (z-major, then x,
/// then the stack bottom-up), for blocks of half-extents `(w, h, d)` whose
/// stacks start at base height `yb`.
pub open spec fn layout_spec(m: TileMap, w: int, h: int, d: int, yb: int) -> Seq<Instance> {
    grid_instances(m.cells@, m.width as int, m.depth as int, w, h, d, yb)
}

/// The shared layout pass.
fn layout(tiles: &TileMap, w: i64, h: i64, d: i64, yb: i64) -> (r: Vec<Instance>)
    requires
        tiles.wf(),
        tiles.width <= 1_000_000_000,
        tiles.depth <= 1_000_000_000,
        0 <= w <= EXTENT_LIMIT,
        0 <= h <= EXTENT_LIMIT,
        0 <= d <= EXTENT_LIMIT,
        -UNIT <= yb <= EXTENT_LIMIT,
        2 * w * (tiles.width as int) <= POS_LIMIT,
        2 * d * (tiles.depth as int) <= POS_LIMIT,
        forall|i: int|
            0 <= i < tiles.cells@.len() ==> yb + 2 * h * ((#[trigger] tiles.cells@[i]) as int)
                <= POS_LIMIT,
    ensures
        r@ == layout_spec(*tiles, w as int, h as int, d as int, yb as int),
        forall|i: int| 0 <= i < r@.len() ==> (#[trigger] r@[i]).position.in_world(),
{
    let cells = &tiles.cells;
    let mw = tiles.width;
    let md = tiles.depth;
    let len = cells.len();
    let mut out: Vec<Instance> = Vec::new();
    let mut z: usize = 0;
    proof {
        assert(out@ =~= grid_instances(cells@, mw as int, 0, w as int, h as int, d as int, yb as int));
    }
    while z < md
        invariant
            0 <= z <= md,
            tiles.wf(),
            cells == tiles.cells,
            mw == tiles.width,
            md == tiles.depth,
            len == cells@.len(),
            mw <= 1_000_000_000,
            md <= 1_000_000_000,
            0 <= w <= EXTENT_LIMIT,
            0 <= h <= EXTENT_LIMIT,
            0 <= d <= EXTENT_LIMIT,
            -UNIT <= yb <= EXTENT_LIMIT,
            2 * w * (mw as int) <= POS_LIMIT,
            2 * d * (md as int) <= POS_LIMIT,
            forall|i: int|
                0 <= i < cells@.len() ==> yb + 2 * h * ((#[trigger] cells@[i]) as int)
                    <= POS_LIMIT,
            out@ == grid_instances(cells@, mw as int, z as int, w as int, h as int, d as int, yb as int),
            forall|i: int| 0 <= i < out@.len() ==> (#[trigger] out@[i]).position.in_world(),
        decreases md - z,
    {
        let mut x: usize = 0;
        proof {
            assert(row_instances(cells@, mw as int, z as int, 0, w as int, h as int, d as int, yb as int)
                =~= Seq::<Instance>::empty());
            assert(out@ =~= grid_instances(cells@, mw as int, z as int, w as int, h as int, d as int, yb as int)
                + row_instances(cells@, mw as int, z as int, 0, w as int, h as int, d as int, yb as int));
        }
        while x < mw
            invariant
                0 <= x <= mw,
                0 <= z < md,
                tiles.wf(),
                cells == tiles.cells,
                mw == tiles.width,
                md == tiles.depth,
                len == cells@.len(),
                mw <= 1_000_000_000,
                md <= 1_000_000_000,
                0 <= w <= EXTENT_LIMIT,
                0 <= h <= EXTENT_LIMIT,
                0 <= d <= EXTENT_LIMIT,
                -UNIT <= yb <= EXTENT_LIMIT,
                2 * w * (mw as int) <= POS_LIMIT,
                2 * d * (md as int) <= POS_LIMIT,
                forall|i: int|
                    0 <= i < cells@.len() ==> yb + 2 * h * ((#[trigger] cells@[i]) as int)
                        <= POS_LIMIT,
                out@ == grid_instances(cells@, mw as int, z as int, w as int, h as int, d as int, yb as int)
                    + row_instances(cells@, mw as int, z as int, x as int, w as int, h as int, d as int, yb as int),
                forall|i: int| 0 <= i < out@.len() ==> (#[trigger] out@[i]).position.in_world(),
            decreases mw - x,
        {
            proof {
                assert(0 <= z * mw && z * mw + x < mw * md) by (nonlinear_arith)
                    requires
                        x < mw,
                        z < md,
                ;
            }
            let count = cells[z * mw + x];
            let ghost idx: int = z as int * mw as int + x as int;
            let mut y: u32 = 0;
            proof {
                assert(stack_instances(x as int, z as int, 0, w as int, h as int, d as int, yb as int)
                    =~= Seq::<Instance>::empty());
            }
            while y < count
                invariant
                    0 <= y <= count,
                    0 <= x < mw,
                    0 <= z < md,
                    tiles.wf(),
                    cells == tiles.cells,
                    mw == tiles.width,
                    md == tiles.depth,
                    len == cells@.len(),
                    mw <= 1_000_000_000,
                    md <= 1_000_000_000,
                    0 <= w <= EXTENT_LIMIT,
                    0 <= h <= EXTENT_LIMIT,
                    0 <= d <= EXTENT_LIMIT,
                    -UNIT <= yb <= EXTENT_LIMIT,
                    2 * w * (mw as int) <= POS_LIMIT,
                    2 * d * (md as int) <= POS_LIMIT,
                    idx == z as int * mw as int + x as int,
                    0 <= idx < cells@.len(),
                    count == cells@[idx],
                    yb + 2 * h * (count as int) <= POS_LIMIT,
                    out@ == grid_instances(cells@, mw as int, z as int, w as int, h as int, d as int, yb as int)
                        + row_instances(cells@, mw as int, z as int, x as int, w as int, h as int, d as int, yb as int)
                        + stack_instances(x as int, z as int, y as int, w as int, h as int, d as int, yb as int),
                    forall|i: int| 0 <= i < out@.len() ==> (#[trigger] out@[i]).position.in_world(),
                decreases count - y,
            {
                proof {
                    assert(0 <= 2 * w * (x as int) && 2 * w * (x as int) <= 2 * w * (mw as int)
                        && 0 <= 2 * d * (z as int) && 2 * d * (z as int) <= 2 * d * (md as int)
                        && 0 <= 2 * h * (y as int) && 2 * h * (y as int) <= 2 * h * (count as int))
                        by (nonlinear_arith)
                        requires
                            0 <= w,
                            0 <= h,
                            0 <= d,
                            0 <= x < mw,
                            0 <= z < md,
                            0 <= y < count,
                    ;
                }
                let px = 2 * w * (x as i64);
                let py = yb + 2 * h * (y as i64);
                let pz = 2 * d * (z as i64);
                out.push(Instance { position: Vec3 { x: px, y: py, z: pz } });
                proof {
                    let gi = grid_instances(cells@, mw as int, z as int, w as int, h as int, d as int, yb as int);
                    let ri = row_instances(cells@, mw as int, z as int, x as int, w as int, h as int, d as int, yb as int);
                    let si = stack_instances(x as int, z as int, y as int, w as int, h as int, d as int, yb as int);
                    let si2 = stack_instances(x as int, z as int, y as int + 1, w as int, h as int, d as int, yb as int);
                    assert(si2 =~= si.push(Instance { position: Vec3 { x: px, y: py, z: pz } }));
                    assert(out@ =~= gi + ri + si2);
                }
                y += 1;
            }
            proof {
                let gi = grid_instances(cells@, mw as int, z as int, w as int, h as int, d as int, yb as int);
                let ri = row_instances(cells@, mw as int, z as int, x as int, w as int, h as int, d as int, yb as int);
                let ri2 = row_instances(cells@, mw as int, z as int, x as int + 1, w as int, h as int, d as int, yb as int);
                let si = stack_instances(x as int, z as int, count as int, w as int, h as int, d as int, yb as int);
                assert(ri2 =~= ri + si);
                assert(gi + ri2 =~= gi + ri + si);
            }
            x += 1;
        }
        proof {
            let gi = grid_instances(cells@, mw as int, z as int, w as int, h as int, d as int, yb as int);
            let gi2 = grid_instances(cells@, mw as int, z as int + 1, w as int, h as int, d as int, yb as int);
            let ri = row_instances(cells@, mw as int, z as int, mw as int, w as int, h as int, d as int, yb as int);
            assert(gi2 =~= gi + ri);
        }
        z += 1;
    }
    out
}

/// Materialize every solid cell as world-placed block instances: cell
/// `(x, z)` with code `c` yields `c` blocks stacked from height zero,
/// spaced by the block's full extents.
pub fn instance_init(tiles: &TileMap, width: i64, height: i64, depth: i64) -> (r: Vec<Instance>)
    requires
        tiles.wf(),
        tiles.width <= 1_000_000_000,
        tiles.depth <= 1_000_000_000,
        0 <= width <= EXTENT_LIMIT,
        0 <= height <= EXTENT_LIMIT,
        0 <= depth <= EXTENT_LIMIT,
        2 * width * (tiles.width as int) <= POS_LIMIT,
        2 * depth * (tiles.depth as int) <= POS_LIMIT,
        forall|i: int|
            0 <= i < tiles.cells@.len() ==> 2 * height * ((#[trigger] tiles.cells@[i]) as int)
                <= POS_LIMIT,
    ensures
        r@ == layout_spec(*tiles, width as int, height as int, depth as int, 0),
        forall|i: int| 0 <= i < r@.len() ==> (#[trigger] r@[i]).position.in_world(),
{
    layout(tiles, width, height, depth, 0)
}

/// Like [`instance_init`], but for ramp meshes, whose stacks start one
/// world unit below their half-height so the ramp's base meets the floor.
pub fn slope_instance_init(tiles: &TileMap, width: i64, height: i64, depth: i64) -> (r: Vec<
    Instance,
>)
    requires
        tiles.wf(),
        tiles.width <= 1_000_000_000,
        tiles.depth <= 1_000_000_000,
        0 <= width <= EXTENT_LIMIT,
        0 <= height <= EXTENT_LIMIT,
        0 <= depth <= EXTENT_LIMIT,
        2 * width * (tiles.width as int) <= POS_LIMIT,
        2 * depth * (tiles.depth as int) <= POS_LIMIT,
        forall|i: int|
            0 <= i < tiles.cells@.len() ==> (height - UNIT) + 2 * height * ((
            #[trigger] tiles.cells@[i]) as int) <= POS_LIMIT,
    ensures
        r@ == layout_spec(
            *tiles,
            width as int,
            height as int,
            depth as int,
            height - UNIT,
        ),
        forall|i: int| 0 <= i < r@.len() ==> (#[trigger] r@[i]).position.in_world(),
{
    layout(tiles, width, height, depth, height - UNIT)
}

} // verus!
