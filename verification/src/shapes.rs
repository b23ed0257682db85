//! Collision shapes: half-extent descriptors for plain blocks, thin floor
//! slabs and ramps. The mesh data the renderer derives from these shapes is
//! floating-point work for the rendering layer; collision only ever reads the
//! half-extents (and, for ramps, the orientation).

use vstd::prelude::*;

verus! {

/// Largest half-extent the world model admits (one thousand world units).
pub const EXTENT_LIMIT: i64 = 1_000_000;

/// Why a shape was rejected at construction time.
#[derive(Clone, Copy, Debug, PartialEq, Eq, Structural)]
pub enum GeometryError {
    /// A ramp with no depth has no defined gradient.
    DegenerateDepth,
    /// A half-extent is negative or beyond the representable world.
    ExtentOutOfRange,
}

/// Which way a ramp ascends. `Flat` stands for a ramp-shaped mesh with no
/// walkable gradient (the fallback the mesh builder also accepts).
#[derive(Clone, Copy, Debug, PartialEq, Eq, Structural)]
pub enum Orientation {
    Flat,
    Forward,
    Backward,
    Left,
    Right,
}

/// Half-extents of a solid block, in fixed-point world units.
#[derive(Clone, Copy, Debug, PartialEq, Eq, Structural)]
pub struct Cube {
    pub width: i64,
    pub height: i64,
    pub depth: i64,
}

impl Cube {
    pub open spec fn wf(self) -> bool {
        &&& 0 <= self.width <= EXTENT_LIMIT
        &&& 0 <= self.height <= EXTENT_LIMIT
        &&& 0 <= self.depth <= EXTENT_LIMIT
    }

    pub fn new(width: i64, height: i64, depth: i64) -> (c: Cube)
        requires
            0 <= width <= EXTENT_LIMIT,
            0 <= height <= EXTENT_LIMIT,
            0 <= depth <= EXTENT_LIMIT,
        ensures
            c == (Cube { width, height, depth }),
            c.wf(),
    {
        Cube { width, height, depth }
    }
}

/// Half-extents of a thin floor slab, in fixed-point world units. Only the
/// top-contact probe reads the height, at half value.
#[derive(Clone, Copy, Debug, PartialEq, Eq, Structural)]
pub struct Floor {
    pub width: i64,
    pub height: i64,
    pub depth: i64,
}

impl Floor {
    pub open spec fn wf(self) -> bool {
        &&& 0 <= self.width <= EXTENT_LIMIT
        &&& 0 <= self.height <= EXTENT_LIMIT
        &&& 0 <= self.depth <= EXTENT_LIMIT
    }

    pub fn new(width: i64, height: i64, depth: i64) -> (f: Floor)
        requires
            0 <= width <= EXTENT_LIMIT,
            0 <= height <= EXTENT_LIMIT,
            0 <= depth <= EXTENT_LIMIT,
        ensures
            f == (Floor { width, height, depth }),
            f.wf(),
    {
        Floor { width, height, depth }
    }
}

/// Half-extents and ascent direction of a ramp. The gradient is
/// `height / depth`, so a ramp with no depth is rejected at construction.
#[derive(Clone, Copy, Debug, PartialEq, Eq, Structural)]
pub struct Slope {
    pub width: i64,
    pub height: i64,
    pub depth: i64,
    pub orientation: Orientation,
}

impl Slope {
    pub open spec fn wf(self) -> bool {
        &&& 0 <= self.width <= EXTENT_LIMIT
        &&& 0 <= self.height <= EXTENT_LIMIT
        &&& 0 < self.depth <= EXTENT_LIMIT
    }

    /// Build a ramp shape; degenerate geometry is rejected rather than let a
    /// zero depth divide the ramp-height formula.
    pub fn new(width: i64, height: i64, depth: i64, orientation: Orientation) -> (r: Result<
        Slope,
        GeometryError,
    >)
        ensures
            depth <= 0 ==> r == Result::<Slope, GeometryError>::Err(
                GeometryError::DegenerateDepth,
            ),
            depth > 0 && !(0 <= width <= EXTENT_LIMIT && 0 <= height <= EXTENT_LIMIT && depth
                <= EXTENT_LIMIT) ==> r == Result::<Slope, GeometryError>::Err(
                GeometryError::ExtentOutOfRange,
            ),
            depth > 0 && 0 <= width <= EXTENT_LIMIT && 0 <= height <= EXTENT_LIMIT && depth
                <= EXTENT_LIMIT ==> r == Result::<Slope, GeometryError>::Ok(
                Slope { width, height, depth, orientation },
            ),
            r is Ok ==> r->Ok_0.wf(),
    {
        if depth <= 0 {
            Err(GeometryError::DegenerateDepth)
        } else if width < 0 || width > EXTENT_LIMIT || height < 0 || height > EXTENT_LIMIT || depth
            > EXTENT_LIMIT {
            Err(GeometryError::ExtentOutOfRange)
        } else {
            Ok(Slope { width, height, depth, orientation })
        }
    }
}

} // verus!
