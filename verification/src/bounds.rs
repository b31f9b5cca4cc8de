//! Keeping a viewport inside a level.
//!
//! Coordinates are integers. They may count world units, or they may be any
//! ranks that follow the order of the coordinates they stand for: clamping
//! only ever compares coordinates and hands one of them back.

use vstd::prelude::*;

verus! {

/// A point of the level plane.
#[derive(Copy, Clone, Debug, PartialEq, Eq, Structural)]
pub struct Vector2 {
    pub x: i64,
    pub y: i64,
}

/// The coordinate in `[lower, upper]` that lies nearest to `desired`. When the
/// range is inverted (`upper < lower`) the lower bound wins.
pub open spec fn clamped(desired: int, lower: int, upper: int) -> int {
    if upper < lower || desired < lower {
        lower
    } else if upper < desired {
        upper
    } else {
        desired
    }
}

/// The far edge of the range in which a viewport's centre may move along one
/// axis of a level: `level_size - half_extent`, but never before the near edge
/// `half_extent`, and held at the end of the coordinate range.
pub open spec fn far_edge(half_extent: int, level_size: int) -> int {
    let raw = level_size - half_extent;
    if raw < half_extent {
        half_extent
    } else if raw > i64::MAX {
        i64::MAX as int
    } else {
        raw
    }
}

/// Where a viewport of the given half extent, centred as near to `desired` as
/// a level of the given size allows, has its centre.
pub open spec fn clamped_to_viewport(
    desired: Vector2,
    half_extent: Vector2,
    level_size: Vector2,
) -> Vector2 {
    Vector2 {
        x: clamped(desired.x as int, half_extent.x as int, level_size.x - half_extent.x) as i64,
        y: clamped(desired.y as int, half_extent.y as int, level_size.y - half_extent.y) as i64,
    }
}

/// Clamps one coordinate to `[lower, upper]`; the lower bound wins when the
/// range is inverted.
pub fn clamp_axis(desired: i64, lower: i64, upper: i64) -> (r: i64)
    ensures
        r == clamped(desired as int, lower as int, upper as int),
{
    if upper < lower || desired < lower {
        lower
    } else if upper < desired {
        upper
    } else {
        desired
    }
}

/// The rectangle in which the centre of a viewport may move so that the
/// viewport stays inside its level. It is never inverted: where the viewport
/// is larger than the level along an axis, the rectangle has collapsed to its
/// near edge on that axis.
#[derive(Copy, Clone, Debug)]
pub struct ViewportBounds {
    left: i64,
    right: i64,
    bottom: i64,
    top: i64,
}

impl ViewportBounds {
    #[verifier::type_invariant]
    spec fn ordered(self) -> bool {
        self.left <= self.right && self.bottom <= self.top
    }

    pub closed spec fn left_edge(self) -> int {
        self.left as int
    }

    pub closed spec fn right_edge(self) -> int {
        self.right as int
    }

    pub closed spec fn bottom_edge(self) -> int {
        self.bottom as int
    }

    pub closed spec fn top_edge(self) -> int {
        self.top as int
    }

    /// The centre of the viewport when it follows `desired` as closely as
    /// these bounds allow.
    pub open spec fn clamped(self, desired: Vector2) -> Vector2 {
        Vector2 {
            x: self::clamped(desired.x as int, self.left_edge(), self.right_edge()) as i64,
            y: self::clamped(desired.y as int, self.bottom_edge(), self.top_edge()) as i64,
        }
    }

    /// Bounds with the given edges. An inverted pair of edges collapses to
    /// its lower edge.
    pub fn from_edges(left: i64, right: i64, bottom: i64, top: i64) -> (b: Self)
        ensures
            b.left_edge() == left,
            b.right_edge() == vstd::math::max(left as int, right as int),
            b.bottom_edge() == bottom,
            b.top_edge() == vstd::math::max(bottom as int, top as int),
    {
        ViewportBounds {
            left,
            right: if right < left { left } else { right },
            bottom,
            top: if top < bottom { bottom } else { top },
        }
    }

    /// The bounds for a viewport that reaches `half_extent` to each side of
    /// its centre, inside a level that spans from the origin to `level_size`.
    pub fn new(half_extent: Vector2, level_size: Vector2) -> (b: Self)
        ensures
            b.left_edge() == half_extent.x,
            b.right_edge() == far_edge(half_extent.x as int, level_size.x as int),
            b.bottom_edge() == half_extent.y,
            b.top_edge() == far_edge(half_extent.y as int, level_size.y as int),
    {
        ViewportBounds {
            left: half_extent.x,
            right: far_edge_of(half_extent.x, level_size.x),
            bottom: half_extent.y,
            top: far_edge_of(half_extent.y, level_size.y),
        }
    }

    pub fn left(&self) -> (r: i64)
        ensures
            r == self.left_edge(),
    {
        self.left
    }

    pub fn right(&self) -> (r: i64)
        ensures
            r == self.right_edge(),
    {
        self.right
    }

    pub fn bottom(&self) -> (r: i64)
        ensures
            r == self.bottom_edge(),
    {
        self.bottom
    }

    pub fn top(&self) -> (r: i64)
        ensures
            r == self.top_edge(),
    {
        self.top
    }

    /// Moves `desired` into the bounds, each axis on its own.
    pub fn clamp(&self, desired: Vector2) -> (r: Vector2)
        ensures
            r == self.clamped(desired),
            self.left_edge() <= r.x <= self.right_edge(),
            self.bottom_edge() <= r.y <= self.top_edge(),
    {
        proof {
            use_type_invariant(self);
        }
        Vector2 {
            x: clamp_axis(desired.x, self.left, self.right),
            y: clamp_axis(desired.y, self.bottom, self.top),
        }
    }
}

fn far_edge_of(half_extent: i64, level_size: i64) -> (r: i64)
    ensures
        r == far_edge(half_extent as int, level_size as int),
{
    let raw: i128 = level_size as i128 - half_extent as i128;
    if raw < half_extent as i128 {
        half_extent
    } else if raw > i64::MAX as i128 {
        i64::MAX
    } else {
        raw as i64
    }
}

/// Corrects `desired` so that a viewport of the given half extent, centred
/// on the result, lies inside a level that spans from the origin to
/// `level_size`. Along an axis on which the viewport is larger than the level
/// the result is the half extent.
pub fn clamp_to_viewport(
    desired: Vector2,
    half_extent: Vector2,
    level_size: Vector2,
) -> (r: Vector2)
    ensures
        r == clamped_to_viewport(desired, half_extent, level_size),
        r.x == clamped(desired.x as int, half_extent.x as int, level_size.x - half_extent.x),
        r.y == clamped(desired.y as int, half_extent.y as int, level_size.y - half_extent.y),
{
    let bounds = ViewportBounds::new(half_extent, level_size);
    bounds.clamp(desired)
}

/// A coordinate that was clamped to a range is left as it is when it is
/// clamped to that range again, whether or not the range is inverted.
pub proof fn lemma_clamped_idempotent(desired: int, lower: int, upper: int)
    ensures
        clamped(clamped(desired, lower, upper), lower, upper) == clamped(desired, lower, upper),
{
}

/// A point that was moved into bounds is left as it is when it is moved into
/// the same bounds again.
pub proof fn lemma_bounds_clamp_idempotent(bounds: ViewportBounds, desired: Vector2)
    ensures
        bounds.clamped(bounds.clamped(desired)) == bounds.clamped(desired),
{
}

/// Clamping to a viewport is idempotent: a point that was clamped for a
/// viewport and a level is left as it is when it is clamped for them again.
pub proof fn lemma_clamp_to_viewport_idempotent(
    desired: Vector2,
    half_extent: Vector2,
    level_size: Vector2,
)
    ensures
        clamped_to_viewport(
            clamped_to_viewport(desired, half_extent, level_size),
            half_extent,
            level_size,
        ) == clamped_to_viewport(desired, half_extent, level_size),
{
}

/// Along an axis on which the viewport is larger than the level, the clamped
/// point lies at the half extent, wherever the desired point lies.
pub proof fn lemma_degenerate_viewport_collapses(
    desired: Vector2,
    half_extent: Vector2,
    level_size: Vector2,
)
    ensures
        level_size.x - half_extent.x < half_extent.x ==> clamped_to_viewport(
            desired,
            half_extent,
            level_size,
        ).x == half_extent.x,
        level_size.y - half_extent.y < half_extent.y ==> clamped_to_viewport(
            desired,
            half_extent,
            level_size,
        ).y == half_extent.y,
{
}

/// Where the viewport fits into the level along both axes, a viewport centred
/// on the clamped point lies inside the level, and a desired point whose
/// viewport already lies inside the level is kept.
pub proof fn lemma_clamped_viewport_inside_level(
    desired: Vector2,
    half_extent: Vector2,
    level_size: Vector2,
)
    requires
        half_extent.x <= level_size.x - half_extent.x,
        half_extent.y <= level_size.y - half_extent.y,
    ensures
        ({
            let r = clamped_to_viewport(desired, half_extent, level_size);
            &&& 0 <= r.x - half_extent.x
            &&& r.x + half_extent.x <= level_size.x
            &&& 0 <= r.y - half_extent.y
            &&& r.y + half_extent.y <= level_size.y
            &&& (0 <= desired.x - half_extent.x && desired.x + half_extent.x <= level_size.x
                ==> r.x == desired.x)
            &&& (0 <= desired.y - half_extent.y && desired.y + half_extent.y <= level_size.y
                ==> r.y == desired.y)
        }),
{
}

} // verus!
