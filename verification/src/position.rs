//! Splitting a camera's continuous position into the whole pixel at which the
//! scene is rendered and the rest, by which the displayed image is shifted.
//!
//! Positions are fixed-point numbers: a coordinate counts units of which
//! [`UNITS_PER_PIXEL`] make one pixel. World coordinates grow to the right
//! and upwards; coordinates on the render target grow to the right and
//! downwards.

use vstd::prelude::*;
use crate::viewport::ViewportExtent;

verus! {

/// The number of position units in one pixel.
pub const UNITS_PER_PIXEL: i64 = 1000;

/// A position in the world, in units of which [`UNITS_PER_PIXEL`] make one
/// pixel.
#[derive(Clone, Copy, Debug, PartialEq, Eq, Structural)]
pub struct SubpixelPosition {
    /// The horizontal coordinate, growing to the right.
    pub x: i64,
    /// The vertical coordinate, growing upwards.
    pub y: i64,
}

/// One coordinate split into whole pixels and the rest.
#[derive(Clone, Copy, Debug, PartialEq, Eq, Structural)]
pub struct AxisSplit {
    /// The coordinate in whole pixels.
    pub whole: i64,
    /// The rest in units, from 0 up to but not including [`UNITS_PER_PIXEL`].
    pub remainder: i64,
}

/// A position split into whole pixels and the rest, axis by axis.
#[derive(Clone, Copy, Debug, PartialEq, Eq, Structural)]
pub struct PositionSplit {
    /// The horizontal coordinate.
    pub x: AxisSplit,
    /// The vertical coordinate.
    pub y: AxisSplit,
}

/// The part of the render target that is displayed, in units, measured from
/// the target's top left corner.
#[derive(Clone, Copy, Debug, PartialEq, Eq, Structural)]
pub struct SurfaceRect {
    /// The left edge.
    pub min_x: u64,
    /// The top edge.
    pub min_y: u64,
    /// The right edge.
    pub max_x: u64,
    /// The bottom edge.
    pub max_y: u64,
}

/// The pixel in which `units` lies: the coordinate rounded down.
pub open spec fn floor_pixels(units: int) -> int {
    units / (UNITS_PER_PIXEL as int)
}

/// How far `units` lies past the start of its pixel.
pub open spec fn floor_remainder(units: int) -> int {
    units % (UNITS_PER_PIXEL as int)
}

/// The coordinate rounded towards zero.
pub open spec fn truncated_pixels(units: int) -> int {
    if units >= 0 {
        units / (UNITS_PER_PIXEL as int)
    } else {
        -((-units) / (UNITS_PER_PIXEL as int))
    }
}

/// What [`split_axis`] returns: with smoothing the coordinate rounded down
/// and the rest; without it the coordinate rounded towards zero and no rest.
pub open spec fn axis_split(units: int, smoothing: bool) -> (int, int) {
    if smoothing {
        (floor_pixels(units), floor_remainder(units))
    } else {
        (truncated_pixels(units), 0)
    }
}

/// Splits one coordinate.
///
/// With smoothing the whole part is the coordinate rounded down, so that the
/// rest is never negative: whole part and rest together are the coordinate.
/// Without smoothing the coordinate is rounded towards zero and there is no
/// rest.
pub fn split_axis(units: i64, smoothing: bool) -> (split: AxisSplit)
    ensures
        (split.whole as int, split.remainder as int) == axis_split(units as int, smoothing),
        0 <= split.remainder < UNITS_PER_PIXEL,
        smoothing ==> split.whole * UNITS_PER_PIXEL + split.remainder == units,
{
    if units >= 0 {
        let whole: i64 = units / UNITS_PER_PIXEL;
        let remainder: i64 = if smoothing {
            units % UNITS_PER_PIXEL
        } else {
            0
        };
        AxisSplit { whole, remainder }
    } else {
        // `units` is negative: work on its distance from zero, which fits.
        let distance: u64 = (-(units + 1)) as u64 + 1;
        let unit: u64 = UNITS_PER_PIXEL as u64;
        let towards_zero: u64 = distance / unit;
        let past: u64 = distance % unit;
        if !smoothing {
            AxisSplit { whole: -(towards_zero as i64), remainder: 0 }
        } else if past == 0 {
            AxisSplit { whole: -(towards_zero as i64), remainder: 0 }
        } else {
            AxisSplit { whole: -(towards_zero as i64) - 1, remainder: (unit - past) as i64 }
        }
    }
}

impl SubpixelPosition {
    /// The position `x`, `y`.
    pub fn new(x: i64, y: i64) -> (position: Self)
        ensures
            position.x == x,
            position.y == y,
    {
        SubpixelPosition { x, y }
    }

    /// The origin.
    pub fn zero() -> (position: Self)
        ensures
            position.x == 0,
            position.y == 0,
    {
        SubpixelPosition { x: 0, y: 0 }
    }

    /// Splits both coordinates as [`split_axis`] does.
    pub fn split(&self, smoothing: bool) -> (split: PositionSplit)
        ensures
            (split.x.whole as int, split.x.remainder as int) == axis_split(self.x as int, smoothing),
            (split.y.whole as int, split.y.remainder as int) == axis_split(self.y as int, smoothing),
    {
        PositionSplit { x: split_axis(self.x, smoothing), y: split_axis(self.y, smoothing) }
    }
}

impl SurfaceRect {
    /// Left, top, right and bottom edge as integers.
    pub open spec fn view(&self) -> (int, int, int, int) {
        (self.min_x as int, self.min_y as int, self.max_x as int, self.max_y as int)
    }
}

/// The part that is displayed of a render target of extent `target` whose
/// camera sits `rest_x` units left of and `rest_y` units below the continuous
/// position: the target without its border of one pixel, moved right by
/// `rest_x` and, the target's vertical axis pointing down, up by `rest_y`.
pub open spec fn shown_rect(target: ViewportExtent, rest_x: int, rest_y: int) -> (
    int,
    int,
    int,
    int,
) {
    let unit = UNITS_PER_PIXEL as int;
    (
        unit + rest_x,
        unit - rest_y,
        (target.width - 1) * unit + rest_x,
        (target.height - 1) * unit - rest_y,
    )
}

/// The displayed part never leaves the render target, and it is the target
/// less two pixels on each axis: the border takes up the whole shift.
pub proof fn lemma_shown_rect_stays_inside(target: ViewportExtent, rest_x: int, rest_y: int)
    requires
        target.width >= 2,
        target.height >= 2,
        0 <= rest_x < UNITS_PER_PIXEL,
        0 <= rest_y < UNITS_PER_PIXEL,
    ensures
        ({
            let (min_x, min_y, max_x, max_y) = shown_rect(target, rest_x, rest_y);
            &&& 0 <= min_x <= max_x <= target.width * UNITS_PER_PIXEL
            &&& 0 <= min_y <= max_y <= target.height * UNITS_PER_PIXEL
            &&& max_x - min_x == (target.width - 2) * UNITS_PER_PIXEL
            &&& max_y - min_y == (target.height - 2) * UNITS_PER_PIXEL
        }),
{
}

/// The part of a render target of extent `target` that is displayed while
/// the camera's continuous position is `position`.
///
/// There is none where the target is too small to have a border.
pub fn surface_rect(target: &ViewportExtent, position: &SubpixelPosition) -> (rect: Option<
    SurfaceRect,
>)
    ensures
        rect is Some <==> target.width >= 2 && target.height >= 2,
        rect matches Some(r) ==> r@ == shown_rect(
            *target,
            floor_remainder(position.x as int),
            floor_remainder(position.y as int),
        ),
{
    if target.width < 2 || target.height < 2 {
        return None;
    }
    let split: PositionSplit = position.split(true);
    let unit: u64 = UNITS_PER_PIXEL as u64;
    let rest_x: u64 = split.x.remainder as u64;
    let rest_y: u64 = split.y.remainder as u64;
    proof {
        lemma_shown_rect_stays_inside(*target, rest_x as int, rest_y as int);
    }
    Some(
        SurfaceRect {
            min_x: unit + rest_x,
            min_y: unit - rest_y,
            max_x: (target.width as u64 - 1) * unit + rest_x,
            max_y: (target.height as u64 - 1) * unit - rest_y,
        },
    )
}

} // verus!
