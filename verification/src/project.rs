//! The projection engine: per (side, view) depth keys and screen mappings.
//!
//! Every side/view combination follows one construction. A side picks, for
//! the two grid axes that are not the vertical one, a horizontal screen
//! contribution `horiz`, a depth-toward-camera contribution `near` (larger is
//! nearer), and the mirrored horizontal `horiz_mirror`. A view then weighs
//! those contributions into a depth key and two screen coordinates.

use vstd::prelude::*;

use crate::enums::{Side, View};
use crate::model::{size_ok, voxel_in, Size, Voxel, MAX_DIM};

verus! {

/// Renderable combinations: every view of the four lateral sides, but only
/// the straight-on view of Top and Bottom (no oblique skew direction exists
/// for a straight-down or straight-up camera).
pub open spec fn spec_should_render(side: Side, view: View) -> bool {
    view == View::Face || (side != Side::Top && side != Side::Bottom)
}

/// Whether the (side, view) combination is rendered at all.
pub fn should_render(side: Side, view: View) -> (r: bool)
    ensures
        r == spec_should_render(side, view),
{
    view == View::Face || (side != Side::Top && side != Side::Bottom)
}

/// The grid contribution that runs along the screen's horizontal axis, for a
/// lateral side (chosen raw or mirrored so the picture is not flipped).
pub open spec fn horiz(side: Side, size: Size, v: Voxel) -> int {
    match side {
        Side::Front => v.x as int,
        Side::Left => size.y - v.y,
        Side::Right => v.y as int,
        Side::Back => size.x - v.x,
        _ => v.x as int,
    }
}

/// The depth-axis contribution, signed so that it grows toward the camera.
pub open spec fn near(side: Side, size: Size, v: Voxel) -> int {
    match side {
        Side::Front => size.y - v.y,
        Side::Left => size.x - v.x,
        Side::Right => v.x as int,
        Side::Back => v.y as int,
        Side::Top => v.z as int,
        Side::Bottom => size.z - v.z,
    }
}

/// The horizontal grid contribution mirrored against its bounding size; the
/// isometric views leak it into the vertical screen axis and the depth key.
pub open spec fn horiz_mirror(side: Side, size: Size, v: Voxel) -> int {
    match side {
        Side::Front => size.x - v.x,
        Side::Left => v.y as int,
        Side::Right => size.y - v.y,
        Side::Back => v.x as int,
        _ => v.x as int,
    }
}

/// The z coordinate mirrored against the bounding height.
pub open spec fn inv_z(size: Size, v: Voxel) -> int {
    size.z - v.z
}

/// The depth sort key: ascending order is farthest to nearest, so painting
/// in ascending key order lets nearer voxels overwrite farther ones.
pub open spec fn spec_key(side: Side, view: View, size: Size, v: Voxel) -> int {
    match view {
        View::Face => near(side, size, v),
        View::FourtyFive => v.z + near(side, size, v),
        View::TwentyTwoPointFive => v.z + near(side, size, v),
        View::FourtyFiveIso => v.z + near(side, size, v) + horiz_mirror(side, size, v),
        View::TwentyTwoPointFiveIso => v.z + near(side, size, v) + horiz_mirror(side, size, v),
    }
}

/// The horizontal screen coordinate of the voxel's stamp origin.
pub open spec fn spec_screen_x(side: Side, view: View, size: Size, v: Voxel) -> int {
    match view {
        View::Face => match side {
            Side::Top => v.x as int,
            Side::Bottom => v.x as int,
            _ => horiz(side, size, v),
        },
        View::FourtyFive => horiz(side, size, v),
        View::TwentyTwoPointFive => 2 * horiz(side, size, v),
        View::FourtyFiveIso => horiz(side, size, v) + near(side, size, v),
        View::TwentyTwoPointFiveIso => 2 * horiz(side, size, v) + 2 * near(side, size, v),
    }
}

/// The vertical screen coordinate of the voxel's stamp origin.
pub open spec fn spec_screen_y(side: Side, view: View, size: Size, v: Voxel) -> int {
    match view {
        View::Face => match side {
            Side::Top => size.y - v.y,
            Side::Bottom => v.y as int,
            _ => inv_z(size, v),
        },
        View::FourtyFive => inv_z(size, v) + near(side, size, v),
        View::TwentyTwoPointFive => 2 * inv_z(size, v) + near(side, size, v),
        View::FourtyFiveIso => inv_z(size, v) + near(side, size, v) + horiz_mirror(side, size, v),
        View::TwentyTwoPointFiveIso => 3 * inv_z(size, v) + near(side, size, v) + horiz_mirror(
            side,
            size,
            v,
        ),
    }
}

/// Every projection value is nonnegative and at most five bounded axis
/// contributions, so it fits comfortably in `u32`.
pub proof fn lemma_projection_bounds(side: Side, view: View, size: Size, v: Voxel)
    requires
        size_ok(size),
        voxel_in(size, v),
    ensures
        0 <= spec_key(side, view, size, v) <= 5 * MAX_DIM,
        0 <= spec_screen_x(side, view, size, v) <= 5 * MAX_DIM,
        0 <= spec_screen_y(side, view, size, v) <= 5 * MAX_DIM,
{
}

/// The depth sort key of the voxel under the given side and view.
pub fn sort_key(side: Side, view: View, size: &Size, v: &Voxel) -> (r: u32)
    requires
        size_ok(*size),
        voxel_in(*size, *v),
    ensures
        r == spec_key(side, view, *size, *v),
{
    proof {
        lemma_projection_bounds(side, view, *size, *v);
    }
    match view {
        View::Face => near_exec(side, size, v),
        View::FourtyFive => v.z as u32 + near_exec(side, size, v),
        View::TwentyTwoPointFive => v.z as u32 + near_exec(side, size, v),
        View::FourtyFiveIso => v.z as u32 + near_exec(side, size, v) + mirror_exec(side, size, v),
        View::TwentyTwoPointFiveIso => v.z as u32 + near_exec(side, size, v) + mirror_exec(
            side,
            size,
            v,
        ),
    }
}

/// The horizontal screen coordinate of the voxel under the given side/view.
pub fn screen_x(side: Side, view: View, size: &Size, v: &Voxel) -> (r: u32)
    requires
        size_ok(*size),
        voxel_in(*size, *v),
    ensures
        r == spec_screen_x(side, view, *size, *v),
{
    proof {
        lemma_projection_bounds(side, view, *size, *v);
    }
    match view {
        View::Face => match side {
            Side::Top => v.x as u32,
            Side::Bottom => v.x as u32,
            _ => horiz_exec(side, size, v),
        },
        View::FourtyFive => horiz_exec(side, size, v),
        View::TwentyTwoPointFive => 2 * horiz_exec(side, size, v),
        View::FourtyFiveIso => horiz_exec(side, size, v) + near_exec(side, size, v),
        View::TwentyTwoPointFiveIso => 2 * horiz_exec(side, size, v) + 2 * near_exec(
            side,
            size,
            v,
        ),
    }
}

/// The vertical screen coordinate of the voxel under the given side/view.
pub fn screen_y(side: Side, view: View, size: &Size, v: &Voxel) -> (r: u32)
    requires
        size_ok(*size),
        voxel_in(*size, *v),
    ensures
        r == spec_screen_y(side, view, *size, *v),
{
    proof {
        lemma_projection_bounds(side, view, *size, *v);
    }
    let iz: u32 = size.z - v.z as u32;
    match view {
        View::Face => match side {
            Side::Top => size.y - v.y as u32,
            Side::Bottom => v.y as u32,
            _ => iz,
        },
        View::FourtyFive => iz + near_exec(side, size, v),
        View::TwentyTwoPointFive => 2 * iz + near_exec(side, size, v),
        View::FourtyFiveIso => iz + near_exec(side, size, v) + mirror_exec(side, size, v),
        View::TwentyTwoPointFiveIso => 3 * iz + near_exec(side, size, v) + mirror_exec(
            side,
            size,
            v,
        ),
    }
}

fn horiz_exec(side: Side, size: &Size, v: &Voxel) -> (r: u32)
    requires
        size_ok(*size),
        voxel_in(*size, *v),
    ensures
        r == horiz(side, *size, *v),
{
    match side {
        Side::Front => v.x as u32,
        Side::Left => size.y - v.y as u32,
        Side::Right => v.y as u32,
        Side::Back => size.x - v.x as u32,
        _ => v.x as u32,
    }
}

fn near_exec(side: Side, size: &Size, v: &Voxel) -> (r: u32)
    requires
        size_ok(*size),
        voxel_in(*size, *v),
    ensures
        r == near(side, *size, *v),
{
    match side {
        Side::Front => size.y - v.y as u32,
        Side::Left => size.x - v.x as u32,
        Side::Right => v.x as u32,
        Side::Back => v.y as u32,
        Side::Top => v.z as u32,
        Side::Bottom => size.z - v.z as u32,
    }
}

fn mirror_exec(side: Side, size: &Size, v: &Voxel) -> (r: u32)
    requires
        size_ok(*size),
        voxel_in(*size, *v),
    ensures
        r == horiz_mirror(side, *size, *v),
{
    match side {
        Side::Front => size.x - v.x as u32,
        Side::Left => v.y as u32,
        Side::Right => size.y - v.y as u32,
        Side::Back => v.x as u32,
        _ => v.x as u32,
    }
}

/// The per-view padding added to the canvas beyond the largest screen
/// coordinate: exactly the extra width and height of the view's stamp.
pub open spec fn spec_padding(view: View) -> (u32, u32) {
    match view {
        View::Face => (0u32, 0u32),
        View::FourtyFive => (0u32, 1u32),
        View::FourtyFiveIso => (1u32, 1u32),
        View::TwentyTwoPointFive => (1u32, 2u32),
        View::TwentyTwoPointFiveIso => (3u32, 3u32),
    }
}

/// The per-view canvas padding (x, y).
pub fn padding(view: View) -> (r: (u32, u32))
    ensures
        r == spec_padding(view),
{
    match view {
        View::Face => (0, 0),
        View::FourtyFive => (0, 1),
        View::FourtyFiveIso => (1, 1),
        View::TwentyTwoPointFive => (1, 2),
        View::TwentyTwoPointFiveIso => (3, 3),
    }
}

} // verus!
