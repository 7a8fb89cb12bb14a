//! Moving bodies: how a position advances with time and how a body is
//! kept within the playing field.
//!
//! Positions are in millionths of a world unit, velocities in millionths
//! per millisecond, time in milliseconds. The playing field is the square
//! from -1 to 1 in both directions.

use crate::fixed::{saturate, saturate_i128, saturate_i64};
use crate::physics::{Vec2, lemma_product_bound};
use vstd::prelude::*;

verus! {

/// The lower and left edge of the playing field.
pub const FIELD_MIN: i32 = -1_000_000;

/// The upper and right edge of the playing field.
pub const FIELD_MAX: i32 = 1_000_000;

/// Half of `v`, rounded towards zero.
pub open spec fn half(v: int) -> int {
    if v >= 0 {
        v / 2
    } else {
        -((-v) / 2)
    }
}

/// One coordinate of a body of half-extent `offset`, moved back between
/// `min` and `max` where the body sticks out. The lower bound is looked at
/// first.
pub open spec fn clamp_axis(pos: int, min: int, max: int, offset: int) -> int {
    if pos - offset < min {
        min + offset
    } else if pos + offset > max {
        max - offset
    } else {
        pos
    }
}

/// A position moved back into the field along both axes.
pub open spec fn clamped_position(
    pos: Vec2,
    x_min: int,
    x_max: int,
    y_min: int,
    y_max: int,
    x_offset: int,
    y_offset: int,
) -> Vec2 {
    Vec2 {
        x: saturate(clamp_axis(pos.x as int, x_min, x_max, x_offset)),
        y: saturate(clamp_axis(pos.y as int, y_min, y_max, y_offset)),
    }
}

/// Where a body fits between the bounds, clamping leaves it between them.
pub proof fn lemma_clamp_axis_within(pos: int, min: int, max: int, offset: int)
    requires
        min + offset <= max - offset,
    ensures
        min + offset <= clamp_axis(pos, min, max, offset) <= max - offset,
        min + offset <= pos <= max - offset ==> clamp_axis(pos, min, max, offset) == pos,
        pos + offset > max ==> clamp_axis(pos, min, max, offset) == max - offset,
        pos - offset < min ==> clamp_axis(pos, min, max, offset) == min + offset,
{
}

fn clamp_axis_exec(pos: i32, min: i32, max: i32, offset: i32) -> (r: i32)
    ensures
        r == saturate(clamp_axis(pos as int, min as int, max as int, offset as int)),
{
    if (pos as i64) - (offset as i64) < min as i64 {
        saturate_i64(min as i64 + offset as i64)
    } else if (pos as i64) + (offset as i64) > max as i64 {
        saturate_i64(max as i64 - offset as i64)
    } else {
        pos
    }
}

/// Moves a body of the given half-extents back into the rectangle from
/// `(x_min, y_min)` to `(x_max, y_max)`.
pub fn clamp_position_2d(
    pos: Vec2,
    x_min: i32,
    x_max: i32,
    y_min: i32,
    y_max: i32,
    x_offset: i32,
    y_offset: i32,
) -> (r: Vec2)
    ensures
        r == clamped_position(
            pos,
            x_min as int,
            x_max as int,
            y_min as int,
            y_max as int,
            x_offset as int,
            y_offset as int,
        ),
{
    Vec2 {
        x: clamp_axis_exec(pos.x, x_min, x_max, x_offset),
        y: clamp_axis_exec(pos.y, y_min, y_max, y_offset),
    }
}

/// A position after `delta` milliseconds at `velocity`.
pub open spec fn advanced(position: Vec2, velocity: Vec2, delta: u32) -> Vec2 {
    Vec2 {
        x: saturate(position.x + velocity.x * delta),
        y: saturate(position.y + velocity.y * delta),
    }
}

pub(crate) fn advance(position: Vec2, velocity: Vec2, delta: u32) -> (r: Vec2)
    ensures
        r == advanced(position, velocity, delta),
{
    proof {
        lemma_product_bound(velocity.x as int, delta as int, 0x8000_0000, 0x1_0000_0000);
        lemma_product_bound(velocity.y as int, delta as int, 0x8000_0000, 0x1_0000_0000);
    }
    let x: i128 = position.x as i128 + (velocity.x as i128) * (delta as i128);
    let y: i128 = position.y as i128 + (velocity.y as i128) * (delta as i128);
    Vec2 { x: saturate_i128(x), y: saturate_i128(y) }
}

pub(crate) fn half_of(v: i32) -> (r: i32)
    ensures
        r == half(v as int),
{
    v / 2
}

} // verus!
