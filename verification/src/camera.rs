//! The orthographic camera and its controller.
//!
//! The camera is kept as the numbers its matrices are made from: the
//! bounds of the projection and the position and rotation of the view.
//! Turning them into matrices is left to the caller.

use crate::fixed::{div_round, lemma_round_div_bounded, round_div, saturate, saturate_i128, UNIT};
use crate::input::{InputState, KeyKind, is_pressed};
use crate::physics::lemma_product_bound;
use vstd::prelude::*;

verus! {

/// A point in space, in millionths of a world unit.
#[derive(Clone, Copy, Debug, PartialEq, Eq, Structural)]
pub struct Vec3 {
    pub x: i32,
    pub y: i32,
    pub z: i32,
}

/// The part of the world an orthographic projection shows.
#[derive(Clone, Copy, Debug, PartialEq, Eq, Structural)]
pub struct Bounds {
    pub left: i32,
    pub right: i32,
    pub bottom: i32,
    pub top: i32,
}

/// The direction a camera looks along: cosine and sine of its rotation,
/// in millionths.
#[derive(Clone, Copy, Debug, PartialEq, Eq, Structural)]
pub struct Heading {
    pub cos: i32,
    pub sin: i32,
}

/// The directions a camera can be moved in.
#[derive(Clone, Copy, Debug, PartialEq, Eq, Structural)]
pub enum Pan {
    Left,
    Right,
    Up,
    Down,
}

/// The product of two numbers in millionths, in millionths.
pub open spec fn scaled(a: int, b: int) -> i32 {
    saturate(round_div(a * b, UNIT as int))
}

/// The bounds for an aspect ratio and a zoom level, both in millionths:
/// `aspect * zoom` to either side, `zoom` up and down.
pub open spec fn projection_bounds(aspect_ratio: i32, zoom_level: i32) -> Bounds {
    Bounds {
        left: saturate(-scaled(aspect_ratio as int, zoom_level as int)),
        right: scaled(aspect_ratio as int, zoom_level as int),
        bottom: saturate(-zoom_level),
        top: zoom_level,
    }
}

/// The aspect ratio of a target, in millionths.
pub open spec fn aspect_of(width: i32, height: i32) -> i32 {
    saturate(round_div(width * UNIT, height as int))
}

/// The translation speed at a zoom level: the zoom level per second, in
/// millionths per millisecond, rounded towards zero.
pub open spec fn speed_for(zoom_level: i32) -> i32 {
    if zoom_level >= 0 {
        (zoom_level / 1000) as i32
    } else {
        (-((-zoom_level) / 1000)) as i32
    }
}

/// The direction the arrow keys ask for: left before right before up
/// before down.
pub open spec fn pan_direction(flags: u32) -> Option<Pan> {
    if is_pressed(flags, KeyKind::ArrowLeft) {
        Some(Pan::Left)
    } else if is_pressed(flags, KeyKind::ArrowRight) {
        Some(Pan::Right)
    } else if is_pressed(flags, KeyKind::ArrowUp) {
        Some(Pan::Up)
    } else if is_pressed(flags, KeyKind::ArrowDown) {
        Some(Pan::Down)
    } else {
        None
    }
}

/// A position moved by `distance` in direction `pan` as seen by a camera
/// with the given heading: right is along the heading, up a quarter turn
/// counter-clockwise from it.
pub open spec fn panned(position: Vec3, pan: Option<Pan>, heading: Heading, distance: int) -> Vec3 {
    let along = round_div(heading.cos * distance, UNIT as int);
    let across = round_div(heading.sin * distance, UNIT as int);
    match pan {
        Some(Pan::Left) => Vec3 {
            x: saturate(position.x - along),
            y: saturate(position.y - across),
            z: position.z,
        },
        Some(Pan::Right) => Vec3 {
            x: saturate(position.x + along),
            y: saturate(position.y + across),
            z: position.z,
        },
        Some(Pan::Up) => Vec3 {
            x: saturate(position.x - across),
            y: saturate(position.y + along),
            z: position.z,
        },
        Some(Pan::Down) => Vec3 {
            x: saturate(position.x + across),
            y: saturate(position.y - along),
            z: position.z,
        },
        None => position,
    }
}

fn scale(a: i32, b: i32) -> (r: i32)
    ensures
        r == scaled(a as int, b as int),
{
    proof {
        lemma_product_bound(a as int, b as int, 0x8000_0000, 0x8000_0000);
    }
    saturate_i128(div_round((a as i128) * (b as i128), UNIT as i128))
}

fn negate(v: i32) -> (r: i32)
    ensures
        r == saturate(-v),
{
    saturate_i128(-(v as i128))
}

/// A camera that looks straight at the plane.
#[derive(Clone, Copy, Debug, PartialEq, Eq)]
pub struct OrthographicCamera {
    /// Where the camera is.
    pub position: Vec3,
    /// How far the camera is turned, in millionths of a degree.
    pub rotation: i32,
    /// What the projection shows.
    pub projection: Bounds,
    /// The position the view was last worked out for.
    pub view_position: Vec3,
    /// The rotation the view was last worked out for.
    pub view_rotation: i32,
}

impl OrthographicCamera {
    /// A camera at the origin, not turned, that shows the given bounds.
    pub fn new(left: i32, right: i32, bottom: i32, top: i32) -> (r: Self)
        ensures
            r == (OrthographicCamera {
                position: Vec3 { x: 0, y: 0, z: 0 },
                rotation: 0,
                projection: Bounds { left, right, bottom, top },
                view_position: Vec3 { x: 0, y: 0, z: 0 },
                view_rotation: 0,
            }),
    {
        OrthographicCamera {
            position: Vec3 { x: 0, y: 0, z: 0 },
            rotation: 0,
            projection: Bounds { left, right, bottom, top },
            view_position: Vec3 { x: 0, y: 0, z: 0 },
            view_rotation: 0,
        }
    }

    pub fn set_projection(&mut self, left: i32, right: i32, bottom: i32, top: i32)
        ensures
            *final(self) == (OrthographicCamera {
                projection: Bounds { left, right, bottom, top },
                ..*old(self)
            }),
    {
        self.projection = Bounds { left, right, bottom, top };
    }

    /// Brings the view up to date with position and rotation.
    pub fn recalculate_view(&mut self)
        ensures
            *final(self) == (OrthographicCamera {
                view_position: old(self).position,
                view_rotation: old(self).rotation,
                ..*old(self)
            }),
    {
        self.view_position = self.position;
        self.view_rotation = self.rotation;
    }

    pub fn get_rotation(&self) -> (r: i32)
        ensures
            r == self.rotation,
    {
        self.rotation
    }

    /// Turns the camera. The view follows when it is next worked out.
    pub fn set_rotation(&mut self, rotation: i32)
        ensures
            *final(self) == (OrthographicCamera { rotation, ..*old(self) }),
    {
        self.rotation = rotation;
    }

    /// Moves the camera and brings the view up to date.
    pub fn set_position(&mut self, position: Vec3)
        ensures
            *final(self) == (OrthographicCamera {
                position,
                view_position: position,
                view_rotation: old(self).rotation,
                ..*old(self)
            }),
    {
        self.position = position;
        self.recalculate_view();
    }

    pub fn get_position(&self) -> (r: &Vec3)
        ensures
            *r == self.position,
    {
        &self.position
    }
}

/// Steers a camera: keeps its projection fitted to the target and moves
/// it with the arrow keys.
#[derive(Clone, Copy, Debug, PartialEq, Eq)]
pub struct OrthographicCameraController {
    /// Width over height of the target, in millionths.
    pub aspect_ratio: i32,
    /// Half the height of what is shown, in millionths of a world unit.
    pub zoom_level: i32,
    pub camera: OrthographicCamera,
    /// Whether the camera may be turned.
    pub rotation: bool,
    /// In millionths of a degree per millisecond.
    pub camera_rotation_speed: i32,
    /// In millionths of a world unit per millisecond.
    pub camera_translation_speed: i32,
}

impl OrthographicCameraController {
    /// A controller for a target of the given aspect ratio, in
    /// millionths, at zoom level one.
    pub fn new(aspect_ratio: i32, rotation: bool) -> (r: Self)
        ensures
            r == (OrthographicCameraController {
                aspect_ratio,
                zoom_level: UNIT,
                camera: OrthographicCamera {
                    position: Vec3 { x: 0, y: 0, z: 0 },
                    rotation: 0,
                    projection: projection_bounds(aspect_ratio, UNIT),
                    view_position: Vec3 { x: 0, y: 0, z: 0 },
                    view_rotation: 0,
                },
                rotation,
                camera_rotation_speed: 180_000,
                camera_translation_speed: 1000,
            }),
    {
        let zoom_level = UNIT;
        let half_width = scale(aspect_ratio, zoom_level);
        let camera = OrthographicCamera::new(
            negate(half_width),
            half_width,
            negate(zoom_level),
            zoom_level,
        );
        OrthographicCameraController {
            aspect_ratio,
            zoom_level,
            camera,
            rotation,
            camera_rotation_speed: 180_000,
            camera_translation_speed: 1000,
        }
    }

    pub fn get_camera(&self) -> (r: &OrthographicCamera)
        ensures
            *r == self.camera,
    {
        &self.camera
    }

    /// The controller after `delta` milliseconds with the keys held as
    /// `flags` say, for a camera that looks along `heading`.
    pub open spec fn spec_update(self, delta: u32, flags: u32, heading: Heading)
        -> OrthographicCameraController {
        let position = panned(
            self.camera.position,
            pan_direction(flags),
            heading,
            self.camera_translation_speed * delta,
        );
        OrthographicCameraController {
            camera: OrthographicCamera {
                position,
                view_position: position,
                view_rotation: self.camera.rotation,
                ..self.camera
            },
            camera_translation_speed: speed_for(self.zoom_level),
            ..self
        }
    }

    /// The controller after the target took the given size. A target
    /// without height has no aspect ratio: nothing changes.
    pub open spec fn spec_resize(self, width: i32, height: i32) -> OrthographicCameraController {
        if height > 0 {
            OrthographicCameraController {
                aspect_ratio: aspect_of(width, height),
                camera: OrthographicCamera {
                    projection: projection_bounds(aspect_of(width, height), self.zoom_level),
                    ..self.camera
                },
                ..self
            }
        } else {
            self
        }
    }

    /// Moves the camera for `delta` milliseconds in the direction the
    /// arrow keys ask for, at the translation speed, which from then on is
    /// the zoom level per second. `heading` is the cosine and sine of the
    /// camera's rotation.
    pub fn update(&mut self, delta: u32, input: &InputState, heading: Heading)
        ensures
            *final(self) == old(self).spec_update(delta, input.flags(), heading),
    {
        let speed: i128 = self.camera_translation_speed as i128;
        proof {
            lemma_product_bound(speed as int, delta as int, 0x8000_0000, 0x1_0000_0000);
        }
        let distance: i128 = speed * (delta as i128);
        proof {
            lemma_product_bound(
                heading.cos as int,
                distance as int,
                0x8000_0000,
                0x8000_0000_0000_0000,
            );
            lemma_product_bound(
                heading.sin as int,
                distance as int,
                0x8000_0000,
                0x8000_0000_0000_0000,
            );
            lemma_round_div_bounded(
                heading.cos * distance,
                UNIT as int,
                0x4000_0000_0000_0000_0000_0000,
            );
            lemma_round_div_bounded(
                heading.sin * distance,
                UNIT as int,
                0x4000_0000_0000_0000_0000_0000,
            );
        }
        let along: i128 = div_round((heading.cos as i128) * distance, UNIT as i128);
        let across: i128 = div_round((heading.sin as i128) * distance, UNIT as i128);
        let position = self.camera.position;
        let x: i128 = position.x as i128;
        let y: i128 = position.y as i128;
        let new_position = if input.is_key_pressed(&KeyKind::ArrowLeft) {
            Vec3 { x: saturate_i128(x - along), y: saturate_i128(y - across), z: position.z }
        } else if input.is_key_pressed(&KeyKind::ArrowRight) {
            Vec3 { x: saturate_i128(x + along), y: saturate_i128(y + across), z: position.z }
        } else if input.is_key_pressed(&KeyKind::ArrowUp) {
            Vec3 { x: saturate_i128(x - across), y: saturate_i128(y + along), z: position.z }
        } else if input.is_key_pressed(&KeyKind::ArrowDown) {
            Vec3 { x: saturate_i128(x + across), y: saturate_i128(y - along), z: position.z }
        } else {
            position
        };
        self.camera.set_position(new_position);
        self.camera_translation_speed = self.zoom_level / 1000;
    }

    /// Fits the projection to a target of the given size.
    pub fn resize(&mut self, width: i32, height: i32)
        ensures
            *final(self) == old(self).spec_resize(width, height),
    {
        if height > 0 {
            proof {
                lemma_product_bound(width as int, UNIT as int, 0x8000_0000, 1_000_000);
            }
            let scaled_width: i128 = (width as i128) * (UNIT as i128);
            self.aspect_ratio = saturate_i128(div_round(scaled_width, height as i128));
            let half_width = scale(self.aspect_ratio, self.zoom_level);
            self.camera.set_projection(
                negate(half_width),
                half_width,
                negate(self.zoom_level),
                self.zoom_level,
            );
        }
    }
}

} // verus!
