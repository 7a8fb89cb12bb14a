//! The ball and how it meets a surface.

use crate::fixed::clamp;
use crate::motion::{
    FIELD_MAX, FIELD_MIN, advance, advanced, clamp_position_2d, clamped_position,
};
use crate::physics::{
    Surface, Vec2, calculate_bounce_velocity, distance_squared, lemma_product_bound,
};
use vstd::prelude::*;

verus! {

/// The horizontal velocity a ball starts with.
pub const DEFAULT_X_VELO: i32 = -1000;

/// The vertical velocity a ball starts with.
pub const DEFAULT_Y_VELO: i32 = 300;

/// The largest speed a ball keeps along either axis.
pub const MAX_SPEED: i32 = 2000;

/// A ball as plain values.
pub struct BallView {
    pub id: u64,
    pub radius: i32,
    pub position: Vec2,
    pub velocity: Vec2,
}

impl BallView {
    /// The ball back at the centre with its starting velocity.
    pub open spec fn reset(self) -> BallView {
        BallView {
            position: Vec2 { x: 0, y: 0 },
            velocity: Vec2 { x: DEFAULT_X_VELO, y: DEFAULT_Y_VELO },
            ..self
        }
    }

    pub open spec fn apply_velocity(self, delta: u32) -> BallView {
        BallView { position: advanced(self.position, self.velocity, delta), ..self }
    }

    pub open spec fn clamp_position(self) -> BallView {
        BallView {
            position: clamped_position(
                self.position,
                FIELD_MIN as int,
                FIELD_MAX as int,
                FIELD_MIN as int,
                FIELD_MAX as int,
                self.radius as int,
                self.radius as int,
            ),
            ..self
        }
    }

    pub open spec fn clamp_velocity(self) -> BallView {
        BallView {
            velocity: Vec2 {
                x: clamp(self.velocity.x as int, -MAX_SPEED, MAX_SPEED as int) as i32,
                y: clamp(self.velocity.y as int, -MAX_SPEED, MAX_SPEED as int) as i32,
            },
            ..self
        }
    }

    /// Whether the ball touches the surface: the point of the surface
    /// nearest to the ball's centre is no farther from it than the radius.
    pub open spec fn collides(self, surface: Surface) -> bool {
        self.radius >= 0 && distance_squared(surface.closest_point(self.position), self.position)
            <= self.radius * self.radius
    }

    /// A ball that touches the surface leaves it with its velocity
    /// mirrored; its position stays.
    pub open spec fn resolve_collision(self, surface: Surface) -> BallView {
        if self.collides(surface) {
            BallView { velocity: surface.reflect(self.velocity), ..self }
        } else {
            self
        }
    }
}

/// The six vertices of a ball's two triangles, five numbers each: x, y,
/// red, green, blue, all in millionths.
pub open spec fn ball_vertices() -> Seq<i32> {
    seq![
        -1_000_000i32, -1_000_000i32, 1_000_000, 1_000_000, 1_000_000,
        1_000_000, 1_000_000, 1_000_000, 1_000_000, 1_000_000,
        1_000_000, -1_000_000i32, 1_000_000, 1_000_000, 1_000_000,
        -1_000_000i32, -1_000_000i32, 1_000_000, 1_000_000, 1_000_000,
        1_000_000, 1_000_000, 1_000_000, 1_000_000, 1_000_000,
        -1_000_000i32, 1_000_000, 1_000_000, 1_000_000, 1_000_000,
    ]
}

/// The ball.
#[derive(Clone, Copy, Debug)]
pub struct Ball {
    id: u64,
    radius: i32,
    position: Vec2,
    velocity: Vec2,
}

impl View for Ball {
    type V = BallView;

    closed spec fn view(&self) -> BallView {
        BallView {
            id: self.id,
            radius: self.radius,
            position: self.position,
            velocity: self.velocity,
        }
    }
}

impl Ball {
    pub fn new(id: u64, radius: i32) -> (r: Self)
        ensures
            r@ == (BallView {
                id,
                radius,
                position: Vec2 { x: 0, y: 0 },
                velocity: Vec2 { x: DEFAULT_X_VELO, y: DEFAULT_Y_VELO },
            }),
    {
        Ball {
            id,
            radius,
            position: Vec2 { x: 0, y: 0 },
            velocity: Vec2 { x: DEFAULT_X_VELO, y: DEFAULT_Y_VELO },
        }
    }

    /// A ball with the given position and velocity.
    pub fn with_motion(id: u64, radius: i32, position: Vec2, velocity: Vec2) -> (r: Self)
        ensures
            r@ == (BallView { id, radius, position, velocity }),
    {
        Ball { id, radius, position, velocity }
    }

    pub fn reset(&mut self)
        ensures
            final(self)@ == old(self)@.reset(),
    {
        self.position = Vec2 { x: 0, y: 0 };
        self.velocity = Vec2 { x: DEFAULT_X_VELO, y: DEFAULT_Y_VELO };
    }

    pub fn id(&self) -> (r: u64)
        ensures
            r == self@.id,
    {
        self.id
    }

    pub fn radius(&self) -> (r: i32)
        ensures
            r == self@.radius,
    {
        self.radius
    }

    pub fn position(&self) -> (r: Vec2)
        ensures
            r == self@.position,
    {
        self.position
    }

    pub fn velocity(&self) -> (r: Vec2)
        ensures
            r == self@.velocity,
    {
        self.velocity
    }

    /// The vertex template of a ball: a square of two triangles that
    /// covers the field, five numbers a vertex.
    pub fn vertices(&self) -> (r: [i32; 30])
        ensures
            r@ == ball_vertices(),
    {
        let vertices: [i32; 30] = [
            -1_000_000,
            -1_000_000,
            1_000_000,
            1_000_000,
            1_000_000,
            1_000_000,
            1_000_000,
            1_000_000,
            1_000_000,
            1_000_000,
            1_000_000,
            -1_000_000,
            1_000_000,
            1_000_000,
            1_000_000,
            -1_000_000,
            -1_000_000,
            1_000_000,
            1_000_000,
            1_000_000,
            1_000_000,
            1_000_000,
            1_000_000,
            1_000_000,
            1_000_000,
            -1_000_000,
            1_000_000,
            1_000_000,
            1_000_000,
            1_000_000,
        ];
        assert(vertices@ =~= ball_vertices());
        vertices
    }

    /// Moves the ball back into the field. The simulation does not do this
    /// by itself: a ball that leaves the field scores.
    pub fn clamp_position(&mut self)
        ensures
            final(self)@ == old(self)@.clamp_position(),
    {
        self.position = clamp_position_2d(
            self.position,
            FIELD_MIN,
            FIELD_MAX,
            FIELD_MIN,
            FIELD_MAX,
            self.radius,
            self.radius,
        );
    }

    pub fn clamp_velocity(&mut self)
        ensures
            final(self)@ == old(self)@.clamp_velocity(),
    {
        self.velocity = Vec2 {
            x: clamp_speed(self.velocity.x),
            y: clamp_speed(self.velocity.y),
        };
    }

    pub fn apply_velocity(&mut self, delta: u32)
        ensures
            final(self)@ == old(self)@.apply_velocity(delta),
    {
        self.position = advance(self.position, self.velocity, delta);
    }
}

fn clamp_speed(v: i32) -> (r: i32)
    ensures
        r == clamp(v as int, -MAX_SPEED, MAX_SPEED as int),
{
    if v < -MAX_SPEED {
        -MAX_SPEED
    } else if v > MAX_SPEED {
        MAX_SPEED
    } else {
        v
    }
}

/// Whether the ball touches the surface.
pub fn check_collision(ball: &Ball, surface: &Surface) -> (r: bool)
    ensures
        r == ball@.collides(*surface),
{
    let pos = ball.position;
    let closest = surface.find_closest_point(&pos);
    let dx: i128 = closest.x as i128 - pos.x as i128;
    let dy: i128 = closest.y as i128 - pos.y as i128;
    let radius: i128 = ball.radius as i128;
    proof {
        lemma_product_bound(dx as int, dx as int, 0x1_0000_0000, 0x1_0000_0000);
        lemma_product_bound(dy as int, dy as int, 0x1_0000_0000, 0x1_0000_0000);
        lemma_product_bound(radius as int, radius as int, 0x1_0000_0000, 0x1_0000_0000);
    }
    let distance: i128 = dx * dx + dy * dy;
    if radius >= 0 && distance <= radius * radius {
        return true;
    }
    false
}

/// Lets the ball bounce off the surface if it touches it. `factor` has no
/// effect.
pub fn resolve_collision(ball: &mut Ball, surface: &Surface, factor: i32)
    ensures
        final(ball)@ == old(ball)@.resolve_collision(*surface),
{
    if check_collision(ball, surface) {
        ball.velocity = calculate_bounce_velocity(surface, ball.velocity, factor);
    }
}

} // verus!
