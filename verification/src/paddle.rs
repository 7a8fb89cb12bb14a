//! Paddles: bodies that move up and down and never leave the field.

use crate::fixed::{saturate, saturate_i64, signum};
use crate::motion::{
    FIELD_MAX, FIELD_MIN, advance, advanced, clamp_position_2d, clamped_position, half, half_of,
    lemma_clamp_axis_within,
};
use crate::physics::{Surface, Vec2};
use vstd::prelude::*;

verus! {

/// The width of a paddle.
pub const PADDLE_WIDTH: i32 = 30_000;

/// The height of a paddle.
pub const PADDLE_HEIGHT: i32 = 200_000;

/// A paddle as plain values.
pub struct PaddleView {
    pub id: u64,
    pub width: i32,
    pub height: i32,
    pub position: Vec2,
    pub velocity: Vec2,
}

impl PaddleView {
    /// The paddle moved back into the field: no edge of it sticks out.
    pub open spec fn clamp_position(self) -> PaddleView {
        PaddleView {
            position: clamped_position(
                self.position,
                FIELD_MIN as int,
                FIELD_MAX as int,
                FIELD_MIN as int,
                FIELD_MAX as int,
                half(self.width as int),
                half(self.height as int),
            ),
            ..self
        }
    }

    pub open spec fn move_position(self, new_pos: Vec2) -> PaddleView {
        PaddleView { position: new_pos, ..self }.clamp_position()
    }

    pub open spec fn move_y(self, y_pos: i32) -> PaddleView {
        self.move_position(Vec2 { x: self.position.x, y: y_pos })
    }

    pub open spec fn reset(self) -> PaddleView {
        self.move_y(0)
    }

    pub open spec fn apply_velocity(self, delta: u32) -> PaddleView {
        self.move_position(advanced(self.position, self.velocity, delta))
    }

    /// The paddle after moving down for `delta` milliseconds: a velocity
    /// that points up is turned around first.
    pub open spec fn move_down(self, delta: u32) -> PaddleView {
        PaddleView {
            velocity: Vec2 {
                x: self.velocity.x,
                y: if self.velocity.y > 0 {
                    (-self.velocity.y) as i32
                } else {
                    self.velocity.y
                },
            },
            ..self
        }.apply_velocity(delta)
    }

    /// The paddle after moving up for `delta` milliseconds: a velocity
    /// that points down is turned around first.
    pub open spec fn move_up(self, delta: u32) -> PaddleView {
        PaddleView {
            velocity: Vec2 {
                x: self.velocity.x,
                y: if self.velocity.y < 0 {
                    saturate(-self.velocity.y)
                } else {
                    self.velocity.y
                },
            },
            ..self
        }.apply_velocity(delta)
    }

    /// The edge of the paddle that faces `target_pos`, from its lower to
    /// its upper end: the left edge if the target is to the left of the
    /// paddle's centre, else the right edge.
    pub open spec fn surface(self, target_pos: Vec2) -> Surface {
        let x = saturate(
            self.position.x + signum(target_pos.x - self.position.x) * half(self.width as int),
        );
        Surface {
            a: Vec2 { x, y: saturate(self.position.y - half(self.height as int)) },
            b: Vec2 { x, y: saturate(self.position.y + half(self.height as int)) },
        }
    }

    /// Whether the paddle lies within the field, no edge sticking out.
    pub open spec fn in_field(self) -> bool {
        &&& FIELD_MIN + half(self.width as int) <= self.position.x <= FIELD_MAX - half(
            self.width as int,
        )
        &&& FIELD_MIN + half(self.height as int) <= self.position.y <= FIELD_MAX - half(
            self.height as int,
        )
    }

    /// A paddle that fits into the field lies within it after every kind
    /// of move, for any time and any velocity.
    pub proof fn lemma_every_move_stays_in_field(self, delta: u32, y_pos: i32)
        requires
            0 <= self.height <= 2 * FIELD_MAX,
            0 <= self.width <= 2 * FIELD_MAX,
        ensures
            self.clamp_position().in_field(),
            self.apply_velocity(delta).in_field(),
            self.move_up(delta).in_field(),
            self.move_down(delta).in_field(),
            self.move_y(y_pos).in_field(),
            self.reset().in_field(),
    {
        self.lemma_move_stays_in_field(self.position);
        self.lemma_move_stays_in_field(advanced(self.position, self.velocity, delta));
        self.lemma_move_stays_in_field(Vec2 { x: self.position.x, y: y_pos });
        self.lemma_move_stays_in_field(Vec2 { x: self.position.x, y: 0 });
        let up = PaddleView {
            velocity: Vec2 {
                x: self.velocity.x,
                y: if self.velocity.y < 0 {
                    saturate(-self.velocity.y)
                } else {
                    self.velocity.y
                },
            },
            ..self
        };
        up.lemma_move_stays_in_field(advanced(up.position, up.velocity, delta));
        let down = PaddleView {
            velocity: Vec2 {
                x: self.velocity.x,
                y: if self.velocity.y > 0 {
                    (-self.velocity.y) as i32
                } else {
                    self.velocity.y
                },
            },
            ..self
        };
        down.lemma_move_stays_in_field(advanced(down.position, down.velocity, delta));
    }

    /// After any move a paddle that fits into the field lies within it,
    /// and a move that would take it past an edge ends at that edge.
    pub proof fn lemma_move_stays_in_field(self, new_pos: Vec2)
        requires
            0 <= self.height <= 2 * FIELD_MAX,
            0 <= self.width <= 2 * FIELD_MAX,
        ensures
            ({
                let moved = self.move_position(new_pos);
                let reach_x = half(self.width as int);
                let reach_y = half(self.height as int);
                &&& FIELD_MIN + reach_x <= moved.position.x <= FIELD_MAX - reach_x
                &&& FIELD_MIN + reach_y <= moved.position.y <= FIELD_MAX - reach_y
                &&& new_pos.y + reach_y > FIELD_MAX ==> moved.position.y == FIELD_MAX - reach_y
                &&& new_pos.y - reach_y < FIELD_MIN ==> moved.position.y == FIELD_MIN + reach_y
                &&& new_pos.x + reach_x > FIELD_MAX ==> moved.position.x == FIELD_MAX - reach_x
                &&& new_pos.x - reach_x < FIELD_MIN ==> moved.position.x == FIELD_MIN + reach_x
                &&& FIELD_MIN + reach_y <= new_pos.y <= FIELD_MAX - reach_y ==> moved.position.y
                    == new_pos.y
                &&& FIELD_MIN + reach_x <= new_pos.x <= FIELD_MAX - reach_x ==> moved.position.x
                    == new_pos.x
            }),
    {
        lemma_clamp_axis_within(
            new_pos.x as int,
            FIELD_MIN as int,
            FIELD_MAX as int,
            half(self.width as int),
        );
        lemma_clamp_axis_within(
            new_pos.y as int,
            FIELD_MIN as int,
            FIELD_MAX as int,
            half(self.height as int),
        );
    }
}

/// The six vertices of a paddle's two triangles around its centre, five
/// numbers each: x, y, red, green, blue, all in millionths.
pub open spec fn paddle_vertices() -> Seq<i32> {
    seq![
        -15_000i32, -100_000i32, 1_000_000, 1_000_000, 1_000_000,
        15_000, 100_000, 1_000_000, 1_000_000, 1_000_000,
        15_000, -100_000i32, 1_000_000, 1_000_000, 1_000_000,
        -15_000i32, -100_000i32, 1_000_000, 1_000_000, 1_000_000,
        15_000, 100_000, 1_000_000, 1_000_000, 1_000_000,
        -15_000i32, 100_000, 1_000_000, 1_000_000, 1_000_000,
    ]
}

/// A paddle.
#[derive(Clone, Copy, Debug)]
pub struct Paddle {
    id: u64,
    width: i32,
    height: i32,
    position: Vec2,
    velocity: Vec2,
}

impl View for Paddle {
    type V = PaddleView;

    closed spec fn view(&self) -> PaddleView {
        PaddleView {
            id: self.id,
            width: self.width,
            height: self.height,
            position: self.position,
            velocity: self.velocity,
        }
    }
}

impl Paddle {
    /// A paddle at `position`, moved into the field if it sticks out.
    /// `auto` has no effect: who steers a paddle is its player's matter.
    pub fn new(id: u64, position: Vec2, velocity: Vec2, width: i32, height: i32, auto: bool) -> (r:
        Self)
        ensures
            r@ == (PaddleView { id, width, height, position, velocity }).clamp_position(),
    {
        let mut paddle = Paddle { id, width, height, position, velocity };
        paddle.clamp_position();
        paddle
    }

    pub fn reset(&mut self)
        ensures
            final(self)@ == old(self)@.reset(),
    {
        self.move_y(0);
    }

    pub fn id(&self) -> (r: u64)
        ensures
            r == self@.id,
    {
        self.id
    }

    pub fn width(&self) -> (r: i32)
        ensures
            r == self@.width,
    {
        self.width
    }

    pub fn height(&self) -> (r: i32)
        ensures
            r == self@.height,
    {
        self.height
    }

    pub fn position(&self) -> (r: Vec2)
        ensures
            r == self@.position,
    {
        self.position
    }

    pub fn velocity(&self) -> (r: Vec2)
        ensures
            r == self@.velocity,
    {
        self.velocity
    }

    /// The vertex template, the same for every paddle.
    pub fn vertices(&self) -> (r: [i32; 30])
        ensures
            r@ == paddle_vertices(),
    {
        let vertices: [i32; 30] = [
            -15_000,
            -100_000,
            1_000_000,
            1_000_000,
            1_000_000,
            15_000,
            100_000,
            1_000_000,
            1_000_000,
            1_000_000,
            15_000,
            -100_000,
            1_000_000,
            1_000_000,
            1_000_000,
            -15_000,
            -100_000,
            1_000_000,
            1_000_000,
            1_000_000,
            15_000,
            100_000,
            1_000_000,
            1_000_000,
            1_000_000,
            -15_000,
            100_000,
            1_000_000,
            1_000_000,
            1_000_000,
        ];
        assert(vertices@ =~= paddle_vertices());
        vertices
    }

    pub fn apply_velocity(&mut self, delta: u32)
        ensures
            final(self)@ == old(self)@.apply_velocity(delta),
    {
        self.position = advance(self.position, self.velocity, delta);
        self.clamp_position();
    }

    pub fn move_down(&mut self, delta: u32)
        ensures
            final(self)@ == old(self)@.move_down(delta),
    {
        if self.velocity.y > 0 {
            self.velocity.y = -self.velocity.y;
        }
        self.apply_velocity(delta);
    }

    pub fn move_up(&mut self, delta: u32)
        ensures
            final(self)@ == old(self)@.move_up(delta),
    {
        if self.velocity.y < 0 {
            self.velocity.y = saturate_i64(-(self.velocity.y as i64));
        }
        self.apply_velocity(delta);
    }

    pub fn move_y(&mut self, y_pos: i32)
        ensures
            final(self)@ == old(self)@.move_y(y_pos),
    {
        self.move_position(Vec2 { x: self.position.x, y: y_pos });
    }

    pub fn move_position(&mut self, new_pos: Vec2)
        ensures
            final(self)@ == old(self)@.move_position(new_pos),
    {
        self.position = new_pos;
        self.clamp_position();
    }

    pub fn clamp_position(&mut self)
        ensures
            final(self)@ == old(self)@.clamp_position(),
    {
        self.position = clamp_position_2d(
            self.position,
            FIELD_MIN,
            FIELD_MAX,
            FIELD_MIN,
            FIELD_MAX,
            half_of(self.width),
            half_of(self.height),
        );
    }

    /// The edge of the paddle that faces `target_pos`.
    pub fn surface(&self, target_pos: Vec2) -> (r: Surface)
        ensures
            r == self@.surface(target_pos),
    {
        let y_offset: i64 = half_of(self.height) as i64;
        let x_offset: i64 = half_of(self.width) as i64;
        let x = if target_pos.x >= self.position.x {
            saturate_i64(self.position.x as i64 + x_offset)
        } else {
            saturate_i64(self.position.x as i64 - x_offset)
        };
        Surface {
            a: Vec2 { x, y: saturate_i64(self.position.y as i64 - y_offset) },
            b: Vec2 { x, y: saturate_i64(self.position.y as i64 + y_offset) },
        }
    }
}

} // verus!
