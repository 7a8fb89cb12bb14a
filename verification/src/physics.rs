//! Surfaces: directed line segments that the ball bounces off.

use crate::fixed::{
    clamp, div_round, lemma_round_div_bounded, lemma_round_div_exact, lemma_round_div_is_nearest,
    round_div, saturate, saturate_i128,
};
use vstd::prelude::*;

verus! {

/// A point or a vector in the plane, in millionths of a world unit (or,
/// for a velocity, millionths per millisecond).
#[derive(Clone, Copy, Debug, PartialEq, Eq, Structural)]
pub struct Vec2 {
    pub x: i32,
    pub y: i32,
}

impl Vec2 {
    pub fn new(x: i32, y: i32) -> (r: Self)
        ensures
            r == (Vec2 { x, y }),
    {
        Vec2 { x, y }
    }
}

/// The scalar product of two vectors.
pub open spec fn dot(ax: int, ay: int, bx: int, by: int) -> int {
    ax * bx + ay * by
}

/// The square of the distance between two points.
pub open spec fn distance_squared(p: Vec2, q: Vec2) -> int {
    dot(p.x - q.x, p.y - q.y, p.x - q.x, p.y - q.y)
}

/// The product of two bounded numbers is bounded by the product of the
/// bounds.
pub proof fn lemma_product_bound(a: int, b: int, bound_a: int, bound_b: int)
    by (nonlinear_arith)
    requires
        -bound_a <= a <= bound_a,
        -bound_b <= b <= bound_b,
    ensures
        -(bound_a * bound_b) <= a * b <= bound_a * bound_b,
{
}

/// A directed line segment from `a` to `b`. Its normal is the direction
/// turned a quarter turn counter-clockwise; a segment with `a == b` is
/// degenerate and has none.
#[derive(Clone, Copy, Debug, PartialEq, Eq, Structural)]
pub struct Surface {
    pub a: Vec2,
    pub b: Vec2,
}

impl Surface {
    /// The square of the segment's length.
    pub open spec fn length_squared(self) -> int {
        distance_squared(self.b, self.a)
    }

    /// How far along the segment the point nearest to `p` lies, as a
    /// multiple of `1 / length_squared()`: the projection of `p` onto the
    /// line, held between the two ends.
    pub open spec fn projection(self, p: Vec2) -> int {
        clamp(
            dot(self.b.x - self.a.x, self.b.y - self.a.y, p.x - self.a.x, p.y - self.a.y),
            0,
            self.length_squared(),
        )
    }

    /// The point of the segment nearest to `p`, each coordinate rounded to
    /// the nearest millionth. A degenerate segment is the single point `a`.
    pub open spec fn closest_point(self, p: Vec2) -> Vec2 {
        if self.length_squared() == 0 {
            self.a
        } else {
            Vec2 {
                x: (self.a.x + round_div(
                    (self.b.x - self.a.x) * self.projection(p),
                    self.length_squared(),
                )) as i32,
                y: (self.a.y + round_div(
                    (self.b.y - self.a.y) * self.projection(p),
                    self.length_squared(),
                )) as i32,
            }
        }
    }

    /// One coordinate of the closest point lies between the same
    /// coordinates of the two ends.
    pub proof fn lemma_coordinate_between(from: int, to: int, t: int, d: int)
        requires
            0 < d,
            0 <= t <= d,
        ensures
            from <= to ==> from <= from + round_div((to - from) * t, d) <= to,
            from >= to ==> to <= from + round_div((to - from) * t, d) <= from,
            t == 0 ==> from + round_div((to - from) * t, d) == from,
            t == d ==> from + round_div((to - from) * t, d) == to,
    {
        let step = to - from;
        let n = step * t;
        let m = if step >= 0 {
            step
        } else {
            -step
        };
        lemma_product_bound(step, t, m, d);
        lemma_round_div_bounded(n, d, m);
        lemma_round_div_is_nearest(n, d);
        assert(step >= 0 ==> n >= 0) by (nonlinear_arith)
            requires
                n == step * t,
                0 <= t,
        ;
        assert(step <= 0 ==> n <= 0) by (nonlinear_arith)
            requires
                n == step * t,
                0 <= t,
        ;
        if t == 0 {
            assert(n == 0) by (nonlinear_arith)
                requires
                    n == step * t,
                    t == 0,
            ;
        }
        if t == d {
            lemma_round_div_exact(step, d);
        }
    }

    /// The point of the segment nearest to `p`.
    pub fn find_closest_point(&self, p: &Vec2) -> (r: Vec2)
        ensures
            r == self.closest_point(*p),
            self.a == self.b ==> r == self.a,
            self.a.x <= self.b.x ==> self.a.x <= r.x <= self.b.x,
            self.a.x >= self.b.x ==> self.b.x <= r.x <= self.a.x,
            self.a.y <= self.b.y ==> self.a.y <= r.y <= self.b.y,
            self.a.y >= self.b.y ==> self.b.y <= r.y <= self.a.y,
    {
        let abx: i128 = self.b.x as i128 - self.a.x as i128;
        let aby: i128 = self.b.y as i128 - self.a.y as i128;
        let wx: i128 = p.x as i128 - self.a.x as i128;
        let wy: i128 = p.y as i128 - self.a.y as i128;
        proof {
            lemma_product_bound(abx as int, abx as int, 0x1_0000_0000, 0x1_0000_0000);
            lemma_product_bound(aby as int, aby as int, 0x1_0000_0000, 0x1_0000_0000);
            lemma_product_bound(abx as int, wx as int, 0x1_0000_0000, 0x1_0000_0000);
            lemma_product_bound(aby as int, wy as int, 0x1_0000_0000, 0x1_0000_0000);
            assert(abx * abx >= 0 && aby * aby >= 0) by (nonlinear_arith);
        }
        let ab2: i128 = abx * abx + aby * aby;
        if ab2 == 0 {
            return self.a;
        }
        let along: i128 = abx * wx + aby * wy;
        let t: i128 = if along < 0 {
            0
        } else if along > ab2 {
            ab2
        } else {
            along
        };
        proof {
            assert(t == self.projection(*p));
            lemma_product_bound(abx as int, t as int, 0x1_0000_0000, 0x2_0000_0000_0000_0000);
            lemma_product_bound(aby as int, t as int, 0x1_0000_0000, 0x2_0000_0000_0000_0000);
            Self::lemma_coordinate_between(self.a.x as int, self.b.x as int, t as int, ab2 as int);
            Self::lemma_coordinate_between(self.a.y as int, self.b.y as int, t as int, ab2 as int);
        }
        let x: i128 = self.a.x as i128 + div_round(abx * t, ab2);
        let y: i128 = self.a.y as i128 + div_round(aby * t, ab2);
        Vec2 { x: x as i32, y: y as i32 }
    }

    /// Every query point has the single point of a degenerate segment as
    /// its closest point.
    pub proof fn lemma_degenerate_closest_point(self, p: Vec2)
        requires
            self.a == self.b,
        ensures
            self.closest_point(p) == self.a,
    {
    }

    /// The closest point lies on the segment's bounding box, and the ends
    /// are their own closest points.
    pub proof fn lemma_closest_point_on_segment(self, p: Vec2)
        ensures
            self.a.x <= self.b.x ==> self.a.x <= self.closest_point(p).x <= self.b.x,
            self.a.x >= self.b.x ==> self.b.x <= self.closest_point(p).x <= self.a.x,
            self.a.y <= self.b.y ==> self.a.y <= self.closest_point(p).y <= self.b.y,
            self.a.y >= self.b.y ==> self.b.y <= self.closest_point(p).y <= self.a.y,
            self.closest_point(self.a) == self.a,
            self.closest_point(self.b) == self.b,
    {
        let d = self.length_squared();
        self.lemma_zero_length();
        if d != 0 {
            let t = self.projection(p);
            Self::lemma_coordinate_between(self.a.x as int, self.b.x as int, t, d);
            Self::lemma_coordinate_between(self.a.y as int, self.b.y as int, t, d);
            assert(self.projection(self.a) == 0) by (nonlinear_arith)
                requires
                    self.projection(self.a) == clamp(
                        (self.b.x - self.a.x) * (self.a.x - self.a.x) + (self.b.y - self.a.y) * (
                        self.a.y - self.a.y),
                        0,
                        d,
                    ),
                    d > 0,
            ;
            assert(self.projection(self.b) == d);
            Self::lemma_coordinate_between(self.a.x as int, self.b.x as int, 0, d);
            Self::lemma_coordinate_between(self.a.y as int, self.b.y as int, 0, d);
            Self::lemma_coordinate_between(self.a.x as int, self.b.x as int, d, d);
            Self::lemma_coordinate_between(self.a.y as int, self.b.y as int, d, d);
        } else {
            self.lemma_zero_length();
        }
    }

    /// Each coordinate of the closest point is the exact projection,
    /// `a + (b - a) * projection / length_squared`, to within half a
    /// millionth.
    pub proof fn lemma_closest_point_is_nearest(self, p: Vec2)
        requires
            self.a != self.b,
        ensures
            ({
                let d = self.length_squared();
                let t = self.projection(p);
                let r = self.closest_point(p);
                &&& d > 0
                &&& 0 <= t <= d
                &&& -d <= 2 * ((r.x - self.a.x) * d - (self.b.x - self.a.x) * t) <= d
                &&& -d <= 2 * ((r.y - self.a.y) * d - (self.b.y - self.a.y) * t) <= d
            }),
    {
        let d = self.length_squared();
        let t = self.projection(p);
        self.lemma_zero_length();
        Self::lemma_coordinate_between(self.a.x as int, self.b.x as int, t, d);
        Self::lemma_coordinate_between(self.a.y as int, self.b.y as int, t, d);
        lemma_round_div_is_nearest((self.b.x - self.a.x) * t, d);
        lemma_round_div_is_nearest((self.b.y - self.a.y) * t, d);
    }

    /// Only a degenerate segment has length zero.
    pub proof fn lemma_zero_length(self)
        ensures
            self.length_squared() == 0 <==> self.a == self.b,
            self.length_squared() >= 0,
    {
        let dx = self.b.x - self.a.x;
        let dy = self.b.y - self.a.y;
        assert(dx * dx + dy * dy >= 0 && (dx * dx + dy * dy == 0 <==> dx == 0 && dy == 0))
            by (nonlinear_arith);
    }
}

impl Surface {
    /// The first coordinate of the normal, not normalised: the direction
    /// from `a` to `b` turned a quarter turn counter-clockwise.
    pub open spec fn normal_x(self) -> int {
        -(self.b.y - self.a.y)
    }

    /// The second coordinate of the normal, not normalised.
    pub open spec fn normal_y(self) -> int {
        self.b.x - self.a.x
    }

    /// Twice the part of `v` along the normal `n`, as a multiple of
    /// `1 / (n . n)`, in the direction of the normal's coordinate `towards`.
    pub open spec fn twice_along_normal(self, v: Vec2, towards: int) -> int {
        2 * dot(self.normal_x(), self.normal_y(), v.x as int, v.y as int) * towards
    }

    /// `v` mirrored at the surface: `v - 2 (v . n) n / (n . n)` for the
    /// normal `n`, each coordinate rounded to the nearest whole number and
    /// kept within `i32`. A degenerate surface has no normal and reflects
    /// nothing.
    pub open spec fn reflect(self, v: Vec2) -> Vec2 {
        if self.length_squared() == 0 {
            v
        } else {
            Vec2 {
                x: saturate(
                    v.x - round_div(
                        self.twice_along_normal(v, self.normal_x()),
                        self.length_squared(),
                    ),
                ),
                y: saturate(
                    v.y - round_div(
                        self.twice_along_normal(v, self.normal_y()),
                        self.length_squared(),
                    ),
                ),
            }
        }
    }

    /// A horizontal surface turns the vertical part of a velocity around
    /// and leaves the horizontal part as it is.
    pub proof fn lemma_reflect_horizontal(self, v: Vec2)
        requires
            self.a.y == self.b.y,
            self.a.x != self.b.x,
        ensures
            self.reflect(v) == (Vec2 { x: v.x, y: saturate(-v.y) }),
            v.y > i32::MIN ==> self.reflect(v) == (Vec2 { x: v.x, y: (-v.y) as i32 }),
    {
        let l = self.b.x - self.a.x;
        let d = self.length_squared();
        self.lemma_zero_length();
        assert(d == l * l) by (nonlinear_arith)
            requires
                d == (self.b.x - self.a.x) * (self.b.x - self.a.x) + (self.b.y - self.a.y) * (
                self.b.y - self.a.y),
                self.a.y == self.b.y,
                l == self.b.x - self.a.x,
        ;
        assert(self.twice_along_normal(v, self.normal_x()) == 0) by (nonlinear_arith)
            requires
                self.normal_x() == 0,
                self.twice_along_normal(v, self.normal_x()) == 2 * (self.normal_x() * v.x
                    + self.normal_y() * v.y) * self.normal_x(),
        ;
        assert(self.twice_along_normal(v, self.normal_y()) == (2 * v.y) * d) by (nonlinear_arith)
            requires
                self.normal_x() == 0,
                self.normal_y() == l,
                d == l * l,
                self.twice_along_normal(v, self.normal_y()) == 2 * (self.normal_x() * v.x
                    + self.normal_y() * v.y) * self.normal_y(),
        ;
        lemma_round_div_exact(0, d);
        assert(0 * d == 0);
        lemma_round_div_exact(2 * v.y, d);
    }

    /// A vertical surface turns the horizontal part of a velocity around
    /// and leaves the vertical part as it is.
    pub proof fn lemma_reflect_vertical(self, v: Vec2)
        requires
            self.a.x == self.b.x,
            self.a.y != self.b.y,
        ensures
            self.reflect(v) == (Vec2 { x: saturate(-v.x), y: v.y }),
            v.x > i32::MIN ==> self.reflect(v) == (Vec2 { x: (-v.x) as i32, y: v.y }),
    {
        let l = self.b.y - self.a.y;
        let d = self.length_squared();
        self.lemma_zero_length();
        assert(d == l * l) by (nonlinear_arith)
            requires
                d == (self.b.x - self.a.x) * (self.b.x - self.a.x) + (self.b.y - self.a.y) * (
                self.b.y - self.a.y),
                self.a.x == self.b.x,
                l == self.b.y - self.a.y,
        ;
        assert(self.twice_along_normal(v, self.normal_y()) == 0) by (nonlinear_arith)
            requires
                self.normal_y() == 0,
                self.twice_along_normal(v, self.normal_y()) == 2 * (self.normal_x() * v.x
                    + self.normal_y() * v.y) * self.normal_y(),
        ;
        assert(self.twice_along_normal(v, self.normal_x()) == (2 * v.x) * d) by (nonlinear_arith)
            requires
                self.normal_y() == 0,
                self.normal_x() == -l,
                d == l * l,
                self.twice_along_normal(v, self.normal_x()) == 2 * (self.normal_x() * v.x
                    + self.normal_y() * v.y) * self.normal_x(),
        ;
        lemma_round_div_exact(0, d);
        assert(0 * d == 0);
        lemma_round_div_exact(2 * v.x, d);
    }

    /// At a surface of any direction, each coordinate of the mirrored
    /// velocity is the exact `v - 2 (v . n) n / (n . n)` to within half a
    /// unit of the last place, unless it had to be kept within `i32`.
    pub proof fn lemma_reflect_is_nearest(self, v: Vec2)
        requires
            self.a != self.b,
        ensures
            ({
                let d = self.length_squared();
                let rx = v.x - round_div(self.twice_along_normal(v, self.normal_x()), d);
                let ry = v.y - round_div(self.twice_along_normal(v, self.normal_y()), d);
                &&& d > 0
                &&& self.reflect(v) == (Vec2 { x: saturate(rx), y: saturate(ry) })
                &&& -d <= 2 * ((v.x - rx) * d - self.twice_along_normal(v, self.normal_x())) <= d
                &&& -d <= 2 * ((v.y - ry) * d - self.twice_along_normal(v, self.normal_y())) <= d
            }),
    {
        self.lemma_zero_length();
        let d = self.length_squared();
        lemma_round_div_is_nearest(self.twice_along_normal(v, self.normal_x()), d);
        lemma_round_div_is_nearest(self.twice_along_normal(v, self.normal_y()), d);
    }
}

/// The velocity with which a ball that hits `surface` with `velocity`
/// leaves it: the velocity mirrored at the surface. `factor` is accepted
/// and has no effect; a bounce neither speeds the ball up nor slows it
/// down.
pub fn calculate_bounce_velocity(surface: &Surface, velocity: Vec2, factor: i32) -> (r: Vec2)
    ensures
        r == surface.reflect(velocity),
{
    let nx: i128 = -(surface.b.y as i128 - surface.a.y as i128);
    let ny: i128 = surface.b.x as i128 - surface.a.x as i128;
    proof {
        lemma_product_bound(nx as int, nx as int, 0x1_0000_0000, 0x1_0000_0000);
        lemma_product_bound(ny as int, ny as int, 0x1_0000_0000, 0x1_0000_0000);
        lemma_product_bound(nx as int, velocity.x as int, 0x1_0000_0000, 0x1_0000_0000);
        lemma_product_bound(ny as int, velocity.y as int, 0x1_0000_0000, 0x1_0000_0000);
        assert(nx * nx >= 0 && ny * ny >= 0) by (nonlinear_arith);
        assert(nx * nx + ny * ny == surface.length_squared()) by (nonlinear_arith)
            requires
                nx == -(surface.b.y - surface.a.y),
                ny == surface.b.x - surface.a.x,
                surface.length_squared() == (surface.b.x - surface.a.x) * (surface.b.x
                    - surface.a.x) + (surface.b.y - surface.a.y) * (surface.b.y - surface.a.y),
        ;
    }
    let nn: i128 = nx * nx + ny * ny;
    if nn == 0 {
        return velocity;
    }
    let along: i128 = nx * (velocity.x as i128) + ny * (velocity.y as i128);
    proof {
        lemma_product_bound(
            2 * along as int,
            nx as int,
            0x4_0000_0000_0000_0000,
            0x1_0000_0000,
        );
        lemma_product_bound(
            2 * along as int,
            ny as int,
            0x4_0000_0000_0000_0000,
            0x1_0000_0000,
        );
        lemma_round_div_bounded((2 * along * nx) as int, nn as int, 0x4_0000_0000_0000_0000_0000_0000);
        lemma_round_div_bounded((2 * along * ny) as int, nn as int, 0x4_0000_0000_0000_0000_0000_0000);
        assert(0x4_0000_0000_0000_0000_0000_0000 * nn >= 0x4_0000_0000_0000_0000_0000_0000)
            by (nonlinear_arith)
            requires
                nn >= 1,
        ;
    }
    let vx: i128 = velocity.x as i128 - div_round(2 * along * nx, nn);
    let vy: i128 = velocity.y as i128 - div_round(2 * along * ny, nn);
    Vec2 { x: saturate_i128(vx), y: saturate_i128(vy) }
}

} // verus!
