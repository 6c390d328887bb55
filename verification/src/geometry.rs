//! Points, velocities, window bounds, and the per-frame motion of a vertex.

use vstd::prelude::*;

verus! {

/// A position on the drawing plane, in integer device units.
#[derive(Clone, Copy, PartialEq, Eq, Structural, Debug)]
pub struct Point {
    pub x: i64,
    pub y: i64,
}

/// A per-frame displacement of a vertex.
#[derive(Clone, Copy, PartialEq, Eq, Structural, Debug)]
pub struct Velocity {
    pub dx: i64,
    pub dy: i64,
}

/// The window rectangle that the vertices bounce in.
#[derive(Clone, Copy, PartialEq, Eq, Structural, Debug)]
pub struct Bounds {
    pub left: i64,
    pub right: i64,
    pub bottom: i64,
    pub top: i64,
}

impl Bounds {
    /// The window has at least one whole unit of extent on each axis, so a
    /// position can be drawn strictly inside it.
    pub open spec fn nondegenerate(self) -> bool {
        self.left < self.right && self.bottom < self.top
    }
}

/// A moving corner of a path: a position plus the velocity it moves with.
#[derive(Clone, Copy, PartialEq, Eq, Structural, Debug)]
pub struct Vertex {
    pub position: Point,
    pub velocity: Velocity,
}

/// Whether an x coordinate lies strictly outside the horizontal extent of
/// the window.
pub open spec fn outside_x(x: int, b: Bounds) -> bool {
    x < b.left || x > b.right
}

/// Whether a y coordinate lies strictly outside the vertical extent of the
/// window.
pub open spec fn outside_y(y: int, b: Bounds) -> bool {
    y < b.bottom || y > b.top
}

/// The position a vertex reaches after moving by its velocity once.
pub open spec fn stepped_position(v: Vertex) -> Point {
    Point {
        x: (v.position.x + v.velocity.dx) as i64,
        y: (v.position.y + v.velocity.dy) as i64,
    }
}

/// The new position fits in the coordinate type, and so does each reflected
/// velocity component whenever its reflection is due.
pub open spec fn can_step(v: Vertex, b: Bounds) -> bool {
    &&& i64::MIN <= v.position.x + v.velocity.dx <= i64::MAX
    &&& i64::MIN <= v.position.y + v.velocity.dy <= i64::MAX
    &&& (outside_x(stepped_position(v).x as int, b) ==> v.velocity.dx != i64::MIN)
    &&& (outside_y(stepped_position(v).y as int, b) ==> v.velocity.dy != i64::MIN)
}

/// One frame of motion: the vertex moves by its velocity, and each velocity
/// component is negated exactly when the new position has crossed the
/// corresponding pair of window edges — the x component against the left
/// and right edges, the y component against the bottom and top edges,
/// independently of one another.
pub open spec fn vertex_after_update(v: Vertex, b: Bounds) -> Vertex {
    let p = stepped_position(v);
    Vertex {
        position: p,
        velocity: Velocity {
            dx: if outside_x(p.x as int, b) {
                (-v.velocity.dx) as i64
            } else {
                v.velocity.dx
            },
            dy: if outside_y(p.y as int, b) {
                (-v.velocity.dy) as i64
            } else {
                v.velocity.dy
            },
        },
    }
}

/// The bounce is elastic, one axis at a time: when a step crosses a pair of
/// window edges and the velocity component on that axis is therefore
/// negated, the following step brings that position component back to
/// exactly where it started from.
pub proof fn lemma_bounce_returns(v: Vertex, b: Bounds)
    requires
        can_step(v, b),
        can_step(vertex_after_update(v, b), b),
    ensures
        outside_x(stepped_position(v).x as int, b) ==> vertex_after_update(
            vertex_after_update(v, b),
            b,
        ).position.x == v.position.x,
        outside_y(stepped_position(v).y as int, b) ==> vertex_after_update(
            vertex_after_update(v, b),
            b,
        ).position.y == v.position.y,
{
}

impl Vertex {
    /// The vertex as it stands after one frame of motion against `bounds`.
    pub fn updated(&self, bounds: &Bounds) -> (r: Vertex)
        requires
            can_step(*self, *bounds),
        ensures
            r == vertex_after_update(*self, *bounds),
    {
        let x = self.position.x + self.velocity.dx;
        let y = self.position.y + self.velocity.dy;
        let dx = if x < bounds.left || x > bounds.right {
            -self.velocity.dx
        } else {
            self.velocity.dx
        };
        let dy = if y < bounds.bottom || y > bounds.top {
            -self.velocity.dy
        } else {
            self.velocity.dy
        };
        Vertex { position: Point { x, y }, velocity: Velocity { dx, dy } }
    }

    /// Whether this vertex can take one step against `bounds` without
    /// leaving the coordinate type.
    pub fn can_step_now(&self, bounds: &Bounds) -> (ok: bool)
        ensures
            ok == can_step(*self, *bounds),
    {
        let x = self.position.x as i128 + self.velocity.dx as i128;
        let y = self.position.y as i128 + self.velocity.dy as i128;
        if x < i64::MIN as i128 || x > i64::MAX as i128 || y < i64::MIN as i128 || y
            > i64::MAX as i128 {
            return false;
        }
        let sx = x as i64;
        let sy = y as i64;
        let x_ok = sx >= bounds.left && sx <= bounds.right || self.velocity.dx != i64::MIN;
        let y_ok = sy >= bounds.bottom && sy <= bounds.top || self.velocity.dy != i64::MIN;
        x_ok && y_ok
    }

    /// Move the vertex by its velocity; negate each velocity component
    /// exactly when the new position has crossed the corresponding pair of
    /// window edges.
    pub fn update(&mut self, bounds: &Bounds)
        requires
            can_step(*old(self), *bounds),
        ensures
            *final(self) == vertex_after_update(*old(self), *bounds),
            final(self).position.x == old(self).position.x + old(self).velocity.dx,
            final(self).position.y == old(self).position.y + old(self).velocity.dy,
            outside_x(final(self).position.x as int, *bounds) ==> final(self).velocity.dx == -old(
                self,
            ).velocity.dx,
            !outside_x(final(self).position.x as int, *bounds) ==> final(self).velocity.dx == old(
                self,
            ).velocity.dx,
            outside_y(final(self).position.y as int, *bounds) ==> final(self).velocity.dy == -old(
                self,
            ).velocity.dy,
            !outside_y(final(self).position.y as int, *bounds) ==> final(self).velocity.dy == old(
                self,
            ).velocity.dy,
    {
        *self = self.updated(bounds);
    }
}

} // verus!
