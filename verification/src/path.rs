//! A closed polyline of moving vertices, with a short history of its
//! previous shapes for trail rendering.

use vstd::prelude::*;
use std::collections::VecDeque;

verus! {

use crate::color::{Color, palette_color, palette_spec, PALETTE_SIZE};
use crate::geometry::{
    Bounds,
    Point,
    Vertex,
    Velocity,
    can_step,
    vertex_after_update,
};
use crate::random::{random_i64_range, random_usize_range};

/// How many past shapes a path keeps for its trail.
pub const HISTORY_CAP: usize = 5;

/// The fewest vertices a freshly spawned path draws (inclusive).
pub const MIN_VERTICES: usize = 3;

/// The bound on the vertex count of a freshly spawned path (exclusive).
pub const MAX_VERTICES: usize = 9;

/// The bound on the magnitude of a freshly drawn velocity component.
pub const SPEED_LIMIT: i64 = 10;

/// The stroke weight of a trail shape.
pub const TRAIL_WEIGHT: u8 = 1;

/// The stroke weight of the current shape.
pub const CURRENT_WEIGHT: u8 = 2;

/// A closed polygonal path: its vertices, its color, and the shapes it had
/// on recent frames.
pub struct Path {
    pub points: Vec<Vertex>,
    pub color: Color,
    pub history: VecDeque<Vec<Vertex>>,
}

/// The positions of a shape's vertices, in order.
pub open spec fn positions_of(s: Seq<Vertex>) -> Seq<Point> {
    s.map_values(|v: Vertex| v.position)
}

impl Path {
    /// The remembered shapes, oldest first, each as a sequence of vertices.
    pub open spec fn hist(self) -> Seq<Seq<Vertex>> {
        self.history@.map_values(|shape: Vec<Vertex>| shape@)
    }

    /// The history never holds more shapes than the trail shows.
    pub open spec fn wf(self) -> bool {
        self.history@.len() <= HISTORY_CAP
    }

    /// The polyline returns to its first vertex.
    pub open spec fn closed(self) -> bool {
        self.points@.len() >= 2 && self.points@.last() == self.points@[0]
    }
}

/// How one update step relates a path to its previous state: every vertex
/// has moved one frame, the color is kept, and the previous shape has been
/// appended to the history, dropping the oldest remembered shape when the
/// history was already full.
pub open spec fn path_updated(pre: Path, post: Path, b: Bounds) -> bool {
    &&& post.color == pre.color
    &&& post.points@.len() == pre.points@.len()
    &&& (forall|i: int|
        0 <= i < pre.points@.len() ==> #[trigger] post.points@[i] == vertex_after_update(
            pre.points@[i],
            b,
        ))
    &&& post.hist() == (if pre.hist().len() < HISTORY_CAP {
        pre.hist().push(pre.points@)
    } else {
        pre.hist().drop_first().push(pre.points@)
    })
}

/// Every vertex of the path can take one step against `b` without leaving
/// the coordinate type.
pub open spec fn path_can_step(p: Path, b: Bounds) -> bool {
    forall|i: int| 0 <= i < p.points@.len() ==> can_step(#[trigger] p.points@[i], b)
}

/// What holds of every freshly spawned path, whatever the random draws
/// were: a closed shape of a bounded number of vertices placed inside the
/// window, with bounded velocities, a palette color, and no history yet.
pub open spec fn spawned_ok(p: Path, b: Bounds) -> bool {
    &&& MIN_VERTICES + 1 <= p.points@.len() <= MAX_VERTICES
    &&& p.closed()
    &&& p.wf()
    &&& (forall|i: int|
        0 <= i < p.points@.len() ==> {
            let v = #[trigger] p.points@[i];
            &&& b.left <= v.position.x < b.right
            &&& b.bottom <= v.position.y < b.top
            &&& -SPEED_LIMIT <= v.velocity.dx < SPEED_LIMIT
            &&& -SPEED_LIMIT <= v.velocity.dy < SPEED_LIMIT
        })
    &&& (exists|c: int| 0 <= c < PALETTE_SIZE && p.color == palette_spec(c))
    &&& p.hist() == Seq::<Seq<Vertex>>::empty()
}

/// One stroke for the host to draw: the positions to join, the stroke
/// weight, and the color.
pub struct Polyline {
    pub points: Vec<Point>,
    pub weight: u8,
    pub color: Color,
}

/// The mathematical content of a polyline: its positions, weight and color.
#[verifier::ext_equal]
pub struct LineView {
    pub points: Seq<Point>,
    pub weight: u8,
    pub color: Color,
}

impl View for Polyline {
    type V = LineView;

    open spec fn view(&self) -> LineView {
        LineView { points: self.points@, weight: self.weight, color: self.color }
    }
}

/// The strokes a path asks for: each remembered shape with the trail
/// weight, oldest first, then the current shape with the heavier weight,
/// all in the path's color.
pub open spec fn path_lines(p: Path) -> Seq<LineView> {
    p.hist().map_values(
        |shape: Seq<Vertex>|
            LineView { points: positions_of(shape), weight: TRAIL_WEIGHT, color: p.color },
    ).push(LineView { points: positions_of(p.points@), weight: CURRENT_WEIGHT, color: p.color })
}

/// The positions of a shape's vertices, in order, as a fresh vector.
pub fn positions_vec(shape: &Vec<Vertex>) -> (pts: Vec<Point>)
    ensures
        pts@ == positions_of(shape@),
{
    let mut pts: Vec<Point> = Vec::with_capacity(shape.len());
    let mut i: usize = 0;
    while i < shape.len()
        invariant
            i <= shape@.len(),
            pts@.len() == i,
            forall|j: int| 0 <= j < i ==> #[trigger] pts@[j] == shape@[j].position,
        decreases shape@.len() - i,
    {
        pts.push(shape[i].position);
        i += 1;
    }
    proof {
        assert(pts@ =~= positions_of(shape@));
    }
    pts
}

/// A fresh vector holding the same vertices.
fn copy_points(points: &Vec<Vertex>) -> (r: Vec<Vertex>)
    ensures
        r@ == points@,
{
    let mut r: Vec<Vertex> = Vec::with_capacity(points.len());
    let mut i: usize = 0;
    while i < points.len()
        invariant
            i <= points@.len(),
            r@.len() == i,
            forall|j: int| 0 <= j < i ==> #[trigger] r@[j] == points@[j],
        decreases points@.len() - i,
    {
        r.push(points[i]);
        i += 1;
    }
    proof {
        assert(r@ =~= points@);
    }
    r
}

impl Path {
    /// Close the given vertices into a path by repeating the first vertex at
    /// the end, give it the palette color at `color_index`, and start with
    /// an empty history.
    pub fn from_vertices(vertices: Vec<Vertex>, color_index: usize) -> (path: Path)
        requires
            vertices@.len() >= 1,
            color_index < PALETTE_SIZE,
        ensures
            path.points@ == vertices@.push(vertices@[0]),
            path.color == palette_spec(color_index as int),
            path.hist() == Seq::<Seq<Vertex>>::empty(),
            path.wf(),
            path.closed(),
    {
        let first = vertices[0];
        let mut points = vertices;
        points.push(first);
        let path = Path {
            points,
            color: palette_color(color_index),
            history: VecDeque::with_capacity(HISTORY_CAP),
        };
        proof {
            assert(path.hist() =~= Seq::<Seq<Vertex>>::empty());
        }
        path
    }

    /// Spawn a path with a random vertex count, random positions inside the
    /// window, random velocities, and a random palette color.
    #[verifier::loop_isolation(false)]
    pub fn new(bounds: &Bounds) -> (path: Path)
        requires
            bounds.nondegenerate(),
        ensures
            spawned_ok(path, *bounds),
    {
        let n = random_usize_range(MIN_VERTICES, MAX_VERTICES);
        let mut vertices: Vec<Vertex> = Vec::with_capacity(n);
        let mut k: usize = 0;
        while k < n
            invariant
                k <= n,
                vertices@.len() == k,
                forall|i: int|
                    0 <= i < k ==> {
                        let v = #[trigger] vertices@[i];
                        &&& bounds.left <= v.position.x < bounds.right
                        &&& bounds.bottom <= v.position.y < bounds.top
                        &&& -SPEED_LIMIT <= v.velocity.dx < SPEED_LIMIT
                        &&& -SPEED_LIMIT <= v.velocity.dy < SPEED_LIMIT
                    },
            decreases n - k,
        {
            let x = random_i64_range(bounds.left, bounds.right);
            let y = random_i64_range(bounds.bottom, bounds.top);
            let dx = random_i64_range(-SPEED_LIMIT, SPEED_LIMIT);
            let dy = random_i64_range(-SPEED_LIMIT, SPEED_LIMIT);
            vertices.push(
                Vertex { position: Point { x, y }, velocity: Velocity { dx, dy } },
            );
            k += 1;
        }
        let color_index = random_usize_range(0, PALETTE_SIZE);
        let path = Path::from_vertices(vertices, color_index);
        proof {
            assert(path.color == palette_spec(color_index as int));
            assert forall|i: int| 0 <= i < path.points@.len() implies {
                let v = #[trigger] path.points@[i];
                &&& bounds.left <= v.position.x < bounds.right
                &&& bounds.bottom <= v.position.y < bounds.top
                &&& -SPEED_LIMIT <= v.velocity.dx < SPEED_LIMIT
                &&& -SPEED_LIMIT <= v.velocity.dy < SPEED_LIMIT
            } by {
                if i < path.points@.len() - 1 {
                    assert(path.points@[i] == vertices@[i]);
                } else {
                    assert(path.points@[i] == vertices@[0]);
                }
            }
        }
        path
    }

    /// One frame of the path: remember the current shape at the young end
    /// of the history, dropping the oldest remembered shape when the
    /// history is full, then move every vertex one step.
    #[verifier::loop_isolation(false)]
    pub fn update(&mut self, bounds: &Bounds)
        requires
            old(self).wf(),
            path_can_step(*old(self), *bounds),
        ensures
            final(self).wf(),
            path_updated(*old(self), *final(self), *bounds),
            old(self).closed() ==> final(self).closed(),
    {
        let snapshot = copy_points(&self.points);
        self.history.push_back(snapshot);
        if self.history.len() > HISTORY_CAP {
            // The history is a fixed-length queue: the oldest shape makes
            // room for the one just remembered.
            self.history.pop_front();
            proof {
                assert(self.hist() =~= old(self).hist().drop_first().push(old(self).points@));
            }
        } else {
            proof {
                assert(self.hist() =~= old(self).hist().push(old(self).points@));
            }
        }
        let mut new_points: Vec<Vertex> = Vec::with_capacity(self.points.len());
        let mut i: usize = 0;
        while i < self.points.len()
            invariant
                i <= self.points@.len(),
                new_points@.len() == i,
                forall|j: int|
                    0 <= j < i ==> #[trigger] new_points@[j] == vertex_after_update(
                        self.points@[j],
                        *bounds,
                    ),
            decreases self.points@.len() - i,
        {
            new_points.push(self.points[i].updated(bounds));
            i += 1;
        }
        self.points = new_points;
    }

    /// Whether every vertex of the path can take one step against `bounds`
    /// without leaving the coordinate type.
    #[verifier::loop_isolation(false)]
    pub fn can_step_now(&self, bounds: &Bounds) -> (ok: bool)
        ensures
            ok == path_can_step(*self, *bounds),
    {
        let mut i: usize = 0;
        while i < self.points.len()
            invariant
                i <= self.points@.len(),
                forall|k: int| 0 <= k < i ==> can_step(#[trigger] self.points@[k], *bounds),
            decreases self.points@.len() - i,
        {
            if !self.points[i].can_step_now(bounds) {
                proof {
                    assert(!can_step(self.points@[i as int], *bounds));
                }
                return false;
            }
            i += 1;
        }
        true
    }

    /// The strokes that render this path: one polyline per remembered
    /// shape at the trail weight, then the current shape at the heavier
    /// weight, all in the path's color.
    #[verifier::loop_isolation(false)]
    pub fn display(&self) -> (lines: Vec<Polyline>)
        ensures
            lines@.map_values(|l: Polyline| l@) == path_lines(*self),
            lines@.len() == self.hist().len() + 1,
    {
        let mut lines: Vec<Polyline> = Vec::new();
        let mut i: usize = 0;
        while i < self.history.len()
            invariant
                i <= self.history@.len(),
                lines@.len() == i,
                forall|j: int|
                    0 <= j < i ==> (#[trigger] lines@[j])@ == (LineView {
                        points: positions_of(self.hist()[j]),
                        weight: TRAIL_WEIGHT,
                        color: self.color,
                    }),
            decreases self.history@.len() - i,
        {
            let pts = positions_vec(&self.history[i]);
            lines.push(Polyline { points: pts, weight: TRAIL_WEIGHT, color: self.color });
            i += 1;
        }
        let pts = positions_vec(&self.points);
        lines.push(Polyline { points: pts, weight: CURRENT_WEIGHT, color: self.color });
        proof {
            assert(lines@.map_values(|l: Polyline| l@) =~= path_lines(*self));
        }
        lines
    }
}

} // verus!
