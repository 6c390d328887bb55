//! The whole animation: a handful of paths, spawned at start, stepped once
//! per frame, and rendered as a list of polylines.

use vstd::prelude::*;

verus! {

use crate::geometry::Bounds;
use crate::path::{
    LineView,
    Path,
    Polyline,
    path_can_step,
    path_lines,
    path_updated,
    spawned_ok,
};

/// How many paths the animation spawns.
pub const PATH_COUNT: usize = 2;

/// The state of the animation: every path on the screen.
pub struct Model {
    pub path: Vec<Path>,
}

/// The strokes of a sequence of paths, in order: all strokes of the first
/// path, then all strokes of the second, and so on.
pub open spec fn paths_lines(ps: Seq<Path>) -> Seq<LineView>
    decreases ps.len(),
{
    if ps.len() == 0 {
        Seq::empty()
    } else {
        paths_lines(ps.drop_last()) + path_lines(ps.last())
    }
}

impl Model {
    /// Every path keeps its history within the trail cap.
    pub open spec fn wf(self) -> bool {
        forall|i: int| 0 <= i < self.path@.len() ==> (#[trigger] self.path@[i]).wf()
    }

    /// Every vertex of every path can take the next step against `b`.
    pub open spec fn can_step_all(self, b: Bounds) -> bool {
        forall|i: int| 0 <= i < self.path@.len() ==> path_can_step(#[trigger] self.path@[i], b)
    }

    /// Whether every vertex of every path can take the next step against
    /// `bounds` without leaving the coordinate type.
    #[verifier::loop_isolation(false)]
    pub fn can_update(&self, bounds: &Bounds) -> (ok: bool)
        ensures
            ok == self.can_step_all(*bounds),
    {
        let mut i: usize = 0;
        while i < self.path.len()
            invariant
                i <= self.path@.len(),
                forall|k: int| 0 <= k < i ==> path_can_step(#[trigger] self.path@[k], *bounds),
            decreases self.path@.len() - i,
        {
            if !self.path[i].can_step_now(bounds) {
                return false;
            }
            i += 1;
        }
        true
    }

    /// The strokes of the whole frame: the strokes of each path, in the
    /// order the paths stand in the model.
    #[verifier::loop_isolation(false)]
    pub fn display(&self) -> (lines: Vec<Polyline>)
        ensures
            lines@.map_values(|l: Polyline| l@) == paths_lines(self.path@),
    {
        let mut lines: Vec<Polyline> = Vec::new();
        let mut i: usize = 0;
        while i < self.path.len()
            invariant
                i <= self.path@.len(),
                lines@.map_values(|l: Polyline| l@) == paths_lines(
                    self.path@.subrange(0, i as int),
                ),
            decreases self.path@.len() - i,
        {
            let mut ls = self.path[i].display();
            let ghost prev = lines@;
            lines.append(&mut ls);
            proof {
                let sub = self.path@.subrange(0, i + 1);
                assert(sub.drop_last() =~= self.path@.subrange(0, i as int));
                assert(sub.last() == self.path@[i as int]);
                assert(lines@.map_values(|l: Polyline| l@) =~= paths_lines(sub));
            }
            i += 1;
        }
        proof {
            assert(self.path@.subrange(0, self.path@.len() as int) =~= self.path@);
        }
        lines
    }
}

/// Spawn the animation: a fixed number of freshly randomized paths.
#[verifier::loop_isolation(false)]
pub fn model(bounds: &Bounds) -> (m: Model)
    requires
        bounds.nondegenerate(),
    ensures
        m.path@.len() == PATH_COUNT,
        forall|i: int| 0 <= i < m.path@.len() ==> spawned_ok(#[trigger] m.path@[i], *bounds),
        m.wf(),
{
    let mut paths: Vec<Path> = Vec::new();
    let mut k: usize = 0;
    while k < PATH_COUNT
        invariant
            k <= PATH_COUNT,
            paths@.len() == k,
            forall|i: int| 0 <= i < k ==> spawned_ok(#[trigger] paths@[i], *bounds),
        decreases PATH_COUNT - k,
    {
        paths.push(Path::new(bounds));
        k += 1;
    }
    Model { path: paths }
}

/// One frame of the animation: step every path once.
#[verifier::loop_isolation(false)]
pub fn update(model: &mut Model, bounds: &Bounds)
    requires
        old(model).wf(),
        old(model).can_step_all(*bounds),
    ensures
        final(model).path@.len() == old(model).path@.len(),
        forall|i: int|
            0 <= i < old(model).path@.len() ==> path_updated(
                old(model).path@[i],
                #[trigger] final(model).path@[i],
                *bounds,
            ),
        final(model).wf(),
{
    let n = model.path.len();
    let mut updated: Vec<Path> = Vec::with_capacity(n);
    while model.path.len() > 0
        invariant
            updated@.len() + model.path@.len() == n,
            model.path@ == old(model).path@.subrange(updated@.len() as int, n as int),
            forall|j: int|
                0 <= j < updated@.len() ==> path_updated(
                    old(model).path@[j],
                    #[trigger] updated@[j],
                    *bounds,
                ),
            forall|j: int| 0 <= j < updated@.len() ==> (#[trigger] updated@[j]).wf(),
        decreases model.path@.len(),
    {
        let ghost k = updated@.len() as int;
        proof {
            assert(model.path@[0] == old(model).path@[k]);
        }
        let mut p = model.path.remove(0);
        p.update(bounds);
        updated.push(p);
        proof {
            assert(model.path@ =~= old(model).path@.subrange(updated@.len() as int, n as int));
        }
    }
    model.path = updated;
}

} // verus!
