//! Labeled sample points for the perceptron to learn from.
//!
//! Coordinates are fixed-point integers (the caller chooses the scale; see
//! the crate root). The ground-truth label of a point is decided by a fixed
//! linear rule: `1` when `x > y`, `-1` otherwise, so the diagonal `x == y`
//! separates the two classes and every point on it is labeled `-1`.

use vstd::prelude::*;
use crate::sample;

verus! {

/// Ground-truth label of the coordinates `(x, y)`: `1` iff `x > y`, else `-1`.
pub open spec fn label_of(x: int, y: int) -> int {
    if x > y {
        1
    } else {
        -1
    }
}

/// Executable form of the labelling rule: returns `1` iff `x > y`, else `-1`.
pub fn label_for(x: i32, y: i32) -> (l: i32)
    ensures
        l == label_of(x as int, y as int),
{
    if x > y {
        1
    } else {
        -1
    }
}

/// A sample point with random coordinates and its ground-truth label.
#[derive(Clone, Copy)]
pub struct RandomPoint {
    pub x: i32,
    pub y: i32,
    pub label: i32,
}

impl RandomPoint {
    /// The label is exactly what the fixed linear rule assigns to `(x, y)`.
    pub open spec fn wf(self) -> bool {
        self.label == label_of(self.x as int, self.y as int)
    }

    /// A point with both coordinates drawn uniformly from `[0, range)`.
    pub fn new(range: i32) -> (p: RandomPoint)
        requires
            range > 0,
        ensures
            0 <= p.x < range,
            0 <= p.y < range,
            p.wf(),
    {
        let x = sample::draw_in_range(0, range);
        let y = sample::draw_in_range(0, range);
        let label = label_for(x, y);
        RandomPoint { x, y, label }
    }

    /// A point with both coordinates drawn uniformly from the centered range
    /// `[-(range / 2), range - range / 2)`.
    pub fn new_centered(range: i32) -> (p: RandomPoint)
        requires
            range > 0,
        ensures
            -(range / 2) <= p.x < range - range / 2,
            -(range / 2) <= p.y < range - range / 2,
            p.wf(),
    {
        let half = range / 2;
        let x = sample::draw_in_range(0, range) - half;
        let y = sample::draw_in_range(0, range) - half;
        let label = label_for(x, y);
        RandomPoint { x, y, label }
    }
}

/// Which coordinate convention the generated points follow.
#[derive(Clone, Copy, Debug)]
pub enum Convention {
    /// Both coordinates in `[-(range / 2), range - range / 2)`.
    Centered,
    /// Both coordinates in `[0, range)`.
    OriginAnchored,
}

/// Whether a point's coordinates lie inside the chosen convention's range.
pub open spec fn in_convention(p: RandomPoint, range: int, c: Convention) -> bool {
    match c {
        Convention::Centered => -(range / 2) <= p.x < range - range / 2
            && -(range / 2) <= p.y < range - range / 2,
        Convention::OriginAnchored => 0 <= p.x < range && 0 <= p.y < range,
    }
}

/// Generates `count` labeled points whose coordinates are drawn uniformly
/// from the range that `convention` describes; every point carries the label
/// the fixed linear rule assigns to its coordinates.
#[verifier::loop_isolation(false)]
pub fn generate(count: usize, range: i32, convention: Convention) -> (pts: Vec<RandomPoint>)
    requires
        range > 0,
    ensures
        pts@.len() == count,
        forall|k: int| 0 <= k < count ==> in_convention(#[trigger] pts@[k], range as int, convention),
        forall|k: int| 0 <= k < count ==> (#[trigger] pts@[k]).wf(),
{
    let mut pts: Vec<RandomPoint> = Vec::new();
    while pts.len() < count
        invariant
            pts@.len() <= count,
            forall|k: int| 0 <= k < pts@.len() ==> in_convention(
                #[trigger] pts@[k],
                range as int,
                convention,
            ),
            forall|k: int| 0 <= k < pts@.len() ==> (#[trigger] pts@[k]).wf(),
        decreases count - pts@.len(),
    {
        let p = match convention {
            Convention::Centered => RandomPoint::new_centered(range),
            Convention::OriginAnchored => RandomPoint::new(range),
        };
        pts.push(p);
    }
    pts
}

} // verus!
