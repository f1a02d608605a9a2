use vstd::prelude::*;

use crate::dot::{color_of, is_rounded_sqrt, dot_color, dot_radius, lemma_dot_bounds, lemma_dot_monotone, radius_of};
use crate::plane::{GridPoint, Plane, PlaneView};

verus! {

/// A filled circle to draw on the canvas: its center (`x` the row, `y` the
/// column), its radius in sixteenths of a pixel, and its gray value.
#[derive(Clone, Copy, Debug, PartialEq, Eq, Structural)]
pub struct Dot {
    pub x: usize,
    pub y: usize,
    pub radius_sixteenths: u32,
    pub color: u8,
}

/// The dot for grid point `q`, whose size and gray value follow the sample
/// under it.
pub open spec fn dot_at(p: PlaneView, q: GridPoint) -> Dot {
    let v = p.at(q.x as int, q.y as int);
    Dot { x: q.x, y: q.y, radius_sixteenths: radius_of(v) as u32, color: color_of(v) as u8 }
}

/// The dots for the grid points `pts`, in their order; a point that does
/// not lie on the plane gives none.
pub open spec fn dots_of(p: PlaneView, pts: Seq<GridPoint>) -> Seq<Dot>
    decreases pts.len(),
{
    if pts.len() == 0 {
        Seq::empty()
    } else {
        let rest = dots_of(p, pts.drop_last());
        let q = pts.last();
        if q.x < p.rows && q.y < p.cols {
            rest.push(dot_at(p, q))
        } else {
            rest
        }
    }
}

/// Works out the dots to draw for the grid points `points` on the upsampled
/// plane `plane`. Points off the plane are skipped, whatever produced them.
pub fn plan_dots(plane: &Plane, points: &Vec<GridPoint>) -> (dots: Vec<Dot>)
    requires
        plane.wf(),
    ensures
        dots@ == dots_of(plane@, points@),
{
    let rows = plane.rows();
    let cols = plane.cols();
    let mut dots: Vec<Dot> = Vec::new();
    let mut i: usize = 0;
    while i < points.len()
        invariant
            plane.wf(),
            rows == plane@.rows,
            cols == plane@.cols,
            i <= points@.len(),
            dots@ == dots_of(plane@, points@.subrange(0, i as int)),
        decreases points@.len() - i,
    {
        let q = points[i];
        proof {
            assert(points@.subrange(0, i + 1).drop_last() == points@.subrange(0, i as int));
        }
        if q.x < rows && q.y < cols {
            let v = plane.get(q.x, q.y);
            let r = dot_radius(v);
            let c = dot_color(v);
            dots.push(Dot { x: q.x, y: q.y, radius_sixteenths: r, color: c });
        }
        i = i + 1;
    }
    proof {
        assert(points@.subrange(0, points@.len() as int) == points@);
    }
    dots
}

/// Every dot of `dots_of(p, pts)` comes from a point of `pts` that lies on
/// the plane, and is the dot for that point.
pub proof fn lemma_dots_come_from_points(p: PlaneView, pts: Seq<GridPoint>, i: int)
    requires
        0 <= i < dots_of(p, pts).len(),
    ensures
        exists|j: int|
            0 <= j < pts.len() && pts[j].x < p.rows && pts[j].y < p.cols && dots_of(p, pts)[i]
                == #[trigger] dot_at(p, pts[j]),
    decreases pts.len(),
{
    let rest = dots_of(p, pts.drop_last());
    let q = pts.last();
    if i < rest.len() {
        lemma_dots_come_from_points(p, pts.drop_last(), i);
        let j = choose|j: int|
            0 <= j < pts.drop_last().len() && pts.drop_last()[j].x < p.rows
                && pts.drop_last()[j].y < p.cols && rest[i] == #[trigger] dot_at(
                p,
                pts.drop_last()[j],
            );
        assert(pts[j] == pts.drop_last()[j]);
    } else {
        assert(pts[pts.len() - 1] == q);
    }
}

/// The plan is a function of the plane's samples and of the grid points
/// alone: two runs on equal inputs give the same dots.
pub proof fn lemma_plan_deterministic(
    plane: PlaneView,
    other_plane: PlaneView,
    pts: Seq<GridPoint>,
    other_pts: Seq<GridPoint>,
)
    requires
        plane == other_plane,
        pts == other_pts,
    ensures
        dots_of(plane, pts) == dots_of(other_plane, other_pts),
{
}

/// Of two grid points on the plane, the one over the brighter sample gets a
/// dot at least as large and at least as bright.
pub proof fn lemma_brighter_sample_larger_dot(p: PlaneView, a: GridPoint, b: GridPoint)
    requires
        a.x < p.rows && a.y < p.cols,
        b.x < p.rows && b.y < p.cols,
        p.at(a.x as int, a.y as int) < p.at(b.x as int, b.y as int),
    ensures
        dot_at(p, a).radius_sixteenths <= dot_at(p, b).radius_sixteenths,
        dot_at(p, a).color <= dot_at(p, b).color,
{
    let va = p.at(a.x as int, a.y as int);
    let vb = p.at(b.x as int, b.y as int);
    lemma_dot_monotone(va, vb);
    lemma_dot_bounds(va);
    lemma_dot_bounds(vb);
}

/// On a plane whose samples are all zero, every dot has radius zero and is
/// black, whatever the grid points and so whatever the grid's rotation.
pub proof fn lemma_dark_plane_gives_black_dots(p: PlaneView, pts: Seq<GridPoint>)
    requires
        p.samples.len() == p.rows * p.cols,
        forall|k: int| 0 <= k < p.samples.len() ==> p.samples[k] == 0,
    ensures
        forall|i: int|
            0 <= i < dots_of(p, pts).len() ==> (#[trigger] dots_of(p, pts)[i]).radius_sixteenths
                == 0 && dots_of(p, pts)[i].color == 0,
{
    assert forall|i: int| 0 <= i < dots_of(p, pts).len() implies (#[trigger] dots_of(p, pts)[i])
        .radius_sixteenths == 0 && dots_of(p, pts)[i].color == 0 by {
        lemma_dots_come_from_points(p, pts, i);
        let j = choose|j: int|
            0 <= j < pts.len() && pts[j].x < p.rows && pts[j].y < p.cols && dots_of(p, pts)[i]
                == #[trigger] dot_at(p, pts[j]);
        let q = pts[j];
        crate::plane::lemma_index_in_bounds(q.x as int, q.y as int, p.rows as int, p.cols as int);
        lemma_color_of_zero();
    }
}

/// A zero sample gives a black dot.
proof fn lemma_color_of_zero()
    ensures
        color_of(0) == 0,
{
    assert(is_rounded_sqrt(255 * 0u8 as nat, 0)) by (nonlinear_arith);
    crate::dot::lemma_color_of(0, 0);
}

} // verus!
