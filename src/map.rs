use vstd::prelude::*;
use crate::history::sample_views;
use crate::sample::Sample;

verus! {

/// Zoom of the view on the whole world, used when there is nothing to show.
pub const WORLD_ZOOM: u8 = 2;

/// Zoom of the view on a single recorded point.
pub const POINT_ZOOM: u8 = 13;

/// The viewport that a map opens on.
#[derive(Clone, Copy, Debug, PartialEq, Eq, Structural)]
pub enum Viewport {
    /// Centered on the origin at `WORLD_ZOOM`.
    World,
    /// Centered on one point (1e-7 degrees) at `zoom`.
    Centered { lat: i64, lon: i64, zoom: u8 },
    /// The smallest box holding every point (1e-7 degrees).
    Bounds { south: i64, west: i64, north: i64, east: i64 },
}

/// Every point lies inside the box.
pub open spec fn encloses(pts: Seq<(i64, i64)>, south: i64, west: i64, north: i64, east: i64) -> bool {
    forall|i: int|
        0 <= i < pts.len() ==> south <= (#[trigger] pts[i]).0 <= north && west <= pts[i].1 <= east
}

/// Each side of the box touches some point.
pub open spec fn tight(pts: Seq<(i64, i64)>, south: i64, west: i64, north: i64, east: i64) -> bool {
    &&& exists|i: int| 0 <= i < pts.len() && (#[trigger] pts[i]).0 == south
    &&& exists|i: int| 0 <= i < pts.len() && (#[trigger] pts[i]).0 == north
    &&& exists|i: int| 0 <= i < pts.len() && (#[trigger] pts[i]).1 == west
    &&& exists|i: int| 0 <= i < pts.len() && (#[trigger] pts[i]).1 == east
}

/// The view rule, by the number of points: none gives the world view, one
/// gives a close view centered on it, more give the smallest box holding all.
pub open spec fn fits(pts: Seq<(i64, i64)>, v: Viewport) -> bool {
    if pts.len() == 0 {
        v == Viewport::World
    } else if pts.len() == 1 {
        v == (Viewport::Centered { lat: pts[0].0, lon: pts[0].1, zoom: POINT_ZOOM })
    } else {
        match v {
            Viewport::Bounds { south, west, north, east } => encloses(pts, south, west, north, east)
                && tight(pts, south, west, north, east),
            _ => false,
        }
    }
}

/// Chooses the viewport for a map of `points`.
pub fn fit_view(points: &Vec<(i64, i64)>) -> (v: Viewport)
    ensures
        fits(points@, v),
{
    if points.len() == 0 {
        return Viewport::World;
    }
    if points.len() == 1 {
        return Viewport::Centered { lat: points[0].0, lon: points[0].1, zoom: POINT_ZOOM };
    }
    let mut south = points[0].0;
    let mut north = points[0].0;
    let mut west = points[0].1;
    let mut east = points[0].1;
    let ghost (mut is, mut in_, mut iw, mut ie) = (0int, 0int, 0int, 0int);
    let mut i: usize = 1;
    while i < points.len()
        invariant
            1 <= i <= points.len(),
            encloses(points@.subrange(0, i as int), south, west, north, east),
            0 <= is < i && points@[is].0 == south,
            0 <= in_ < i && points@[in_].0 == north,
            0 <= iw < i && points@[iw].1 == west,
            0 <= ie < i && points@[ie].1 == east,
        decreases points.len() - i,
    {
        let (la, lo) = points[i];
        if la < south {
            south = la;
            proof { is = i as int; }
        }
        if la > north {
            north = la;
            proof { in_ = i as int; }
        }
        if lo < west {
            west = lo;
            proof { iw = i as int; }
        }
        if lo > east {
            east = lo;
            proof { ie = i as int; }
        }
        proof {
            let pre = points@.subrange(0, i as int);
            let cur = points@.subrange(0, i + 1);
            assert forall|k: int| 0 <= k < cur.len() implies south <= (#[trigger] cur[k]).0 <= north
                && west <= cur[k].1 <= east by {
                if k < i {
                    assert(cur[k] == pre[k]);
                }
            }
        }
        i = i + 1;
    }
    proof {
        assert(points@.subrange(0, points.len() as int) =~= points@);
        let pts = points@;
        assert(pts[is].0 == south);
        assert(pts[in_].0 == north);
        assert(pts[iw].1 == west);
        assert(pts[ie].1 == east);
    }
    Viewport::Bounds { south, west, north, east }
}

/// The positions of `samples`, in order: the path that the map draws and
/// the points of its heat layer.
pub fn map_points(samples: &Vec<Sample>) -> (r: Vec<(i64, i64)>)
    ensures
        r@.len() == samples@.len(),
        forall|i: int|
            0 <= i < r@.len() ==> #[trigger] r@[i] == (samples@[i].lat, samples@[i].lon),
{
    let mut r: Vec<(i64, i64)> = Vec::new();
    let mut i: usize = 0;
    while i < samples.len()
        invariant
            i <= samples.len(),
            r@.len() == i,
            forall|k: int| 0 <= k < i ==> #[trigger] r@[k] == (samples@[k].lat, samples@[k].lon),
        decreases samples.len() - i,
    {
        r.push(samples[i].point());
        i = i + 1;
    }
    r
}

/// Everything a map of the log shows: the positions in order and the view.
pub struct MapData {
    pub points: Vec<(i64, i64)>,
    pub view: Viewport,
}

/// The map of `samples`: their positions in recording order, and the view
/// that the rule gives for them.
pub fn map_data(samples: &Vec<Sample>) -> (r: MapData)
    ensures
        r.points@.len() == samples@.len(),
        forall|i: int|
            0 <= i < r.points@.len() ==> #[trigger] r.points@[i] == (
                samples@[i].lat,
                samples@[i].lon,
            ),
        fits(r.points@, r.view),
{
    let points = map_points(samples);
    let view = fit_view(&points);
    MapData { points, view }
}

} // verus!
