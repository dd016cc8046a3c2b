//! 8-directional adjacency and the travel-cost heuristic over a bounded grid.

use vstd::prelude::*;

verus! {

/// Bound adjacency helper for a grid of `width` x `height` tiles: enumerates
/// the in-bounds cardinal and diagonal neighbors of a point, and estimates
/// travel cost between two points.
#[derive(Clone, Copy, Debug)]
pub struct EuclideanNeighborhood {
    pub width: usize,
    pub height: usize,
}

/// One point of the grid, as the pathfinding layer addresses it.
pub type Point = (usize, usize);

/// The largest supported grid side length; keeps index and heuristic
/// arithmetic within `usize` on every platform.
pub const MAX_GRID_DIM: usize = 1048576;

impl EuclideanNeighborhood {
    /// Dimensions small enough that the heuristic arithmetic cannot overflow.
    pub open spec fn wf(self) -> bool {
        self.width <= MAX_GRID_DIM && self.height <= MAX_GRID_DIM
    }

    /// Creates a neighborhood for a grid of the given size.
    pub fn new(width: usize, height: usize) -> (r: EuclideanNeighborhood)
        requires
            width <= MAX_GRID_DIM,
            height <= MAX_GRID_DIM,
        ensures
            r.width == width,
            r.height == height,
            r.wf(),
    {
        EuclideanNeighborhood { width, height }
    }

    /// Whether (cx, cy) lies on the grid.
    pub open spec fn on_grid(self, cx: int, cy: int) -> bool {
        0 <= cx < self.width && 0 <= cy < self.height
    }

    /// A candidate neighbor of (px, py): on the grid, distinct from the
    /// point itself, and within Chebyshev distance 1.
    pub open spec fn is_candidate(self, px: int, py: int, cx: int, cy: int) -> bool {
        self.on_grid(cx, cy) && !(cx == px && cy == py) && crate::tile::abs_diff_spec(px, cx) <= 1
            && crate::tile::abs_diff_spec(py, cy) <= 1
    }

    /// The neighbor list of (px, py), in the fixed clockwise enumeration
    /// order starting below the point.
    pub open spec fn nb_list(self, px: int, py: int) -> Seq<Point> {
        let c0 = Seq::<Point>::empty();
        let c1 = self.nb_push(c0, px, py - 1);
        let c2 = self.nb_push(c1, px + 1, py - 1);
        let c3 = self.nb_push(c2, px + 1, py);
        let c4 = self.nb_push(c3, px + 1, py + 1);
        let c5 = self.nb_push(c4, px, py + 1);
        let c6 = self.nb_push(c5, px - 1, py + 1);
        let c7 = self.nb_push(c6, px - 1, py);
        self.nb_push(c7, px - 1, py - 1)
    }

    pub open spec fn nb_push(self, s: Seq<Point>, cx: int, cy: int) -> Seq<Point> {
        if self.on_grid(cx, cy) {
            s.push((cx as usize, cy as usize))
        } else {
            s
        }
    }

    /// Appends to `target` every in-bounds tile adjacent (cardinally or
    /// diagonally) to `point`, in a fixed deterministic order.
    pub fn get_all_neighbors(&self, point: Point, target: &mut Vec<Point>)
        requires
            self.wf(),
            point.0 <= self.width,
            point.1 <= self.height,
        ensures
            final(target)@ == old(target)@ + self.nb_list(point.0 as int, point.1 as int),
    {
        let (px, py) = point;
        if py >= 1 && px < self.width && py - 1 < self.height {
            target.push((px, py - 1));
        }
        if px + 1 < self.width && py >= 1 && py - 1 < self.height {
            target.push((px + 1, py - 1));
        }
        if px + 1 < self.width && py < self.height {
            target.push((px + 1, py));
        }
        if px + 1 < self.width && py + 1 < self.height {
            target.push((px + 1, py + 1));
        }
        if px < self.width && py + 1 < self.height {
            target.push((px, py + 1));
        }
        if px >= 1 && px - 1 < self.width && py + 1 < self.height {
            target.push((px - 1, py + 1));
        }
        if px >= 1 && px - 1 < self.width && py < self.height {
            target.push((px - 1, py));
        }
        if px >= 1 && px - 1 < self.width && py >= 1 && py - 1 < self.height {
            target.push((px - 1, py - 1));
        }
        proof {
            assert(target@ =~= old(target)@ + self.nb_list(px as int, py as int));
        }
    }

    /// Every listed neighbor is a candidate, and every candidate is listed.
    pub proof fn lemma_nb_list_characterization(self, px: int, py: int)
        ensures
            forall|i: int|
                0 <= i < self.nb_list(px, py).len() ==> self.is_candidate(
                    px,
                    py,
                    #[trigger] self.nb_list(px, py)[i].0 as int,
                    self.nb_list(px, py)[i].1 as int,
                ),
            forall|cx: int, cy: int|
                self.is_candidate(px, py, cx, cy) ==> self.nb_list(px, py).contains(
                    ((cx as usize, cy as usize)),
                ),
    {
        let l = self.nb_list(px, py);
        assert forall|cx: int, cy: int| self.is_candidate(px, py, cx, cy) implies l.contains(
            ((cx as usize, cy as usize)),
        ) by {
            let q = (cx as usize, cy as usize);
            assert(px - 1 <= cx <= px + 1 && py - 1 <= cy <= py + 1);
            let c0 = Seq::<Point>::empty();
            let c1 = self.nb_push(c0, px, py - 1);
            let c2 = self.nb_push(c1, px + 1, py - 1);
            let c3 = self.nb_push(c2, px + 1, py);
            let c4 = self.nb_push(c3, px + 1, py + 1);
            let c5 = self.nb_push(c4, px, py + 1);
            let c6 = self.nb_push(c5, px - 1, py + 1);
            let c7 = self.nb_push(c6, px - 1, py);
            if cx == px && cy == py - 1 {
                assert(l[0] == q);
            } else if cx == px + 1 && cy == py - 1 {
                assert(l[c1.len() as int] == q);
            } else if cx == px + 1 && cy == py {
                assert(l[c2.len() as int] == q);
            } else if cx == px + 1 && cy == py + 1 {
                assert(l[c3.len() as int] == q);
            } else if cx == px && cy == py + 1 {
                assert(l[c4.len() as int] == q);
            } else if cx == px - 1 && cy == py + 1 {
                assert(l[c5.len() as int] == q);
            } else if cx == px - 1 && cy == py {
                assert(l[c6.len() as int] == q);
            } else {
                assert(cx == px - 1 && cy == py - 1);
                assert(l[c7.len() as int] == q);
            }
        }
    }

    /// Octile-style travel estimate between two points, scaled so that the
    /// baseline tile cost of 100 is one step: straight moves count 100 and
    /// diagonal progress counts 142 for the pair of axes it advances.
    pub fn heuristic(&self, point: Point, goal: Point) -> (r: usize)
        requires
            self.wf(),
            point.0 <= self.width,
            point.1 <= self.height,
            goal.0 <= self.width,
            goal.1 <= self.height,
        ensures
            r == self.heuristic_spec(point.0 as int, point.1 as int, goal.0 as int, goal.1 as int),
    {
        let d_x = if point.0 >= goal.0 {
            point.0 - goal.0
        } else {
            goal.0 - point.0
        };
        let d_y = if point.1 >= goal.1 {
            point.1 - goal.1
        } else {
            goal.1 - point.1
        };
        let m = if d_x <= d_y {
            d_x
        } else {
            d_y
        };
        100 * (d_x + d_y) - 58 * m
    }

    /// 100 per axis of distance, with 58 taken back per diagonal step the
    /// two axes share (142 per diagonal instead of 200).
    pub open spec fn heuristic_spec(self, px: int, py: int, gx: int, gy: int) -> int {
        let dx = crate::tile::abs_diff_spec(px, gx);
        let dy = crate::tile::abs_diff_spec(py, gy);
        let m = if dx <= dy {
            dx
        } else {
            dy
        };
        100 * (dx + dy) - 58 * m
    }
}

} // verus!
