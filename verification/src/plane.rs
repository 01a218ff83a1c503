//! The integer plane: the mathematical model that coordinates are specified against.

use vstd::prelude::*;

verus! {

/// A point of the unbounded integer plane.
///
/// Increasing `y` is "up" and increasing `x` is "right".
pub struct Point {
    pub x: int,
    pub y: int,
}

/// The absolute value of `v`.
pub open spec fn magnitude(v: int) -> int {
    if v < 0 {
        -v
    } else {
        v
    }
}

impl Point {
    /// The point one step above.
    pub open spec fn up(self) -> Point {
        Point { x: self.x, y: self.y + 1 }
    }

    /// The point one step above and one to the right.
    pub open spec fn up_right(self) -> Point {
        Point { x: self.x + 1, y: self.y + 1 }
    }

    /// The point one step to the right.
    pub open spec fn right(self) -> Point {
        Point { x: self.x + 1, y: self.y }
    }

    /// The point one step below and one to the right.
    pub open spec fn down_right(self) -> Point {
        Point { x: self.x + 1, y: self.y - 1 }
    }

    /// The point one step below.
    pub open spec fn down(self) -> Point {
        Point { x: self.x, y: self.y - 1 }
    }

    /// The point one step below and one to the left.
    pub open spec fn down_left(self) -> Point {
        Point { x: self.x - 1, y: self.y - 1 }
    }

    /// The point one step to the left.
    pub open spec fn left(self) -> Point {
        Point { x: self.x - 1, y: self.y }
    }

    /// The point one step above and one to the left.
    pub open spec fn up_left(self) -> Point {
        Point { x: self.x - 1, y: self.y + 1 }
    }

    /// The eight surrounding points, clockwise starting from "up".
    pub open spec fn neighbors(self) -> Seq<Point> {
        seq![
            self.up(),
            self.up_right(),
            self.right(),
            self.down_right(),
            self.down(),
            self.down_left(),
            self.left(),
            self.up_left(),
        ]
    }

    /// The four points that share an edge with this one, clockwise starting from "up".
    pub open spec fn cardinal_neighbors(self) -> Seq<Point> {
        seq![self.up(), self.right(), self.down(), self.left()]
    }

    /// The component-wise difference `self - other`.
    pub open spec fn difference(self, other: Point) -> Point {
        Point { x: self.x - other.x, y: self.y - other.y }
    }

    /// The Chebyshev distance: the larger of the two axis-wise distances.
    pub open spec fn chebyshev(self, other: Point) -> int {
        let dx = magnitude(self.x - other.x);
        let dy = magnitude(self.y - other.y);
        if dx < dy {
            dy
        } else {
            dx
        }
    }

    /// The Manhattan distance: the sum of the two axis-wise distances.
    pub open spec fn manhattan(self, other: Point) -> int {
        magnitude(self.x - other.x) + magnitude(self.y - other.y)
    }

    /// The square of the Euclidean distance.
    pub open spec fn distance_squared(self, other: Point) -> int {
        (self.x - other.x) * (self.x - other.x) + (self.y - other.y) * (self.y - other.y)
    }
}

/// The eight neighbours of a point are pairwise distinct, and they are exactly
/// the points at Chebyshev distance 1 from it.
pub proof fn lemma_neighbors_at_chebyshev_distance_one(c: Point)
    ensures
        c.neighbors().len() == 8,
        c.neighbors().no_duplicates(),
        forall|p: Point| c.neighbors().contains(p) <==> c.chebyshev(p) == 1,
{
    let s = c.neighbors();
    assert forall|p: Point| s.contains(p) <==> c.chebyshev(p) == 1 by {
        if c.chebyshev(p) == 1 {
            let dx = p.x - c.x;
            let dy = p.y - c.y;
            let i: int = if dx == 0 && dy == 1 {
                0
            } else if dx == 1 && dy == 1 {
                1
            } else if dx == 1 && dy == 0 {
                2
            } else if dx == 1 && dy == -1 {
                3
            } else if dx == 0 && dy == -1 {
                4
            } else if dx == -1 && dy == -1 {
                5
            } else if dx == -1 && dy == 0 {
                6
            } else {
                7
            };
            assert(s[i] == p);
        }
    }
}

/// The four cardinal neighbours of a point are pairwise distinct, and they are
/// exactly the points at Manhattan distance 1 from it.
pub proof fn lemma_cardinal_neighbors_at_manhattan_distance_one(c: Point)
    ensures
        c.cardinal_neighbors().len() == 4,
        c.cardinal_neighbors().no_duplicates(),
        forall|p: Point| c.cardinal_neighbors().contains(p) <==> c.manhattan(p) == 1,
{
    let s = c.cardinal_neighbors();
    assert forall|p: Point| s.contains(p) <==> c.manhattan(p) == 1 by {
        if c.manhattan(p) == 1 {
            let dx = p.x - c.x;
            let dy = p.y - c.y;
            let i: int = if dy == 1 {
                0
            } else if dx == 1 {
                1
            } else if dy == -1 {
                2
            } else {
                3
            };
            assert(s[i] == p);
        }
    }
}

/// The squared Euclidean distance does not depend on the order of its arguments.
pub proof fn lemma_distance_squared_symmetric(a: Point, b: Point)
    ensures
        a.distance_squared(b) == b.distance_squared(a),
{
    let dx = a.x - b.x;
    let dy = a.y - b.y;
    assert(dx * dx == (-dx) * (-dx)) by (nonlinear_arith);
    assert(dy * dy == (-dy) * (-dy)) by (nonlinear_arith);
}

/// The squared Euclidean distance from a point to itself is zero.
pub proof fn lemma_distance_squared_to_self(a: Point)
    ensures
        a.distance_squared(a) == 0,
{
}

/// The Manhattan distance does not depend on the order of its arguments.
pub proof fn lemma_manhattan_symmetric(a: Point, b: Point)
    ensures
        a.manhattan(b) == b.manhattan(a),
{
}

/// The Manhattan distance from a point to itself is zero.
pub proof fn lemma_manhattan_to_self(a: Point)
    ensures
        a.manhattan(a) == 0,
{
}

} // verus!
