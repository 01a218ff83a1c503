//! The coordinate type and its operations.

use crate::plane::lemma_cardinal_neighbors_at_manhattan_distance_one;
use crate::plane::lemma_neighbors_at_chebyshev_distance_one;
use crate::plane::Point;
use crate::scalar::GridInt;
use vstd::prelude::*;
use vstd::std_specs::convert::FromSpec;
use vstd::std_specs::convert::FromSpecImpl;

verus! {

/// A point of a two-dimensional grid.
///
/// Increasing `y` is "up" and increasing `x` is "right". Equality and hashing
/// are field-wise.
#[derive(Debug, Clone, Copy, PartialEq, Eq, Hash, Structural)]
pub struct Coord<T> {
    pub x: T,
    pub y: T,
}

impl<T> Coord<T> {
    /// The coordinate `(x, y)`, as a specification.
    pub open spec fn spec_new(x: T, y: T) -> Self {
        Coord { x, y }
    }

    /// Builds the coordinate `(x, y)`.
    #[verifier::when_used_as_spec(spec_new)]
    pub fn new(x: T, y: T) -> (c: Self)
        ensures
            c == Self::spec_new(x, y),
    {
        Self { x, y }
    }
}

impl<T> From<(T, T)> for Coord<T> {
    /// Builds the coordinate `(tuple.0, tuple.1)`.
    fn from(tuple: (T, T)) -> (c: Self) {
        Coord::new(tuple.0, tuple.1)
    }
}

impl<T> FromSpecImpl<(T, T)> for Coord<T> {
    open spec fn obeys_from_spec() -> bool {
        true
    }

    open spec fn from_spec(tuple: (T, T)) -> Self {
        Coord { x: tuple.0, y: tuple.1 }
    }
}

impl<T: Default> Default for Coord<T> {
    /// The coordinate whose components are both the default value of `T`:
    /// the origin, for the integer types.
    fn default() -> (c: Self)
        ensures
            call_ensures(T::default, (), c.x),
            call_ensures(T::default, (), c.y),
    {
        Coord { x: T::default(), y: T::default() }
    }
}

/// Converting a pair gives the coordinate that `new` builds from its two parts.
pub proof fn lemma_from_pair_is_new<T>(x: T, y: T)
    ensures
        <Coord<T> as FromSpec<(T, T)>>::obeys_from_spec(),
        <Coord<T> as FromSpec<(T, T)>>::from_spec((x, y)) == Coord::new(x, y),
{
}

impl<T: GridInt> View for Coord<T> {
    type V = Point;

    /// The point of the integer plane that the coordinate stands for.
    open spec fn view(&self) -> Point {
        Point { x: self.x.value(), y: self.y.value() }
    }
}

impl<T: GridInt> Coord<T> {
    /// Whether both components of `p` can be held by `T`.
    pub open spec fn fits(p: Point) -> bool {
        &&& T::least() <= p.x <= T::greatest()
        &&& T::least() <= p.y <= T::greatest()
    }

    /// Whether every point of `points` can be held by `T`.
    pub open spec fn all_fit(points: Seq<Point>) -> bool {
        forall|i: int| 0 <= i < points.len() ==> Self::fits(#[trigger] points[i])
    }

    /// Two coordinates that stand for the same point are equal.
    pub proof fn lemma_view_injective(a: Self, b: Self)
        requires
            a@ == b@,
        ensures
            a == b,
    {
        T::lemma_value_injective(a.x, b.x);
        T::lemma_value_injective(a.y, b.y);
    }

    /// Returns the coordinate above this one.
    pub fn up(&self) -> (c: Self)
        requires
            Self::fits(self@.up()),
        ensures
            c@ == self@.up(),
    {
        Self::new(self.x, self.y.plus(T::one()))
    }

    /// Returns the coordinate above and to the right of this one.
    pub fn up_right(&self) -> (c: Self)
        requires
            Self::fits(self@.up_right()),
        ensures
            c@ == self@.up_right(),
    {
        Self::new(self.x.plus(T::one()), self.y.plus(T::one()))
    }

    /// Returns the coordinate to the right of this one.
    pub fn right(&self) -> (c: Self)
        requires
            Self::fits(self@.right()),
        ensures
            c@ == self@.right(),
    {
        Self::new(self.x.plus(T::one()), self.y)
    }

    /// Returns the coordinate below and to the right of this one.
    pub fn down_right(&self) -> (c: Self)
        requires
            Self::fits(self@.down_right()),
        ensures
            c@ == self@.down_right(),
    {
        Self::new(self.x.plus(T::one()), self.y.minus(T::one()))
    }

    /// Returns the coordinate below this one.
    pub fn down(&self) -> (c: Self)
        requires
            Self::fits(self@.down()),
        ensures
            c@ == self@.down(),
    {
        Self::new(self.x, self.y.minus(T::one()))
    }

    /// Returns the coordinate below and to the left of this one.
    pub fn down_left(&self) -> (c: Self)
        requires
            Self::fits(self@.down_left()),
        ensures
            c@ == self@.down_left(),
    {
        Self::new(self.x.minus(T::one()), self.y.minus(T::one()))
    }

    /// Returns the coordinate to the left of this one.
    pub fn left(&self) -> (c: Self)
        requires
            Self::fits(self@.left()),
        ensures
            c@ == self@.left(),
    {
        Self::new(self.x.minus(T::one()), self.y)
    }

    /// Returns the coordinate above and to the left of this one.
    pub fn up_left(&self) -> (c: Self)
        requires
            Self::fits(self@.up_left()),
        ensures
            c@ == self@.up_left(),
    {
        Self::new(self.x.minus(T::one()), self.y.plus(T::one()))
    }

    /// Returns the eight surrounding coordinates, clockwise starting from "up".
    ///
    /// They are pairwise distinct, and they are exactly the coordinates at
    /// Chebyshev distance 1 from this one.
    pub fn neighbors(&self) -> (r: [Self; 8])
        requires
            Self::all_fit(self@.neighbors()),
        ensures
            forall|i: int| 0 <= i < 8 ==> (#[trigger] r@[i])@ == self@.neighbors()[i],
            r@.no_duplicates(),
            forall|p: Self| r@.contains(p) <==> self@.chebyshev(p@) == 1,
    {
        proof {
            let s = self@.neighbors();
            assert(Self::fits(s[0]) && Self::fits(s[1]) && Self::fits(s[2]) && Self::fits(s[3]));
            assert(Self::fits(s[4]) && Self::fits(s[5]) && Self::fits(s[6]) && Self::fits(s[7]));
        }
        let r = [
            self.up(),
            self.up_right(),
            self.right(),
            self.down_right(),
            self.down(),
            self.down_left(),
            self.left(),
            self.up_left(),
        ];
        proof {
            Self::lemma_views_characterise(r@, self@.neighbors());
            lemma_neighbors_at_chebyshev_distance_one(self@);
        }
        r
    }

    /// Returns the four coordinates that share an edge with this one, clockwise
    /// starting from "up".
    ///
    /// They are pairwise distinct, and they are exactly the coordinates at
    /// Manhattan distance 1 from this one.
    pub fn cardinal_neighbors(&self) -> (r: [Self; 4])
        requires
            Self::all_fit(self@.cardinal_neighbors()),
        ensures
            forall|i: int| 0 <= i < 4 ==> (#[trigger] r@[i])@ == self@.cardinal_neighbors()[i],
            r@.no_duplicates(),
            forall|p: Self| r@.contains(p) <==> self@.manhattan(p@) == 1,
    {
        proof {
            let s = self@.cardinal_neighbors();
            assert(Self::fits(s[0]) && Self::fits(s[1]) && Self::fits(s[2]) && Self::fits(s[3]));
        }
        let r = [self.up(), self.right(), self.down(), self.left()];
        proof {
            Self::lemma_views_characterise(r@, self@.cardinal_neighbors());
            lemma_cardinal_neighbors_at_manhattan_distance_one(self@);
        }
        r
    }

    /// Returns the component-wise difference `self - other`.
    pub fn difference(&self, other: &Self) -> (d: Self)
        requires
            Self::fits(self@.difference(other@)),
        ensures
            d@ == self@.difference(other@),
    {
        Self::new(self.x.minus(other.x), self.y.minus(other.y))
    }

    /// Returns the component-wise difference `self - other`, or `None` exactly
    /// when one of its components cannot be held by `T`.
    pub fn checked_difference(&self, other: &Self) -> (d: Option<Self>)
        ensures
            d.is_some() <==> Self::fits(self@.difference(other@)),
            d matches Some(v) ==> v@ == self@.difference(other@),
    {
        match (self.x.checked_minus(other.x), self.y.checked_minus(other.y)) {
            (Some(x), Some(y)) => Some(Self::new(x, y)),
            _ => None,
        }
    }

    /// Returns the square of the Euclidean distance between this coordinate and
    /// `other`: the sum of the squares of the two component-wise differences.
    pub fn distance_squared(&self, other: &Self) -> (d: T)
        requires
            Self::fits(self@.difference(other@)),
            self@.distance_squared(other@) <= T::greatest(),
        ensures
            d.value() == self@.distance_squared(other@),
    {
        let x_diff = self.x.minus(other.x);
        let y_diff = self.y.minus(other.y);
        proof {
            T::lemma_limits();
            Self::lemma_squares(x_diff.value(), y_diff.value());
        }
        x_diff.times(x_diff).plus(y_diff.times(y_diff))
    }

    /// Returns the square of the Euclidean distance between this coordinate and
    /// `other`, or `None` exactly when a component-wise difference or the sum of
    /// their squares cannot be held by `T`.
    pub fn checked_distance_squared(&self, other: &Self) -> (d: Option<T>)
        ensures
            d.is_some() <==> (Self::fits(self@.difference(other@))
                && self@.distance_squared(other@) <= T::greatest()),
            d matches Some(v) ==> v.value() == self@.distance_squared(other@),
    {
        proof {
            T::lemma_limits();
            Self::lemma_squares(self@.x - other@.x, self@.y - other@.y);
        }
        let x_diff = match self.x.checked_minus(other.x) {
            Some(v) => v,
            None => return None,
        };
        let y_diff = match self.y.checked_minus(other.y) {
            Some(v) => v,
            None => return None,
        };
        let x_square = match x_diff.checked_times(x_diff) {
            Some(v) => v,
            None => return None,
        };
        let y_square = match y_diff.checked_times(y_diff) {
            Some(v) => v,
            None => return None,
        };
        x_square.checked_plus(y_square)
    }

    /// Squares are not negative.
    proof fn lemma_squares(a: int, b: int)
        ensures
            0 <= a * a,
            0 <= b * b,
    {
        assert(0 <= a * a) by (nonlinear_arith);
        assert(0 <= b * b) by (nonlinear_arith);
    }

    /// Where the coordinates of `coords` stand, one by one, for the points of
    /// `points`: `coords` repeats no coordinate if `points` repeats no point, and
    /// a coordinate occurs in `coords` exactly when its point occurs in `points`.
    proof fn lemma_views_characterise(coords: Seq<Self>, points: Seq<Point>)
        requires
            coords.len() == points.len(),
            forall|i: int| 0 <= i < coords.len() ==> (#[trigger] coords[i])@ == points[i],
        ensures
            points.no_duplicates() ==> coords.no_duplicates(),
            forall|p: Self| coords.contains(p) <==> points.contains(p@),
    {
        assert forall|p: Self| coords.contains(p) <==> points.contains(p@) by {
            if coords.contains(p) {
                let i = choose|i: int| 0 <= i < coords.len() && coords[i] == p;
                assert(points[i] == p@);
            }
            if points.contains(p@) {
                let i = choose|i: int| 0 <= i < points.len() && points[i] == p@;
                Self::lemma_view_injective(coords[i], p);
                assert(coords[i] == p);
            }
        }
    }
}

} // verus!
