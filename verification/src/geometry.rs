//! Points, directed segments, the division of a segment into thirds, and
//! the arithmetic that the caller brings.

use crate::lines::{LineNode, Placement};
use stretch::geometry::Point;
use vstd::prelude::*;

verus! {

/// `stretch::geometry::Point<T>`: a pair of coordinates. Nothing is claimed of
/// it; a point is carried through as a whole.
#[verifier::external_type_specification]
#[verifier::external_body]
#[verifier::reject_recursive_types(T)]
pub struct ExPoint<T>(Point<T>);

/// A directed segment: thirds and bump sides are taken from `start` to `end`.
#[derive(Debug)]
#[verifier::reject_recursive_types(T)]
pub struct Segment<T> {
    pub start: Point<T>,
    pub end: Point<T>,
}

/// A segment together with the four points that one refinement step needs:
/// the points at one third and two thirds of the way from `start` to `end`,
/// and the two candidate apexes, one on each side of the middle third.
#[derive(Debug)]
#[verifier::reject_recursive_types(T)]
pub struct Division<T> {
    pub segment: Segment<T>,
    pub first_third: Point<T>,
    pub second_third: Point<T>,
    pub first_apex: Point<T>,
    pub second_apex: Point<T>,
}

impl<T: Copy> Copy for Segment<T> {

}

impl<T: Copy> Clone for Segment<T> {
    fn clone(&self) -> (copy: Self)
        ensures
            copy == *self,
    {
        *self
    }
}

impl<T: Copy> Copy for Division<T> {

}

impl<T: Copy> Clone for Division<T> {
    fn clone(&self) -> (copy: Self)
        ensures
            copy == *self,
    {
        *self
    }
}

impl<T: Copy> Division<T> {
    /// The apex that a bump takes: the first one when `pick_first` holds,
    /// the second one otherwise.
    pub open spec fn spec_apex(&self, pick_first: bool) -> Point<T> {
        if pick_first {
            self.first_apex
        } else {
            self.second_apex
        }
    }

    /// The apex that a bump takes under the given choice.
    #[verifier::when_used_as_spec(spec_apex)]
    pub fn apex(&self, pick_first: bool) -> (p: Point<T>)
        ensures
            p == self.spec_apex(pick_first),
    {
        if pick_first {
            self.first_apex
        } else {
            self.second_apex
        }
    }
}

/// The side of the square from which the endpoints of a seed are drawn.
pub const SEED_SIDE: u32 = 1000;

/// The arithmetic of the coordinates, which the caller brings:
/// - `random_point(side)` draws a point from the square of that side;
/// - `endpoints(line)` reconstructs the segment that a line of the scene shows;
/// - `between(start, end, numerator, denominator)` is the point at that
///   fraction of the way from `start` to `end`;
/// - `cross(a, b)` is the pair of points that span the perpendicular bisector
///   of `a` and `b`, one on each side;
/// - `place(segment)` says where the layers of a segment go.
///
/// The library fixes what these are asked and what is done with the answers;
/// of the answers themselves it claims no more than the functions do.
pub struct Geometry<R, E, B, C, P> {
    pub random_point: R,
    pub endpoints: E,
    pub between: B,
    pub cross: C,
    pub place: P,
}

impl<
    T: Copy,
    R: Fn(u32) -> Point<T>,
    E: Fn(LineNode) -> Segment<T>,
    B: Fn(Point<T>, Point<T>, u32, u32) -> Point<T>,
    C: Fn(Point<T>, Point<T>) -> (Point<T>, Point<T>),
    P: Fn(Segment<T>) -> Placement,
> Geometry<R, E, B, C, P> {
    /// The functions accept everything that the library asks of them: a point
    /// from the seed square, the endpoints of a line that is longer than
    /// zero, the points at one third and at two thirds of any segment, the
    /// bisector of any two points, the placement of any segment.
    pub open spec fn usable(&self) -> bool {
        &&& self.random_point.requires((SEED_SIDE,))
        &&& forall|line: LineNode| line.height > 0 ==> self.endpoints.requires((line,))
        &&& forall|start: Point<T>, end: Point<T>|
            #![trigger self.between.requires((start, end, 1u32, 3u32))]
            #![trigger self.between.requires((start, end, 2u32, 3u32))]
            self.between.requires((start, end, 1u32, 3u32)) && self.between.requires(
                (start, end, 2u32, 3u32),
            )
        &&& forall|a: Point<T>, b: Point<T>| self.cross.requires((a, b))
        &&& forall|segment: Segment<T>| self.place.requires((segment,))
    }

    /// `division` divides `segment`: its thirds are what `between` gave at
    /// one third and at two thirds from start to end, and its apexes are what
    /// `cross` gave for the first third and the second third, in this order.
    pub open spec fn divides(&self, segment: Segment<T>, division: Division<T>) -> bool {
        &&& division.segment == segment
        &&& self.between.ensures((segment.start, segment.end, 1u32, 3u32), division.first_third)
        &&& self.between.ensures((segment.start, segment.end, 2u32, 3u32), division.second_third)
        &&& self.cross.ensures(
            (division.first_third, division.second_third),
            (division.first_apex, division.second_apex),
        )
    }

    /// Divides a segment: finds its thirds and the two candidate apexes over
    /// its middle third.
    pub fn divide(&self, segment: Segment<T>) -> (division: Division<T>)
        requires
            self.usable(),
        ensures
            self.divides(segment, division),
    {
        let first_third = (self.between)(segment.start, segment.end, 1, 3);
        let second_third = (self.between)(segment.start, segment.end, 2, 3);
        let (first_apex, second_apex) = (self.cross)(first_third, second_third);
        Division { segment, first_third, second_third, first_apex, second_apex }
    }
}

} // verus!
