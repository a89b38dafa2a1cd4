//! The part of a primitive's signed distance that is decided rather than
//! measured: for a triangle, which of its edges is nearest and whether the
//! point lies within; for a segment, where along it the nearest point lies;
//! for a box, whether the point is within and how far beyond each face.

use vstd::prelude::*;
use crate::scalar::Scalar;

verus! {

/// One edge of a triangle as a point sees it: the distance of the point to
/// the edge as a segment, and the two products whose difference is the cross
/// product of the edge with the offset of the point from the start of the
/// edge. For the edge from `a` to `b` and the point `p`, `left` is
/// `(b.x - a.x) * (p.y - a.y)` and `right` is `(b.y - a.y) * (p.x - a.x)`.
#[derive(Clone, Copy, Debug, PartialEq, Eq, Structural)]
pub struct Edge {
    pub distance: Scalar,
    pub left: Scalar,
    pub right: Scalar,
}

impl Edge {
    /// The point lies strictly to the left of the edge.
    pub open spec fn on_left(self) -> bool {
        self.right.lt(self.left)
    }

    /// The point lies strictly to the right of the edge.
    pub open spec fn on_right(self) -> bool {
        self.left.lt(self.right)
    }
}

/// The point lies strictly within the triangle: on the same side of all
/// three edges, taken in order around it.
pub open spec fn encloses(ab: Edge, bc: Edge, ca: Edge) -> bool {
    ||| ab.on_left() && bc.on_left() && ca.on_left()
    ||| ab.on_right() && bc.on_right() && ca.on_right()
}

/// The distance to the nearest of the three edges.
pub open spec fn nearest_edge(ab: Edge, bc: Edge, ca: Edge) -> Scalar {
    ab.distance.min_of(bc.distance).min_of(ca.distance)
}

/// The smallest of the ranks of the three edge distances.
pub open spec fn least_rank(ab: Edge, bc: Edge, ca: Edge) -> int {
    vstd::math::min(
        vstd::math::min(ab.distance.rank(), bc.distance.rank()),
        ca.distance.rank(),
    )
}

/// The signed distance of a triangle: the distance to its nearest edge,
/// negated where the point lies strictly within.
pub open spec fn triangle_of(ab: Edge, bc: Edge, ca: Edge) -> Scalar {
    if encloses(ab, bc, ca) {
        nearest_edge(ab, bc, ca).negated()
    } else {
        nearest_edge(ab, bc, ca)
    }
}

/// Whether the point lies strictly within the triangle.
pub fn is_enclosed(ab: &Edge, bc: &Edge, ca: &Edge) -> (r: bool)
    ensures
        r == encloses(*ab, *bc, *ca),
{
    let left = ab.left.greater_than(ab.right) && bc.left.greater_than(bc.right)
        && ca.left.greater_than(ca.right);
    let right = ab.left.less_than(ab.right) && bc.left.less_than(bc.right) && ca.left.less_than(
        ca.right,
    );
    left || right
}

/// The signed distance of a triangle from its three edges as the point sees
/// them. Where the three edge distances are numbers and none is negative,
/// the result has the magnitude of the smallest and is negative or zero
/// within the triangle, positive or zero elsewhere.
pub fn triangle_sdf(ab: Edge, bc: Edge, ca: Edge) -> (r: Scalar)
    ensures
        r == triangle_of(ab, bc, ca),
        !ab.distance.nan() && !bc.distance.nan() && !ca.distance.nan() ==> !r.nan() && r.rank()
            == (if encloses(ab, bc, ca) {
            -least_rank(ab, bc, ca)
        } else {
            least_rank(ab, bc, ca)
        }),
{
    let nearest = ab.distance.min(bc.distance).min(ca.distance);
    if is_enclosed(&ab, &bc, &ca) {
        nearest.neg()
    } else {
        nearest
    }
}

/// A quotient held to the span from zero to one; one where the quotient is
/// no number.
pub open spec fn unit_clamp_of(quotient: Scalar) -> Scalar {
    quotient.min_of(Scalar::one_value()).max_of(Scalar::zero_value())
}

/// Where along a segment the point nearest to a query lies, as a share of
/// the segment, from the quotient of the projection of the query onto the
/// segment by the squared length of the segment.
///
/// The share is always a number between zero and one, also where the
/// segment has no length and the quotient is no number; every share then
/// names the same point.
pub fn segment_parameter(quotient: Scalar) -> (t: Scalar)
    ensures
        t == unit_clamp_of(quotient),
        !t.nan(),
        0 <= t.rank() <= Scalar::one_value().rank(),
        !quotient.nan() && 0 <= quotient.rank() <= Scalar::one_value().rank() ==> t == quotient,
        !quotient.nan() && quotient.rank() < 0 ==> t == Scalar::zero_value(),
        quotient.nan() || quotient.rank() > Scalar::one_value().rank() ==> t
            == Scalar::one_value(),
{
    quotient.min(Scalar::one()).max(Scalar::zero())
}

/// A box as a point sees it, from the distances of the point beyond the two
/// pairs of faces (negative between the faces of a pair).
#[derive(Clone, Copy, Debug, PartialEq, Eq, Structural)]
pub struct BoxParts {
    /// The signed distance where the point lies within the box, zero
    /// elsewhere.
    pub within: Scalar,
    /// How far the point lies beyond the faces across the first axis, zero
    /// between them.
    pub beyond_x: Scalar,
    /// How far the point lies beyond the faces across the second axis, zero
    /// between them.
    pub beyond_y: Scalar,
}

/// A distance beyond a face where it is positive, and else zero.
pub open spec fn outward(d: Scalar) -> Scalar {
    if d.positive() {
        d
    } else {
        Scalar::zero_value()
    }
}

/// The parts of a box's signed distance. The distance itself is `within`
/// plus the length of the vector of the two `beyond` parts.
pub open spec fn box_parts_of(dx: Scalar, dy: Scalar) -> BoxParts {
    BoxParts {
        within: dx.max_of(dy).min_of(Scalar::zero_value()),
        beyond_x: outward(dx),
        beyond_y: outward(dy),
    }
}

/// Splits a box's signed distance into its parts. Between numbers: within
/// the box nothing lies beyond a face and `within` is the greater of the two
/// distances; outside it `within` is zero.
pub fn box_parts(dx: Scalar, dy: Scalar) -> (r: BoxParts)
    ensures
        r == box_parts_of(dx, dy),
        !r.beyond_x.nan() && r.beyond_x.rank() >= 0,
        !r.beyond_y.nan() && r.beyond_y.rank() >= 0,
        !dx.nan() && !dy.nan() ==> !r.within.nan() && r.within.rank() <= 0,
        !dx.nan() && !dy.nan() && dx.rank() <= 0 && dy.rank() <= 0 ==> r.within.rank()
            == vstd::math::max(dx.rank(), dy.rank()) && r.beyond_x == Scalar::zero_value()
            && r.beyond_y == Scalar::zero_value(),
        dx.positive() || dy.positive() ==> r.within.rank() == 0,
{
    let within = dx.max(dy).min(Scalar::zero());
    let beyond_x = if dx.is_positive() {
        dx
    } else {
        Scalar::zero()
    };
    let beyond_y = if dy.is_positive() {
        dy
    } else {
        Scalar::zero()
    };
    BoxParts { within, beyond_x, beyond_y }
}

/// At the center of a box the point lies as far within each pair of faces
/// as the half extent across them reaches: nothing lies beyond a face, and
/// the distance is the smaller half extent, negated.
pub proof fn lemma_box_center(half_x: Scalar, half_y: Scalar)
    requires
        !half_x.nan() && half_x.rank() >= 0,
        !half_y.nan() && half_y.rank() >= 0,
    ensures
        box_parts_of(half_x.negated(), half_y.negated()).within.rank() == -vstd::math::min(
            half_x.rank(),
            half_y.rank(),
        ),
        box_parts_of(half_x.negated(), half_y.negated()).beyond_x == Scalar::zero_value(),
        box_parts_of(half_x.negated(), half_y.negated()).beyond_y == Scalar::zero_value(),
{
}

/// Straight off a face of a box, between the faces of the other pair, the
/// point is not within, and all that lies beyond a face is its distance
/// from that one face.
pub proof fn lemma_box_off_a_face(off: Scalar, along: Scalar)
    requires
        off.positive(),
        !along.nan() && along.rank() <= 0,
    ensures
        box_parts_of(off, along).within.rank() == 0,
        box_parts_of(off, along).beyond_x == off,
        box_parts_of(off, along).beyond_y == Scalar::zero_value(),
        box_parts_of(along, off).within.rank() == 0,
        box_parts_of(along, off).beyond_x == Scalar::zero_value(),
        box_parts_of(along, off).beyond_y == off,
{
}

} // verus!
