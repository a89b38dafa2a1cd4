//! Scenes as data: a tree of unions, subtractions and intersections over
//! leaves, and the interpreter that evaluates it at a point.
//!
//! A leaf is a primitive shape under a material. Where the point lies with
//! respect to each primitive is measured by the caller, who may transform the
//! point first (fold it into one quadrant, say) as each leaf requires; the
//! interpreter receives one signed distance per leaf and composes them.

use vstd::prelude::*;
use crate::scalar::Scalar;
use crate::surface::{intersection_of, intersection_op, subtract_op, subtraction_of, union_of, union_op, Material, SurfaceSample};

verus! {

/// A scene. The `slot` of a leaf says which of the measured distances is its
/// own.
#[derive(Debug)]
pub enum Scene {
    Leaf { slot: usize, material: Material },
    Union(Box<Scene>, Box<Scene>),
    Subtract(Box<Scene>, Box<Scene>),
    Intersection(Box<Scene>, Box<Scene>),
}

/// Slot of the horizontal bar of the stock scene.
pub const ALIGN_LINE: usize = 0;

/// Slot of the slanted upright bar of the stock scene.
pub const VERTICAL_LINE: usize = 1;

/// Slot of the bar that cuts the upper left corner of the stock scene.
pub const LEFT_TOP_CORNER: usize = 2;

/// Slot of the bar that cuts the lower end of the stock scene.
pub const BOTTOM_CORNER: usize = 3;

/// Slot of the triangle of the stock scene.
pub const TRIANGLE_RIGHT_TOP: usize = 4;

/// Slot of the lamp of the stock scene.
pub const LIGHT: usize = 5;

/// Number of leaves in the stock scene.
pub const STOCK_LEAVES: usize = 6;

impl Scene {
    /// Every leaf finds its distance among `count` measurements.
    pub open spec fn leaves_within(self, count: nat) -> bool
        decreases self,
    {
        match self {
            Scene::Leaf { slot, material } => slot < count,
            Scene::Union(a, b) => a.leaves_within(count) && b.leaves_within(count),
            Scene::Subtract(a, b) => a.leaves_within(count) && b.leaves_within(count),
            Scene::Intersection(a, b) => a.leaves_within(count) && b.leaves_within(count),
        }
    }

    /// The scene at the point where its leaves measure `distances`.
    pub open spec fn eval(self, distances: Seq<Scalar>) -> SurfaceSample
        decreases self,
    {
        match self {
            Scene::Leaf { slot, material } => material.sample(distances[slot as int]),
            Scene::Union(a, b) => union_of(a.eval(distances), b.eval(distances)),
            Scene::Subtract(a, b) => subtraction_of(a.eval(distances), b.eval(distances)),
            Scene::Intersection(a, b) => intersection_of(a.eval(distances), b.eval(distances)),
        }
    }

    /// The stock scene: two bars and a triangle joined, two bars carved out
    /// of them, and a lamp beside what is left.
    pub open spec fn stock_value() -> Scene {
        let glass = Material::glass_value();
        let joined = Scene::Union(
            Box::new(
                Scene::Union(
                    Box::new(Scene::Leaf { slot: VERTICAL_LINE, material: glass }),
                    Box::new(Scene::Leaf { slot: TRIANGLE_RIGHT_TOP, material: glass }),
                ),
            ),
            Box::new(Scene::Leaf { slot: ALIGN_LINE, material: glass }),
        );
        let carved = Scene::Subtract(
            Box::new(
                Scene::Subtract(
                    Box::new(joined),
                    Box::new(Scene::Leaf { slot: LEFT_TOP_CORNER, material: glass }),
                ),
            ),
            Box::new(Scene::Leaf { slot: BOTTOM_CORNER, material: glass }),
        );
        Scene::Union(
            Box::new(carved),
            Box::new(Scene::Leaf { slot: LIGHT, material: Material::lamp_value() }),
        )
    }

    /// Whether `count` measurements serve every leaf.
    pub fn fits(&self, count: usize) -> (r: bool)
        ensures
            r == self.leaves_within(count as nat),
        decreases self,
    {
        match self {
            Scene::Leaf { slot, material } => *slot < count,
            Scene::Union(a, b) => a.fits(count) && b.fits(count),
            Scene::Subtract(a, b) => a.fits(count) && b.fits(count),
            Scene::Intersection(a, b) => a.fits(count) && b.fits(count),
        }
    }

    /// Evaluates the scene at the point where its leaves measure `distances`.
    pub fn evaluate(&self, distances: &[Scalar]) -> (r: SurfaceSample)
        requires
            self.leaves_within(distances@.len()),
        ensures
            r == self.eval(distances@),
        decreases self,
    {
        match self {
            Scene::Leaf { slot, material } => material.at(distances[*slot]),
            Scene::Union(a, b) => union_op(a.evaluate(distances), b.evaluate(distances)),
            Scene::Subtract(a, b) => subtract_op(a.evaluate(distances), b.evaluate(distances)),
            Scene::Intersection(a, b) => intersection_op(
                a.evaluate(distances),
                b.evaluate(distances),
            ),
        }
    }

    /// Builds the stock scene.
    pub fn stock() -> (s: Scene)
        ensures
            s == Scene::stock_value(),
            s.leaves_within(STOCK_LEAVES as nat),
    {
        let joined = Scene::Union(
            Box::new(
                Scene::Union(
                    Box::new(Scene::Leaf { slot: VERTICAL_LINE, material: Material::glass() }),
                    Box::new(Scene::Leaf { slot: TRIANGLE_RIGHT_TOP, material: Material::glass() }),
                ),
            ),
            Box::new(Scene::Leaf { slot: ALIGN_LINE, material: Material::glass() }),
        );
        let carved = Scene::Subtract(
            Box::new(
                Scene::Subtract(
                    Box::new(joined),
                    Box::new(Scene::Leaf { slot: LEFT_TOP_CORNER, material: Material::glass() }),
                ),
            ),
            Box::new(Scene::Leaf { slot: BOTTOM_CORNER, material: Material::glass() }),
        );
        let s = Scene::Union(
            Box::new(carved),
            Box::new(Scene::Leaf { slot: LIGHT, material: Material::lamp() }),
        );
        proof {
            reveal_with_fuel(Scene::leaves_within, 6);
        }
        s
    }
}

/// The stock scene at a point, from the distances of the point to its six
/// primitives. Nothing is allocated.
pub fn scene(
    align_line: Scalar,
    vertical_line: Scalar,
    left_top_corner: Scalar,
    bottom_corner: Scalar,
    triangle_right_top: Scalar,
    light: Scalar,
) -> (r: SurfaceSample)
    ensures
        r == Scene::stock_value().eval(
            seq![
                align_line,
                vertical_line,
                left_top_corner,
                bottom_corner,
                triangle_right_top,
                light,
            ],
        ),
{
    let glass = Material::glass();
    let lamp = Material::lamp();
    proof {
        reveal_with_fuel(Scene::eval, 6);
    }
    union_op(
        subtract_op(
            subtract_op(
                union_op(
                    union_op(glass.at(vertical_line), glass.at(triangle_right_top)),
                    glass.at(align_line),
                ),
                glass.at(left_top_corner),
            ),
            glass.at(bottom_corner),
        ),
        lamp.at(light),
    )
}

} // verus!
