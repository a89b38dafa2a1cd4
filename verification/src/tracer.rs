//! The decisions of the ray marcher: on which side of the surfaces a ray
//! starts, whether a probe of the scene ends its march, and which rays leave
//! the surface it has reached.
//!
//! The caller owns the loop. It probes the scene where the ray stands, adds
//! the probed distance to the distance travelled, and hands both to `march`;
//! at a hit it asks `bounce` what to compute next.

use vstd::prelude::*;
use crate::scalar::Scalar;
use crate::surface::SurfaceSample;

verus! {

/// Directions sampled per point in the stock configuration.
pub const SAMPLES: u32 = 64;

/// Deepest level of recursion in the stock configuration.
pub const MAX_DEPTH: u32 = 5;

/// Most probes along one ray in the stock configuration.
pub const MAX_STEP: u32 = 64;

/// Farthest march in the stock configuration, five units.
pub const MAX_DISTANCE: u64 = 0x4014_0000_0000_0000;

/// Surface tolerance in the stock configuration, a millionth of a unit.
pub const EPSILON: u64 = 0x3eb0_c6f7_a0b5_ed8d;

/// Offset of a departing ray from the surface in the stock configuration, a
/// ten-thousandth of a unit.
pub const BIAS: u64 = 0x3f1a_36e2_eb1c_432d;

/// The bounds and tolerances of a rendering, fixed before it begins.
#[derive(Clone, Copy, Debug, PartialEq, Eq, Structural)]
pub struct Limits {
    /// Directions sampled per point.
    pub samples: u32,
    /// Level of recursion from which no further ray is spawned.
    pub max_depth: u32,
    /// Most probes along one ray.
    pub max_steps: u32,
    /// Distance beyond which a ray counts as lost.
    pub max_distance: Scalar,
    /// Distance under which a surface counts as reached; also the step of
    /// the caller's gradient estimate.
    pub epsilon: Scalar,
    /// How far off the surface the caller starts a departing ray.
    pub bias: Scalar,
}

impl Limits {
    /// The stock configuration.
    pub open spec fn stock_value() -> Limits {
        Limits {
            samples: SAMPLES,
            max_depth: MAX_DEPTH,
            max_steps: MAX_STEP,
            max_distance: Scalar { bits: MAX_DISTANCE },
            epsilon: Scalar { bits: EPSILON },
            bias: Scalar { bits: BIAS },
        }
    }

    /// The stock configuration.
    pub fn stock() -> (l: Limits)
        ensures
            l == Limits::stock_value(),
    {
        Limits {
            samples: SAMPLES,
            max_depth: MAX_DEPTH,
            max_steps: MAX_STEP,
            max_distance: Scalar::from_bits(MAX_DISTANCE),
            epsilon: Scalar::from_bits(EPSILON),
            bias: Scalar::from_bits(BIAS),
        }
    }
}

/// Where a ray travels: in the open or within a solid.
#[derive(Clone, Copy, Debug, PartialEq, Eq, Structural)]
pub enum Side {
    Outside,
    Inside,
}

impl Side {
    /// The side of a ray that starts at the given signed distance: outside
    /// where the distance is not negative.
    pub open spec fn of(distance: Scalar) -> Side {
        if Scalar::zero_value().le(distance) {
            Side::Outside
        } else {
            Side::Inside
        }
    }

    /// A quantity as seen from this side: itself outside, negated inside.
    pub open spec fn toward(self, x: Scalar) -> Scalar {
        match self {
            Side::Outside => x,
            Side::Inside => x.negated(),
        }
    }

    /// The indices of refraction on the near and on the far side of a
    /// surface of a solid with the given index; the open has index one.
    pub open spec fn indices(self, index: Scalar) -> (Scalar, Scalar) {
        match self {
            Side::Outside => (Scalar::one_value(), index),
            Side::Inside => (index, Scalar::one_value()),
        }
    }

    /// The side of a ray that starts at the given signed distance.
    pub fn locate(distance: Scalar) -> (s: Side)
        ensures
            s == Side::of(distance),
    {
        if distance.at_least(Scalar::zero()) {
            Side::Outside
        } else {
            Side::Inside
        }
    }

    /// A signed distance or a gradient component as seen from this side, so
    /// that distances count down towards the surface ahead and gradients
    /// point back into the medium of the ray.
    pub fn orient(self, x: Scalar) -> (r: Scalar)
        ensures
            r == self.toward(x),
            r.nan() == x.nan(),
            self == Side::Outside ==> r.rank() == x.rank(),
            self == Side::Inside ==> r.rank() == -x.rank(),
    {
        match self {
            Side::Outside => x,
            Side::Inside => x.neg(),
        }
    }

    /// The index of refraction of the medium that a ray on this side leaves
    /// and of the one it enters, at the surface of a solid with the given
    /// index.
    pub fn media(self, index: Scalar) -> (r: (Scalar, Scalar))
        ensures
            r == self.indices(index),
    {
        match self {
            Side::Outside => (Scalar::one(), index),
            Side::Inside => (index, Scalar::one()),
        }
    }
}

/// A ray on its march.
#[derive(Clone, Copy, Debug, PartialEq, Eq, Structural)]
pub struct MarchState {
    /// The side on which the ray started.
    pub side: Side,
    /// Probes made so far.
    pub step: u32,
    /// Distance travelled so far; the scene is probed next at this distance
    /// from the origin.
    pub travelled: Scalar,
}

/// What a probe means for the march.
#[derive(Clone, Copy, Debug, PartialEq, Eq, Structural)]
pub enum March {
    /// The surface is reached where the probe was made.
    Hit,
    /// The ray is lost: it has gone too far or has used up its probes.
    Miss,
    /// The ray goes on from the given state.
    Continue(MarchState),
}

/// The state before the first probe, for a ray that starts where the scene
/// measures `origin_distance`.
pub open spec fn start_of(origin_distance: Scalar) -> MarchState {
    MarchState { side: Side::of(origin_distance), step: 0, travelled: Scalar::zero_value() }
}

/// The verdict on one probe. `distance` is the signed distance probed where
/// the ray stands, `reach` the distance travelled plus that distance.
///
/// A ray that has used up its probes is lost. Otherwise it has arrived if
/// the probed distance, seen from its side, is under the tolerance; it is
/// lost if the reach exceeds the farthest march or this was its last probe;
/// and else it goes on from the reach.
pub open spec fn march_of(limits: Limits, state: MarchState, distance: Scalar, reach: Scalar) -> March {
    if state.step >= limits.max_steps {
        March::Miss
    } else if state.side.toward(distance).lt(limits.epsilon) {
        March::Hit
    } else if limits.max_distance.lt(reach) || state.step + 1 >= limits.max_steps {
        March::Miss
    } else {
        March::Continue(
            MarchState { side: state.side, step: (state.step + 1) as u32, travelled: reach },
        )
    }
}

/// The verdict on a whole series of probes, each given as its distance and
/// its reach, made one after the other from `state`.
pub open spec fn march_through(limits: Limits, state: MarchState, probes: Seq<(Scalar, Scalar)>) -> March
    decreases probes.len(),
{
    if probes.len() == 0 {
        March::Continue(state)
    } else {
        match march_of(limits, state, probes[0].0, probes[0].1) {
            March::Continue(next) => march_through(limits, next, probes.drop_first()),
            March::Hit => March::Hit,
            March::Miss => March::Miss,
        }
    }
}

/// Begins a march: fixes the side of the ray from the scene at its origin.
pub fn begin_march(origin_distance: Scalar) -> (s: MarchState)
    ensures
        s == start_of(origin_distance),
{
    MarchState { side: Side::locate(origin_distance), step: 0, travelled: Scalar::zero() }
}

/// Judges one probe of a march. A march that goes on has one probe more
/// behind it and at least one left.
pub fn march(limits: &Limits, state: MarchState, distance: Scalar, reach: Scalar) -> (r: March)
    ensures
        r == march_of(*limits, state, distance, reach),
        r matches March::Continue(next) ==> next.step == state.step + 1 && next.step
            < limits.max_steps && next.side == state.side && next.travelled == reach
            && !limits.max_distance.lt(reach),
        r == March::Hit ==> state.step < limits.max_steps && state.side.toward(distance).lt(
            limits.epsilon,
        ),
{
    if state.step >= limits.max_steps {
        March::Miss
    } else if state.side.orient(distance).less_than(limits.epsilon) {
        March::Hit
    } else if reach.greater_than(limits.max_distance) || state.step + 1 >= limits.max_steps {
        March::Miss
    } else {
        March::Continue(MarchState { side: state.side, step: state.step + 1, travelled: reach })
    }
}

/// No march outlasts its probes: whatever the scene answers, a series of
/// probes that would bring the count to the limit ends in a hit or a miss.
pub proof fn lemma_march_ends(limits: Limits, state: MarchState, probes: Seq<(Scalar, Scalar)>)
    requires
        state.step + probes.len() >= limits.max_steps,
        probes.len() > 0,
    ensures
        !(march_through(limits, state, probes) is Continue),
    decreases probes.len(),
{
    match march_of(limits, state, probes[0].0, probes[0].1) {
        March::Continue(next) => {
            lemma_march_ends(limits, next, probes.drop_first());
        },
        March::Hit => {},
        March::Miss => {},
    }
}

/// What follows a hit.
#[derive(Clone, Copy, Debug, PartialEq, Eq, Structural)]
pub enum Bounce {
    /// No ray leaves the surface: the hit contributes what the material
    /// emits and nothing else.
    Rest,
    /// The surface only mirrors: one reflected ray, weighted by the
    /// reflectivity of the material.
    Mirror,
    /// The surface refracts: the refraction is to be attempted.
    Refract,
}

/// What follows a hit on `sample` by a ray at recursion level `depth`: rays
/// leave the surface while the level is under the limit and the material
/// mirrors or refracts, and a refraction is attempted where the index of
/// refraction is positive.
pub open spec fn bounce_of(limits: Limits, depth: u32, sample: SurfaceSample) -> Bounce {
    if depth < limits.max_depth && (sample.reflectivity.positive()
        || sample.refractive_index.positive()) {
        if sample.refractive_index.positive() {
            Bounce::Refract
        } else {
            Bounce::Mirror
        }
    } else {
        Bounce::Rest
    }
}

/// Decides what follows a hit. With a depth limit of zero, and on a material
/// that neither mirrors nor refracts, nothing does.
pub fn bounce(limits: &Limits, depth: u32, sample: &SurfaceSample) -> (r: Bounce)
    ensures
        r == bounce_of(*limits, depth, *sample),
        depth >= limits.max_depth ==> r == Bounce::Rest,
        limits.max_depth == 0 ==> r == Bounce::Rest,
        !sample.reflectivity.positive() && !sample.refractive_index.positive() ==> r
            == Bounce::Rest,
        r == Bounce::Mirror ==> sample.reflectivity.positive(),
{
    if depth < limits.max_depth {
        if sample.refractive_index.is_positive() {
            Bounce::Refract
        } else if sample.reflectivity.is_positive() {
            Bounce::Mirror
        } else {
            Bounce::Rest
        }
    } else {
        Bounce::Rest
    }
}

/// How an attempted refraction ended.
#[derive(Clone, Copy, Debug, PartialEq, Eq, Structural)]
pub enum Refraction {
    /// None was attempted: the material does not refract.
    Untried,
    /// Total internal reflection: no ray passes the surface.
    Total,
    /// A ray passes; the surface reflects the given share of the light.
    Partial { reflectance: Scalar },
}

/// Whether a ray passes the surface, from the discriminant of the law of
/// refraction: it does unless the discriminant is negative.
pub fn transmits(discriminant: Scalar) -> (r: bool)
    ensures
        r == !discriminant.lt(Scalar::zero_value()),
{
    !discriminant.less_than(Scalar::zero())
}

/// The weight of the reflected ray: the reflectivity of the material where
/// no refraction was attempted, one under total internal reflection, and
/// else the reflectance of the surface.
pub open spec fn reflection_weight(sample: SurfaceSample, refraction: Refraction) -> Scalar {
    match refraction {
        Refraction::Untried => sample.reflectivity,
        Refraction::Total => Scalar::one_value(),
        Refraction::Partial { reflectance } => reflectance,
    }
}

/// The weight with which a reflected ray is to be traced, or nothing where
/// that weight is not positive.
pub fn reflection(sample: &SurfaceSample, refraction: Refraction) -> (r: Option<Scalar>)
    ensures
        r == (if reflection_weight(*sample, refraction).positive() {
            Some(reflection_weight(*sample, refraction))
        } else {
            None
        }),
        refraction == Refraction::Total ==> r == Some(Scalar::one_value()),
{
    let weight = match refraction {
        Refraction::Untried => sample.reflectivity,
        Refraction::Total => Scalar::one(),
        Refraction::Partial { reflectance } => reflectance,
    };
    if weight.is_positive() {
        Some(weight)
    } else {
        None
    }
}

} // verus!
