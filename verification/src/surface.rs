//! What the scene answers at a point, and the three ways of combining two
//! answers.

use vstd::prelude::*;
use crate::scalar::Scalar;

verus! {

/// Radiance or attenuation in three channels.
#[derive(Clone, Copy, Debug, PartialEq, Eq, Structural)]
pub struct Color {
    pub r: Scalar,
    pub g: Scalar,
    pub b: Scalar,
}

impl Color {
    /// The color with the same level in every channel.
    pub open spec fn gray_value(level: Scalar) -> Color {
        Color { r: level, g: level, b: level }
    }

    /// The color with the same level in every channel.
    pub fn gray(level: Scalar) -> (c: Color)
        ensures
            c == Color::gray_value(level),
    {
        Color { r: level, g: level, b: level }
    }

    /// No light at all.
    pub fn black() -> (c: Color)
        ensures
            c == Color::gray_value(Scalar::zero_value()),
    {
        Color::gray(Scalar::zero())
    }
}

/// How a region of the scene treats light.
#[derive(Clone, Copy, Debug, PartialEq, Eq, Structural)]
pub struct Material {
    /// Radiance the region gives off by itself.
    pub emissive: Color,
    /// Share of the incoming light that a surface without refraction mirrors.
    pub reflectivity: Scalar,
    /// Index of refraction; a region whose index is not positive is opaque.
    pub refractive_index: Scalar,
    /// Attenuation per unit of path inside the region.
    pub absorption: Color,
}

/// The scene at one point: the signed distance to the nearest boundary,
/// negative inside a solid, and the material that governs there.
#[derive(Clone, Copy, Debug, PartialEq, Eq, Structural)]
pub struct SurfaceSample {
    pub signed_distance: Scalar,
    pub emissive: Color,
    pub reflectivity: Scalar,
    pub refractive_index: Scalar,
    pub absorption: Color,
}

/// Reflectivity of the stock glass, a fifth.
pub const GLASS_REFLECTIVITY: u64 = 0x3fc9_9999_9999_999a;

/// Index of refraction of the stock glass, one and a half.
pub const GLASS_INDEX: u64 = 0x3ff8_0000_0000_0000;

/// Absorption of the stock glass in each channel, four per unit of path.
pub const GLASS_ABSORPTION: u64 = 0x4010_0000_0000_0000;

/// Radiance of the stock lamp in each channel, six.
pub const LAMP_RADIANCE: u64 = 0x4018_0000_0000_0000;

impl Material {
    /// Dark, faintly mirroring, refracting, absorbing glass.
    pub open spec fn glass_value() -> Material {
        Material {
            emissive: Color::gray_value(Scalar::zero_value()),
            reflectivity: Scalar { bits: GLASS_REFLECTIVITY },
            refractive_index: Scalar { bits: GLASS_INDEX },
            absorption: Color::gray_value(Scalar { bits: GLASS_ABSORPTION }),
        }
    }

    /// A lamp: it shines, and neither mirrors, refracts nor absorbs.
    pub open spec fn lamp_value() -> Material {
        Material {
            emissive: Color::gray_value(Scalar { bits: LAMP_RADIANCE }),
            reflectivity: Scalar::zero_value(),
            refractive_index: Scalar::zero_value(),
            absorption: Color::gray_value(Scalar::zero_value()),
        }
    }

    /// The sample that this material gives at the distance.
    pub open spec fn sample(self, distance: Scalar) -> SurfaceSample {
        SurfaceSample {
            signed_distance: distance,
            emissive: self.emissive,
            reflectivity: self.reflectivity,
            refractive_index: self.refractive_index,
            absorption: self.absorption,
        }
    }

    /// The stock glass.
    pub fn glass() -> (m: Material)
        ensures
            m == Material::glass_value(),
    {
        Material {
            emissive: Color::black(),
            reflectivity: Scalar::from_bits(GLASS_REFLECTIVITY),
            refractive_index: Scalar::from_bits(GLASS_INDEX),
            absorption: Color::gray(Scalar::from_bits(GLASS_ABSORPTION)),
        }
    }

    /// The stock lamp.
    pub fn lamp() -> (m: Material)
        ensures
            m == Material::lamp_value(),
    {
        Material {
            emissive: Color::gray(Scalar::from_bits(LAMP_RADIANCE)),
            reflectivity: Scalar::zero(),
            refractive_index: Scalar::zero(),
            absorption: Color::black(),
        }
    }

    /// The sample that this material gives at the distance.
    pub fn at(&self, distance: Scalar) -> (s: SurfaceSample)
        ensures
            s == self.sample(distance),
    {
        SurfaceSample {
            signed_distance: distance,
            emissive: self.emissive,
            reflectivity: self.reflectivity,
            refractive_index: self.refractive_index,
            absorption: self.absorption,
        }
    }
}

impl SurfaceSample {
    /// The sample moved to another distance, its material kept.
    pub open spec fn moved_to(self, distance: Scalar) -> SurfaceSample {
        SurfaceSample {
            signed_distance: distance,
            emissive: self.emissive,
            reflectivity: self.reflectivity,
            refractive_index: self.refractive_index,
            absorption: self.absorption,
        }
    }

    /// The material of the sample.
    pub open spec fn material_value(self) -> Material {
        Material {
            emissive: self.emissive,
            reflectivity: self.reflectivity,
            refractive_index: self.refractive_index,
            absorption: self.absorption,
        }
    }

    /// The material of the sample.
    pub fn material(&self) -> (m: Material)
        ensures
            m == self.material_value(),
    {
        Material {
            emissive: self.emissive,
            reflectivity: self.reflectivity,
            refractive_index: self.refractive_index,
            absorption: self.absorption,
        }
    }
}

/// Both shapes together: the nearer surface wins; the second where neither
/// is strictly nearer.
pub open spec fn union_of(a: SurfaceSample, b: SurfaceSample) -> SurfaceSample {
    if a.signed_distance.lt(b.signed_distance) {
        a
    } else {
        b
    }
}

/// The first shape with the second carved out of it: the first one's
/// material at the greater of its distance and the second's negated.
pub open spec fn subtraction_of(a: SurfaceSample, b: SurfaceSample) -> SurfaceSample {
    a.moved_to(a.signed_distance.max_of(b.signed_distance.negated()))
}

/// What the two shapes share: the greater of the two distances, under the
/// material of the shape that is not strictly farther (the first where
/// neither is).
pub open spec fn intersection_of(a: SurfaceSample, b: SurfaceSample) -> SurfaceSample {
    let keeper = if b.signed_distance.lt(a.signed_distance) {
        b
    } else {
        a
    };
    keeper.moved_to(a.signed_distance.max_of(b.signed_distance))
}

/// The union of two shapes at a point. Between numbers its distance is the
/// smaller of the two.
pub fn union_op(a: SurfaceSample, b: SurfaceSample) -> (r: SurfaceSample)
    ensures
        r == union_of(a, b),
        !a.signed_distance.nan() && !b.signed_distance.nan() ==> r.signed_distance.rank()
            == vstd::math::min(a.signed_distance.rank(), b.signed_distance.rank()),
{
    if a.signed_distance.less_than(b.signed_distance) {
        a
    } else {
        b
    }
}

/// The first shape without the second, at a point. Between numbers its
/// distance is the greater of the first distance and the negated second.
pub fn subtract_op(a: SurfaceSample, b: SurfaceSample) -> (r: SurfaceSample)
    ensures
        r == subtraction_of(a, b),
        !a.signed_distance.nan() && !b.signed_distance.nan() ==> r.signed_distance.rank()
            == vstd::math::max(a.signed_distance.rank(), -b.signed_distance.rank()),
{
    let mut r = a;
    r.signed_distance = a.signed_distance.max(b.signed_distance.neg());
    r
}

/// The common part of two shapes, at a point. Between numbers its distance
/// is the greater of the two.
pub fn intersection_op(a: SurfaceSample, b: SurfaceSample) -> (r: SurfaceSample)
    ensures
        r == intersection_of(a, b),
        !a.signed_distance.nan() && !b.signed_distance.nan() ==> r.signed_distance.rank()
            == vstd::math::max(a.signed_distance.rank(), b.signed_distance.rank()),
{
    let mut r = if a.signed_distance.greater_than(b.signed_distance) {
        b
    } else {
        a
    };
    r.signed_distance = a.signed_distance.max(b.signed_distance);
    r
}

/// The stock glass at the given distance.
pub fn build_result(distance: Scalar) -> (r: SurfaceSample)
    ensures
        r == Material::glass_value().sample(distance),
{
    Material::glass().at(distance)
}

/// Union is commutative and associative: the distance of a union does not
/// depend on the order of the two shapes, and a union of three shapes does
/// not depend on how they are grouped. (Between two shapes at the same
/// distance the material is that of the second.)
pub proof fn lemma_union_commutes_and_associates(
    a: SurfaceSample,
    b: SurfaceSample,
    c: SurfaceSample,
)
    requires
        !a.signed_distance.nan(),
        !b.signed_distance.nan(),
        !c.signed_distance.nan(),
    ensures
        union_of(a, b).signed_distance.rank() == union_of(b, a).signed_distance.rank(),
        union_of(union_of(a, b), c) == union_of(a, union_of(b, c)),
{
}

} // verus!
