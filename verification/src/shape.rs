//! The predefined Material 3 Expressive shapes and the pairs a morph
//! interpolates between.

use vstd::prelude::*;

verus! {

/// The predefined Material 3 Expressive shapes: normalized rounded polygons
/// that can be drawn directly or morphed into one another.
#[derive(Clone, Copy, Debug, PartialEq, Eq, Hash, Structural)]
pub enum MaterialShape {
    Circle,
    Square,
    Slanted,
    Arch,
    Fan,
    Arrow,
    SemiCircle,
    Oval,
    Pill,
    Triangle,
    Diamond,
    ClamShell,
    Pentagon,
    Gem,
    Sunny,
    VerySunny,
    Cookie4Sided,
    Cookie6Sided,
    Cookie7Sided,
    Cookie9Sided,
    Cookie12Sided,
    Ghostish,
    Clover4Leaf,
    Clover8Leaf,
    Burst,
    SoftBurst,
    Boom,
    SoftBoom,
    Flower,
    Puffy,
    PuffyDiamond,
    PixelCircle,
    PixelTriangle,
    Bun,
    Heart,
}

impl MaterialShape {
    /// Every predefined shape.
    pub const ALL: [MaterialShape; 35] = [
        MaterialShape::Circle,
        MaterialShape::Square,
        MaterialShape::Slanted,
        MaterialShape::Arch,
        MaterialShape::Fan,
        MaterialShape::Arrow,
        MaterialShape::SemiCircle,
        MaterialShape::Oval,
        MaterialShape::Pill,
        MaterialShape::Triangle,
        MaterialShape::Diamond,
        MaterialShape::ClamShell,
        MaterialShape::Pentagon,
        MaterialShape::Gem,
        MaterialShape::Sunny,
        MaterialShape::VerySunny,
        MaterialShape::Cookie4Sided,
        MaterialShape::Cookie6Sided,
        MaterialShape::Cookie7Sided,
        MaterialShape::Cookie9Sided,
        MaterialShape::Cookie12Sided,
        MaterialShape::Ghostish,
        MaterialShape::Clover4Leaf,
        MaterialShape::Clover8Leaf,
        MaterialShape::Burst,
        MaterialShape::SoftBurst,
        MaterialShape::Boom,
        MaterialShape::SoftBoom,
        MaterialShape::Flower,
        MaterialShape::Puffy,
        MaterialShape::PuffyDiamond,
        MaterialShape::PixelCircle,
        MaterialShape::PixelTriangle,
        MaterialShape::Bun,
        MaterialShape::Heart,
    ];
}

/// A shape morph between a `start` shape and an `end` shape.
#[derive(Clone, Copy, Debug, PartialEq, Structural)]
pub struct Morph {
    pub start: MaterialShape,
    pub end: MaterialShape,
}

impl Morph {
    /// The morph from `start` to `end`.
    pub fn new(start: MaterialShape, end: MaterialShape) -> (morph: Self)
        ensures
            morph.start == start,
            morph.end == end,
    {
        Self { start, end }
    }
}

} // verus!
