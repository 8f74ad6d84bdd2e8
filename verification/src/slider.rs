//! The scale of a slider.

use vstd::prelude::*;

verus! {

/// How a slider maps its track onto its value range.
#[derive(Debug, Clone, Copy, PartialEq, Eq, Structural)]
pub enum SliderScale {
    /// Values change uniformly across the track.
    Linear,
    /// Values grow exponentially across the track, for ranges where small
    /// changes at low values matter most (volume, frequency, zoom).
    Logarithmic,
}

impl Default for SliderScale {
    fn default() -> (scale: Self)
        ensures
            scale == SliderScale::Linear,
    {
        SliderScale::Linear
    }
}

impl SliderScale {
    pub fn is_linear(&self) -> (linear: bool)
        ensures
            linear == (*self == SliderScale::Linear),
    {
        matches!(self, SliderScale::Linear)
    }

    pub fn is_logarithmic(&self) -> (logarithmic: bool)
        ensures
            logarithmic == (*self == SliderScale::Logarithmic),
    {
        matches!(self, SliderScale::Logarithmic)
    }
}

} // verus!
