//! Unit identifiers and aspect-ratio attributes of the dimension catalogue.

use vstd::prelude::*;

verus! {

/// The unit identifier of a measurement.
#[derive(Debug, Hash, PartialEq, Eq, PartialOrd, Ord, Clone, Copy)]
pub enum Unit {
    /// The `font-size` of the relevant font.
    Em,
    /// Defined by the font's `x-height`.
    Ex,
    /// Pixels, relative to the viewing device.
    Px,
    /// One inch equals 2.54 centimeters.
    In,
    /// Centimeters.
    Cm,
    /// Millimeters.
    Mm,
    /// One point equals 1/72th of an inch.
    Pt,
    /// One pica equals 12 points.
    Pc,
    /// Relative to the attribute the measurement is specified for.
    Percentages,
}

impl Unit {
    /// The text of this unit identifier as it appears in a document.
    pub fn as_ref(&self) -> (r: &str)
        ensures
            r@ == match self {
                Unit::Em => "em"@,
                Unit::Ex => "ex"@,
                Unit::Px => "px"@,
                Unit::In => "in"@,
                Unit::Cm => "cm"@,
                Unit::Mm => "mm"@,
                Unit::Pt => "pt"@,
                Unit::Pc => "pc"@,
                Unit::Percentages => "%"@,
            },
    {
        match self {
            Unit::Em => "em",
            Unit::Ex => "ex",
            Unit::Px => "px",
            Unit::In => "in",
            Unit::Cm => "cm",
            Unit::Mm => "mm",
            Unit::Pt => "pt",
            Unit::Pc => "pc",
            Unit::Percentages => "%",
        }
    }
}

/// Whether a scaled viewport meets or slices its viewBox.
#[derive(Debug, PartialEq, Eq, Structural, PartialOrd, Clone, Copy)]
pub enum MeetOrSlice {
    Meet,
    Slice,
}

impl MeetOrSlice {
    /// The text of this choice as it appears in a document.
    pub fn as_ref(&self) -> (r: &str)
        ensures
            r@ == match self {
                MeetOrSlice::Meet => "meet"@,
                MeetOrSlice::Slice => "slice"@,
            },
    {
        match self {
            MeetOrSlice::Meet => "meet",
            MeetOrSlice::Slice => "slice",
        }
    }
}

/// How graphics stretch to fit a viewport: either non-uniformly, or with
/// uniform scaling aligned to one of nine anchor positions.
#[allow(non_camel_case_types)]
#[derive(Debug, PartialEq, Eq, Structural, PartialOrd, Clone, Copy)]
pub enum PreserveAspectRatio {
    /// Align the minimum X and Y of the viewBox with those of the viewport.
    xMinYMin(MeetOrSlice),
    /// Align the midpoint X, and the minimum Y.
    xMidYMin(MeetOrSlice),
    /// Align the maximum X, and the minimum Y.
    xMaxYMin(MeetOrSlice),
    /// Align the minimum X, and the midpoint Y.
    xMinYMid(MeetOrSlice),
    /// Align both midpoints (the default).
    xMidYMid(MeetOrSlice),
    /// Align the maximum X, and the midpoint Y.
    xMaxYMid(MeetOrSlice),
    /// Align the minimum X, and the maximum Y.
    xMinYMax(MeetOrSlice),
    /// Align the midpoint X, and the maximum Y.
    xMidYMax(MeetOrSlice),
    /// Align the maximum X and Y.
    xMaxYMax(MeetOrSlice),
}

impl Default for PreserveAspectRatio {
    /// Uniform scaling, centred, meeting the viewport.
    fn default() -> (r: Self)
        ensures
            r == PreserveAspectRatio::xMidYMid(MeetOrSlice::Meet),
    {
        PreserveAspectRatio::xMidYMid(MeetOrSlice::Meet)
    }
}

} // verus!
