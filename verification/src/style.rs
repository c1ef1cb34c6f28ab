//! Named choices of the plotting backend and the numbers it knows them by.
//!
//! Every enum here stands for one enumeration of the backend. Its `code` is
//! the number that is handed over in a call; distinct choices have distinct
//! codes.
use vstd::prelude::*;

verus! {

/// Shape drawn at each point of a series.
#[derive(Debug, Clone, Copy, PartialEq, Eq, Hash, Structural)]
pub enum Marker {
    /// No marker.
    NoMarker,
    /// A circle.
    Circle,
    /// A square.
    Square,
    /// A diamond.
    Diamond,
    /// A triangle pointing up.
    Up,
    /// A triangle pointing down.
    Down,
    /// A triangle pointing left.
    Left,
    /// A triangle pointing right.
    Right,
    /// A cross, drawn without fill.
    Cross,
    /// A plus sign, drawn without fill.
    Plus,
    /// An asterisk, drawn without fill.
    Asterisk,
}

impl Marker {
    /// The number the backend knows this choice by.
    pub open spec fn spec_code(self) -> i32 {
        match self {
            Marker::NoMarker => -1i32,
            Marker::Circle => 0i32,
            Marker::Square => 1i32,
            Marker::Diamond => 2i32,
            Marker::Up => 3i32,
            Marker::Down => 4i32,
            Marker::Left => 5i32,
            Marker::Right => 6i32,
            Marker::Cross => 7i32,
            Marker::Plus => 8i32,
            Marker::Asterisk => 9i32,
        }
    }

    /// The number the backend knows this choice by.
    #[verifier::when_used_as_spec(spec_code)]
    pub fn code(self) -> (code: i32)
        ensures
            code == self.spec_code(),
            -1 <= code <= 9,
    {
        match self {
            Marker::NoMarker => -1,
            Marker::Circle => 0,
            Marker::Square => 1,
            Marker::Diamond => 2,
            Marker::Up => 3,
            Marker::Down => 4,
            Marker::Left => 5,
            Marker::Right => 6,
            Marker::Cross => 7,
            Marker::Plus => 8,
            Marker::Asterisk => 9,
        }
    }

    /// Two choices with the same number are the same choice.
    pub proof fn lemma_code_injective(a: Marker, b: Marker)
        requires
            a.spec_code() == b.spec_code(),
        ensures
            a == b,
    {
    }
}

/// Part of a plot that can be given a colour.
#[derive(Debug, Clone, Copy, PartialEq, Eq, Hash, Structural)]
pub enum PlotColorElement {
    /// Lines and outlines of a series.
    Line,
    /// Fill of bars and shaded areas.
    Fill,
    /// Outline of markers.
    MarkerOutline,
    /// Fill of markers.
    MarkerFill,
    /// Error bars.
    ErrorBar,
    /// Background of the frame around the plot.
    FrameBg,
    /// Background of the plot area.
    PlotBg,
    /// Border of the plot area.
    PlotBorder,
    /// Background of the legend.
    LegendBackground,
    /// Border of the legend.
    LegendBorder,
    /// Text of the legend.
    LegendText,
    /// Text of the plot title.
    TitleText,
    /// Text drawn inside the plot area.
    InlayText,
    /// Axis labels and tick labels.
    AxisText,
    /// Grid lines of an axis.
    AxisGrid,
    /// Tick marks of an axis.
    AxisTick,
    /// Background of the region in which an axis reacts to the pointer.
    AxisBg,
    /// That region while the pointer is over it.
    AxisBgHovered,
    /// That region while the axis is dragged.
    AxisBgActive,
    /// The box drawn while selecting.
    Selection,
    /// The crosshairs under the pointer.
    Crosshairs,
}

impl PlotColorElement {
    /// The number the backend knows this choice by.
    pub open spec fn spec_code(self) -> i32 {
        match self {
            PlotColorElement::Line => 0i32,
            PlotColorElement::Fill => 1i32,
            PlotColorElement::MarkerOutline => 2i32,
            PlotColorElement::MarkerFill => 3i32,
            PlotColorElement::ErrorBar => 4i32,
            PlotColorElement::FrameBg => 5i32,
            PlotColorElement::PlotBg => 6i32,
            PlotColorElement::PlotBorder => 7i32,
            PlotColorElement::LegendBackground => 8i32,
            PlotColorElement::LegendBorder => 9i32,
            PlotColorElement::LegendText => 10i32,
            PlotColorElement::TitleText => 11i32,
            PlotColorElement::InlayText => 12i32,
            PlotColorElement::AxisText => 13i32,
            PlotColorElement::AxisGrid => 14i32,
            PlotColorElement::AxisTick => 15i32,
            PlotColorElement::AxisBg => 16i32,
            PlotColorElement::AxisBgHovered => 17i32,
            PlotColorElement::AxisBgActive => 18i32,
            PlotColorElement::Selection => 19i32,
            PlotColorElement::Crosshairs => 20i32,
        }
    }

    /// The number the backend knows this choice by.
    #[verifier::when_used_as_spec(spec_code)]
    pub fn code(self) -> (code: i32)
        ensures
            code == self.spec_code(),
            0 <= code <= 20,
    {
        match self {
            PlotColorElement::Line => 0,
            PlotColorElement::Fill => 1,
            PlotColorElement::MarkerOutline => 2,
            PlotColorElement::MarkerFill => 3,
            PlotColorElement::ErrorBar => 4,
            PlotColorElement::FrameBg => 5,
            PlotColorElement::PlotBg => 6,
            PlotColorElement::PlotBorder => 7,
            PlotColorElement::LegendBackground => 8,
            PlotColorElement::LegendBorder => 9,
            PlotColorElement::LegendText => 10,
            PlotColorElement::TitleText => 11,
            PlotColorElement::InlayText => 12,
            PlotColorElement::AxisText => 13,
            PlotColorElement::AxisGrid => 14,
            PlotColorElement::AxisTick => 15,
            PlotColorElement::AxisBg => 16,
            PlotColorElement::AxisBgHovered => 17,
            PlotColorElement::AxisBgActive => 18,
            PlotColorElement::Selection => 19,
            PlotColorElement::Crosshairs => 20,
        }
    }

    /// Two choices with the same number are the same choice.
    pub proof fn lemma_code_injective(a: PlotColorElement, b: PlotColorElement)
        requires
            a.spec_code() == b.spec_code(),
        ensures
            a == b,
    {
    }
}

/// One of the built-in colour maps.
#[derive(Debug, Clone, Copy, PartialEq, Eq, Hash, Structural)]
pub enum Colormap {
    /// Ten muted colours, known as seaborn "deep".
    Deep,
    /// Nine strong colours, known as "Set1".
    Dark,
    /// Nine pale colours, known as "Pastel1".
    Pastel,
    /// Twelve colours in light and dark pairs.
    Paired,
    /// The "viridis" gradient.
    Viridis,
    /// The "plasma" gradient.
    Plasma,
    /// The "hot" gradient.
    Hot,
    /// The "cool" gradient.
    Cool,
    /// The "pink" gradient.
    Pink,
    /// The "jet" gradient.
    Jet,
    /// The "twilight" gradient.
    Twilight,
    /// Red to blue.
    RdBu,
    /// Brown to blue-green.
    BrBG,
    /// Pink to yellow-green.
    PiYG,
    /// The colours of the spectrum.
    Spectral,
    /// White to black.
    Greys,
}

impl Colormap {
    /// The number the backend knows this choice by.
    pub open spec fn spec_code(self) -> i32 {
        match self {
            Colormap::Deep => 0i32,
            Colormap::Dark => 1i32,
            Colormap::Pastel => 2i32,
            Colormap::Paired => 3i32,
            Colormap::Viridis => 4i32,
            Colormap::Plasma => 5i32,
            Colormap::Hot => 6i32,
            Colormap::Cool => 7i32,
            Colormap::Pink => 8i32,
            Colormap::Jet => 9i32,
            Colormap::Twilight => 10i32,
            Colormap::RdBu => 11i32,
            Colormap::BrBG => 12i32,
            Colormap::PiYG => 13i32,
            Colormap::Spectral => 14i32,
            Colormap::Greys => 15i32,
        }
    }

    /// The number the backend knows this choice by.
    #[verifier::when_used_as_spec(spec_code)]
    pub fn code(self) -> (code: i32)
        ensures
            code == self.spec_code(),
            0 <= code <= 15,
    {
        match self {
            Colormap::Deep => 0,
            Colormap::Dark => 1,
            Colormap::Pastel => 2,
            Colormap::Paired => 3,
            Colormap::Viridis => 4,
            Colormap::Plasma => 5,
            Colormap::Hot => 6,
            Colormap::Cool => 7,
            Colormap::Pink => 8,
            Colormap::Jet => 9,
            Colormap::Twilight => 10,
            Colormap::RdBu => 11,
            Colormap::BrBG => 12,
            Colormap::PiYG => 13,
            Colormap::Spectral => 14,
            Colormap::Greys => 15,
        }
    }

    /// Two choices with the same number are the same choice.
    pub proof fn lemma_code_injective(a: Colormap, b: Colormap)
        requires
            a.spec_code() == b.spec_code(),
        ensures
            a == b,
    {
    }
}

/// A style setting that can be changed for a while and then restored.
#[derive(Debug, Clone, Copy, PartialEq, Eq, Hash, Structural)]
pub enum StyleVar {
    /// Width of lines in pixels (one number).
    LineWeight,
    /// Which marker is drawn (one whole number, see [`Marker`]).
    Marker,
    /// Radius of markers in pixels (one number).
    MarkerSize,
    /// Width of marker outlines in pixels (one number).
    MarkerWeight,
    /// Opacity applied to every fill (one number).
    FillAlpha,
    /// Width of error bar whiskers in pixels (one number).
    ErrorBarSize,
    /// Line width of error bar whiskers in pixels (one number).
    ErrorBarWeight,
    /// Height of a set bit of a digital channel in pixels (one number).
    DigitalBitHeight,
    /// Gap between digital channels in pixels (one number).
    DigitalBitGap,
    /// Width of the border around the plot area (one number).
    PlotBorderSize,
    /// Opacity applied to minor grid lines (one number).
    MinorAlpha,
    /// Length of major ticks on horizontal and vertical axes (a pair).
    MajorTickLen,
    /// Length of minor ticks on horizontal and vertical axes (a pair).
    MinorTickLen,
    /// Line width of major ticks (a pair).
    MajorTickSize,
    /// Line width of minor ticks (a pair).
    MinorTickSize,
    /// Line width of major grid lines (a pair).
    MajorGridSize,
    /// Line width of minor grid lines (a pair).
    MinorGridSize,
    /// Space between the frame and the plot area or its labels (a pair).
    PlotPadding,
    /// Space between axis labels, tick labels and the plot edge (a pair).
    LabelPadding,
    /// Space between the legend and the plot edge (a pair).
    LegendPadding,
    /// Space between the legend's edge and its entries (a pair).
    LegendInnerPadding,
    /// Space between legend entries (a pair).
    LegendSpacing,
    /// Space between the plot edge and the pointer position text (a pair).
    MousePosPadding,
    /// Space around the text of annotations (a pair).
    AnnotationPadding,
    /// Extra room added when fitting axes to data, as a fraction of the extent (a pair).
    FitPadding,
    /// Size of a plot that is begun with a size of zero (a pair).
    PlotDefaultSize,
    /// Smallest size a plot may shrink to (a pair).
    PlotMinSize,
}

impl StyleVar {
    /// The number the backend knows this choice by.
    pub open spec fn spec_code(self) -> i32 {
        match self {
            StyleVar::LineWeight => 0i32,
            StyleVar::Marker => 1i32,
            StyleVar::MarkerSize => 2i32,
            StyleVar::MarkerWeight => 3i32,
            StyleVar::FillAlpha => 4i32,
            StyleVar::ErrorBarSize => 5i32,
            StyleVar::ErrorBarWeight => 6i32,
            StyleVar::DigitalBitHeight => 7i32,
            StyleVar::DigitalBitGap => 8i32,
            StyleVar::PlotBorderSize => 9i32,
            StyleVar::MinorAlpha => 10i32,
            StyleVar::MajorTickLen => 11i32,
            StyleVar::MinorTickLen => 12i32,
            StyleVar::MajorTickSize => 13i32,
            StyleVar::MinorTickSize => 14i32,
            StyleVar::MajorGridSize => 15i32,
            StyleVar::MinorGridSize => 16i32,
            StyleVar::PlotPadding => 17i32,
            StyleVar::LabelPadding => 18i32,
            StyleVar::LegendPadding => 19i32,
            StyleVar::LegendInnerPadding => 20i32,
            StyleVar::LegendSpacing => 21i32,
            StyleVar::MousePosPadding => 22i32,
            StyleVar::AnnotationPadding => 23i32,
            StyleVar::FitPadding => 24i32,
            StyleVar::PlotDefaultSize => 25i32,
            StyleVar::PlotMinSize => 26i32,
        }
    }

    /// The number the backend knows this choice by.
    #[verifier::when_used_as_spec(spec_code)]
    pub fn code(self) -> (code: i32)
        ensures
            code == self.spec_code(),
            0 <= code <= 26,
    {
        match self {
            StyleVar::LineWeight => 0,
            StyleVar::Marker => 1,
            StyleVar::MarkerSize => 2,
            StyleVar::MarkerWeight => 3,
            StyleVar::FillAlpha => 4,
            StyleVar::ErrorBarSize => 5,
            StyleVar::ErrorBarWeight => 6,
            StyleVar::DigitalBitHeight => 7,
            StyleVar::DigitalBitGap => 8,
            StyleVar::PlotBorderSize => 9,
            StyleVar::MinorAlpha => 10,
            StyleVar::MajorTickLen => 11,
            StyleVar::MinorTickLen => 12,
            StyleVar::MajorTickSize => 13,
            StyleVar::MinorTickSize => 14,
            StyleVar::MajorGridSize => 15,
            StyleVar::MinorGridSize => 16,
            StyleVar::PlotPadding => 17,
            StyleVar::LabelPadding => 18,
            StyleVar::LegendPadding => 19,
            StyleVar::LegendInnerPadding => 20,
            StyleVar::LegendSpacing => 21,
            StyleVar::MousePosPadding => 22,
            StyleVar::AnnotationPadding => 23,
            StyleVar::FitPadding => 24,
            StyleVar::PlotDefaultSize => 25,
            StyleVar::PlotMinSize => 26,
        }
    }

    /// Two choices with the same number are the same choice.
    pub proof fn lemma_code_injective(a: StyleVar, b: StyleVar)
        requires
            a.spec_code() == b.spec_code(),
        ensures
            a == b,
    {
    }
}

/// Place within the plot area, used for legends and the like.
#[derive(Debug, Clone, Copy, PartialEq, Eq, Hash, Structural)]
pub enum PlotLocation {
    /// The middle of the plot.
    Center,
    /// The middle of the top edge.
    North,
    /// The middle of the bottom edge.
    South,
    /// The middle of the left edge.
    West,
    /// The middle of the right edge.
    East,
    /// The top left corner.
    NorthWest,
    /// The top right corner.
    NorthEast,
    /// The bottom left corner.
    SouthWest,
    /// The bottom right corner.
    SouthEast,
}

impl PlotLocation {
    /// The number the backend knows this choice by.
    pub open spec fn spec_code(self) -> i32 {
        match self {
            PlotLocation::Center => 0i32,
            PlotLocation::North => 1i32,
            PlotLocation::South => 2i32,
            PlotLocation::West => 4i32,
            PlotLocation::East => 8i32,
            PlotLocation::NorthWest => 5i32,
            PlotLocation::NorthEast => 9i32,
            PlotLocation::SouthWest => 6i32,
            PlotLocation::SouthEast => 10i32,
        }
    }

    /// The number the backend knows this choice by.
    #[verifier::when_used_as_spec(spec_code)]
    pub fn code(self) -> (code: i32)
        ensures
            code == self.spec_code(),
            0 <= code <= 10,
    {
        match self {
            PlotLocation::Center => 0,
            PlotLocation::North => 1,
            PlotLocation::South => 2,
            PlotLocation::West => 4,
            PlotLocation::East => 8,
            PlotLocation::NorthWest => 5,
            PlotLocation::NorthEast => 9,
            PlotLocation::SouthWest => 6,
            PlotLocation::SouthEast => 10,
        }
    }

    /// Two choices with the same number are the same choice.
    pub proof fn lemma_code_injective(a: PlotLocation, b: PlotLocation)
        requires
            a.spec_code() == b.spec_code(),
        ensures
            a == b,
    {
    }

    /// Whether this place lies on the top edge.
    pub open spec fn is_north(self) -> bool {
        self == PlotLocation::North || self == PlotLocation::NorthWest || self
            == PlotLocation::NorthEast
    }

    /// Whether this place lies on the bottom edge.
    pub open spec fn is_south(self) -> bool {
        self == PlotLocation::South || self == PlotLocation::SouthWest || self
            == PlotLocation::SouthEast
    }

    /// Whether this place lies on the left edge.
    pub open spec fn is_west(self) -> bool {
        self == PlotLocation::West || self == PlotLocation::NorthWest || self
            == PlotLocation::SouthWest
    }

    /// Whether this place lies on the right edge.
    pub open spec fn is_east(self) -> bool {
        self == PlotLocation::East || self == PlotLocation::NorthEast || self
            == PlotLocation::SouthEast
    }

    /// The number of a place is the sum of one number for each edge it lies
    /// on: 1 for the top, 2 for the bottom, 4 for the left and 8 for the
    /// right edge. A corner therefore has the numbers of its two edges added.
    pub proof fn lemma_code_is_sum_of_edges(place: PlotLocation)
        ensures
            place.spec_code() == (if place.is_north() { 1int } else { 0 })
                + (if place.is_south() { 2int } else { 0 })
                + (if place.is_west() { 4int } else { 0 })
                + (if place.is_east() { 8int } else { 0 }),
    {
    }
}

/// When a setting that is given for the next plot takes effect.
#[derive(Debug, Clone, Copy, PartialEq, Eq, Hash, Structural)]
pub enum Condition {
    /// The setting is never applied.
    Never,
    /// The setting is applied every time.
    Always,
    /// The setting is applied the first time only.
    Once,
    /// The setting is applied where the plot has no state saved from an earlier run.
    FirstUseEver,
    /// The setting is applied when the plot appears after having been hidden.
    Appearing,
}

impl Condition {
    /// The number the backend knows this choice by.
    pub open spec fn spec_code(self) -> i32 {
        match self {
            Condition::Never => -1i32,
            Condition::Always => 1i32,
            Condition::Once => 2i32,
            Condition::FirstUseEver => 4i32,
            Condition::Appearing => 8i32,
        }
    }

    /// The number the backend knows this choice by.
    #[verifier::when_used_as_spec(spec_code)]
    pub fn code(self) -> (code: i32)
        ensures
            code == self.spec_code(),
            -1 <= code <= 8,
    {
        match self {
            Condition::Never => -1,
            Condition::Always => 1,
            Condition::Once => 2,
            Condition::FirstUseEver => 4,
            Condition::Appearing => 8,
        }
    }

    /// Two choices with the same number are the same choice.
    pub proof fn lemma_code_injective(a: Condition, b: Condition)
        requires
            a.spec_code() == b.spec_code(),
        ensures
            a == b,
    {
    }
}

} // verus!
