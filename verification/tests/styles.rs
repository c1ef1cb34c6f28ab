use implot::{Colormap, Condition, Marker, PlotColorElement, PlotLocation, StyleVar};

#[test]
fn marker_codes() {
    assert_eq!(Marker::NoMarker.code(), -1);
    assert_eq!(Marker::Circle.code(), 0);
    assert_eq!(Marker::Square.code(), 1);
    assert_eq!(Marker::Diamond.code(), 2);
    assert_eq!(Marker::Up.code(), 3);
    assert_eq!(Marker::Down.code(), 4);
    assert_eq!(Marker::Left.code(), 5);
    assert_eq!(Marker::Right.code(), 6);
    assert_eq!(Marker::Cross.code(), 7);
    assert_eq!(Marker::Plus.code(), 8);
    assert_eq!(Marker::Asterisk.code(), 9);
}

#[test]
fn colour_element_codes_count_up_from_zero() {
    let all = [
        PlotColorElement::Line,
        PlotColorElement::Fill,
        PlotColorElement::MarkerOutline,
        PlotColorElement::MarkerFill,
        PlotColorElement::ErrorBar,
        PlotColorElement::FrameBg,
        PlotColorElement::PlotBg,
        PlotColorElement::PlotBorder,
        PlotColorElement::LegendBackground,
        PlotColorElement::LegendBorder,
        PlotColorElement::LegendText,
        PlotColorElement::TitleText,
        PlotColorElement::InlayText,
        PlotColorElement::AxisText,
        PlotColorElement::AxisGrid,
        PlotColorElement::AxisTick,
        PlotColorElement::AxisBg,
        PlotColorElement::AxisBgHovered,
        PlotColorElement::AxisBgActive,
        PlotColorElement::Selection,
        PlotColorElement::Crosshairs,
    ];
    for (expected, element) in all.iter().enumerate() {
        assert_eq!(element.code(), expected as i32);
    }
}

#[test]
fn colormap_codes_count_up_from_zero() {
    let all = [
        Colormap::Deep,
        Colormap::Dark,
        Colormap::Pastel,
        Colormap::Paired,
        Colormap::Viridis,
        Colormap::Plasma,
        Colormap::Hot,
        Colormap::Cool,
        Colormap::Pink,
        Colormap::Jet,
        Colormap::Twilight,
        Colormap::RdBu,
        Colormap::BrBG,
        Colormap::PiYG,
        Colormap::Spectral,
        Colormap::Greys,
    ];
    for (expected, map) in all.iter().enumerate() {
        assert_eq!(map.code(), expected as i32);
    }
}

#[test]
fn style_variable_codes_count_up_from_zero() {
    let all = [
        StyleVar::LineWeight,
        StyleVar::Marker,
        StyleVar::MarkerSize,
        StyleVar::MarkerWeight,
        StyleVar::FillAlpha,
        StyleVar::ErrorBarSize,
        StyleVar::ErrorBarWeight,
        StyleVar::DigitalBitHeight,
        StyleVar::DigitalBitGap,
        StyleVar::PlotBorderSize,
        StyleVar::MinorAlpha,
        StyleVar::MajorTickLen,
        StyleVar::MinorTickLen,
        StyleVar::MajorTickSize,
        StyleVar::MinorTickSize,
        StyleVar::MajorGridSize,
        StyleVar::MinorGridSize,
        StyleVar::PlotPadding,
        StyleVar::LabelPadding,
        StyleVar::LegendPadding,
        StyleVar::LegendInnerPadding,
        StyleVar::LegendSpacing,
        StyleVar::MousePosPadding,
        StyleVar::AnnotationPadding,
        StyleVar::FitPadding,
        StyleVar::PlotDefaultSize,
        StyleVar::PlotMinSize,
    ];
    for (expected, variable) in all.iter().enumerate() {
        assert_eq!(variable.code(), expected as i32);
    }
}

#[test]
fn location_codes_add_up_from_their_edges() {
    assert_eq!(PlotLocation::Center.code(), 0);
    assert_eq!(PlotLocation::North.code(), 1);
    assert_eq!(PlotLocation::South.code(), 2);
    assert_eq!(PlotLocation::West.code(), 4);
    assert_eq!(PlotLocation::East.code(), 8);
    assert_eq!(
        PlotLocation::NorthWest.code(),
        PlotLocation::North.code() | PlotLocation::West.code()
    );
    assert_eq!(
        PlotLocation::NorthEast.code(),
        PlotLocation::North.code() | PlotLocation::East.code()
    );
    assert_eq!(
        PlotLocation::SouthWest.code(),
        PlotLocation::South.code() | PlotLocation::West.code()
    );
    assert_eq!(
        PlotLocation::SouthEast.code(),
        PlotLocation::South.code() | PlotLocation::East.code()
    );
    assert_eq!(PlotLocation::SouthEast.code(), 10);
}

#[test]
fn condition_codes() {
    assert_eq!(Condition::Never.code(), -1);
    assert_eq!(Condition::Always.code(), 1);
    assert_eq!(Condition::Once.code(), 2);
    assert_eq!(Condition::FirstUseEver.code(), 4);
    assert_eq!(Condition::Appearing.code(), 8);
}

#[test]
fn different_choices_have_different_codes() {
    let locations = [
        PlotLocation::Center,
        PlotLocation::North,
        PlotLocation::South,
        PlotLocation::West,
        PlotLocation::East,
        PlotLocation::NorthWest,
        PlotLocation::NorthEast,
        PlotLocation::SouthWest,
        PlotLocation::SouthEast,
    ];
    for a in locations {
        for b in locations {
            assert_eq!(a.code() == b.code(), a == b);
        }
    }
}
