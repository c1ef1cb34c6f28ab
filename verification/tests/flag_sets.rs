use implot::{
    AxisFlags, BarsFlags, HeatmapFlags, LegendFlags, LineFlags, PlotFlags, ScatterFlags,
    StairsFlags, StemsFlags, TextFlags,
};

#[test]
fn plot_flag_bits() {
    assert_eq!(PlotFlags::NONE, 0);
    assert_eq!(PlotFlags::NO_TITLE, 1);
    assert_eq!(PlotFlags::NO_LEGEND, 2);
    assert_eq!(PlotFlags::NO_MOUSE_TEXT, 4);
    assert_eq!(PlotFlags::NO_INPUTS, 8);
    assert_eq!(PlotFlags::NO_MENUS, 16);
    assert_eq!(PlotFlags::NO_BOX_SELECT, 32);
    assert_eq!(PlotFlags::NO_FRAME, 64);
    assert_eq!(PlotFlags::EQUAL, 128);
    assert_eq!(PlotFlags::CROSSHAIRS, PlotFlags::EQUAL);
    assert_eq!(PlotFlags::ALL, 255);
}

#[test]
fn axis_flag_bits() {
    assert_eq!(AxisFlags::NO_LABEL, 1);
    assert_eq!(AxisFlags::NO_GRID_LINES, 2);
    assert_eq!(AxisFlags::NO_TICK_MARKS, 4);
    assert_eq!(AxisFlags::NO_TICK_LABELS, 8);
    assert_eq!(AxisFlags::NO_INITIAL_FIT, AxisFlags::NO_TICK_LABELS);
    assert_eq!(AxisFlags::NO_MENUS, 32);
    assert_eq!(AxisFlags::NO_SIDE_SWITCH, 64);
    assert_eq!(AxisFlags::NO_HIGHLIGHT, 128);
    assert_eq!(AxisFlags::OPPOSITE, 256);
    assert_eq!(AxisFlags::FOREGROUND, 512);
    assert_eq!(AxisFlags::INVERT, 1024);
    assert_eq!(AxisFlags::AUTO_FIT, 2048);
    assert_eq!(AxisFlags::RANGE_FIT, 4096);
    assert_eq!(AxisFlags::PAN_STRETCH, 8192);
    assert_eq!(AxisFlags::LOCK_MIN, 16384);
    assert_eq!(AxisFlags::LOCK_MAX, 32768);
    assert_eq!(AxisFlags::LOCK, AxisFlags::LOCK_MIN | AxisFlags::LOCK_MAX);
    assert_eq!(
        AxisFlags::NO_DECORATIONS,
        AxisFlags::NO_LABEL
            | AxisFlags::NO_GRID_LINES
            | AxisFlags::NO_TICK_MARKS
            | AxisFlags::NO_TICK_LABELS
    );
    assert_eq!(AxisFlags::AUX_DEFAULT, AxisFlags::NO_GRID_LINES | AxisFlags::OPPOSITE);
    assert_eq!(AxisFlags::ALL, 0xffef);
}

#[test]
fn series_flag_bits() {
    assert_eq!(LineFlags::SEGMENTS, 1 << 10);
    assert_eq!(LineFlags::LOOP, 1 << 11);
    assert_eq!(LineFlags::SKIP_NAN, 1 << 12);
    assert_eq!(LineFlags::NO_CLIP, 1 << 13);
    assert_eq!(LineFlags::SHADED, 1 << 14);
    assert_eq!(LineFlags::ALL, 0x7c00);
    assert_eq!(StairsFlags::PRE_STEP, 1 << 10);
    assert_eq!(StairsFlags::SHADED, 1 << 11);
    assert_eq!(ScatterFlags::NO_CLIP, 1 << 10);
    assert_eq!(BarsFlags::HORIZONTAL, 1 << 10);
    assert_eq!(TextFlags::VERTICAL, 1 << 10);
    assert_eq!(HeatmapFlags::COL_MAJOR, 1 << 10);
    assert_eq!(StemsFlags::HORIZONTAL, 1 << 10);
}

#[test]
fn legend_flag_bits() {
    assert_eq!(LegendFlags::NO_BUTTONS, 1);
    assert_eq!(LegendFlags::NO_HIGHLIGHT_ITEM, 2);
    assert_eq!(LegendFlags::NO_HIGHLIGHT_AXIS, 4);
    assert_eq!(LegendFlags::NO_MENUS, 8);
    assert_eq!(LegendFlags::OUTSIDE, 16);
    assert_eq!(LegendFlags::HORIZONTAL, 32);
    assert_eq!(LegendFlags::SORT, 64);
    assert_eq!(LegendFlags::ALL, 127);
}

#[test]
fn empty_set_holds_nothing_and_full_set_everything() {
    assert_eq!(PlotFlags::empty().bits(), 0);
    assert!(PlotFlags::empty().is_empty());
    assert_eq!(PlotFlags::all().bits(), PlotFlags::ALL);
    assert!(!PlotFlags::all().is_empty());
    assert!(PlotFlags::all().contains(PlotFlags::empty()));
    assert!(!PlotFlags::empty().contains(PlotFlags::all()));
    assert!(PlotFlags::empty().contains(PlotFlags::empty()));
}

#[test]
fn unknown_bits_are_refused_or_cut_off() {
    assert_eq!(PlotFlags::from_bits(0x100), None);
    assert_eq!(PlotFlags::from_bits(0x103), None);
    assert_eq!(PlotFlags::from_bits(3).unwrap().bits(), 3);
    assert_eq!(PlotFlags::from_bits(0).unwrap(), PlotFlags::empty());
    assert_eq!(PlotFlags::from_bits_truncate(0x103).bits(), 3);
    assert_eq!(PlotFlags::from_bits_truncate(u32::MAX), PlotFlags::all());
    assert_eq!(AxisFlags::from_bits(16), None);
    assert_eq!(AxisFlags::from_bits_truncate(16 | 32).bits(), 32);
    assert_eq!(LineFlags::from_bits(1), None);
    assert_eq!(LineFlags::from_bits_truncate(u32::MAX).bits(), 0x7c00);
}

#[test]
fn union_holds_both_parts() {
    let title = PlotFlags::from_bits_truncate(PlotFlags::NO_TITLE);
    let legend = PlotFlags::from_bits_truncate(PlotFlags::NO_LEGEND);
    let both = title.union(legend);
    assert_eq!(both.bits(), 3);
    assert!(both.contains(title));
    assert!(both.contains(legend));
    assert!(!title.contains(both));
    assert_eq!(both.union(both), both);
    assert_eq!(legend.union(title), both);
    assert_eq!(both.union(PlotFlags::empty()), both);
}

#[test]
fn signed_number_equals_the_bits() {
    assert_eq!(PlotFlags::all().to_i32(), 255);
    assert_eq!(AxisFlags::all().to_i32(), 0xffef);
    assert_eq!(LineFlags::from_bits_truncate(LineFlags::LOOP).to_i32(), 2048);
    assert_eq!(LegendFlags::empty().to_i32(), 0);
    assert_eq!(StairsFlags::all().to_i32(), 0xc00);
    assert_eq!(ScatterFlags::all().to_i32(), 0x400);
    assert_eq!(BarsFlags::all().to_i32(), 0x400);
    assert_eq!(TextFlags::all().to_i32(), 0x400);
    assert_eq!(HeatmapFlags::all().to_i32(), 0x400);
    assert_eq!(StemsFlags::all().to_i32(), 0x400);
}
