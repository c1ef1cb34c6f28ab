use implot::{
    BarsFlags, HeatmapFlags, ImPlotPoint, ImVec2, Label, LineFlags, PlotBars, PlotCall,
    PlotHeatmap, PlotLine, PlotScatter, PlotStairs, PlotStems, PlotText, ScatterFlags,
    SeriesCall, StairsFlags, StemsFlags, TextFlags,
};

fn label(text: &str) -> Label {
    Label::new(text).unwrap()
}

fn series(text: &str, count: i32, flags: i32) -> SeriesCall {
    SeriesCall { label: label(text), count, flags, offset: 0, stride: 8 }
}

#[test]
fn a_line_draws_as_many_points_as_both_coordinates_have() {
    let line = PlotLine::new("line");
    assert_eq!(line.plot(3, 5), Some(PlotCall::PlotLine { series: series("line", 3, 0) }));
    assert_eq!(line.plot(5, 3), Some(PlotCall::PlotLine { series: series("line", 3, 0) }));
    assert_eq!(line.plot(4, 4), Some(PlotCall::PlotLine { series: series("line", 4, 0) }));
}

#[test]
fn nothing_is_drawn_without_points() {
    assert_eq!(PlotLine::new("a").plot(0, 5), None);
    assert_eq!(PlotLine::new("a").plot(5, 0), None);
    assert_eq!(PlotStairs::new("a").plot(0, 0), None);
    assert_eq!(PlotScatter::new("a").plot(0, 1), None);
    assert_eq!(PlotBars::new("a").plot(1, 0), None);
    assert_eq!(PlotStems::new("a").plot(0, 9), None);
}

#[test]
fn line_options_are_handed_over() {
    let flags = LineFlags::from_bits_truncate(LineFlags::LOOP | LineFlags::SHADED);
    let expected = Some(PlotCall::PlotLine { series: series("l", 2, 2048 + 16384) });
    assert_eq!(PlotLine::new_with_flags("l", flags).plot(2, 2), expected);
    assert_eq!(PlotLine::new("l").flags(flags).plot(2, 2), expected);
    assert_eq!(
        PlotLine::new_with_flags("l", flags).flags(LineFlags::empty()).plot(2, 2),
        Some(PlotCall::PlotLine { series: series("l", 2, 0) })
    );
}

#[test]
fn stairs_are_drawn_like_lines() {
    let flags = StairsFlags::from_bits_truncate(StairsFlags::PRE_STEP);
    assert_eq!(
        PlotStairs::new("s").plot(7, 9),
        Some(PlotCall::PlotStairs { series: series("s", 7, 0) })
    );
    assert_eq!(
        PlotStairs::new_with_flags("s", flags).plot(1, 1),
        Some(PlotCall::PlotStairs { series: series("s", 1, 1024) })
    );
    assert_eq!(
        PlotStairs::new("s").flags(StairsFlags::all()).plot(1, 1),
        Some(PlotCall::PlotStairs { series: series("s", 1, 3072) })
    );
}

#[test]
fn markers_are_drawn_like_lines() {
    assert_eq!(
        PlotScatter::new("m").plot(2, 3),
        Some(PlotCall::PlotScatter { series: series("m", 2, 0) })
    );
    assert_eq!(
        PlotScatter::new_with_flags("m", ScatterFlags::all()).plot(2, 3),
        Some(PlotCall::PlotScatter { series: series("m", 2, 1024) })
    );
    assert_eq!(
        PlotScatter::new("m").flags(ScatterFlags::all()).plot(2, 3),
        Some(PlotCall::PlotScatter { series: series("m", 2, 1024) })
    );
}

#[test]
fn counts_past_the_signed_range_wrap_around() {
    let count = 0x8000_0000usize;
    assert_eq!(
        PlotLine::new("big").plot(count, count + 1),
        Some(PlotCall::PlotLine { series: series("big", i32::MIN, 0) })
    );
}

#[test]
fn upright_bars_take_positions_first() {
    let bars = PlotBars::new("bars");
    assert_eq!(
        bars.plot(4, 6),
        Some(PlotCall::PlotBars {
            series: series("bars", 4, 0),
            values_first: false,
            bar_width: 0.67f64.to_bits(),
        })
    );
}

#[test]
fn lying_bars_take_values_first() {
    let flags = BarsFlags::from_bits_truncate(BarsFlags::HORIZONTAL);
    let expected = Some(PlotCall::PlotBars {
        series: series("bars", 2, 1024),
        values_first: true,
        bar_width: 0.25f64.to_bits(),
    });
    assert_eq!(
        PlotBars::new_with_flags("bars", flags).with_bar_width(0.25f64.to_bits()).plot(2, 3),
        expected
    );
    assert_eq!(
        PlotBars::new("bars").with_bar_width(0.25f64.to_bits()).flags(flags).plot(2, 3),
        expected
    );
}

#[test]
fn stems_start_at_their_reference() {
    assert_eq!(
        PlotStems::new("stems").plot(3, 3),
        Some(PlotCall::PlotStems { series: series("stems", 3, 0), reference: 0.0f64.to_bits() })
    );
    assert_eq!(
        PlotStems::new_with_flags("stems", StemsFlags::all())
            .with_reference_y(1.5f64.to_bits())
            .plot(8, 3),
        Some(PlotCall::PlotStems {
            series: series("stems", 3, 1024),
            reference: 1.5f64.to_bits(),
        })
    );
}

#[test]
fn a_text_is_written_at_its_point() {
    assert_eq!(
        PlotText::new("here").plot(1.0f64.to_bits(), 2.0f64.to_bits()),
        Some(PlotCall::PlotText {
            label: label("here"),
            x: 1.0f64.to_bits(),
            y: 2.0f64.to_bits(),
            pixel_offset: ImVec2 { x: 0.0f32.to_bits(), y: 0.0f32.to_bits() },
            flags: 0,
        })
    );
}

#[test]
fn a_text_carries_its_offset_and_options() {
    let text = PlotText::new_with_flags("up", TextFlags::all())
        .with_pixel_offset(3.0f32.to_bits(), (-4.0f32).to_bits());
    let expected = Some(PlotCall::PlotText {
        label: label("up"),
        x: 0,
        y: 0,
        pixel_offset: ImVec2 { x: 3.0f32.to_bits(), y: (-4.0f32).to_bits() },
        flags: 1024,
    });
    assert_eq!(text.plot(0, 0), expected);
    let same = PlotText::new("up")
        .flags(TextFlags::from_bits_truncate(TextFlags::VERTICAL))
        .with_pixel_offset(3.0f32.to_bits(), (-4.0f32).to_bits());
    assert_eq!(same.plot(0, 0), expected);
}

#[test]
fn an_empty_text_is_not_written() {
    assert_eq!(PlotText::new("").plot(1, 2), None);
    assert_eq!(PlotText::new("").with_pixel_offset(1, 1).plot(1, 2), None);
}

#[test]
fn a_new_heatmap_has_its_defaults() {
    let heatmap = PlotHeatmap::new("heat");
    assert_eq!(heatmap.scale_range(), None);
    assert_eq!(
        heatmap.plot(6, 2, 3),
        PlotCall::PlotHeatmap {
            label: label("heat"),
            rows: 2,
            cols: 3,
            scale: None,
            label_format: Some(label("%.1f")),
            bounds_min: ImPlotPoint { x: 0.0f64.to_bits(), y: 0.0f64.to_bits() },
            bounds_max: ImPlotPoint { x: 1.0f64.to_bits(), y: 1.0f64.to_bits() },
            flags: 0,
        }
    );
}

#[test]
fn a_heatmap_carries_its_settings() {
    let lower = ImPlotPoint { x: (-1.0f64).to_bits(), y: (-2.0f64).to_bits() };
    let upper = ImPlotPoint { x: 3.0f64.to_bits(), y: 4.0f64.to_bits() };
    let heatmap = PlotHeatmap::new_with_flags("heat", HeatmapFlags::all())
        .with_scale(0.5f64.to_bits(), 9.5f64.to_bits())
        .with_label_format(Some("%.3f"))
        .with_drawing_area(lower, upper);
    assert_eq!(heatmap.scale_range(), Some((0.5f64.to_bits(), 9.5f64.to_bits())));
    assert_eq!(
        heatmap.plot(0, 10, 20),
        PlotCall::PlotHeatmap {
            label: label("heat"),
            rows: 10,
            cols: 20,
            scale: Some((0.5f64.to_bits(), 9.5f64.to_bits())),
            label_format: Some(label("%.3f")),
            bounds_min: lower,
            bounds_max: upper,
            flags: 1024,
        }
    );
}

#[test]
fn a_heatmap_without_format_shows_no_text() {
    let heatmap = PlotHeatmap::new("quiet").with_label_format(None).flags(HeatmapFlags::all());
    match heatmap.plot(1, 1, 1) {
        PlotCall::PlotHeatmap { label_format, flags, .. } => {
            assert_eq!(label_format, None);
            assert_eq!(flags, 1024);
        }
        _ => panic!("a heatmap draws a heatmap"),
    }
}

#[test]
fn heatmap_sizes_past_the_signed_range_wrap_around() {
    match PlotHeatmap::new("wide").plot(1, u32::MAX, 0x8000_0000) {
        PlotCall::PlotHeatmap { rows, cols, .. } => {
            assert_eq!(rows, -1);
            assert_eq!(cols, i32::MIN);
        }
        _ => panic!("a heatmap draws a heatmap"),
    }
}
