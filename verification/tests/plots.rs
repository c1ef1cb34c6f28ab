use implot::{
    Axis, AxisFlags, Condition, Context, ImPlotRange, ImVec2, Label, LegendFlags, Plot, PlotCall,
    PlotFlags, PlotLocation,
};

fn label(text: &str) -> Label {
    Label::new(text).unwrap()
}

fn unlinked(axis: i32) -> PlotCall {
    PlotCall::SetNextAxisLinks { axis, link: None }
}

fn all_unlinked() -> Vec<PlotCall> {
    (0..6).map(unlinked).collect()
}

fn range(min: f64, max: f64) -> ImPlotRange {
    ImPlotRange { min: min.to_bits(), max: max.to_bits() }
}

#[test]
fn new_plot_announces_no_limits_and_no_ticks() {
    let plot = Plot::new("fresh");
    assert_eq!(plot.maybe_set_axis_limits(), all_unlinked());
    assert_eq!(plot.maybe_set_tick_labels(), Vec::<PlotCall>::new());
}

#[test]
fn new_plot_begins_with_its_defaults() {
    let calls = Plot::new("my title").begin_calls();
    let mut expected = all_unlinked();
    expected.push(PlotCall::BeginPlot {
        title: label("my title"),
        size: ImVec2 { x: 400.0f32.to_bits(), y: 400.0f32.to_bits() },
        flags: 0,
    });
    assert_eq!(calls, expected);
}

#[test]
fn size_and_flags_reach_the_beginning_call() {
    let flags = PlotFlags::from_bits_truncate(PlotFlags::NO_LEGEND | PlotFlags::NO_MENUS);
    let calls = Plot::new("sized")
        .size([300.0f32.to_bits(), 200.0f32.to_bits()])
        .with_plot_flags(&flags)
        .begin_calls();
    assert_eq!(
        calls.last(),
        Some(&PlotCall::BeginPlot {
            title: label("sized"),
            size: ImVec2 { x: 0x4396_0000, y: 0x4348_0000 },
            flags: 18,
        })
    );
    assert_eq!(calls.len(), 7);
}

#[test]
fn begin_calls_are_limits_then_ticks_then_the_beginning() {
    let plot = Plot::new("order")
        .x1_limits(range(0.0, 1.0), Condition::Always)
        .y_ticks(Axis::Y1, &[1.5f64.to_bits()], false);
    let mut expected = plot.maybe_set_axis_limits();
    expected.extend(plot.maybe_set_tick_labels());
    assert_eq!(expected.len(), 8);
    let calls = plot.begin_calls();
    assert_eq!(&calls[..8], &expected[..]);
    assert!(matches!(calls[8], PlotCall::BeginPlot { .. }));
    assert_eq!(calls.len(), 9);
}

#[test]
fn ranges_come_before_links_and_horizontal_before_vertical() {
    let plot = Plot::new("limits")
        .y2_limits(range(-1.0, 1.0), Condition::Once)
        .x3_limits(range(0.0, 10.0), Condition::Always)
        .x1_limits(range(2.0, 3.0), Condition::FirstUseEver);
    let mut expected = vec![
        PlotCall::SetNextAxisLimits {
            axis: 0,
            min: 2.0f64.to_bits(),
            max: 3.0f64.to_bits(),
            condition: 4,
        },
        PlotCall::SetNextAxisLimits {
            axis: 2,
            min: 0.0f64.to_bits(),
            max: 10.0f64.to_bits(),
            condition: 1,
        },
        PlotCall::SetNextAxisLimits {
            axis: 4,
            min: (-1.0f64).to_bits(),
            max: 1.0f64.to_bits(),
            condition: 2,
        },
    ];
    expected.extend(all_unlinked());
    assert_eq!(plot.maybe_set_axis_limits(), expected);
}

#[test]
fn every_axis_gets_a_link_call_and_linked_ones_their_handle() {
    let plot = Plot::new("links")
        .linked_x2_limits(0x1000)
        .linked_y1_limits(0x2000)
        .linked_y_limits(0x3000, Axis::Y3);
    assert_eq!(
        plot.maybe_set_axis_limits(),
        vec![
            unlinked(0),
            PlotCall::SetNextAxisLinks { axis: 1, link: Some(0x1000) },
            unlinked(2),
            PlotCall::SetNextAxisLinks { axis: 3, link: Some(0x2000) },
            unlinked(4),
            PlotCall::SetNextAxisLinks { axis: 5, link: Some(0x3000) },
        ]
    );
}

#[test]
fn each_numbered_shortcut_sets_its_own_axis() {
    let plot = Plot::new("shortcuts")
        .x1_limits(range(1.0, 2.0), Condition::Always)
        .x2_limits(range(3.0, 4.0), Condition::Always)
        .x3_limits(range(5.0, 6.0), Condition::Always)
        .y1_limits(range(7.0, 8.0), Condition::Always)
        .y2_limits(range(9.0, 10.0), Condition::Always)
        .y3_limits(range(11.0, 12.0), Condition::Always);
    let calls = plot.maybe_set_axis_limits();
    assert_eq!(calls.len(), 12);
    for (k, call) in calls[..6].iter().enumerate() {
        assert_eq!(
            *call,
            PlotCall::SetNextAxisLimits {
                axis: k as i32,
                min: ((2 * k + 1) as f64).to_bits(),
                max: ((2 * k + 2) as f64).to_bits(),
                condition: 1,
            }
        );
    }
    let linked = Plot::new("shortcuts")
        .linked_x1_limits(10)
        .linked_x2_limits(11)
        .linked_x3_limits(12)
        .linked_y1_limits(13)
        .linked_y2_limits(14)
        .linked_y3_limits(15);
    let expected: Vec<PlotCall> = (0..6)
        .map(|k| PlotCall::SetNextAxisLinks { axis: k, link: Some(10 + k as usize) })
        .collect();
    assert_eq!(linked.maybe_set_axis_limits(), expected);
}

#[test]
fn whichever_limits_were_set_last_take_effect() {
    let linked_last = Plot::new("last")
        .x_limits(range(0.0, 1.0), Condition::Always, Axis::X1)
        .linked_x_limits(42, Axis::X1);
    let mut expected = all_unlinked();
    expected[0] = PlotCall::SetNextAxisLinks { axis: 0, link: Some(42) };
    assert_eq!(linked_last.maybe_set_axis_limits(), expected);

    let range_last = Plot::new("last")
        .linked_y_limits(42, Axis::Y2)
        .y_limits(range(0.0, 1.0), Condition::Appearing, Axis::Y2);
    let mut expected = vec![PlotCall::SetNextAxisLimits {
        axis: 4,
        min: 0.0f64.to_bits(),
        max: 1.0f64.to_bits(),
        condition: 8,
    }];
    expected.extend(all_unlinked());
    assert_eq!(range_last.maybe_set_axis_limits(), expected);
}

#[test]
fn settings_for_an_axis_of_the_other_direction_are_dropped() {
    let plot = Plot::new("dropped")
        .x_limits(range(0.0, 1.0), Condition::Always, Axis::Y1)
        .y_limits(range(0.0, 1.0), Condition::Always, Axis::X1)
        .linked_x_limits(1, Axis::Y2)
        .linked_y_limits(2, Axis::X3)
        .x_ticks(Axis::Y1, &[1.0f64.to_bits()], true)
        .y_ticks(Axis::X1, &[1.0f64.to_bits()], true)
        .x_ticks_with_labels(Axis::Y3, &[(1.0f64.to_bits(), "a".to_string())], true)
        .y_ticks_with_labels(Axis::X2, &[(1.0f64.to_bits(), "b".to_string())], true)
        .with_x_axis_flags(Axis::Y1, &AxisFlags::all())
        .with_y_axis_flags(Axis::X1, &AxisFlags::all());
    assert_eq!(plot.begin_calls(), Plot::new("dropped").begin_calls());
    let context = Context::new(1);
    let ui = context.get_plot_ui();
    assert_eq!(
        plot.begin(&ui, true).unwrap().1,
        Plot::new("dropped").begin(&ui, true).unwrap().1
    );
}

#[test]
fn label_check_is_skipped_for_an_axis_of_the_other_direction() {
    let plot = Plot::new("skipped").x_ticks_with_labels(
        Axis::Y1,
        &[(1.0f64.to_bits(), "zero\0inside".to_string())],
        true,
    );
    assert_eq!(plot.maybe_set_tick_labels(), Vec::<PlotCall>::new());
}

#[test]
fn ticks_are_placed_on_the_axes_that_were_given_some() {
    let positions = [0.0f64.to_bits(), 0.5f64.to_bits(), 1.0f64.to_bits()];
    let plot = Plot::new("ticks")
        .y_ticks(Axis::Y2, &positions[..2], true)
        .x_ticks(Axis::X3, &positions, false);
    assert_eq!(
        plot.maybe_set_tick_labels(),
        vec![
            PlotCall::SetupAxisTicks {
                axis: 2,
                positions: positions.to_vec(),
                count: 3,
                labels: None,
                show_default: false,
            },
            PlotCall::SetupAxisTicks {
                axis: 4,
                positions: positions[..2].to_vec(),
                count: 2,
                labels: None,
                show_default: true,
            },
        ]
    );
}

#[test]
fn an_empty_list_of_ticks_places_none() {
    let plot = Plot::new("none").x_ticks(Axis::X1, &[], true).y_ticks_with_labels(
        Axis::Y1,
        &[],
        false,
    );
    assert_eq!(plot.maybe_set_tick_labels(), Vec::<PlotCall>::new());
}

#[test]
fn labelled_ticks_carry_positions_and_labels() {
    let ticks = [
        (1.0f64.to_bits(), "one".to_string()),
        (2.0f64.to_bits(), "two".to_string()),
    ];
    let plot = Plot::new("labelled")
        .x_ticks_with_labels(Axis::X1, &ticks, false)
        .y_ticks_with_labels(Axis::Y3, &ticks[1..], true);
    assert_eq!(
        plot.maybe_set_tick_labels(),
        vec![
            PlotCall::SetupAxisTicks {
                axis: 0,
                positions: vec![1.0f64.to_bits(), 2.0f64.to_bits()],
                count: 2,
                labels: Some(vec![label("one"), label("two")]),
                show_default: false,
            },
            PlotCall::SetupAxisTicks {
                axis: 5,
                positions: vec![2.0f64.to_bits()],
                count: 1,
                labels: Some(vec![label("two")]),
                show_default: true,
            },
        ]
    );
}

#[test]
fn plain_ticks_keep_the_labels_given_before() {
    let plot = Plot::new("kept")
        .x_ticks_with_labels(Axis::X1, &[(1.0f64.to_bits(), "one".to_string())], false)
        .x_ticks(Axis::X1, &[5.0f64.to_bits(), 6.0f64.to_bits()], true);
    assert_eq!(
        plot.maybe_set_tick_labels(),
        vec![PlotCall::SetupAxisTicks {
            axis: 0,
            positions: vec![5.0f64.to_bits(), 6.0f64.to_bits()],
            count: 2,
            labels: Some(vec![label("one")]),
            show_default: true,
        }]
    );
}

#[test]
fn a_plot_that_is_not_drawn_gives_no_token() {
    let context = Context::new(7);
    let ui = context.get_plot_ui();
    assert!(Plot::new("hidden").begin(&ui, false).is_none());
}

#[test]
fn a_plot_that_is_drawn_sets_up_its_first_axes() {
    let context = Context::new(7);
    let ui = context.get_plot_ui();
    let plot = Plot::new("drawn")
        .x_label("time")
        .y_label("value")
        .with_x_axis_flags(Axis::X1, &AxisFlags::from_bits_truncate(AxisFlags::INVERT))
        .with_y_axis_flags(Axis::Y1, &AxisFlags::from_bits_truncate(AxisFlags::LOCK))
        .with_x_axis_flags(Axis::X2, &AxisFlags::all())
        .with_y_axis_flags(Axis::Y3, &AxisFlags::all());
    let (token, calls) = plot.begin(&ui, true).unwrap();
    assert_eq!(
        calls,
        vec![
            PlotCall::SetupAxis { axis: 0, label: label("time"), flags: 1024 },
            PlotCall::SetupAxis { axis: 3, label: label("value"), flags: 49152 },
        ]
    );
    assert!(token.is_open());
    assert_eq!(token.plot_title(), &label("drawn"));
}

#[test]
fn unlabelled_axes_are_set_up_with_empty_labels() {
    let context = Context::new(7);
    let ui = context.get_plot_ui();
    let (_, calls) = Plot::new("bare").begin(&ui, true).unwrap();
    assert_eq!(
        calls,
        vec![
            PlotCall::SetupAxis { axis: 0, label: Label::empty(), flags: 0 },
            PlotCall::SetupAxis { axis: 3, label: Label::empty(), flags: 0 },
        ]
    );
}

#[test]
fn legend_is_placed_where_a_place_was_chosen() {
    let context = Context::new(7);
    let ui = context.get_plot_ui();
    let flags = LegendFlags::from_bits_truncate(LegendFlags::OUTSIDE | LegendFlags::HORIZONTAL);
    let plot = Plot::new("legend").with_legend_location(&PlotLocation::SouthEast, flags);
    let (_, calls) = plot.begin(&ui, true).unwrap();
    assert_eq!(calls.len(), 3);
    assert_eq!(calls[2], PlotCall::SetupLegend { location: 10, flags: 48 });
}

#[test]
fn later_settings_replace_earlier_ones() {
    let context = Context::new(7);
    let ui = context.get_plot_ui();
    let plot = Plot::new("replaced")
        .x_label("first")
        .x_label("second")
        .size([1, 2])
        .size([3, 4])
        .with_legend_location(&PlotLocation::North, LegendFlags::empty())
        .with_legend_location(&PlotLocation::West, LegendFlags::all());
    assert_eq!(
        plot.begin_calls().last(),
        Some(&PlotCall::BeginPlot {
            title: label("replaced"),
            size: ImVec2 { x: 3, y: 4 },
            flags: 0,
        })
    );
    let (_, calls) = plot.begin(&ui, true).unwrap();
    assert_eq!(calls[0], PlotCall::SetupAxis { axis: 0, label: label("second"), flags: 0 });
    assert_eq!(calls[2], PlotCall::SetupLegend { location: 4, flags: 127 });
}

#[test]
fn ending_a_plot_closes_its_token() {
    let context = Context::new(99);
    assert_eq!(context.handle(), 99);
    let ui = context.get_plot_ui();
    assert_eq!(ui.context().handle(), 99);
    let (token, _) = Plot::new("paired").begin(&ui, true).unwrap();
    assert!(token.is_open());
    let (spent, call) = token.end();
    assert_eq!(call, PlotCall::EndPlot);
    assert!(!spent.is_open());
    assert_eq!(spent.plot_title(), &label("paired"));
}

#[test]
fn letting_go_of_an_open_token_is_fatal_unless_unwinding() {
    let context = Context::new(1);
    let ui = context.get_plot_ui();
    let (token, _) = Plot::new("leaked").begin(&ui, true).unwrap();
    assert!(token.drop_is_fatal(false));
    assert!(!token.drop_is_fatal(true));
    let (spent, _) = token.end();
    assert!(!spent.drop_is_fatal(false));
    assert!(!spent.drop_is_fatal(true));
}
