use implot::{
    axis_option_to_i32, get_x_axis, get_x_axis_from_index, get_x_axis_index, get_y_axis,
    get_y_axis_from_index, get_y_axis_index, set_axis, Axis, PlotCall, IMPLOT_AUTO,
};

const ALL: [Axis; 6] = [Axis::X1, Axis::X2, Axis::X3, Axis::Y1, Axis::Y2, Axis::Y3];

#[test]
fn axis_codes_count_up_from_zero() {
    for (expected, axis) in ALL.iter().enumerate() {
        assert_eq!(axis.code(), expected as i32);
    }
}

#[test]
fn no_axis_is_the_automatic_choice() {
    assert_eq!(axis_option_to_i32(None), IMPLOT_AUTO);
    assert_eq!(axis_option_to_i32(None), -1);
    assert_eq!(axis_option_to_i32(Some(Axis::X1)), 0);
    assert_eq!(axis_option_to_i32(Some(Axis::Y3)), 5);
}

#[test]
fn horizontal_axes_have_horizontal_indices_only() {
    assert_eq!(get_x_axis(Axis::X2), Some(Axis::X2));
    assert_eq!(get_x_axis(Axis::Y1), None);
    assert_eq!(get_x_axis_index(Axis::X1), Some(0));
    assert_eq!(get_x_axis_index(Axis::X3), Some(2));
    assert_eq!(get_x_axis_index(Axis::Y1), None);
    assert_eq!(get_y_axis_index(Axis::X3), None);
}

#[test]
fn vertical_axes_have_vertical_indices_only() {
    assert_eq!(get_y_axis(Axis::Y2), Some(Axis::Y2));
    assert_eq!(get_y_axis(Axis::X3), None);
    assert_eq!(get_y_axis_index(Axis::Y1), Some(0));
    assert_eq!(get_y_axis_index(Axis::Y3), Some(2));
}

#[test]
fn index_and_axis_undo_each_other() {
    for axis in ALL {
        if let Some(index) = get_x_axis_index(axis) {
            assert_eq!(get_x_axis_from_index(index), Some(axis));
        }
        if let Some(index) = get_y_axis_index(axis) {
            assert_eq!(get_y_axis_from_index(index), Some(axis));
        }
        assert_ne!(get_x_axis_index(axis).is_some(), get_y_axis_index(axis).is_some());
    }
    for index in 0..3 {
        assert_eq!(get_x_axis_index(get_x_axis_from_index(index).unwrap()), Some(index));
        assert_eq!(get_y_axis_index(get_y_axis_from_index(index).unwrap()), Some(index));
    }
}

#[test]
fn there_is_no_axis_past_the_third() {
    assert_eq!(get_x_axis_from_index(3), None);
    assert_eq!(get_y_axis_from_index(3), None);
    assert_eq!(get_x_axis_from_index(usize::MAX), None);
}

#[test]
fn axes_are_ordered_horizontal_first() {
    assert!(Axis::X1 < Axis::X2);
    assert!(Axis::X3 < Axis::Y1);
    assert!(Axis::Y2 < Axis::Y3);
}

#[test]
fn set_axis_hands_over_the_code() {
    assert_eq!(set_axis(Axis::Y2), PlotCall::SetAxis { axis: 4 });
}
