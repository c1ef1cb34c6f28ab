//! The six axes of a plot and the numbers the backend knows them by.
//!
//! A plot has three horizontal and three vertical axes. The backend numbers
//! them `0..6`, horizontal axes first. Per-axis settings are kept in tables of
//! three entries for each direction, so an axis also has an index `0..3`
//! within its direction.
use vstd::prelude::*;
use crate::call::{CallModel, PlotCall};

verus! {

/// The number the backend takes where the caller leaves the choice to it.
pub const IMPLOT_AUTO: i32 = -1;

/// Number of horizontal axes of a plot.
pub const NUMBER_OF_X_AXES: usize = 3;

/// Number of vertical axes of a plot.
pub const NUMBER_OF_Y_AXES: usize = 3;

/// Choice of axis: the horizontal axes, followed by the vertical ones.
#[derive(Debug, Clone, Copy, Ord, PartialOrd, Eq, PartialEq, Hash, Structural)]
pub enum Axis {
    X1,
    X2,
    X3,
    Y1,
    Y2,
    Y3,
}

impl Axis {
    /// The number the backend knows this axis by.
    pub open spec fn spec_code(self) -> i32 {
        match self {
            Axis::X1 => 0,
            Axis::X2 => 1,
            Axis::X3 => 2,
            Axis::Y1 => 3,
            Axis::Y2 => 4,
            Axis::Y3 => 5,
        }
    }

    /// Whether this is one of the horizontal axes.
    pub open spec fn is_x(self) -> bool {
        self.spec_code() < NUMBER_OF_X_AXES
    }

    /// Whether this is one of the vertical axes.
    pub open spec fn is_y(self) -> bool {
        self.spec_code() >= NUMBER_OF_X_AXES
    }

    /// The number the backend knows this axis by.
    #[verifier::when_used_as_spec(spec_code)]
    pub fn code(self) -> (code: i32)
        ensures
            code == self.spec_code(),
            0 <= code < NUMBER_OF_X_AXES + NUMBER_OF_Y_AXES,
    {
        match self {
            Axis::X1 => 0,
            Axis::X2 => 1,
            Axis::X3 => 2,
            Axis::Y1 => 3,
            Axis::Y2 => 4,
            Axis::Y3 => 5,
        }
    }
}

/// The horizontal axis at `index`, where there is one.
pub open spec fn x_axis_at(index: int) -> Option<Axis> {
    if index == 0 {
        Some(Axis::X1)
    } else if index == 1 {
        Some(Axis::X2)
    } else if index == 2 {
        Some(Axis::X3)
    } else {
        None
    }
}

/// The vertical axis at `index`, where there is one.
pub open spec fn y_axis_at(index: int) -> Option<Axis> {
    if index == 0 {
        Some(Axis::Y1)
    } else if index == 1 {
        Some(Axis::Y2)
    } else if index == 2 {
        Some(Axis::Y3)
    } else {
        None
    }
}

/// The index of `axis` among the horizontal axes, where it is one of them.
pub open spec fn x_index_of(axis: Axis) -> Option<usize> {
    if axis.is_x() {
        Some(axis.spec_code() as usize)
    } else {
        None
    }
}

/// The index of `axis` among the vertical axes, where it is one of them.
pub open spec fn y_index_of(axis: Axis) -> Option<usize> {
    if axis.is_y() {
        Some((axis.spec_code() - NUMBER_OF_X_AXES) as usize)
    } else {
        None
    }
}

/// Turns an optional axis into the backend's number for it, which is
/// [`IMPLOT_AUTO`] where no axis is chosen.
pub fn axis_option_to_i32(choice: Option<Axis>) -> (code: i32)
    ensures
        choice is None ==> code == IMPLOT_AUTO,
        choice matches Some(axis) ==> code == axis.spec_code(),
{
    match choice {
        Some(axis) => axis.code(),
        None => IMPLOT_AUTO,
    }
}

/// Hands `axis` back where it is a horizontal axis.
pub fn get_x_axis(axis: Axis) -> (chosen: Option<Axis>)
    ensures
        chosen == if axis.is_x() { Some(axis) } else { None::<Axis> },
{
    match axis {
        Axis::X1 | Axis::X2 | Axis::X3 => Some(axis),
        _ => None,
    }
}

/// The index of `axis` among the horizontal axes, where it is one of them.
pub fn get_x_axis_index(axis: Axis) -> (index: Option<usize>)
    ensures
        index == x_index_of(axis),
        index matches Some(i) ==> i < NUMBER_OF_X_AXES,
{
    match axis {
        Axis::X1 => Some(0),
        Axis::X2 => Some(1),
        Axis::X3 => Some(2),
        _ => None,
    }
}

/// Hands `axis` back where it is a vertical axis.
pub fn get_y_axis(axis: Axis) -> (chosen: Option<Axis>)
    ensures
        chosen == if axis.is_y() { Some(axis) } else { None::<Axis> },
{
    match axis {
        Axis::Y1 | Axis::Y2 | Axis::Y3 => Some(axis),
        _ => None,
    }
}

/// The index of `axis` among the vertical axes, where it is one of them.
pub fn get_y_axis_index(axis: Axis) -> (index: Option<usize>)
    ensures
        index == y_index_of(axis),
        index matches Some(i) ==> i < NUMBER_OF_Y_AXES,
{
    match axis {
        Axis::Y1 => Some(0),
        Axis::Y2 => Some(1),
        Axis::Y3 => Some(2),
        _ => None,
    }
}

/// The horizontal axis at `index`, where `index` is below
/// [`NUMBER_OF_X_AXES`].
pub fn get_x_axis_from_index(index: usize) -> (axis: Option<Axis>)
    ensures
        axis == x_axis_at(index as int),
        axis is Some <==> index < NUMBER_OF_X_AXES,
        axis matches Some(a) ==> a.spec_code() == index,
{
    if index == 0 {
        Some(Axis::X1)
    } else if index == 1 {
        Some(Axis::X2)
    } else if index == 2 {
        Some(Axis::X3)
    } else {
        None
    }
}

/// The vertical axis at `index`, where `index` is below
/// [`NUMBER_OF_Y_AXES`].
pub fn get_y_axis_from_index(index: usize) -> (axis: Option<Axis>)
    ensures
        axis == y_axis_at(index as int),
        axis is Some <==> index < NUMBER_OF_Y_AXES,
        axis matches Some(a) ==> a.spec_code() == index + NUMBER_OF_X_AXES,
{
    if index == 0 {
        Some(Axis::Y1)
    } else if index == 1 {
        Some(Axis::Y2)
    } else if index == 2 {
        Some(Axis::Y3)
    } else {
        None
    }
}

/// The call that chooses `axis` for the elements that are drawn from now on.
pub fn set_axis(axis: Axis) -> (call: PlotCall)
    ensures
        call@ == (CallModel::SetAxis { axis: axis.spec_code() as int }),
{
    PlotCall::SetAxis { axis: axis.code() }
}

/// Two axes with the same number are the same axis.
pub proof fn lemma_code_injective(a: Axis, b: Axis)
    requires
        a.spec_code() == b.spec_code(),
    ensures
        a == b,
{
}

/// Every axis is horizontal or vertical and never both, so exactly one of
/// its two indices exists.
pub proof fn lemma_one_direction(axis: Axis)
    ensures
        axis.is_x() != axis.is_y(),
        x_index_of(axis) is Some != y_index_of(axis) is Some,
{
}

/// Looking up the index of a horizontal axis and then the axis at that index
/// gives the axis back, and the same holds for a vertical axis.
pub proof fn lemma_index_then_axis(axis: Axis)
    ensures
        x_index_of(axis) matches Some(i) ==> x_axis_at(i as int) == Some(axis),
        y_index_of(axis) matches Some(i) ==> y_axis_at(i as int) == Some(axis),
{
}

/// Looking up the axis at an index and then its index gives the index back.
pub proof fn lemma_axis_then_index(index: usize)
    ensures
        x_axis_at(index as int) matches Some(axis) ==> x_index_of(axis) == Some(index),
        y_axis_at(index as int) matches Some(axis) ==> y_index_of(axis) == Some(index),
{
}

} // verus!
