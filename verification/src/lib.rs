//! Plot configuration for an immediate-mode plotting backend.
//!
//! The backend draws; this library decides what it is asked to draw. A caller
//! describes a plot and its contents through builders, and gets back the
//! calls to make on the backend, in order and with their arguments. Making
//! the calls is left to the caller.
pub mod axis;
pub mod bindings;
pub mod call;
pub mod context;
pub mod flags;
pub mod label;
pub mod plot;
pub mod plot_elements;
pub mod stack;
pub mod style;
pub mod values;

pub use axis::{
    axis_option_to_i32, get_x_axis, get_x_axis_from_index, get_x_axis_index, get_y_axis,
    get_y_axis_from_index, get_y_axis_index, set_axis, Axis, IMPLOT_AUTO, NUMBER_OF_X_AXES,
    NUMBER_OF_Y_AXES,
};
pub use call::{PlotCall, SeriesCall};
pub use context::{Context, PlotUi};
pub use flags::{
    AxisFlags, BarsFlags, HeatmapFlags, LegendFlags, LineFlags, PlotFlags, ScatterFlags,
    StairsFlags, StemsFlags, TextFlags,
};
pub use label::{find_nul, Label, NulError};
pub use plot::{AxisLimitSpecification, Plot, PlotToken};
pub use plot_elements::{
    PlotBars, PlotHeatmap, PlotLine, PlotScatter, PlotStairs, PlotStems, PlotText,
};
pub use stack::{
    push_style_color, push_style_var_f32, push_style_var_i32, push_style_var_imvec2,
    StyleColorToken, StyleVarToken,
};
pub use style::{Colormap, Condition, Marker, PlotColorElement, PlotLocation, StyleVar};
pub use values::{ImPlotPoint, ImPlotRange, ImVec2, ImVec4};
