//! The calls that this library asks its caller to make on the backend.
//!
//! The library decides which backend functions are called, in which order and
//! with which arguments; it does not make the calls. Each decision is handed
//! out as a [`PlotCall`], which holds everything the call needs. A
//! [`CallModel`] is the same call as a mathematical value, with sequences in
//! place of vectors and labels; contracts are stated over it.
use vstd::prelude::*;
use crate::label::Label;
use crate::values::{ImPlotPoint, ImVec2, ImVec4};

verus! {

/// What the calls that draw a series of points have in common.
#[derive(Debug, PartialEq, Eq)]
pub struct SeriesCall {
    /// Legend entry of the series.
    pub label: Label,
    /// Number of points handed over.
    pub count: i32,
    /// Options of the series.
    pub flags: i32,
    /// Index of the point at which reading starts.
    pub offset: i32,
    /// Distance in bytes from one number to the next.
    pub stride: i32,
}

/// A [`SeriesCall`] as a mathematical value.
pub struct SeriesModel {
    pub label: Seq<u8>,
    pub count: int,
    pub flags: int,
    pub offset: int,
    pub stride: int,
}

impl View for SeriesCall {
    type V = SeriesModel;

    open spec fn view(&self) -> SeriesModel {
        SeriesModel {
            label: self.label@,
            count: self.count as int,
            flags: self.flags as int,
            offset: self.offset as int,
            stride: self.stride as int,
        }
    }
}

/// One call on the backend, with its arguments.
#[derive(Debug, PartialEq, Eq)]
pub enum PlotCall {
    /// Sets the ends of an axis of the next plot.
    SetNextAxisLimits { axis: i32, min: u64, max: u64, condition: i32 },
    /// Ties the ends of an axis of the next plot to a range that the caller
    /// shares between plots, or to none.
    SetNextAxisLinks { axis: i32, link: Option<usize> },
    /// Places ticks on an axis, with or without a label for each.
    SetupAxisTicks {
        axis: i32,
        positions: Vec<u64>,
        count: i32,
        labels: Option<Vec<Label>>,
        show_default: bool,
    },
    /// Begins a plot; the backend answers whether it is drawn.
    BeginPlot { title: Label, size: ImVec2, flags: i32 },
    /// Gives an axis of the plot that was begun its label and options.
    SetupAxis { axis: i32, label: Label, flags: i32 },
    /// Places the legend of the plot that was begun.
    SetupLegend { location: i32, flags: i32 },
    /// Ends the plot that was begun.
    EndPlot,
    /// Puts a colour on the stack of style colours.
    PushStyleColor { element: i32, color: ImVec4 },
    /// Takes `count` colours off the stack of style colours.
    PopStyleColor { count: i32 },
    /// Puts a single-precision number on the stack of style variables.
    PushStyleVarFloat { variable: i32, value: u32 },
    /// Puts a whole number on the stack of style variables.
    PushStyleVarInt { variable: i32, number: i32 },
    /// Puts a pair of numbers on the stack of style variables.
    PushStyleVarVec2 { variable: i32, pair: ImVec2 },
    /// Takes `count` entries off the stack of style variables.
    PopStyleVar { count: i32 },
    /// Chooses the axis that the series drawn from now on belong to.
    SetAxis { axis: i32 },
    /// Draws a line through the points of a series.
    PlotLine { series: SeriesCall },
    /// Draws a series as stairs.
    PlotStairs { series: SeriesCall },
    /// Draws a marker at each point of a series.
    PlotScatter { series: SeriesCall },
    /// Draws a bar for each point of a series. With `values_first` the bar
    /// values are handed over as the first and the positions as the second
    /// array; without it the other way round.
    PlotBars { series: SeriesCall, values_first: bool, bar_width: u64 },
    /// Draws a stem for each point of a series, starting at `reference`.
    PlotStems { series: SeriesCall, reference: u64 },
    /// Writes a text at a point of the plot.
    PlotText { label: Label, x: u64, y: u64, pixel_offset: ImVec2, flags: i32 },
    /// Draws a grid of coloured cells. Without a `scale` the caller takes the
    /// least and the greatest value of the grid for it.
    PlotHeatmap {
        label: Label,
        rows: i32,
        cols: i32,
        scale: Option<(u64, u64)>,
        label_format: Option<Label>,
        bounds_min: ImPlotPoint,
        bounds_max: ImPlotPoint,
        flags: i32,
    },
}

/// A [`PlotCall`] as a mathematical value.
pub enum CallModel {
    SetNextAxisLimits { axis: int, min: u64, max: u64, condition: int },
    SetNextAxisLinks { axis: int, link: Option<usize> },
    SetupAxisTicks {
        axis: int,
        positions: Seq<u64>,
        count: int,
        labels: Option<Seq<Seq<u8>>>,
        show_default: bool,
    },
    BeginPlot { title: Seq<u8>, size: ImVec2, flags: int },
    SetupAxis { axis: int, label: Seq<u8>, flags: int },
    SetupLegend { location: int, flags: int },
    EndPlot,
    PushStyleColor { element: int, color: ImVec4 },
    PopStyleColor { count: int },
    PushStyleVarFloat { variable: int, value: u32 },
    PushStyleVarInt { variable: int, number: int },
    PushStyleVarVec2 { variable: int, pair: ImVec2 },
    PopStyleVar { count: int },
    SetAxis { axis: int },
    PlotLine { series: SeriesModel },
    PlotStairs { series: SeriesModel },
    PlotScatter { series: SeriesModel },
    PlotBars { series: SeriesModel, values_first: bool, bar_width: u64 },
    PlotStems { series: SeriesModel, reference: u64 },
    PlotText { label: Seq<u8>, x: u64, y: u64, pixel_offset: ImVec2, flags: int },
    PlotHeatmap {
        label: Seq<u8>,
        rows: int,
        cols: int,
        scale: Option<(u64, u64)>,
        label_format: Option<Seq<u8>>,
        bounds_min: ImPlotPoint,
        bounds_max: ImPlotPoint,
        flags: int,
    },
}

/// The bytes of each label of `labels`, in order.
pub open spec fn label_bytes(labels: Seq<Label>) -> Seq<Seq<u8>> {
    Seq::new(labels.len(), |i: int| labels[i]@)
}

/// The bytes of each label of `labels`, where there are labels.
pub open spec fn optional_label_bytes(labels: Option<Vec<Label>>) -> Option<Seq<Seq<u8>>> {
    match labels {
        Some(labels) => Some(label_bytes(labels@)),
        None => None,
    }
}

/// The bytes of `label`, where there is one.
pub open spec fn optional_bytes(label: Option<Label>) -> Option<Seq<u8>> {
    match label {
        Some(label) => Some(label@),
        None => None,
    }
}

impl View for PlotCall {
    type V = CallModel;

    open spec fn view(&self) -> CallModel {
        match *self {
            PlotCall::SetNextAxisLimits { axis, min, max, condition } => {
                CallModel::SetNextAxisLimits {
                    axis: axis as int,
                    min,
                    max,
                    condition: condition as int,
                }
            },
            PlotCall::SetNextAxisLinks { axis, link } => {
                CallModel::SetNextAxisLinks { axis: axis as int, link }
            },
            PlotCall::SetupAxisTicks { axis, positions, count, labels, show_default } => {
                CallModel::SetupAxisTicks {
                    axis: axis as int,
                    positions: positions@,
                    count: count as int,
                    labels: optional_label_bytes(labels),
                    show_default,
                }
            },
            PlotCall::BeginPlot { title, size, flags } => {
                CallModel::BeginPlot { title: title@, size, flags: flags as int }
            },
            PlotCall::SetupAxis { axis, label, flags } => {
                CallModel::SetupAxis { axis: axis as int, label: label@, flags: flags as int }
            },
            PlotCall::SetupLegend { location, flags } => {
                CallModel::SetupLegend { location: location as int, flags: flags as int }
            },
            PlotCall::EndPlot => CallModel::EndPlot,
            PlotCall::PushStyleColor { element, color } => {
                CallModel::PushStyleColor { element: element as int, color }
            },
            PlotCall::PopStyleColor { count } => CallModel::PopStyleColor { count: count as int },
            PlotCall::PushStyleVarFloat { variable, value } => {
                CallModel::PushStyleVarFloat { variable: variable as int, value }
            },
            PlotCall::PushStyleVarInt { variable, number } => {
                CallModel::PushStyleVarInt { variable: variable as int, number: number as int }
            },
            PlotCall::PushStyleVarVec2 { variable, pair } => {
                CallModel::PushStyleVarVec2 { variable: variable as int, pair }
            },
            PlotCall::PopStyleVar { count } => CallModel::PopStyleVar { count: count as int },
            PlotCall::SetAxis { axis } => CallModel::SetAxis { axis: axis as int },
            PlotCall::PlotLine { series } => CallModel::PlotLine { series: series@ },
            PlotCall::PlotStairs { series } => CallModel::PlotStairs { series: series@ },
            PlotCall::PlotScatter { series } => CallModel::PlotScatter { series: series@ },
            PlotCall::PlotBars { series, values_first, bar_width } => {
                CallModel::PlotBars { series: series@, values_first, bar_width }
            },
            PlotCall::PlotStems { series, reference } => {
                CallModel::PlotStems { series: series@, reference }
            },
            PlotCall::PlotText { label, x, y, pixel_offset, flags } => {
                CallModel::PlotText { label: label@, x, y, pixel_offset, flags: flags as int }
            },
            PlotCall::PlotHeatmap {
                label,
                rows,
                cols,
                scale,
                label_format,
                bounds_min,
                bounds_max,
                flags,
            } => {
                CallModel::PlotHeatmap {
                    label: label@,
                    rows: rows as int,
                    cols: cols as int,
                    scale,
                    label_format: optional_bytes(label_format),
                    bounds_min,
                    bounds_max,
                    flags: flags as int,
                }
            },
        }
    }
}

/// The calls of `calls` as mathematical values, in order.
pub open spec fn call_models(calls: Seq<PlotCall>) -> Seq<CallModel> {
    Seq::new(calls.len(), |i: int| calls[i]@)
}

} // verus!
