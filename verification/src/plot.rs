//! The plot itself: its settings, and the calls that put them into effect.
//!
//! A [`Plot`] gathers settings through its builder methods. Nothing reaches
//! the backend until the plot is begun. [`Plot::begin_calls`] then lists the
//! calls that announce the settings and begin the plot; the backend's answer
//! to the last of them says whether the plot is drawn. Where it is,
//! [`Plot::begin`] gives out a [`PlotToken`] and the calls that set up the
//! axes and the legend, and the caller draws and calls [`PlotToken::end`].
//!
//! [`PlotModel`] is a plot as a mathematical value. Every method here is
//! specified by what it does to the model, and the calls are functions of
//! the model alone.
use vstd::prelude::*;
use vstd::slice::slice_to_vec;
use crate::axis::{
    get_x_axis_index,
    get_y_axis_index,
    x_index_of,
    y_index_of,
    Axis,
    NUMBER_OF_X_AXES,
};
use crate::call::{call_models, label_bytes, optional_label_bytes, CallModel, PlotCall};
use crate::context::PlotUi;
use crate::flags::{AxisFlags, LegendFlags, PlotFlags};
use crate::label::{has_nul_char, text_bytes, Label};
use crate::style::{Condition, PlotLocation};
use crate::values::{len_to_c_int, wrap_to_c_int, ImPlotRange, ImVec2};

verus! {

/// Width of a plot that was given no size: 400, as a single-precision number.
pub const DEFAULT_PLOT_SIZE_X: u32 = 0x43c8_0000;

/// Height of a plot that was given no size: 400, as a single-precision number.
pub const DEFAULT_PLOT_SIZE_Y: u32 = 0x43c8_0000;

/// How the ends of an axis are set.
#[derive(Clone, Copy, Debug, PartialEq, Eq, Structural)]
pub enum AxisLimitSpecification {
    /// To the given range, under the given condition.
    Single(ImPlotRange, Condition),
    /// To a range that the caller shares between plots, known by its handle.
    /// The backend reads the ends from it and writes them back to it.
    Linked(usize),
}

/// The settings of the three axes of one direction, as a mathematical value.
/// Each sequence has one entry for each axis.
pub struct AxesModel {
    pub limits: Seq<Option<AxisLimitSpecification>>,
    pub tick_positions: Seq<Option<Seq<u64>>>,
    pub tick_labels: Seq<Option<Seq<Seq<u8>>>>,
    pub show_default_ticks: Seq<bool>,
    pub flags: Seq<u32>,
}

impl AxesModel {
    /// Whether there is one entry of each setting for each of the three axes.
    pub open spec fn wf(self) -> bool {
        &&& self.limits.len() == 3
        &&& self.tick_positions.len() == 3
        &&& self.tick_labels.len() == 3
        &&& self.show_default_ticks.len() == 3
        &&& self.flags.len() == 3
    }

    /// The axes of a new plot: nothing is set.
    pub open spec fn unset() -> AxesModel {
        AxesModel {
            limits: Seq::new(3, |k: int| None),
            tick_positions: Seq::new(3, |k: int| None),
            tick_labels: Seq::new(3, |k: int| None),
            show_default_ticks: Seq::new(3, |k: int| false),
            flags: Seq::new(3, |k: int| 0u32),
        }
    }

    /// These axes with the ends of the axis at `index` set as `limits` says;
    /// unchanged without an index.
    pub open spec fn with_limits(
        self,
        index: Option<usize>,
        limits: AxisLimitSpecification,
    ) -> AxesModel {
        match index {
            Some(k) => AxesModel { limits: self.limits.update(k as int, Some(limits)), ..self },
            None => self,
        }
    }

    /// These axes with ticks at `positions` on the axis at `index`; labels
    /// that the axis had stay. Unchanged without an index.
    pub open spec fn with_ticks(
        self,
        index: Option<usize>,
        positions: Seq<u64>,
        show_default: bool,
    ) -> AxesModel {
        match index {
            Some(k) => AxesModel {
                tick_positions: self.tick_positions.update(k as int, Some(positions)),
                show_default_ticks: self.show_default_ticks.update(k as int, show_default),
                ..self
            },
            None => self,
        }
    }

    /// These axes with ticks at `positions`, labelled `labels`, on the axis
    /// at `index`; unchanged without an index.
    pub open spec fn with_labelled_ticks(
        self,
        index: Option<usize>,
        positions: Seq<u64>,
        labels: Seq<Seq<u8>>,
        show_default: bool,
    ) -> AxesModel {
        match index {
            Some(k) => AxesModel {
                tick_positions: self.tick_positions.update(k as int, Some(positions)),
                tick_labels: self.tick_labels.update(k as int, Some(labels)),
                show_default_ticks: self.show_default_ticks.update(k as int, show_default),
                ..self
            },
            None => self,
        }
    }

    /// These axes with the options of the axis at `index` set to `flags`;
    /// unchanged without an index.
    pub open spec fn with_flags(self, index: Option<usize>, flags: u32) -> AxesModel {
        match index {
            Some(k) => AxesModel { flags: self.flags.update(k as int, flags), ..self },
            None => self,
        }
    }

    /// The call that sets the ends of axis `k`, where they are set to a range
    /// of their own; no call otherwise. `first_code` is the number of the
    /// first axis of this direction.
    pub open spec fn limit_call(self, first_code: int, k: int) -> Seq<CallModel> {
        match self.limits[k] {
            Some(AxisLimitSpecification::Single(range, condition)) => seq![
                CallModel::SetNextAxisLimits {
                    axis: first_code + k,
                    min: range.min,
                    max: range.max,
                    condition: condition.spec_code() as int,
                },
            ],
            _ => Seq::empty(),
        }
    }

    /// The calls that set the ends of the axes of this direction, first axis
    /// first.
    pub open spec fn limit_calls(self, first_code: int) -> Seq<CallModel> {
        self.limit_call(first_code, 0) + self.limit_call(first_code, 1) + self.limit_call(
            first_code,
            2,
        )
    }

    /// The call that ties axis `k` to the shared range it is linked to, or
    /// to none.
    pub open spec fn link_call(self, first_code: int, k: int) -> CallModel {
        CallModel::SetNextAxisLinks {
            axis: first_code + k,
            link: match self.limits[k] {
                Some(AxisLimitSpecification::Linked(link)) => Some(link),
                _ => None,
            },
        }
    }

    /// The calls that tie the axes of this direction to shared ranges: one
    /// for each axis, first axis first.
    pub open spec fn link_calls(self, first_code: int) -> Seq<CallModel> {
        seq![
            self.link_call(first_code, 0),
            self.link_call(first_code, 1),
            self.link_call(first_code, 2),
        ]
    }

    /// The call that places the ticks of axis `k`, where it has any; no call
    /// otherwise.
    pub open spec fn tick_call(self, first_code: int, k: int) -> Seq<CallModel> {
        match self.tick_positions[k] {
            Some(positions) => if positions.len() > 0 {
                seq![
                    CallModel::SetupAxisTicks {
                        axis: first_code + k,
                        positions,
                        count: wrap_to_c_int(positions.len() as int),
                        labels: self.tick_labels[k],
                        show_default: self.show_default_ticks[k],
                    },
                ]
            } else {
                Seq::empty()
            },
            None => Seq::empty(),
        }
    }

    /// The calls that place the ticks of the axes of this direction, first
    /// axis first.
    pub open spec fn tick_calls(self, first_code: int) -> Seq<CallModel> {
        self.tick_call(first_code, 0) + self.tick_call(first_code, 1) + self.tick_call(
            first_code,
            2,
        )
    }
}

/// A plot as a mathematical value.
pub struct PlotModel {
    pub title: Seq<u8>,
    pub size: ImVec2,
    pub x_label: Seq<u8>,
    pub y_label: Seq<u8>,
    pub x: AxesModel,
    pub y: AxesModel,
    pub legend_configuration: Option<(PlotLocation, u32)>,
    pub plot_flags: u32,
}

impl PlotModel {
    /// Whether both directions have their three axes.
    pub open spec fn wf(self) -> bool {
        self.x.wf() && self.y.wf()
    }

    /// The plot titled `title` with every other setting at its default.
    pub open spec fn initial(title: Seq<u8>) -> PlotModel {
        PlotModel {
            title,
            size: ImVec2 { x: DEFAULT_PLOT_SIZE_X, y: DEFAULT_PLOT_SIZE_Y },
            x_label: Seq::empty(),
            y_label: Seq::empty(),
            x: AxesModel::unset(),
            y: AxesModel::unset(),
            legend_configuration: None,
            plot_flags: 0,
        }
    }

    /// The calls that announce the ends of the axes of the next plot: the
    /// ranges of the horizontal, then of the vertical axes, then the links of
    /// the horizontal, then of the vertical axes.
    pub open spec fn axis_limit_calls(self) -> Seq<CallModel> {
        self.x.limit_calls(0) + self.y.limit_calls(NUMBER_OF_X_AXES as int) + self.x.link_calls(0)
            + self.y.link_calls(NUMBER_OF_X_AXES as int)
    }

    /// The calls that place the ticks: those of the horizontal, then those of
    /// the vertical axes.
    pub open spec fn tick_label_calls(self) -> Seq<CallModel> {
        self.x.tick_calls(0) + self.y.tick_calls(NUMBER_OF_X_AXES as int)
    }

    /// The call that begins the plot.
    pub open spec fn begin_call(self) -> CallModel {
        CallModel::BeginPlot { title: self.title, size: self.size, flags: self.plot_flags as int }
    }

    /// Every call up to the one that begins the plot, which comes last.
    pub open spec fn begin_calls(self) -> Seq<CallModel> {
        (self.axis_limit_calls() + self.tick_label_calls()).push(self.begin_call())
    }

    /// The call that places the legend, where a place was chosen for it.
    pub open spec fn legend_call(self) -> Seq<CallModel> {
        match self.legend_configuration {
            Some((location, flags)) => seq![
                CallModel::SetupLegend {
                    location: location.spec_code() as int,
                    flags: flags as int,
                },
            ],
            None => Seq::empty(),
        }
    }

    /// The calls that follow once the backend has said that the plot is
    /// drawn: the first horizontal and the first vertical axis get their
    /// label and options, then the legend its place.
    pub open spec fn setup_calls(self) -> Seq<CallModel> {
        seq![
            CallModel::SetupAxis {
                axis: Axis::X1.spec_code() as int,
                label: self.x_label,
                flags: self.x.flags[0] as int,
            },
            CallModel::SetupAxis {
                axis: Axis::Y1.spec_code() as int,
                label: self.y_label,
                flags: self.y.flags[0] as int,
            },
        ] + self.legend_call()
    }
}

/// Of two settings of the ends of one axis the later one stands, whether
/// each of them is a range or a link.
pub proof fn lemma_last_limits_stand(
    axes: AxesModel,
    index: Option<usize>,
    earlier: AxisLimitSpecification,
    later: AxisLimitSpecification,
)
    requires
        axes.wf(),
        index matches Some(k) ==> k < 3,
    ensures
        axes.with_limits(index, earlier).with_limits(index, later) == axes.with_limits(
            index,
            later,
        ),
{
    if let Some(k) = index {
        assert(axes.limits.update(k as int, Some(earlier)).update(k as int, Some(later))
            =~= axes.limits.update(k as int, Some(later)));
    }
}

/// What is set for one axis changes no call for another axis.
pub proof fn lemma_axes_are_independent(
    axes: AxesModel,
    index: usize,
    limits: AxisLimitSpecification,
    positions: Seq<u64>,
    labels: Seq<Seq<u8>>,
    show_default: bool,
    first_code: int,
    other: int,
)
    requires
        axes.wf(),
        index < 3,
        0 <= other < 3,
        other != index,
    ensures
        axes.with_limits(Some(index), limits).limit_call(first_code, other) == axes.limit_call(
            first_code,
            other,
        ),
        axes.with_limits(Some(index), limits).link_call(first_code, other) == axes.link_call(
            first_code,
            other,
        ),
        axes.with_ticks(Some(index), positions, show_default).tick_call(first_code, other)
            == axes.tick_call(first_code, other),
        axes.with_labelled_ticks(Some(index), positions, labels, show_default).tick_call(
            first_code,
            other,
        ) == axes.tick_call(first_code, other),
{
}

/// An axis is given a range or tied to a shared range, never both: where a
/// call sets its ends, the call for its link names no range, and where the
/// link names one, no call sets its ends.
pub proof fn lemma_range_or_link(axes: AxesModel, first_code: int, k: int)
    ensures
        axes.limit_call(first_code, k).len() <= 1,
        axes.limit_call(first_code, k).len() == 1 ==> axes.link_call(first_code, k)
            == (CallModel::SetNextAxisLinks { axis: first_code + k, link: None }),
        axes.link_call(first_code, k) matches CallModel::SetNextAxisLinks { link: Some(_), .. }
            ==> axes.limit_call(first_code, k).len() == 0,
{
}

/// Ticks that were given with labels have as many labels as positions.
pub proof fn lemma_labelled_ticks_agree(
    axes: AxesModel,
    index: usize,
    ticks: Seq<(u64, String)>,
    show_default: bool,
)
    requires
        axes.wf(),
        index < 3,
    ensures
        ({
            let set = axes.with_labelled_ticks(
                Some(index),
                positions_of(ticks),
                labels_of(ticks),
                show_default,
            );
            &&& set.tick_positions[index as int] matches Some(positions)
            &&& set.tick_labels[index as int] matches Some(labels)
            &&& positions.len() == ticks.len()
            &&& labels.len() == ticks.len()
        }),
{
}

/// Beginning a plot takes between 7 and 19 calls: one link for each of the
/// six axes, at most one range and one list of ticks for each, and the call
/// that begins the plot, which always comes last.
pub proof fn lemma_begin_call_comes_last(plot: PlotModel)
    ensures
        7 <= plot.begin_calls().len() <= 19,
        plot.begin_calls().last() == plot.begin_call(),
        plot.axis_limit_calls().len() + plot.tick_label_calls().len() + 1
            == plot.begin_calls().len(),
{
}

/// A plot on which nothing was set begins with six calls that tie no axis
/// to anything, followed by the call that begins it at the default size and
/// without options.
pub proof fn lemma_new_plot_begins_plainly(title: Seq<u8>)
    ensures
        PlotModel::initial(title).begin_calls() == Seq::new(
            6,
            |k: int| CallModel::SetNextAxisLinks { axis: k, link: None },
        ).push(
            CallModel::BeginPlot {
                title,
                size: ImVec2 { x: DEFAULT_PLOT_SIZE_X, y: DEFAULT_PLOT_SIZE_Y },
                flags: 0,
            },
        ),
        PlotModel::initial(title).wf(),
{
    let plot = PlotModel::initial(title);
    assert(plot.x.limit_calls(0) =~= Seq::<CallModel>::empty());
    assert(plot.y.limit_calls(3) =~= Seq::<CallModel>::empty());
    assert(plot.x.tick_calls(0) =~= Seq::<CallModel>::empty());
    assert(plot.y.tick_calls(3) =~= Seq::<CallModel>::empty());
    assert(plot.begin_calls() =~= Seq::new(
        6,
        |k: int| CallModel::SetNextAxisLinks { axis: k, link: None },
    ).push(plot.begin_call()));
}

/// The settings of the three axes of one direction.
#[derive(Debug)]
struct Axes {
    limits: [Option<AxisLimitSpecification>; 3],
    tick_positions: [Option<Vec<u64>>; 3],
    tick_labels: [Option<Vec<Label>>; 3],
    show_default_ticks: [bool; 3],
    flags: [AxisFlags; 3],
}

spec fn optional_positions(positions: Option<Vec<u64>>) -> Option<Seq<u64>> {
    match positions {
        Some(positions) => Some(positions@),
        None => None,
    }
}

impl View for Axes {
    type V = AxesModel;

    closed spec fn view(&self) -> AxesModel {
        AxesModel {
            limits: self.limits@,
            tick_positions: Seq::new(3, |k: int| optional_positions(self.tick_positions[k])),
            tick_labels: Seq::new(3, |k: int| optional_label_bytes(self.tick_labels[k])),
            show_default_ticks: self.show_default_ticks@,
            flags: Seq::new(3, |k: int| self.flags[k]@),
        }
    }
}

/// Adds `call` to the end of `calls`.
fn append_call(calls: &mut Vec<PlotCall>, call: PlotCall)
    ensures
        call_models(final(calls)@) == call_models(old(calls)@).push(call@),
{
    calls.push(call);
    assert(call_models(calls@) =~= call_models(old(calls)@).push(call@));
}

/// A copy of `labels`.
fn copy_labels(labels: &Vec<Label>) -> (copy: Vec<Label>)
    ensures
        label_bytes(copy@) == label_bytes(labels@),
{
    let mut copy: Vec<Label> = Vec::new();
    let mut i: usize = 0;
    while i < labels.len()
        invariant
            i <= labels@.len(),
            copy@.len() == i,
            forall|j: int| 0 <= j < i ==> copy@[j]@ == labels@[j]@,
        decreases labels@.len() - i,
    {
        copy.push(labels[i].clone());
        i += 1;
    }
    assert(label_bytes(copy@) =~= label_bytes(labels@));
    copy
}

impl Axes {
    fn unset() -> (axes: Axes)
        ensures
            axes@ == AxesModel::unset(),
    {
        let axes = Axes {
            limits: [None, None, None],
            tick_positions: [None, None, None],
            tick_labels: [None, None, None],
            show_default_ticks: [false, false, false],
            flags: [AxisFlags::empty(), AxisFlags::empty(), AxisFlags::empty()],
        };
        assert(axes@.limits =~= AxesModel::unset().limits);
        assert(axes@.tick_positions =~= AxesModel::unset().tick_positions);
        assert(axes@.tick_labels =~= AxesModel::unset().tick_labels);
        assert(axes@.show_default_ticks =~= AxesModel::unset().show_default_ticks);
        assert(axes@.flags =~= AxesModel::unset().flags);
        axes
    }

    fn with_limits(self, index: Option<usize>, limits: AxisLimitSpecification) -> (axes: Axes)
        requires
            index matches Some(k) ==> k < 3,
        ensures
            axes@ == self@.with_limits(index, limits),
    {
        match index {
            Some(k) => {
                let mut axes = self;
                axes.limits[k] = Some(limits);
                assert(axes@.limits =~= self@.limits.update(k as int, Some(limits)));
                assert(axes@.tick_positions =~= self@.tick_positions);
                assert(axes@.tick_labels =~= self@.tick_labels);
                assert(axes@.flags =~= self@.flags);
                axes
            },
            None => self,
        }
    }

    fn with_ticks(self, index: Option<usize>, positions: Vec<u64>, show_default: bool) -> (axes:
        Axes)
        requires
            index matches Some(k) ==> k < 3,
        ensures
            axes@ == self@.with_ticks(index, positions@, show_default),
    {
        match index {
            Some(k) => {
                let mut axes = self;
                axes.tick_positions[k] = Some(positions);
                axes.show_default_ticks[k] = show_default;
                assert(axes@.tick_positions =~= self@.tick_positions.update(
                    k as int,
                    Some(positions@),
                ));
                assert(axes@.show_default_ticks =~= self@.show_default_ticks.update(
                    k as int,
                    show_default,
                ));
                assert(axes@.tick_labels =~= self@.tick_labels);
                assert(axes@.flags =~= self@.flags);
                axes
            },
            None => self,
        }
    }

    fn with_labelled_ticks(
        self,
        index: Option<usize>,
        positions: Vec<u64>,
        labels: Vec<Label>,
        show_default: bool,
    ) -> (axes: Axes)
        requires
            index matches Some(k) ==> k < 3,
        ensures
            axes@ == self@.with_labelled_ticks(
                index,
                positions@,
                label_bytes(labels@),
                show_default,
            ),
    {
        match index {
            Some(k) => {
                let mut axes = self;
                axes.tick_positions[k] = Some(positions);
                axes.tick_labels[k] = Some(labels);
                axes.show_default_ticks[k] = show_default;
                assert(axes@.tick_positions =~= self@.tick_positions.update(
                    k as int,
                    Some(positions@),
                ));
                assert(axes@.tick_labels =~= self@.tick_labels.update(
                    k as int,
                    Some(label_bytes(labels@)),
                ));
                assert(axes@.show_default_ticks =~= self@.show_default_ticks.update(
                    k as int,
                    show_default,
                ));
                assert(axes@.flags =~= self@.flags);
                axes
            },
            None => self,
        }
    }

    fn with_flags(self, index: Option<usize>, flags: AxisFlags) -> (axes: Axes)
        requires
            index matches Some(k) ==> k < 3,
        ensures
            axes@ == self@.with_flags(index, flags@),
    {
        match index {
            Some(k) => {
                let mut axes = self;
                axes.flags[k] = flags;
                assert(axes@.flags =~= self@.flags.update(k as int, flags@));
                assert(axes@.tick_positions =~= self@.tick_positions);
                assert(axes@.tick_labels =~= self@.tick_labels);
                axes
            },
            None => self,
        }
    }

    fn push_limit_call(&self, first_code: i32, k: usize, calls: &mut Vec<PlotCall>)
        requires
            0 <= first_code <= 3,
            k < 3,
        ensures
            call_models(final(calls)@) == call_models(old(calls)@) + self@.limit_call(
                first_code as int,
                k as int,
            ),
    {
        match self.limits[k] {
            Some(AxisLimitSpecification::Single(range, condition)) => {
                append_call(
                    calls,
                    PlotCall::SetNextAxisLimits {
                        axis: first_code + k as i32,
                        min: range.min,
                        max: range.max,
                        condition: condition.code(),
                    },
                );
                assert(call_models(calls@) =~= call_models(old(calls)@) + self@.limit_call(
                    first_code as int,
                    k as int,
                ));
            },
            _ => {
                assert(call_models(calls@) =~= call_models(old(calls)@) + self@.limit_call(
                    first_code as int,
                    k as int,
                ));
            },
        }
    }

    fn push_limit_calls(&self, first_code: i32, calls: &mut Vec<PlotCall>)
        requires
            0 <= first_code <= 3,
        ensures
            call_models(final(calls)@) == call_models(old(calls)@) + self@.limit_calls(
                first_code as int,
            ),
    {
        self.push_limit_call(first_code, 0, calls);
        self.push_limit_call(first_code, 1, calls);
        self.push_limit_call(first_code, 2, calls);
        assert(call_models(calls@) =~= call_models(old(calls)@) + self@.limit_calls(
            first_code as int,
        ));
    }

    fn push_link_call(&self, first_code: i32, k: usize, calls: &mut Vec<PlotCall>)
        requires
            0 <= first_code <= 3,
            k < 3,
        ensures
            call_models(final(calls)@) == call_models(old(calls)@).push(
                self@.link_call(first_code as int, k as int),
            ),
    {
        let link = match self.limits[k] {
            Some(AxisLimitSpecification::Linked(link)) => Some(link),
            _ => None,
        };
        append_call(calls, PlotCall::SetNextAxisLinks { axis: first_code + k as i32, link });
    }

    fn push_link_calls(&self, first_code: i32, calls: &mut Vec<PlotCall>)
        requires
            0 <= first_code <= 3,
        ensures
            call_models(final(calls)@) == call_models(old(calls)@) + self@.link_calls(
                first_code as int,
            ),
    {
        self.push_link_call(first_code, 0, calls);
        self.push_link_call(first_code, 1, calls);
        self.push_link_call(first_code, 2, calls);
        assert(call_models(calls@) =~= call_models(old(calls)@) + self@.link_calls(
            first_code as int,
        ));
    }

    fn push_tick_call(&self, first_code: i32, k: usize, calls: &mut Vec<PlotCall>)
        requires
            0 <= first_code <= 3,
            k < 3,
        ensures
            call_models(final(calls)@) == call_models(old(calls)@) + self@.tick_call(
                first_code as int,
                k as int,
            ),
    {
        match &self.tick_positions[k] {
            Some(positions) => {
                if positions.len() > 0 {
                    let labels = match &self.tick_labels[k] {
                        Some(labels) => Some(copy_labels(labels)),
                        None => None,
                    };
                    append_call(
                        calls,
                        PlotCall::SetupAxisTicks {
                            axis: first_code + k as i32,
                            positions: slice_to_vec(positions.as_slice()),
                            count: len_to_c_int(positions.len()),
                            labels,
                            show_default: self.show_default_ticks[k],
                        },
                    );
                }
            },
            None => {},
        }
        assert(call_models(calls@) =~= call_models(old(calls)@) + self@.tick_call(
            first_code as int,
            k as int,
        ));
    }

    fn push_tick_calls(&self, first_code: i32, calls: &mut Vec<PlotCall>)
        requires
            0 <= first_code <= 3,
        ensures
            call_models(final(calls)@) == call_models(old(calls)@) + self@.tick_calls(
                first_code as int,
            ),
    {
        self.push_tick_call(first_code, 0, calls);
        self.push_tick_call(first_code, 1, calls);
        self.push_tick_call(first_code, 2, calls);
        assert(call_models(calls@) =~= call_models(old(calls)@) + self@.tick_calls(
            first_code as int,
        ));
    }
}

/// A 2D plot, which holds everything that is drawn between its beginning and
/// its end.
#[derive(Debug)]
pub struct Plot {
    title: Label,
    size: ImVec2,
    x_label: Label,
    y_label: Label,
    x: Axes,
    y: Axes,
    legend_configuration: Option<(PlotLocation, LegendFlags)>,
    plot_flags: PlotFlags,
}

spec fn legend_model(legend: Option<(PlotLocation, LegendFlags)>) -> Option<(PlotLocation, u32)> {
    match legend {
        Some((location, flags)) => Some((location, flags@)),
        None => None,
    }
}

impl View for Plot {
    type V = PlotModel;

    closed spec fn view(&self) -> PlotModel {
        PlotModel {
            title: self.title@,
            size: self.size,
            x_label: self.x_label@,
            y_label: self.y_label@,
            x: self.x@,
            y: self.y@,
            legend_configuration: legend_model(self.legend_configuration),
            plot_flags: self.plot_flags@,
        }
    }
}

/// The positions of `ticks`, in order.
pub open spec fn positions_of(ticks: Seq<(u64, String)>) -> Seq<u64> {
    Seq::new(ticks.len(), |i: int| ticks[i].0)
}

/// The bytes of the label of each of `ticks`, in order.
pub open spec fn labels_of(ticks: Seq<(u64, String)>) -> Seq<Seq<u8>> {
    Seq::new(ticks.len(), |i: int| text_bytes(ticks[i].1@))
}

/// Whether no label of `ticks` holds the character with the number zero.
pub open spec fn labels_are_clean(ticks: Seq<(u64, String)>) -> bool {
    forall|i: int| 0 <= i < ticks.len() ==> !has_nul_char(#[trigger] ticks[i].1@)
}

/// Splits labelled ticks into their positions and their labels.
fn split_ticks(ticks: &[(u64, String)]) -> (parts: (Vec<u64>, Vec<Label>))
    requires
        labels_are_clean(ticks@),
    ensures
        parts.0@ == positions_of(ticks@),
        label_bytes(parts.1@) == labels_of(ticks@),
{
    let mut positions: Vec<u64> = Vec::new();
    let mut labels: Vec<Label> = Vec::new();
    let mut i: usize = 0;
    while i < ticks.len()
        invariant
            i <= ticks@.len(),
            labels_are_clean(ticks@),
            positions@.len() == i,
            labels@.len() == i,
            forall|j: int| 0 <= j < i ==> positions@[j] == ticks@[j].0,
            forall|j: int| 0 <= j < i ==> labels@[j]@ == text_bytes(ticks@[j].1@),
        decreases ticks@.len() - i,
    {
        let tick = &ticks[i];
        positions.push(tick.0);
        labels.push(Label::from_clean_text(tick.1.as_str()));
        i += 1;
    }
    assert(positions@ =~= positions_of(ticks@));
    assert(label_bytes(labels@) =~= labels_of(ticks@));
    (positions, labels)
}

impl Plot {
    /// Every plot has its three horizontal and its three vertical axes.
    pub proof fn lemma_well_formed(plot: Plot)
        ensures
            plot@.wf(),
    {
    }

    /// A new plot titled `title`, with every other setting at its default.
    /// Nothing is drawn yet.
    ///
    /// The title must not hold the character with the number zero.
    pub fn new(title: &str) -> (plot: Plot)
        requires
            !has_nul_char(title@),
        ensures
            plot@ == PlotModel::initial(text_bytes(title@)),
    {
        Plot {
            title: Label::from_clean_text(title),
            size: ImVec2 { x: DEFAULT_PLOT_SIZE_X, y: DEFAULT_PLOT_SIZE_Y },
            x_label: Label::empty(),
            y_label: Label::empty(),
            x: Axes::unset(),
            y: Axes::unset(),
            legend_configuration: None,
            plot_flags: PlotFlags::empty(),
        }
    }

    /// Sets the size of the plot: width, then height, each a single-precision
    /// number carried as its bit pattern.
    pub fn size(self, size: [u32; 2]) -> (plot: Plot)
        ensures
            plot@ == (PlotModel { size: ImVec2 { x: size[0], y: size[1] }, ..self@ }),
    {
        let mut plot = self;
        plot.size = ImVec2 { x: size[0], y: size[1] };
        plot
    }

    /// Sets the label of the first horizontal axis.
    ///
    /// The label must not hold the character with the number zero.
    pub fn x_label(self, label: &str) -> (plot: Plot)
        requires
            !has_nul_char(label@),
        ensures
            plot@ == (PlotModel { x_label: text_bytes(label@), ..self@ }),
    {
        let mut plot = self;
        plot.x_label = Label::from_clean_text(label);
        plot
    }

    /// Sets the label of the first vertical axis.
    ///
    /// The label must not hold the character with the number zero.
    pub fn y_label(self, label: &str) -> (plot: Plot)
        requires
            !has_nul_char(label@),
        ensures
            plot@ == (PlotModel { y_label: text_bytes(label@), ..self@ }),
    {
        let mut plot = self;
        plot.y_label = Label::from_clean_text(label);
        plot
    }

    /// Sets the ends of the horizontal axis `axis` under `condition`. Does
    /// nothing where `axis` is a vertical axis. A link that the axis had is
    /// replaced.
    pub fn x_limits(self, limits: ImPlotRange, condition: Condition, axis: Axis) -> (plot: Plot)
        ensures
            plot@ == (PlotModel {
                x: self@.x.with_limits(
                    x_index_of(axis),
                    AxisLimitSpecification::Single(limits, condition),
                ),
                ..self@
            }),
    {
        let mut plot = self;
        plot.x = plot.x.with_limits(
            get_x_axis_index(axis),
            AxisLimitSpecification::Single(limits, condition),
        );
        plot
    }

    /// Sets the ends of the first horizontal axis.
    pub fn x1_limits(self, limits: ImPlotRange, condition: Condition) -> (plot: Plot)
        ensures
            plot@ == (PlotModel {
                x: self@.x.with_limits(
                    Some(0usize),
                    AxisLimitSpecification::Single(limits, condition),
                ),
                ..self@
            }),
    {
        self.x_limits(limits, condition, Axis::X1)
    }

    /// Sets the ends of the second horizontal axis.
    pub fn x2_limits(self, limits: ImPlotRange, condition: Condition) -> (plot: Plot)
        ensures
            plot@ == (PlotModel {
                x: self@.x.with_limits(
                    Some(1usize),
                    AxisLimitSpecification::Single(limits, condition),
                ),
                ..self@
            }),
    {
        self.x_limits(limits, condition, Axis::X2)
    }

    /// Sets the ends of the third horizontal axis.
    pub fn x3_limits(self, limits: ImPlotRange, condition: Condition) -> (plot: Plot)
        ensures
            plot@ == (PlotModel {
                x: self@.x.with_limits(
                    Some(2usize),
                    AxisLimitSpecification::Single(limits, condition),
                ),
                ..self@
            }),
    {
        self.x_limits(limits, condition, Axis::X3)
    }

    /// Ties the ends of the horizontal axis `axis` to the shared range with
    /// the handle `limits`; plots tied to the same range move together. Does
    /// nothing where `axis` is a vertical axis. A range that the axis had is
    /// replaced.
    pub fn linked_x_limits(self, limits: usize, axis: Axis) -> (plot: Plot)
        ensures
            plot@ == (PlotModel {
                x: self@.x.with_limits(x_index_of(axis), AxisLimitSpecification::Linked(limits)),
                ..self@
            }),
    {
        let mut plot = self;
        plot.x = plot.x.with_limits(
            get_x_axis_index(axis),
            AxisLimitSpecification::Linked(limits),
        );
        plot
    }

    /// Ties the ends of the first horizontal axis to a shared range.
    pub fn linked_x1_limits(self, limits: usize) -> (plot: Plot)
        ensures
            plot@ == (PlotModel {
                x: self@.x.with_limits(Some(0usize), AxisLimitSpecification::Linked(limits)),
                ..self@
            }),
    {
        self.linked_x_limits(limits, Axis::X1)
    }

    /// Ties the ends of the second horizontal axis to a shared range.
    pub fn linked_x2_limits(self, limits: usize) -> (plot: Plot)
        ensures
            plot@ == (PlotModel {
                x: self@.x.with_limits(Some(1usize), AxisLimitSpecification::Linked(limits)),
                ..self@
            }),
    {
        self.linked_x_limits(limits, Axis::X2)
    }

    /// Ties the ends of the third horizontal axis to a shared range.
    pub fn linked_x3_limits(self, limits: usize) -> (plot: Plot)
        ensures
            plot@ == (PlotModel {
                x: self@.x.with_limits(Some(2usize), AxisLimitSpecification::Linked(limits)),
                ..self@
            }),
    {
        self.linked_x_limits(limits, Axis::X3)
    }

    /// Sets the ends of the vertical axis `axis` under `condition`. Does
    /// nothing where `axis` is a horizontal axis. A link that the axis had is
    /// replaced.
    pub fn y_limits(self, limits: ImPlotRange, condition: Condition, axis: Axis) -> (plot: Plot)
        ensures
            plot@ == (PlotModel {
                y: self@.y.with_limits(
                    y_index_of(axis),
                    AxisLimitSpecification::Single(limits, condition),
                ),
                ..self@
            }),
    {
        let mut plot = self;
        plot.y = plot.y.with_limits(
            get_y_axis_index(axis),
            AxisLimitSpecification::Single(limits, condition),
        );
        plot
    }

    /// Sets the ends of the first vertical axis.
    pub fn y1_limits(self, limits: ImPlotRange, condition: Condition) -> (plot: Plot)
        ensures
            plot@ == (PlotModel {
                y: self@.y.with_limits(
                    Some(0usize),
                    AxisLimitSpecification::Single(limits, condition),
                ),
                ..self@
            }),
    {
        self.y_limits(limits, condition, Axis::Y1)
    }

    /// Sets the ends of the second vertical axis.
    pub fn y2_limits(self, limits: ImPlotRange, condition: Condition) -> (plot: Plot)
        ensures
            plot@ == (PlotModel {
                y: self@.y.with_limits(
                    Some(1usize),
                    AxisLimitSpecification::Single(limits, condition),
                ),
                ..self@
            }),
    {
        self.y_limits(limits, condition, Axis::Y2)
    }

    /// Sets the ends of the third vertical axis.
    pub fn y3_limits(self, limits: ImPlotRange, condition: Condition) -> (plot: Plot)
        ensures
            plot@ == (PlotModel {
                y: self@.y.with_limits(
                    Some(2usize),
                    AxisLimitSpecification::Single(limits, condition),
                ),
                ..self@
            }),
    {
        self.y_limits(limits, condition, Axis::Y3)
    }

    /// Ties the ends of the vertical axis `axis` to the shared range with the
    /// handle `limits`; plots tied to the same range move together. Does
    /// nothing where `axis` is a horizontal axis. A range that the axis had
    /// is replaced.
    pub fn linked_y_limits(self, limits: usize, axis: Axis) -> (plot: Plot)
        ensures
            plot@ == (PlotModel {
                y: self@.y.with_limits(y_index_of(axis), AxisLimitSpecification::Linked(limits)),
                ..self@
            }),
    {
        let mut plot = self;
        plot.y = plot.y.with_limits(
            get_y_axis_index(axis),
            AxisLimitSpecification::Linked(limits),
        );
        plot
    }

    /// Ties the ends of the first vertical axis to a shared range.
    pub fn linked_y1_limits(self, limits: usize) -> (plot: Plot)
        ensures
            plot@ == (PlotModel {
                y: self@.y.with_limits(Some(0usize), AxisLimitSpecification::Linked(limits)),
                ..self@
            }),
    {
        self.linked_y_limits(limits, Axis::Y1)
    }

    /// Ties the ends of the second vertical axis to a shared range.
    pub fn linked_y2_limits(self, limits: usize) -> (plot: Plot)
        ensures
            plot@ == (PlotModel {
                y: self@.y.with_limits(Some(1usize), AxisLimitSpecification::Linked(limits)),
                ..self@
            }),
    {
        self.linked_y_limits(limits, Axis::Y2)
    }

    /// Ties the ends of the third vertical axis to a shared range.
    pub fn linked_y3_limits(self, limits: usize) -> (plot: Plot)
        ensures
            plot@ == (PlotModel {
                y: self@.y.with_limits(Some(2usize), AxisLimitSpecification::Linked(limits)),
                ..self@
            }),
    {
        self.linked_y_limits(limits, Axis::Y3)
    }

    /// Places ticks without labels on the horizontal axis `axis`, at the
    /// double-precision positions `ticks`. `show_default` says whether the
    /// backend's own ticks are shown as well. Labels that were given for the
    /// axis before stay. Does nothing where `axis` is a vertical axis.
    pub fn x_ticks(self, axis: Axis, ticks: &[u64], show_default: bool) -> (plot: Plot)
        ensures
            plot@ == (PlotModel {
                x: self@.x.with_ticks(x_index_of(axis), ticks@, show_default),
                ..self@
            }),
    {
        let mut plot = self;
        plot.x = plot.x.with_ticks(get_x_axis_index(axis), slice_to_vec(ticks), show_default);
        plot
    }

    /// Places ticks without labels on the vertical axis `axis`, at the
    /// double-precision positions `ticks`. `show_default` says whether the
    /// backend's own ticks are shown as well. Labels that were given for the
    /// axis before stay. Does nothing where `axis` is a horizontal axis.
    pub fn y_ticks(self, axis: Axis, ticks: &[u64], show_default: bool) -> (plot: Plot)
        ensures
            plot@ == (PlotModel {
                y: self@.y.with_ticks(y_index_of(axis), ticks@, show_default),
                ..self@
            }),
    {
        let mut plot = self;
        plot.y = plot.y.with_ticks(get_y_axis_index(axis), slice_to_vec(ticks), show_default);
        plot
    }

    /// Places labelled ticks on the horizontal axis `axis`: each entry of
    /// `tick_labels` is a position and the label written there.
    /// `show_default` says whether the backend's own ticks are shown as well.
    /// Does nothing where `axis` is a vertical axis.
    ///
    /// Where `axis` is a horizontal axis, no label may hold the character
    /// with the number zero.
    pub fn x_ticks_with_labels(
        self,
        axis: Axis,
        tick_labels: &[(u64, String)],
        show_default: bool,
    ) -> (plot: Plot)
        requires
            axis.is_x() ==> labels_are_clean(tick_labels@),
        ensures
            plot@ == (PlotModel {
                x: self@.x.with_labelled_ticks(
                    x_index_of(axis),
                    positions_of(tick_labels@),
                    labels_of(tick_labels@),
                    show_default,
                ),
                ..self@
            }),
    {
        match get_x_axis_index(axis) {
            Some(k) => {
                let (positions, labels) = split_ticks(tick_labels);
                let mut plot = self;
                plot.x = plot.x.with_labelled_ticks(Some(k), positions, labels, show_default);
                plot
            },
            None => self,
        }
    }

    /// Places labelled ticks on the vertical axis `axis`: each entry of
    /// `tick_labels` is a position and the label written there.
    /// `show_default` says whether the backend's own ticks are shown as well.
    /// Does nothing where `axis` is a horizontal axis.
    ///
    /// Where `axis` is a vertical axis, no label may hold the character
    /// with the number zero.
    pub fn y_ticks_with_labels(
        self,
        axis: Axis,
        tick_labels: &[(u64, String)],
        show_default: bool,
    ) -> (plot: Plot)
        requires
            axis.is_y() ==> labels_are_clean(tick_labels@),
        ensures
            plot@ == (PlotModel {
                y: self@.y.with_labelled_ticks(
                    y_index_of(axis),
                    positions_of(tick_labels@),
                    labels_of(tick_labels@),
                    show_default,
                ),
                ..self@
            }),
    {
        match get_y_axis_index(axis) {
            Some(k) => {
                let (positions, labels) = split_ticks(tick_labels);
                let mut plot = self;
                plot.y = plot.y.with_labelled_ticks(Some(k), positions, labels, show_default);
                plot
            },
            None => self,
        }
    }

    /// Sets the options of the plot.
    pub fn with_plot_flags(self, flags: &PlotFlags) -> (plot: Plot)
        ensures
            plot@ == (PlotModel { plot_flags: flags@, ..self@ }),
    {
        let mut plot = self;
        plot.plot_flags = *flags;
        plot
    }

    /// Sets the options of the horizontal axis `axis`. Does nothing where
    /// `axis` is a vertical axis.
    pub fn with_x_axis_flags(self, axis: Axis, flags: &AxisFlags) -> (plot: Plot)
        ensures
            plot@ == (PlotModel { x: self@.x.with_flags(x_index_of(axis), flags@), ..self@ }),
    {
        let mut plot = self;
        plot.x = plot.x.with_flags(get_x_axis_index(axis), *flags);
        plot
    }

    /// Sets the options of the vertical axis `axis`. Does nothing where
    /// `axis` is a horizontal axis.
    pub fn with_y_axis_flags(self, axis: Axis, flags: &AxisFlags) -> (plot: Plot)
        ensures
            plot@ == (PlotModel { y: self@.y.with_flags(y_index_of(axis), flags@), ..self@ }),
    {
        let mut plot = self;
        plot.y = plot.y.with_flags(get_y_axis_index(axis), *flags);
        plot
    }

    /// Sets the place and the options of the legend.
    pub fn with_legend_location(self, location: &PlotLocation, flags: LegendFlags) -> (plot: Plot)
        ensures
            plot@ == (PlotModel { legend_configuration: Some((*location, flags@)), ..self@ }),
    {
        let mut plot = self;
        plot.legend_configuration = Some((*location, flags));
        plot
    }

    /// The calls that announce the ends of the axes of the next plot.
    pub fn maybe_set_axis_limits(&self) -> (calls: Vec<PlotCall>)
        ensures
            call_models(calls@) == self@.axis_limit_calls(),
    {
        let mut calls: Vec<PlotCall> = Vec::new();
        assert(call_models(calls@) =~= Seq::<CallModel>::empty());
        self.x.push_limit_calls(0, &mut calls);
        self.y.push_limit_calls(3, &mut calls);
        self.x.push_link_calls(0, &mut calls);
        self.y.push_link_calls(3, &mut calls);
        assert(call_models(calls@) =~= self@.axis_limit_calls());
        calls
    }

    /// The calls that place the ticks that were given for the axes.
    pub fn maybe_set_tick_labels(&self) -> (calls: Vec<PlotCall>)
        ensures
            call_models(calls@) == self@.tick_label_calls(),
    {
        let mut calls: Vec<PlotCall> = Vec::new();
        assert(call_models(calls@) =~= Seq::<CallModel>::empty());
        self.x.push_tick_calls(0, &mut calls);
        self.y.push_tick_calls(3, &mut calls);
        assert(call_models(calls@) =~= self@.tick_label_calls());
        calls
    }

    /// Every call that is made to begin the plot, in order. The last one
    /// begins it, and the backend's answer to that one says whether the plot
    /// is drawn: hand the answer to [`Plot::begin`].
    pub fn begin_calls(&self) -> (calls: Vec<PlotCall>)
        ensures
            call_models(calls@) == self@.begin_calls(),
    {
        let mut calls: Vec<PlotCall> = Vec::new();
        assert(call_models(calls@) =~= Seq::<CallModel>::empty());
        self.x.push_limit_calls(0, &mut calls);
        self.y.push_limit_calls(3, &mut calls);
        self.x.push_link_calls(0, &mut calls);
        self.y.push_link_calls(3, &mut calls);
        self.x.push_tick_calls(0, &mut calls);
        self.y.push_tick_calls(3, &mut calls);
        append_call(
            &mut calls,
            PlotCall::BeginPlot {
                title: self.title.clone(),
                size: self.size,
                flags: self.plot_flags.to_i32(),
            },
        );
        assert(call_models(calls@) =~= self@.begin_calls());
        calls
    }

    /// Takes the backend's answer to the call that begins the plot. Where the
    /// plot is drawn, gives out the token that tracks it and the calls that
    /// set up its axes and its legend; the token is to be ended once the
    /// contents of the plot are drawn. Where the plot is not drawn, there is
    /// nothing to end.
    pub fn begin(&self, plot_ui: &PlotUi, should_render: bool) -> (begun: Option<
        (PlotToken, Vec<PlotCall>),
    >)
        ensures
            begun is Some <==> should_render,
            begun matches Some((token, calls)) ==> {
                &&& token@ == TokenModel::open(plot_ui.spec_context().spec_handle(), self@.title)
                &&& call_models(calls@) == self@.setup_calls()
            },
    {
        if should_render {
            let mut calls: Vec<PlotCall> = Vec::new();
            assert(call_models(calls@) =~= Seq::<CallModel>::empty());
            append_call(
                &mut calls,
                PlotCall::SetupAxis {
                    axis: Axis::X1.code(),
                    label: self.x_label.clone(),
                    flags: self.x.flags[0].to_i32(),
                },
            );
            append_call(
                &mut calls,
                PlotCall::SetupAxis {
                    axis: Axis::Y1.code(),
                    label: self.y_label.clone(),
                    flags: self.y.flags[0].to_i32(),
                },
            );
            match self.legend_configuration {
                Some((location, flags)) => {
                    append_call(
                        &mut calls,
                        PlotCall::SetupLegend { location: location.code(), flags: flags.to_i32() },
                    );
                },
                None => {},
            }
            assert(call_models(calls@) =~= self@.setup_calls());
            let token = PlotToken {
                context: Some(plot_ui.context().handle()),
                plot_title: self.title.clone(),
            };
            Some((token, calls))
        } else {
            None
        }
    }
}

/// A [`PlotToken`] as a mathematical value.
pub struct TokenModel {
    /// The handle of the context that the plot was begun in, until the plot
    /// is ended.
    pub context: Option<usize>,
    /// The title of the plot.
    pub plot_title: Seq<u8>,
}

impl TokenModel {
    /// The token of a plot titled `plot_title` that was begun in the context
    /// with the handle `context` and has not been ended.
    pub open spec fn open(context: usize, plot_title: Seq<u8>) -> TokenModel {
        TokenModel { context: Some(context), plot_title }
    }

    /// Whether the plot is still to be ended.
    pub open spec fn is_open(self) -> bool {
        self.context is Some
    }

    /// This token after its plot was ended.
    pub open spec fn ended(self) -> TokenModel {
        TokenModel { context: None, plot_title: self.plot_title }
    }

    /// Whether letting go of this token is a programming error: its plot was
    /// begun and not ended, and the token is not let go because another
    /// failure is already unwinding the stack.
    pub open spec fn drop_is_fatal(self, unwinding: bool) -> bool {
        self.is_open() && !unwinding
    }
}

/// A plot that was begun must be ended exactly once: letting go of its token
/// before that is fatal, and after that never is.
pub proof fn lemma_begun_plot_must_be_ended(context: usize, plot_title: Seq<u8>, unwinding: bool)
    ensures
        TokenModel::open(context, plot_title).drop_is_fatal(unwinding) == !unwinding,
        !TokenModel::open(context, plot_title).ended().drop_is_fatal(unwinding),
        !TokenModel::open(context, plot_title).ended().is_open(),
{
}

/// Tracks a plot that was begun and is to be ended by [`PlotToken::end`].
#[derive(Debug)]
pub struct PlotToken {
    context: Option<usize>,
    plot_title: Label,
}

impl View for PlotToken {
    type V = TokenModel;

    closed spec fn view(&self) -> TokenModel {
        TokenModel { context: self.context, plot_title: self.plot_title@ }
    }
}

impl PlotToken {
    /// Ends the plot. The token that comes back is spent: nothing is left to
    /// end, and it can be let go.
    pub fn end(self) -> (ended: (PlotToken, PlotCall))
        ensures
            ended.0@ == self@.ended(),
            ended.1@ == CallModel::EndPlot,
    {
        let mut token = self;
        token.context = None;
        (token, PlotCall::EndPlot)
    }

    /// Whether the plot is still to be ended.
    pub fn is_open(&self) -> (open: bool)
        ensures
            open == self@.is_open(),
    {
        self.context.is_some()
    }

    /// The title of the plot, for messages.
    pub fn plot_title(&self) -> (title: &Label)
        ensures
            title@ == self@.plot_title,
    {
        &self.plot_title
    }

    /// Whether letting go of this token now is a programming error.
    /// `unwinding` says whether another failure is already unwinding the
    /// stack, in which case nothing is added to it.
    pub fn drop_is_fatal(&self, unwinding: bool) -> (fatal: bool)
        ensures
            fatal == self@.drop_is_fatal(unwinding),
    {
        self.context.is_some() && !unwinding
    }
}

} // verus!
