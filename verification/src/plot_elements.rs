//! What is drawn inside a plot: lines, stairs, markers, bars, stems, texts
//! and heatmaps.
//!
//! Each element gathers its settings through builder methods. Its `plot`
//! method decides whether anything is drawn and, where it is, gives out the
//! call that draws it. The numbers of a series stay with the caller; `plot`
//! is told how many there are.
use vstd::prelude::*;
use vstd::utf8::is_ascii_chars_encode_utf8;
use crate::call::{CallModel, PlotCall, SeriesCall, SeriesModel};
use crate::flags::{
    holds_all,
    BarsFlags,
    HeatmapFlags,
    LineFlags,
    ScatterFlags,
    StairsFlags,
    StemsFlags,
    TextFlags,
};
use crate::label::{has_nul_char, text_bytes, Label};
use crate::values::{
    len_to_c_int,
    u32_to_c_int,
    wrap_to_c_int,
    ImPlotPoint,
    ImVec2,
    STRIDE_OF_DOUBLE,
};

verus! {

/// Width of the bars of a series that was given none: 0.67, as a
/// double-precision number.
pub const DEFAULT_BAR_WIDTH: u64 = 0x3fe5_70a3_d70a_3d71;

/// The number one as a double-precision number.
pub const DOUBLE_ONE: u64 = 0x3ff0_0000_0000_0000;

/// The smaller of two lengths.
pub open spec fn shorter(a: int, b: int) -> int {
    if a <= b {
        a
    } else {
        b
    }
}

/// What is handed over for a series labelled `label` with the options
/// `flags`, of which `x_len` first and `y_len` second coordinates are given:
/// nothing where either is missing, else as many points as both have, read
/// from the start, one double-precision number after the other.
pub open spec fn series_model(label: Seq<u8>, flags: u32, x_len: int, y_len: int) -> Option<
    SeriesModel,
> {
    if shorter(x_len, y_len) == 0 {
        None
    } else {
        Some(
            SeriesModel {
                label,
                count: wrap_to_c_int(shorter(x_len, y_len)),
                flags: flags as int,
                offset: 0,
                stride: STRIDE_OF_DOUBLE as int,
            },
        )
    }
}

/// Decides what is handed over for a series.
fn series_call(label: &Label, flags: i32, x_len: usize, y_len: usize) -> (series: Option<
    SeriesCall,
>)
    requires
        0 <= flags,
    ensures
        series is Some <==> series_model(label@, flags as u32, x_len as int, y_len as int) is Some,
        series matches Some(call) ==> Some(call@) == series_model(
            label@,
            flags as u32,
            x_len as int,
            y_len as int,
        ),
{
    let count = if x_len <= y_len {
        x_len
    } else {
        y_len
    };
    if count == 0 {
        None
    } else {
        Some(
            SeriesCall {
                label: label.clone(),
                count: len_to_c_int(count),
                flags,
                offset: 0,
                stride: STRIDE_OF_DOUBLE,
            },
        )
    }
}

/// A line or a shape with a legend entry and options, as a mathematical
/// value.
pub struct ElementModel {
    pub label: Seq<u8>,
    pub flags: u32,
}

/// A line through the points of a series.
#[derive(Debug)]
pub struct PlotLine {
    label: Label,
    flags: LineFlags,
}

impl View for PlotLine {
    type V = ElementModel;

    closed spec fn view(&self) -> ElementModel {
        ElementModel { label: self.label@, flags: self.flags@ }
    }
}

impl PlotLine {
    /// A line with the legend entry `label` and no options. Nothing is drawn
    /// yet.
    ///
    /// The label must not hold the character with the number zero.
    pub fn new(label: &str) -> (line: PlotLine)
        requires
            !has_nul_char(label@),
        ensures
            line@ == (ElementModel { label: text_bytes(label@), flags: 0 }),
    {
        PlotLine::new_with_flags(label, LineFlags::empty())
    }

    /// A line with the legend entry `label` and the options `flags`.
    ///
    /// The label must not hold the character with the number zero.
    pub fn new_with_flags(label: &str, flags: LineFlags) -> (line: PlotLine)
        requires
            !has_nul_char(label@),
        ensures
            line@ == (ElementModel { label: text_bytes(label@), flags: flags@ }),
    {
        PlotLine { label: Label::from_clean_text(label), flags }
    }

    /// Replaces the options of the line.
    pub fn flags(self, flags: LineFlags) -> (line: PlotLine)
        ensures
            line@ == (ElementModel { flags: flags@, ..self@ }),
    {
        let mut line = self;
        line.flags = flags;
        line
    }

    /// The call that draws the line through a series of which `x_len` first
    /// and `y_len` second coordinates are given; none where there is no
    /// point to draw.
    pub fn plot(&self, x_len: usize, y_len: usize) -> (call: Option<PlotCall>)
        ensures
            call is Some <==> x_len > 0 && y_len > 0,
            call matches Some(drawn) ==> series_model(
                self@.label,
                self@.flags,
                x_len as int,
                y_len as int,
            ) matches Some(series) && drawn@ == (CallModel::PlotLine { series }),
    {
        match series_call(&self.label, self.flags.to_i32(), x_len, y_len) {
            Some(series) => Some(PlotCall::PlotLine { series }),
            None => None,
        }
    }
}

/// A series drawn as stairs.
#[derive(Debug)]
pub struct PlotStairs {
    label: Label,
    flags: StairsFlags,
}

impl View for PlotStairs {
    type V = ElementModel;

    closed spec fn view(&self) -> ElementModel {
        ElementModel { label: self.label@, flags: self.flags@ }
    }
}

impl PlotStairs {
    /// Stairs with the legend entry `label` and no options. Nothing is drawn
    /// yet.
    ///
    /// The label must not hold the character with the number zero.
    pub fn new(label: &str) -> (stairs: PlotStairs)
        requires
            !has_nul_char(label@),
        ensures
            stairs@ == (ElementModel { label: text_bytes(label@), flags: 0 }),
    {
        PlotStairs::new_with_flags(label, StairsFlags::empty())
    }

    /// Stairs with the legend entry `label` and the options `flags`.
    ///
    /// The label must not hold the character with the number zero.
    pub fn new_with_flags(label: &str, flags: StairsFlags) -> (stairs: PlotStairs)
        requires
            !has_nul_char(label@),
        ensures
            stairs@ == (ElementModel { label: text_bytes(label@), flags: flags@ }),
    {
        PlotStairs { label: Label::from_clean_text(label), flags }
    }

    /// Replaces the options of the stairs.
    pub fn flags(self, flags: StairsFlags) -> (stairs: PlotStairs)
        ensures
            stairs@ == (ElementModel { flags: flags@, ..self@ }),
    {
        let mut stairs = self;
        stairs.flags = flags;
        stairs
    }

    /// The call that draws the stairs of a series of which `x_len` first and
    /// `y_len` second coordinates are given; none where there is no point to
    /// draw.
    pub fn plot(&self, x_len: usize, y_len: usize) -> (call: Option<PlotCall>)
        ensures
            call is Some <==> x_len > 0 && y_len > 0,
            call matches Some(drawn) ==> series_model(
                self@.label,
                self@.flags,
                x_len as int,
                y_len as int,
            ) matches Some(series) && drawn@ == (CallModel::PlotStairs { series }),
    {
        match series_call(&self.label, self.flags.to_i32(), x_len, y_len) {
            Some(series) => Some(PlotCall::PlotStairs { series }),
            None => None,
        }
    }
}

/// A marker at each point of a series.
#[derive(Debug)]
pub struct PlotScatter {
    label: Label,
    flags: ScatterFlags,
}

impl View for PlotScatter {
    type V = ElementModel;

    closed spec fn view(&self) -> ElementModel {
        ElementModel { label: self.label@, flags: self.flags@ }
    }
}

impl PlotScatter {
    /// Markers with the legend entry `label` and no options. Nothing is
    /// drawn yet.
    ///
    /// The label must not hold the character with the number zero.
    pub fn new(label: &str) -> (scatter: PlotScatter)
        requires
            !has_nul_char(label@),
        ensures
            scatter@ == (ElementModel { label: text_bytes(label@), flags: 0 }),
    {
        PlotScatter::new_with_flags(label, ScatterFlags::empty())
    }

    /// Markers with the legend entry `label` and the options `flags`.
    ///
    /// The label must not hold the character with the number zero.
    pub fn new_with_flags(label: &str, flags: ScatterFlags) -> (scatter: PlotScatter)
        requires
            !has_nul_char(label@),
        ensures
            scatter@ == (ElementModel { label: text_bytes(label@), flags: flags@ }),
    {
        PlotScatter { label: Label::from_clean_text(label), flags }
    }

    /// Replaces the options of the markers.
    pub fn flags(self, flags: ScatterFlags) -> (scatter: PlotScatter)
        ensures
            scatter@ == (ElementModel { flags: flags@, ..self@ }),
    {
        let mut scatter = self;
        scatter.flags = flags;
        scatter
    }

    /// The call that draws the markers of a series of which `x_len` first
    /// and `y_len` second coordinates are given; none where there is no
    /// point to draw.
    pub fn plot(&self, x_len: usize, y_len: usize) -> (call: Option<PlotCall>)
        ensures
            call is Some <==> x_len > 0 && y_len > 0,
            call matches Some(drawn) ==> series_model(
                self@.label,
                self@.flags,
                x_len as int,
                y_len as int,
            ) matches Some(series) && drawn@ == (CallModel::PlotScatter { series }),
    {
        match series_call(&self.label, self.flags.to_i32(), x_len, y_len) {
            Some(series) => Some(PlotCall::PlotScatter { series }),
            None => None,
        }
    }
}

/// A series of bars, as a mathematical value.
pub struct BarsModel {
    pub label: Seq<u8>,
    pub bar_width: u64,
    pub flags: u32,
}

/// A bar for each point of a series.
#[derive(Debug)]
pub struct PlotBars {
    label: Label,
    bar_width: u64,
    flags: BarsFlags,
}

impl View for PlotBars {
    type V = BarsModel;

    closed spec fn view(&self) -> BarsModel {
        BarsModel { label: self.label@, bar_width: self.bar_width, flags: self.flags@ }
    }
}

impl PlotBars {
    /// Upright bars of the default width with the legend entry `label`.
    /// Nothing is drawn yet.
    ///
    /// The label must not hold the character with the number zero.
    pub fn new(label: &str) -> (bars: PlotBars)
        requires
            !has_nul_char(label@),
        ensures
            bars@ == (BarsModel {
                label: text_bytes(label@),
                bar_width: DEFAULT_BAR_WIDTH,
                flags: 0,
            }),
    {
        PlotBars::new_with_flags(label, BarsFlags::empty())
    }

    /// Bars of the default width with the legend entry `label` and the
    /// options `flags`.
    ///
    /// The label must not hold the character with the number zero.
    pub fn new_with_flags(label: &str, flags: BarsFlags) -> (bars: PlotBars)
        requires
            !has_nul_char(label@),
        ensures
            bars@ == (BarsModel {
                label: text_bytes(label@),
                bar_width: DEFAULT_BAR_WIDTH,
                flags: flags@,
            }),
    {
        PlotBars { label: Label::from_clean_text(label), bar_width: DEFAULT_BAR_WIDTH, flags }
    }

    /// Sets the width of the bars in plot coordinates, a double-precision
    /// number carried as its bit pattern.
    pub fn with_bar_width(self, bar_width: u64) -> (bars: PlotBars)
        ensures
            bars@ == (BarsModel { bar_width, ..self@ }),
    {
        let mut bars = self;
        bars.bar_width = bar_width;
        bars
    }

    /// Replaces the options of the bars.
    pub fn flags(self, flags: BarsFlags) -> (bars: PlotBars)
        ensures
            bars@ == (BarsModel { flags: flags@, ..self@ }),
    {
        let mut bars = self;
        bars.flags = flags;
        bars
    }

    /// The call that draws the bars, of which `axis_positions_len` positions
    /// and `bar_values_len` values are given; none where there is no bar to
    /// draw. Upright bars take the positions as first and the values as
    /// second coordinates; bars that lie take them the other way round.
    pub fn plot(&self, axis_positions_len: usize, bar_values_len: usize) -> (call: Option<
        PlotCall,
    >)
        ensures
            call is Some <==> axis_positions_len > 0 && bar_values_len > 0,
            call matches Some(drawn) ==> series_model(
                self@.label,
                self@.flags,
                axis_positions_len as int,
                bar_values_len as int,
            ) matches Some(series) && drawn@ == (CallModel::PlotBars {
                series,
                values_first: holds_all(self@.flags, BarsFlags::HORIZONTAL),
                bar_width: self@.bar_width,
            }),
    {
        match series_call(&self.label, self.flags.to_i32(), axis_positions_len, bar_values_len) {
            Some(series) => Some(
                PlotCall::PlotBars {
                    series,
                    values_first: self.flags.bits() & BarsFlags::HORIZONTAL
                        == BarsFlags::HORIZONTAL,
                    bar_width: self.bar_width,
                },
            ),
            None => None,
        }
    }
}

/// A text inside a plot, as a mathematical value.
pub struct TextModel {
    pub label: Seq<u8>,
    pub pixel_offset_x: u32,
    pub pixel_offset_y: u32,
    pub flags: u32,
}

/// A text written at a point of the plot.
#[derive(Debug)]
pub struct PlotText {
    label: Label,
    pixel_offset_x: u32,
    pixel_offset_y: u32,
    flags: TextFlags,
}

impl View for PlotText {
    type V = TextModel;

    closed spec fn view(&self) -> TextModel {
        TextModel {
            label: self.label@,
            pixel_offset_x: self.pixel_offset_x,
            pixel_offset_y: self.pixel_offset_y,
            flags: self.flags@,
        }
    }
}

impl PlotText {
    /// The text `label`, written at its point without an offset. Nothing is
    /// drawn yet.
    ///
    /// The text must not hold the character with the number zero.
    pub fn new(label: &str) -> (text: PlotText)
        requires
            !has_nul_char(label@),
        ensures
            text@ == (TextModel {
                label: text_bytes(label@),
                pixel_offset_x: 0,
                pixel_offset_y: 0,
                flags: 0,
            }),
    {
        PlotText::new_with_flags(label, TextFlags::empty())
    }

    /// The text `label` with the options `flags`, written at its point
    /// without an offset.
    ///
    /// The text must not hold the character with the number zero.
    pub fn new_with_flags(label: &str, flags: TextFlags) -> (text: PlotText)
        requires
            !has_nul_char(label@),
        ensures
            text@ == (TextModel {
                label: text_bytes(label@),
                pixel_offset_x: 0,
                pixel_offset_y: 0,
                flags: flags@,
            }),
    {
        PlotText {
            label: Label::from_clean_text(label),
            pixel_offset_x: 0,
            pixel_offset_y: 0,
            flags,
        }
    }

    /// Replaces the options of the text.
    pub fn flags(self, flags: TextFlags) -> (text: PlotText)
        ensures
            text@ == (TextModel { flags: flags@, ..self@ }),
    {
        let mut text = self;
        text.flags = flags;
        text
    }

    /// Moves the text away from its point by an offset in pixels, whatever
    /// the scale of the plot: two single-precision numbers carried as their
    /// bit patterns.
    pub fn with_pixel_offset(self, offset_x: u32, offset_y: u32) -> (text: PlotText)
        ensures
            text@ == (TextModel { pixel_offset_x: offset_x, pixel_offset_y: offset_y, ..self@ }),
    {
        let mut text = self;
        text.pixel_offset_x = offset_x;
        text.pixel_offset_y = offset_y;
        text
    }

    /// The call that writes the text at the point `(x, y)`, two
    /// double-precision numbers carried as their bit patterns; none where
    /// the text is empty.
    pub fn plot(&self, x: u64, y: u64) -> (call: Option<PlotCall>)
        ensures
            call is Some <==> self@.label.len() > 0,
            call matches Some(drawn) ==> drawn@ == (CallModel::PlotText {
                label: self@.label,
                x,
                y,
                pixel_offset: ImVec2 { x: self@.pixel_offset_x, y: self@.pixel_offset_y },
                flags: self@.flags as int,
            }),
    {
        if self.label.is_empty() {
            None
        } else {
            Some(
                PlotCall::PlotText {
                    label: self.label.clone(),
                    x,
                    y,
                    pixel_offset: ImVec2 { x: self.pixel_offset_x, y: self.pixel_offset_y },
                    flags: self.flags.to_i32(),
                },
            )
        }
    }
}

/// A heatmap, as a mathematical value.
pub struct HeatmapModel {
    pub label: Seq<u8>,
    pub scale_range: Option<(u64, u64)>,
    pub label_format: Option<Seq<u8>>,
    pub drawarea_lower_left: ImPlotPoint,
    pub drawarea_upper_right: ImPlotPoint,
    pub flags: u32,
}

/// A grid of cells, each coloured by its value.
#[derive(Debug)]
pub struct PlotHeatmap {
    label: Label,
    scale_range: Option<(u64, u64)>,
    label_format: Option<Label>,
    drawarea_lower_left: ImPlotPoint,
    drawarea_upper_right: ImPlotPoint,
    flags: HeatmapFlags,
}

spec fn format_bytes(format: Option<Label>) -> Option<Seq<u8>> {
    match format {
        Some(format) => Some(format@),
        None => None,
    }
}

/// The bytes of the text that is given for a format, where one is given.
pub open spec fn optional_text_bytes(text: Option<&str>) -> Option<Seq<u8>> {
    match text {
        Some(text) => Some(text_bytes(text@)),
        None => None,
    }
}

/// The format in which a heatmap writes the value of a cell unless it is
/// given another: the number with one decimal.
pub open spec fn default_label_format() -> Seq<u8> {
    text_bytes("%.1f"@)
}

impl View for PlotHeatmap {
    type V = HeatmapModel;

    closed spec fn view(&self) -> HeatmapModel {
        HeatmapModel {
            label: self.label@,
            scale_range: self.scale_range,
            label_format: format_bytes(self.label_format),
            drawarea_lower_left: self.drawarea_lower_left,
            drawarea_upper_right: self.drawarea_upper_right,
            flags: self.flags@,
        }
    }
}

impl HeatmapModel {
    /// The heatmap labelled `label` with the options `flags` and every other
    /// setting at its default: the colours span the values that are drawn,
    /// each cell shows its value with one decimal, and the grid fills the
    /// square from (0, 0) to (1, 1).
    pub open spec fn initial(label: Seq<u8>, flags: u32) -> HeatmapModel {
        HeatmapModel {
            label,
            scale_range: None,
            label_format: Some(default_label_format()),
            drawarea_lower_left: ImPlotPoint { x: 0, y: 0 },
            drawarea_upper_right: ImPlotPoint { x: DOUBLE_ONE, y: DOUBLE_ONE },
            flags,
        }
    }
}

/// The default format of cell values as a label.
fn default_format_label() -> (format: Label)
    ensures
        format@ == default_label_format(),
{
    proof {
        reveal_strlit("%.1f");
    }
    Label::from_clean_text("%.1f")
}

/// The default format of cell values is made of four bytes: a percent sign,
/// a full stop, the digit one and the letter f.
pub proof fn lemma_default_label_format()
    ensures
        default_label_format() == seq![37u8, 46u8, 49u8, 102u8],
{
    reveal_strlit("%.1f");
    is_ascii_chars_encode_utf8("%.1f"@);
    assert(default_label_format() =~= seq![37u8, 46u8, 49u8, 102u8]);
}

impl PlotHeatmap {
    /// A heatmap with the legend entry `label` and every setting at its
    /// default. Nothing is drawn yet.
    ///
    /// The label must not hold the character with the number zero.
    pub fn new(label: &str) -> (heatmap: PlotHeatmap)
        requires
            !has_nul_char(label@),
        ensures
            heatmap@ == HeatmapModel::initial(text_bytes(label@), 0),
    {
        PlotHeatmap::new_with_flags(label, HeatmapFlags::empty())
    }

    /// A heatmap with the legend entry `label`, the options `flags` and
    /// every other setting at its default.
    ///
    /// The label must not hold the character with the number zero.
    pub fn new_with_flags(label: &str, flags: HeatmapFlags) -> (heatmap: PlotHeatmap)
        requires
            !has_nul_char(label@),
        ensures
            heatmap@ == HeatmapModel::initial(text_bytes(label@), flags@),
    {
        PlotHeatmap {
            label: Label::from_clean_text(label),
            scale_range: None,
            label_format: Some(default_format_label()),
            drawarea_lower_left: ImPlotPoint { x: 0, y: 0 },
            drawarea_upper_right: ImPlotPoint { x: DOUBLE_ONE, y: DOUBLE_ONE },
            flags,
        }
    }

    /// Replaces the options of the heatmap.
    pub fn flags(self, flags: HeatmapFlags) -> (heatmap: PlotHeatmap)
        ensures
            heatmap@ == (HeatmapModel { flags: flags@, ..self@ }),
    {
        let mut heatmap = self;
        heatmap.flags = flags;
        heatmap
    }

    /// Sets the values that the first and the last colour stand for, two
    /// double-precision numbers carried as their bit patterns.
    pub fn with_scale(self, scale_min: u64, scale_max: u64) -> (heatmap: PlotHeatmap)
        ensures
            heatmap@ == (HeatmapModel { scale_range: Some((scale_min, scale_max)), ..self@ }),
    {
        let mut heatmap = self;
        heatmap.scale_range = Some((scale_min, scale_max));
        heatmap
    }

    /// Sets the format in which the value of a cell is written, or, with
    /// `None`, leaves the cells without text.
    ///
    /// The format must not hold the character with the number zero. It is
    /// handed to the backend's formatting function as it is: the text that
    /// it yields for a value has to fit the buffer that the backend keeps
    /// for it, which this library cannot check.
    pub fn with_label_format(self, label_format: Option<&str>) -> (heatmap: PlotHeatmap)
        requires
            label_format matches Some(text) ==> !has_nul_char(text@),
        ensures
            heatmap@ == (HeatmapModel {
                label_format: optional_text_bytes(label_format),
                ..self@
            }),
    {
        let mut heatmap = self;
        heatmap.label_format = match label_format {
            Some(text) => Some(Label::from_clean_text(text)),
            None => None,
        };
        heatmap
    }

    /// Sets the rectangle that the grid fills, by its lower left and its
    /// upper right corner.
    pub fn with_drawing_area(self, lower_left: ImPlotPoint, upper_right: ImPlotPoint) -> (heatmap:
        PlotHeatmap)
        ensures
            heatmap@ == (HeatmapModel {
                drawarea_lower_left: lower_left,
                drawarea_upper_right: upper_right,
                ..self@
            }),
    {
        let mut heatmap = self;
        heatmap.drawarea_lower_left = lower_left;
        heatmap.drawarea_upper_right = upper_right;
        heatmap
    }

    /// The values that the first and the last colour stand for, where they
    /// were set.
    pub fn scale_range(&self) -> (range: Option<(u64, u64)>)
        ensures
            range == self@.scale_range,
    {
        self.scale_range
    }

    /// The call that draws a grid of `number_of_rows` rows and
    /// `number_of_cols` columns, whose `values_len` values are given row by
    /// row. Where no scale was set, the call leaves it open, and the caller
    /// takes the least and the greatest of the values for it.
    ///
    /// Without a scale there must be a value to take it from.
    pub fn plot(&self, values_len: usize, number_of_rows: u32, number_of_cols: u32) -> (call:
        PlotCall)
        requires
            self@.scale_range is None ==> values_len > 0,
        ensures
            call@ == (CallModel::PlotHeatmap {
                label: self@.label,
                rows: wrap_to_c_int(number_of_rows as int),
                cols: wrap_to_c_int(number_of_cols as int),
                scale: self@.scale_range,
                label_format: self@.label_format,
                bounds_min: self@.drawarea_lower_left,
                bounds_max: self@.drawarea_upper_right,
                flags: self@.flags as int,
            }),
    {
        PlotCall::PlotHeatmap {
            label: self.label.clone(),
            rows: u32_to_c_int(number_of_rows),
            cols: u32_to_c_int(number_of_cols),
            scale: self.scale_range,
            label_format: match &self.label_format {
                Some(format) => Some(format.clone()),
                None => None,
            },
            bounds_min: self.drawarea_lower_left,
            bounds_max: self.drawarea_upper_right,
            flags: self.flags.to_i32(),
        }
    }
}

/// A series of stems, as a mathematical value.
pub struct StemsModel {
    pub label: Seq<u8>,
    pub reference_y: u64,
    pub flags: u32,
}

/// A stem for each point of a series.
#[derive(Debug)]
pub struct PlotStems {
    label: Label,
    reference_y: u64,
    flags: StemsFlags,
}

impl View for PlotStems {
    type V = StemsModel;

    closed spec fn view(&self) -> StemsModel {
        StemsModel { label: self.label@, reference_y: self.reference_y, flags: self.flags@ }
    }
}

impl PlotStems {
    /// Stems that start at zero, with the legend entry `label`. Nothing is
    /// drawn yet.
    ///
    /// The label must not hold the character with the number zero.
    pub fn new(label: &str) -> (stems: PlotStems)
        requires
            !has_nul_char(label@),
        ensures
            stems@ == (StemsModel { label: text_bytes(label@), reference_y: 0, flags: 0 }),
    {
        PlotStems::new_with_flags(label, StemsFlags::empty())
    }

    /// Stems that start at zero, with the legend entry `label` and the
    /// options `flags`.
    ///
    /// The label must not hold the character with the number zero.
    pub fn new_with_flags(label: &str, flags: StemsFlags) -> (stems: PlotStems)
        requires
            !has_nul_char(label@),
        ensures
            stems@ == (StemsModel { label: text_bytes(label@), reference_y: 0, flags: flags@ }),
    {
        PlotStems { label: Label::from_clean_text(label), reference_y: 0, flags }
    }

    /// Sets the value at which the stems start, a double-precision number
    /// carried as its bit pattern.
    pub fn with_reference_y(self, reference_y: u64) -> (stems: PlotStems)
        ensures
            stems@ == (StemsModel { reference_y, ..self@ }),
    {
        let mut stems = self;
        stems.reference_y = reference_y;
        stems
    }

    /// The call that draws the stems, of which `axis_positions_len`
    /// positions and `stem_values_len` values are given; none where there is
    /// no stem to draw.
    pub fn plot(&self, axis_positions_len: usize, stem_values_len: usize) -> (call: Option<
        PlotCall,
    >)
        ensures
            call is Some <==> axis_positions_len > 0 && stem_values_len > 0,
            call matches Some(drawn) ==> series_model(
                self@.label,
                self@.flags,
                axis_positions_len as int,
                stem_values_len as int,
            ) matches Some(series) && drawn@ == (CallModel::PlotStems {
                series,
                reference: self@.reference_y,
            }),
    {
        match series_call(&self.label, self.flags.to_i32(), axis_positions_len, stem_values_len) {
            Some(series) => Some(PlotCall::PlotStems { series, reference: self.reference_y }),
            None => None,
        }
    }
}

} // verus!
