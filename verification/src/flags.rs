//! Bit sets that switch features of plots, axes, series and the legend.
//!
//! Each set is a `u32` in which every option has its bit. A value of one of
//! these types only ever holds bits that its type names, so its number is at
//! most the type's `ALL` and fits the signed integer that the backend takes.
use vstd::prelude::*;

verus! {

/// Whether every bit set in `wanted` is set in `bits`.
pub open spec fn holds_all(bits: u32, wanted: u32) -> bool {
    bits & wanted == wanted
}

/// Whether `bits` sets no bit outside `known`.
pub open spec fn only_bits_of(bits: u32, known: u32) -> bool {
    bits & !known == 0
}

/// Masking with `known` leaves only bits of `known`, and changes nothing
/// where there were no others.
pub proof fn lemma_mask(bits: u32, known: u32)
    by (bit_vector)
    ensures
        (bits & known) & !known == 0,
        bits & !known == 0 ==> bits & known == bits,
        0u32 & !known == 0,
        known & !known == 0,
{
}

/// A set without bits outside `known` is, as a number, at most `known`.
pub proof fn lemma_known_is_bounded(bits: u32, known: u32)
    by (bit_vector)
    requires
        bits & !known == 0,
    ensures
        bits <= known,
{
}

/// The union of two sets holds no bit that neither of them holds.
pub proof fn lemma_union_stays_known(a: u32, b: u32, known: u32)
    by (bit_vector)
    requires
        a & !known == 0,
        b & !known == 0,
    ensures
        (a | b) & !known == 0,
{
}

/// A union holds all of each of its two parts, and it is the least such set:
/// whatever holds both parts holds their union.
pub proof fn lemma_union_is_least_upper_bound(a: u32, b: u32, c: u32)
    by (bit_vector)
    ensures
        (a | b) & a == a,
        (a | b) & b == b,
        (c & a == a && c & b == b) ==> c & (a | b) == (a | b),
{
}

/// Union does not depend on the order or grouping of its parts, and joining a
/// set with itself or with the empty set changes nothing.
pub proof fn lemma_union_laws(a: u32, b: u32, c: u32)
    by (bit_vector)
    ensures
        a | b == b | a,
        (a | b) | c == a | (b | c),
        a | a == a,
        a | 0u32 == a,
{
}

/// Holding all of another set is a partial order: every set holds itself and
/// the empty set, two sets that hold each other are equal, and holding
/// carries over from set to set.
pub proof fn lemma_holds_all_is_an_order(a: u32, b: u32, c: u32)
    by (bit_vector)
    ensures
        a & a == a,
        a & 0u32 == 0u32,
        (a & b == b && b & a == a) ==> a == b,
        (a & b == b && b & c == c) ==> a & c == c,
{
}

/// Options of a whole plot.
#[derive(Clone, Copy, Debug, PartialEq, Eq, Hash, Structural)]
pub struct PlotFlags {
    bits: u32,
}

impl View for PlotFlags {
    type V = u32;

    closed spec fn view(&self) -> u32 {
        self.bits
    }
}

impl PlotFlags {
    /// No option set.
    pub const NONE: u32 = 0x0;

    /// The title is not shown.
    pub const NO_TITLE: u32 = 0x1;

    /// The legend is not shown.
    pub const NO_LEGEND: u32 = 0x2;

    /// The pointer position is not written into the plot.
    pub const NO_MOUSE_TEXT: u32 = 0x4;

    /// The plot does not react to the user.
    pub const NO_INPUTS: u32 = 0x8;

    /// No context menu opens.
    pub const NO_MENUS: u32 = 0x10;

    /// The user cannot select a box.
    pub const NO_BOX_SELECT: u32 = 0x20;

    /// The frame around the plot is not drawn.
    pub const NO_FRAME: u32 = 0x40;

    /// Paired axes keep the same number of units per pixel.
    pub const EQUAL: u32 = 0x80;

    /// Set together with [`Self::EQUAL`], whose bit it shares.
    pub const CROSSHAIRS: u32 = 0x80;

    /// Every bit that this type names.
    pub const ALL: u32 = 0xff;

    #[verifier::type_invariant]
    spec fn known_bits_only(self) -> bool {
        only_bits_of(self.bits, Self::ALL)
    }

    /// The set without any option.
    pub fn empty() -> (flags: Self)
        ensures
            flags@ == 0,
    {
        proof {
            lemma_mask(0, Self::ALL);
        }
        PlotFlags { bits: 0 }
    }

    /// The set of every option.
    pub fn all() -> (flags: Self)
        ensures
            flags@ == Self::ALL,
    {
        proof {
            lemma_mask(0, Self::ALL);
        }
        PlotFlags { bits: Self::ALL }
    }

    /// The set with exactly the bits of `bits`, where they are all named by
    /// this type.
    pub fn from_bits(bits: u32) -> (flags: Option<Self>)
        ensures
            flags is Some <==> only_bits_of(bits, Self::ALL),
            flags matches Some(set) ==> set@ == bits,
    {
        proof {
            lemma_mask(bits, Self::ALL);
        }
        if bits & Self::ALL == bits {
            Some(PlotFlags { bits: bits & Self::ALL })
        } else {
            None
        }
    }

    /// The set with the bits of `bits` that this type names.
    pub fn from_bits_truncate(bits: u32) -> (flags: Self)
        ensures
            flags@ == bits & Self::ALL,
    {
        proof {
            lemma_mask(bits, Self::ALL);
        }
        PlotFlags { bits: bits & Self::ALL }
    }

    /// The bits of the set.
    pub fn bits(&self) -> (bits: u32)
        ensures
            bits == self@,
            only_bits_of(bits, Self::ALL),
            bits <= Self::ALL,
    {
        proof {
            use_type_invariant(self);
            lemma_known_is_bounded(self.bits, Self::ALL);
        }
        self.bits
    }

    /// The bits of the set as the signed integer that the backend takes.
    pub fn to_i32(&self) -> (number: i32)
        ensures
            number == self@,
    {
        proof {
            use_type_invariant(self);
            lemma_known_is_bounded(self.bits, Self::ALL);
        }
        self.bits as i32
    }

    /// Whether no option is set.
    pub fn is_empty(&self) -> (none: bool)
        ensures
            none == (self@ == 0),
    {
        self.bits == 0
    }

    /// Whether every option of `other` is set in this set.
    pub fn contains(&self, other: Self) -> (held: bool)
        ensures
            held == holds_all(self@, other@),
    {
        self.bits & other.bits == other.bits
    }

    /// The set of the options that are in this set or in `other`.
    pub fn union(self, other: Self) -> (flags: Self)
        ensures
            flags@ == self@ | other@,
            holds_all(flags@, self@),
            holds_all(flags@, other@),
    {
        proof {
            use_type_invariant(self);
            use_type_invariant(other);
            lemma_union_stays_known(self.bits, other.bits, Self::ALL);
            lemma_union_is_least_upper_bound(self.bits, other.bits, 0);
        }
        PlotFlags { bits: self.bits | other.bits }
    }
}

/// Options of one axis.
#[derive(Clone, Copy, Debug, PartialEq, Eq, Hash, Structural)]
pub struct AxisFlags {
    bits: u32,
}

impl View for AxisFlags {
    type V = u32;

    closed spec fn view(&self) -> u32 {
        self.bits
    }
}

impl AxisFlags {
    /// No option set.
    pub const NONE: u32 = 0x0;

    /// The axis label is not shown.
    pub const NO_LABEL: u32 = 0x1;

    /// No grid lines are drawn.
    pub const NO_GRID_LINES: u32 = 0x2;

    /// No tick marks are drawn.
    pub const NO_TICK_MARKS: u32 = 0x4;

    /// No tick labels are written.
    pub const NO_TICK_LABELS: u32 = 0x8;

    /// Set together with [`Self::NO_TICK_LABELS`], whose bit it shares.
    pub const NO_INITIAL_FIT: u32 = 0x8;

    /// No context menu opens on the axis.
    pub const NO_MENUS: u32 = 0x20;

    /// The axis cannot be dragged to the other side.
    pub const NO_SIDE_SWITCH: u32 = 0x40;

    /// The axis is not highlighted under the pointer.
    pub const NO_HIGHLIGHT: u32 = 0x80;

    /// Ticks and labels are drawn on the opposite side.
    pub const OPPOSITE: u32 = 0x100;

    /// Grid lines are drawn over the data.
    pub const FOREGROUND: u32 = 0x200;

    /// The axis runs the other way.
    pub const INVERT: u32 = 0x400;

    /// The axis is fitted to the data on every frame.
    pub const AUTO_FIT: u32 = 0x800;

    /// Fitting only regards points inside the range of the other axis.
    pub const RANGE_FIT: u32 = 0x1000;

    /// Panning against a locked or constrained limit stretches the axis.
    pub const PAN_STRETCH: u32 = 0x2000;

    /// The lower limit stays where it is while panning and zooming.
    pub const LOCK_MIN: u32 = 0x4000;

    /// The upper limit stays where it is while panning and zooming.
    pub const LOCK_MAX: u32 = 0x8000;

    /// Both limits stay where they are.
    pub const LOCK: u32 = 0xc000;

    /// Neither label, grid lines, tick marks nor tick labels are shown.
    pub const NO_DECORATIONS: u32 = 0xf;

    /// No grid lines, and drawn on the opposite side.
    pub const AUX_DEFAULT: u32 = 0x102;

    /// Every bit that this type names.
    pub const ALL: u32 = 0xffef;

    #[verifier::type_invariant]
    spec fn known_bits_only(self) -> bool {
        only_bits_of(self.bits, Self::ALL)
    }

    /// The set without any option.
    pub fn empty() -> (flags: Self)
        ensures
            flags@ == 0,
    {
        proof {
            lemma_mask(0, Self::ALL);
        }
        AxisFlags { bits: 0 }
    }

    /// The set of every option.
    pub fn all() -> (flags: Self)
        ensures
            flags@ == Self::ALL,
    {
        proof {
            lemma_mask(0, Self::ALL);
        }
        AxisFlags { bits: Self::ALL }
    }

    /// The set with exactly the bits of `bits`, where they are all named by
    /// this type.
    pub fn from_bits(bits: u32) -> (flags: Option<Self>)
        ensures
            flags is Some <==> only_bits_of(bits, Self::ALL),
            flags matches Some(set) ==> set@ == bits,
    {
        proof {
            lemma_mask(bits, Self::ALL);
        }
        if bits & Self::ALL == bits {
            Some(AxisFlags { bits: bits & Self::ALL })
        } else {
            None
        }
    }

    /// The set with the bits of `bits` that this type names.
    pub fn from_bits_truncate(bits: u32) -> (flags: Self)
        ensures
            flags@ == bits & Self::ALL,
    {
        proof {
            lemma_mask(bits, Self::ALL);
        }
        AxisFlags { bits: bits & Self::ALL }
    }

    /// The bits of the set.
    pub fn bits(&self) -> (bits: u32)
        ensures
            bits == self@,
            only_bits_of(bits, Self::ALL),
            bits <= Self::ALL,
    {
        proof {
            use_type_invariant(self);
            lemma_known_is_bounded(self.bits, Self::ALL);
        }
        self.bits
    }

    /// The bits of the set as the signed integer that the backend takes.
    pub fn to_i32(&self) -> (number: i32)
        ensures
            number == self@,
    {
        proof {
            use_type_invariant(self);
            lemma_known_is_bounded(self.bits, Self::ALL);
        }
        self.bits as i32
    }

    /// Whether no option is set.
    pub fn is_empty(&self) -> (none: bool)
        ensures
            none == (self@ == 0),
    {
        self.bits == 0
    }

    /// Whether every option of `other` is set in this set.
    pub fn contains(&self, other: Self) -> (held: bool)
        ensures
            held == holds_all(self@, other@),
    {
        self.bits & other.bits == other.bits
    }

    /// The set of the options that are in this set or in `other`.
    pub fn union(self, other: Self) -> (flags: Self)
        ensures
            flags@ == self@ | other@,
            holds_all(flags@, self@),
            holds_all(flags@, other@),
    {
        proof {
            use_type_invariant(self);
            use_type_invariant(other);
            lemma_union_stays_known(self.bits, other.bits, Self::ALL);
            lemma_union_is_least_upper_bound(self.bits, other.bits, 0);
        }
        AxisFlags { bits: self.bits | other.bits }
    }
}

/// Options of a line series.
#[derive(Clone, Copy, Debug, PartialEq, Eq, Hash, Structural)]
pub struct LineFlags {
    bits: u32,
}

impl View for LineFlags {
    type V = u32;

    closed spec fn view(&self) -> u32 {
        self.bits
    }
}

impl LineFlags {
    /// No option set.
    pub const NONE: u32 = 0x0;

    /// Every two points in turn are joined by a segment of their own.
    pub const SEGMENTS: u32 = 0x400;

    /// The last point is joined to the first.
    pub const LOOP: u32 = 0x800;

    /// Points that are not numbers are skipped, not shown as gaps.
    pub const SKIP_NAN: u32 = 0x1000;

    /// Markers on the edge of the plot are not clipped.
    pub const NO_CLIP: u32 = 0x2000;

    /// The area between the line and the horizontal origin is filled.
    pub const SHADED: u32 = 0x4000;

    /// Every bit that this type names.
    pub const ALL: u32 = 0x7c00;

    #[verifier::type_invariant]
    spec fn known_bits_only(self) -> bool {
        only_bits_of(self.bits, Self::ALL)
    }

    /// The set without any option.
    pub fn empty() -> (flags: Self)
        ensures
            flags@ == 0,
    {
        proof {
            lemma_mask(0, Self::ALL);
        }
        LineFlags { bits: 0 }
    }

    /// The set of every option.
    pub fn all() -> (flags: Self)
        ensures
            flags@ == Self::ALL,
    {
        proof {
            lemma_mask(0, Self::ALL);
        }
        LineFlags { bits: Self::ALL }
    }

    /// The set with exactly the bits of `bits`, where they are all named by
    /// this type.
    pub fn from_bits(bits: u32) -> (flags: Option<Self>)
        ensures
            flags is Some <==> only_bits_of(bits, Self::ALL),
            flags matches Some(set) ==> set@ == bits,
    {
        proof {
            lemma_mask(bits, Self::ALL);
        }
        if bits & Self::ALL == bits {
            Some(LineFlags { bits: bits & Self::ALL })
        } else {
            None
        }
    }

    /// The set with the bits of `bits` that this type names.
    pub fn from_bits_truncate(bits: u32) -> (flags: Self)
        ensures
            flags@ == bits & Self::ALL,
    {
        proof {
            lemma_mask(bits, Self::ALL);
        }
        LineFlags { bits: bits & Self::ALL }
    }

    /// The bits of the set.
    pub fn bits(&self) -> (bits: u32)
        ensures
            bits == self@,
            only_bits_of(bits, Self::ALL),
            bits <= Self::ALL,
    {
        proof {
            use_type_invariant(self);
            lemma_known_is_bounded(self.bits, Self::ALL);
        }
        self.bits
    }

    /// The bits of the set as the signed integer that the backend takes.
    pub fn to_i32(&self) -> (number: i32)
        ensures
            number == self@,
    {
        proof {
            use_type_invariant(self);
            lemma_known_is_bounded(self.bits, Self::ALL);
        }
        self.bits as i32
    }

    /// Whether no option is set.
    pub fn is_empty(&self) -> (none: bool)
        ensures
            none == (self@ == 0),
    {
        self.bits == 0
    }

    /// Whether every option of `other` is set in this set.
    pub fn contains(&self, other: Self) -> (held: bool)
        ensures
            held == holds_all(self@, other@),
    {
        self.bits & other.bits == other.bits
    }

    /// The set of the options that are in this set or in `other`.
    pub fn union(self, other: Self) -> (flags: Self)
        ensures
            flags@ == self@ | other@,
            holds_all(flags@, self@),
            holds_all(flags@, other@),
    {
        proof {
            use_type_invariant(self);
            use_type_invariant(other);
            lemma_union_stays_known(self.bits, other.bits, Self::ALL);
            lemma_union_is_least_upper_bound(self.bits, other.bits, 0);
        }
        LineFlags { bits: self.bits | other.bits }
    }
}

/// Options of a stairs series.
#[derive(Clone, Copy, Debug, PartialEq, Eq, Hash, Structural)]
pub struct StairsFlags {
    bits: u32,
}

impl View for StairsFlags {
    type V = u32;

    closed spec fn view(&self) -> u32 {
        self.bits
    }
}

impl StairsFlags {
    /// No option set.
    pub const NONE: u32 = 0x0;

    /// Each value holds to the left of its point, not to the right.
    pub const PRE_STEP: u32 = 0x400;

    /// The area between the stairs and the horizontal origin is filled.
    pub const SHADED: u32 = 0x800;

    /// Every bit that this type names.
    pub const ALL: u32 = 0xc00;

    #[verifier::type_invariant]
    spec fn known_bits_only(self) -> bool {
        only_bits_of(self.bits, Self::ALL)
    }

    /// The set without any option.
    pub fn empty() -> (flags: Self)
        ensures
            flags@ == 0,
    {
        proof {
            lemma_mask(0, Self::ALL);
        }
        StairsFlags { bits: 0 }
    }

    /// The set of every option.
    pub fn all() -> (flags: Self)
        ensures
            flags@ == Self::ALL,
    {
        proof {
            lemma_mask(0, Self::ALL);
        }
        StairsFlags { bits: Self::ALL }
    }

    /// The set with exactly the bits of `bits`, where they are all named by
    /// this type.
    pub fn from_bits(bits: u32) -> (flags: Option<Self>)
        ensures
            flags is Some <==> only_bits_of(bits, Self::ALL),
            flags matches Some(set) ==> set@ == bits,
    {
        proof {
            lemma_mask(bits, Self::ALL);
        }
        if bits & Self::ALL == bits {
            Some(StairsFlags { bits: bits & Self::ALL })
        } else {
            None
        }
    }

    /// The set with the bits of `bits` that this type names.
    pub fn from_bits_truncate(bits: u32) -> (flags: Self)
        ensures
            flags@ == bits & Self::ALL,
    {
        proof {
            lemma_mask(bits, Self::ALL);
        }
        StairsFlags { bits: bits & Self::ALL }
    }

    /// The bits of the set.
    pub fn bits(&self) -> (bits: u32)
        ensures
            bits == self@,
            only_bits_of(bits, Self::ALL),
            bits <= Self::ALL,
    {
        proof {
            use_type_invariant(self);
            lemma_known_is_bounded(self.bits, Self::ALL);
        }
        self.bits
    }

    /// The bits of the set as the signed integer that the backend takes.
    pub fn to_i32(&self) -> (number: i32)
        ensures
            number == self@,
    {
        proof {
            use_type_invariant(self);
            lemma_known_is_bounded(self.bits, Self::ALL);
        }
        self.bits as i32
    }

    /// Whether no option is set.
    pub fn is_empty(&self) -> (none: bool)
        ensures
            none == (self@ == 0),
    {
        self.bits == 0
    }

    /// Whether every option of `other` is set in this set.
    pub fn contains(&self, other: Self) -> (held: bool)
        ensures
            held == holds_all(self@, other@),
    {
        self.bits & other.bits == other.bits
    }

    /// The set of the options that are in this set or in `other`.
    pub fn union(self, other: Self) -> (flags: Self)
        ensures
            flags@ == self@ | other@,
            holds_all(flags@, self@),
            holds_all(flags@, other@),
    {
        proof {
            use_type_invariant(self);
            use_type_invariant(other);
            lemma_union_stays_known(self.bits, other.bits, Self::ALL);
            lemma_union_is_least_upper_bound(self.bits, other.bits, 0);
        }
        StairsFlags { bits: self.bits | other.bits }
    }
}

/// Options of a scatter series.
#[derive(Clone, Copy, Debug, PartialEq, Eq, Hash, Structural)]
pub struct ScatterFlags {
    bits: u32,
}

impl View for ScatterFlags {
    type V = u32;

    closed spec fn view(&self) -> u32 {
        self.bits
    }
}

impl ScatterFlags {
    /// No option set.
    pub const NONE: u32 = 0x0;

    /// Markers on the edge of the plot are not clipped.
    pub const NO_CLIP: u32 = 0x400;

    /// Every bit that this type names.
    pub const ALL: u32 = 0x400;

    #[verifier::type_invariant]
    spec fn known_bits_only(self) -> bool {
        only_bits_of(self.bits, Self::ALL)
    }

    /// The set without any option.
    pub fn empty() -> (flags: Self)
        ensures
            flags@ == 0,
    {
        proof {
            lemma_mask(0, Self::ALL);
        }
        ScatterFlags { bits: 0 }
    }

    /// The set of every option.
    pub fn all() -> (flags: Self)
        ensures
            flags@ == Self::ALL,
    {
        proof {
            lemma_mask(0, Self::ALL);
        }
        ScatterFlags { bits: Self::ALL }
    }

    /// The set with exactly the bits of `bits`, where they are all named by
    /// this type.
    pub fn from_bits(bits: u32) -> (flags: Option<Self>)
        ensures
            flags is Some <==> only_bits_of(bits, Self::ALL),
            flags matches Some(set) ==> set@ == bits,
    {
        proof {
            lemma_mask(bits, Self::ALL);
        }
        if bits & Self::ALL == bits {
            Some(ScatterFlags { bits: bits & Self::ALL })
        } else {
            None
        }
    }

    /// The set with the bits of `bits` that this type names.
    pub fn from_bits_truncate(bits: u32) -> (flags: Self)
        ensures
            flags@ == bits & Self::ALL,
    {
        proof {
            lemma_mask(bits, Self::ALL);
        }
        ScatterFlags { bits: bits & Self::ALL }
    }

    /// The bits of the set.
    pub fn bits(&self) -> (bits: u32)
        ensures
            bits == self@,
            only_bits_of(bits, Self::ALL),
            bits <= Self::ALL,
    {
        proof {
            use_type_invariant(self);
            lemma_known_is_bounded(self.bits, Self::ALL);
        }
        self.bits
    }

    /// The bits of the set as the signed integer that the backend takes.
    pub fn to_i32(&self) -> (number: i32)
        ensures
            number == self@,
    {
        proof {
            use_type_invariant(self);
            lemma_known_is_bounded(self.bits, Self::ALL);
        }
        self.bits as i32
    }

    /// Whether no option is set.
    pub fn is_empty(&self) -> (none: bool)
        ensures
            none == (self@ == 0),
    {
        self.bits == 0
    }

    /// Whether every option of `other` is set in this set.
    pub fn contains(&self, other: Self) -> (held: bool)
        ensures
            held == holds_all(self@, other@),
    {
        self.bits & other.bits == other.bits
    }

    /// The set of the options that are in this set or in `other`.
    pub fn union(self, other: Self) -> (flags: Self)
        ensures
            flags@ == self@ | other@,
            holds_all(flags@, self@),
            holds_all(flags@, other@),
    {
        proof {
            use_type_invariant(self);
            use_type_invariant(other);
            lemma_union_stays_known(self.bits, other.bits, Self::ALL);
            lemma_union_is_least_upper_bound(self.bits, other.bits, 0);
        }
        ScatterFlags { bits: self.bits | other.bits }
    }
}

/// Options of a bar series.
#[derive(Clone, Copy, Debug, PartialEq, Eq, Hash, Structural)]
pub struct BarsFlags {
    bits: u32,
}

impl View for BarsFlags {
    type V = u32;

    closed spec fn view(&self) -> u32 {
        self.bits
    }
}

impl BarsFlags {
    /// No option set.
    pub const NONE: u32 = 0x0;

    /// Bars lie along the horizontal axis.
    pub const HORIZONTAL: u32 = 0x400;

    /// Every bit that this type names.
    pub const ALL: u32 = 0x400;

    #[verifier::type_invariant]
    spec fn known_bits_only(self) -> bool {
        only_bits_of(self.bits, Self::ALL)
    }

    /// The set without any option.
    pub fn empty() -> (flags: Self)
        ensures
            flags@ == 0,
    {
        proof {
            lemma_mask(0, Self::ALL);
        }
        BarsFlags { bits: 0 }
    }

    /// The set of every option.
    pub fn all() -> (flags: Self)
        ensures
            flags@ == Self::ALL,
    {
        proof {
            lemma_mask(0, Self::ALL);
        }
        BarsFlags { bits: Self::ALL }
    }

    /// The set with exactly the bits of `bits`, where they are all named by
    /// this type.
    pub fn from_bits(bits: u32) -> (flags: Option<Self>)
        ensures
            flags is Some <==> only_bits_of(bits, Self::ALL),
            flags matches Some(set) ==> set@ == bits,
    {
        proof {
            lemma_mask(bits, Self::ALL);
        }
        if bits & Self::ALL == bits {
            Some(BarsFlags { bits: bits & Self::ALL })
        } else {
            None
        }
    }

    /// The set with the bits of `bits` that this type names.
    pub fn from_bits_truncate(bits: u32) -> (flags: Self)
        ensures
            flags@ == bits & Self::ALL,
    {
        proof {
            lemma_mask(bits, Self::ALL);
        }
        BarsFlags { bits: bits & Self::ALL }
    }

    /// The bits of the set.
    pub fn bits(&self) -> (bits: u32)
        ensures
            bits == self@,
            only_bits_of(bits, Self::ALL),
            bits <= Self::ALL,
    {
        proof {
            use_type_invariant(self);
            lemma_known_is_bounded(self.bits, Self::ALL);
        }
        self.bits
    }

    /// The bits of the set as the signed integer that the backend takes.
    pub fn to_i32(&self) -> (number: i32)
        ensures
            number == self@,
    {
        proof {
            use_type_invariant(self);
            lemma_known_is_bounded(self.bits, Self::ALL);
        }
        self.bits as i32
    }

    /// Whether no option is set.
    pub fn is_empty(&self) -> (none: bool)
        ensures
            none == (self@ == 0),
    {
        self.bits == 0
    }

    /// Whether every option of `other` is set in this set.
    pub fn contains(&self, other: Self) -> (held: bool)
        ensures
            held == holds_all(self@, other@),
    {
        self.bits & other.bits == other.bits
    }

    /// The set of the options that are in this set or in `other`.
    pub fn union(self, other: Self) -> (flags: Self)
        ensures
            flags@ == self@ | other@,
            holds_all(flags@, self@),
            holds_all(flags@, other@),
    {
        proof {
            use_type_invariant(self);
            use_type_invariant(other);
            lemma_union_stays_known(self.bits, other.bits, Self::ALL);
            lemma_union_is_least_upper_bound(self.bits, other.bits, 0);
        }
        BarsFlags { bits: self.bits | other.bits }
    }
}

/// Options of a text inside a plot.
#[derive(Clone, Copy, Debug, PartialEq, Eq, Hash, Structural)]
pub struct TextFlags {
    bits: u32,
}

impl View for TextFlags {
    type V = u32;

    closed spec fn view(&self) -> u32 {
        self.bits
    }
}

impl TextFlags {
    /// No option set.
    pub const NONE: u32 = 0x0;

    /// The text is written from bottom to top.
    pub const VERTICAL: u32 = 0x400;

    /// Every bit that this type names.
    pub const ALL: u32 = 0x400;

    #[verifier::type_invariant]
    spec fn known_bits_only(self) -> bool {
        only_bits_of(self.bits, Self::ALL)
    }

    /// The set without any option.
    pub fn empty() -> (flags: Self)
        ensures
            flags@ == 0,
    {
        proof {
            lemma_mask(0, Self::ALL);
        }
        TextFlags { bits: 0 }
    }

    /// The set of every option.
    pub fn all() -> (flags: Self)
        ensures
            flags@ == Self::ALL,
    {
        proof {
            lemma_mask(0, Self::ALL);
        }
        TextFlags { bits: Self::ALL }
    }

    /// The set with exactly the bits of `bits`, where they are all named by
    /// this type.
    pub fn from_bits(bits: u32) -> (flags: Option<Self>)
        ensures
            flags is Some <==> only_bits_of(bits, Self::ALL),
            flags matches Some(set) ==> set@ == bits,
    {
        proof {
            lemma_mask(bits, Self::ALL);
        }
        if bits & Self::ALL == bits {
            Some(TextFlags { bits: bits & Self::ALL })
        } else {
            None
        }
    }

    /// The set with the bits of `bits` that this type names.
    pub fn from_bits_truncate(bits: u32) -> (flags: Self)
        ensures
            flags@ == bits & Self::ALL,
    {
        proof {
            lemma_mask(bits, Self::ALL);
        }
        TextFlags { bits: bits & Self::ALL }
    }

    /// The bits of the set.
    pub fn bits(&self) -> (bits: u32)
        ensures
            bits == self@,
            only_bits_of(bits, Self::ALL),
            bits <= Self::ALL,
    {
        proof {
            use_type_invariant(self);
            lemma_known_is_bounded(self.bits, Self::ALL);
        }
        self.bits
    }

    /// The bits of the set as the signed integer that the backend takes.
    pub fn to_i32(&self) -> (number: i32)
        ensures
            number == self@,
    {
        proof {
            use_type_invariant(self);
            lemma_known_is_bounded(self.bits, Self::ALL);
        }
        self.bits as i32
    }

    /// Whether no option is set.
    pub fn is_empty(&self) -> (none: bool)
        ensures
            none == (self@ == 0),
    {
        self.bits == 0
    }

    /// Whether every option of `other` is set in this set.
    pub fn contains(&self, other: Self) -> (held: bool)
        ensures
            held == holds_all(self@, other@),
    {
        self.bits & other.bits == other.bits
    }

    /// The set of the options that are in this set or in `other`.
    pub fn union(self, other: Self) -> (flags: Self)
        ensures
            flags@ == self@ | other@,
            holds_all(flags@, self@),
            holds_all(flags@, other@),
    {
        proof {
            use_type_invariant(self);
            use_type_invariant(other);
            lemma_union_stays_known(self.bits, other.bits, Self::ALL);
            lemma_union_is_least_upper_bound(self.bits, other.bits, 0);
        }
        TextFlags { bits: self.bits | other.bits }
    }
}

/// Options of a heatmap.
#[derive(Clone, Copy, Debug, PartialEq, Eq, Hash, Structural)]
pub struct HeatmapFlags {
    bits: u32,
}

impl View for HeatmapFlags {
    type V = u32;

    closed spec fn view(&self) -> u32 {
        self.bits
    }
}

impl HeatmapFlags {
    /// No option set.
    pub const NONE: u32 = 0x0;

    /// The values are read column by column.
    pub const COL_MAJOR: u32 = 0x400;

    /// Every bit that this type names.
    pub const ALL: u32 = 0x400;

    #[verifier::type_invariant]
    spec fn known_bits_only(self) -> bool {
        only_bits_of(self.bits, Self::ALL)
    }

    /// The set without any option.
    pub fn empty() -> (flags: Self)
        ensures
            flags@ == 0,
    {
        proof {
            lemma_mask(0, Self::ALL);
        }
        HeatmapFlags { bits: 0 }
    }

    /// The set of every option.
    pub fn all() -> (flags: Self)
        ensures
            flags@ == Self::ALL,
    {
        proof {
            lemma_mask(0, Self::ALL);
        }
        HeatmapFlags { bits: Self::ALL }
    }

    /// The set with exactly the bits of `bits`, where they are all named by
    /// this type.
    pub fn from_bits(bits: u32) -> (flags: Option<Self>)
        ensures
            flags is Some <==> only_bits_of(bits, Self::ALL),
            flags matches Some(set) ==> set@ == bits,
    {
        proof {
            lemma_mask(bits, Self::ALL);
        }
        if bits & Self::ALL == bits {
            Some(HeatmapFlags { bits: bits & Self::ALL })
        } else {
            None
        }
    }

    /// The set with the bits of `bits` that this type names.
    pub fn from_bits_truncate(bits: u32) -> (flags: Self)
        ensures
            flags@ == bits & Self::ALL,
    {
        proof {
            lemma_mask(bits, Self::ALL);
        }
        HeatmapFlags { bits: bits & Self::ALL }
    }

    /// The bits of the set.
    pub fn bits(&self) -> (bits: u32)
        ensures
            bits == self@,
            only_bits_of(bits, Self::ALL),
            bits <= Self::ALL,
    {
        proof {
            use_type_invariant(self);
            lemma_known_is_bounded(self.bits, Self::ALL);
        }
        self.bits
    }

    /// The bits of the set as the signed integer that the backend takes.
    pub fn to_i32(&self) -> (number: i32)
        ensures
            number == self@,
    {
        proof {
            use_type_invariant(self);
            lemma_known_is_bounded(self.bits, Self::ALL);
        }
        self.bits as i32
    }

    /// Whether no option is set.
    pub fn is_empty(&self) -> (none: bool)
        ensures
            none == (self@ == 0),
    {
        self.bits == 0
    }

    /// Whether every option of `other` is set in this set.
    pub fn contains(&self, other: Self) -> (held: bool)
        ensures
            held == holds_all(self@, other@),
    {
        self.bits & other.bits == other.bits
    }

    /// The set of the options that are in this set or in `other`.
    pub fn union(self, other: Self) -> (flags: Self)
        ensures
            flags@ == self@ | other@,
            holds_all(flags@, self@),
            holds_all(flags@, other@),
    {
        proof {
            use_type_invariant(self);
            use_type_invariant(other);
            lemma_union_stays_known(self.bits, other.bits, Self::ALL);
            lemma_union_is_least_upper_bound(self.bits, other.bits, 0);
        }
        HeatmapFlags { bits: self.bits | other.bits }
    }
}

/// Options of a stem series.
#[derive(Clone, Copy, Debug, PartialEq, Eq, Hash, Structural)]
pub struct StemsFlags {
    bits: u32,
}

impl View for StemsFlags {
    type V = u32;

    closed spec fn view(&self) -> u32 {
        self.bits
    }
}

impl StemsFlags {
    /// No option set.
    pub const NONE: u32 = 0x0;

    /// Stems lie along the horizontal axis.
    pub const HORIZONTAL: u32 = 0x400;

    /// Every bit that this type names.
    pub const ALL: u32 = 0x400;

    #[verifier::type_invariant]
    spec fn known_bits_only(self) -> bool {
        only_bits_of(self.bits, Self::ALL)
    }

    /// The set without any option.
    pub fn empty() -> (flags: Self)
        ensures
            flags@ == 0,
    {
        proof {
            lemma_mask(0, Self::ALL);
        }
        StemsFlags { bits: 0 }
    }

    /// The set of every option.
    pub fn all() -> (flags: Self)
        ensures
            flags@ == Self::ALL,
    {
        proof {
            lemma_mask(0, Self::ALL);
        }
        StemsFlags { bits: Self::ALL }
    }

    /// The set with exactly the bits of `bits`, where they are all named by
    /// this type.
    pub fn from_bits(bits: u32) -> (flags: Option<Self>)
        ensures
            flags is Some <==> only_bits_of(bits, Self::ALL),
            flags matches Some(set) ==> set@ == bits,
    {
        proof {
            lemma_mask(bits, Self::ALL);
        }
        if bits & Self::ALL == bits {
            Some(StemsFlags { bits: bits & Self::ALL })
        } else {
            None
        }
    }

    /// The set with the bits of `bits` that this type names.
    pub fn from_bits_truncate(bits: u32) -> (flags: Self)
        ensures
            flags@ == bits & Self::ALL,
    {
        proof {
            lemma_mask(bits, Self::ALL);
        }
        StemsFlags { bits: bits & Self::ALL }
    }

    /// The bits of the set.
    pub fn bits(&self) -> (bits: u32)
        ensures
            bits == self@,
            only_bits_of(bits, Self::ALL),
            bits <= Self::ALL,
    {
        proof {
            use_type_invariant(self);
            lemma_known_is_bounded(self.bits, Self::ALL);
        }
        self.bits
    }

    /// The bits of the set as the signed integer that the backend takes.
    pub fn to_i32(&self) -> (number: i32)
        ensures
            number == self@,
    {
        proof {
            use_type_invariant(self);
            lemma_known_is_bounded(self.bits, Self::ALL);
        }
        self.bits as i32
    }

    /// Whether no option is set.
    pub fn is_empty(&self) -> (none: bool)
        ensures
            none == (self@ == 0),
    {
        self.bits == 0
    }

    /// Whether every option of `other` is set in this set.
    pub fn contains(&self, other: Self) -> (held: bool)
        ensures
            held == holds_all(self@, other@),
    {
        self.bits & other.bits == other.bits
    }

    /// The set of the options that are in this set or in `other`.
    pub fn union(self, other: Self) -> (flags: Self)
        ensures
            flags@ == self@ | other@,
            holds_all(flags@, self@),
            holds_all(flags@, other@),
    {
        proof {
            use_type_invariant(self);
            use_type_invariant(other);
            lemma_union_stays_known(self.bits, other.bits, Self::ALL);
            lemma_union_is_least_upper_bound(self.bits, other.bits, 0);
        }
        StemsFlags { bits: self.bits | other.bits }
    }
}

/// Options of the legend.
#[derive(Clone, Copy, Debug, PartialEq, Eq, Hash, Structural)]
pub struct LegendFlags {
    bits: u32,
}

impl View for LegendFlags {
    type V = u32;

    closed spec fn view(&self) -> u32 {
        self.bits
    }
}

impl LegendFlags {
    /// No option set.
    pub const NONE: u32 = 0x0;

    /// Legend icons do not hide and show their series.
    pub const NO_BUTTONS: u32 = 0x1;

    /// A series is not highlighted while its entry is under the pointer.
    pub const NO_HIGHLIGHT_ITEM: u32 = 0x2;

    /// An axis is not highlighted while an entry is under the pointer.
    pub const NO_HIGHLIGHT_AXIS: u32 = 0x4;

    /// No context menu opens on the legend.
    pub const NO_MENUS: u32 = 0x8;

    /// The legend is drawn outside the plot area.
    pub const OUTSIDE: u32 = 0x10;

    /// The entries are laid out in a row.
    pub const HORIZONTAL: u32 = 0x20;

    /// The entries are shown in alphabetical order.
    pub const SORT: u32 = 0x40;

    /// Every bit that this type names.
    pub const ALL: u32 = 0x7f;

    #[verifier::type_invariant]
    spec fn known_bits_only(self) -> bool {
        only_bits_of(self.bits, Self::ALL)
    }

    /// The set without any option.
    pub fn empty() -> (flags: Self)
        ensures
            flags@ == 0,
    {
        proof {
            lemma_mask(0, Self::ALL);
        }
        LegendFlags { bits: 0 }
    }

    /// The set of every option.
    pub fn all() -> (flags: Self)
        ensures
            flags@ == Self::ALL,
    {
        proof {
            lemma_mask(0, Self::ALL);
        }
        LegendFlags { bits: Self::ALL }
    }

    /// The set with exactly the bits of `bits`, where they are all named by
    /// this type.
    pub fn from_bits(bits: u32) -> (flags: Option<Self>)
        ensures
            flags is Some <==> only_bits_of(bits, Self::ALL),
            flags matches Some(set) ==> set@ == bits,
    {
        proof {
            lemma_mask(bits, Self::ALL);
        }
        if bits & Self::ALL == bits {
            Some(LegendFlags { bits: bits & Self::ALL })
        } else {
            None
        }
    }

    /// The set with the bits of `bits` that this type names.
    pub fn from_bits_truncate(bits: u32) -> (flags: Self)
        ensures
            flags@ == bits & Self::ALL,
    {
        proof {
            lemma_mask(bits, Self::ALL);
        }
        LegendFlags { bits: bits & Self::ALL }
    }

    /// The bits of the set.
    pub fn bits(&self) -> (bits: u32)
        ensures
            bits == self@,
            only_bits_of(bits, Self::ALL),
            bits <= Self::ALL,
    {
        proof {
            use_type_invariant(self);
            lemma_known_is_bounded(self.bits, Self::ALL);
        }
        self.bits
    }

    /// The bits of the set as the signed integer that the backend takes.
    pub fn to_i32(&self) -> (number: i32)
        ensures
            number == self@,
    {
        proof {
            use_type_invariant(self);
            lemma_known_is_bounded(self.bits, Self::ALL);
        }
        self.bits as i32
    }

    /// Whether no option is set.
    pub fn is_empty(&self) -> (none: bool)
        ensures
            none == (self@ == 0),
    {
        self.bits == 0
    }

    /// Whether every option of `other` is set in this set.
    pub fn contains(&self, other: Self) -> (held: bool)
        ensures
            held == holds_all(self@, other@),
    {
        self.bits & other.bits == other.bits
    }

    /// The set of the options that are in this set or in `other`.
    pub fn union(self, other: Self) -> (flags: Self)
        ensures
            flags@ == self@ | other@,
            holds_all(flags@, self@),
            holds_all(flags@, other@),
    {
        proof {
            use_type_invariant(self);
            use_type_invariant(other);
            lemma_union_stays_known(self.bits, other.bits, Self::ALL);
            lemma_union_is_least_upper_bound(self.bits, other.bits, 0);
        }
        LegendFlags { bits: self.bits | other.bits }
    }
}

} // verus!
