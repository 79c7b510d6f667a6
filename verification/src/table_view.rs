//! Table views (`NSTableView`): the native values of style, row size, selection highlight and grid lines.

use vstd::prelude::*;

verus! {

/// Emitted when a table row is selected.
pub struct TableRowSelectEvent {
    /// Zero-based selected row index.
    pub index: usize,
}

/// `NSTableViewStyle`.
#[derive(Clone, Copy, Debug, PartialEq, Eq, Structural)]
pub enum NativeTableStyle {
    /// `NSTableViewStyleAutomatic`.
    Automatic,
    /// `NSTableViewStyleFullWidth`.
    FullWidth,
    /// `NSTableViewStyleInset`.
    Inset,
    /// `NSTableViewStyleSourceList`.
    SourceList,
    /// `NSTableViewStylePlain`.
    Plain,
}

impl Default for NativeTableStyle {
    fn default() -> (s: Self)
        ensures
            s == NativeTableStyle::Automatic,
    {
        NativeTableStyle::Automatic
    }
}

/// The `NSTableViewStyle` value.
pub open spec fn table_style_raw(s: NativeTableStyle) -> i64 {
    match s {
        NativeTableStyle::Automatic => 0,
        NativeTableStyle::FullWidth => 1,
        NativeTableStyle::Inset => 2,
        NativeTableStyle::SourceList => 3,
        NativeTableStyle::Plain => 4,
    }
}

impl NativeTableStyle {
    /// The `NSTableViewStyle` value.
    pub fn to_ns_style(self) -> (r: i64)
        ensures
            r == table_style_raw(self),
    {
        match self {
            NativeTableStyle::Automatic => 0,
            NativeTableStyle::FullWidth => 1,
            NativeTableStyle::Inset => 2,
            NativeTableStyle::SourceList => 3,
            NativeTableStyle::Plain => 4,
        }
    }
}

/// `NSTableViewRowSizeStyle`.
#[derive(Clone, Copy, Debug, PartialEq, Eq, Structural)]
pub enum NativeTableRowSizeStyle {
    /// `NSTableViewRowSizeStyleDefault`.
    Default,
    /// `NSTableViewRowSizeStyleCustom`.
    Custom,
    /// `NSTableViewRowSizeStyleSmall`.
    Small,
    /// `NSTableViewRowSizeStyleMedium`.
    Medium,
    /// `NSTableViewRowSizeStyleLarge`.
    Large,
}

impl Default for NativeTableRowSizeStyle {
    fn default() -> (s: Self)
        ensures
            s == NativeTableRowSizeStyle::Custom,
    {
        NativeTableRowSizeStyle::Custom
    }
}

/// The `NSTableViewRowSizeStyle` value.
pub open spec fn table_row_size_raw(s: NativeTableRowSizeStyle) -> i64 {
    match s {
        NativeTableRowSizeStyle::Default => -1i64,
        NativeTableRowSizeStyle::Custom => 0,
        NativeTableRowSizeStyle::Small => 1,
        NativeTableRowSizeStyle::Medium => 2,
        NativeTableRowSizeStyle::Large => 3,
    }
}

impl NativeTableRowSizeStyle {
    /// The `NSTableViewRowSizeStyle` value.
    pub fn to_ns_style(self) -> (r: i64)
        ensures
            r == table_row_size_raw(self),
    {
        match self {
            NativeTableRowSizeStyle::Default => -1i64,
            NativeTableRowSizeStyle::Custom => 0,
            NativeTableRowSizeStyle::Small => 1,
            NativeTableRowSizeStyle::Medium => 2,
            NativeTableRowSizeStyle::Large => 3,
        }
    }
}

/// `NSTableViewSelectionHighlightStyle`.
#[derive(Clone, Copy, Debug, PartialEq, Eq, Structural)]
pub enum NativeTableSelectionHighlightStyle {
    /// `NSTableViewSelectionHighlightStyleRegular`.
    Regular,
    /// `NSTableViewSelectionHighlightStyleNone`.
    NoHighlight,
}

impl Default for NativeTableSelectionHighlightStyle {
    fn default() -> (s: Self)
        ensures
            s == NativeTableSelectionHighlightStyle::Regular,
    {
        NativeTableSelectionHighlightStyle::Regular
    }
}

/// The `NSTableViewSelectionHighlightStyle` value.
pub open spec fn table_highlight_raw(s: NativeTableSelectionHighlightStyle) -> i64 {
    match s {
        NativeTableSelectionHighlightStyle::Regular => 0,
        NativeTableSelectionHighlightStyle::NoHighlight => -1i64,
    }
}

impl NativeTableSelectionHighlightStyle {
    /// The `NSTableViewSelectionHighlightStyle` value.
    pub fn to_ns_style(self) -> (r: i64)
        ensures
            r == table_highlight_raw(self),
    {
        match self {
            NativeTableSelectionHighlightStyle::Regular => 0,
            NativeTableSelectionHighlightStyle::NoHighlight => -1i64,
        }
    }
}

/// An `NSTableViewGridLineStyle` bit mask.
#[derive(Clone, Copy, Debug, PartialEq, Eq, Structural)]
pub struct NativeTableGridMask(u64);

impl View for NativeTableGridMask {
    type V = u64;

    closed spec fn view(&self) -> u64 {
        self.0
    }
}

impl NativeTableGridMask {
    /// `NSTableViewGridNone`.
    pub fn none() -> (m: Self)
        ensures
            m@ == 0,
    {
        NativeTableGridMask(0)
    }

    /// `NSTableViewSolidVerticalGridLineMask`.
    pub fn solid_vertical() -> (m: Self)
        ensures
            m@ == 1,
    {
        NativeTableGridMask(1)
    }

    /// `NSTableViewSolidHorizontalGridLineMask`.
    pub fn solid_horizontal() -> (m: Self)
        ensures
            m@ == 2,
    {
        NativeTableGridMask(2)
    }

    /// `NSTableViewDashedHorizontalGridLineMask`.
    pub fn dashed_horizontal() -> (m: Self)
        ensures
            m@ == 8,
    {
        NativeTableGridMask(8)
    }

    /// The mask with the lines of both masks.
    pub fn union(self, other: Self) -> (m: Self)
        ensures
            m@ == self@ | other@,
    {
        NativeTableGridMask(self.0 | other.0)
    }

    /// The raw mask value.
    pub fn bits(self) -> (b: u64)
        ensures
            b == self@,
    {
        self.0
    }
}

impl Default for NativeTableGridMask {
    fn default() -> (m: Self)
        ensures
            m@ == 0,
    {
        NativeTableGridMask(0)
    }
}

/// Combining grid masks is order-independent, repeat-insensitive, has no
/// lines as its neutral element, and keeps every line of both masks.
pub proof fn lemma_grid_mask_union_laws(a: u64, b: u64, c: u64)
    ensures
        a | b == b | a,
        (a | b) | c == a | (b | c),
        a | a == a,
        a | 0 == a,
        (a | b) & a == a,
        (a | b) & b == b,
{
    assert(a | b == b | a) by (bit_vector);
    assert((a | b) | c == a | (b | c)) by (bit_vector);
    assert(a | a == a) by (bit_vector);
    assert(a | 0 == a) by (bit_vector);
    assert((a | b) & a == a) by (bit_vector);
    assert((a | b) & b == b) by (bit_vector);
}

} // verus!
