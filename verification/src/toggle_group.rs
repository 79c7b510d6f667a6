//! Segmented controls (`NSSegmentedControl`): the element builder, the style
//! mappings, and the configuration it hands to the native layer.

use vstd::prelude::*;
use vstd::std_specs::convert::FromSpecImpl;
use crate::element_id::{ElementId, ElementIdView};
use crate::layout::saturate;
use crate::text::{clone_strings, owned_strings, str_views};

verus! {

/// Emitted when a segment is chosen.
pub struct SegmentSelectEvent {
    pub index: usize,
}

/// Border shape of the segments (`NSControlBorderShape`).
#[derive(Clone, Copy, Debug, PartialEq, Eq, Structural)]
pub enum NativeSegmentedShape {
    Automatic,
    Capsule,
    RoundedRectangle,
    Circle,
}

impl Default for NativeSegmentedShape {
    fn default() -> (s: Self)
        ensures
            s == NativeSegmentedShape::Automatic,
    {
        NativeSegmentedShape::Automatic
    }
}

/// The `NSControlBorderShape` value of a shape.
pub open spec fn segmented_shape_raw(s: NativeSegmentedShape) -> i64 {
    match s {
        NativeSegmentedShape::Automatic => 0,
        NativeSegmentedShape::Capsule => 1,
        NativeSegmentedShape::RoundedRectangle => 2,
        NativeSegmentedShape::Circle => 3,
    }
}

impl NativeSegmentedShape {
    /// The `NSControlBorderShape` value.
    pub fn to_raw(self) -> (r: i64)
        ensures
            r == segmented_shape_raw(self),
    {
        match self {
            NativeSegmentedShape::Automatic => 0,
            NativeSegmentedShape::Capsule => 1,
            NativeSegmentedShape::RoundedRectangle => 2,
            NativeSegmentedShape::Circle => 3,
        }
    }
}

/// Segment style, an alternative way of naming the border shape.
#[derive(Clone, Copy, Debug, PartialEq, Eq, Structural)]
pub enum NativeSegmentedStyle {
    Automatic,
    Capsule,
    RoundRect,
    Circle,
}

impl Default for NativeSegmentedStyle {
    fn default() -> (s: Self)
        ensures
            s == NativeSegmentedStyle::Automatic,
    {
        NativeSegmentedStyle::Automatic
    }
}

/// The border shape a segment style names.
pub open spec fn shape_of_style(style: NativeSegmentedStyle) -> NativeSegmentedShape {
    match style {
        NativeSegmentedStyle::Automatic => NativeSegmentedShape::Automatic,
        NativeSegmentedStyle::Capsule => NativeSegmentedShape::Capsule,
        NativeSegmentedStyle::RoundRect => NativeSegmentedShape::RoundedRectangle,
        NativeSegmentedStyle::Circle => NativeSegmentedShape::Circle,
    }
}

impl From<NativeSegmentedStyle> for NativeSegmentedShape {
    fn from(style: NativeSegmentedStyle) -> (s: Self) {
        match style {
            NativeSegmentedStyle::Automatic => NativeSegmentedShape::Automatic,
            NativeSegmentedStyle::Capsule => NativeSegmentedShape::Capsule,
            NativeSegmentedStyle::RoundRect => NativeSegmentedShape::RoundedRectangle,
            NativeSegmentedStyle::Circle => NativeSegmentedShape::Circle,
        }
    }
}

impl FromSpecImpl<NativeSegmentedStyle> for NativeSegmentedShape {
    open spec fn obeys_from_spec() -> bool {
        true
    }

    open spec fn from_spec(style: NativeSegmentedStyle) -> NativeSegmentedShape {
        shape_of_style(style)
    }
}

/// Control size of the segments (`NSControlSize`).
#[derive(Clone, Copy, Debug, PartialEq, Eq, Structural)]
pub enum NativeSegmentedSize {
    Mini,
    Small,
    Regular,
    Large,
    ExtraLarge,
}

impl Default for NativeSegmentedSize {
    fn default() -> (s: Self)
        ensures
            s == NativeSegmentedSize::Regular,
    {
        NativeSegmentedSize::Regular
    }
}

/// The `NSControlSize` value of a size.
pub open spec fn segmented_size_raw(s: NativeSegmentedSize) -> u64 {
    match s {
        NativeSegmentedSize::Mini => 2,
        NativeSegmentedSize::Small => 1,
        NativeSegmentedSize::Regular => 0,
        NativeSegmentedSize::Large => 3,
        NativeSegmentedSize::ExtraLarge => 4,
    }
}

impl NativeSegmentedSize {
    /// The `NSControlSize` value.
    pub fn to_raw(self) -> (r: u64)
        ensures
            r == segmented_size_raw(self),
    {
        match self {
            NativeSegmentedSize::Mini => 2,
            NativeSegmentedSize::Small => 1,
            NativeSegmentedSize::Regular => 0,
            NativeSegmentedSize::Large => 3,
            NativeSegmentedSize::ExtraLarge => 4,
        }
    }
}

/// The segment images: each non-empty symbol name with the index of its segment,
/// in segment order.
pub open spec fn symbol_images(symbols: Seq<Seq<char>>) -> Seq<(usize, Seq<char>)>
    decreases symbols.len(),
{
    if symbols.len() == 0 {
        seq![]
    } else {
        let rest = symbol_images(symbols.drop_last());
        if symbols.last().len() > 0 {
            rest.push(((symbols.len() - 1) as usize, symbols.last()))
        } else {
            rest
        }
    }
}

/// The value of a list of (segment, symbol) pairs.
pub open spec fn image_pairs_view(pairs: Seq<(usize, String)>) -> Seq<(usize, Seq<char>)> {
    pairs.map_values(|p: (usize, String)| (p.0, p.1@))
}

/// The segment images for an optional list of symbol names (none without one).
pub fn symbol_image_pairs(symbols: &Option<Vec<String>>) -> (pairs: Vec<(usize, String)>)
    ensures
        image_pairs_view(pairs@) == (match symbols {
            Some(s) => symbol_images(s.deep_view()),
            None => Seq::empty(),
        }),
{
    let mut pairs: Vec<(usize, String)> = Vec::new();
    match symbols {
        Some(syms) => {
            let mut i: usize = 0;
            while i < syms.len()
                invariant
                    i <= syms@.len(),
                    image_pairs_view(pairs@) =~= symbol_images(syms.deep_view().take(i as int)),
                decreases syms@.len() - i,
            {
                let ghost before = syms.deep_view().take(i as int);
                let ghost after = syms.deep_view().take(i as int + 1);
                assert(after.drop_last() =~= before);
                assert(after.last() == syms@[i as int]@);
                if !syms[i].as_str().is_empty() {
                    pairs.push((i, syms[i].clone()));
                }
                i = i + 1;
            }
            assert(syms.deep_view().take(syms@.len() as int) =~= syms.deep_view());
        },
        None => {},
    }
    assert(image_pairs_view(pairs@) =~= match symbols {
        Some(s) => symbol_images(s.deep_view()),
        None => Seq::empty(),
    });
    pairs
}

/// Every segment with a non-empty symbol gets its image: the pair of its index
/// and its symbol is among the images (for any list that fits in memory).
pub proof fn lemma_symbol_images_complete(symbols: Seq<Seq<char>>)
    requires
        symbols.len() <= usize::MAX,
    ensures
        forall|i: int|
            0 <= i < symbols.len() && #[trigger] symbols[i].len() > 0 ==> symbol_images(
                symbols,
            ).contains((i as usize, symbols[i])),
    decreases symbols.len(),
{
    if symbols.len() > 0 {
        let rest = symbols.drop_last();
        lemma_symbol_images_complete(rest);
        let r = symbol_images(rest);
        let full = symbol_images(symbols);
        assert forall|i: int| 0 <= i < symbols.len() && #[trigger] symbols[i].len() > 0 implies full.contains(
            (i as usize, symbols[i]),
        ) by {
            if i < symbols.len() - 1 {
                assert(rest[i] == symbols[i]);
                assert(r.contains((i as usize, rest[i])));
                let k = choose|k: int| 0 <= k < r.len() && r[k] == (i as usize, rest[i]);
                if symbols.last().len() > 0 {
                    assert(full == r.push(((symbols.len() - 1) as usize, symbols.last())));
                    assert(full[k] == r[k]);
                } else {
                    assert(full == r);
                }
            } else {
                assert(symbols.last() == symbols[i]);
                assert(full == r.push(((symbols.len() - 1) as usize, symbols.last())));
                assert(full[r.len() as int] == (i as usize, symbols[i]));
            }
        }
    }
}

/// Every segment image names a non-empty symbol at its own index, in strictly
/// increasing segment order (for any list that fits in memory).
pub proof fn lemma_symbol_images_well_formed(symbols: Seq<Seq<char>>)
    requires
        symbols.len() <= usize::MAX,
    ensures
        forall|k: int|
            0 <= k < symbol_images(symbols).len() ==> {
                let p = #[trigger] symbol_images(symbols)[k];
                &&& (p.0 as int) < symbols.len()
                &&& p.1 == symbols[p.0 as int]
                &&& p.1.len() > 0
            },
        forall|j: int, k: int|
            0 <= j < k < symbol_images(symbols).len() ==> symbol_images(symbols)[j].0
                < symbol_images(symbols)[k].0,
    decreases symbols.len(),
{
    if symbols.len() > 0 {
        let rest = symbols.drop_last();
        let r = symbol_images(rest);
        let full = symbol_images(symbols);
        lemma_symbol_images_well_formed(rest);
        assert forall|k: int| 0 <= k < r.len() implies {
            let p = #[trigger] r[k];
            (p.0 as int) < symbols.len() - 1 && p.1 == symbols[p.0 as int] && p.1.len() > 0
        } by {
            let p = r[k];
            assert(rest[p.0 as int] == symbols[p.0 as int]);
        }
        assert forall|k: int| 0 <= k < full.len() implies {
            let p = #[trigger] full[k];
            &&& (p.0 as int) < symbols.len()
            &&& p.1 == symbols[p.0 as int]
            &&& p.1.len() > 0
        } by {
            if k < r.len() {
                assert(full[k] == r[k]);
            }
        }
        assert forall|j: int, k: int| 0 <= j < k < full.len() implies full[j].0 < full[k].0 by {
            if k < r.len() {
                assert(full[j] == r[j]);
                assert(full[k] == r[k]);
            } else {
                assert(full[j] == r[j]);
                assert(r[j].0 < symbols.len() - 1);
            }
        }
    }
}

/// Width of the control sized to its segments: 36 pixels per segment with
/// symbols, 70 without, and never below 72.
pub open spec fn segments_width(segments: nat, has_symbols: bool) -> u64 {
    let per = if has_symbols { 36nat } else { 70nat };
    let w = saturate((segments * per) as int);
    if w >= 72 { w } else { 72 }
}

/// Everything the native layer needs to create or update a segmented control.
pub struct SegmentedControlConfig<L> {
    pub labels: Vec<String>,
    pub selected_index: Option<usize>,
    pub border_shape: i64,
    pub control_size: u64,
    pub images: Vec<(usize, String)>,
    pub enabled: bool,
    pub on_select: Option<L>,
}

/// A native segmented control; `L` is the type of its selection listener.
pub struct NativeToggleGroup<L> {
    id: ElementId,
    labels: Vec<String>,
    symbols: Option<Vec<String>>,
    selected_index: Option<usize>,
    on_select: Option<L>,
    border_shape: NativeSegmentedShape,
    control_size: NativeSegmentedSize,
}

/// The state of a [`NativeToggleGroup`].
pub struct NativeToggleGroupView<L> {
    pub id: ElementIdView,
    pub labels: Seq<Seq<char>>,
    pub symbols: Option<Seq<Seq<char>>>,
    pub selected_index: Option<usize>,
    pub on_select: Option<L>,
    pub border_shape: NativeSegmentedShape,
    pub control_size: NativeSegmentedSize,
}

/// The value of an optional list of strings.
pub open spec fn opt_strings_view(s: Option<Vec<String>>) -> Option<Seq<Seq<char>>> {
    match s {
        Some(v) => Some(v.deep_view()),
        None => None,
    }
}

impl<L> View for NativeToggleGroup<L> {
    type V = NativeToggleGroupView<L>;

    closed spec fn view(&self) -> NativeToggleGroupView<L> {
        NativeToggleGroupView {
            id: self.id@,
            labels: self.labels.deep_view(),
            symbols: opt_strings_view(self.symbols),
            selected_index: self.selected_index,
            on_select: self.on_select,
            border_shape: self.border_shape,
            control_size: self.control_size,
        }
    }
}

/// Creates a segmented control with one segment per label, no symbols, no
/// selection, automatic shape and regular size.
pub fn native_toggle_group<L>(id: ElementId, labels: &[&str]) -> (g: NativeToggleGroup<L>)
    ensures
        g@ == (NativeToggleGroupView::<L> {
            id: id@,
            labels: str_views(labels@),
            symbols: None,
            selected_index: None,
            on_select: None,
            border_shape: NativeSegmentedShape::Automatic,
            control_size: NativeSegmentedSize::Regular,
        }),
{
    NativeToggleGroup {
        id,
        labels: owned_strings(labels),
        symbols: None,
        selected_index: None,
        on_select: None,
        border_shape: NativeSegmentedShape::Automatic,
        control_size: NativeSegmentedSize::Regular,
    }
}

impl<L> NativeToggleGroup<L> {
    /// Selects a segment.
    pub fn selected_index(self, index: usize) -> (g: Self)
        ensures
            g@ == (NativeToggleGroupView { selected_index: Some(index), ..self@ }),
    {
        let mut g = self;
        g.selected_index = Some(index);
        g
    }

    /// Registers the listener called when a segment is chosen.
    pub fn on_select(self, listener: L) -> (g: Self)
        ensures
            g@ == (NativeToggleGroupView { on_select: Some(listener), ..self@ }),
    {
        let mut g = self;
        g.on_select = Some(listener);
        g
    }

    /// Sets the border shape.
    pub fn border_shape(self, shape: NativeSegmentedShape) -> (g: Self)
        ensures
            g@ == (NativeToggleGroupView { border_shape: shape, ..self@ }),
    {
        let mut g = self;
        g.border_shape = shape;
        g
    }

    /// Sets the border shape by segment style.
    pub fn segment_style(self, style: NativeSegmentedStyle) -> (g: Self)
        ensures
            g@ == (NativeToggleGroupView { border_shape: shape_of_style(style), ..self@ }),
    {
        let mut g = self;
        g.border_shape = NativeSegmentedShape::from(style);
        g
    }

    /// Sets the control size.
    pub fn control_size(self, size: NativeSegmentedSize) -> (g: Self)
        ensures
            g@ == (NativeToggleGroupView { control_size: size, ..self@ }),
    {
        let mut g = self;
        g.control_size = size;
        g
    }

    /// Sets one SF Symbol name per segment; empty names leave a segment without an image.
    pub fn sf_symbols(self, symbols: &[&str]) -> (g: Self)
        ensures
            g@ == (NativeToggleGroupView { symbols: Some(str_views(symbols@)), ..self@ }),
    {
        let mut g = self;
        g.symbols = Some(owned_strings(symbols));
        g
    }

    /// The identifier of the element.
    pub fn id(&self) -> (id: ElementId)
        ensures
            id@ == self@.id,
    {
        self.id.duplicate()
    }

    /// Width and height requested where the style leaves them automatic.
    pub fn intrinsic_size(&self) -> (size: (u64, u64))
        ensures
            size == (segments_width(self@.labels.len(), self@.symbols is Some), 24u64),
    {
        let per: u128 = if self.symbols.is_some() { 36 } else { 70 };
        let wide: u128 = (self.labels.len() as u128) * per;
        let w: u64 = if wide > (u64::MAX as u128) { u64::MAX } else { wide as u64 };
        (if w >= 72 { w } else { 72 }, 24)
    }

    /// The configuration handed to the native layer when painted: always
    /// enabled, with the raw shape and size values and the segment images. The
    /// listener moves into it.
    pub fn take_config(&mut self) -> (c: SegmentedControlConfig<L>)
        ensures
            final(self)@ == (NativeToggleGroupView { on_select: None, ..old(self)@ }),
            c.labels.deep_view() == old(self)@.labels,
            c.selected_index == old(self)@.selected_index,
            c.border_shape == segmented_shape_raw(old(self)@.border_shape),
            c.control_size == segmented_size_raw(old(self)@.control_size),
            image_pairs_view(c.images@) == (match old(self)@.symbols {
                Some(s) => symbol_images(s),
                None => Seq::empty(),
            }),
            c.enabled,
            c.on_select == old(self)@.on_select,
    {
        let on_select = self.on_select.take();
        let images = symbol_image_pairs(&self.symbols);
        SegmentedControlConfig {
            labels: clone_strings(&self.labels),
            selected_index: self.selected_index,
            border_shape: self.border_shape.to_raw(),
            control_size: self.control_size.to_raw(),
            images,
            enabled: true,
            on_select,
        }
    }
}

} // verus!
