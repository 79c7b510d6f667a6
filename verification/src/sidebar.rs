//! Sidebars (a source list beside a detail view): the steps that create or
//! update the native sidebar on each paint, what the native list shows and
//! reports for its rows, and what the detail label reads. The pane widths are
//! held and compared by the platform glue.

use vstd::prelude::*;
use crate::native_index::{clamp_native_row, clamped_native_row, native_index_in};
use crate::paint_plan::{push_if, lemma_fold_push, lemma_fold_push_if, lemma_fold_single};
use crate::text::{clone_strings, strings_eq};

verus! {

/// Emitted when a sidebar item is selected.
pub struct SidebarSelectEvent {
    /// Zero-based selected item index.
    pub index: usize,
    /// Selected item title.
    pub title: String,
}

/// The text the list shows in row `row`: the item's title, or nothing for a
/// row that names no item.
pub fn sidebar_row_title(items: &Vec<String>, row: i64) -> (s: String)
    ensures
        s@ == (if 0 <= row < items@.len() { items@[row as int]@ } else { Seq::empty() }),
{
    match native_index_in(row, items.len()) {
        Some(i) => items[i].clone(),
        None => String::new(),
    }
}

/// The event for a change of the list's selected row: the item's index and
/// title, or none for a row that names no item.
pub fn sidebar_selection(items: &Vec<String>, row: i64) -> (e: Option<SidebarSelectEvent>)
    ensures
        e.is_some() == (0 <= row < items@.len()),
        e matches Some(ev) ==> ev.index == row && ev.title@ == items@[row as int]@,
{
    match native_index_in(row, items.len()) {
        Some(i) => Some(SidebarSelectEvent { index: i, title: items[i].clone() }),
        None => None,
    }
}

/// What the sidebar shows after its rows are reloaded.
pub struct SidebarSelectionSync {
    /// The row to select, or `None` to clear the selection.
    pub selected_row: Option<i64>,
    /// The text of the detail label.
    pub detail: String,
}

/// After a reload of `row_count` rows over `items`: the requested selection,
/// clamped to the rows, with its title in the detail label; a prompt when
/// nothing is requested; a notice when there are no rows.
pub fn sidebar_selection_sync(items: &Vec<String>, row_count: i64, selected_index: Option<usize>) -> (s:
    SidebarSelectionSync)
    requires
        row_count <= items@.len(),
    ensures
        row_count <= 0 ==> s.selected_row is None && s.detail@ == "No items"@,
        row_count > 0 && selected_index is None ==> s.selected_row is None && s.detail@
            == "Select an item"@,
        row_count > 0 && selected_index is Some ==> ({
            let r = clamped_native_row(selected_index->0, row_count);
            &&& s.selected_row == r
            &&& r is Some
            &&& s.detail@ == items@[r->0 as int]@
        }),
{
    if row_count > 0 {
        match selected_index {
            Some(index) => {
                let row = clamp_native_row(index, row_count);
                match row {
                    Some(r) => {
                        let detail = items[r as usize].clone();
                        SidebarSelectionSync { selected_row: Some(r), detail }
                    },
                    None => SidebarSelectionSync { selected_row: None, detail: String::from_str("Select an item") },
                }
            },
            None => SidebarSelectionSync {
                selected_row: None,
                detail: String::from_str("Select an item"),
            },
        }
    } else {
        SidebarSelectionSync { selected_row: None, detail: String::from_str("No items") }
    }
}

/// What the element remembers between paints about the native sidebar it owns.
pub struct SidebarPaintState {
    pub items: Vec<String>,
    pub selected_index: Option<usize>,
    pub collapsed: bool,
}

/// Which of the pane widths differ from those remembered from the previous
/// paint, as the glue compared them.
#[derive(Clone, Copy, Debug, PartialEq, Eq, Structural)]
pub struct SidebarWidthChanges {
    /// The sidebar width.
    pub width: bool,
    /// The minimum or the maximum width.
    pub min_max: bool,
}

/// One operation on the native sidebar, performed in order by the glue.
#[derive(Clone, Copy, Debug, PartialEq, Eq, Structural)]
pub enum SidebarStep {
    /// Create a new native sidebar with the element's widths.
    Create,
    /// Install the element's items, selection, width limits and listener.
    SetItems,
    /// Collapse or expand the sidebar pane; expanding also applies the widths.
    SetCollapsed(bool),
    /// Apply the element's widths.
    SetWidth,
    /// Install the sidebar in the window.
    ConfigureWindow,
    /// Release the list target bound on an earlier paint.
    ReleaseTarget,
}

/// Whether an existing sidebar gets its items reinstalled: when the items or
/// the selection changed, when the element has a listener, or when the width
/// limits changed.
pub open spec fn sidebar_needs_rebind(
    prev_items: Seq<Seq<char>>,
    prev_selected: Option<usize>,
    items: Seq<Seq<char>>,
    selected_index: Option<usize>,
    widths: SidebarWidthChanges,
    has_listener: bool,
) -> bool {
    prev_items != items || prev_selected != selected_index || has_listener || widths.min_max
}

/// The steps of one paint, given what was remembered from the previous one
/// (none for a sidebar not yet created).
pub open spec fn sidebar_steps(
    prev: Option<(Seq<Seq<char>>, Option<usize>, bool)>,
    items: Seq<Seq<char>>,
    selected_index: Option<usize>,
    collapsed: bool,
    widths: SidebarWidthChanges,
    has_listener: bool,
) -> Seq<SidebarStep> {
    match prev {
        Some((prev_items, prev_selected, prev_collapsed)) => {
            let s1 = push_if(
                seq![SidebarStep::ConfigureWindow],
                (widths.width || widths.min_max) && !collapsed,
                SidebarStep::SetWidth,
            );
            let s2 = push_if(s1, prev_collapsed != collapsed, SidebarStep::SetCollapsed(collapsed));
            let rebind = sidebar_needs_rebind(
                prev_items,
                prev_selected,
                items,
                selected_index,
                widths,
                has_listener,
            );
            push_if(push_if(s2, rebind, SidebarStep::ReleaseTarget), rebind, SidebarStep::SetItems)
        },
        None => push_if(seq![SidebarStep::Create, SidebarStep::SetItems], collapsed, SidebarStep::SetCollapsed(true)).push(
            SidebarStep::ConfigureWindow,
        ),
    }
}

/// The remembered state, as the values the steps are planned from.
pub open spec fn sidebar_state_view(s: &SidebarPaintState) -> (Seq<Seq<char>>, Option<usize>, bool) {
    (s.items.deep_view(), s.selected_index, s.collapsed)
}

/// The steps of one paint and the state to remember for the next one.
pub struct SidebarPaint {
    pub steps: Vec<SidebarStep>,
    pub state: SidebarPaintState,
}

/// Plans one paint of a sidebar: the steps that bring the native sidebar (new,
/// or remembered as `prev`) in line with the element, and what to remember.
pub fn sidebar_paint(
    prev: Option<&SidebarPaintState>,
    items: &Vec<String>,
    selected_index: Option<usize>,
    collapsed: bool,
    widths: SidebarWidthChanges,
    has_listener: bool,
) -> (p: SidebarPaint)
    ensures
        p.steps@ == sidebar_steps(
            match prev {
                Some(s) => Some(sidebar_state_view(s)),
                None => None,
            },
            items.deep_view(),
            selected_index,
            collapsed,
            widths,
            has_listener,
        ),
        p.state.items.deep_view() == items.deep_view(),
        p.state.selected_index == selected_index,
        p.state.collapsed == collapsed,
{
    let mut steps: Vec<SidebarStep> = Vec::new();
    match prev {
        Some(state) => {
            steps.push(SidebarStep::ConfigureWindow);
            if (widths.width || widths.min_max) && !collapsed {
                steps.push(SidebarStep::SetWidth);
            }
            if state.collapsed != collapsed {
                steps.push(SidebarStep::SetCollapsed(collapsed));
            }
            let same_items = strings_eq(&state.items, items);
            let rebind = !same_items || state.selected_index != selected_index || has_listener
                || widths.min_max;
            if rebind {
                steps.push(SidebarStep::ReleaseTarget);
                steps.push(SidebarStep::SetItems);
            }
            assert(steps@ =~= sidebar_steps(
                Some(sidebar_state_view(state)),
                items.deep_view(),
                selected_index,
                collapsed,
                widths,
                has_listener,
            ));
        },
        None => {
            steps.push(SidebarStep::Create);
            steps.push(SidebarStep::SetItems);
            if collapsed {
                steps.push(SidebarStep::SetCollapsed(true));
            }
            steps.push(SidebarStep::ConfigureWindow);
            assert(steps@ =~= sidebar_steps(
                None,
                items.deep_view(),
                selected_index,
                collapsed,
                widths,
                has_listener,
            ));
        },
    }
    SidebarPaint {
        steps,
        state: SidebarPaintState { items: clone_strings(items), selected_index, collapsed },
    }
}

/// What a native sidebar shows: its items and selection, whether it is
/// collapsed, whether its widths are the element's, and whether the element's
/// listener is bound to the list.
pub struct SidebarNative {
    pub items: Seq<Seq<char>>,
    pub selected_index: Option<usize>,
    pub collapsed: bool,
    pub width_current: bool,
    pub listener_bound: bool,
}

/// What one step does to the native sidebar, given the element's items,
/// selection and whether it has a listener. A new sidebar is created with the
/// element's widths, expanded.
pub open spec fn sidebar_apply(
    n: SidebarNative,
    step: SidebarStep,
    items: Seq<Seq<char>>,
    selected_index: Option<usize>,
    has_listener: bool,
) -> SidebarNative {
    match step {
        SidebarStep::Create => SidebarNative { collapsed: false, width_current: true, ..n },
        SidebarStep::SetItems => SidebarNative { items, selected_index, listener_bound: has_listener, ..n },
        SidebarStep::SetCollapsed(c) => SidebarNative {
            collapsed: c,
            width_current: if c { n.width_current } else { true },
            ..n
        },
        SidebarStep::SetWidth => SidebarNative { width_current: true, ..n },
        SidebarStep::ReleaseTarget => SidebarNative { listener_bound: false, ..n },
        SidebarStep::ConfigureWindow => n,
    }
}

/// The native sidebar after the steps, in order.
pub open spec fn sidebar_apply_all(
    n: SidebarNative,
    steps: Seq<SidebarStep>,
    items: Seq<Seq<char>>,
    selected_index: Option<usize>,
    has_listener: bool,
) -> SidebarNative {
    steps.fold_left(
        n,
        |m: SidebarNative, s: SidebarStep| sidebar_apply(m, s, items, selected_index, has_listener),
    )
}

/// After the steps of a paint, the native sidebar shows the element's items,
/// selection and collapsed state, and an expanded sidebar has the element's
/// widths: a new sidebar whatever it started with, an existing one when it
/// showed the remembered state (with its widths current unless the glue found
/// them changed, or it was collapsed). A listener the element has is bound.
pub proof fn lemma_sidebar_paint_applies(
    prev: Option<(Seq<Seq<char>>, Option<usize>, bool)>,
    items: Seq<Seq<char>>,
    selected_index: Option<usize>,
    collapsed: bool,
    widths: SidebarWidthChanges,
    has_listener: bool,
    start: SidebarNative,
)
    requires
        match prev {
            Some((prev_items, prev_selected, prev_collapsed)) => {
                &&& start.items == prev_items
                &&& start.selected_index == prev_selected
                &&& start.collapsed == prev_collapsed
                &&& !start.collapsed ==> start.width_current == !(widths.width || widths.min_max)
            },
            None => true,
        },
    ensures
        ({
            let end = sidebar_apply_all(
                start,
                sidebar_steps(prev, items, selected_index, collapsed, widths, has_listener),
                items,
                selected_index,
                has_listener,
            );
            &&& end.items == items
            &&& end.selected_index == selected_index
            &&& end.collapsed == collapsed
            &&& !collapsed ==> end.width_current
            &&& has_listener ==> end.listener_bound
        }),
{
    let f = |m: SidebarNative, s: SidebarStep| sidebar_apply(m, s, items, selected_index, has_listener);
    match prev {
        Some((prev_items, prev_selected, prev_collapsed)) => {
            let s0 = seq![SidebarStep::ConfigureWindow];
            lemma_fold_single(SidebarStep::ConfigureWindow, start, f);
            let c1 = (widths.width || widths.min_max) && !collapsed;
            lemma_fold_push_if(s0, c1, SidebarStep::SetWidth, start, f);
            let s1 = push_if(s0, c1, SidebarStep::SetWidth);
            lemma_fold_push_if(s1, prev_collapsed != collapsed, SidebarStep::SetCollapsed(collapsed), start, f);
            let s2 = push_if(s1, prev_collapsed != collapsed, SidebarStep::SetCollapsed(collapsed));
            let rebind = sidebar_needs_rebind(
                prev_items,
                prev_selected,
                items,
                selected_index,
                widths,
                has_listener,
            );
            lemma_fold_push_if(s2, rebind, SidebarStep::ReleaseTarget, start, f);
            let s3 = push_if(s2, rebind, SidebarStep::ReleaseTarget);
            lemma_fold_push_if(s3, rebind, SidebarStep::SetItems, start, f);
        },
        None => {
            let s0 = seq![SidebarStep::Create];
            lemma_fold_single(SidebarStep::Create, start, f);
            lemma_fold_push(s0, SidebarStep::SetItems, start, f);
            let s1 = s0.push(SidebarStep::SetItems);
            assert(s1 =~= seq![SidebarStep::Create, SidebarStep::SetItems]);
            lemma_fold_push_if(s1, collapsed, SidebarStep::SetCollapsed(true), start, f);
            let s2 = push_if(s1, collapsed, SidebarStep::SetCollapsed(true));
            lemma_fold_push(s2, SidebarStep::ConfigureWindow, start, f);
        },
    }
}

/// An item of the sidebar's toolbar, by identifier.
pub enum SidebarToolbarItem {
    /// `NSToolbarFlexibleSpaceItemIdentifier`.
    FlexibleSpace,
    /// `NSToolbarToggleSidebarItemIdentifier`.
    ToggleSidebar,
    /// `NSToolbarSidebarTrackingSeparatorItemIdentifier`.
    SidebarTrackingSeparator,
    /// Any other item.
    Other(String),
}

/// The items of the toolbar as plain values: the three standard items, or
/// another item's identifier.
pub enum SidebarToolbarItemView {
    FlexibleSpace,
    ToggleSidebar,
    SidebarTrackingSeparator,
    Other(Seq<char>),
}

/// An item as a plain value.
pub open spec fn toolbar_item_view(item: &SidebarToolbarItem) -> SidebarToolbarItemView {
    match item {
        SidebarToolbarItem::FlexibleSpace => SidebarToolbarItemView::FlexibleSpace,
        SidebarToolbarItem::ToggleSidebar => SidebarToolbarItemView::ToggleSidebar,
        SidebarToolbarItem::SidebarTrackingSeparator => SidebarToolbarItemView::SidebarTrackingSeparator,
        SidebarToolbarItem::Other(id) => SidebarToolbarItemView::Other(id@),
    }
}

/// The toolbar's items as plain values, in order.
pub open spec fn toolbar_items_view(items: Seq<SidebarToolbarItem>) -> Seq<SidebarToolbarItemView> {
    items.map_values(|i: SidebarToolbarItem| toolbar_item_view(&i))
}

/// `s` with `x` inserted at `index` unless `s` already holds it.
pub open spec fn insert_if_missing(
    s: Seq<SidebarToolbarItemView>,
    x: SidebarToolbarItemView,
    index: int,
) -> Seq<SidebarToolbarItemView> {
    if s.contains(x) {
        s
    } else {
        s.insert(index, x)
    }
}

/// The toolbar after the sidebar's items are ensured: a flexible space first
/// when there is none; the sidebar toggle after the flexible space when there
/// is none; the tracking separator third (or last, on a shorter toolbar) when
/// there is none.
pub open spec fn with_sidebar_toggle_items(s: Seq<SidebarToolbarItemView>) -> Seq<SidebarToolbarItemView> {
    let s1 = insert_if_missing(s, SidebarToolbarItemView::FlexibleSpace, 0);
    let s2 = insert_if_missing(
        s1,
        SidebarToolbarItemView::ToggleSidebar,
        if s1.contains(SidebarToolbarItemView::FlexibleSpace) { 1 } else { 0 },
    );
    insert_if_missing(
        s2,
        SidebarToolbarItemView::SidebarTrackingSeparator,
        if s2.len() < 2 { s2.len() as int } else { 2 },
    )
}

fn is_standard(item: &SidebarToolbarItem, which: u8) -> (r: bool)
    requires
        which < 3,
    ensures
        r == (toolbar_item_view(item) == (if which == 0 {
            SidebarToolbarItemView::FlexibleSpace
        } else if which == 1 {
            SidebarToolbarItemView::ToggleSidebar
        } else {
            SidebarToolbarItemView::SidebarTrackingSeparator
        })),
{
    match item {
        SidebarToolbarItem::FlexibleSpace => which == 0,
        SidebarToolbarItem::ToggleSidebar => which == 1,
        SidebarToolbarItem::SidebarTrackingSeparator => which == 2,
        SidebarToolbarItem::Other(_) => false,
    }
}

fn has_standard(items: &Vec<SidebarToolbarItem>, which: u8) -> (r: bool)
    requires
        which < 3,
    ensures
        r == toolbar_items_view(items@).contains(
            if which == 0 {
                SidebarToolbarItemView::FlexibleSpace
            } else if which == 1 {
                SidebarToolbarItemView::ToggleSidebar
            } else {
                SidebarToolbarItemView::SidebarTrackingSeparator
            },
        ),
{
    let ghost target = if which == 0 {
        SidebarToolbarItemView::FlexibleSpace
    } else if which == 1 {
        SidebarToolbarItemView::ToggleSidebar
    } else {
        SidebarToolbarItemView::SidebarTrackingSeparator
    };
    let ghost v = toolbar_items_view(items@);
    let mut i: usize = 0;
    while i < items.len()
        invariant
            which < 3,
            v == toolbar_items_view(items@),
            target == (if which == 0 {
                SidebarToolbarItemView::FlexibleSpace
            } else if which == 1 {
                SidebarToolbarItemView::ToggleSidebar
            } else {
                SidebarToolbarItemView::SidebarTrackingSeparator
            }),
            i <= items.len(),
            forall|j: int| 0 <= j < i ==> v[j] != target,
        decreases items.len() - i,
    {
        assert(v[i as int] == toolbar_item_view(&items@[i as int]));
        if is_standard(&items[i], which) {
            assert(v[i as int] == target);
            return true;
        }
        i = i + 1;
    }
    assert(!v.contains(target));
    false
}

/// Ensures the sidebar's standard items are on its toolbar (see
/// [`with_sidebar_toggle_items`]).
pub fn ensure_sidebar_toggle_items(items: &mut Vec<SidebarToolbarItem>)
    ensures
        toolbar_items_view(final(items)@) == with_sidebar_toggle_items(toolbar_items_view(old(items)@)),
{
    let ghost s0 = toolbar_items_view(items@);
    if !has_standard(items, 0) {
        items.insert(0, SidebarToolbarItem::FlexibleSpace);
        assert(toolbar_items_view(items@) =~= s0.insert(0, SidebarToolbarItemView::FlexibleSpace));
    }
    let ghost s1 = toolbar_items_view(items@);
    assert(s1 == insert_if_missing(s0, SidebarToolbarItemView::FlexibleSpace, 0));
    if !has_standard(items, 1) {
        let index: usize = if has_standard(items, 0) { 1 } else { 0 };
        items.insert(index, SidebarToolbarItem::ToggleSidebar);
        assert(toolbar_items_view(items@) =~= s1.insert(index as int, SidebarToolbarItemView::ToggleSidebar));
    }
    let ghost s2 = toolbar_items_view(items@);
    if !has_standard(items, 2) {
        let count = items.len();
        let index: usize = if count < 2 { count } else { 2 };
        items.insert(index, SidebarToolbarItem::SidebarTrackingSeparator);
        assert(toolbar_items_view(items@) =~= s2.insert(
            index as int,
            SidebarToolbarItemView::SidebarTrackingSeparator,
        ));
    }
}

/// After the items are ensured the toolbar holds all three standard items,
/// and ensuring them again changes nothing.
pub proof fn lemma_sidebar_toggle_items_idempotent(s: Seq<SidebarToolbarItemView>)
    ensures
        with_sidebar_toggle_items(s).contains(SidebarToolbarItemView::FlexibleSpace),
        with_sidebar_toggle_items(s).contains(SidebarToolbarItemView::ToggleSidebar),
        with_sidebar_toggle_items(s).contains(SidebarToolbarItemView::SidebarTrackingSeparator),
        with_sidebar_toggle_items(with_sidebar_toggle_items(s)) == with_sidebar_toggle_items(s),
{
    let f = SidebarToolbarItemView::FlexibleSpace;
    let t = SidebarToolbarItemView::ToggleSidebar;
    let p = SidebarToolbarItemView::SidebarTrackingSeparator;
    let s1 = insert_if_missing(s, f, 0);
    if !s.contains(f) {
        assert(s1[0] == f);
    }
    assert(s1.contains(f));
    let i2: int = if s1.contains(f) { 1 } else { 0 };
    let s2 = insert_if_missing(s1, t, i2);
    if !s1.contains(t) {
        assert(s2[i2] == t);
        let k = choose|k: int| 0 <= k < s1.len() && s1[k] == f;
        if k < i2 {
            assert(s2[k] == f);
        } else {
            assert(s2[k + 1] == f);
        }
    }
    assert(s2.contains(t));
    assert(s2.contains(f));
    let i3: int = if s2.len() < 2 { s2.len() as int } else { 2 };
    let s3 = insert_if_missing(s2, p, i3);
    if !s2.contains(p) {
        assert(s3[i3] == p);
        let kf = choose|k: int| 0 <= k < s2.len() && s2[k] == f;
        let kt = choose|k: int| 0 <= k < s2.len() && s2[k] == t;
        if kf < i3 {
            assert(s3[kf] == f);
        } else {
            assert(s3[kf + 1] == f);
        }
        if kt < i3 {
            assert(s3[kt] == t);
        } else {
            assert(s3[kt + 1] == t);
        }
    }
    assert(s3.contains(f));
    assert(s3.contains(t));
    assert(s3.contains(p));
}

/// A repaint of a sidebar whose items, selection, collapsed state and widths
/// did not change, without a listener, only reinstalls it in the window.
pub proof fn lemma_sidebar_repaint_unchanged(
    items: Seq<Seq<char>>,
    selected_index: Option<usize>,
    collapsed: bool,
)
    ensures
        sidebar_steps(
            Some((items, selected_index, collapsed)),
            items,
            selected_index,
            collapsed,
            SidebarWidthChanges { width: false, min_max: false },
            false,
        ) == seq![SidebarStep::ConfigureWindow],
{
}

} // verus!
