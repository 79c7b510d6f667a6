//! Tab views (`NSTabView`): the element builder and the configuration it hands
//! to the native layer.

use vstd::prelude::*;
use crate::element_id::{ElementId, ElementIdView};
use crate::text::{clone_strings, owned_strings, str_views};

verus! {

/// Emitted when a tab is chosen.
pub struct TabSelectEvent {
    pub index: usize,
}

/// Everything the native layer needs to create or update a tab view.
pub struct TabViewConfig<L> {
    pub labels: Vec<String>,
    pub selected_index: usize,
    pub enabled: bool,
    pub on_select: Option<L>,
}

/// A native tab view; `L` is the type of its selection listener.
pub struct NativeTabView<L> {
    id: ElementId,
    labels: Vec<String>,
    selected_index: usize,
    on_select: Option<L>,
}

/// The state of a [`NativeTabView`].
pub struct NativeTabViewView<L> {
    pub id: ElementIdView,
    pub labels: Seq<Seq<char>>,
    pub selected_index: usize,
    pub on_select: Option<L>,
}

impl<L> View for NativeTabView<L> {
    type V = NativeTabViewView<L>;

    closed spec fn view(&self) -> NativeTabViewView<L> {
        NativeTabViewView {
            id: self.id@,
            labels: self.labels.deep_view(),
            selected_index: self.selected_index,
            on_select: self.on_select,
        }
    }
}

/// Creates a tab view with one tab per label and the first selected.
pub fn native_tab_view<L>(id: ElementId, labels: &[&str]) -> (t: NativeTabView<L>)
    ensures
        t@ == (NativeTabViewView::<L> {
            id: id@,
            labels: str_views(labels@),
            selected_index: 0,
            on_select: None,
        }),
{
    NativeTabView { id, labels: owned_strings(labels), selected_index: 0, on_select: None }
}

impl<L> NativeTabView<L> {
    /// Sets the selected tab.
    pub fn selected_index(self, selected_index: usize) -> (t: Self)
        ensures
            t@ == (NativeTabViewView { selected_index: selected_index, ..self@ }),
    {
        let mut t = self;
        t.selected_index = selected_index;
        t
    }

    /// Registers the listener called when a tab is chosen.
    pub fn on_select(self, listener: L) -> (t: Self)
        ensures
            t@ == (NativeTabViewView { on_select: Some(listener), ..self@ }),
    {
        let mut t = self;
        t.on_select = Some(listener);
        t
    }

    /// The identifier of the element.
    pub fn id(&self) -> (id: ElementId)
        ensures
            id@ == self@.id,
    {
        self.id.duplicate()
    }

    /// Width and height requested where the style leaves them automatic.
    pub fn intrinsic_size(&self) -> (size: (u64, u64))
        ensures
            size == (420u64, 280u64),
    {
        (420, 280)
    }

    /// The configuration handed to the native layer when painted: always
    /// enabled, the selection passed as set. The listener moves into it.
    pub fn take_config(&mut self) -> (c: TabViewConfig<L>)
        ensures
            final(self)@ == (NativeTabViewView { on_select: None, ..old(self)@ }),
            c.labels.deep_view() == old(self)@.labels,
            c.selected_index == old(self)@.selected_index,
            c.enabled,
            c.on_select == old(self)@.on_select,
    {
        let on_select = self.on_select.take();
        TabViewConfig {
            labels: clone_strings(&self.labels),
            selected_index: self.selected_index,
            enabled: true,
            on_select,
        }
    }
}

} // verus!
