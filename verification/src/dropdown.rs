//! Pop-up buttons (`NSPopUpButton`): the element builder and the configuration
//! it hands to the native layer.

use vstd::prelude::*;
use crate::combo_box::{clamp_selected_index, clamped_index};
use crate::element_id::{ElementId, ElementIdView};
use crate::text::{clone_strings, owned_strings, str_views};

verus! {

/// Emitted when an item is chosen.
pub struct DropdownSelectEvent {
    pub index: usize,
}

/// Everything the native layer needs to create or update a pop-up button.
pub struct PopupButtonConfig<L> {
    pub items: Vec<String>,
    pub selected_index: usize,
    pub enabled: bool,
    pub on_select: Option<L>,
}

/// A native pop-up button; `L` is the type of its selection listener.
pub struct NativeDropdown<L> {
    id: ElementId,
    items: Vec<String>,
    selected_index: usize,
    on_select: Option<L>,
    disabled: bool,
}

/// The state of a [`NativeDropdown`].
pub struct NativeDropdownView<L> {
    pub id: ElementIdView,
    pub items: Seq<Seq<char>>,
    pub selected_index: usize,
    pub on_select: Option<L>,
    pub disabled: bool,
}

impl<L> View for NativeDropdown<L> {
    type V = NativeDropdownView<L>;

    closed spec fn view(&self) -> NativeDropdownView<L> {
        NativeDropdownView {
            id: self.id@,
            items: self.items.deep_view(),
            selected_index: self.selected_index,
            on_select: self.on_select,
            disabled: self.disabled,
        }
    }
}

/// Creates an enabled pop-up button over `items` with the first selected.
pub fn native_dropdown<L>(id: ElementId, items: &[&str]) -> (d: NativeDropdown<L>)
    ensures
        d@ == (NativeDropdownView::<L> {
            id: id@,
            items: str_views(items@),
            selected_index: 0,
            on_select: None,
            disabled: false,
        }),
{
    NativeDropdown { id, items: owned_strings(items), selected_index: 0, on_select: None, disabled: false }
}

impl<L> NativeDropdown<L> {
    /// Sets the selected item; out-of-range indices are clamped when painted.
    pub fn selected_index(self, index: usize) -> (d: Self)
        ensures
            d@ == (NativeDropdownView { selected_index: index, ..self@ }),
    {
        let mut d = self;
        d.selected_index = index;
        d
    }

    /// Registers the listener called when an item is chosen.
    pub fn on_select(self, listener: L) -> (d: Self)
        ensures
            d@ == (NativeDropdownView { on_select: Some(listener), ..self@ }),
    {
        let mut d = self;
        d.on_select = Some(listener);
        d
    }

    /// Sets whether the button is disabled.
    pub fn disabled(self, disabled: bool) -> (d: Self)
        ensures
            d@ == (NativeDropdownView { disabled: disabled, ..self@ }),
    {
        let mut d = self;
        d.disabled = disabled;
        d
    }

    /// The identifier of the element.
    pub fn id(&self) -> (id: ElementId)
        ensures
            id@ == self@.id,
    {
        self.id.duplicate()
    }

    /// Width and height requested where the style leaves them automatic.
    pub fn intrinsic_size(&self) -> (size: (u64, u64))
        ensures
            size == (180u64, 24u64),
    {
        (180, 24)
    }

    /// The configuration handed to the native layer when painted, with the
    /// selection clamped into the items. The listener moves into it.
    pub fn take_config(&mut self) -> (c: PopupButtonConfig<L>)
        ensures
            final(self)@ == (NativeDropdownView { on_select: None, ..old(self)@ }),
            c.items.deep_view() == old(self)@.items,
            c.selected_index == clamped_index(
                old(self)@.selected_index as nat,
                old(self)@.items.len(),
            ),
            c.enabled == !old(self)@.disabled,
            c.on_select == old(self)@.on_select,
    {
        let on_select = self.on_select.take();
        let items = clone_strings(&self.items);
        let selected_index = clamp_selected_index(self.selected_index, items.len());
        PopupButtonConfig { items, selected_index, enabled: !self.disabled, on_select }
    }
}

} // verus!
