//! Combo boxes (`NSComboBox`): the element builder, the configuration it hands
//! to the native layer, and the routing of its listeners.

use vstd::prelude::*;
use crate::element_id::{ElementId, ElementIdView};
use crate::text::{clone_strings, owned_strings, str_views};

verus! {

/// Emitted when the text of an editable combo box changes.
pub struct ComboBoxChangeEvent {
    pub text: String,
}

/// Emitted when an item is chosen from the list.
pub struct ComboBoxSelectEvent {
    pub index: usize,
}

/// `index` clamped into a list of `len` items (0 for an empty list).
pub open spec fn clamped_index(index: nat, len: nat) -> nat {
    if len == 0 {
        0
    } else if index < len {
        index
    } else {
        (len - 1) as nat
    }
}

/// `index` clamped into a list of `len` items (0 for an empty list).
pub fn clamp_selected_index(index: usize, len: usize) -> (r: usize)
    ensures
        r == clamped_index(index as nat, len as nat),
{
    if len == 0 {
        0
    } else if index < len - 1 {
        index
    } else {
        len - 1
    }
}

/// The listeners handed to the native combo box; `C` receives text, `S` indices.
pub struct ComboBoxCallbacks<C, S> {
    pub on_select: Option<S>,
    pub on_change: Option<C>,
    pub on_submit: Option<C>,
}

/// Routes the element's listeners to the native callbacks: selection and text
/// change; nothing is bound to submit.
pub fn build_combo_box_callbacks<C, S>(on_change: Option<C>, on_select: Option<S>) -> (cb:
    ComboBoxCallbacks<C, S>)
    ensures
        cb.on_select == on_select,
        cb.on_change == on_change,
        cb.on_submit is None,
{
    ComboBoxCallbacks { on_select, on_change, on_submit: None }
}

/// Everything the native layer needs to create or update a combo box.
pub struct ComboBoxConfig<C, S> {
    pub items: Vec<String>,
    pub selected_index: usize,
    pub editable: bool,
    pub completes: bool,
    pub value: Option<String>,
    pub enabled: bool,
    pub callbacks: ComboBoxCallbacks<C, S>,
}

/// A native combo box; `C` is the type of its text listener, `S` of its
/// selection listener.
pub struct NativeComboBox<C, S> {
    id: ElementId,
    items: Vec<String>,
    selected_index: usize,
    text: String,
    editable: bool,
    completes: bool,
    on_change: Option<C>,
    on_select: Option<S>,
    disabled: bool,
}

/// The state of a [`NativeComboBox`].
pub struct NativeComboBoxView<C, S> {
    pub id: ElementIdView,
    pub items: Seq<Seq<char>>,
    pub selected_index: usize,
    pub text: Seq<char>,
    pub editable: bool,
    pub completes: bool,
    pub on_change: Option<C>,
    pub on_select: Option<S>,
    pub disabled: bool,
}

impl<C, S> View for NativeComboBox<C, S> {
    type V = NativeComboBoxView<C, S>;

    closed spec fn view(&self) -> NativeComboBoxView<C, S> {
        NativeComboBoxView {
            id: self.id@,
            items: self.items.deep_view(),
            selected_index: self.selected_index,
            text: self.text@,
            editable: self.editable,
            completes: self.completes,
            on_change: self.on_change,
            on_select: self.on_select,
            disabled: self.disabled,
        }
    }
}

/// Creates a non-editable, completing, enabled combo box over `items`, with the
/// first item selected, empty text and no listeners.
pub fn native_combo_box<C, S>(id: ElementId, items: &[&str]) -> (c: NativeComboBox<C, S>)
    ensures
        c@ == (NativeComboBoxView::<C, S> {
            id: id@,
            items: str_views(items@),
            selected_index: 0,
            text: Seq::empty(),
            editable: false,
            completes: true,
            on_change: None,
            on_select: None,
            disabled: false,
        }),
{
    NativeComboBox {
        id,
        items: owned_strings(items),
        selected_index: 0,
        text: String::new(),
        editable: false,
        completes: true,
        on_change: None,
        on_select: None,
        disabled: false,
    }
}

impl<C, S> NativeComboBox<C, S> {
    /// Replaces the list of items.
    pub fn items(self, items: &[&str]) -> (c: Self)
        ensures
            c@ == (NativeComboBoxView { items: str_views(items@), ..self@ }),
    {
        let mut c = self;
        c.items = owned_strings(items);
        c
    }

    /// Sets the selected item; out-of-range indices are clamped when painted.
    pub fn selected_index(self, index: usize) -> (c: Self)
        ensures
            c@ == (NativeComboBoxView { selected_index: index, ..self@ }),
    {
        let mut c = self;
        c.selected_index = index;
        c
    }

    /// Sets the text shown when the box is editable.
    pub fn text(self, text: &str) -> (c: Self)
        ensures
            c@ == (NativeComboBoxView { text: text@, ..self@ }),
    {
        let mut c = self;
        c.text = text.to_owned();
        c
    }

    /// Sets whether the user can type into the box.
    pub fn editable(self, editable: bool) -> (c: Self)
        ensures
            c@ == (NativeComboBoxView { editable: editable, ..self@ }),
    {
        let mut c = self;
        c.editable = editable;
        c
    }

    /// Sets whether typing completes from the items.
    pub fn completes(self, completes: bool) -> (c: Self)
        ensures
            c@ == (NativeComboBoxView { completes: completes, ..self@ }),
    {
        let mut c = self;
        c.completes = completes;
        c
    }

    /// Registers the listener called when the text changes.
    pub fn on_change(self, listener: C) -> (c: Self)
        ensures
            c@ == (NativeComboBoxView { on_change: Some(listener), ..self@ }),
    {
        let mut c = self;
        c.on_change = Some(listener);
        c
    }

    /// Registers the listener called when an item is chosen.
    pub fn on_select(self, listener: S) -> (c: Self)
        ensures
            c@ == (NativeComboBoxView { on_select: Some(listener), ..self@ }),
    {
        let mut c = self;
        c.on_select = Some(listener);
        c
    }

    /// Sets whether the box is disabled.
    pub fn disabled(self, disabled: bool) -> (c: Self)
        ensures
            c@ == (NativeComboBoxView { disabled: disabled, ..self@ }),
    {
        let mut c = self;
        c.disabled = disabled;
        c
    }

    /// The identifier of the element.
    pub fn id(&self) -> (id: ElementId)
        ensures
            id@ == self@.id,
    {
        self.id.duplicate()
    }

    /// Width and height requested where the style leaves them automatic.
    pub fn intrinsic_size(&self) -> (size: (u64, u64))
        ensures
            size == (220u64, 26u64),
    {
        (220, 26)
    }

    /// The configuration handed to the native layer when the box is painted:
    /// the selection clamped into the items, the text only when editable. The
    /// listeners move into the configuration.
    pub fn take_config(&mut self) -> (c: ComboBoxConfig<C, S>)
        ensures
            final(self)@ == (NativeComboBoxView { on_change: None, on_select: None, ..old(self)@ }),
            c.items.deep_view() == old(self)@.items,
            c.selected_index == clamped_index(
                old(self)@.selected_index as nat,
                old(self)@.items.len(),
            ),
            c.editable == old(self)@.editable,
            c.completes == old(self)@.completes,
            c.value.is_some() == old(self)@.editable,
            c.value.is_some() ==> c.value->0@ == old(self)@.text,
            c.enabled == !old(self)@.disabled,
            c.callbacks.on_change == old(self)@.on_change,
            c.callbacks.on_select == old(self)@.on_select,
            c.callbacks.on_submit is None,
    {
        let on_change = self.on_change.take();
        let on_select = self.on_select.take();
        let items = clone_strings(&self.items);
        let selected_index = clamp_selected_index(self.selected_index, items.len());
        let value = if self.editable {
            Some(self.text.clone())
        } else {
            None
        };
        ComboBoxConfig {
            items,
            selected_index,
            editable: self.editable,
            completes: self.completes,
            value,
            enabled: !self.disabled,
            callbacks: build_combo_box_callbacks(on_change, on_select),
        }
    }
}

/// The selection handed to the native layer always names an item of a
/// non-empty list, and is 0 for an empty one.
pub proof fn lemma_clamped_index_in_range(index: nat, len: nat)
    ensures
        len > 0 ==> clamped_index(index, len) < len,
        len == 0 ==> clamped_index(index, len) == 0,
        index < len ==> clamped_index(index, len) == index,
{
}

} // verus!
