//! Check boxes: the element builder and the configuration it hands to the
//! native layer.

use vstd::prelude::*;
use crate::element_id::{ElementId, ElementIdView};
use crate::layout::{byte_len, fit_label_width, label_width};

verus! {

/// Emitted when the user toggles a check box.
pub struct CheckboxChangeEvent {
    pub checked: bool,
}

/// Everything the native layer needs to create or update a check box.
pub struct CheckboxConfig<L> {
    pub title: String,
    pub checked: bool,
    pub enabled: bool,
    pub on_change: Option<L>,
}

/// A native check box; `L` is the type of its change listener.
pub struct NativeCheckbox<L> {
    id: ElementId,
    label: String,
    checked: bool,
    on_change: Option<L>,
    disabled: bool,
}

/// The state of a [`NativeCheckbox`].
pub struct NativeCheckboxView<L> {
    pub id: ElementIdView,
    pub label: Seq<char>,
    pub checked: bool,
    pub on_change: Option<L>,
    pub disabled: bool,
}

impl<L> View for NativeCheckbox<L> {
    type V = NativeCheckboxView<L>;

    closed spec fn view(&self) -> NativeCheckboxView<L> {
        NativeCheckboxView {
            id: self.id@,
            label: self.label@,
            checked: self.checked,
            on_change: self.on_change,
            disabled: self.disabled,
        }
    }
}

/// Creates an unchecked, enabled check box with no listener.
pub fn native_checkbox<L>(id: ElementId, label: &str) -> (c: NativeCheckbox<L>)
    ensures
        c@ == (NativeCheckboxView::<L> {
            id: id@,
            label: label@,
            checked: false,
            on_change: None,
            disabled: false,
        }),
{
    NativeCheckbox { id, label: label.to_owned(), checked: false, on_change: None, disabled: false }
}

impl<L> NativeCheckbox<L> {
    /// Sets whether the box is checked.
    pub fn checked(self, checked: bool) -> (c: Self)
        ensures
            c@ == (NativeCheckboxView { checked: checked, ..self@ }),
    {
        let mut c = self;
        c.checked = checked;
        c
    }

    /// Registers the listener called when the user toggles the box.
    pub fn on_change(self, listener: L) -> (c: Self)
        ensures
            c@ == (NativeCheckboxView { on_change: Some(listener), ..self@ }),
    {
        let mut c = self;
        c.on_change = Some(listener);
        c
    }

    /// Sets whether the box is disabled.
    pub fn disabled(self, disabled: bool) -> (c: Self)
        ensures
            c@ == (NativeCheckboxView { disabled: disabled, ..self@ }),
    {
        let mut c = self;
        c.disabled = disabled;
        c
    }

    /// The identifier of the element.
    pub fn id(&self) -> (id: ElementId)
        ensures
            id@ == self@.id,
    {
        self.id.duplicate()
    }

    /// Width and height requested where the style leaves them automatic: eight
    /// pixels per label byte plus 40, at least 90, by 18 high.
    pub fn intrinsic_size(&self) -> (size: (u64, u64))
        ensures
            size == (label_width(byte_len(self@.label), 40, 90), 18u64),
    {
        (fit_label_width(self.label.as_str(), 40, 90), 18)
    }

    /// The configuration handed to the native layer when the box is painted.
    /// The listener moves into the configuration.
    pub fn take_config(&mut self) -> (c: CheckboxConfig<L>)
        ensures
            final(self)@ == (NativeCheckboxView { on_change: None, ..old(self)@ }),
            c.title@ == old(self)@.label,
            c.checked == old(self)@.checked,
            c.enabled == !old(self)@.disabled,
            c.on_change == old(self)@.on_change,
    {
        let on_change = self.on_change.take();
        CheckboxConfig {
            title: self.label.clone(),
            checked: self.checked,
            enabled: !self.disabled,
            on_change,
        }
    }
}

} // verus!
