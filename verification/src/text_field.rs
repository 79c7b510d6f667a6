//! Text fields (`NSTextField`): the element builder, the configuration it hands
//! to the native layer, and the routing of its listeners.

use vstd::prelude::*;
use crate::element_id::{ElementId, ElementIdView};

verus! {

/// Emitted when the text changes.
pub struct TextChangeEvent {
    pub text: String,
}

/// Emitted when the text is submitted, or when editing ends.
pub struct TextSubmitEvent {
    pub text: String,
}

/// Bezel style of a text field.
#[derive(Clone, Copy, Debug, PartialEq, Eq, Structural)]
pub enum NativeTextFieldStyle {
    Square,
    Rounded,
}

impl Default for NativeTextFieldStyle {
    fn default() -> (s: Self)
        ensures
            s == NativeTextFieldStyle::Square,
    {
        NativeTextFieldStyle::Square
    }
}

/// The `NSTextFieldBezelStyle` value of a style.
pub open spec fn text_field_bezel(s: NativeTextFieldStyle) -> i64 {
    match s {
        NativeTextFieldStyle::Square => 0,
        NativeTextFieldStyle::Rounded => 1,
    }
}

impl NativeTextFieldStyle {
    /// The `NSTextFieldBezelStyle` value.
    pub fn to_ns_style(self) -> (r: i64)
        ensures
            r == text_field_bezel(self),
    {
        match self {
            NativeTextFieldStyle::Square => 0,
            NativeTextFieldStyle::Rounded => 1,
        }
    }
}

/// The listeners handed to a native text or search field: `C` receives the
/// changed text, `S` the submitted or final text, `N` carries no value.
pub struct TextFieldCallbacks<C, S, N> {
    pub on_change: Option<C>,
    pub on_begin_editing: Option<N>,
    pub on_end_editing: Option<S>,
    pub on_submit: Option<S>,
    pub on_move_up: Option<N>,
    pub on_move_down: Option<N>,
    pub on_cancel: Option<N>,
}

/// Routes a text field's listeners to the native callbacks: focus begins
/// editing, blur ends it; nothing is bound to the arrow keys or cancel.
pub fn build_text_field_callbacks<C, S, N>(
    on_change: Option<C>,
    on_submit: Option<S>,
    on_focus: Option<N>,
    on_blur: Option<S>,
) -> (cb: TextFieldCallbacks<C, S, N>)
    ensures
        cb.on_change == on_change,
        cb.on_begin_editing == on_focus,
        cb.on_end_editing == on_blur,
        cb.on_submit == on_submit,
        cb.on_move_up is None,
        cb.on_move_down is None,
        cb.on_cancel is None,
{
    TextFieldCallbacks {
        on_change,
        on_begin_editing: on_focus,
        on_end_editing: on_blur,
        on_submit,
        on_move_up: None,
        on_move_down: None,
        on_cancel: None,
    }
}

/// Everything the native layer needs to create or update a text field. The
/// font size and alignment, which these elements never set, are left to the
/// native default.
pub struct TextFieldConfig<C, S, N> {
    pub placeholder: String,
    pub value: String,
    pub secure: bool,
    pub bezel_style: Option<i64>,
    pub enabled: bool,
    pub callbacks: TextFieldCallbacks<C, S, N>,
}

/// A native text field; `C` is the type of its change listener, `S` of its
/// submit and blur listeners, `N` of its focus listener.
pub struct NativeTextField<C, S, N> {
    id: ElementId,
    value: String,
    placeholder: String,
    secure: bool,
    disabled: bool,
    field_style: NativeTextFieldStyle,
    on_change: Option<C>,
    on_submit: Option<S>,
    on_focus: Option<N>,
    on_blur: Option<S>,
}

/// The state of a [`NativeTextField`].
pub struct NativeTextFieldView<C, S, N> {
    pub id: ElementIdView,
    pub value: Seq<char>,
    pub placeholder: Seq<char>,
    pub secure: bool,
    pub disabled: bool,
    pub field_style: NativeTextFieldStyle,
    pub on_change: Option<C>,
    pub on_submit: Option<S>,
    pub on_focus: Option<N>,
    pub on_blur: Option<S>,
}

impl<C, S, N> View for NativeTextField<C, S, N> {
    type V = NativeTextFieldView<C, S, N>;

    closed spec fn view(&self) -> NativeTextFieldView<C, S, N> {
        NativeTextFieldView {
            id: self.id@,
            value: self.value@,
            placeholder: self.placeholder@,
            secure: self.secure,
            disabled: self.disabled,
            field_style: self.field_style,
            on_change: self.on_change,
            on_submit: self.on_submit,
            on_focus: self.on_focus,
            on_blur: self.on_blur,
        }
    }
}

/// Creates an empty, plain, enabled, square text field with no listeners.
pub fn native_text_field<C, S, N>(id: ElementId) -> (t: NativeTextField<C, S, N>)
    ensures
        t@ == (NativeTextFieldView::<C, S, N> {
            id: id@,
            value: Seq::empty(),
            placeholder: Seq::empty(),
            secure: false,
            disabled: false,
            field_style: NativeTextFieldStyle::Square,
            on_change: None,
            on_submit: None,
            on_focus: None,
            on_blur: None,
        }),
{
    NativeTextField {
        id,
        value: String::new(),
        placeholder: String::new(),
        secure: false,
        disabled: false,
        field_style: NativeTextFieldStyle::Square,
        on_change: None,
        on_submit: None,
        on_focus: None,
        on_blur: None,
    }
}

impl<C, S, N> NativeTextField<C, S, N> {
    /// Sets the text.
    pub fn value(self, value: &str) -> (t: Self)
        ensures
            t@ == (NativeTextFieldView { value: value@, ..self@ }),
    {
        let mut t = self;
        t.value = value.to_owned();
        t
    }

    /// Sets the placeholder shown while the field is empty.
    pub fn placeholder(self, placeholder: &str) -> (t: Self)
        ensures
            t@ == (NativeTextFieldView { placeholder: placeholder@, ..self@ }),
    {
        let mut t = self;
        t.placeholder = placeholder.to_owned();
        t
    }

    /// Sets whether the text is masked.
    pub fn secure(self, secure: bool) -> (t: Self)
        ensures
            t@ == (NativeTextFieldView { secure: secure, ..self@ }),
    {
        let mut t = self;
        t.secure = secure;
        t
    }

    /// Sets whether the field is disabled.
    pub fn disabled(self, disabled: bool) -> (t: Self)
        ensures
            t@ == (NativeTextFieldView { disabled: disabled, ..self@ }),
    {
        let mut t = self;
        t.disabled = disabled;
        t
    }

    /// Sets the bezel style.
    pub fn field_style(self, style: NativeTextFieldStyle) -> (t: Self)
        ensures
            t@ == (NativeTextFieldView { field_style: style, ..self@ }),
    {
        let mut t = self;
        t.field_style = style;
        t
    }

    /// Registers the listener called when the text changes.
    pub fn on_change(self, listener: C) -> (t: Self)
        ensures
            t@ == (NativeTextFieldView { on_change: Some(listener), ..self@ }),
    {
        let mut t = self;
        t.on_change = Some(listener);
        t
    }

    /// Registers the listener called when the text is submitted.
    pub fn on_submit(self, listener: S) -> (t: Self)
        ensures
            t@ == (NativeTextFieldView { on_submit: Some(listener), ..self@ }),
    {
        let mut t = self;
        t.on_submit = Some(listener);
        t
    }

    /// Registers the listener called when editing begins.
    pub fn on_focus(self, listener: N) -> (t: Self)
        ensures
            t@ == (NativeTextFieldView { on_focus: Some(listener), ..self@ }),
    {
        let mut t = self;
        t.on_focus = Some(listener);
        t
    }

    /// Registers the listener called when editing ends.
    pub fn on_blur(self, listener: S) -> (t: Self)
        ensures
            t@ == (NativeTextFieldView { on_blur: Some(listener), ..self@ }),
    {
        let mut t = self;
        t.on_blur = Some(listener);
        t
    }

    /// The identifier of the element.
    pub fn id(&self) -> (id: ElementId)
        ensures
            id@ == self@.id,
    {
        self.id.duplicate()
    }

    /// Width and height requested where the style leaves them automatic.
    pub fn intrinsic_size(&self) -> (size: (u64, u64))
        ensures
            size == (200u64, 22u64),
    {
        (200, 22)
    }

    /// The configuration handed to the native layer when painted. The
    /// listeners move into its callbacks.
    pub fn take_config(&mut self) -> (c: TextFieldConfig<C, S, N>)
        ensures
            final(self)@ == (NativeTextFieldView {
                on_change: None,
                on_submit: None,
                on_focus: None,
                on_blur: None,
                ..old(self)@
            }),
            c.placeholder@ == old(self)@.placeholder,
            c.value@ == old(self)@.value,
            c.secure == old(self)@.secure,
            c.bezel_style == Some(text_field_bezel(old(self)@.field_style)),
            c.enabled == !old(self)@.disabled,
            c.callbacks.on_change == old(self)@.on_change,
            c.callbacks.on_begin_editing == old(self)@.on_focus,
            c.callbacks.on_end_editing == old(self)@.on_blur,
            c.callbacks.on_submit == old(self)@.on_submit,
            c.callbacks.on_move_up is None,
            c.callbacks.on_move_down is None,
            c.callbacks.on_cancel is None,
    {
        let on_change = self.on_change.take();
        let on_submit = self.on_submit.take();
        let on_focus = self.on_focus.take();
        let on_blur = self.on_blur.take();
        TextFieldConfig {
            placeholder: self.placeholder.clone(),
            value: self.value.clone(),
            secure: self.secure,
            bezel_style: Some(self.field_style.to_ns_style()),
            enabled: !self.disabled,
            callbacks: build_text_field_callbacks(on_change, on_submit, on_focus, on_blur),
        }
    }
}

} // verus!
