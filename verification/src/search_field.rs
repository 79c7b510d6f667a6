//! Search fields (`NSSearchField`): the element builder, the configuration it
//! hands to the native layer, and the routing of its listeners.

use vstd::prelude::*;
use crate::element_id::{element_id_text, ElementId, ElementIdView};
use crate::text_field::TextFieldCallbacks;

verus! {

/// Emitted when the search text changes.
pub struct SearchChangeEvent {
    pub text: String,
}

/// Emitted when the search is submitted, or when editing ends.
pub struct SearchSubmitEvent {
    pub text: String,
}

/// Routes a search field's listeners to the native callbacks: focus begins
/// editing, blur ends it, and the arrow keys and cancel have their own.
pub fn build_search_field_callbacks<C, S, N>(
    on_change: Option<C>,
    on_submit: Option<S>,
    on_focus: Option<N>,
    on_blur: Option<S>,
    on_move_up: Option<N>,
    on_move_down: Option<N>,
    on_cancel: Option<N>,
) -> (cb: TextFieldCallbacks<C, S, N>)
    ensures
        cb.on_change == on_change,
        cb.on_begin_editing == on_focus,
        cb.on_end_editing == on_blur,
        cb.on_submit == on_submit,
        cb.on_move_up == on_move_up,
        cb.on_move_down == on_move_down,
        cb.on_cancel == on_cancel,
{
    TextFieldCallbacks {
        on_change,
        on_begin_editing: on_focus,
        on_end_editing: on_blur,
        on_submit,
        on_move_up,
        on_move_down,
        on_cancel,
    }
}

/// Everything the native layer needs to create or update a search field.
pub struct SearchFieldConfig<C, S, N> {
    pub placeholder: String,
    pub value: String,
    pub identifier: Option<String>,
    pub sends_immediately: bool,
    pub sends_whole_string: bool,
    pub enabled: bool,
    pub callbacks: TextFieldCallbacks<C, S, N>,
}

/// A native search field; `C` is the type of its change listener, `S` of its
/// submit and blur listeners, `N` of its focus, arrow-key and cancel listeners.
pub struct NativeSearchField<C, S, N> {
    id: ElementId,
    value: String,
    placeholder: String,
    sends_search_string_immediately: bool,
    sends_whole_search_string: bool,
    disabled: bool,
    on_change: Option<C>,
    on_submit: Option<S>,
    on_focus: Option<N>,
    on_blur: Option<S>,
    on_move_up: Option<N>,
    on_move_down: Option<N>,
    on_cancel: Option<N>,
}

/// The state of a [`NativeSearchField`].
pub struct NativeSearchFieldView<C, S, N> {
    pub id: ElementIdView,
    pub value: Seq<char>,
    pub placeholder: Seq<char>,
    pub sends_search_string_immediately: bool,
    pub sends_whole_search_string: bool,
    pub disabled: bool,
    pub on_change: Option<C>,
    pub on_submit: Option<S>,
    pub on_focus: Option<N>,
    pub on_blur: Option<S>,
    pub on_move_up: Option<N>,
    pub on_move_down: Option<N>,
    pub on_cancel: Option<N>,
}

impl<C, S, N> View for NativeSearchField<C, S, N> {
    type V = NativeSearchFieldView<C, S, N>;

    closed spec fn view(&self) -> NativeSearchFieldView<C, S, N> {
        NativeSearchFieldView {
            id: self.id@,
            value: self.value@,
            placeholder: self.placeholder@,
            sends_search_string_immediately: self.sends_search_string_immediately,
            sends_whole_search_string: self.sends_whole_search_string,
            disabled: self.disabled,
            on_change: self.on_change,
            on_submit: self.on_submit,
            on_focus: self.on_focus,
            on_blur: self.on_blur,
            on_move_up: self.on_move_up,
            on_move_down: self.on_move_down,
            on_cancel: self.on_cancel,
        }
    }
}

/// Creates an empty, enabled search field that sends each change immediately
/// and only the typed part, with no listeners.
pub fn native_search_field<C, S, N>(id: ElementId) -> (f: NativeSearchField<C, S, N>)
    ensures
        f@ == (NativeSearchFieldView::<C, S, N> {
            id: id@,
            value: Seq::empty(),
            placeholder: Seq::empty(),
            sends_search_string_immediately: true,
            sends_whole_search_string: false,
            disabled: false,
            on_change: None,
            on_submit: None,
            on_focus: None,
            on_blur: None,
            on_move_up: None,
            on_move_down: None,
            on_cancel: None,
        }),
{
    NativeSearchField {
        id,
        value: String::new(),
        placeholder: String::new(),
        sends_search_string_immediately: true,
        sends_whole_search_string: false,
        disabled: false,
        on_change: None,
        on_submit: None,
        on_focus: None,
        on_blur: None,
        on_move_up: None,
        on_move_down: None,
        on_cancel: None,
    }
}

impl<C, S, N> NativeSearchField<C, S, N> {
    /// Sets the text.
    pub fn value(self, value: &str) -> (f: Self)
        ensures
            f@ == (NativeSearchFieldView { value: value@, ..self@ }),
    {
        let mut f = self;
        f.value = value.to_owned();
        f
    }

    /// Sets the placeholder shown while the field is empty.
    pub fn placeholder(self, placeholder: &str) -> (f: Self)
        ensures
            f@ == (NativeSearchFieldView { placeholder: placeholder@, ..self@ }),
    {
        let mut f = self;
        f.placeholder = placeholder.to_owned();
        f
    }

    /// Sets whether each keystroke is sent, rather than only on submit.
    pub fn sends_search_string_immediately(self, value: bool) -> (f: Self)
        ensures
            f@ == (NativeSearchFieldView { sends_search_string_immediately: value, ..self@ }),
    {
        let mut f = self;
        f.sends_search_string_immediately = value;
        f
    }

    /// Sets whether the whole string is sent rather than the typed part.
    pub fn sends_whole_search_string(self, value: bool) -> (f: Self)
        ensures
            f@ == (NativeSearchFieldView { sends_whole_search_string: value, ..self@ }),
    {
        let mut f = self;
        f.sends_whole_search_string = value;
        f
    }

    /// Sets whether the field is disabled.
    pub fn disabled(self, disabled: bool) -> (f: Self)
        ensures
            f@ == (NativeSearchFieldView { disabled: disabled, ..self@ }),
    {
        let mut f = self;
        f.disabled = disabled;
        f
    }

    /// Registers the listener called when the text changes.
    pub fn on_change(self, listener: C) -> (f: Self)
        ensures
            f@ == (NativeSearchFieldView { on_change: Some(listener), ..self@ }),
    {
        let mut f = self;
        f.on_change = Some(listener);
        f
    }

    /// Registers the listener called when the search is submitted.
    pub fn on_submit(self, listener: S) -> (f: Self)
        ensures
            f@ == (NativeSearchFieldView { on_submit: Some(listener), ..self@ }),
    {
        let mut f = self;
        f.on_submit = Some(listener);
        f
    }

    /// Registers the listener called when editing begins.
    pub fn on_focus(self, listener: N) -> (f: Self)
        ensures
            f@ == (NativeSearchFieldView { on_focus: Some(listener), ..self@ }),
    {
        let mut f = self;
        f.on_focus = Some(listener);
        f
    }

    /// Registers the listener called when editing ends.
    pub fn on_blur(self, listener: S) -> (f: Self)
        ensures
            f@ == (NativeSearchFieldView { on_blur: Some(listener), ..self@ }),
    {
        let mut f = self;
        f.on_blur = Some(listener);
        f
    }

    /// Registers the listener called for the up-arrow key.
    pub fn on_move_up(self, listener: N) -> (f: Self)
        ensures
            f@ == (NativeSearchFieldView { on_move_up: Some(listener), ..self@ }),
    {
        let mut f = self;
        f.on_move_up = Some(listener);
        f
    }

    /// Registers the listener called for the down-arrow key.
    pub fn on_move_down(self, listener: N) -> (f: Self)
        ensures
            f@ == (NativeSearchFieldView { on_move_down: Some(listener), ..self@ }),
    {
        let mut f = self;
        f.on_move_down = Some(listener);
        f
    }

    /// Registers the listener called when the search is cancelled.
    pub fn on_cancel(self, listener: N) -> (f: Self)
        ensures
            f@ == (NativeSearchFieldView { on_cancel: Some(listener), ..self@ }),
    {
        let mut f = self;
        f.on_cancel = Some(listener);
        f
    }

    /// The identifier of the element.
    pub fn id(&self) -> (id: ElementId)
        ensures
            id@ == self@.id,
    {
        self.id.duplicate()
    }

    /// Width and height requested where the style leaves them automatic.
    pub fn intrinsic_size(&self) -> (size: (u64, u64))
        ensures
            size == (220u64, 24u64),
    {
        (220, 24)
    }

    /// The configuration handed to the native layer when painted; the native
    /// field is identified by the text of the element's identifier. The
    /// listeners move into its callbacks.
    pub fn take_config(&mut self) -> (c: SearchFieldConfig<C, S, N>)
        ensures
            final(self)@ == (NativeSearchFieldView {
                on_change: None,
                on_submit: None,
                on_focus: None,
                on_blur: None,
                on_move_up: None,
                on_move_down: None,
                on_cancel: None,
                ..old(self)@
            }),
            c.placeholder@ == old(self)@.placeholder,
            c.value@ == old(self)@.value,
            c.identifier.is_some() && c.identifier->0@ == element_id_text(old(self)@.id),
            c.sends_immediately == old(self)@.sends_search_string_immediately,
            c.sends_whole_string == old(self)@.sends_whole_search_string,
            c.enabled == !old(self)@.disabled,
            c.callbacks.on_change == old(self)@.on_change,
            c.callbacks.on_begin_editing == old(self)@.on_focus,
            c.callbacks.on_end_editing == old(self)@.on_blur,
            c.callbacks.on_submit == old(self)@.on_submit,
            c.callbacks.on_move_up == old(self)@.on_move_up,
            c.callbacks.on_move_down == old(self)@.on_move_down,
            c.callbacks.on_cancel == old(self)@.on_cancel,
    {
        let on_change = self.on_change.take();
        let on_submit = self.on_submit.take();
        let on_focus = self.on_focus.take();
        let on_blur = self.on_blur.take();
        let on_move_up = self.on_move_up.take();
        let on_move_down = self.on_move_down.take();
        let on_cancel = self.on_cancel.take();
        let identifier = self.id.to_string();
        SearchFieldConfig {
            placeholder: self.placeholder.clone(),
            value: self.value.clone(),
            identifier: Some(identifier),
            sends_immediately: self.sends_search_string_immediately,
            sends_whole_string: self.sends_whole_search_string,
            enabled: !self.disabled,
            callbacks: build_search_field_callbacks(
                on_change,
                on_submit,
                on_focus,
                on_blur,
                on_move_up,
                on_move_down,
                on_cancel,
            ),
        }
    }
}

} // verus!
