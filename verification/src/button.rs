//! Push buttons (`NSButton`): the element builder and the configuration it hands
//! to the native layer.

use vstd::prelude::*;
use vstd::std_specs::convert::FromSpecImpl;
use crate::element_id::{ElementId, ElementIdView};
use crate::layout::{byte_len, fit_label_width, label_width};

verus! {

/// Bezel style chosen on the element.
#[derive(Clone, Copy, Debug, PartialEq, Eq, Structural)]
pub enum NativeButtonStyle {
    Rounded,
    Filled,
    Inline,
    Borderless,
}

impl Default for NativeButtonStyle {
    fn default() -> (s: Self)
        ensures
            s == NativeButtonStyle::Rounded,
    {
        NativeButtonStyle::Rounded
    }
}

/// Bezel style understood by the native layer.
#[derive(Clone, Copy, Debug, PartialEq, Eq, Structural)]
pub enum ButtonStyle {
    Rounded,
    Filled,
    Inline,
    Borderless,
}

/// The native bezel style for an element style.
pub open spec fn native_button_style(s: NativeButtonStyle) -> ButtonStyle {
    match s {
        NativeButtonStyle::Rounded => ButtonStyle::Rounded,
        NativeButtonStyle::Filled => ButtonStyle::Filled,
        NativeButtonStyle::Inline => ButtonStyle::Inline,
        NativeButtonStyle::Borderless => ButtonStyle::Borderless,
    }
}

impl From<NativeButtonStyle> for ButtonStyle {
    fn from(s: NativeButtonStyle) -> (r: Self) {
        match s {
            NativeButtonStyle::Rounded => ButtonStyle::Rounded,
            NativeButtonStyle::Filled => ButtonStyle::Filled,
            NativeButtonStyle::Inline => ButtonStyle::Inline,
            NativeButtonStyle::Borderless => ButtonStyle::Borderless,
        }
    }
}

impl FromSpecImpl<NativeButtonStyle> for ButtonStyle {
    open spec fn obeys_from_spec() -> bool {
        true
    }

    open spec fn from_spec(s: NativeButtonStyle) -> ButtonStyle {
        native_button_style(s)
    }
}

/// Semantic tint of a button.
#[derive(Clone, Copy, Debug, PartialEq, Eq, Structural)]
pub enum NativeButtonTint {
    Accent,
    Destructive,
    Warning,
    Success,
}

/// Everything the native layer needs to create or update a button.
pub struct ButtonConfig<L> {
    pub title: String,
    pub sf_symbol: Option<String>,
    pub tooltip: Option<String>,
    pub style: ButtonStyle,
    pub tint: Option<NativeButtonTint>,
    pub enabled: bool,
    pub on_click: Option<L>,
}

/// A native push button; `L` is the type of its click listener.
pub struct NativeButton<L> {
    id: ElementId,
    label: String,
    on_click: Option<L>,
    button_style: NativeButtonStyle,
    tint: Option<NativeButtonTint>,
    disabled: bool,
}

/// The state of a [`NativeButton`].
pub struct NativeButtonView<L> {
    pub id: ElementIdView,
    pub label: Seq<char>,
    pub on_click: Option<L>,
    pub button_style: NativeButtonStyle,
    pub tint: Option<NativeButtonTint>,
    pub disabled: bool,
}

impl<L> View for NativeButton<L> {
    type V = NativeButtonView<L>;

    closed spec fn view(&self) -> NativeButtonView<L> {
        NativeButtonView {
            id: self.id@,
            label: self.label@,
            on_click: self.on_click,
            button_style: self.button_style,
            tint: self.tint,
            disabled: self.disabled,
        }
    }
}

/// Creates a rounded, enabled, untinted button with no click listener.
pub fn native_button<L>(id: ElementId, label: &str) -> (b: NativeButton<L>)
    ensures
        b@ == (NativeButtonView::<L> {
            id: id@,
            label: label@,
            on_click: None,
            button_style: NativeButtonStyle::Rounded,
            tint: None,
            disabled: false,
        }),
{
    NativeButton {
        id,
        label: label.to_owned(),
        on_click: None,
        button_style: NativeButtonStyle::Rounded,
        tint: None,
        disabled: false,
    }
}

impl<L> NativeButton<L> {
    /// Registers the listener called when the button is clicked.
    pub fn on_click(self, listener: L) -> (b: Self)
        ensures
            b@ == (NativeButtonView { on_click: Some(listener), ..self@ }),
    {
        let mut b = self;
        b.on_click = Some(listener);
        b
    }

    /// Sets the bezel style.
    pub fn button_style(self, style: NativeButtonStyle) -> (b: Self)
        ensures
            b@ == (NativeButtonView { button_style: style, ..self@ }),
    {
        let mut b = self;
        b.button_style = style;
        b
    }

    /// Sets the tint.
    pub fn tint(self, tint: NativeButtonTint) -> (b: Self)
        ensures
            b@ == (NativeButtonView { tint: Some(tint), ..self@ }),
    {
        let mut b = self;
        b.tint = Some(tint);
        b
    }

    /// Sets whether the button is disabled.
    pub fn disabled(self, disabled: bool) -> (b: Self)
        ensures
            b@ == (NativeButtonView { disabled: disabled, ..self@ }),
    {
        let mut b = self;
        b.disabled = disabled;
        b
    }

    /// The identifier of the element.
    pub fn id(&self) -> (id: ElementId)
        ensures
            id@ == self@.id,
    {
        self.id.duplicate()
    }

    /// Width and height requested where the style leaves them automatic: eight
    /// pixels per label byte plus 24, at least 80, by 24 high.
    pub fn intrinsic_size(&self) -> (size: (u64, u64))
        ensures
            size == (label_width(byte_len(self@.label), 24, 80), 24u64),
    {
        (fit_label_width(self.label.as_str(), 24, 80), 24)
    }

    /// The configuration handed to the native layer when the button is painted.
    /// The click listener moves into the configuration; the button keeps the rest.
    pub fn take_config(&mut self) -> (c: ButtonConfig<L>)
        ensures
            final(self)@ == (NativeButtonView { on_click: None, ..old(self)@ }),
            c.title@ == old(self)@.label,
            c.sf_symbol is None,
            c.tooltip is None,
            c.style == native_button_style(old(self)@.button_style),
            c.tint == old(self)@.tint,
            c.enabled == !old(self)@.disabled,
            c.on_click == old(self)@.on_click,
    {
        let on_click = self.on_click.take();
        ButtonConfig {
            title: self.label.clone(),
            sf_symbol: None,
            tooltip: None,
            style: ButtonStyle::from(self.button_style),
            tint: self.tint,
            enabled: !self.disabled,
            on_click,
        }
    }
}

} // verus!
