//! Icon-only buttons showing an SF Symbol: the element builder and the
//! configuration it hands to the native layer.

use vstd::prelude::*;
use crate::button::{native_button_style, ButtonConfig, ButtonStyle, NativeButtonStyle, NativeButtonTint};
use crate::element_id::{ElementId, ElementIdView};
use crate::text::opt_view;

verus! {

/// A native icon button; `L` is the type of its click listener.
pub struct NativeIconButton<L> {
    id: ElementId,
    sf_symbol: String,
    tooltip_label: Option<String>,
    on_click: Option<L>,
    button_style: NativeButtonStyle,
    tint: Option<NativeButtonTint>,
    disabled: bool,
}

/// The state of a [`NativeIconButton`].
pub struct NativeIconButtonView<L> {
    pub id: ElementIdView,
    pub sf_symbol: Seq<char>,
    pub tooltip_label: Option<Seq<char>>,
    pub on_click: Option<L>,
    pub button_style: NativeButtonStyle,
    pub tint: Option<NativeButtonTint>,
    pub disabled: bool,
}

impl<L> View for NativeIconButton<L> {
    type V = NativeIconButtonView<L>;

    closed spec fn view(&self) -> NativeIconButtonView<L> {
        NativeIconButtonView {
            id: self.id@,
            sf_symbol: self.sf_symbol@,
            tooltip_label: opt_view(self.tooltip_label),
            on_click: self.on_click,
            button_style: self.button_style,
            tint: self.tint,
            disabled: self.disabled,
        }
    }
}

/// Creates a borderless, enabled, untinted icon button with no tooltip or listener.
pub fn native_icon_button<L>(id: ElementId, sf_symbol: &str) -> (b: NativeIconButton<L>)
    ensures
        b@ == (NativeIconButtonView::<L> {
            id: id@,
            sf_symbol: sf_symbol@,
            tooltip_label: None,
            on_click: None,
            button_style: NativeButtonStyle::Borderless,
            tint: None,
            disabled: false,
        }),
{
    NativeIconButton {
        id,
        sf_symbol: sf_symbol.to_owned(),
        tooltip_label: None,
        on_click: None,
        button_style: NativeButtonStyle::Borderless,
        tint: None,
        disabled: false,
    }
}

impl<L> NativeIconButton<L> {
    /// Registers the listener called when the button is clicked.
    pub fn on_click(self, listener: L) -> (b: Self)
        ensures
            b@ == (NativeIconButtonView { on_click: Some(listener), ..self@ }),
    {
        let mut b = self;
        b.on_click = Some(listener);
        b
    }

    /// Sets the tooltip.
    pub fn tooltip(self, label: &str) -> (b: Self)
        ensures
            b@ == (NativeIconButtonView { tooltip_label: Some(label@), ..self@ }),
    {
        let mut b = self;
        b.tooltip_label = Some(label.to_owned());
        b
    }

    /// Sets the bezel style.
    pub fn button_style(self, style: NativeButtonStyle) -> (b: Self)
        ensures
            b@ == (NativeIconButtonView { button_style: style, ..self@ }),
    {
        let mut b = self;
        b.button_style = style;
        b
    }

    /// Sets the tint.
    pub fn tint(self, tint: NativeButtonTint) -> (b: Self)
        ensures
            b@ == (NativeIconButtonView { tint: Some(tint), ..self@ }),
    {
        let mut b = self;
        b.tint = Some(tint);
        b
    }

    /// Sets whether the button is disabled.
    pub fn disabled(self, disabled: bool) -> (b: Self)
        ensures
            b@ == (NativeIconButtonView { disabled: disabled, ..self@ }),
    {
        let mut b = self;
        b.disabled = disabled;
        b
    }

    /// The identifier of the element.
    pub fn id(&self) -> (id: ElementId)
        ensures
            id@ == self@.id,
    {
        self.id.duplicate()
    }

    /// Width and height requested where the style leaves them automatic.
    pub fn intrinsic_size(&self) -> (size: (u64, u64))
        ensures
            size == (28u64, 28u64),
    {
        (28, 28)
    }

    /// The configuration handed to the native layer when painted: an empty
    /// title, the symbol and the tooltip. The listener moves into it.
    pub fn take_config(&mut self) -> (c: ButtonConfig<L>)
        ensures
            final(self)@ == (NativeIconButtonView { on_click: None, ..old(self)@ }),
            c.title@ == Seq::<char>::empty(),
            c.sf_symbol.is_some() && c.sf_symbol->0@ == old(self)@.sf_symbol,
            opt_view(c.tooltip) == old(self)@.tooltip_label,
            c.style == native_button_style(old(self)@.button_style),
            c.tint == old(self)@.tint,
            c.enabled == !old(self)@.disabled,
            c.on_click == old(self)@.on_click,
    {
        let on_click = self.on_click.take();
        let tooltip = match &self.tooltip_label {
            Some(t) => Some(t.clone()),
            None => None,
        };
        ButtonConfig {
            title: String::new(),
            sf_symbol: Some(self.sf_symbol.clone()),
            tooltip,
            style: ButtonStyle::from(self.button_style),
            tint: self.tint,
            enabled: !self.disabled,
            on_click,
        }
    }
}

} // verus!
