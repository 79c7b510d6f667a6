//! State and presentation logic of the iOS demo views: tap counting, the
//! theme, the scroll list, and the text input field.

use vstd::prelude::*;
use crate::ios_platform::WindowAppearance;
use crate::text::{decimal, decimal_string, str_eq};

verus! {

/// State of the touch demo: which box was tapped last, and how many taps.
pub struct TouchDemoState {
    pub tapped_box: Option<usize>,
    pub tap_count: usize,
}

impl TouchDemoState {
    /// No box tapped yet.
    pub fn new() -> (s: Self)
        ensures
            s.tapped_box is None,
            s.tap_count == 0,
    {
        TouchDemoState { tapped_box: None, tap_count: 0 }
    }

    /// Records a tap on box `index`.
    pub fn tap(&mut self, index: usize)
        requires
            old(self).tap_count < usize::MAX,
        ensures
            final(self).tapped_box == Some(index),
            final(self).tap_count == old(self).tap_count + 1,
    {
        self.tapped_box = Some(index);
        self.tap_count = self.tap_count + 1;
    }

    /// The color of box `index`: its active color when it was tapped last.
    pub fn box_color(&self, index: usize, base: u32, active: u32) -> (c: u32)
        ensures
            c == (if self.tapped_box == Some(index) { active } else { base }),
    {
        if self.tapped_box == Some(index) {
            active
        } else {
            base
        }
    }
}

/// The touch demo's heading: `Tap a box! (taps: N)`.
pub fn tap_count_label(tap_count: usize) -> (s: String)
    ensures
        s@ == "Tap a box! (taps: "@ + decimal(tap_count as nat) + ")"@,
{
    let mut s = String::from_str("Tap a box! (taps: ");
    let n = decimal_string(tap_count as u64);
    s.append(n.as_str());
    s.append(")");
    s
}

/// State of the combined demo: how many taps, and the name of the box tapped last.
pub struct CombinedDemoState {
    pub tap_count: usize,
    pub last_tapped: Option<&'static str>,
}

impl CombinedDemoState {
    /// No taps yet.
    pub fn new() -> (s: Self)
        ensures
            s.tap_count == 0,
            s.last_tapped is None,
    {
        CombinedDemoState { tap_count: 0, last_tapped: None }
    }

    /// Records a tap on the box named `name`.
    pub fn tap(&mut self, name: &'static str)
        requires
            old(self).tap_count < usize::MAX,
        ensures
            final(self).tap_count == old(self).tap_count + 1,
            final(self).last_tapped == Some(name),
    {
        self.tap_count = self.tap_count + 1;
        self.last_tapped = Some(name);
    }

    /// The status line: `Taps: N  Last: NAME`, with `none` before any tap.
    pub fn status_label(&self) -> (s: String)
        ensures
            s@ == "Taps: "@ + decimal(self.tap_count as nat) + "  Last: "@ + (match self.last_tapped {
                Some(n) => n@,
                None => "none"@,
            }),
    {
        let mut s = String::from_str("Taps: ");
        let n = decimal_string(self.tap_count as u64);
        s.append(n.as_str());
        s.append("  Last: ");
        match self.last_tapped {
            Some(name) => s.append(name),
            None => s.append("none"),
        }
        s
    }
}

/// The colors of the combined demo for an appearance.
#[derive(Clone, Copy, Debug, PartialEq, Eq, Structural)]
pub struct DemoTheme {
    pub background: u32,
    pub text: u32,
    pub panel: u32,
    pub muted_text: u32,
}

/// Whether an appearance is dark.
pub open spec fn is_dark(a: WindowAppearance) -> bool {
    a == WindowAppearance::Dark || a == WindowAppearance::VibrantDark
}

/// The dark palette for dark appearances, the light one otherwise.
pub fn demo_theme(appearance: WindowAppearance) -> (t: DemoTheme)
    ensures
        is_dark(appearance) ==> t == (DemoTheme {
            background: 0x1e1e2e,
            text: 0xcdd6f4,
            panel: 0x313244,
            muted_text: 0x6c7086,
        }),
        !is_dark(appearance) ==> t == (DemoTheme {
            background: 0xeff1f5,
            text: 0x4c4f69,
            panel: 0xccd0da,
            muted_text: 0x9ca0b0,
        }),
{
    let dark = match appearance {
        WindowAppearance::Dark | WindowAppearance::VibrantDark => true,
        _ => false,
    };
    if dark {
        DemoTheme { background: 0x1e1e2e, text: 0xcdd6f4, panel: 0x313244, muted_text: 0x6c7086 }
    } else {
        DemoTheme { background: 0xeff1f5, text: 0x4c4f69, panel: 0xccd0da, muted_text: 0x9ca0b0 }
    }
}

/// The palette the scroll demo cycles through.
pub open spec fn scroll_palette() -> Seq<u32> {
    seq![
        0xf38ba8u32,
        0xa6e3a1,
        0x89b4fa,
        0xfab387,
        0xcba6f7,
        0xf9e2af,
        0x94e2d5,
        0xf2cdcd,
        0x89dceb,
        0xb4befe,
    ]
}

/// The color of row `index` of the scroll demo: the palette, cycled.
pub fn scroll_item_color(index: usize) -> (c: u32)
    ensures
        c == scroll_palette()[(index % 10) as int],
{
    let colors: [u32; 10] = [
        0xf38ba8,
        0xa6e3a1,
        0x89b4fa,
        0xfab387,
        0xcba6f7,
        0xf9e2af,
        0x94e2d5,
        0xf2cdcd,
        0x89dceb,
        0xb4befe,
    ];
    assert(colors@ =~= scroll_palette());
    colors[index % 10]
}

/// The label of row `index` of the scroll demo: `Item N`, counting from one.
pub fn scroll_item_label(index: usize) -> (s: String)
    requires
        index < usize::MAX,
    ensures
        s@ == "Item "@ + decimal(index as nat + 1),
{
    let mut s = String::from_str("Item ");
    let n = decimal_string((index + 1) as u64);
    s.append(n.as_str());
    s
}

/// `String::pop`: removes the last character of `s` and returns it; an empty
/// string is left as it is and gives `None`.
#[verifier::external_body]
fn string_pop(s: &mut String) -> (c: Option<char>)
    ensures
        old(s)@.len() == 0 ==> c is None && final(s)@ == old(s)@,
        old(s)@.len() > 0 ==> c == Some(old(s)@.last()) && final(s)@ == old(s)@.drop_last(),
{
    s.pop()
}

/// What a key press did to the text input demo.
#[derive(Clone, Copy, Debug, PartialEq, Eq, Structural)]
pub enum KeyOutcome {
    /// The text was edited; the view redraws.
    Edited,
    /// The text was submitted; it is logged, not changed.
    Submitted,
    /// The key had no effect.
    Ignored,
}

/// Applies a key press to the demo's text: backspace removes the last
/// character, enter submits, and any other key with a character appends it.
pub fn handle_text_input_key(text: &mut String, key: &str, key_char: Option<&str>) -> (o: KeyOutcome)
    ensures
        key@ == "backspace"@ ==> o == KeyOutcome::Edited && final(text)@ == (if old(text)@.len() == 0 {
            old(text)@
        } else {
            old(text)@.drop_last()
        }),
        key@ != "backspace"@ && key@ == "enter"@ ==> o == KeyOutcome::Submitted && final(text)@
            == old(text)@,
        key@ != "backspace"@ && key@ != "enter"@ ==> (match key_char {
            Some(ch) => o == KeyOutcome::Edited && final(text)@ == old(text)@ + ch@,
            None => o == KeyOutcome::Ignored && final(text)@ == old(text)@,
        }),
{
    if str_eq(key, "backspace") {
        let _ = string_pop(text);
        KeyOutcome::Edited
    } else if str_eq(key, "enter") {
        KeyOutcome::Submitted
    } else {
        match key_char {
            Some(ch) => {
                text.append(ch);
                KeyOutcome::Edited
            },
            None => KeyOutcome::Ignored,
        }
    }
}

/// What the text field shows: a prompt while empty and unfocused, a caret
/// alone while empty and focused, else the text followed by the caret.
pub fn display_text(text: &str, focused: bool) -> (s: String)
    ensures
        s@ == (if text@.len() == 0 && !focused {
            "Tap here to type..."@
        } else if text@.len() == 0 {
            "|"@
        } else {
            text@ + "|"@
        }),
{
    if text.is_empty() && !focused {
        String::from_str("Tap here to type...")
    } else if text.is_empty() {
        String::from_str("|")
    } else {
        let mut s = String::from_str(text);
        s.append("|");
        s
    }
}

/// The border and text colors of the text field.
pub fn text_field_colors(text_is_empty: bool, focused: bool) -> (c: (u32, u32))
    ensures
        c.0 == (if focused { 0x89b4fau32 } else { 0x585b70u32 }),
        c.1 == (if text_is_empty && !focused { 0x6c7086u32 } else { 0xcdd6f4u32 }),
{
    let border: u32 = if focused { 0x89b4fa } else { 0x585b70 };
    let text: u32 = if text_is_empty && !focused { 0x6c7086 } else { 0xcdd6f4 };
    (border, text)
}

} // verus!
