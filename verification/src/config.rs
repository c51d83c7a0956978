//! Typed, validated configuration for the clock overlay.
//!
//! A `Config` is a whole-value snapshot: it is produced fully populated and
//! clamped, and consumers replace it as a whole rather than mutating fields
//! in place.

use vstd::prelude::*;

use crate::hotkey::parse_hotkey_spec;

verus! {

/// Anchor corner of the overlay window on its monitor.
#[derive(Clone, Copy, Debug, PartialEq, Eq, Structural)]
pub enum Position {
    TopRight,
    TopLeft,
    BottomRight,
    BottomLeft,
}

/// Decoration applied when the time string is drawn.
#[derive(Clone, Copy, Debug, PartialEq, Eq, Structural)]
pub enum TextStyle {
    Plain,
    Outline,
    Shadow,
}

impl Default for TextStyle {
    fn default() -> (r: Self)
        ensures
            r == TextStyle::Outline,
    {
        TextStyle::Outline
    }
}

/// Overlay configuration snapshot.
#[derive(Debug)]
pub struct Config {
    pub position: Position,
    pub format_24h: bool,
    pub show_seconds: bool,
    /// Pixel height of the clock text; kept within 10..=60.
    pub font_size: u32,
    /// Window opacity in percent; kept within 25..=100.
    pub opacity: u8,
    /// Hotkey in the form `Modifier[+Modifier]+Key`, e.g. "Ctrl+F12".
    pub hotkey: String,
    pub start_with_windows: bool,
    pub text_style: TextStyle,
    /// Text color as an RGB triple.
    pub text_color: [u8; 3],
    /// Outline or shadow color as an RGB triple.
    pub outline_color: [u8; 3],
}

impl Config {
    /// The numeric invariants every loaded configuration satisfies.
    pub open spec fn wf(&self) -> bool {
        &&& 10 <= self.font_size <= 60
        &&& 25 <= self.opacity <= 100
    }
}

/// Mathematical equality of two configuration snapshots; strings are compared
/// by their character content.
pub open spec fn config_eq(a: Config, b: Config) -> bool {
    &&& a.position == b.position
    &&& a.format_24h == b.format_24h
    &&& a.show_seconds == b.show_seconds
    &&& a.font_size == b.font_size
    &&& a.opacity == b.opacity
    &&& a.hotkey@ == b.hotkey@
    &&& a.start_with_windows == b.start_with_windows
    &&& a.text_style == b.text_style
    &&& a.text_color[0] == b.text_color[0]
    &&& a.text_color[1] == b.text_color[1]
    &&& a.text_color[2] == b.text_color[2]
    &&& a.outline_color[0] == b.outline_color[0]
    &&& a.outline_color[1] == b.outline_color[1]
    &&& a.outline_color[2] == b.outline_color[2]
}

impl Clone for Config {
    fn clone(&self) -> (res: Self)
        ensures
            res == *self,
    {
        Config {
            position: self.position,
            format_24h: self.format_24h,
            show_seconds: self.show_seconds,
            font_size: self.font_size,
            opacity: self.opacity,
            hotkey: self.hotkey.clone(),
            start_with_windows: self.start_with_windows,
            text_style: self.text_style,
            text_color: self.text_color,
            outline_color: self.outline_color,
        }
    }
}

impl PartialEq for Config {
    fn eq(&self, other: &Self) -> (r: bool) {
        self.position == other.position && self.format_24h == other.format_24h
            && self.show_seconds == other.show_seconds && self.font_size == other.font_size
            && self.opacity == other.opacity && self.hotkey == other.hotkey
            && self.start_with_windows == other.start_with_windows
            && self.text_style == other.text_style
            && self.text_color[0] == other.text_color[0]
            && self.text_color[1] == other.text_color[1]
            && self.text_color[2] == other.text_color[2]
            && self.outline_color[0] == other.outline_color[0]
            && self.outline_color[1] == other.outline_color[1]
            && self.outline_color[2] == other.outline_color[2]
    }
}

impl vstd::std_specs::cmp::PartialEqSpecImpl for Config {
    open spec fn obeys_eq_spec() -> bool {
        true
    }

    open spec fn eq_spec(&self, other: &Self) -> bool {
        config_eq(*self, *other)
    }
}

/// Default color of the clock text: white.
pub fn default_text_color() -> (r: [u8; 3])
    ensures
        r[0] == 255 && r[1] == 255 && r[2] == 255,
{
    [255, 255, 255]
}

/// Default color of the outline or shadow: black.
pub fn default_outline_color() -> (r: [u8; 3])
    ensures
        r[0] == 0 && r[1] == 0 && r[2] == 0,
{
    [0, 0, 0]
}

/// What the schema's default configuration looks like.
pub open spec fn is_default_config(c: Config) -> bool {
    &&& c.position == Position::TopRight
    &&& c.format_24h == true
    &&& c.show_seconds == false
    &&& c.font_size == 22
    &&& c.opacity == 80
    &&& c.hotkey@ == "Ctrl+F12"@
    &&& c.start_with_windows == false
    &&& c.text_style == TextStyle::Outline
    &&& c.text_color[0] == 255 && c.text_color[1] == 255 && c.text_color[2] == 255
    &&& c.outline_color[0] == 0 && c.outline_color[1] == 0 && c.outline_color[2] == 0
}

impl Default for Config {
    fn default() -> (r: Self)
        ensures
            is_default_config(r),
            r.wf(),
    {
        Config {
            position: Position::TopRight,
            format_24h: true,
            show_seconds: false,
            font_size: 22,
            opacity: 80,
            hotkey: String::from_str("Ctrl+F12"),
            start_with_windows: false,
            text_style: TextStyle::Outline,
            text_color: default_text_color(),
            outline_color: default_outline_color(),
        }
    }
}

/// Packs an RGB triple into the renderer's color representation:
/// red in the low byte, then green, then blue.
pub open spec fn spec_colorref(rgb: [u8; 3]) -> u32 {
    (rgb[0] as u32) | ((rgb[1] as u32) << 8) | ((rgb[2] as u32) << 16)
}

impl Config {
    /// The text color packed for the renderer.
    pub fn text_colorref(&self) -> (r: u32)
        ensures
            r == spec_colorref(self.text_color),
    {
        (self.text_color[0] as u32) | ((self.text_color[1] as u32) << 8) | ((self.text_color[2]
            as u32) << 16)
    }

    /// The outline color packed for the renderer.
    pub fn outline_colorref(&self) -> (r: u32)
        ensures
            r == spec_colorref(self.outline_color),
    {
        (self.outline_color[0] as u32) | ((self.outline_color[1] as u32) << 8)
            | ((self.outline_color[2] as u32) << 16)
    }

    /// The stored hotkey parsed into its modifier bitmask and virtual-key
    /// code, falling back to Ctrl+F12 when the string does not name a
    /// supported combination.
    pub fn parsed_hotkey(&self) -> (r: (u32, u32))
        ensures
            parse_hotkey_spec(self.hotkey@) matches Some(p) ==> r == p,
            parse_hotkey_spec(self.hotkey@) is None ==> r == (2u32, 123u32),
    {
        match crate::hotkey::parse_hotkey(self.hotkey.as_str()) {
            Some(p) => p,
            None => (2, 123),
        }
    }
}

} // verus!
