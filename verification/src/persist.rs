//! Loading and saving the configuration as a key/value document.
//!
//! Loading is total: unreadable or unparsable text, missing keys,
//! wrong-typed keys and out-of-range numbers all resolve to a fully
//! populated, clamped configuration, never an error. A legacy string-valued
//! font size ("small"/"medium"/"large") decodes to its numeric pixel size.
//! The document syntax itself is TOML, parsed by the `toml` crate; this
//! module walks the parsed document and owns every rule about the schema.

use vstd::prelude::*;

use crate::config::{is_default_config, Config, Position, TextStyle};

verus! {

/// The plain values a document holds for each schema key, before
/// defaulting and clamping. The font size is captured both ways a document
/// can spell it: as a number or as a legacy size name.
pub struct RawConfig {
    pub position: Option<String>,
    pub format_24h: Option<bool>,
    pub show_seconds: Option<bool>,
    pub font_size_number: Option<i64>,
    pub font_size_legacy: Option<String>,
    pub opacity: Option<i64>,
    pub hotkey: Option<String>,
    pub start_with_windows: Option<bool>,
    pub text_style: Option<String>,
    pub text_color: Option<Vec<i64>>,
    pub outline_color: Option<Vec<i64>>,
}

pub uninterp spec fn spec_doc_ok(s: Seq<char>) -> bool;

pub uninterp spec fn spec_key_str(s: Seq<char>, k: Seq<char>) -> Option<Seq<char>>;

pub uninterp spec fn spec_key_bool(s: Seq<char>, k: Seq<char>) -> Option<bool>;

pub uninterp spec fn spec_key_int(s: Seq<char>, k: Seq<char>) -> Option<i64>;

pub uninterp spec fn spec_key_ints(s: Seq<char>, k: Seq<char>) -> Option<Seq<i64>>;

/// Relies on the `toml` crate's document parser, `str::parse::<toml::Table>`:
/// whether the text is a valid TOML document. A function of the text alone,
/// named `spec_doc_ok`.
#[verifier::external_body]
fn doc_ok(source: &str) -> (r: bool)
    ensures
        r == spec_doc_ok(source@),
{
    source.parse::<toml::Table>().is_ok()
}

/// Relies on the `toml` crate: parse the document, look the key up with
/// `Map::get`, read it with `Value::as_str`. The string a document's key
/// holds is a function of the text alone, named `spec_key_str`; nothing
/// when the document is invalid or the key is absent or not a string.
#[verifier::external_body]
fn key_str(source: &str, key: &str) -> (r: Option<String>)
    ensures
        r is None <==> spec_key_str(source@, key@) is None,
        r matches Some(v) ==> spec_key_str(source@, key@) == Some(v@),
{
    let t = match source.parse::<toml::Table>() {
        Ok(t) => t,
        Err(_) => {
            return None;
        },
    };
    t.get(key).and_then(toml::Value::as_str).map(str::to_owned)
}

/// Relies on the `toml` crate: parse, `Map::get`, `Value::as_bool`. The
/// boolean a document's key holds, named `spec_key_bool`.
#[verifier::external_body]
fn key_bool(source: &str, key: &str) -> (r: Option<bool>)
    ensures
        r == spec_key_bool(source@, key@),
{
    let t = match source.parse::<toml::Table>() {
        Ok(t) => t,
        Err(_) => {
            return None;
        },
    };
    t.get(key).and_then(toml::Value::as_bool)
}

/// Relies on the `toml` crate: parse, `Map::get`, `Value::as_integer`. The
/// integer a document's key holds, named `spec_key_int`.
#[verifier::external_body]
fn key_int(source: &str, key: &str) -> (r: Option<i64>)
    ensures
        r == spec_key_int(source@, key@),
{
    let t = match source.parse::<toml::Table>() {
        Ok(t) => t,
        Err(_) => {
            return None;
        },
    };
    t.get(key).and_then(toml::Value::as_integer)
}

/// Relies on the `toml` crate: parse, `Map::get`, `Value::as_array`, then
/// `Value::as_integer` on each element. The integer array a document's key
/// holds, named `spec_key_ints`; nothing when any element is not an
/// integer.
#[verifier::external_body]
fn key_ints(source: &str, key: &str) -> (r: Option<Vec<i64>>)
    ensures
        r is None <==> spec_key_ints(source@, key@) is None,
        r matches Some(v) ==> spec_key_ints(source@, key@) == Some(v@),
{
    let t = match source.parse::<toml::Table>() {
        Ok(t) => t,
        Err(_) => {
            return None;
        },
    };
    t.get(key).and_then(toml::Value::as_array).and_then(
        |a| a.iter().map(toml::Value::as_integer).collect(),
    )
}

/// Collects the plain values the document holds for each schema key, or
/// nothing when the text is not a valid document.
fn extract_from_source(source: &str) -> (r: Option<RawConfig>)
    ensures
        r is Some <==> spec_doc_ok(source@),
        r matches Some(raw) ==> (raw.position is None <==> spec_key_str(source@, "position"@)
            is None),
        r matches Some(raw) ==> (raw.position matches Some(p) ==> spec_key_str(
            source@,
            "position"@,
        ) == Some(p@)),
        r matches Some(raw) ==> raw.format_24h == spec_key_bool(source@, "format_24h"@),
        r matches Some(raw) ==> raw.show_seconds == spec_key_bool(source@, "show_seconds"@),
        r matches Some(raw) ==> raw.font_size_number == spec_key_int(source@, "font_size"@),
        r matches Some(raw) ==> (raw.font_size_legacy is None <==> spec_key_str(
            source@,
            "font_size"@,
        ) is None),
        r matches Some(raw) ==> (raw.font_size_legacy matches Some(p) ==> spec_key_str(
            source@,
            "font_size"@,
        ) == Some(p@)),
        r matches Some(raw) ==> raw.opacity == spec_key_int(source@, "opacity"@),
        r matches Some(raw) ==> (raw.hotkey is None <==> spec_key_str(source@, "hotkey"@)
            is None),
        r matches Some(raw) ==> (raw.hotkey matches Some(p) ==> spec_key_str(source@, "hotkey"@)
            == Some(p@)),
        r matches Some(raw) ==> raw.start_with_windows == spec_key_bool(
            source@,
            "start_with_windows"@,
        ),
        r matches Some(raw) ==> (raw.text_style is None <==> spec_key_str(
            source@,
            "text_style"@,
        ) is None),
        r matches Some(raw) ==> (raw.text_style matches Some(p) ==> spec_key_str(
            source@,
            "text_style"@,
        ) == Some(p@)),
        r matches Some(raw) ==> (raw.text_color is None <==> spec_key_ints(
            source@,
            "text_color"@,
        ) is None),
        r matches Some(raw) ==> (raw.text_color matches Some(v) ==> spec_key_ints(
            source@,
            "text_color"@,
        ) == Some(v@)),
        r matches Some(raw) ==> (raw.outline_color is None <==> spec_key_ints(
            source@,
            "outline_color"@,
        ) is None),
        r matches Some(raw) ==> (raw.outline_color matches Some(v) ==> spec_key_ints(
            source@,
            "outline_color"@,
        ) == Some(v@)),
{
    if !doc_ok(source) {
        return None;
    }
    Some(
        RawConfig {
            position: key_str(source, "position"),
            format_24h: key_bool(source, "format_24h"),
            show_seconds: key_bool(source, "show_seconds"),
            font_size_number: key_int(source, "font_size"),
            font_size_legacy: key_str(source, "font_size"),
            opacity: key_int(source, "opacity"),
            hotkey: key_str(source, "hotkey"),
            start_with_windows: key_bool(source, "start_with_windows"),
            text_style: key_str(source, "text_style"),
            text_color: key_ints(source, "text_color"),
            outline_color: key_ints(source, "outline_color"),
        },
    )
}

/// String equality on character content.
fn str_eq(a: &str, b: &str) -> (r: bool)
    ensures
        r == (a@ == b@),
{
    let n = a.unicode_len();
    if b.unicode_len() != n {
        return false;
    }
    let mut i: usize = 0;
    while i < n
        invariant
            0 <= i <= n,
            n == a@.len(),
            n == b@.len(),
            forall|j: int| 0 <= j < i ==> a@[j] == b@[j],
        decreases n - i,
    {
        if a.get_char(i) != b.get_char(i) {
            return false;
        }
        i = i + 1;
    }
    proof {
        assert(a@ =~= b@);
    }
    true
}

/// The position a document value names, written kebab-case.
pub open spec fn position_of_name(s: Seq<char>) -> Option<Position> {
    if s == "top-right"@ {
        Some(Position::TopRight)
    } else if s == "top-left"@ {
        Some(Position::TopLeft)
    } else if s == "bottom-right"@ {
        Some(Position::BottomRight)
    } else if s == "bottom-left"@ {
        Some(Position::BottomLeft)
    } else {
        None
    }
}

/// The document name of a position, written kebab-case.
pub open spec fn position_name(p: Position) -> Seq<char> {
    match p {
        Position::TopRight => "top-right"@,
        Position::TopLeft => "top-left"@,
        Position::BottomRight => "bottom-right"@,
        Position::BottomLeft => "bottom-left"@,
    }
}

/// The text style a document value names.
pub open spec fn style_of_name(s: Seq<char>) -> Option<TextStyle> {
    if s == "none"@ {
        Some(TextStyle::Plain)
    } else if s == "outline"@ {
        Some(TextStyle::Outline)
    } else if s == "shadow"@ {
        Some(TextStyle::Shadow)
    } else {
        None
    }
}

/// The document name of a text style.
pub open spec fn style_name(t: TextStyle) -> Seq<char> {
    match t {
        TextStyle::Plain => "none"@,
        TextStyle::Outline => "outline"@,
        TextStyle::Shadow => "shadow"@,
    }
}

fn position_of_name_exec(s: &str) -> (r: Option<Position>)
    ensures
        r == position_of_name(s@),
{
    if str_eq(s, "top-right") {
        Some(Position::TopRight)
    } else if str_eq(s, "top-left") {
        Some(Position::TopLeft)
    } else if str_eq(s, "bottom-right") {
        Some(Position::BottomRight)
    } else if str_eq(s, "bottom-left") {
        Some(Position::BottomLeft)
    } else {
        None
    }
}

fn style_of_name_exec(s: &str) -> (r: Option<TextStyle>)
    ensures
        r == style_of_name(s@),
{
    if str_eq(s, "none") {
        Some(TextStyle::Plain)
    } else if str_eq(s, "outline") {
        Some(TextStyle::Outline)
    } else if str_eq(s, "shadow") {
        Some(TextStyle::Shadow)
    } else {
        None
    }
}

/// A font size clamped into the valid range 10..=60.
pub open spec fn spec_clamp_font(v: int) -> u32 {
    if v < 10 {
        10u32
    } else if v > 60 {
        60u32
    } else {
        v as u32
    }
}

/// An opacity clamped into the valid range 25..=100.
pub open spec fn spec_clamp_opacity(v: int) -> u8 {
    if v < 25 {
        25u8
    } else if v > 100 {
        100u8
    } else {
        v as u8
    }
}

/// The pixel size a legacy font-size name decodes to; an unknown name
/// falls back to the default size.
pub open spec fn spec_legacy_font(s: Seq<char>) -> u32 {
    if s == "small"@ {
        16u32
    } else if s == "medium"@ {
        22u32
    } else if s == "large"@ {
        30u32
    } else {
        22u32
    }
}

/// An RGB triple as a document spells it: three integers, each a byte.
pub open spec fn is_rgb(v: Seq<i64>) -> bool {
    v.len() == 3 && (forall|i: int| 0 <= i < 3 ==> 0 <= #[trigger] v[i] <= 255)
}

/// Whether a document supplied a usable RGB triple.
pub open spec fn rgb_given(o: Option<Vec<i64>>) -> bool {
    o matches Some(v) && is_rgb(v@)
}

/// Whether a named document key supplied a usable RGB triple.
pub open spec fn rgb_named(o: Option<Seq<i64>>) -> bool {
    o matches Some(v) && is_rgb(v)
}

/// How a configuration resolves from the raw values of a document: each
/// field is the raw value where one is present and usable, defaulted
/// where it is absent or unusable, and clamped into range.
pub open spec fn resolves_to(raw: RawConfig, c: Config) -> bool {
    &&& c.wf()
    &&& (raw.position matches Some(s) ==> (position_of_name(s@) matches Some(p) ==> c.position
        == p))
    &&& (raw.position matches Some(s) ==> (position_of_name(s@) is None ==> c.position
        == Position::TopRight))
    &&& (raw.position is None ==> c.position == Position::TopRight)
    &&& (raw.format_24h matches Some(b) ==> c.format_24h == b)
    &&& (raw.format_24h is None ==> c.format_24h == true)
    &&& (raw.show_seconds matches Some(b) ==> c.show_seconds == b)
    &&& (raw.show_seconds is None ==> c.show_seconds == false)
    &&& (raw.font_size_number matches Some(n) ==> c.font_size == spec_clamp_font(n as int))
    &&& (raw.font_size_legacy matches Some(s) ==> (raw.font_size_number is None ==> c.font_size
        == spec_legacy_font(s@)))
    &&& (raw.font_size_number is None && raw.font_size_legacy is None ==> c.font_size == 22)
    &&& (raw.opacity matches Some(n) ==> c.opacity == spec_clamp_opacity(n as int))
    &&& (raw.opacity is None ==> c.opacity == 80)
    &&& (raw.hotkey matches Some(s) ==> c.hotkey@ == s@)
    &&& (raw.hotkey is None ==> c.hotkey@ == "Ctrl+F12"@)
    &&& (raw.start_with_windows matches Some(b) ==> c.start_with_windows == b)
    &&& (raw.start_with_windows is None ==> c.start_with_windows == false)
    &&& (raw.text_style matches Some(s) ==> (style_of_name(s@) matches Some(t) ==> c.text_style
        == t))
    &&& (raw.text_style matches Some(s) ==> (style_of_name(s@) is None ==> c.text_style
        == TextStyle::Outline))
    &&& (raw.text_style is None ==> c.text_style == TextStyle::Outline)
    &&& (raw.text_color matches Some(v) ==> (is_rgb(v@) ==> c.text_color[0] == v@[0]
        && c.text_color[1] == v@[1] && c.text_color[2] == v@[2]))
    &&& (!rgb_given(raw.text_color) ==> c.text_color[0] == 255 && c.text_color[1] == 255
        && c.text_color[2] == 255)
    &&& (raw.outline_color matches Some(v) ==> (is_rgb(v@) ==> c.outline_color[0] == v@[0]
        && c.outline_color[1] == v@[1] && c.outline_color[2] == v@[2]))
    &&& (!rgb_given(raw.outline_color) ==> c.outline_color[0] == 0 && c.outline_color[1] == 0
        && c.outline_color[2] == 0)
}

fn clamp_font_exec(v: i64) -> (r: u32)
    ensures
        r == spec_clamp_font(v as int),
{
    if v < 10 {
        10
    } else if v > 60 {
        60
    } else {
        v as u32
    }
}

fn clamp_opacity_exec(v: i64) -> (r: u8)
    ensures
        r == spec_clamp_opacity(v as int),
{
    if v < 25 {
        25
    } else if v > 100 {
        100
    } else {
        v as u8
    }
}

/// Resolves the raw values of a document into a fully populated, clamped
/// configuration: every missing, unknown or out-of-range value falls back
/// to its schema default or is clamped into range.
/// How a loaded configuration follows from the document text itself, over
/// the named per-key extractions: each field is the value its key holds
/// where one is present and usable, defaulted where it is absent or
/// unusable, and clamped into range.
pub open spec fn loaded_from(s: Seq<char>, c: Config) -> bool {
    &&& c.wf()
    &&& (spec_key_str(s, "position"@) matches Some(v) ==> (position_of_name(v) matches Some(p)
        ==> c.position == p))
    &&& (spec_key_str(s, "position"@) matches Some(v) ==> (position_of_name(v) is None
        ==> c.position == Position::TopRight))
    &&& (spec_key_str(s, "position"@) is None ==> c.position == Position::TopRight)
    &&& (spec_key_bool(s, "format_24h"@) matches Some(b) ==> c.format_24h == b)
    &&& (spec_key_bool(s, "format_24h"@) is None ==> c.format_24h == true)
    &&& (spec_key_bool(s, "show_seconds"@) matches Some(b) ==> c.show_seconds == b)
    &&& (spec_key_bool(s, "show_seconds"@) is None ==> c.show_seconds == false)
    &&& (spec_key_int(s, "font_size"@) matches Some(n) ==> c.font_size == spec_clamp_font(
        n as int,
    ))
    &&& (spec_key_str(s, "font_size"@) matches Some(v) ==> (spec_key_int(s, "font_size"@)
        is None ==> c.font_size == spec_legacy_font(v)))
    &&& (spec_key_int(s, "font_size"@) is None && spec_key_str(s, "font_size"@) is None
        ==> c.font_size == 22)
    &&& (spec_key_int(s, "opacity"@) matches Some(n) ==> c.opacity == spec_clamp_opacity(
        n as int,
    ))
    &&& (spec_key_int(s, "opacity"@) is None ==> c.opacity == 80)
    &&& (spec_key_str(s, "hotkey"@) matches Some(v) ==> c.hotkey@ == v)
    &&& (spec_key_str(s, "hotkey"@) is None ==> c.hotkey@ == "Ctrl+F12"@)
    &&& (spec_key_bool(s, "start_with_windows"@) matches Some(b) ==> c.start_with_windows == b)
    &&& (spec_key_bool(s, "start_with_windows"@) is None ==> c.start_with_windows == false)
    &&& (spec_key_str(s, "text_style"@) matches Some(v) ==> (style_of_name(v) matches Some(t)
        ==> c.text_style == t))
    &&& (spec_key_str(s, "text_style"@) matches Some(v) ==> (style_of_name(v) is None
        ==> c.text_style == TextStyle::Outline))
    &&& (spec_key_str(s, "text_style"@) is None ==> c.text_style == TextStyle::Outline)
    &&& (spec_key_ints(s, "text_color"@) matches Some(v) ==> (is_rgb(v) ==> c.text_color[0]
        == v[0] && c.text_color[1] == v[1] && c.text_color[2] == v[2]))
    &&& (!rgb_named(spec_key_ints(s, "text_color"@)) ==> c.text_color[0] == 255
        && c.text_color[1] == 255 && c.text_color[2] == 255)
    &&& (spec_key_ints(s, "outline_color"@) matches Some(v) ==> (is_rgb(v)
        ==> c.outline_color[0] == v[0] && c.outline_color[1] == v[1] && c.outline_color[2]
        == v[2]))
    &&& (!rgb_named(spec_key_ints(s, "outline_color"@)) ==> c.outline_color[0] == 0
        && c.outline_color[1] == 0 && c.outline_color[2] == 0)
}

pub fn resolve_config(raw: RawConfig) -> (c: Config)
    ensures
        resolves_to(raw, c),
{
    let position = match &raw.position {
        Some(s) => match position_of_name_exec(s.as_str()) {
            Some(p) => p,
            None => Position::TopRight,
        },
        None => Position::TopRight,
    };
    let format_24h = match raw.format_24h {
        Some(b) => b,
        None => true,
    };
    let show_seconds = match raw.show_seconds {
        Some(b) => b,
        None => false,
    };
    let font_size = match raw.font_size_number {
        Some(n) => clamp_font_exec(n),
        None => match &raw.font_size_legacy {
            Some(s) => {
                if str_eq(s.as_str(), "small") {
                    16
                } else if str_eq(s.as_str(), "medium") {
                    22
                } else if str_eq(s.as_str(), "large") {
                    30
                } else {
                    22
                }
            },
            None => 22,
        },
    };
    let opacity = match raw.opacity {
        Some(n) => clamp_opacity_exec(n),
        None => 80,
    };
    let hotkey = match raw.hotkey {
        Some(s) => s,
        None => String::from_str("Ctrl+F12"),
    };
    let start_with_windows = match raw.start_with_windows {
        Some(b) => b,
        None => false,
    };
    let text_style = match &raw.text_style {
        Some(s) => match style_of_name_exec(s.as_str()) {
            Some(t) => t,
            None => TextStyle::Outline,
        },
        None => TextStyle::Outline,
    };
    let text_color = resolve_rgb(&raw.text_color, [255, 255, 255]);
    let outline_color = resolve_rgb(&raw.outline_color, [0, 0, 0]);
    Config {
        position,
        format_24h,
        show_seconds,
        font_size,
        opacity,
        hotkey,
        start_with_windows,
        text_style,
        text_color,
        outline_color,
    }
}

/// An RGB triple from a document array, or the given default when the
/// array is not exactly three bytes.
fn resolve_rgb(raw: &Option<Vec<i64>>, fallback: [u8; 3]) -> (r: [u8; 3])
    ensures
        raw matches Some(v) ==> (is_rgb(v@) ==> r[0] == v@[0] && r[1] == v@[1] && r[2] == v@[2]),
        !rgb_given(*raw) ==> r[0] == fallback[0] && r[1] == fallback[1] && r[2] == fallback[2],
{
    match raw {
        Some(v) => {
            if v.len() == 3 {
                let a = v[0];
                let b = v[1];
                let c = v[2];
                if 0 <= a && a <= 255 && 0 <= b && b <= 255 && 0 <= c && c <= 255 {
                    [a as u8, b as u8, c as u8]
                } else {
                    fallback
                }
            } else {
                fallback
            }
        },
        None => fallback,
    }
}

impl Config {
    /// Loads a configuration from document text. Loading is total: whatever
    /// the text holds, the result is a fully populated configuration with
    /// its numeric fields clamped into range. Text that is not a valid
    /// document yields exactly the default configuration; otherwise every
    /// field resolves from the document's raw values.
    pub fn load(source: &str) -> (c: Config)
        ensures
            c.wf(),
            !spec_doc_ok(source@) ==> is_default_config(c),
            spec_doc_ok(source@) ==> loaded_from(source@, c),
    {
        match extract_from_source(source) {
            Some(raw) => resolve_config(raw),
            None => Config::default(),
        }
    }
}

/// The hex digit character for a value 0 through 15.
pub open spec fn hex_char(d: int) -> char {
    if d < 10 {
        crate::clock::digit_char(d)
    } else if d == 10 {
        'a'
    } else if d == 11 {
        'b'
    } else if d == 12 {
        'c'
    } else if d == 13 {
        'd'
    } else if d == 14 {
        'e'
    } else {
        'f'
    }
}

/// How one character of a string value is written in a document: quote,
/// backslash and the common control characters get a two-character escape,
/// any other control character (including delete) a four-digit escape,
/// everything else stands as itself.
pub open spec fn escape_char(c: char) -> Seq<char> {
    if c == '\\' {
        seq!['\\', '\\']
    } else if c == '"' {
        seq!['\\', '"']
    } else if c == '\n' {
        seq!['\\', 'n']
    } else if c == '\t' {
        seq!['\\', 't']
    } else if c == '\r' {
        seq!['\\', 'r']
    } else if (c as u32) < 32 || c as u32 == 127 {
        seq!['\\', 'u', '0', '0', hex_char(c as int / 16), hex_char(c as int % 16)]
    } else {
        seq![c]
    }
}

/// A string value as written between quotes in a document.
pub open spec fn spec_escape(s: Seq<char>) -> Seq<char>
    decreases s.len(),
{
    if s.len() == 0 {
        Seq::<char>::empty()
    } else {
        escape_char(s[0]) + spec_escape(s.drop_first())
    }
}

/// Escaping one more character appends that character's escape.
proof fn lemma_escape_push(s: Seq<char>, c: char)
    ensures
        spec_escape(s.push(c)) == spec_escape(s) + escape_char(c),
    decreases s.len(),
{
    let p = s.push(c);
    if s.len() == 0 {
        assert(p.drop_first() =~= s);
        assert(p[0] == c);
        assert(escape_char(c) + spec_escape(s) =~= escape_char(c));
        assert(spec_escape(s) + escape_char(c) =~= escape_char(c));
    } else {
        assert(p[0] == s[0]);
        assert(p.drop_first() =~= s.drop_first().push(c));
        lemma_escape_push(s.drop_first(), c);
        assert(escape_char(s[0]) + (spec_escape(s.drop_first()) + escape_char(c)) =~= (escape_char(
            s[0],
        ) + spec_escape(s.drop_first())) + escape_char(c));
    }
}

/// Relies on `String::push`: appends one character to the string.
#[verifier::external_body]
fn push_char(out: &mut String, c: char)
    ensures
        final (out)@ == old(out)@.push(c),
{
    out.push(c);
}

/// The hex digit as a string slice.
fn hex_str(d: u32) -> (r: &'static str)
    requires
        d < 16,
    ensures
        r@ == seq![hex_char(d as int)],
{
    if d < 10 {
        crate::clock::digit_str(d as u8)
    } else {
        proof {
            reveal_strlit("a");
            reveal_strlit("b");
            reveal_strlit("c");
            reveal_strlit("d");
            reveal_strlit("e");
            reveal_strlit("f");
            assert("a"@ =~= seq![hex_char(10)]);
            assert("b"@ =~= seq![hex_char(11)]);
            assert("c"@ =~= seq![hex_char(12)]);
            assert("d"@ =~= seq![hex_char(13)]);
            assert("e"@ =~= seq![hex_char(14)]);
            assert("f"@ =~= seq![hex_char(15)]);
        }
        if d == 10 {
            "a"
        } else if d == 11 {
            "b"
        } else if d == 12 {
            "c"
        } else if d == 13 {
            "d"
        } else if d == 14 {
            "e"
        } else {
            "f"
        }
    }
}

/// Appends one character of a string value, escaped as the document
/// requires.
fn append_escaped_char(out: &mut String, c: char)
    ensures
        final (out)@ == old(out)@ + escape_char(c),
{
    proof {
        reveal_strlit("\\\\");
        reveal_strlit("\\\"");
        reveal_strlit("\\n");
        reveal_strlit("\\t");
        reveal_strlit("\\r");
        reveal_strlit("\\u00");
        assert("\\\\"@ =~= seq!['\\', '\\']);
        assert("\\\""@ =~= seq!['\\', '"']);
        assert("\\n"@ =~= seq!['\\', 'n']);
        assert("\\t"@ =~= seq!['\\', 't']);
        assert("\\r"@ =~= seq!['\\', 'r']);
        assert("\\u00"@ =~= seq!['\\', 'u', '0', '0']);
    }
    if c == '\\' {
        out.append("\\\\");
    } else if c == '"' {
        out.append("\\\"");
    } else if c == '\n' {
        out.append("\\n");
    } else if c == '\t' {
        out.append("\\t");
    } else if c == '\r' {
        out.append("\\r");
    } else if (c as u32) < 32 || c as u32 == 127 {
        let u = c as u32;
        out.append("\\u00");
        out.append(hex_str(u / 16));
        out.append(hex_str(u % 16));
        proof {
            assert(old(out)@ + "\\u00"@ + seq![hex_char(u as int / 16)] + seq![hex_char(
                u as int % 16,
            )] =~= old(out)@ + escape_char(c));
        }
    } else {
        push_char(out, c);
        proof {
            assert(old(out)@.push(c) =~= old(out)@ + escape_char(c));
        }
    }
}

/// Appends a string value, escaped as the document requires.
fn append_escaped(out: &mut String, s: &str)
    ensures
        final (out)@ == old(out)@ + spec_escape(s@),
{
    let n = s.unicode_len();
    let mut i: usize = 0;
    while i < n
        invariant
            0 <= i <= n,
            n == s@.len(),
            out@ == old(out)@ + spec_escape(s@.take(i as int)),
        decreases n - i,
    {
        let c = s.get_char(i);
        append_escaped_char(out, c);
        proof {
            lemma_escape_push(s@.take(i as int), s@[i as int]);
            assert(s@.take(i + 1 as int) =~= s@.take(i as int).push(s@[i as int]));
            assert(old(out)@ + spec_escape(s@.take(i as int)) + escape_char(s@[i as int]) =~= old(
                out,
            )@ + spec_escape(s@.take(i + 1 as int)));
        }
        i = i + 1;
    }
    proof {
        assert(s@.take(n as int) =~= s@);
    }
}

/// A value below 1000 written in decimal, without leading zeros.
pub open spec fn spec_dec(n: int) -> Seq<char> {
    if n < 10 {
        seq![crate::clock::digit_char(n)]
    } else if n < 100 {
        seq![crate::clock::digit_char(n / 10), crate::clock::digit_char(n % 10)]
    } else {
        seq![
            crate::clock::digit_char(n / 100),
            crate::clock::digit_char((n / 10) % 10),
            crate::clock::digit_char(n % 10),
        ]
    }
}

/// Appends a value below 1000 in decimal.
fn append_dec(out: &mut String, n: u32)
    requires
        n < 1000,
    ensures
        final (out)@ == old(out)@ + spec_dec(n as int),
{
    if n < 10 {
        out.append(crate::clock::digit_str(n as u8));
        proof {
            assert(old(out)@ + seq![crate::clock::digit_char(n as int)] =~= old(out)@ + spec_dec(
                n as int,
            ));
        }
    } else if n < 100 {
        out.append(crate::clock::digit_str((n / 10) as u8));
        out.append(crate::clock::digit_str((n % 10) as u8));
        proof {
            assert(old(out)@ + seq![crate::clock::digit_char(n as int / 10)] + seq![
                crate::clock::digit_char(n as int % 10),
            ] =~= old(out)@ + spec_dec(n as int));
        }
    } else {
        out.append(crate::clock::digit_str((n / 100) as u8));
        out.append(crate::clock::digit_str(((n / 10) % 10) as u8));
        out.append(crate::clock::digit_str((n % 10) as u8));
        proof {
            assert(old(out)@ + seq![crate::clock::digit_char(n as int / 100)] + seq![
                crate::clock::digit_char((n as int / 10) % 10),
            ] + seq![crate::clock::digit_char(n as int % 10)] =~= old(out)@ + spec_dec(n as int));
        }
    }
}

/// A boolean as written in a document.
pub open spec fn bool_str(b: bool) -> Seq<char> {
    if b {
        "true"@
    } else {
        "false"@
    }
}

/// Appends a boolean.
fn append_bool(out: &mut String, b: bool)
    ensures
        final (out)@ == old(out)@ + bool_str(b),
{
    if b {
        out.append("true");
    } else {
        out.append("false");
    }
}

/// The full document a configuration serializes to: every schema key, in a
/// fixed order, one `key = value` line each.
pub open spec fn spec_config_doc(c: Config) -> Seq<char> {
    "position = \""@ + position_name(c.position) + "\"\nformat_24h = "@ + bool_str(c.format_24h)
        + "\nshow_seconds = "@ + bool_str(c.show_seconds) + "\nfont_size = "@ + spec_dec(
        c.font_size as int,
    ) + "\nopacity = "@ + spec_dec(c.opacity as int) + "\nhotkey = \""@ + spec_escape(c.hotkey@)
        + "\"\nstart_with_windows = "@ + bool_str(c.start_with_windows) + "\ntext_style = \""@
        + style_name(c.text_style) + "\"\ntext_color = ["@ + spec_dec(c.text_color[0] as int)
        + ", "@ + spec_dec(c.text_color[1] as int) + ", "@ + spec_dec(c.text_color[2] as int)
        + "]\noutline_color = ["@ + spec_dec(c.outline_color[0] as int) + ", "@ + spec_dec(
        c.outline_color[1] as int,
    ) + ", "@ + spec_dec(c.outline_color[2] as int) + "]\n"@
}

/// The document name of a position, as a string slice.
fn position_name_str(p: Position) -> (r: &'static str)
    ensures
        r@ == position_name(p),
{
    match p {
        Position::TopRight => "top-right",
        Position::TopLeft => "top-left",
        Position::BottomRight => "bottom-right",
        Position::BottomLeft => "bottom-left",
    }
}

/// The document name of a text style, as a string slice.
fn style_name_str(t: TextStyle) -> (r: &'static str)
    ensures
        r@ == style_name(t),
{
    match t {
        TextStyle::Plain => "none",
        TextStyle::Outline => "outline",
        TextStyle::Shadow => "shadow",
    }
}

impl Config {
    /// Serializes the full configuration as a key/value document: every
    /// schema key is written, so loading the result restores every field.
    pub fn save(&self) -> (r: String)
        requires
            self.wf(),
        ensures
            r@ == spec_config_doc(*self),
    {
        let mut out = String::from_str("position = \"");
        out.append(position_name_str(self.position));
        out.append("\"\nformat_24h = ");
        append_bool(&mut out, self.format_24h);
        out.append("\nshow_seconds = ");
        append_bool(&mut out, self.show_seconds);
        out.append("\nfont_size = ");
        append_dec(&mut out, self.font_size);
        out.append("\nopacity = ");
        append_dec(&mut out, self.opacity as u32);
        out.append("\nhotkey = \"");
        append_escaped(&mut out, self.hotkey.as_str());
        out.append("\"\nstart_with_windows = ");
        append_bool(&mut out, self.start_with_windows);
        out.append("\ntext_style = \"");
        out.append(style_name_str(self.text_style));
        out.append("\"\ntext_color = [");
        append_dec(&mut out, self.text_color[0] as u32);
        out.append(", ");
        append_dec(&mut out, self.text_color[1] as u32);
        out.append(", ");
        append_dec(&mut out, self.text_color[2] as u32);
        out.append("]\noutline_color = [");
        append_dec(&mut out, self.outline_color[0] as u32);
        out.append(", ");
        append_dec(&mut out, self.outline_color[1] as u32);
        out.append(", ");
        append_dec(&mut out, self.outline_color[2] as u32);
        out.append("]\n");
        out
    }
}

} // verus!

