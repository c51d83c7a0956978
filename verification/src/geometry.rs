//! Window geometry: computes the overlay's rectangle from the configuration
//! and the bounds of the monitor it is anchored to.
//!
//! A monitor rectangle and a window rectangle are both `(x, y, width, height)`
//! in absolute screen coordinates.

use vstd::prelude::*;

use crate::config::{Config, Position, TextStyle};

verus! {

/// Margin in pixels kept between the window and the monitor edges it anchors
/// to.
pub const EDGE_MARGIN: i32 = 10;

/// Number of characters in the rendered time string for a given format:
/// "HH:MM:SS", "HH:MM", "HH:MM:SS AM" or "HH:MM AM".
pub open spec fn spec_char_count(format_24h: bool, show_seconds: bool) -> int {
    if format_24h {
        if show_seconds {
            8
        } else {
            5
        }
    } else {
        if show_seconds {
            11
        } else {
            8
        }
    }
}

/// Approximate width of one character: six tenths of the font height,
/// rounded down (a proportional-font heuristic).
pub open spec fn spec_char_width(font_size: u32) -> int {
    font_size * 6 / 10
}

/// Extra horizontal room so outline or shadow strokes are not clipped.
pub open spec fn spec_style_pad(style: TextStyle) -> int {
    if style == TextStyle::Plain {
        0
    } else {
        4
    }
}

/// Total window width for a configuration: text width plus 24 pixels of
/// padding plus the style allowance.
pub open spec fn spec_window_width(c: Config) -> int {
    spec_char_width(c.font_size) * spec_char_count(c.format_24h, c.show_seconds) + 24
        + spec_style_pad(c.text_style)
}

/// Total window height for a configuration: font height plus 16 pixels of
/// padding.
pub open spec fn spec_window_height(c: Config) -> int {
    c.font_size + 16
}

/// A monitor rectangle the geometry engine can work inside without
/// arithmetic overflow: coordinates bounded well inside `i32`, sizes
/// non-negative.
pub open spec fn monitor_ok(m: (i32, i32, i32, i32)) -> bool {
    &&& -16_000_000 <= m.0 <= 16_000_000
    &&& -16_000_000 <= m.1 <= 16_000_000
    &&& 0 <= m.2 <= 16_000_000
    &&& 0 <= m.3 <= 16_000_000
}

/// The window rectangle for a configuration on a monitor: the window is
/// anchored to the corner named by `c.position`, `EDGE_MARGIN` pixels away
/// from the two adjacent monitor edges.
pub open spec fn spec_window_rect(c: Config, m: (i32, i32, i32, i32)) -> (int, int, int, int) {
    let w = spec_window_width(c);
    let h = spec_window_height(c);
    match c.position {
        Position::TopRight => (m.0 + m.2 - w - 10, m.1 + 10, w, h),
        Position::TopLeft => (m.0 + 10, m.1 + 10, w, h),
        Position::BottomRight => (m.0 + m.2 - w - 10, m.1 + m.3 - h - 10, w, h),
        Position::BottomLeft => (m.0 + 10, m.1 + m.3 - h - 10, w, h),
    }
}

/// Bounds on the computed window size that follow from the configuration
/// invariant: useful to show the arithmetic below stays inside `i32`.
pub proof fn lemma_window_size_bounds(c: Config)
    requires
        c.wf(),
    ensures
        34 <= spec_window_width(c) <= 424,
        26 <= spec_window_height(c) <= 76,
{
    assert(6 <= spec_char_width(c.font_size) <= 36) by (nonlinear_arith)
        requires
            10 <= c.font_size <= 60,
    ;
    assert(5 <= spec_char_count(c.format_24h, c.show_seconds) <= 11);
    assert(30 <= spec_char_width(c.font_size) * spec_char_count(c.format_24h, c.show_seconds)
        <= 396) by (nonlinear_arith)
        requires
            6 <= spec_char_width(c.font_size) <= 36,
            5 <= spec_char_count(c.format_24h, c.show_seconds) <= 11,
    ;
}

/// Computes where the overlay window stands on the given monitor.
pub fn calc_window_rect(config: &Config, monitor: (i32, i32, i32, i32)) -> (r: (
    i32,
    i32,
    i32,
    i32,
))
    requires
        config.wf(),
        monitor_ok(monitor),
    ensures
        (r.0 as int, r.1 as int, r.2 as int, r.3 as int) == spec_window_rect(*config, monitor),
{
    proof {
        lemma_window_size_bounds(*config);
    }
    let font_px = config.font_size as i32;
    let char_w = font_px * 6 / 10;
    let text_chars: i32 = match (config.format_24h, config.show_seconds) {
        (true, true) => 8,
        (true, false) => 5,
        (false, true) => 11,
        (false, false) => 8,
    };
    let text_w = char_w * text_chars;
    let style_pad: i32 = match config.text_style {
        TextStyle::Outline => 4,
        TextStyle::Shadow => 4,
        TextStyle::Plain => 0,
    };
    let win_w = text_w + 24 + style_pad;
    let win_h = font_px + 16;
    let (mon_x, mon_y, mon_w, mon_h) = monitor;

    let (x, y) = match config.position {
        Position::TopRight => (mon_x + mon_w - win_w - EDGE_MARGIN, mon_y + EDGE_MARGIN),
        Position::TopLeft => (mon_x + EDGE_MARGIN, mon_y + EDGE_MARGIN),
        Position::BottomRight => (
            mon_x + mon_w - win_w - EDGE_MARGIN,
            mon_y + mon_h - win_h - EDGE_MARGIN,
        ),
        Position::BottomLeft => (mon_x + EDGE_MARGIN, mon_y + mon_h - win_h - EDGE_MARGIN),
    };

    (x, y, win_w, win_h)
}

/// On a monitor large enough to hold the window and both margins, the
/// computed rectangle sits flush against the two anchored edges, exactly
/// `EDGE_MARGIN` pixels in, and never extends outside the monitor.
pub proof fn lemma_rect_within_monitor(c: Config, m: (i32, i32, i32, i32))
    requires
        c.wf(),
        monitor_ok(m),
        m.2 >= spec_window_width(c) + 20,
        m.3 >= spec_window_height(c) + 20,
    ensures
        ({
            let (x, y, w, h) = spec_window_rect(c, m);
            &&& m.0 <= x && x + w <= m.0 + m.2
            &&& m.1 <= y && y + h <= m.1 + m.3
            &&& (c.position == Position::TopRight || c.position == Position::BottomRight) ==> x + w
                + 10 == m.0 + m.2
            &&& (c.position == Position::TopLeft || c.position == Position::BottomLeft) ==> x == m.0
                + 10
            &&& (c.position == Position::TopRight || c.position == Position::TopLeft) ==> y == m.1
                + 10
            &&& (c.position == Position::BottomRight || c.position == Position::BottomLeft) ==> y
                + h + 10 == m.1 + m.3
        }),
{
    lemma_window_size_bounds(c);
}

/// Showing seconds strictly widens the window, the time format and all other
/// fields held fixed.
pub proof fn lemma_seconds_increase_width(c1: Config, c2: Config)
    requires
        c1.wf(),
        c1.show_seconds == false,
        c2 == (Config { show_seconds: true, ..c1 }),
    ensures
        spec_window_width(c2) > spec_window_width(c1),
{
    assert(spec_char_width(c1.font_size) >= 6) by (nonlinear_arith)
        requires
            10 <= c1.font_size <= 60,
    ;
    assert(spec_char_width(c1.font_size) * spec_char_count(c2.format_24h, true)
        > spec_char_width(c1.font_size) * spec_char_count(c1.format_24h, false))
        by (nonlinear_arith)
        requires
            spec_char_width(c1.font_size) >= 6,
            spec_char_count(c2.format_24h, true) > spec_char_count(c1.format_24h, false),
    ;
}

/// The 12-hour format strictly widens the window over the 24-hour format
/// (room for the AM/PM suffix), all other fields held fixed.
pub proof fn lemma_12h_wider(c1: Config, c2: Config)
    requires
        c1.wf(),
        c1.format_24h == true,
        c2 == (Config { format_24h: false, ..c1 }),
    ensures
        spec_window_width(c2) > spec_window_width(c1),
{
    assert(spec_char_width(c1.font_size) >= 6) by (nonlinear_arith)
        requires
            10 <= c1.font_size <= 60,
    ;
    assert(spec_char_width(c1.font_size) * spec_char_count(false, c2.show_seconds)
        > spec_char_width(c1.font_size) * spec_char_count(true, c1.show_seconds))
        by (nonlinear_arith)
        requires
            spec_char_width(c1.font_size) >= 6,
            spec_char_count(false, c2.show_seconds) > spec_char_count(true, c1.show_seconds),
    ;
}

/// A larger font strictly increases the window height.
pub proof fn lemma_font_increases_height(c1: Config, c2: Config)
    requires
        c1.wf(),
        c2.wf(),
        c2 == (Config { font_size: c2.font_size, ..c1 }),
        c1.font_size < c2.font_size,
    ensures
        spec_window_height(c2) > spec_window_height(c1),
{
}

/// A font larger by at least two pixels strictly increases the window width.
/// (A single-pixel step can leave the rounded character width unchanged:
/// fonts 10 and 11 both have a character width of 6.)
pub proof fn lemma_font_increases_width(c1: Config, c2: Config)
    requires
        c1.wf(),
        c2.wf(),
        c2 == (Config { font_size: c2.font_size, ..c1 }),
        c1.font_size + 2 <= c2.font_size,
    ensures
        spec_window_width(c2) > spec_window_width(c1),
{
    assert(spec_char_width(c2.font_size) > spec_char_width(c1.font_size)) by (nonlinear_arith)
        requires
            c1.font_size + 2 <= c2.font_size,
            c2.font_size <= 60,
    ;
    let n = spec_char_count(c1.format_24h, c1.show_seconds);
    assert(spec_char_width(c2.font_size) * n > spec_char_width(c1.font_size) * n)
        by (nonlinear_arith)
        requires
            spec_char_width(c2.font_size) > spec_char_width(c1.font_size),
            n >= 5,
    ;
}

} // verus!
