//! Color-key compositing rules for the overlay window.
//!
//! The window background is filled with a reserved key color that the
//! compositor treats as fully transparent; a window-wide alpha blend then
//! dims whatever remains visible. User-chosen colors are nudged away from
//! the key color so text never becomes accidentally invisible.

use vstd::prelude::*;

use crate::config::{spec_colorref, Config, TextStyle};

verus! {

/// Reserved key color, RGB(1, 0, 1) packed: nearly black, and guarded
/// against ever matching the text or outline color.
pub const COLOR_KEY: u32 = 0x0001_0001;

/// Horizontal offset of the text anchor inside the window.
pub const TEXT_X: i32 = 12;

/// Vertical offset of the text anchor inside the window.
pub const TEXT_Y: i32 = 8;

/// What `guard_color_key` returns: the key color has one low channel bit
/// flipped; every other color passes through unchanged.
pub open spec fn spec_guard_color_key(cr: u32) -> u32 {
    if cr == 0x0001_0001 {
        0x0000_0001
    } else {
        cr
    }
}

/// Keeps a packed color distinct from the reserved key color: the key color
/// itself has its blue channel bit flipped, any other color is returned
/// unchanged.
pub fn guard_color_key(cr: u32) -> (r: u32)
    ensures
        r == spec_guard_color_key(cr),
        r != COLOR_KEY,
        cr != COLOR_KEY ==> r == cr,
{
    proof {
        assert(0x0001_0001u32 ^ 0x0001_0000u32 == 0x0000_0001u32) by (bit_vector);
    }
    if cr == COLOR_KEY {
        cr ^ 0x0001_0000
    } else {
        cr
    }
}

/// Window-wide alpha for an opacity percentage: `opacity / 100 × 255`,
/// rounded to the nearest whole step.
pub open spec fn spec_alpha(opacity: u8) -> u8 {
    ((opacity * 255 + 50) / 100) as u8
}

/// Computes the alpha blend value applied on top of the color keying.
pub fn alpha_from_opacity(opacity: u8) -> (r: u8)
    requires
        25 <= opacity <= 100,
    ensures
        r == spec_alpha(opacity),
{
    let wide: u32 = (opacity as u32) * 255 + 50;
    (wide / 100) as u8
}

/// One pass of the text renderer: draw the time string at the given offset
/// from the anchor, in the given packed color.
#[derive(Clone, Copy, Debug, PartialEq, Eq, Structural)]
pub struct DrawOp {
    pub dx: i32,
    pub dy: i32,
    pub color: u32,
}

/// The passes that render the time string for a style: an outline draws the
/// string at one-pixel offsets in all eight compass directions in the
/// outline color and then once at the anchor in the text color; a shadow
/// draws once at (+2, +2) in the outline color and then once at the anchor;
/// plain text draws once at the anchor.
pub open spec fn spec_render_ops(style: TextStyle, text_cr: u32, outline_cr: u32) -> Seq<DrawOp> {
    match style {
        TextStyle::Outline => seq![
            DrawOp { dx: -1i32, dy: -1i32, color: outline_cr },
            DrawOp { dx: 0i32, dy: -1i32, color: outline_cr },
            DrawOp { dx: 1i32, dy: -1i32, color: outline_cr },
            DrawOp { dx: -1i32, dy: 0i32, color: outline_cr },
            DrawOp { dx: 1i32, dy: 0i32, color: outline_cr },
            DrawOp { dx: -1i32, dy: 1i32, color: outline_cr },
            DrawOp { dx: 0i32, dy: 1i32, color: outline_cr },
            DrawOp { dx: 1i32, dy: 1i32, color: outline_cr },
            DrawOp { dx: 0i32, dy: 0i32, color: text_cr },
        ],
        TextStyle::Shadow => seq![
            DrawOp { dx: 2i32, dy: 2i32, color: outline_cr },
            DrawOp { dx: 0i32, dy: 0i32, color: text_cr },
        ],
        TextStyle::Plain => seq![DrawOp { dx: 0i32, dy: 0i32, color: text_cr }],
    }
}

/// The full paint plan for a configuration: both configured colors are
/// guarded against the key color before any pass is emitted, and the passes
/// follow the configured style.
pub open spec fn spec_paint_ops(c: Config) -> Seq<DrawOp> {
    spec_render_ops(
        c.text_style,
        spec_guard_color_key(spec_colorref(c.text_color)),
        spec_guard_color_key(spec_colorref(c.outline_color)),
    )
}

/// Computes the passes that paint the time string for this configuration,
/// in draw order. Every emitted color differs from the key color.
pub fn paint_ops(config: &Config) -> (r: Vec<DrawOp>)
    ensures
        r@ == spec_paint_ops(*config),
        forall|i: int| 0 <= i < r@.len() ==> (#[trigger] r@[i]).color != COLOR_KEY,
{
    let text_cr = guard_color_key(config.text_colorref());
    let outline_cr = guard_color_key(config.outline_colorref());
    let mut ops: Vec<DrawOp> = Vec::new();
    match config.text_style {
        TextStyle::Outline => {
            ops.push(DrawOp { dx: -1, dy: -1, color: outline_cr });
            ops.push(DrawOp { dx: 0, dy: -1, color: outline_cr });
            ops.push(DrawOp { dx: 1, dy: -1, color: outline_cr });
            ops.push(DrawOp { dx: -1, dy: 0, color: outline_cr });
            ops.push(DrawOp { dx: 1, dy: 0, color: outline_cr });
            ops.push(DrawOp { dx: -1, dy: 1, color: outline_cr });
            ops.push(DrawOp { dx: 0, dy: 1, color: outline_cr });
            ops.push(DrawOp { dx: 1, dy: 1, color: outline_cr });
            ops.push(DrawOp { dx: 0, dy: 0, color: text_cr });
        },
        TextStyle::Shadow => {
            ops.push(DrawOp { dx: 2, dy: 2, color: outline_cr });
            ops.push(DrawOp { dx: 0, dy: 0, color: text_cr });
        },
        TextStyle::Plain => {
            ops.push(DrawOp { dx: 0, dy: 0, color: text_cr });
        },
    }
    proof {
        assert(ops@ =~= spec_paint_ops(*config));
    }
    ops
}

} // verus!
