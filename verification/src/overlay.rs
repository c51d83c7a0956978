//! The overlay window's state machine.
//!
//! The native window itself is owned by the event loop; this module decides
//! what happens on each event. A hotkey toggle flips between hidden and
//! visible; a show repositions against the foreground window's monitor so
//! the overlay tracks the display hosting the fullscreen target, while a
//! timer tick repositions against the window's own monitor so the overlay
//! stays put between explicit shows. Destruction is terminal.

use vstd::prelude::*;

use crate::compositor::{alpha_from_opacity, spec_alpha};
use crate::config::Config;
use crate::geometry::{calc_window_rect, monitor_ok, spec_window_rect};

verus! {

/// The lifecycle states of the overlay window.
#[derive(Clone, Copy, Debug, PartialEq, Eq, Structural)]
pub enum OverlayState {
    Hidden,
    Visible,
    Destroyed,
}

/// What the event loop must do to the native window after a toggle.
#[derive(Clone, Copy, Debug, PartialEq, Eq, Structural)]
pub enum ToggleAction {
    /// Re-read the shared configuration, reposition on the foreground
    /// window's monitor, reapply alpha, raise topmost and show without
    /// taking focus.
    ShowOverlay,
    /// Hide the window without destroying it; the timer keeps running.
    HideOverlay,
}

/// The position, size and alpha to apply to the native window.
#[derive(Clone, Copy, Debug, PartialEq, Eq, Structural)]
pub struct WindowUpdate {
    pub x: i32,
    pub y: i32,
    pub width: i32,
    pub height: i32,
    pub alpha: u8,
}

/// The overlay's state, driven entirely by external toggle and quit
/// signals.
#[derive(Clone, Copy, Debug, PartialEq, Eq, Structural)]
pub struct Overlay {
    pub state: OverlayState,
}

impl Overlay {
    /// A newly created overlay starts hidden, with its timer running.
    pub fn new() -> (o: Overlay)
        ensures
            o.state == OverlayState::Hidden,
    {
        Overlay { state: OverlayState::Hidden }
    }

    /// The hotkey fired: a hidden overlay is shown, a visible one hidden.
    pub fn on_toggle(&mut self) -> (a: ToggleAction)
        requires
            old(self).state != OverlayState::Destroyed,
        ensures
            old(self).state == OverlayState::Hidden ==> final (self).state == OverlayState::Visible
                && a == ToggleAction::ShowOverlay,
            old(self).state == OverlayState::Visible ==> final (self).state == OverlayState::Hidden
                && a == ToggleAction::HideOverlay,
    {
        match self.state {
            OverlayState::Hidden => {
                self.state = OverlayState::Visible;
                ToggleAction::ShowOverlay
            },
            OverlayState::Visible => {
                self.state = OverlayState::Hidden;
                ToggleAction::HideOverlay
            },
            OverlayState::Destroyed => ToggleAction::HideOverlay,
        }
    }

    /// The quit signal: the timer stops, the window is released; terminal.
    pub fn destroy(&mut self)
        ensures
            final (self).state == OverlayState::Destroyed,
    {
        self.state = OverlayState::Destroyed;
    }
}

/// The geometry and alpha the event loop applies to the window: on a show,
/// computed against the foreground window's monitor; on a timer tick,
/// against the window's own monitor.
pub fn window_update(config: &Config, monitor: (i32, i32, i32, i32)) -> (u: WindowUpdate)
    requires
        config.wf(),
        monitor_ok(monitor),
    ensures
        (u.x as int, u.y as int, u.width as int, u.height as int) == spec_window_rect(
            *config,
            monitor,
        ),
        u.alpha == spec_alpha(config.opacity),
{
    let (x, y, w, h) = calc_window_rect(config, monitor);
    let alpha = alpha_from_opacity(config.opacity);
    WindowUpdate { x, y, width: w, height: h, alpha }
}

} // verus!
