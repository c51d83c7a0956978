//! The settings flow's working state, apart from its widgets.
//!
//! The form edits a copy of the configuration; the hotkey is edited as a
//! pair of table selections and written back into the configuration on
//! apply. The form also remembers the last applied configuration so it can
//! tell whether unsaved changes remain.

use vstd::prelude::*;

use crate::config::{config_eq, is_default_config, Config};
use crate::hotkey::{find_hotkey_indices, format_hotkey, hotkey_string_spec,
    spec_find_hotkey_indices};

verus! {

/// The settings flow's state: the configuration being edited, the last
/// applied configuration, the hotkey table selections, and whether an
/// apply has happened.
pub struct SettingsApp {
    pub config: Config,
    pub saved_config: Config,
    pub selected_mod: usize,
    pub selected_key: usize,
    pub applied: bool,
}

impl SettingsApp {
    /// The hotkey selections always point into the fixed tables.
    pub open spec fn wf(&self) -> bool {
        self.selected_mod < 6 && self.selected_key < 12
    }

    /// Whether the edited configuration differs from the last applied one;
    /// the hotkey counts as edited through its table selections.
    pub open spec fn spec_changed(&self) -> bool {
        ||| self.config.position != self.saved_config.position
        ||| self.config.format_24h != self.saved_config.format_24h
        ||| self.config.show_seconds != self.saved_config.show_seconds
        ||| self.config.font_size != self.saved_config.font_size
        ||| self.config.opacity != self.saved_config.opacity
        ||| hotkey_string_spec(self.selected_mod as int, self.selected_key as int)
            != self.saved_config.hotkey@
        ||| self.config.start_with_windows != self.saved_config.start_with_windows
        ||| self.config.text_style != self.saved_config.text_style
        ||| self.config.text_color[0] != self.saved_config.text_color[0]
        ||| self.config.text_color[1] != self.saved_config.text_color[1]
        ||| self.config.text_color[2] != self.saved_config.text_color[2]
        ||| self.config.outline_color[0] != self.saved_config.outline_color[0]
        ||| self.config.outline_color[1] != self.saved_config.outline_color[1]
        ||| self.config.outline_color[2] != self.saved_config.outline_color[2]
    }

    /// Starts the settings flow on a loaded configuration: both the edit
    /// copy and the applied copy hold it, and the hotkey selections are
    /// derived from its hotkey string.
    pub fn new(config: Config) -> (s: Self)
        ensures
            s.wf(),
            s.config == config,
            s.saved_config == config,
            (s.selected_mod as int, s.selected_key as int) == spec_find_hotkey_indices(
                config.hotkey@,
            ),
            s.applied == false,
    {
        let (mi, ki) = find_hotkey_indices(config.hotkey.as_str());
        SettingsApp {
            saved_config: config.clone(),
            config,
            selected_mod: mi,
            selected_key: ki,
            applied: false,
        }
    }

    /// The hotkey string the current table selections format to.
    pub fn build_hotkey_string(&self) -> (r: String)
        requires
            self.wf(),
        ensures
            r@ == hotkey_string_spec(self.selected_mod as int, self.selected_key as int),
    {
        format_hotkey(self.selected_mod, self.selected_key)
    }

    /// The configuration as currently edited: the edited fields, with the
    /// hotkey the table selections format to.
    pub fn current_config(&self) -> (c: Config)
        requires
            self.wf(),
        ensures
            c == (Config { hotkey: c.hotkey, ..self.config }),
            c.hotkey@ == hotkey_string_spec(self.selected_mod as int, self.selected_key as int),
    {
        let mut c = self.config.clone();
        c.hotkey = self.build_hotkey_string();
        c
    }

    /// Whether unsaved changes remain.
    pub fn has_unsaved_changes(&self) -> (r: bool)
        requires
            self.wf(),
        ensures
            r == self.spec_changed(),
    {
        let cur = self.current_config();
        let same = cur == self.saved_config;
        proof {
            assert(config_eq(cur, self.saved_config) == !self.spec_changed());
        }
        !same
    }

    /// Applies the edits: the hotkey selections are written back into the
    /// configuration, which becomes the last applied one. Returns the
    /// applied configuration for the caller to persist, publish to the
    /// shared cell, and re-register the hotkey from.
    pub fn apply(&mut self) -> (c: Config)
        requires
            old(self).wf(),
        ensures
            final (self).wf(),
            final (self).config == (Config { hotkey: final (self).config.hotkey, ..old(self).config }),
            final (self).config.hotkey@ == hotkey_string_spec(
                old(self).selected_mod as int,
                old(self).selected_key as int,
            ),
            final (self).saved_config == final (self).config,
            final (self).applied == true,
            final (self).selected_mod == old(self).selected_mod,
            final (self).selected_key == old(self).selected_key,
            c == final (self).config,
    {
        let hk = self.build_hotkey_string();
        self.config.hotkey = hk;
        self.saved_config = self.config.clone();
        self.applied = true;
        self.config.clone()
    }

    /// Reverts the edits to the schema defaults; the last applied
    /// configuration is kept.
    pub fn reset(&mut self)
        ensures
            final (self).wf(),
            is_default_config(final (self).config),
            (final (self).selected_mod as int, final (self).selected_key as int)
                == spec_find_hotkey_indices(final (self).config.hotkey@),
            final (self).applied == false,
            final (self).saved_config == old(self).saved_config,
    {
        self.config = Config::default();
        let (mi, ki) = find_hotkey_indices(self.config.hotkey.as_str());
        self.selected_mod = mi;
        self.selected_key = ki;
        self.applied = false;
    }
}

} // verus!
