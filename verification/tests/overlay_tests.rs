use clockor::clock::{format_time, format_time_parts};
use clockor::compositor::{alpha_from_opacity, guard_color_key, paint_ops};
use clockor::config::{Config, Position, TextStyle};
use clockor::geometry::calc_window_rect;
use clockor::overlay::{window_update, Overlay, OverlayState, ToggleAction};
use clockor::settings::SettingsApp;
use clockor::state::{ReregisterFlag, SharedConfig};

fn primary() -> (i32, i32, i32, i32) {
    (0, 0, 1920, 1080)
}

fn offset_monitor() -> (i32, i32, i32, i32) {
    (1920, 0, 2560, 1440)
}

fn test_config() -> Config {
    Config::default()
}

// --- calc_window_rect position tests ---

#[test]
fn top_right_position() {
    let cfg = test_config(); // default = TopRight
    let (x, y, w, _h) = calc_window_rect(&cfg, primary());
    assert_eq!(x, 1920 - w - 10);
    assert_eq!(y, 10);
}

#[test]
fn top_left_position() {
    let mut cfg = test_config();
    cfg.position = Position::TopLeft;
    let (x, y, _, _) = calc_window_rect(&cfg, primary());
    assert_eq!(x, 10);
    assert_eq!(y, 10);
}

#[test]
fn bottom_right_position() {
    let mut cfg = test_config();
    cfg.position = Position::BottomRight;
    let (x, y, w, h) = calc_window_rect(&cfg, primary());
    assert_eq!(x, 1920 - w - 10);
    assert_eq!(y, 1080 - h - 10);
}

#[test]
fn bottom_left_position() {
    let mut cfg = test_config();
    cfg.position = Position::BottomLeft;
    let (x, y, _, h) = calc_window_rect(&cfg, primary());
    assert_eq!(x, 10);
    assert_eq!(y, 1080 - h - 10);
}

#[test]
fn multi_monitor_offset() {
    let mut cfg = test_config();
    cfg.position = Position::TopLeft;
    let (x, y, _, _) = calc_window_rect(&cfg, offset_monitor());
    assert_eq!(x, 1920 + 10);
    assert_eq!(y, 10);
}

#[test]
fn window_never_leaves_monitor() {
    for pos in [
        Position::TopRight,
        Position::TopLeft,
        Position::BottomRight,
        Position::BottomLeft,
    ] {
        let mut cfg = test_config();
        cfg.position = pos;
        let (x, y, w, h) = calc_window_rect(&cfg, primary());
        assert!(x >= 0 && y >= 0);
        assert!(x + w <= 1920 && y + h <= 1080);
    }
}

#[test]
fn exact_window_size_for_default() {
    // Default: 24h, no seconds, font 22, outline style.
    // char width 13, 5 chars, 24px padding + 4px style allowance.
    let cfg = test_config();
    let (_, _, w, h) = calc_window_rect(&cfg, primary());
    assert_eq!(w, 13 * 5 + 24 + 4);
    assert_eq!(h, 22 + 16);
}

// --- font size affects window size ---

#[test]
fn larger_font_increases_window() {
    let mut small_cfg = test_config();
    small_cfg.font_size = 16;
    let (_, _, w_s, h_s) = calc_window_rect(&small_cfg, primary());

    let mut large_cfg = test_config();
    large_cfg.font_size = 30;
    let (_, _, w_l, h_l) = calc_window_rect(&large_cfg, primary());

    assert!(w_l > w_s);
    assert!(h_l > h_s);
}

// --- show_seconds affects width ---

#[test]
fn seconds_increases_width() {
    let mut no_sec = test_config();
    no_sec.show_seconds = false;
    let (_, _, w_no, _) = calc_window_rect(&no_sec, primary());

    let mut with_sec = test_config();
    with_sec.show_seconds = true;
    let (_, _, w_yes, _) = calc_window_rect(&with_sec, primary());

    assert!(w_yes > w_no);
}

#[test]
fn twelve_hour_wider_than_24h() {
    let mut h24 = test_config();
    h24.format_24h = true;
    let (_, _, w_24, _) = calc_window_rect(&h24, primary());

    let mut h12 = test_config();
    h12.format_24h = false;
    let (_, _, w_12, _) = calc_window_rect(&h12, primary());

    assert!(w_12 > w_24);
}

// --- format_time structure ---

#[test]
fn format_time_24h_no_seconds() {
    let mut cfg = test_config();
    cfg.format_24h = true;
    cfg.show_seconds = false;
    let s = format_time(&cfg);
    // "HH:MM" has 5 chars
    assert_eq!(s.len(), 5);
    assert_eq!(&s[2..3], ":");
}

#[test]
fn format_time_24h_with_seconds() {
    let mut cfg = test_config();
    cfg.format_24h = true;
    cfg.show_seconds = true;
    let s = format_time(&cfg);
    // "HH:MM:SS" has 8 chars
    assert_eq!(s.len(), 8);
    assert_eq!(&s[2..3], ":");
    assert_eq!(&s[5..6], ":");
}

#[test]
fn format_time_12h_no_seconds() {
    let mut cfg = test_config();
    cfg.format_24h = false;
    cfg.show_seconds = false;
    let s = format_time(&cfg);
    // "HH:MM AM" has 8 chars
    assert_eq!(s.len(), 8);
    assert!(s.ends_with("AM") || s.ends_with("PM"));
}

#[test]
fn format_time_12h_with_seconds() {
    let mut cfg = test_config();
    cfg.format_24h = false;
    cfg.show_seconds = true;
    let s = format_time(&cfg);
    // "HH:MM:SS AM" has 11 chars
    assert_eq!(s.len(), 11);
    assert!(s.ends_with("AM") || s.ends_with("PM"));
}

#[test]
fn format_time_parts_exact() {
    assert_eq!(format_time_parts(true, true, 13, 5, 9), "13:05:09");
    assert_eq!(format_time_parts(true, false, 0, 0, 0), "00:00");
    assert_eq!(format_time_parts(false, false, 0, 0, 0), "12:00 AM");
    assert_eq!(format_time_parts(false, true, 23, 59, 58), "11:59:58 PM");
    assert_eq!(format_time_parts(false, false, 12, 30, 0), "12:30 PM");
    assert_eq!(format_time_parts(false, false, 1, 2, 3), "01:02 AM");
}

// --- guard_color_key ---

#[test]
fn guard_color_key_passes_normal_colors() {
    assert_eq!(guard_color_key(0x00FFFFFF), 0x00FFFFFF); // white
    assert_eq!(guard_color_key(0x00000000), 0x00000000); // black
    assert_eq!(guard_color_key(0x000000FF), 0x000000FF); // red
}

#[test]
fn guard_color_key_nudges_matching_color() {
    // The key color 0x00010001 must be nudged away from itself
    assert_ne!(guard_color_key(0x00010001), 0x00010001);
    // The result differs only in the blue channel bit
    assert_eq!(guard_color_key(0x00010001), 0x00000001);
}

// --- compositor ---

#[test]
fn alpha_follows_opacity() {
    assert_eq!(alpha_from_opacity(100), 255);
    assert_eq!(alpha_from_opacity(80), 204);
    assert_eq!(alpha_from_opacity(50), 128);
    assert_eq!(alpha_from_opacity(25), 64);
}

#[test]
fn paint_ops_outline_draws_nine_passes() {
    let mut cfg = test_config();
    cfg.text_style = TextStyle::Outline;
    cfg.text_color = [255, 0, 0];
    cfg.outline_color = [0, 0, 255];
    let ops = paint_ops(&cfg);
    assert_eq!(ops.len(), 9);
    let offsets: Vec<(i32, i32)> = ops.iter().map(|o| (o.dx, o.dy)).collect();
    assert_eq!(
        offsets,
        vec![(-1, -1), (0, -1), (1, -1), (-1, 0), (1, 0), (-1, 1), (0, 1), (1, 1), (0, 0)]
    );
    for op in ops.iter().take(8) {
        assert_eq!(op.color, 0x00FF0000); // outline color, blue
    }
    assert_eq!(ops[8].color, 0x000000FF); // text color, red
}

#[test]
fn paint_ops_shadow_draws_two_passes() {
    let mut cfg = test_config();
    cfg.text_style = TextStyle::Shadow;
    let ops = paint_ops(&cfg);
    assert_eq!(ops.len(), 2);
    assert_eq!((ops[0].dx, ops[0].dy), (2, 2));
    assert_eq!((ops[1].dx, ops[1].dy), (0, 0));
}

#[test]
fn paint_ops_plain_draws_once() {
    let mut cfg = test_config();
    cfg.text_style = TextStyle::Plain;
    let ops = paint_ops(&cfg);
    assert_eq!(ops.len(), 1);
    assert_eq!((ops[0].dx, ops[0].dy), (0, 0));
}

#[test]
fn paint_ops_never_emit_key_color() {
    // A configured color equal to the key color RGB(1,0,1) is nudged
    let mut cfg = test_config();
    cfg.text_color = [1, 0, 1];
    cfg.outline_color = [1, 0, 1];
    for op in paint_ops(&cfg) {
        assert_ne!(op.color, 0x00010001);
    }
}

// --- overlay state machine ---

#[test]
fn toggle_flips_visibility() {
    let mut o = Overlay::new();
    assert_eq!(o.state, OverlayState::Hidden);
    assert_eq!(o.on_toggle(), ToggleAction::ShowOverlay);
    assert_eq!(o.state, OverlayState::Visible);
    assert_eq!(o.on_toggle(), ToggleAction::HideOverlay);
    assert_eq!(o.state, OverlayState::Hidden);
    o.destroy();
    assert_eq!(o.state, OverlayState::Destroyed);
}

#[test]
fn window_update_combines_rect_and_alpha() {
    let mut cfg = test_config();
    cfg.opacity = 50;
    let u = window_update(&cfg, primary());
    let (x, y, w, h) = calc_window_rect(&cfg, primary());
    assert_eq!((u.x, u.y, u.width, u.height), (x, y, w, h));
    assert_eq!(u.alpha, 128);
}

// --- shared configuration cell ---

#[test]
fn shared_config_round_trips_snapshots() {
    let cell = SharedConfig::new(Config::default());
    assert_eq!(cell.get_config(), Config::default());

    let mut newer = Config::default();
    newer.opacity = 42;
    newer.position = Position::BottomLeft;
    cell.update_config(&newer);
    assert_eq!(cell.get_config(), newer);
}

#[test]
fn reregister_flag_is_taken_once() {
    let flag = ReregisterFlag::new();
    assert!(!flag.take_request());
    flag.request_hotkey_reregister();
    assert!(flag.take_request());
    assert!(!flag.take_request());
}

// --- settings model ---

#[test]
fn settings_new_reads_hotkey_indices() {
    let mut cfg = Config::default();
    cfg.hotkey = "Alt+Shift+F10".to_string();
    let app = SettingsApp::new(cfg);
    assert_eq!(app.selected_mod, 5);
    assert_eq!(app.selected_key, 9);
    assert!(!app.applied);
}

#[test]
fn settings_current_config_carries_selection() {
    let mut app = SettingsApp::new(Config::default());
    app.selected_mod = 1;
    app.selected_key = 0;
    let cur = app.current_config();
    assert_eq!(cur.hotkey, "Alt+F1");
    assert!(app.has_unsaved_changes());
}

#[test]
fn settings_apply_saves_and_clears_changes() {
    let mut app = SettingsApp::new(Config::default());
    app.config.opacity = 33;
    assert!(app.has_unsaved_changes());
    let applied = app.apply();
    assert_eq!(applied.opacity, 33);
    assert_eq!(applied.hotkey, "Ctrl+F12");
    assert!(app.applied);
    assert!(!app.has_unsaved_changes());
}

#[test]
fn settings_reset_restores_defaults() {
    let mut app = SettingsApp::new(Config::default());
    app.config.font_size = 55;
    app.selected_mod = 4;
    app.reset();
    assert_eq!(app.config, Config::default());
    assert_eq!(app.selected_mod, 0);
    assert_eq!(app.selected_key, 11);
    assert!(!app.applied);
}
