use clockor::config::Config;
use clockor::hotkey::{find_hotkey_indices, format_hotkey, parse_hotkey};

#[test]
fn parse_hotkey_ctrl_f12() {
    let (m, k) = parse_hotkey("Ctrl+F12").unwrap();
    assert_eq!(m, 2);
    assert_eq!(k, 123);
}

#[test]
fn parse_hotkey_alt_f1() {
    let (m, k) = parse_hotkey("Alt+F1").unwrap();
    assert_eq!(m, 1);
    assert_eq!(k, 112);
}

#[test]
fn parse_hotkey_ctrl_shift_f5() {
    let (m, k) = parse_hotkey("Ctrl+Shift+F5").unwrap();
    assert_eq!(m, 2 | 4);
    assert_eq!(k, 116);
}

#[test]
fn parse_hotkey_case_insensitive() {
    let (m, k) = parse_hotkey("ctrl+f12").unwrap();
    assert_eq!(m, 2);
    assert_eq!(k, 123);
}

#[test]
fn parse_hotkey_no_modifier() {
    assert!(parse_hotkey("F12").is_none());
}

#[test]
fn parse_hotkey_empty() {
    assert!(parse_hotkey("").is_none());
}

#[test]
fn parse_hotkey_unknown_key() {
    assert!(parse_hotkey("Ctrl+Z").is_none());
}

#[test]
fn parse_hotkey_trims_tokens() {
    let (m, k) = parse_hotkey(" Ctrl + F3 ").unwrap();
    assert_eq!(m, 2);
    assert_eq!(k, 114);
}

#[test]
fn parse_hotkey_unicode_whitespace_trimmed() {
    let (m, k) = parse_hotkey("Ctrl\u{a0}+\u{2003}F2\u{a0}").unwrap();
    assert_eq!(m, 2);
    assert_eq!(k, 113);
}

#[test]
fn parse_hotkey_unknown_modifier() {
    assert!(parse_hotkey("Meta+F1").is_none());
}

#[test]
fn parsed_hotkey_invalid_falls_back() {
    let mut cfg = Config::default();
    cfg.hotkey = "garbage".to_string();
    let (m, k) = cfg.parsed_hotkey();
    assert_eq!(m, 2);
    assert_eq!(k, 123);
}

#[test]
fn format_then_parse_round_trips_every_pair() {
    let masks = [2u32, 1, 4, 3, 6, 5];
    for mi in 0..6usize {
        for ki in 0..12usize {
            let s = format_hotkey(mi, ki);
            let (m, k) = parse_hotkey(&s).expect("formatted hotkey must parse");
            assert_eq!(m, masks[mi]);
            assert_eq!(k, 112 + ki as u32);
            let (m2, k2) = find_hotkey_indices(&s);
            assert_eq!(m2, mi);
            assert_eq!(k2, ki);
        }
    }
}

#[test]
fn format_hotkey_spells_names() {
    assert_eq!(format_hotkey(0, 11), "Ctrl+F12");
    assert_eq!(format_hotkey(3, 0), "Ctrl+Alt+F1");
    assert_eq!(format_hotkey(5, 9), "Alt+Shift+F10");
}

#[test]
fn find_hotkey_indices_falls_back() {
    assert_eq!(find_hotkey_indices("garbage"), (0, 11));
    assert_eq!(find_hotkey_indices("Meta+F3"), (0, 2));
    assert_eq!(find_hotkey_indices("Shift+Q"), (2, 11));
}
