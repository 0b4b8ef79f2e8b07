use std::str::FromStr;

use holler::ptt::{
    hotkey_label, or_default, parse_ptt_key, try_parse_ptt_key, with_label, HotKey, Modifiers,
};

const DEFAULT_LABEL: &str = "Ctrl+Alt+Space";

const CTRL_ALT: Modifiers = Modifiers { control: true, alt: true, shift: false, sup: false };

#[test]
fn default_combo_parses() {
    let (hk, label) = parse_ptt_key("ctrl+alt+space");
    assert_eq!(hk.mods, CTRL_ALT);
    assert_eq!(hk.key, "Space");
    assert_eq!(label, "Ctrl+Alt+Space");
}

#[test]
fn case_insensitive() {
    let (hk, _) = parse_ptt_key("CTRL+ALT+SPACE");
    assert_eq!(hk.mods, CTRL_ALT);
    assert_eq!(hk.key, "Space");
}

#[test]
fn alias_meta_maps_to_super() {
    let (hk, label) = parse_ptt_key("meta+alt+d");
    assert!(hk.mods.sup);
    assert!(hk.mods.alt);
    assert_eq!(hk.key, "KeyD");
    assert!(label.contains("Cmd"), "label was: {label}");
}

#[test]
fn alias_opt_maps_to_alt() {
    let (hk, _) = parse_ptt_key("ctrl+opt+space");
    assert!(hk.mods.control);
    assert!(hk.mods.alt);
    assert_eq!(hk.key, "Space");
}

#[test]
fn single_key_no_mods() {
    let (hk, label) = parse_ptt_key("f8");
    let none = Modifiers { control: false, alt: false, shift: false, sup: false };
    assert_eq!(hk.mods, none);
    assert_eq!(hk.key, "F8");
    assert_eq!(label, "F8");
}

#[test]
fn invalid_input_falls_back_to_default() {
    let (hk, label) = parse_ptt_key("notakey");
    assert_eq!(hk.mods, CTRL_ALT);
    assert_eq!(hk.key, "Space");
    assert_eq!(label, DEFAULT_LABEL);
}

#[test]
fn empty_string_falls_back_to_default() {
    let (hk, label) = parse_ptt_key("");
    assert_eq!(hk.key, "Space");
    assert_eq!(label, DEFAULT_LABEL);
}

#[test]
fn try_parse_rejects_invalid_input() {
    assert!(try_parse_ptt_key("notakey").is_err());
    assert!(try_parse_ptt_key("").is_err());
    assert!(try_parse_ptt_key("ctrl+alt").is_err()); // modifiers only
}

#[test]
fn try_parse_accepts_valid_input() {
    let (hk, label) = try_parse_ptt_key("cmd+shift+h").unwrap();
    assert!(hk.mods.sup);
    assert!(hk.mods.shift);
    assert_eq!(hk.key, "KeyH");
    assert_eq!(label, "Shift+Cmd+H");
}

#[test]
fn spelling_does_not_matter() {
    let a = try_parse_ptt_key(" Command + Option+ D").unwrap();
    let b = try_parse_ptt_key("super+alt+d").unwrap();
    assert_eq!(a, b);
    assert_eq!(a.1, "Alt+Cmd+D");
    assert_eq!(try_parse_ptt_key("meta+alt+d"), try_parse_ptt_key("SUPER + ALT + D"));
    assert_eq!(try_parse_ptt_key("opt+D"), try_parse_ptt_key("\tAlt +d\n"));
    assert_eq!(try_parse_ptt_key("cmdorctrl+d"), try_parse_ptt_key(" CmdOrCtrl + D"));
    assert_eq!(try_parse_ptt_key("ctrl+nokey"), try_parse_ptt_key("CTRL + NoKey"));
    // Letters beyond ASCII have a case too.
    assert_eq!(try_parse_ptt_key("ctrl+\u{e9}x"), try_parse_ptt_key("ctrl+\u{c9}X"));
}

#[test]
fn numbers_are_those_of_the_platform_crate() {
    for combo in ["ctrl+alt+space", "f8", "shift+super+h", "ctrl+alt+period"] {
        let hk = try_parse_ptt_key(combo).unwrap().0;
        assert_eq!(hk.id, global_hotkey::hotkey::HotKey::from_str(combo).unwrap().id());
    }
    // The fallback, too, is a hotkey the platform crate would make.
    let fallback = parse_ptt_key("notakey").0;
    assert_eq!(fallback.id, parse_ptt_key("ctrl+alt+space").0.id);
    assert_eq!(fallback.id, 589886);
}

#[test]
fn labels_name_modifiers_in_a_fixed_order() {
    let all = Modifiers { control: true, alt: true, shift: true, sup: true };
    let hk = |key: &str| HotKey { mods: all, key: key.to_string(), id: 0 };
    assert_eq!(hotkey_label(&hk("KeyQ")), "Ctrl+Alt+Shift+Cmd+Q");
    assert_eq!(hotkey_label(&hk("F8")), "Ctrl+Alt+Shift+Cmd+F8");
}

#[test]
fn outcomes_carry_over() {
    let hk = HotKey { mods: CTRL_ALT, key: "Space".to_string(), id: 7 };
    assert_eq!(
        with_label(Ok(hk.clone())),
        Ok((hk.clone(), DEFAULT_LABEL.to_string()))
    );
    assert_eq!(with_label(Err("bad".to_string())), Err("bad".to_string()));
    assert_eq!(or_default(Ok((hk.clone(), "x".to_string()))), (hk, "x".to_string()));
    assert_eq!(or_default(Err("bad".to_string())).1, DEFAULT_LABEL);
}
