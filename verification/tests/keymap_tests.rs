use evdev::KeyCode;
use showkey::keymap::{
    has_shift_variant, icon_label, key_label, modifier_label, modifier_of, symbol_label, Modifier,
    ALT_ICON, CTRL_ICON, KEY_1, KEY_A, KEY_BACKSPACE, KEY_DOT, KEY_ENTER, KEY_ESC, KEY_LEFTBRACE,
    KEY_LEFTCTRL, KEY_LEFTMETA, KEY_P, KEY_RIGHTALT, KEY_RIGHTSHIFT, KEY_SPACE, KEY_SLASH, KEY_Z,
    SHIFT_ICON, SUPER_ICON,
};

#[test]
fn key_codes_agree_with_evdev() {
    assert_eq!(KEY_1, KeyCode::KEY_1.code());
    assert_eq!(KEY_A, KeyCode::KEY_A.code());
    assert_eq!(KEY_Z, KeyCode::KEY_Z.code());
    assert_eq!(KEY_P, KeyCode::KEY_P.code());
    assert_eq!(KEY_ENTER, KeyCode::KEY_ENTER.code());
    assert_eq!(KEY_LEFTCTRL, KeyCode::KEY_LEFTCTRL.code());
    assert_eq!(KEY_RIGHTSHIFT, KeyCode::KEY_RIGHTSHIFT.code());
    assert_eq!(KEY_RIGHTALT, KeyCode::KEY_RIGHTALT.code());
    assert_eq!(KEY_LEFTMETA, KeyCode::KEY_LEFTMETA.code());
    assert_eq!(KEY_SPACE, KeyCode::KEY_SPACE.code());
    assert_eq!(KEY_ESC, KeyCode::KEY_ESC.code());
    assert_eq!(KEY_SLASH, KeyCode::KEY_SLASH.code());
    assert_eq!(showkey::keymap::KEY_BRIGHTNESSUP, KeyCode::KEY_BRIGHTNESSUP.code());
    assert_eq!(showkey::keymap::KEY_EJECTCD, KeyCode::KEY_EJECTCD.code());
}

#[test]
fn modifiers_have_icons() {
    assert_eq!(modifier_label(KEY_LEFTCTRL), Some(CTRL_ICON));
    assert_eq!(modifier_label(KEY_RIGHTSHIFT), Some(SHIFT_ICON));
    assert_eq!(modifier_label(KEY_RIGHTALT), Some(ALT_ICON));
    assert_eq!(modifier_label(KEY_LEFTMETA), Some(SUPER_ICON));
    assert_eq!(modifier_label(KEY_A), None);
    assert_eq!(modifier_of(KEY_RIGHTSHIFT), Some(Modifier::Shift));
    assert_eq!(modifier_of(KEY_ENTER), None);
    assert_eq!(Modifier::Alt.icon(), ALT_ICON);
}

#[test]
fn symbols_switch_with_shift() {
    assert_eq!(symbol_label(KEY_1), Some(("1", "!")));
    assert_eq!(symbol_label(KEY_LEFTBRACE), Some(("[", "{")));
    assert_eq!(symbol_label(KEY_A), None);
    assert!(has_shift_variant(KEY_DOT));
    assert!(!has_shift_variant(KEY_A));
    assert_eq!(key_label(KEY_1, false), "1");
    assert_eq!(key_label(KEY_1, true), "!");
    assert_eq!(key_label(KEY_SLASH, true), "?");
}

#[test]
fn letters_are_not_case_converted() {
    assert_eq!(key_label(KEY_A, false), "A");
    assert_eq!(key_label(KEY_A, true), "A");
    assert_eq!(key_label(KEY_Z, true), key_label(KEY_Z, false));
}

#[test]
fn special_keys_use_icons() {
    assert_eq!(icon_label(KEY_SPACE), Some("\u{F1050}"));
    assert_eq!(key_label(KEY_ENTER, false), "\u{F0311}");
    assert_eq!(key_label(KEY_BACKSPACE, true), "\u{F0B5C} ");
    assert_eq!(icon_label(KEY_A), None);
}

#[test]
fn unknown_keys_fall_back_to_their_name() {
    // KEY_F1 is 59
    assert_eq!(key_label(59, false), "F1");
    // BTN_LEFT keeps its prefix
    assert_eq!(key_label(0x110, false), "BTN_LEFT");
    // a code without a name
    assert_eq!(key_label(0x2ff, false), "unknown key: 767");
}
