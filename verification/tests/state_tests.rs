use showkey::control::PauseControl;
use showkey::keymap::{
    Modifier, ALT_ICON, CTRL_ICON, KEY_1, KEY_A, KEY_LEFTALT, KEY_LEFTBRACE, KEY_LEFTCTRL,
    KEY_LEFTSHIFT, KEY_P, SHIFT_ICON,
};
use showkey::settings::Hotkey;
use showkey::state::{combo_label, hotkey_label, KeyInput, KeyReporter, ModifierState};

const SEC: u64 = 1_000_000_000;

fn press(key: u16) -> KeyInput {
    KeyInput { key, pressed: true }
}

fn release(key: u16) -> KeyInput {
    KeyInput { key, pressed: false }
}

fn text(chip: Option<showkey::chip::Chip>) -> Option<String> {
    chip.map(|c| {
        assert_eq!(c.accent, None);
        c.text
    })
}

#[test]
fn modifier_state_set_and_query() {
    let mut m = ModifierState::default();
    assert!(!m.is_held(Modifier::Ctrl));
    m.set(Modifier::Shift, true);
    m.set(Modifier::Ctrl, true);
    assert!(m.shift_held());
    assert!(m.is_held(Modifier::Ctrl));
    assert!(!m.is_held(Modifier::Alt));
    assert_eq!(m.modifiers(), vec![CTRL_ICON, SHIFT_ICON]);
    m.set(Modifier::Shift, false);
    assert!(!m.shift_held());
    assert_eq!(m.modifiers(), vec![CTRL_ICON]);
}

#[test]
fn recorded_hotkey_matches_itself() {
    let mut m = ModifierState::new();
    m.set(Modifier::Ctrl, true);
    m.set(Modifier::Alt, true);
    let h = m.to_hotkey(KEY_P);
    assert_eq!(h, Hotkey::default());
    assert!(m.matches_hotkey(&h, KEY_P));
    assert!(!m.matches_hotkey(&h, KEY_A));
    m.set(Modifier::Shift, true);
    assert!(!m.matches_hotkey(&h, KEY_P));
}

#[test]
fn combo_text() {
    let mut m = ModifierState::new();
    m.set(Modifier::Ctrl, true);
    m.set(Modifier::Shift, true);
    assert_eq!(combo_label(&m, KEY_A), format!("{CTRL_ICON} + {SHIFT_ICON} + A"));
    // Shift is consumed by a symbol key with a Shift variant
    assert_eq!(combo_label(&m, KEY_LEFTBRACE), format!("{CTRL_ICON} + {{"));
    assert_eq!(hotkey_label(&Hotkey::default()), format!("{CTRL_ICON} + {ALT_ICON} + P"));
}

#[test]
fn key_input_from_event_values() {
    assert_eq!(KeyInput::from_event(KEY_A, 1), Some(press(KEY_A)));
    assert_eq!(KeyInput::from_event(KEY_A, 0), Some(release(KEY_A)));
    assert_eq!(KeyInput::from_event(KEY_A, 2), None);
}

#[test]
fn repeated_presses_count_up() {
    let mut r = KeyReporter::new();
    let mut c = PauseControl::new();
    let hk = Hotkey::default();
    assert_eq!(text(r.handle(press(KEY_A), 0, &hk, &mut c)), Some("A".to_string()));
    assert_eq!(text(r.handle(release(KEY_A), SEC / 10, &hk, &mut c)), None);
    assert_eq!(text(r.handle(press(KEY_A), SEC / 2, &hk, &mut c)), Some("A *2".to_string()));
    assert_eq!(text(r.handle(press(KEY_A), SEC, &hk, &mut c)), Some("A *3".to_string()));
    // another key starts again at one
    assert_eq!(text(r.handle(press(KEY_1), SEC + 1, &hk, &mut c)), Some("1".to_string()));
    assert_eq!(r.count, 1);
}

#[test]
fn counting_reaches_two_digits() {
    let mut r = KeyReporter::new();
    let mut c = PauseControl::new();
    let hk = Hotkey::default();
    let mut last = None;
    for i in 0..12u64 {
        last = text(r.handle(press(KEY_A), i, &hk, &mut c));
    }
    assert_eq!(last, Some("A *12".to_string()));
}

#[test]
fn timeout_restarts_the_count() {
    let mut r = KeyReporter::new();
    let mut c = PauseControl::new();
    let hk = Hotkey::default();
    r.handle(press(KEY_A), 0, &hk, &mut c);
    assert_eq!(text(r.handle(press(KEY_A), SEC, &hk, &mut c)), Some("A".to_string()));
}

#[test]
fn modifier_press_shows_icon_and_breaks_run() {
    let mut r = KeyReporter::new();
    let mut c = PauseControl::new();
    let hk = Hotkey::default();
    r.handle(press(KEY_A), 0, &hk, &mut c);
    assert_eq!(text(r.handle(press(KEY_LEFTSHIFT), 1, &hk, &mut c)), Some(SHIFT_ICON.to_string()));
    assert_eq!(text(r.handle(release(KEY_LEFTSHIFT), 2, &hk, &mut c)), None);
    assert_eq!(text(r.handle(press(KEY_A), 3, &hk, &mut c)), Some("A".to_string()));
}

#[test]
fn shifted_symbol_combo() {
    let mut r = KeyReporter::new();
    let mut c = PauseControl::new();
    let hk = Hotkey::default();
    r.handle(press(KEY_LEFTSHIFT), 0, &hk, &mut c);
    assert_eq!(text(r.handle(press(KEY_1), 1, &hk, &mut c)), Some("!".to_string()));
    assert_eq!(text(r.handle(press(KEY_A), 2, &hk, &mut c)), Some(format!("{SHIFT_ICON} + A")));
}

#[test]
fn pause_hotkey_toggles_without_showing() {
    let mut r = KeyReporter::new();
    let mut c = PauseControl::new();
    let hk = Hotkey::default();
    r.handle(press(KEY_LEFTCTRL), 0, &hk, &mut c);
    r.handle(press(KEY_LEFTALT), 1, &hk, &mut c);
    assert_eq!(text(r.handle(press(KEY_P), 2, &hk, &mut c)), None);
    assert!(c.paused);
    assert_eq!(text(r.handle(press(KEY_P), 3, &hk, &mut c)), None);
    assert!(!c.paused);
}

#[test]
fn recording_captures_the_next_combination() {
    let mut r = KeyReporter::new();
    let mut c = PauseControl::new();
    let hk = Hotkey::default();
    c.begin_capture();
    r.handle(press(KEY_LEFTCTRL), 0, &hk, &mut c);
    assert_eq!(text(r.handle(press(KEY_A), 1, &hk, &mut c)), None);
    assert!(!c.capture);
    let recorded = c.take_captured().unwrap();
    assert_eq!(recorded, Hotkey { ctrl: true, shift: false, alt: false, super_key: false, key: KEY_A });
    assert_eq!(c.take_captured(), None);
    // the recorded combination now pauses
    assert_eq!(text(r.handle(press(KEY_A), 2, &recorded, &mut c)), None);
    assert!(c.paused);
}

#[test]
fn cancel_capture_reports_whether_recording() {
    let mut c = PauseControl::new();
    assert!(!c.cancel_capture());
    c.begin_capture();
    assert!(c.cancel_capture());
    assert!(!c.capture);
}

#[test]
fn decimal_digits() {
    assert_eq!(showkey::state::decimal(0), "0");
    assert_eq!(showkey::state::decimal(7), "7");
    assert_eq!(showkey::state::decimal(120), "120");
    assert_eq!(showkey::state::decimal(u32::MAX), "4294967295");
}

#[test]
fn releases_between_presses_keep_the_run() {
    let mut r = KeyReporter::new();
    let mut c = PauseControl::new();
    let hk = Hotkey::default();
    r.handle(press(KEY_A), 0, &hk, &mut c);
    r.handle(release(KEY_A), 1, &hk, &mut c);
    r.handle(release(KEY_LEFTSHIFT), 2, &hk, &mut c);
    assert_eq!(text(r.handle(press(KEY_A), 3, &hk, &mut c)), Some("A *2".to_string()));
}

#[test]
fn interruptions_restart_the_run() {
    let mut r = KeyReporter::new();
    let mut c = PauseControl::new();
    let hk = Hotkey::default();
    r.handle(press(KEY_A), 0, &hk, &mut c);
    r.handle(press(KEY_1), 1, &hk, &mut c);
    assert_eq!(text(r.handle(press(KEY_A), 2, &hk, &mut c)), Some("A".to_string()));
    // the pause hotkey in between restarts too
    r.handle(press(KEY_LEFTCTRL), 3, &hk, &mut c);
    r.handle(press(KEY_LEFTALT), 4, &hk, &mut c);
    r.handle(press(KEY_P), 5, &hk, &mut c);
    r.handle(release(KEY_LEFTCTRL), 6, &hk, &mut c);
    r.handle(release(KEY_LEFTALT), 7, &hk, &mut c);
    r.handle(press(KEY_P), 8, &hk, &mut c);
    r.handle(press(KEY_A), 9, &hk, &mut c);
    assert_eq!(text(r.handle(press(KEY_A), 10, &hk, &mut c)), Some("A *2".to_string()));
}
