use showkey::chip::{accent_class, chip_colors, Accent, Chip, ChipRack};
use showkey::keymap::SUPER_ICON;
use showkey::pointer::{
    scroll_chip, swipe_chip, PointerState, SwipeTotals, BTN_LEFT, BTN_MIDDLE, BTN_RIGHT,
    MOUSE_ICON, SCROLL_DOWN_ICON, SCROLL_UP_ICON,
};
use showkey::settings::Theme;

const MS: u64 = 1_000_000;

fn totals(dx: f64, dy: f64) -> SwipeTotals {
    SwipeTotals {
        x_at_least_y: dx.abs() >= dy.abs(),
        y_at_least_x: dy.abs() >= dx.abs(),
        right: dx > 0.0,
        down: dy > 0.0,
        up: dy < 0.0,
    }
}

fn parts(chip: Option<Chip>) -> Option<(String, Option<Accent>)> {
    chip.map(|c| (c.text, c.accent))
}

#[test]
fn chips_of_keys_and_mice() {
    let k = Chip::key("A".to_string());
    assert_eq!(k.accent, None);
    let m = Chip::mouse("x".to_string(), Accent::Right);
    assert_eq!(m.text, "x");
    assert_eq!(m.accent, Some(Accent::Right));
    assert_eq!(accent_class(Accent::Scroll), "accent-scroll");
    assert_eq!(accent_class(Accent::Left), "accent-left");
    assert_eq!(chip_colors(Theme::Dark).left, "#64B5F6");
    assert_eq!(chip_colors(Theme::Light).base, "255, 255, 255");
}

#[test]
fn button_presses_and_double_click() {
    let mut p = PointerState::new();
    assert_eq!(parts(p.button(BTN_LEFT, true, 0)), Some((MOUSE_ICON.to_string(), Some(Accent::Left))));
    assert_eq!(parts(p.button(BTN_LEFT, false, 10 * MS)), None);
    assert_eq!(
        parts(p.button(BTN_LEFT, true, 300 * MS)),
        Some((format!("{MOUSE_ICON} ×2"), Some(Accent::Left)))
    );
    // another button is no double click
    assert_eq!(parts(p.button(BTN_RIGHT, true, 310 * MS)), Some((MOUSE_ICON.to_string(), Some(Accent::Right))));
    // too late
    assert_eq!(parts(p.button(BTN_RIGHT, true, 611 * MS)), Some((MOUSE_ICON.to_string(), Some(Accent::Right))));
    assert_eq!(parts(p.button(BTN_MIDDLE, true, 612 * MS)).unwrap().1, Some(Accent::Middle));
    // other buttons show nothing and leave the last press
    assert_eq!(parts(p.button(0x113, true, 613 * MS)), None);
    assert_eq!(p.last_press, Some((BTN_MIDDLE, 612 * MS)));
}

#[test]
fn scrolling_settles_before_showing() {
    let mut p = PointerState::new();
    assert!(!p.flush_due(0));
    p.scrolled(0);
    assert!(!p.flush_due(149 * MS));
    assert!(p.flush_due(150 * MS));
    assert!(!p.flush_due(400 * MS));
    assert_eq!(parts(scroll_chip(true, false)), Some((SCROLL_DOWN_ICON.to_string(), Some(Accent::Scroll))));
    assert_eq!(parts(scroll_chip(false, true)), Some((SCROLL_UP_ICON.to_string(), Some(Accent::Scroll))));
    assert_eq!(parts(scroll_chip(false, false)), None);
}

#[test]
fn three_finger_swipes() {
    let s = |l: &str| Some((format!("{SUPER_ICON} + {l}"), None));
    assert_eq!(parts(swipe_chip(3, &totals(50.0, 10.0))), s("H"));
    assert_eq!(parts(swipe_chip(3, &totals(-50.0, 10.0))), s("L"));
    assert_eq!(parts(swipe_chip(3, &totals(5.0, 40.0))), s("I"));
    assert_eq!(parts(swipe_chip(3, &totals(5.0, -40.0))), s("U"));
    // a tie counts as horizontal
    assert_eq!(parts(swipe_chip(3, &totals(-20.0, -20.0))), s("L"));
}

#[test]
fn four_finger_swipes_only_up() {
    assert_eq!(parts(swipe_chip(4, &totals(0.0, -40.0))), Some((format!("{SUPER_ICON} + D"), None)));
    assert_eq!(parts(swipe_chip(4, &totals(-20.0, -20.0))), Some((format!("{SUPER_ICON} + D"), None)));
    assert_eq!(parts(swipe_chip(4, &totals(0.0, 40.0))), None);
    assert_eq!(parts(swipe_chip(4, &totals(50.0, -10.0))), None);
    assert_eq!(parts(swipe_chip(2, &totals(50.0, 0.0))), None);
}

#[test]
fn swipe_state_and_cancel() {
    let mut p = PointerState::new();
    p.swipe_begin(3);
    assert_eq!(p.swipe_fingers, 3);
    assert!(p.swipe_end(true, &totals(50.0, 0.0)).is_none());
    assert_eq!(p.swipe_end(false, &totals(50.0, 0.0)).unwrap().text, format!("{SUPER_ICON} + H"));
}

#[test]
fn rack_keeps_at_most_max_chips() {
    let mut r = ChipRack::new();
    assert!(r.is_empty());
    let a = r.push(2).unwrap();
    assert_eq!(a.demoted, None);
    assert!(a.evicted.is_empty());
    let b = r.push(2).unwrap();
    assert_eq!(b.demoted, Some(a.id));
    let c = r.push(2).unwrap();
    assert_eq!(c.evicted, vec![a.id]);
    assert_eq!(r.len(), 2);
    assert!(!r.contains(a.id));
    assert!(r.contains(b.id) && r.contains(c.id));
    assert!(r.remove(b.id));
    assert!(!r.remove(b.id));
    assert_eq!(r.len(), 1);
    assert!(r.remove(c.id));
    assert!(r.is_empty());
}

#[test]
fn rack_with_no_room_drops_everything() {
    let mut r = ChipRack::new();
    r.push(3).unwrap();
    let o = r.push(0).unwrap();
    assert_eq!(o.evicted.len(), 2);
    assert_eq!(o.evicted[1], o.id);
    assert!(r.is_empty());
}

#[test]
fn rack_hands_out_fresh_identifiers() {
    let mut r = ChipRack::new();
    let ids: Vec<u64> = (0..5).map(|_| r.push(1).unwrap().id).collect();
    assert_eq!(ids, vec![0, 1, 2, 3, 4]);
}
