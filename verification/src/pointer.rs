//! Mouse and touchpad events as chips: button clicks (with double clicks),
//! settled scrolling, and three / four finger swipes.
//!
//! The movement totals of scrolling and swiping are floating point and stay
//! with the event loop; it hands this module their signs and comparisons.

use vstd::prelude::*;
use vstd::string::*;

use crate::chip::{Accent, Chip};
use crate::keymap::{COMBO_SEP, SUPER_ICON};
use crate::state::spec_elapsed;

verus! {

/// A second press of the same button within this many nanoseconds is a double click.
pub const DOUBLE_CLICK_WINDOW_NS: u64 = 300_000_000;

/// Scrolling is shown once it has been still for this many nanoseconds.
pub const SCROLL_DEBOUNCE_NS: u64 = 150_000_000;

/// Linux button codes, as libinput reports them.
pub const BTN_LEFT: u32 = 0x110;
pub const BTN_RIGHT: u32 = 0x111;
pub const BTN_MIDDLE: u32 = 0x112;

/// Mouse icon, for all three buttons (told apart by colour).
pub const MOUSE_ICON: &'static str = "\u{F037D}";
/// Scrolling up (`nf-md-mouse_move_up`).
pub const SCROLL_UP_ICON: &'static str = "\u{F1551}";
/// Scrolling down (`nf-md-mouse_move_down`).
pub const SCROLL_DOWN_ICON: &'static str = "\u{F1550}";

/// The accent of a button, for the three buttons that are shown.
pub open spec fn spec_button_accent(button: u32) -> Option<Accent> {
    if button == BTN_LEFT {
        Some(Accent::Left)
    } else if button == BTN_RIGHT {
        Some(Accent::Right)
    } else if button == BTN_MIDDLE {
        Some(Accent::Middle)
    } else {
        None
    }
}

/// The state that pointer chips depend on across events.
pub struct PointerState {
    /// Button and time (nanoseconds of a monotonic clock) of the last shown press.
    pub last_press: Option<(u32, u64)>,
    /// Finger count of the current swipe.
    pub swipe_fingers: u32,
    /// Time of the last scroll event while scrolling is not yet shown.
    pub last_scroll: Option<u64>,
}

/// Whether a press of `button` at `now` is the second of a double click after
/// `last_press`.
pub open spec fn spec_is_double(last_press: Option<(u32, u64)>, button: u32, now: u64) -> bool {
    last_press matches Some((code, t)) && code == button && spec_elapsed(t, now)
        <= DOUBLE_CLICK_WINDOW_NS
}

/// How the totals of a finished swipe compare, as the chip needs them.
pub struct SwipeTotals {
    /// The horizontal distance is at least the vertical one.
    pub x_at_least_y: bool,
    /// The vertical distance is at least the horizontal one.
    pub y_at_least_x: bool,
    /// Moved right.
    pub right: bool,
    /// Moved down.
    pub down: bool,
    /// Moved up.
    pub up: bool,
}

/// The letter that a swipe stands for. Three fingers: left `L`, right `H`, up `U`,
/// down `I` (horizontal where the distances tie). Four fingers: up `D` only.
pub open spec fn spec_swipe_letter(fingers: u32, t: SwipeTotals) -> Option<&'static str> {
    if fingers == 3 {
        if t.x_at_least_y {
            if t.right { Some("H") } else { Some("L") }
        } else if t.down {
            Some("I")
        } else {
            Some("U")
        }
    } else if fingers == 4 {
        if t.up && t.y_at_least_x { Some("D") } else { None }
    } else {
        None
    }
}

/// The chip of a finished swipe: Super and the letter of its direction.
pub fn swipe_chip(fingers: u32, totals: &SwipeTotals) -> (res: Option<Chip>)
    ensures
        res is Some <==> spec_swipe_letter(fingers, *totals) is Some,
        res matches Some(c) ==> {
            &&& c.accent is None
            &&& c.text@ == SUPER_ICON@ + COMBO_SEP@ + spec_swipe_letter(fingers, *totals).unwrap()@
        },
{
    // right H, left L, down I, up U; four fingers: up D only
    let letter = match fingers {
        3 => {
            if totals.x_at_least_y {
                if totals.right { "H" } else { "L" }
            } else if totals.down {
                "I"
            } else {
                "U"
            }
        },
        4 => {
            if totals.up && totals.y_at_least_x {
                "D"
            } else {
                return None;
            }
        },
        _ => return None,
    };
    let mut text = String::from_str(SUPER_ICON);
    text.append(COMBO_SEP);
    text.append(letter);
    Some(Chip::key(text))
}

/// The chip of settled scrolling: down for a positive total, up for a negative
/// one, none for a total that is neither.
pub fn scroll_chip(positive: bool, negative: bool) -> (res: Option<Chip>)
    ensures
        res is Some <==> (positive || negative),
        res matches Some(c) ==> {
            &&& c.accent == Some(Accent::Scroll)
            &&& c.text@ == (if positive { SCROLL_DOWN_ICON@ } else { SCROLL_UP_ICON@ })
        },
{
    if positive {
        Some(Chip::mouse(String::from_str(SCROLL_DOWN_ICON), Accent::Scroll))
    } else if negative {
        Some(Chip::mouse(String::from_str(SCROLL_UP_ICON), Accent::Scroll))
    } else {
        None
    }
}

impl PointerState {
    /// No press, swipe or scroll seen yet.
    pub fn new() -> (res: Self)
        ensures
            res.last_press is None,
            res.swipe_fingers == 0,
            res.last_scroll is None,
    {
        PointerState { last_press: None, swipe_fingers: 0, last_scroll: None }
    }

    /// A button event at `now`. A press of the left, right or middle button shows the
    /// mouse icon in the button's accent, with ` ×2` for the second press of a
    /// double click; anything else shows nothing and changes nothing.
    pub fn button(&mut self, button: u32, pressed: bool, now: u64) -> (res: Option<Chip>)
        ensures
            final(self).swipe_fingers == old(self).swipe_fingers,
            final(self).last_scroll == old(self).last_scroll,
            res is Some <==> pressed && spec_button_accent(button) is Some,
            res is None ==> final(self).last_press == old(self).last_press,
            res matches Some(c) ==> {
                &&& final(self).last_press == Some((button, now))
                &&& c.accent == spec_button_accent(button)
                &&& c.text@ == (if spec_is_double(old(self).last_press, button, now) {
                    MOUSE_ICON@ + seq![' ', '×', '2']
                } else {
                    MOUSE_ICON@
                })
            },
    {
        if !pressed {
            return None;
        }
        let accent = match button {
            BTN_LEFT => Accent::Left,
            BTN_RIGHT => Accent::Right,
            BTN_MIDDLE => Accent::Middle,
            _ => return None,
        };
        let double = match self.last_press {
            Some((code, t)) => {
                let elapsed = if now >= t { now - t } else { 0 };
                code == button && elapsed <= DOUBLE_CLICK_WINDOW_NS
            },
            None => false,
        };
        self.last_press = Some((button, now));
        let mut text = String::from_str(MOUSE_ICON);
        if double {
            proof {
                reveal_strlit(" ×2");
            }
            text.append(" ×2");
        }
        Some(Chip::mouse(text, accent))
    }

    /// A scroll event at `now`: scrolling waits to be shown until it settles.
    pub fn scrolled(&mut self, now: u64)
        ensures
            final(self).last_scroll == Some(now),
            final(self).last_press == old(self).last_press,
            final(self).swipe_fingers == old(self).swipe_fingers,
    {
        self.last_scroll = Some(now);
    }

    /// A swipe begins with `fingers` fingers.
    pub fn swipe_begin(&mut self, fingers: u32)
        ensures
            final(self).swipe_fingers == fingers,
            final(self).last_press == old(self).last_press,
            final(self).last_scroll == old(self).last_scroll,
    {
        self.swipe_fingers = fingers;
    }

    /// The chip of the swipe that ends here: none if it was cancelled.
    pub fn swipe_end(&self, cancelled: bool, totals: &SwipeTotals) -> (res: Option<Chip>)
        ensures
            cancelled ==> res is None,
            !cancelled ==> (res is Some <==> spec_swipe_letter(self.swipe_fingers, *totals) is Some),
            res matches Some(c) ==> c.accent is None && c.text@ == SUPER_ICON@ + COMBO_SEP@
                + spec_swipe_letter(self.swipe_fingers, *totals).unwrap()@,
    {
        if cancelled {
            None
        } else {
            swipe_chip(self.swipe_fingers, totals)
        }
    }

    /// Whether pending scrolling has been still long enough at `now` to be shown;
    /// if so it is no longer pending.
    pub fn flush_due(&mut self, now: u64) -> (res: bool)
        ensures
            res == (old(self).last_scroll matches Some(t) && spec_elapsed(t, now)
                >= SCROLL_DEBOUNCE_NS),
            res ==> final(self).last_scroll is None,
            !res ==> final(self).last_scroll == old(self).last_scroll,
            final(self).last_press == old(self).last_press,
            final(self).swipe_fingers == old(self).swipe_fingers,
    {
        match self.last_scroll {
            Some(t) => {
                let elapsed = if now >= t { now - t } else { 0 };
                if elapsed < SCROLL_DEBOUNCE_NS {
                    false
                } else {
                    self.last_scroll = None;
                    true
                }
            },
            None => false,
        }
    }
}

/// Law: a second press of a button within the double-click window shows ` ×2`.
pub proof fn lemma_double_click(button: u32, t1: u64, t2: u64)
    requires
        t1 <= t2,
        t2 - t1 <= DOUBLE_CLICK_WINDOW_NS,
    ensures
        spec_is_double(Some((button, t1)), button, t2),
{
}

/// Law: presses of two different buttons never make a double click.
pub proof fn lemma_other_button_single(first: u32, second: u32, t1: u64, t2: u64)
    requires
        first != second,
    ensures
        !spec_is_double(Some((first, t1)), second, t2),
{
}

/// Law: the left (0x110), right (0x111) and middle (0x112) buttons have the
/// left, right and middle accents; no other button is shown.
pub proof fn lemma_button_accents(button: u32)
    ensures
        spec_button_accent(0x110) == Some(Accent::Left),
        spec_button_accent(0x111) == Some(Accent::Right),
        spec_button_accent(0x112) == Some(Accent::Middle),
        button != 0x110 && button != 0x111 && button != 0x112 ==> spec_button_accent(button) is None,
{
}

/// Law: the double-click window is 300 ms, its end included: a second press of the
/// same button 300 ms later is a double click, 300 ms and 1 ns later it is not.
pub proof fn lemma_double_click_window(button: u32, t: u64)
    requires
        t <= u64::MAX - 300_000_001,
    ensures
        spec_is_double(Some((button, t)), button, (t + 300_000_000) as u64),
        !spec_is_double(Some((button, t)), button, (t + 300_000_001) as u64),
        !spec_is_double(None, button, t),
{
}

/// Law: three-finger swipes: right H, left L, down I, up U (a tie of the distances
/// counts as horizontal); four-finger swipes: up D only; other finger counts none.
pub proof fn lemma_swipe_letters(fingers: u32, t: SwipeTotals)
    ensures
        fingers == 3 && t.x_at_least_y && t.right ==> spec_swipe_letter(fingers, t) == Some("H"),
        fingers == 3 && t.x_at_least_y && !t.right ==> spec_swipe_letter(fingers, t) == Some("L"),
        fingers == 3 && !t.x_at_least_y && t.down ==> spec_swipe_letter(fingers, t) == Some("I"),
        fingers == 3 && !t.x_at_least_y && !t.down ==> spec_swipe_letter(fingers, t) == Some("U"),
        fingers == 4 && t.up && t.y_at_least_x ==> spec_swipe_letter(fingers, t) == Some("D"),
        fingers == 4 && !(t.up && t.y_at_least_x) ==> spec_swipe_letter(fingers, t) is None,
        fingers != 3 && fingers != 4 ==> spec_swipe_letter(fingers, t) is None,
{
}

/// Law: scrolling is shown once it has been still for 150 ms, not before.
pub proof fn lemma_scroll_settles(t: u64)
    requires
        t <= u64::MAX - 150_000_000,
    ensures
        spec_elapsed(t, (t + 150_000_000) as u64) >= SCROLL_DEBOUNCE_NS,
        spec_elapsed(t, (t + 149_999_999) as u64) < SCROLL_DEBOUNCE_NS,
        SCROLL_DEBOUNCE_NS == 150_000_000,
{
}

/// Law: the pointer icons are `nf-md-mouse`, `nf-md-mouse_move_up` and
/// `nf-md-mouse_move_down`.
pub proof fn lemma_pointer_icons()
    ensures
        MOUSE_ICON == "\u{F037D}",
        SCROLL_UP_ICON == "\u{F1551}",
        SCROLL_DOWN_ICON == "\u{F1550}",
{
}

} // verus!
