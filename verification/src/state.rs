//! Keyboard state: which modifiers are held, and how key presses become the
//! text of chips (`⇧ + ⌃ + K`, repeated presses as `⌃ + K *2`).

use vstd::prelude::*;
use vstd::string::*;

use crate::chip::Chip;
use crate::control::PauseControl;
use crate::keymap::{
    has_shift_variant, key_label, modifier_of, spec_key_label, spec_modifier_of, spec_symbol_label,
    Modifier, ALT_ICON, COMBO_SEP, CTRL_ICON, SHIFT_ICON, SUPER_ICON,
};
use crate::settings::Hotkey;

verus! {

/// Repeated presses of one combination count up while each follows the previous
/// one within this many nanoseconds (one second).
pub const RESET_TIMEOUT_NS: u64 = 1_000_000_000;

/// One key event: a press or a release.
#[derive(Debug, Clone, Copy, PartialEq, Eq, Structural)]
pub struct KeyInput {
    /// Linux evdev code of the key.
    pub key: u16,
    /// `true` for a press, `false` for a release.
    pub pressed: bool,
}

impl KeyInput {
    /// The key event of an evdev key event with `value`: 1 is a press, 0 a release;
    /// anything else (2, auto-repeat) is ignored.
    pub fn from_event(key: u16, value: i32) -> (res: Option<KeyInput>)
        ensures
            res == (if value == 1 {
                Some(KeyInput { key, pressed: true })
            } else if value == 0 {
                Some(KeyInput { key, pressed: false })
            } else {
                None
            }),
    {
        match value {
            1 => Some(KeyInput { key, pressed: true }),
            0 => Some(KeyInput { key, pressed: false }),
            _ => None,
        }
    }
}

impl Modifier {
    pub open spec fn spec_required_by(self, hotkey: Hotkey) -> bool {
        match self {
            Modifier::Ctrl => hotkey.ctrl,
            Modifier::Shift => hotkey.shift,
            Modifier::Alt => hotkey.alt,
            Modifier::Super => hotkey.super_key,
        }
    }

    /// Whether `hotkey` asks for this modifier to be held.
    pub fn required_by(self, hotkey: &Hotkey) -> (res: bool)
        ensures
            res == self.spec_required_by(*hotkey),
    {
        match self {
            Modifier::Ctrl => hotkey.ctrl,
            Modifier::Shift => hotkey.shift,
            Modifier::Alt => hotkey.alt,
            Modifier::Super => hotkey.super_key,
        }
    }
}

/// Which modifiers are held down.
#[derive(Debug, Clone, Copy, PartialEq, Eq, Structural)]
pub struct ModifierState {
    pub ctrl: bool,
    pub shift: bool,
    pub alt: bool,
    pub super_key: bool,
}

/// `icon` followed by the combination separator where `shown`, else nothing.
pub open spec fn icon_part(shown: bool, icon: &'static str) -> Seq<char> {
    if shown {
        icon@ + COMBO_SEP@
    } else {
        Seq::empty()
    }
}

impl ModifierState {
    pub open spec fn spec_held(self, m: Modifier) -> bool {
        match m {
            Modifier::Ctrl => self.ctrl,
            Modifier::Shift => self.shift,
            Modifier::Alt => self.alt,
            Modifier::Super => self.super_key,
        }
    }

    /// The state with `m` held or released as `pressed` says, the others as before.
    pub open spec fn spec_set(self, m: Modifier, pressed: bool) -> Self {
        ModifierState {
            ctrl: if m == Modifier::Ctrl { pressed } else { self.ctrl },
            shift: if m == Modifier::Shift { pressed } else { self.shift },
            alt: if m == Modifier::Alt { pressed } else { self.alt },
            super_key: if m == Modifier::Super { pressed } else { self.super_key },
        }
    }

    pub open spec fn spec_to_hotkey(self, key: u16) -> Hotkey {
        Hotkey {
            ctrl: self.spec_held(Modifier::Ctrl),
            shift: self.spec_held(Modifier::Shift),
            alt: self.spec_held(Modifier::Alt),
            super_key: self.spec_held(Modifier::Super),
            key,
        }
    }

    pub open spec fn spec_matches(self, hotkey: Hotkey, key: u16) -> bool {
        &&& self.spec_held(Modifier::Ctrl) == hotkey.ctrl
        &&& self.spec_held(Modifier::Shift) == hotkey.shift
        &&& self.spec_held(Modifier::Alt) == hotkey.alt
        &&& self.spec_held(Modifier::Super) == hotkey.super_key
        &&& key == hotkey.key
    }

    /// Icons of the held modifiers, in the order Ctrl, Shift, Alt, Super.
    pub open spec fn spec_icons(self) -> Seq<&'static str> {
        (if self.spec_held(Modifier::Ctrl) { seq![CTRL_ICON] } else { Seq::empty() })
            + (if self.spec_held(Modifier::Shift) { seq![SHIFT_ICON] } else { Seq::empty() })
            + (if self.spec_held(Modifier::Alt) { seq![ALT_ICON] } else { Seq::empty() })
            + (if self.spec_held(Modifier::Super) { seq![SUPER_ICON] } else { Seq::empty() })
    }

    /// Nothing held.
    pub fn new() -> (res: Self)
        ensures
            forall|m: Modifier| !res.spec_held(m),
    {
        ModifierState { ctrl: false, shift: false, alt: false, super_key: false }
    }

    /// Records `modifier` as held or released.
    pub fn set(&mut self, modifier: Modifier, pressed: bool)
        ensures
            *final(self) == old(self).spec_set(modifier, pressed),
            final(self).spec_held(modifier) == pressed,
            forall|m: Modifier| m != modifier ==> final(self).spec_held(m) == old(self).spec_held(m),
    {
        match modifier {
            Modifier::Ctrl => self.ctrl = pressed,
            Modifier::Shift => self.shift = pressed,
            Modifier::Alt => self.alt = pressed,
            Modifier::Super => self.super_key = pressed,
        }
    }

    /// Whether `modifier` is held.
    pub fn is_held(&self, modifier: Modifier) -> (res: bool)
        ensures
            res == self.spec_held(modifier),
    {
        match modifier {
            Modifier::Ctrl => self.ctrl,
            Modifier::Shift => self.shift,
            Modifier::Alt => self.alt,
            Modifier::Super => self.super_key,
        }
    }

    /// Whether Shift is held.
    pub fn shift_held(&self) -> (res: bool)
        ensures
            res == self.spec_held(Modifier::Shift),
    {
        self.is_held(Modifier::Shift)
    }

    /// The held modifiers and `key` as a hotkey (for recording the pause hotkey).
    pub fn to_hotkey(&self, key: u16) -> (res: Hotkey)
        ensures
            res == self.spec_to_hotkey(key),
    {
        Hotkey {
            ctrl: self.is_held(Modifier::Ctrl),
            shift: self.is_held(Modifier::Shift),
            alt: self.is_held(Modifier::Alt),
            super_key: self.is_held(Modifier::Super),
            key,
        }
    }

    /// Icons of the held modifiers, in the order Ctrl, Shift, Alt, Super.
    pub fn modifiers(&self) -> (res: Vec<&'static str>)
        ensures
            res@ == self.spec_icons(),
    {
        let mut res: Vec<&'static str> = Vec::new();
        if self.ctrl {
            res.push(CTRL_ICON);
        }
        if self.shift {
            res.push(SHIFT_ICON);
        }
        if self.alt {
            res.push(ALT_ICON);
        }
        if self.super_key {
            res.push(SUPER_ICON);
        }
        assert(res@ =~= self.spec_icons());
        res
    }

    /// Whether the held modifiers are exactly those of `hotkey` and `key` is its key
    /// (the pause hotkey test).
    pub fn matches_hotkey(&self, hotkey: &Hotkey, key: u16) -> (res: bool)
        ensures
            res == self.spec_matches(*hotkey, key),
    {
        self.ctrl == hotkey.ctrl && self.shift == hotkey.shift && self.alt == hotkey.alt
            && self.super_key == hotkey.super_key && key == hotkey.key
    }
}

impl Default for ModifierState {
    /// Nothing held.
    fn default() -> (res: Self)
        ensures
            forall|m: Modifier| !res.spec_held(m),
    {
        ModifierState::new()
    }
}

/// Law: a recorded hotkey matches the very press that recorded it.
pub proof fn lemma_recorded_hotkey_matches(mods: ModifierState, key: u16)
    ensures
        mods.spec_matches(mods.spec_to_hotkey(key), key),
{
}

/// The text of a combination: the held modifiers, then the key. Shift is left out
/// where it turns the key into another character (`[` with Shift shows as `{`).
pub open spec fn spec_combo(mods: ModifierState, key: u16) -> Seq<char> {
    let shift = mods.spec_held(Modifier::Shift);
    let consumed = shift && spec_symbol_label(key) is Some;
    icon_part(mods.spec_held(Modifier::Ctrl), CTRL_ICON) + icon_part(shift && !consumed, SHIFT_ICON)
        + icon_part(mods.spec_held(Modifier::Alt), ALT_ICON) + icon_part(
        mods.spec_held(Modifier::Super),
        SUPER_ICON,
    ) + spec_key_label(key, shift)
}

/// Appends `icon` and the separator to `text` where `shown`.
fn append_part(text: &mut String, shown: bool, icon: &'static str)
    ensures
        final(text)@ == old(text)@ + icon_part(shown, icon),
{
    if shown {
        text.append(icon);
        text.append(COMBO_SEP);
    } else {
        assert(old(text)@ + icon_part(shown, icon) =~= old(text)@);
    }
}

/// The text of the combination of the held modifiers and `key`.
pub fn combo_label(mods: &ModifierState, key: u16) -> (res: String)
    ensures
        res@ == spec_combo(*mods, key),
{
    let shift = mods.shift_held();
    // a symbol key with a Shift variant shows the shifted character instead of the Shift icon
    let consumed = shift && has_shift_variant(key);
    let mut text = String::new();
    append_part(&mut text, mods.is_held(Modifier::Ctrl), CTRL_ICON);
    append_part(&mut text, shift && !consumed, SHIFT_ICON);
    append_part(&mut text, mods.is_held(Modifier::Alt), ALT_ICON);
    append_part(&mut text, mods.is_held(Modifier::Super), SUPER_ICON);
    let label = key_label(key, shift);
    text.append(label.as_str());
    assert(text@ =~= spec_combo(*mods, key));
    text
}

/// The text of a hotkey: its modifiers in the order Ctrl, Shift, Alt, Super, then its key.
pub open spec fn spec_hotkey_label(hotkey: Hotkey) -> Seq<char> {
    icon_part(hotkey.ctrl, CTRL_ICON) + icon_part(hotkey.shift, SHIFT_ICON) + icon_part(
        hotkey.alt,
        ALT_ICON,
    ) + icon_part(hotkey.super_key, SUPER_ICON) + spec_key_label(hotkey.key, false)
}

/// The text that the settings window shows for a hotkey (`⌃ + ⌥ + P`).
pub fn hotkey_label(hotkey: &Hotkey) -> (res: String)
    ensures
        res@ == spec_hotkey_label(*hotkey),
{
    let mut text = String::new();
    append_part(&mut text, hotkey.ctrl, CTRL_ICON);
    append_part(&mut text, hotkey.shift, SHIFT_ICON);
    append_part(&mut text, hotkey.alt, ALT_ICON);
    append_part(&mut text, hotkey.super_key, SUPER_ICON);
    let label = key_label(hotkey.key, false);
    text.append(label.as_str());
    assert(text@ =~= spec_hotkey_label(*hotkey));
    text
}

/// The decimal digits of `n`, most significant first, without leading zeros.
pub open spec fn spec_decimal(n: nat) -> Seq<char>
    decreases n,
{
    if n < 10 {
        seq![((n + 48) as u8) as char]
    } else {
        spec_decimal(n / 10) + seq![(((n % 10) + 48) as u8) as char]
    }
}

/// The digit `d` as text.
fn digit(d: u32) -> (res: &'static str)
    requires
        d < 10,
    ensures
        res@ == seq![((d + 48) as u8) as char],
{
    proof {
        reveal_strlit("0");
        reveal_strlit("1");
        reveal_strlit("2");
        reveal_strlit("3");
        reveal_strlit("4");
        reveal_strlit("5");
        reveal_strlit("6");
        reveal_strlit("7");
        reveal_strlit("8");
        reveal_strlit("9");
    }
    match d {
        0 => "0",
        1 => "1",
        2 => "2",
        3 => "3",
        4 => "4",
        5 => "5",
        6 => "6",
        7 => "7",
        8 => "8",
        _ => "9",
    }
}

/// `n` in decimal.
pub fn decimal(n: u32) -> (res: String)
    ensures
        res@ == spec_decimal(n as nat),
    decreases n,
{
    if n < 10 {
        String::from_str(digit(n))
    } else {
        let mut text = decimal(n / 10);
        text.append(digit(n % 10));
        text
    }
}

/// The text of a chip for a combination pressed `count` times in a row.
pub open spec fn spec_chip_text(combo: Seq<char>, count: u32) -> Seq<char> {
    if count == 1 {
        combo
    } else {
        combo + seq![' ', '*'] + spec_decimal(count as nat)
    }
}

/// Nanoseconds from `since` to `now`; zero where `now` is earlier.
pub open spec fn spec_elapsed(since: u64, now: u64) -> int {
    if now >= since {
        now - since
    } else {
        0
    }
}

/// The abstract state of a `KeyReporter`.
pub struct ReporterView {
    pub modifiers: ModifierState,
    pub last_combo: Option<Seq<char>>,
    pub count: u32,
    pub last_print: Option<u64>,
}

/// Whether a press of `combo` at `now` continues the run of presses that `s` counts:
/// the same combination, within the timeout of the previous press.
pub open spec fn spec_repeats(s: ReporterView, combo: Seq<char>, now: u64) -> bool {
    &&& s.last_print matches Some(t) && spec_elapsed(t, now) < RESET_TIMEOUT_NS
    &&& s.last_combo == Some(combo)
}

/// One key event: the next state, the next control state, and the text of the
/// chip to show, if any.
///
/// - a modifier updates the held set; its press shows its icon and breaks a run
/// - a release of another key does nothing
/// - while recording, a press is captured as the new hotkey and not shown
/// - a press of the pause hotkey toggles the pause and is not shown
/// - any other press shows its combination, counted while it repeats in time
pub open spec fn spec_step(
    s: ReporterView,
    input: KeyInput,
    now: u64,
    pause_hotkey: Hotkey,
    control: PauseControl,
) -> (ReporterView, PauseControl, Option<Seq<char>>) {
    match spec_modifier_of(input.key) {
        Some(m) => {
            let modifiers = s.modifiers.spec_set(m, input.pressed);
            if input.pressed {
                (
                    ReporterView { modifiers, last_combo: None, ..s },
                    control,
                    Some(m.spec_icon()@),
                )
            } else {
                (ReporterView { modifiers, ..s }, control, None)
            }
        },
        None => {
            if !input.pressed {
                (s, control, None)
            } else if control.capture {
                (
                    ReporterView { last_combo: None, ..s },
                    PauseControl {
                        captured: Some(s.modifiers.spec_to_hotkey(input.key)),
                        capture: false,
                        ..control
                    },
                    None,
                )
            } else if s.modifiers.spec_matches(pause_hotkey, input.key) {
                (
                    ReporterView { last_combo: None, ..s },
                    PauseControl { paused: !control.paused, ..control },
                    None,
                )
            } else {
                let combo = spec_combo(s.modifiers, input.key);
                let count: u32 = if spec_repeats(s, combo, now) {
                    if s.count < u32::MAX { (s.count + 1) as u32 } else { s.count }
                } else {
                    1
                };
                (
                    ReporterView {
                        modifiers: s.modifiers,
                        last_combo: Some(combo),
                        count,
                        last_print: Some(now),
                    },
                    control,
                    Some(spec_chip_text(combo, count)),
                )
            }
        },
    }
}

/// Turns key events into chips.
pub struct KeyReporter {
    pub modifiers: ModifierState,
    /// The combination of the current run of presses.
    pub last_combo: Option<String>,
    /// How many times in a row it was pressed.
    pub count: u32,
    /// When the last combination was shown, in nanoseconds of a monotonic clock.
    pub last_print: Option<u64>,
}

impl View for KeyReporter {
    type V = ReporterView;

    open spec fn view(&self) -> ReporterView {
        ReporterView {
            modifiers: self.modifiers,
            last_combo: match self.last_combo {
                Some(c) => Some(c@),
                None => None,
            },
            count: self.count,
            last_print: self.last_print,
        }
    }
}

impl KeyReporter {
    /// Nothing held, no run of presses.
    pub fn new() -> (res: Self)
        ensures
            forall|m: Modifier| !res@.modifiers.spec_held(m),
            res@.last_combo is None,
            res@.count == 0,
            res@.last_print is None,
    {
        KeyReporter { modifiers: ModifierState::new(), last_combo: None, count: 0, last_print: None }
    }

    /// Handles one key event at time `now` (nanoseconds of a monotonic clock) and
    /// returns the chip to show, if any. `pause_hotkey` is the current pause hotkey;
    /// `control` is recorded into or toggled as `spec_step` says.
    pub fn handle(
        &mut self,
        input: KeyInput,
        now: u64,
        pause_hotkey: &Hotkey,
        control: &mut PauseControl,
    ) -> (res: Option<Chip>)
        ensures
            ({
                let (next, next_control, shown) = spec_step(
                    old(self)@,
                    input,
                    now,
                    *pause_hotkey,
                    *old(control),
                );
                &&& final(self)@ == next
                &&& *final(control) == next_control
                &&& match res {
                    Some(chip) => shown == Some(chip.text@) && chip.accent is None,
                    None => shown is None,
                }
            }),
    {
        let key = input.key;
        // a modifier updates the held set; a press also shows its icon on its own
        if let Some(modifier) = modifier_of(key) {
            self.modifiers.set(modifier, input.pressed);
            if input.pressed {
                // break a run, so that the next key does not count on from before
                self.last_combo = None;
                return Some(Chip::key(String::from_str(modifier.icon())));
            }
            return None;
        }
        // other keys: presses only
        if !input.pressed {
            return None;
        }
        // recording: capture the combination as the new hotkey, show nothing
        if control.capture {
            control.captured = Some(self.modifiers.to_hotkey(key));
            control.capture = false;
            self.last_combo = None;
            return None;
        }
        // the pause hotkey toggles the pause and is not shown
        if self.modifiers.matches_hotkey(pause_hotkey, key) {
            control.paused = !control.paused;
            self.last_combo = None;
            return None;
        }

        let combo = combo_label(&self.modifiers, key);
        let timed_out = match self.last_print {
            Some(t) => {
                let elapsed = if now >= t { now - t } else { 0 };
                elapsed >= RESET_TIMEOUT_NS
            },
            None => true,
        };
        let same = match &self.last_combo {
            Some(c) => *c == combo,
            None => false,
        };
        // count on only for the same combination within the timeout, else start at one
        if !timed_out && same {
            self.count = self.count.saturating_add(1);
        } else {
            self.last_combo = Some(combo.clone());
            self.count = 1;
        }
        self.last_print = Some(now);

        if self.count == 1 {
            Some(Chip::key(combo))
        } else {
            let mut text = combo;
            proof {
                reveal_strlit(" *");
            }
            text.append(" *");
            let digits = decimal(self.count);
            text.append(digits.as_str());
            Some(Chip::key(text))
        }
    }
}


/// Law: pressing the same key again within the timeout, with the same modifiers
/// held, counts the run on; a first press after no run shows the plain combination
/// and the second one shows it with ` *2`.
pub proof fn lemma_repeat_counts_on(
    s: ReporterView,
    key: u16,
    t1: u64,
    t2: u64,
    pause_hotkey: Hotkey,
    control: PauseControl,
)
    requires
        spec_modifier_of(key) is None,
        !control.capture,
        !s.modifiers.spec_matches(pause_hotkey, key),
        t1 <= t2,
        t2 - t1 < RESET_TIMEOUT_NS,
    ensures
        ({
            let press = KeyInput { key, pressed: true };
            let (s1, c1, o1) = spec_step(s, press, t1, pause_hotkey, control);
            let (s2, c2, o2) = spec_step(s1, press, t2, pause_hotkey, c1);
            let combo = spec_combo(s.modifiers, key);
            &&& c2 == control
            &&& s2.count == (if s1.count < u32::MAX { s1.count + 1 } else { s1.count as int })
            &&& o2 == Some(spec_chip_text(combo, s2.count))
            &&& s.last_combo is None ==> {
                &&& o1 == Some(combo)
                &&& o2 == Some(combo + seq![' ', '*', '2'])
            }
        }),
{
    assert(spec_decimal(2) =~= seq!['2']);
}

/// Law: a press after the timeout starts a new run, shown without a count.
pub proof fn lemma_timeout_restarts(
    s: ReporterView,
    key: u16,
    now: u64,
    pause_hotkey: Hotkey,
    control: PauseControl,
)
    requires
        spec_modifier_of(key) is None,
        !control.capture,
        !s.modifiers.spec_matches(pause_hotkey, key),
        s.last_print matches Some(t) && spec_elapsed(t, now) >= RESET_TIMEOUT_NS,
    ensures
        ({
            let (s1, c1, o1) = spec_step(s, KeyInput { key, pressed: true }, now, pause_hotkey, control);
            &&& s1.count == 1
            &&& o1 == Some(spec_combo(s.modifiers, key))
        }),
{
}

/// Law: a modifier press breaks a run, so the next key press starts at one.
pub proof fn lemma_modifier_breaks_run(
    s: ReporterView,
    modifier_key: u16,
    key: u16,
    t1: u64,
    t2: u64,
    pause_hotkey: Hotkey,
    control: PauseControl,
)
    requires
        spec_modifier_of(modifier_key) is Some,
        spec_modifier_of(key) is None,
        !control.capture,
    ensures
        ({
            let (s1, c1, o1) = spec_step(s, KeyInput { key: modifier_key, pressed: true }, t1, pause_hotkey, control);
            let (s2, c2, o2) = spec_step(s1, KeyInput { key, pressed: true }, t2, pause_hotkey, c1);
            &&& o1 == Some(spec_modifier_of(modifier_key).unwrap().spec_icon()@)
            &&& !s1.modifiers.spec_matches(pause_hotkey, key) ==> s2.count == 1
        }),
{
}

/// Law: the pause hotkey, pressed twice, leaves the pause as it was and shows nothing.
pub proof fn lemma_pause_toggles_back(
    s: ReporterView,
    t1: u64,
    t2: u64,
    pause_hotkey: Hotkey,
    control: PauseControl,
)
    requires
        spec_modifier_of(pause_hotkey.key) is None,
        !control.capture,
        s.modifiers.spec_matches(pause_hotkey, pause_hotkey.key),
    ensures
        ({
            let press = KeyInput { key: pause_hotkey.key, pressed: true };
            let (s1, c1, o1) = spec_step(s, press, t1, pause_hotkey, control);
            let (s2, c2, o2) = spec_step(s1, press, t2, pause_hotkey, c1);
            &&& c1.paused == !control.paused
            &&& c2 == control
            &&& o1 is None
            &&& o2 is None
        }),
{
}

/// Law: a combination recorded as the pause hotkey then toggles the pause when
/// it is pressed again with the same modifiers held.
pub proof fn lemma_recorded_combination_pauses(
    s: ReporterView,
    key: u16,
    t1: u64,
    t2: u64,
    old_hotkey: Hotkey,
    control: PauseControl,
)
    requires
        spec_modifier_of(key) is None,
        control.capture,
    ensures
        ({
            let press = KeyInput { key, pressed: true };
            let (s1, c1, o1) = spec_step(s, press, t1, old_hotkey, control);
            let recorded = c1.captured.unwrap();
            let (s2, c2, o2) = spec_step(s1, press, t2, recorded, c1);
            &&& c1.captured == Some(s.modifiers.spec_to_hotkey(key))
            &&& !c1.capture
            &&& o1 is None
            &&& c2.paused == !control.paused
            &&& o2 is None
        }),
{
}

/// Law: releasing a key that is no modifier changes nothing and shows nothing.
pub proof fn lemma_release_is_silent(
    s: ReporterView,
    key: u16,
    now: u64,
    pause_hotkey: Hotkey,
    control: PauseControl,
)
    requires
        spec_modifier_of(key) is None,
    ensures
        spec_step(s, KeyInput { key, pressed: false }, now, pause_hotkey, control) == (s, control, Option::<Seq<char>>::None),
{
}

/// A sequence of timed key events, each handled as `spec_step` says: the state
/// and control state after them.
pub open spec fn spec_steps(
    s: ReporterView,
    control: PauseControl,
    events: Seq<(KeyInput, u64)>,
    pause_hotkey: Hotkey,
) -> (ReporterView, PauseControl)
    decreases events.len(),
{
    if events.len() == 0 {
        (s, control)
    } else {
        let (before, before_control) = spec_steps(s, control, events.drop_last(), pause_hotkey);
        let (after, after_control, _) = spec_step(
            before,
            events.last().0,
            events.last().1,
            pause_hotkey,
            before_control,
        );
        (after, after_control)
    }
}

/// Whether every event is a release.
pub open spec fn all_releases(events: Seq<(KeyInput, u64)>) -> bool {
    forall|i: int| 0 <= i < events.len() ==> !(#[trigger] events[i]).0.pressed
}

/// Law: releases, of any keys and at any times, leave the run of presses (its
/// combination, count and time) and the control state as they were.
pub proof fn lemma_releases_keep_run(
    s: ReporterView,
    control: PauseControl,
    events: Seq<(KeyInput, u64)>,
    pause_hotkey: Hotkey,
)
    requires
        all_releases(events),
    ensures
        ({
            let (after, after_control) = spec_steps(s, control, events, pause_hotkey);
            &&& after.last_combo == s.last_combo
            &&& after.count == s.count
            &&& after.last_print == s.last_print
            &&& after_control == control
        }),
    decreases events.len(),
{
    if events.len() > 0 {
        let rest = events.drop_last();
        assert forall|i: int| 0 <= i < rest.len() implies !(#[trigger] rest[i]).0.pressed by {
            assert(rest[i] == events[i]);
        }
        lemma_releases_keep_run(s, control, rest, pause_hotkey);
        assert(!events[events.len() - 1].0.pressed);
    }
}

/// Law: after a combination `c` was shown `n` times in a run, any releases in
/// between, and then a press that forms `c` again within the timeout of the last
/// display (neither recorded nor the pause hotkey), show `c` with count `n + 1`.
pub proof fn lemma_run_continues(
    s: ReporterView,
    control: PauseControl,
    events: Seq<(KeyInput, u64)>,
    key: u16,
    now: u64,
    pause_hotkey: Hotkey,
)
    requires
        s.last_combo is Some,
        s.last_print matches Some(t) && t <= now && now - t < RESET_TIMEOUT_NS,
        all_releases(events),
        spec_modifier_of(key) is None,
        !control.capture,
    ensures
        ({
            let (mid, mid_control) = spec_steps(s, control, events, pause_hotkey);
            let c = s.last_combo.unwrap();
            let (after, after_control, shown) = spec_step(
                mid,
                KeyInput { key, pressed: true },
                now,
                pause_hotkey,
                mid_control,
            );
            let n1: u32 = if s.count < u32::MAX { (s.count + 1) as u32 } else { s.count };
            spec_combo(mid.modifiers, key) == c && !mid.modifiers.spec_matches(pause_hotkey, key)
                ==> {
                &&& after.count == n1
                &&& shown == Some(spec_chip_text(c, n1))
            }
        }),
{
    lemma_releases_keep_run(s, control, events, pause_hotkey);
}

/// Law: a press that forms a combination other than the current run's (or comes
/// when there is no run) starts a new run: it shows the plain combination.
pub proof fn lemma_other_combination_restarts(
    s: ReporterView,
    key: u16,
    now: u64,
    pause_hotkey: Hotkey,
    control: PauseControl,
)
    requires
        spec_modifier_of(key) is None,
        !control.capture,
        !s.modifiers.spec_matches(pause_hotkey, key),
        s.last_combo != Some(spec_combo(s.modifiers, key)),
    ensures
        ({
            let (after, _, shown) = spec_step(s, KeyInput { key, pressed: true }, now, pause_hotkey, control);
            &&& after.count == 1
            &&& after.last_combo == Some(spec_combo(s.modifiers, key))
            &&& shown == Some(spec_combo(s.modifiers, key))
        }),
{
}

/// Law: every press ends the current run or replaces it: afterwards the run is
/// none (modifier, recording, pause hotkey), or it is the combination just shown.
pub proof fn lemma_press_ends_or_replaces_run(
    s: ReporterView,
    key: u16,
    now: u64,
    pause_hotkey: Hotkey,
    control: PauseControl,
)
    ensures
        ({
            let (after, _, shown) = spec_step(s, KeyInput { key, pressed: true }, now, pause_hotkey, control);
            ||| after.last_combo is None
            ||| (after.last_combo == Some(spec_combo(s.modifiers, key)) && after.last_print == Some(now)
                && shown == Some(spec_chip_text(spec_combo(s.modifiers, key), after.count)))
        }),
{
}

/// Whether pressing `input` in state `s` (with `control`) shows the combination `c`.
pub open spec fn step_shows(
    s: ReporterView,
    control: PauseControl,
    input: KeyInput,
    pause_hotkey: Hotkey,
    c: Seq<char>,
) -> bool {
    &&& spec_modifier_of(input.key) is None
    &&& input.pressed
    &&& !control.capture
    &&& !s.modifiers.spec_matches(pause_hotkey, input.key)
    &&& spec_combo(s.modifiers, input.key) == c
}

/// Whether no event of `events`, handled from `s`, shows the combination `c`.
pub open spec fn never_shows(
    s: ReporterView,
    control: PauseControl,
    events: Seq<(KeyInput, u64)>,
    pause_hotkey: Hotkey,
    c: Seq<char>,
) -> bool
    decreases events.len(),
{
    if events.len() == 0 {
        true
    } else {
        let (before, before_control) = spec_steps(s, control, events.drop_last(), pause_hotkey);
        &&& never_shows(s, control, events.drop_last(), pause_hotkey, c)
        &&& !step_shows(before, before_control, events.last().0, pause_hotkey, c)
    }
}

/// Events that show no `c`: releases only keep the run as it was; any press
/// leaves a run other than `c`.
proof fn lemma_run_after(
    s: ReporterView,
    control: PauseControl,
    events: Seq<(KeyInput, u64)>,
    pause_hotkey: Hotkey,
    c: Seq<char>,
)
    requires
        never_shows(s, control, events, pause_hotkey, c),
    ensures
        ({
            let (mid, _) = spec_steps(s, control, events, pause_hotkey);
            &&& all_releases(events) ==> mid.last_combo == s.last_combo && mid.count == s.count
                && mid.last_print == s.last_print
            &&& !all_releases(events) ==> mid.last_combo != Some(c)
        }),
    decreases events.len(),
{
    if events.len() > 0 {
        let rest = events.drop_last();
        lemma_run_after(s, control, rest, pause_hotkey, c);
        let e = events.last();
        if all_releases(events) {
            assert forall|i: int| 0 <= i < rest.len() implies !(#[trigger] rest[i]).0.pressed by {
                assert(rest[i] == events[i]);
            }
            assert(!events[events.len() - 1].0.pressed);
        } else if all_releases(rest) {
            if !e.0.pressed {
                let k = choose|i: int| 0 <= i < events.len() && (#[trigger] events[i]).0.pressed;
                if k < rest.len() {
                    assert(rest[k] == events[k]);
                }
            }
        }
    }
}

/// Law: once a combination `c` has been shown `n` times in a run (the state `s`),
/// and then any events that do not show `c` again, the next press that forms `c`
/// shows `c` with count `n + 1` where all those events were releases and it comes
/// within the timeout of the last display of `c`; otherwise (the timeout passed, or
/// a modifier was pressed, another combination shown, the pause hotkey used, or a
/// hotkey recorded in between) it starts again and shows `c` alone.
pub proof fn lemma_run_law(
    s: ReporterView,
    control: PauseControl,
    events: Seq<(KeyInput, u64)>,
    key: u16,
    now: u64,
    pause_hotkey: Hotkey,
    c: Seq<char>,
    t: u64,
)
    requires
        s.last_combo == Some(c),
        s.last_print == Some(t),
        never_shows(s, control, events, pause_hotkey, c),
    ensures
        ({
            let (mid, mid_control) = spec_steps(s, control, events, pause_hotkey);
            let press = KeyInput { key, pressed: true };
            let (after, _, shown) = spec_step(mid, press, now, pause_hotkey, mid_control);
            let continues = all_releases(events) && spec_elapsed(t, now) < RESET_TIMEOUT_NS;
            let n1: u32 = if s.count < u32::MAX { (s.count + 1) as u32 } else { s.count };
            step_shows(mid, mid_control, press, pause_hotkey, c) ==> {
                &&& continues ==> after.count == n1 && shown == Some(spec_chip_text(c, n1))
                &&& !continues ==> after.count == 1 && shown == Some(c)
            }
        }),
{
    lemma_run_after(s, control, events, pause_hotkey, c);
}

/// Law: a recorded hotkey copies every modifier flag as it is held, and the key.
pub proof fn lemma_hotkey_copies_modifiers(mods: ModifierState, key: u16)
    ensures
        mods.spec_to_hotkey(key).ctrl == mods.ctrl,
        mods.spec_to_hotkey(key).shift == mods.shift,
        mods.spec_to_hotkey(key).alt == mods.alt,
        mods.spec_to_hotkey(key).super_key == mods.super_key,
        mods.spec_to_hotkey(key).key == key,
{
}

/// Law: a press matches a hotkey exactly when its key is the hotkey's and each of
/// Ctrl, Shift, Alt and Super is held exactly when the hotkey asks for it.
pub proof fn lemma_matches_needs_every_modifier(mods: ModifierState, hotkey: Hotkey, key: u16)
    ensures
        mods.spec_matches(hotkey, key) <==> (mods.ctrl == hotkey.ctrl && mods.shift == hotkey.shift
            && mods.alt == hotkey.alt && mods.super_key == hotkey.super_key && key == hotkey.key),
{
}

/// Law: recording while Super is held gives a hotkey with Super, which a press of
/// the same key without Super does not match (it is shown instead of pausing).
pub proof fn lemma_recorded_super_is_kept(s: ReporterView, key: u16, control: PauseControl, t: u64)
    requires
        spec_modifier_of(key) is None,
        control.capture,
        s.modifiers.super_key,
    ensures
        ({
            let (s1, c1, _) = spec_step(s, KeyInput { key, pressed: true }, t, Hotkey { ctrl: false, shift: false, alt: false, super_key: false, key: 0 }, control);
            let h = c1.captured.unwrap();
            &&& h.super_key
            &&& !ModifierState { super_key: false, ..s.modifiers }.spec_matches(h, key)
        }),
{
}

/// Law: each modifier key, pressed or released, sets just its own flag (left and
/// right keys alike): Ctrl 29 / 97, Shift 42 / 54, Alt 56 / 100, Super 125 / 126.
pub proof fn lemma_modifier_keys_set_flags(
    s: ReporterView,
    pressed: bool,
    t: u64,
    pause_hotkey: Hotkey,
    control: PauseControl,
)
    ensures
        ({
            let m = s.modifiers;
            let after = |key: u16| spec_step(s, KeyInput { key, pressed }, t, pause_hotkey, control).0.modifiers;
            &&& after(29) == ModifierState { ctrl: pressed, ..m }
            &&& after(97) == ModifierState { ctrl: pressed, ..m }
            &&& after(42) == ModifierState { shift: pressed, ..m }
            &&& after(54) == ModifierState { shift: pressed, ..m }
            &&& after(56) == ModifierState { alt: pressed, ..m }
            &&& after(100) == ModifierState { alt: pressed, ..m }
            &&& after(125) == ModifierState { super_key: pressed, ..m }
            &&& after(126) == ModifierState { super_key: pressed, ..m }
        }),
{
}

/// Law: the icons of the held modifiers come in the order Ctrl, Shift, Alt, Super,
/// each exactly when its flag is set.
pub proof fn lemma_icons_follow_flags(mods: ModifierState)
    ensures
        mods.spec_icons() == (if mods.ctrl { seq!["\u{F0634}"] } else { Seq::<&'static str>::empty() })
            + (if mods.shift { seq!["\u{F0636}"] } else { Seq::<&'static str>::empty() })
            + (if mods.alt { seq!["\u{F0635}"] } else { Seq::<&'static str>::empty() })
            + (if mods.super_key { seq!["\u{F0633}"] } else { Seq::<&'static str>::empty() }),
{
}

/// Law: Shift held with a key that has no Shift variant keeps the Shift icon and
/// its separator, right after Ctrl's, in the combination; the rest is the
/// combination without Ctrl and Shift.
pub proof fn lemma_shift_shown_for_other_keys(mods: ModifierState, key: u16)
    requires
        mods.shift,
        spec_symbol_label(key) is None,
    ensures
        spec_combo(mods, key) == (if mods.ctrl { seq!['\u{F0634}', ' ', '+', ' '] } else { Seq::<char>::empty() })
            + seq!['\u{F0636}', ' ', '+', ' '] + spec_combo(ModifierState { ctrl: false, shift: false, ..mods }, key),
{
    reveal_strlit("\u{F0634}");
    reveal_strlit("\u{F0636}");
    reveal_strlit(" + ");
    crate::keymap::lemma_shift_only_changes_symbols(key);
    let c = if mods.ctrl { seq!['\u{F0634}', ' ', '+', ' '] } else { Seq::<char>::empty() };
    assert(spec_combo(mods, key) =~= c + seq!['\u{F0636}', ' ', '+', ' '] + spec_combo(
        ModifierState { ctrl: false, shift: false, ..mods },
        key,
    ));
}

/// Law: Shift held with a digit or punctuation key shows no Shift icon: the key
/// shows its shifted character instead, after the other held modifiers.
pub proof fn lemma_shift_folds_into_symbols(mods: ModifierState, key: u16)
    requires
        mods.shift,
        spec_symbol_label(key) is Some,
    ensures
        spec_combo(mods, key) == spec_combo(ModifierState { shift: false, ..mods }, key).take(
            spec_combo(ModifierState { shift: false, ..mods }, key).len() - spec_symbol_label(key).unwrap().0@.len(),
        ) + spec_symbol_label(key).unwrap().1@,
{
    let m0 = ModifierState { shift: false, ..mods };
    let prefix = icon_part(mods.ctrl, CTRL_ICON) + icon_part(false, SHIFT_ICON) + icon_part(mods.alt, ALT_ICON)
        + icon_part(mods.super_key, SUPER_ICON);
    assert(spec_combo(m0, key) =~= prefix + spec_symbol_label(key).unwrap().0@);
    assert(spec_combo(m0, key).take(spec_combo(m0, key).len() - spec_symbol_label(key).unwrap().0@.len()) =~= prefix);
    assert(spec_combo(mods, key) =~= prefix + spec_symbol_label(key).unwrap().1@);
}

/// The number that a sequence of decimal digits stands for.
pub open spec fn digits_value(digits: Seq<char>) -> int
    decreases digits.len(),
{
    if digits.len() == 0 {
        0
    } else {
        digits_value(digits.drop_last()) * 10 + (digits.last() as int - '0' as int)
    }
}

/// Law: `decimal` writes `n` in decimal digits with no leading zero, and the digits
/// stand for `n`.
pub proof fn lemma_decimal_denotes(n: nat)
    ensures
        spec_decimal(n).len() >= 1,
        forall|i: int| 0 <= i < spec_decimal(n).len() ==> '0' <= #[trigger] spec_decimal(n)[i] <= '9',
        spec_decimal(n).len() > 1 ==> spec_decimal(n)[0] != '0',
        digits_value(spec_decimal(n)) == n,
    decreases n,
{
    if n >= 10 {
        lemma_decimal_denotes(n / 10);
        lemma_digit_char((n % 10) as nat);
        let d = spec_decimal(n);
        assert(d.drop_last() =~= spec_decimal(n / 10));
        assert(d.last() == (((n % 10) + 48) as u8) as char);
        assert(d[0] == spec_decimal(n / 10)[0]);
        assert(n == (n / 10) * 10 + n % 10) by (nonlinear_arith);
        assert(digits_value(d) == digits_value(spec_decimal(n / 10)) * 10 + (n % 10) as int);
        if n / 10 < 10 {
            lemma_digit_char((n / 10) as nat);
            assert(spec_decimal(n / 10)[0] == (((n / 10) + 48) as u8) as char);
            assert(n / 10 >= 1);
            assert('0' as int == 48);
            assert(spec_decimal(n / 10)[0] as int != '0' as int);
        } else {
            lemma_decimal_denotes(n / 100);
            assert(spec_decimal(n / 10).len() == spec_decimal(n / 10 / 10).len() + 1);
        }
    } else {
        lemma_digit_char(n);
        assert(spec_decimal(n).drop_last() =~= Seq::<char>::empty());
        assert(digits_value(Seq::<char>::empty()) == 0);
    }
}

/// The digit character of `d` stands for `d`.
proof fn lemma_digit_char(d: nat)
    requires
        d < 10,
    ensures
        (((d + 48) as u8) as char) as int == d + 48,
{
}

/// Law: the run of presses continues for a press just under one second after the
/// last display and restarts at exactly one second.
pub proof fn lemma_one_second_timeout(t: u64)
    requires
        t <= u64::MAX - 1_000_000_000,
    ensures
        spec_elapsed(t, (t + 999_999_999) as u64) < RESET_TIMEOUT_NS,
        spec_elapsed(t, (t + 1_000_000_000) as u64) >= RESET_TIMEOUT_NS,
        RESET_TIMEOUT_NS == 1_000_000_000,
{
}

/// Law: a chip shows its combination alone for the first press of a run, and the
/// combination, a space, an asterisk and the count for every later press.
pub proof fn lemma_chip_text_shape(combo: Seq<char>, count: u32)
    requires
        count >= 2,
    ensures
        spec_chip_text(combo, 1) == combo,
        spec_chip_text(combo, count).take(combo.len() as int + 2) == combo + seq![' ', '*'],
        digits_value(spec_chip_text(combo, count).skip(combo.len() as int + 2)) == count,
{
    lemma_decimal_denotes(count as nat);
    assert(spec_chip_text(combo, count).take(combo.len() as int + 2) =~= combo + seq![' ', '*']);
    assert(spec_chip_text(combo, count).skip(combo.len() as int + 2) =~= spec_decimal(count as nat));
}

/// Law: a hotkey whose key has no Shift variant is labelled as its own press is
/// shown: the combination of its modifiers, held, and its key.
pub proof fn lemma_hotkey_label_is_its_combo(hotkey: Hotkey)
    requires
        spec_symbol_label(hotkey.key) is None,
    ensures
        spec_hotkey_label(hotkey) == spec_combo(
            ModifierState { ctrl: hotkey.ctrl, shift: hotkey.shift, alt: hotkey.alt, super_key: hotkey.super_key },
            hotkey.key,
        ),
{
    crate::keymap::lemma_shift_only_changes_symbols(hotkey.key);
}

} // verus!
