//! Key codes and their display labels.
//!
//! Digit and punctuation keys show their character and switch with Shift
//! (`[` / `{`, `1` / `!`); letter keys show the upper-case letter on the key cap;
//! keys that no character can show use a Material Design icon of the Nerd Font
//! (`nf-md-*` code points); any other key falls back to its evdev name without
//! the `KEY_` prefix (`KEY_F1` shows as `F1`).

use vstd::prelude::*;
use vstd::string::*;

verus! {

// Linux input key codes (`linux/input-event-codes.h`), the values of evdev's `KeyCode`.
pub const KEY_ESC: u16 = 1;
pub const KEY_1: u16 = 2;
pub const KEY_2: u16 = 3;
pub const KEY_3: u16 = 4;
pub const KEY_4: u16 = 5;
pub const KEY_5: u16 = 6;
pub const KEY_6: u16 = 7;
pub const KEY_7: u16 = 8;
pub const KEY_8: u16 = 9;
pub const KEY_9: u16 = 10;
pub const KEY_0: u16 = 11;
pub const KEY_MINUS: u16 = 12;
pub const KEY_EQUAL: u16 = 13;
pub const KEY_BACKSPACE: u16 = 14;
pub const KEY_TAB: u16 = 15;
pub const KEY_P: u16 = 25;
pub const KEY_LEFTBRACE: u16 = 26;
pub const KEY_RIGHTBRACE: u16 = 27;
pub const KEY_ENTER: u16 = 28;
pub const KEY_LEFTCTRL: u16 = 29;
pub const KEY_A: u16 = 30;
pub const KEY_SEMICOLON: u16 = 39;
pub const KEY_APOSTROPHE: u16 = 40;
pub const KEY_GRAVE: u16 = 41;
pub const KEY_LEFTSHIFT: u16 = 42;
pub const KEY_BACKSLASH: u16 = 43;
pub const KEY_Z: u16 = 44;
pub const KEY_COMMA: u16 = 51;
pub const KEY_DOT: u16 = 52;
pub const KEY_SLASH: u16 = 53;
pub const KEY_RIGHTSHIFT: u16 = 54;
pub const KEY_LEFTALT: u16 = 56;
pub const KEY_SPACE: u16 = 57;
pub const KEY_CAPSLOCK: u16 = 58;
pub const KEY_RIGHTCTRL: u16 = 97;
pub const KEY_RIGHTALT: u16 = 100;
pub const KEY_HOME: u16 = 102;
pub const KEY_UP: u16 = 103;
pub const KEY_PAGEUP: u16 = 104;
pub const KEY_LEFT: u16 = 105;
pub const KEY_RIGHT: u16 = 106;
pub const KEY_END: u16 = 107;
pub const KEY_DOWN: u16 = 108;
pub const KEY_PAGEDOWN: u16 = 109;
pub const KEY_DELETE: u16 = 111;
pub const KEY_MUTE: u16 = 113;
pub const KEY_VOLUMEDOWN: u16 = 114;
pub const KEY_VOLUMEUP: u16 = 115;
pub const KEY_LEFTMETA: u16 = 125;
pub const KEY_RIGHTMETA: u16 = 126;
pub const KEY_BACK: u16 = 158;
pub const KEY_FORWARD: u16 = 159;
pub const KEY_EJECTCD: u16 = 161;
pub const KEY_NEXTSONG: u16 = 163;
pub const KEY_PLAYPAUSE: u16 = 164;
pub const KEY_PREVIOUSSONG: u16 = 165;
pub const KEY_STOPCD: u16 = 166;
pub const KEY_BRIGHTNESSDOWN: u16 = 224;
pub const KEY_BRIGHTNESSUP: u16 = 225;

/// Display icons of the modifiers (`nf-md-apple_keyboard_*`).
pub const CTRL_ICON: &'static str = "\u{F0634}";
pub const SHIFT_ICON: &'static str = "\u{F0636}";
pub const ALT_ICON: &'static str = "\u{F0635}";
pub const SUPER_ICON: &'static str = "\u{F0633}";

/// Separator between the modifiers and the key of a combination (`⌘ + H`).
pub const COMBO_SEP: &'static str = " + ";

/// The four modifiers, in their display order Ctrl, Shift, Alt, Super.
#[derive(Debug, Clone, Copy, PartialEq, Eq, Structural)]
pub enum Modifier {
    Ctrl,
    Shift,
    Alt,
    Super,
}

impl Modifier {
    pub open spec fn spec_icon(self) -> &'static str {
        match self {
            Modifier::Ctrl => CTRL_ICON,
            Modifier::Shift => SHIFT_ICON,
            Modifier::Alt => ALT_ICON,
            Modifier::Super => SUPER_ICON,
        }
    }

    /// The display icon of the modifier.
    #[verifier::when_used_as_spec(spec_icon)]
    pub fn icon(self) -> (res: &'static str)
        ensures
            res == self.spec_icon(),
    {
        match self {
            Modifier::Ctrl => CTRL_ICON,
            Modifier::Shift => SHIFT_ICON,
            Modifier::Alt => ALT_ICON,
            Modifier::Super => SUPER_ICON,
        }
    }
}

/// Which modifier a key is, if any (left and right keys alike).
pub open spec fn spec_modifier_of(key: u16) -> Option<Modifier> {
    if key == KEY_LEFTCTRL || key == KEY_RIGHTCTRL {
        Some(Modifier::Ctrl)
    } else if key == KEY_LEFTSHIFT || key == KEY_RIGHTSHIFT {
        Some(Modifier::Shift)
    } else if key == KEY_LEFTALT || key == KEY_RIGHTALT {
        Some(Modifier::Alt)
    } else if key == KEY_LEFTMETA || key == KEY_RIGHTMETA {
        Some(Modifier::Super)
    } else {
        None
    }
}

/// The modifier that `key` is, or `None` for any other key.
pub fn modifier_of(key: u16) -> (res: Option<Modifier>)
    ensures
        res == spec_modifier_of(key),
{
    match key {
        KEY_LEFTCTRL | KEY_RIGHTCTRL => Some(Modifier::Ctrl),
        KEY_LEFTSHIFT | KEY_RIGHTSHIFT => Some(Modifier::Shift),
        KEY_LEFTALT | KEY_RIGHTALT => Some(Modifier::Alt),
        KEY_LEFTMETA | KEY_RIGHTMETA => Some(Modifier::Super),
        _ => None,
    }
}

/// Modifier key to its display icon; `None` for a key that is no modifier.
pub fn modifier_label(key: u16) -> (res: Option<&'static str>)
    ensures
        res == (match spec_modifier_of(key) {
            Some(m) => Some(m.spec_icon()),
            None => None,
        }),
        res is Some <==> (key == KEY_LEFTCTRL || key == KEY_RIGHTCTRL || key == KEY_LEFTSHIFT
            || key == KEY_RIGHTSHIFT || key == KEY_LEFTALT || key == KEY_RIGHTALT || key
            == KEY_LEFTMETA || key == KEY_RIGHTMETA),
{
    match key {
        KEY_LEFTCTRL | KEY_RIGHTCTRL => Some(CTRL_ICON),
        KEY_LEFTSHIFT | KEY_RIGHTSHIFT => Some(SHIFT_ICON),
        KEY_LEFTALT | KEY_RIGHTALT => Some(ALT_ICON),
        KEY_LEFTMETA | KEY_RIGHTMETA => Some(SUPER_ICON),
        _ => None,
    }
}

/// Digit and punctuation keys: the characters shown without and with Shift.
pub open spec fn spec_symbol_label(key: u16) -> Option<(&'static str, &'static str)> {
    if key == KEY_1 { Some(("1", "!")) }
    else if key == KEY_2 { Some(("2", "@")) }
    else if key == KEY_3 { Some(("3", "#")) }
    else if key == KEY_4 { Some(("4", "$")) }
    else if key == KEY_5 { Some(("5", "%")) }
    else if key == KEY_6 { Some(("6", "^")) }
    else if key == KEY_7 { Some(("7", "&")) }
    else if key == KEY_8 { Some(("8", "*")) }
    else if key == KEY_9 { Some(("9", "(")) }
    else if key == KEY_0 { Some(("0", ")")) }
    else if key == KEY_MINUS { Some(("-", "_")) }
    else if key == KEY_EQUAL { Some(("=", "+")) }
    else if key == KEY_LEFTBRACE { Some(("[", "{")) }
    else if key == KEY_RIGHTBRACE { Some(("]", "}")) }
    else if key == KEY_SEMICOLON { Some((";", ":")) }
    else if key == KEY_APOSTROPHE { Some(("'", "\"")) }
    else if key == KEY_GRAVE { Some(("`", "~")) }
    else if key == KEY_BACKSLASH { Some(("\\", "|")) }
    else if key == KEY_COMMA { Some((",", "<")) }
    else if key == KEY_DOT { Some((".", ">")) }
    else if key == KEY_SLASH { Some(("/", "?")) }
    else { None }
}

/// Digit and punctuation keys: `(without Shift, with Shift)`.
pub fn symbol_label(key: u16) -> (res: Option<(&'static str, &'static str)>)
    ensures
        res == spec_symbol_label(key),
{
    match key {
        KEY_1 => Some(("1", "!")),
        KEY_2 => Some(("2", "@")),
        KEY_3 => Some(("3", "#")),
        KEY_4 => Some(("4", "$")),
        KEY_5 => Some(("5", "%")),
        KEY_6 => Some(("6", "^")),
        KEY_7 => Some(("7", "&")),
        KEY_8 => Some(("8", "*")),
        KEY_9 => Some(("9", "(")),
        KEY_0 => Some(("0", ")")),
        KEY_MINUS => Some(("-", "_")),
        KEY_EQUAL => Some(("=", "+")),
        KEY_LEFTBRACE => Some(("[", "{")),
        KEY_RIGHTBRACE => Some(("]", "}")),
        KEY_SEMICOLON => Some((";", ":")),
        KEY_APOSTROPHE => Some(("'", "\"")),
        KEY_GRAVE => Some(("`", "~")),
        KEY_BACKSLASH => Some(("\\", "|")),
        KEY_COMMA => Some((",", "<")),
        KEY_DOT => Some((".", ">")),
        KEY_SLASH => Some(("/", "?")),
        _ => None,
    }
}

/// Special keys and their Nerd Font icons (`nf-md-*`).
pub open spec fn spec_icon_label(key: u16) -> Option<&'static str> {
    if key == KEY_SPACE { Some("\u{F1050}") }
    else if key == KEY_ENTER { Some("\u{F0311}") }
    else if key == KEY_BACKSPACE { Some("\u{F0B5C} ") }
    else if key == KEY_TAB { Some("\u{F0312}") }
    else if key == KEY_ESC { Some("\u{F12B7}") }
    else if key == KEY_UP { Some("\u{F005D}") }
    else if key == KEY_DOWN { Some("\u{F0045}") }
    else if key == KEY_LEFT { Some("\u{F004D}") }
    else if key == KEY_RIGHT { Some("\u{F0054}") }
    else if key == KEY_HOME { Some("\u{F02DC}") }
    else if key == KEY_END { Some("\u{F0794}") }
    else if key == KEY_PAGEUP { Some("\u{F0BB2}") }
    else if key == KEY_PAGEDOWN { Some("\u{F0BB0}") }
    else if key == KEY_DELETE { Some("\u{F01B4}") }
    else if key == KEY_CAPSLOCK { Some("\u{F030E}") }
    else if key == KEY_VOLUMEUP { Some("\u{F057E}") }
    else if key == KEY_VOLUMEDOWN { Some("\u{F057F}") }
    else if key == KEY_MUTE { Some("\u{F075F}") }
    else if key == KEY_PLAYPAUSE { Some("\u{F040E}") }
    else if key == KEY_STOPCD { Some("\u{F04DB}") }
    else if key == KEY_NEXTSONG { Some("\u{F04AD}") }
    else if key == KEY_PREVIOUSSONG { Some("\u{F04AE}") }
    else if key == KEY_FORWARD { Some("\u{F0211}") }
    else if key == KEY_BACK { Some("\u{F045F}") }
    else if key == KEY_BRIGHTNESSUP { Some("\u{F00E0}") }
    else if key == KEY_BRIGHTNESSDOWN { Some("\u{F00DD}") }
    else if key == KEY_EJECTCD { Some("\u{F01EA}") }
    else { None }
}

/// Special key to its Nerd Font icon.
pub fn icon_label(key: u16) -> (res: Option<&'static str>)
    ensures
        res == spec_icon_label(key),
{
    match key {
        KEY_SPACE => Some("\u{F1050}"),  // keyboard-space
        KEY_ENTER => Some("\u{F0311}"),  // keyboard-return
        KEY_BACKSPACE => Some("\u{F0B5C} "),  // backspace, apart from the left arrow
        KEY_TAB => Some("\u{F0312}"),  // keyboard-tab
        KEY_ESC => Some("\u{F12B7}"),  // keyboard-esc
        KEY_UP => Some("\u{F005D}"),  // arrow-up
        KEY_DOWN => Some("\u{F0045}"),  // arrow-down
        KEY_LEFT => Some("\u{F004D}"),  // arrow-left
        KEY_RIGHT => Some("\u{F0054}"),  // arrow-right
        KEY_HOME => Some("\u{F02DC}"),  // home
        KEY_END => Some("\u{F0794}"),  // arrow-collapse-right
        KEY_PAGEUP => Some("\u{F0BB2}"),  // page-previous
        KEY_PAGEDOWN => Some("\u{F0BB0}"),  // page-next
        KEY_DELETE => Some("\u{F01B4}"),  // delete
        KEY_CAPSLOCK => Some("\u{F030E}"),  // keyboard-caps
        KEY_VOLUMEUP => Some("\u{F057E}"),  // volume-high
        KEY_VOLUMEDOWN => Some("\u{F057F}"),  // volume-low
        KEY_MUTE => Some("\u{F075F}"),  // volume-mute
        KEY_PLAYPAUSE => Some("\u{F040E}"),  // play-pause
        KEY_STOPCD => Some("\u{F04DB}"),  // stop
        KEY_NEXTSONG => Some("\u{F04AD}"),  // skip-next
        KEY_PREVIOUSSONG => Some("\u{F04AE}"),  // skip-previous
        KEY_FORWARD => Some("\u{F0211}"),  // fast-forward
        KEY_BACK => Some("\u{F045F}"),  // rewind
        KEY_BRIGHTNESSUP => Some("\u{F00E0}"),  // brightness-7
        KEY_BRIGHTNESSDOWN => Some("\u{F00DD}"),  // brightness-4
        KEY_EJECTCD => Some("\u{F01EA}"),  // eject
        _ => None,
    }
}

/// Whether the key shows another character while Shift is held (`[` becomes `{`).
pub fn has_shift_variant(key: u16) -> (res: bool)
    ensures
        res == spec_symbol_label(key) is Some,
{
    symbol_label(key).is_some()
}

/// The name that evdev's `Debug` gives the key code: its constant's name
/// (`KEY_F1`, `BTN_LEFT`, ...), or `unknown key: <code>` for a code without one.
pub uninterp spec fn evdev_key_name(code: u16) -> Seq<char>;

/// Formats `evdev::KeyCode::new(code)` with its `Debug` impl. The contract claims
/// only that the text is a function of the code, named `evdev_key_name`.
#[verifier::external_body]
fn key_debug_name(code: u16) -> (res: String)
    ensures
        res@ == evdev_key_name(code),
{
    format!("{:?}", evdev::KeyCode::new(code))
}

/// `name` without a leading `KEY_`, or `name` itself where it has none.
pub open spec fn strip_key_prefix(name: Seq<char>) -> Seq<char> {
    if name.len() >= 4 && name.take(4) == seq!['K', 'E', 'Y', '_'] {
        name.skip(4)
    } else {
        name
    }
}

/// The display text of a key; `shift` tells whether Shift is held.
pub open spec fn spec_key_label(key: u16, shift: bool) -> Seq<char> {
    match spec_symbol_label(key) {
        Some((base, shifted)) => if shift { shifted@ } else { base@ },
        None => match spec_icon_label(key) {
            Some(icon) => icon@,
            None => strip_key_prefix(evdev_key_name(key)),
        },
    }
}

/// `name` without a leading `KEY_`.
fn strip_key_prefix_exec(name: String) -> (res: String)
    ensures
        res@ == strip_key_prefix(name@),
{
    let s = name.as_str();
    let n = s.unicode_len();
    if n >= 4 && s.get_char(0) == 'K' && s.get_char(1) == 'E' && s.get_char(2) == 'Y'
        && s.get_char(3) == '_' {
        assert(s@.take(4) =~= seq!['K', 'E', 'Y', '_']);
        String::from_str(s.substring_char(4, n))
    } else {
        proof {
            if s@.len() >= 4 && s@.take(4) == seq!['K', 'E', 'Y', '_'] {
                assert(s@[0] == s@.take(4)[0]);
                assert(s@[1] == s@.take(4)[1]);
                assert(s@[2] == s@.take(4)[2]);
                assert(s@[3] == s@.take(4)[3]);
            }
        }
        name
    }
}

/// Key to display text; `shift` tells whether Shift is held.
///
/// Letter keys are not case-converted (they always show the key cap's letter),
/// and unknown keys fall back to their evdev name without `KEY_` (`KEY_F1` → `F1`).
pub fn key_label(key: u16, shift: bool) -> (res: String)
    ensures
        res@ == spec_key_label(key, shift),
{
    if let Some((base, shifted)) = symbol_label(key) {
        return String::from_str(if shift { shifted } else { base });
    }
    if let Some(icon) = icon_label(key) {
        return String::from_str(icon);
    }
    strip_key_prefix_exec(key_debug_name(key))
}

/// Law: Shift changes the label of a digit or punctuation key only.
pub proof fn lemma_shift_only_changes_symbols(key: u16)
    requires
        spec_symbol_label(key) is None,
    ensures
        spec_key_label(key, true) == spec_key_label(key, false),
{
}


/// Law: the digit and punctuation keys show these characters, without and with
/// Shift (key codes of `linux/input-event-codes.h`).
pub proof fn lemma_symbol_key_labels()
    ensures
        spec_key_label(2, false) == "1"@,
        spec_key_label(2, true) == "!"@,
        spec_key_label(3, false) == "2"@,
        spec_key_label(3, true) == "@"@,
        spec_key_label(4, false) == "3"@,
        spec_key_label(4, true) == "#"@,
        spec_key_label(5, false) == "4"@,
        spec_key_label(5, true) == "$"@,
        spec_key_label(6, false) == "5"@,
        spec_key_label(6, true) == "%"@,
        spec_key_label(7, false) == "6"@,
        spec_key_label(7, true) == "^"@,
        spec_key_label(8, false) == "7"@,
        spec_key_label(8, true) == "&"@,
        spec_key_label(9, false) == "8"@,
        spec_key_label(9, true) == "*"@,
        spec_key_label(10, false) == "9"@,
        spec_key_label(10, true) == "("@,
        spec_key_label(11, false) == "0"@,
        spec_key_label(11, true) == ")"@,
        spec_key_label(12, false) == "-"@,
        spec_key_label(12, true) == "_"@,
        spec_key_label(13, false) == "="@,
        spec_key_label(13, true) == "+"@,
        spec_key_label(26, false) == "["@,
        spec_key_label(26, true) == "{"@,
        spec_key_label(27, false) == "]"@,
        spec_key_label(27, true) == "}"@,
        spec_key_label(39, false) == ";"@,
        spec_key_label(39, true) == ":"@,
        spec_key_label(40, false) == "'"@,
        spec_key_label(40, true) == "\""@,
        spec_key_label(41, false) == "`"@,
        spec_key_label(41, true) == "~"@,
        spec_key_label(43, false) == "\\"@,
        spec_key_label(43, true) == "|"@,
        spec_key_label(51, false) == ","@,
        spec_key_label(51, true) == "<"@,
        spec_key_label(52, false) == "."@,
        spec_key_label(52, true) == ">"@,
        spec_key_label(53, false) == "/"@,
        spec_key_label(53, true) == "?"@,
{
}

/// Law: the special keys show these Nerd Font icons, with or without Shift.
pub proof fn lemma_special_key_icons(shift: bool)
    ensures
        spec_key_label(57, shift) == "\u{F1050}"@,  // space
        spec_key_label(28, shift) == "\u{F0311}"@,  // enter
        spec_key_label(14, shift) == "\u{F0B5C} "@,  // backspace
        spec_key_label(15, shift) == "\u{F0312}"@,  // tab
        spec_key_label(1, shift) == "\u{F12B7}"@,  // esc
        spec_key_label(103, shift) == "\u{F005D}"@,  // up
        spec_key_label(108, shift) == "\u{F0045}"@,  // down
        spec_key_label(105, shift) == "\u{F004D}"@,  // left
        spec_key_label(106, shift) == "\u{F0054}"@,  // right
        spec_key_label(102, shift) == "\u{F02DC}"@,  // home
        spec_key_label(107, shift) == "\u{F0794}"@,  // end
        spec_key_label(104, shift) == "\u{F0BB2}"@,  // page up
        spec_key_label(109, shift) == "\u{F0BB0}"@,  // page down
        spec_key_label(111, shift) == "\u{F01B4}"@,  // delete
        spec_key_label(58, shift) == "\u{F030E}"@,  // caps lock
        spec_key_label(115, shift) == "\u{F057E}"@,  // volume up
        spec_key_label(114, shift) == "\u{F057F}"@,  // volume down
        spec_key_label(113, shift) == "\u{F075F}"@,  // mute
        spec_key_label(164, shift) == "\u{F040E}"@,  // play/pause
        spec_key_label(166, shift) == "\u{F04DB}"@,  // stop
        spec_key_label(163, shift) == "\u{F04AD}"@,  // next song
        spec_key_label(165, shift) == "\u{F04AE}"@,  // previous song
        spec_key_label(159, shift) == "\u{F0211}"@,  // forward
        spec_key_label(158, shift) == "\u{F045F}"@,  // back
        spec_key_label(225, shift) == "\u{F00E0}"@,  // brightness up
        spec_key_label(224, shift) == "\u{F00DD}"@,  // brightness down
        spec_key_label(161, shift) == "\u{F01EA}"@,  // eject
{
}

/// Law: the modifier keys are Ctrl (29, 97), Shift (42, 54), Alt (56, 100) and
/// Super (125, 126), and their icons are `nf-md-apple_keyboard_control`, `_shift`,
/// `_option` and `_command`.
pub proof fn lemma_modifier_keys()
    ensures
        spec_modifier_of(29) == Some(Modifier::Ctrl),
        spec_modifier_of(97) == Some(Modifier::Ctrl),
        spec_modifier_of(42) == Some(Modifier::Shift),
        spec_modifier_of(54) == Some(Modifier::Shift),
        spec_modifier_of(56) == Some(Modifier::Alt),
        spec_modifier_of(100) == Some(Modifier::Alt),
        spec_modifier_of(125) == Some(Modifier::Super),
        spec_modifier_of(126) == Some(Modifier::Super),
        forall|k: u16| spec_modifier_of(k) is Some ==> k == 29 || k == 97 || k == 42 || k == 54 || k == 56 || k == 100 || k == 125 || k == 126,
        Modifier::Ctrl.spec_icon() == "\u{F0634}",
        Modifier::Shift.spec_icon() == "\u{F0636}",
        Modifier::Alt.spec_icon() == "\u{F0635}",
        Modifier::Super.spec_icon() == "\u{F0633}",
{
}

/// Law: the fallback label drops a leading `KEY_` and nothing else.
pub proof fn lemma_strip_key_prefix(rest: Seq<char>, name: Seq<char>)
    requires
        !(name.len() >= 4 && name[0] == 'K' && name[1] == 'E' && name[2] == 'Y' && name[3] == '_'),
    ensures
        strip_key_prefix(seq!['K', 'E', 'Y', '_'] + rest) == rest,
        strip_key_prefix(name) == name,
{
    assert((seq!['K', 'E', 'Y', '_'] + rest).take(4) =~= seq!['K', 'E', 'Y', '_']);
    assert((seq!['K', 'E', 'Y', '_'] + rest).skip(4) =~= rest);
    if name.len() >= 4 && name.take(4) == seq!['K', 'E', 'Y', '_'] {
        assert(name[0] == name.take(4)[0]);
        assert(name[1] == name.take(4)[1]);
        assert(name[2] == name.take(4)[2]);
        assert(name[3] == name.take(4)[3]);
    }
}

/// Law: a key that is neither a digit or punctuation key nor a special key shows
/// its evdev name without `KEY_`, whether Shift is held or not.
pub proof fn lemma_other_keys_show_name(key: u16, shift: bool)
    requires
        spec_symbol_label(key) is None,
        spec_icon_label(key) is None,
    ensures
        spec_key_label(key, shift) == strip_key_prefix(evdev_key_name(key)),
{
}

} // verus!
