//! The settings model: themes, languages, overlay positions, the pause hotkey,
//! the defaults of the settings file, the selection indices of the settings
//! window, and the texts and style sheet that depend on theme and language.

use vstd::prelude::*;
use vstd::string::*;

verus! {

/// Light or dark appearance.
#[derive(Debug, Clone, Copy, PartialEq, Eq, Structural)]
pub enum Theme {
    Light,
    Dark,
}

impl Default for Theme {
    /// The dark theme.
    fn default() -> (res: Self)
        ensures
            res == Theme::Dark,
    {
        Theme::Dark
    }
}

/// Interface language.
#[derive(Debug, Clone, Copy, PartialEq, Eq, Structural)]
pub enum Language {
    Zh,
    En,
}

impl Default for Language {
    /// Chinese.
    fn default() -> (res: Self)
        ensures
            res == Language::Zh,
    {
        Language::Zh
    }
}

/// The screen corner that the overlay is anchored to.
#[derive(Debug, Clone, Copy, PartialEq, Eq, Structural)]
pub enum Position {
    BottomLeft,
    BottomRight,
    TopLeft,
    TopRight,
}

impl Default for Position {
    /// The top right corner.
    fn default() -> (res: Self)
        ensures
            res == Position::TopRight,
    {
        Position::TopRight
    }
}

/// The key combination that pauses and resumes the display.
#[derive(Debug, Clone, Copy, PartialEq, Eq, Structural)]
pub struct Hotkey {
    pub ctrl: bool,
    pub shift: bool,
    pub alt: bool,
    pub super_key: bool,
    /// Linux evdev code of the key that triggers it.
    pub key: u16,
}

/// The default pause hotkey: Ctrl + Alt + P.
pub open spec fn spec_default_hotkey() -> Hotkey {
    Hotkey { ctrl: true, shift: false, alt: true, super_key: false, key: crate::keymap::KEY_P }
}

impl Default for Hotkey {
    /// Ctrl + Alt + P (`KEY_P` is 25).
    fn default() -> (res: Self)
        ensures
            res == spec_default_hotkey(),
    {
        Hotkey { ctrl: true, shift: false, alt: true, super_key: false, key: 25 }
    }
}

/// Font size of the chips, in pixels, where the settings file has none.
pub fn default_font_size() -> (res: u32)
    ensures
        res == 20,
{
    20
}

/// Fade in / fade out duration, in milliseconds, where the settings file has none.
pub fn default_fade_duration_ms() -> (res: u64)
    ensures
        res == 150,
{
    150
}

/// Index of a theme in the theme drop-down.
pub open spec fn spec_theme_index(theme: Theme) -> u32 {
    match theme {
        Theme::Light => 0,
        Theme::Dark => 1,
    }
}

pub fn theme_index(theme: Theme) -> (res: u32)
    ensures
        res == spec_theme_index(theme),
{
    match theme {
        Theme::Light => 0,
        Theme::Dark => 1,
    }
}

/// The theme that a drop-down selection stands for: the first entry is light,
/// any other is dark.
pub open spec fn spec_theme_from_index(index: u32) -> Theme {
    if index == 0 {
        Theme::Light
    } else {
        Theme::Dark
    }
}

pub fn theme_from_index(index: u32) -> (res: Theme)
    ensures
        res == spec_theme_from_index(index),
{
    if index == 0 {
        Theme::Light
    } else {
        Theme::Dark
    }
}

/// Index of a language in the language drop-down.
pub open spec fn spec_lang_index(lang: Language) -> u32 {
    match lang {
        Language::Zh => 0,
        Language::En => 1,
    }
}

pub fn lang_index(lang: Language) -> (res: u32)
    ensures
        res == spec_lang_index(lang),
{
    match lang {
        Language::Zh => 0,
        Language::En => 1,
    }
}

/// The language that a drop-down selection stands for: the first entry is
/// Chinese, any other English.
pub open spec fn spec_lang_from_index(index: u32) -> Language {
    if index == 0 {
        Language::Zh
    } else {
        Language::En
    }
}

pub fn lang_from_index(index: u32) -> (res: Language)
    ensures
        res == spec_lang_from_index(index),
{
    if index == 0 {
        Language::Zh
    } else {
        Language::En
    }
}

/// Index of a position in the position drop-down.
pub open spec fn spec_position_index(position: Position) -> u32 {
    match position {
        Position::BottomLeft => 0,
        Position::BottomRight => 1,
        Position::TopLeft => 2,
        Position::TopRight => 3,
    }
}

pub fn position_index(position: Position) -> (res: u32)
    ensures
        res == spec_position_index(position),
{
    match position {
        Position::BottomLeft => 0,
        Position::BottomRight => 1,
        Position::TopLeft => 2,
        Position::TopRight => 3,
    }
}

/// The position that a drop-down selection stands for; any index past the
/// third is the top right corner.
pub open spec fn spec_position_from_index(index: u32) -> Position {
    if index == 0 {
        Position::BottomLeft
    } else if index == 1 {
        Position::BottomRight
    } else if index == 2 {
        Position::TopLeft
    } else {
        Position::TopRight
    }
}

pub fn position_from_index(index: u32) -> (res: Position)
    ensures
        res == spec_position_from_index(index),
{
    match index {
        0 => Position::BottomLeft,
        1 => Position::BottomRight,
        2 => Position::TopLeft,
        _ => Position::TopRight,
    }
}

/// Law: the settings window shows each setting at an index that reads back as
/// the same setting.
pub proof fn lemma_selection_round_trip(theme: Theme, lang: Language, position: Position)
    ensures
        spec_theme_from_index(spec_theme_index(theme)) == theme,
        spec_lang_from_index(spec_lang_index(lang)) == lang,
        spec_position_from_index(spec_position_index(position)) == position,
{
}

/// The horizontal screen edge that the overlay is anchored to.
#[derive(Debug, Clone, Copy, PartialEq, Eq, Structural)]
pub enum HorizontalEdge {
    Left,
    Right,
}

/// The vertical screen edge that the overlay is anchored to.
#[derive(Debug, Clone, Copy, PartialEq, Eq, Structural)]
pub enum VerticalEdge {
    Top,
    Bottom,
}

/// The two edges that a position anchors the overlay to; the horizontal margin
/// applies to the first, the vertical margin to the second.
pub fn anchor_edges(position: Position) -> (res: (HorizontalEdge, VerticalEdge))
    ensures
        res.0 == (match position {
            Position::BottomLeft | Position::TopLeft => HorizontalEdge::Left,
            _ => HorizontalEdge::Right,
        }),
        res.1 == (match position {
            Position::TopLeft | Position::TopRight => VerticalEdge::Top,
            _ => VerticalEdge::Bottom,
        }),
{
    match position {
        Position::BottomLeft => (HorizontalEdge::Left, VerticalEdge::Bottom),
        Position::BottomRight => (HorizontalEdge::Right, VerticalEdge::Bottom),
        Position::TopLeft => (HorizontalEdge::Left, VerticalEdge::Top),
        Position::TopRight => (HorizontalEdge::Right, VerticalEdge::Top),
    }
}

/// Labels of the tray menu entries: (show settings, quit).
pub fn menu_labels(lang: Language) -> (res: (&'static str, &'static str))
    ensures
        res == (match lang {
            Language::Zh => ("显示设置", "退出"),
            Language::En => ("Show Settings", "Quit"),
        }),
{
    match lang {
        Language::Zh => ("显示设置", "退出"),
        Language::En => ("Show Settings", "Quit"),
    }
}

/// Least width of one chip, in pixels: a full overlay is this times the maximum count.
pub const MIN_CHIP_WIDTH: i32 = 72;

/// Width that the overlay asks for: room for `max_chips` chips of the least width.
/// The count is taken as an `i32` (wrapping, as `as` does), and the product must fit.
pub fn overlay_width(max_chips: usize) -> (res: i32)
    requires
        i32::MIN <= MIN_CHIP_WIDTH * (max_chips as i32) <= i32::MAX,
    ensures
        res == MIN_CHIP_WIDTH * (max_chips as i32),
{
    MIN_CHIP_WIDTH * (max_chips as i32)
}

/// Width of the settings window, in pixels.
pub const SETTINGS_WINDOW_WIDTH: i32 = 440;

/// Least height of the settings window, in pixels, for very small screens.
pub const MIN_SETTINGS_HEIGHT: i32 = 360;

/// Highest default height of the settings window, in percent of the screen height.
pub const MAX_HEIGHT_PERCENT: i32 = 75;

/// The highest default height on a screen `screen_height` pixels high.
pub open spec fn spec_max_settings_height(screen_height: i32) -> int {
    let h = (screen_height * MAX_HEIGHT_PERCENT) as int;
    // truncating division, as for `i32`
    let q = if h >= 0 { h / 100 } else { -((-h) / 100) };
    if q > MIN_SETTINGS_HEIGHT { q } else { MIN_SETTINGS_HEIGHT as int }
}

/// Default height of the settings window: its natural height, kept between the
/// least height and 75 % of the screen (never below the least height), so that a
/// screen that can show it all shows it without scrolling.
pub fn settings_window_height(natural_height: i32, screen_height: i32) -> (res: i32)
    requires
        i32::MIN <= screen_height * MAX_HEIGHT_PERCENT <= i32::MAX,
    ensures
        res == (if natural_height < MIN_SETTINGS_HEIGHT {
            MIN_SETTINGS_HEIGHT as int
        } else if natural_height > spec_max_settings_height(screen_height) {
            spec_max_settings_height(screen_height)
        } else {
            natural_height as int
        }),
{
    let scaled = screen_height * MAX_HEIGHT_PERCENT / 100;
    let max_height = if scaled > MIN_SETTINGS_HEIGHT { scaled } else { MIN_SETTINGS_HEIGHT };
    if natural_height < MIN_SETTINGS_HEIGHT {
        MIN_SETTINGS_HEIGHT
    } else if natural_height > max_height {
        max_height
    } else {
        natural_height
    }
}

/// The defaults of the settings that are no opacities (those two are 0.85 for the
/// newest chip and 0.5 for older ones, kept with the settings file).
#[derive(Debug, Clone, Copy, PartialEq, Eq, Structural)]
pub struct SettingDefaults {
    pub theme: Theme,
    pub chip_theme: Theme,
    pub language: Language,
    pub max_chips: usize,
    pub display_duration_ms: u64,
    pub position: Position,
    pub margin_x: i32,
    pub margin_y: i32,
    pub spacing: i32,
    pub border_radius: u32,
    pub font_size: u32,
    pub fade_duration_ms: u64,
    pub pause_hotkey: Hotkey,
    pub click_through: bool,
    pub autostart: bool,
}

/// The defaults: dark window and chips, Chinese, at most 5 chips shown for 2750 ms,
/// top right with 24 px margins, 8 px spacing, 18 px corners, 20 px font, 150 ms
/// fades, Ctrl + Alt + P to pause, click-through on, autostart off.
pub fn setting_defaults() -> (res: SettingDefaults)
    ensures
        res == (SettingDefaults {
            theme: Theme::Dark,
            chip_theme: Theme::Dark,
            language: Language::Zh,
            max_chips: 5,
            display_duration_ms: 2750,
            position: Position::TopRight,
            margin_x: 24,
            margin_y: 24,
            spacing: 8,
            border_radius: 18,
            font_size: 20,
            fade_duration_ms: 150,
            pause_hotkey: spec_default_hotkey(),
            click_through: true,
            autostart: false,
        }),
{
    SettingDefaults {
        theme: Theme::Dark,
        chip_theme: Theme::Dark,
        language: Language::Zh,
        max_chips: 5,
        display_duration_ms: 2750,
        position: Position::TopRight,
        margin_x: 24,
        margin_y: 24,
        spacing: 8,
        border_radius: 18,
        font_size: default_font_size(),
        fade_duration_ms: default_fade_duration_ms(),
        pause_hotkey: Hotkey::default(),
        click_through: true,
        autostart: false,
    }
}

/// Law: each drop-down entry stands for the setting that the window's texts name
/// at that place: themes light, dark; languages 中文, English; positions bottom
/// left, bottom right, top left, top right. Indices past the list read as the last.
pub proof fn lemma_selection_indices()
    ensures
        spec_theme_index(Theme::Light) == 0,
        spec_theme_index(Theme::Dark) == 1,
        spec_lang_index(Language::Zh) == 0,
        spec_lang_index(Language::En) == 1,
        spec_position_index(Position::BottomLeft) == 0,
        spec_position_index(Position::BottomRight) == 1,
        spec_position_index(Position::TopLeft) == 2,
        spec_position_index(Position::TopRight) == 3,
        spec_theme_from_index(0) == Theme::Light,
        spec_lang_from_index(0) == Language::Zh,
        spec_position_from_index(0) == Position::BottomLeft,
        spec_position_from_index(1) == Position::BottomRight,
        spec_position_from_index(2) == Position::TopLeft,
        forall|i: u32| i >= 1 ==> spec_theme_from_index(i) == Theme::Dark,
        forall|i: u32| i >= 1 ==> spec_lang_from_index(i) == Language::En,
        forall|i: u32| i >= 3 ==> spec_position_from_index(i) == Position::TopRight,
{
}

/// Law: the default pause hotkey is Ctrl + Alt + P (evdev code 25).
pub proof fn lemma_default_hotkey()
    ensures
        spec_default_hotkey() == (Hotkey { ctrl: true, shift: false, alt: true, super_key: false, key: 25 }),
{
}

/// Law: the settings window's height is never below 360 px, never above the larger
/// of 360 px and three quarters of the screen, and is the natural height where it
/// fits between them.
pub proof fn lemma_settings_height_bounds(natural_height: i32, screen_height: i32)
    requires
        0 <= screen_height * 75 <= i32::MAX,
    ensures
        ({
            let max = if screen_height * 75 / 100 > 360 { screen_height * 75 / 100 } else { 360 };
            let h = if natural_height < MIN_SETTINGS_HEIGHT {
                MIN_SETTINGS_HEIGHT as int
            } else if natural_height > spec_max_settings_height(screen_height) {
                spec_max_settings_height(screen_height)
            } else {
                natural_height as int
            };
            &&& 360 <= h <= max
            &&& 360 <= natural_height <= max ==> h == natural_height
        }),
{
}

} // verus!
