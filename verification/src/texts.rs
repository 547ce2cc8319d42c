//! Texts of the settings window in both languages, and its style sheet.

use vstd::prelude::*;
use vstd::string::*;

use crate::settings::{Language, Theme};

verus! {

/// The texts of the settings window. `rows` follows the order in which the
/// window lays out its rows.
pub struct Strings {
    pub title: &'static str,
    pub sections: [&'static str; 4],
    pub rows: [&'static str; 17],
    pub light: &'static str,
    pub dark: &'static str,
    pub positions: [&'static str; 4],
    pub reset: &'static str,
    pub done: &'static str,
    pub record_hint: &'static str,
}

impl Strings {
    /// The texts of the settings window in `lang`.
    pub fn for_lang(lang: Language) -> (res: Self)
        ensures
            lang == Language::Zh ==> {
                &&& res.title == "设置"
                &&& res.sections@ == seq!["外观", "胶囊", "布局", "行为"]
                &&& res.rows@ == seq![
                    "设置窗口主题",
                    "胶囊配色",
                    "语言",
                    "最新透明度 (%)",
                    "历史透明度 (%)",
                    "圆角 (px)",
                    "字体大小 (px)",
                    "位置",
                    "水平边距 (px)",
                    "垂直边距 (px)",
                    "间距 (px)",
                    "最大胶囊数",
                    "显示时长 (ms)",
                    "淡入淡出时长 (ms)",
                    "暂停快捷键",
                    "鼠标穿透",
                    "开机自启",
                ]
                &&& res.light == "明亮"
                &&& res.dark == "黑暗"
                &&& res.positions@ == seq!["左下", "右下", "左上", "右上"]
                &&& res.reset == "重置"
                &&& res.done == "完成"
                &&& res.record_hint == "请按下组合键…"
            },
            lang == Language::En ==> {
                &&& res.title == "Settings"
                &&& res.sections@ == seq!["Appearance", "Chips", "Layout", "Behavior"]
                &&& res.rows@ == seq![
                    "Settings window theme",
                    "Chip color",
                    "Language",
                    "Latest opacity (%)",
                    "History opacity (%)",
                    "Corner radius (px)",
                    "Font size (px)",
                    "Position",
                    "Horizontal margin (px)",
                    "Vertical margin (px)",
                    "Spacing (px)",
                    "Max chips",
                    "Display duration (ms)",
                    "Fade duration (ms)",
                    "Pause hotkey",
                    "Click-through",
                    "Autostart",
                ]
                &&& res.light == "Light"
                &&& res.dark == "Dark"
                &&& res.positions@ == seq!["Bottom-left", "Bottom-right", "Top-left", "Top-right"]
                &&& res.reset == "Reset"
                &&& res.done == "Done"
                &&& res.record_hint == "Press a combo…"
            },
    {
        match lang {
            Language::Zh => Strings {
                title: "设置",
                sections: ["外观", "胶囊", "布局", "行为"],
                rows: [
                    "设置窗口主题",
                    "胶囊配色",
                    "语言",
                    "最新透明度 (%)",
                    "历史透明度 (%)",
                    "圆角 (px)",
                    "字体大小 (px)",
                    "位置",
                    "水平边距 (px)",
                    "垂直边距 (px)",
                    "间距 (px)",
                    "最大胶囊数",
                    "显示时长 (ms)",
                    "淡入淡出时长 (ms)",
                    "暂停快捷键",
                    "鼠标穿透",
                    "开机自启",
                ],
                light: "明亮",
                dark: "黑暗",
                positions: ["左下", "右下", "左上", "右上"],
                reset: "重置",
                done: "完成",
                record_hint: "请按下组合键…",
            },
            Language::En => Strings {
                title: "Settings",
                sections: ["Appearance", "Chips", "Layout", "Behavior"],
                rows: [
                    "Settings window theme",
                    "Chip color",
                    "Language",
                    "Latest opacity (%)",
                    "History opacity (%)",
                    "Corner radius (px)",
                    "Font size (px)",
                    "Position",
                    "Horizontal margin (px)",
                    "Vertical margin (px)",
                    "Spacing (px)",
                    "Max chips",
                    "Display duration (ms)",
                    "Fade duration (ms)",
                    "Pause hotkey",
                    "Click-through",
                    "Autostart",
                ],
                light: "Light",
                dark: "Dark",
                positions: ["Bottom-left", "Bottom-right", "Top-left", "Top-right"],
                reset: "Reset",
                done: "Done",
                record_hint: "Press a combo…",
            },
        }
    }
}

/// The colours of the settings window in one theme.
pub struct WindowPalette {
    pub bg: &'static str,
    pub fg: &'static str,
    pub muted: &'static str,
    pub sep: &'static str,
    pub close_bg: &'static str,
    pub close_fg: &'static str,
    pub close_hover: &'static str,
}

pub open spec fn spec_window_palette(theme: Theme) -> WindowPalette {
    match theme {
        // close button: a slightly lighter black on dark, a slightly greyer white on light
        Theme::Light => WindowPalette {
            bg: "#f5f5f7",
            fg: "#1d1d1f",
            muted: "#86868b",
            sep: "rgba(0, 0, 0, 0.08)",
            close_bg: "#e2e2e5",
            close_fg: "#1d1d1f",
            close_hover: "#d2d2d6",
        },
        Theme::Dark => WindowPalette {
            bg: "#1c1c1e",
            fg: "#f5f5f7",
            muted: "#98989d",
            sep: "rgba(255, 255, 255, 0.10)",
            close_bg: "#333336",
            close_fg: "#f5f5f7",
            close_hover: "#454549",
        },
    }
}

/// The colours of the settings window in `theme`.
pub fn window_palette(theme: Theme) -> (res: WindowPalette)
    ensures
        res == spec_window_palette(theme),
{
    match theme {
        Theme::Light => WindowPalette {
            bg: "#f5f5f7",
            fg: "#1d1d1f",
            muted: "#86868b",
            sep: "rgba(0, 0, 0, 0.08)",
            close_bg: "#e2e2e5",
            close_fg: "#1d1d1f",
            close_hover: "#d2d2d6",
        },
        Theme::Dark => WindowPalette {
            bg: "#1c1c1e",
            fg: "#f5f5f7",
            muted: "#98989d",
            sep: "rgba(255, 255, 255, 0.10)",
            close_bg: "#333336",
            close_fg: "#f5f5f7",
            close_hover: "#454549",
        },
    }
}

// The fixed parts of the settings window's style sheet, between the colours.
pub const CSS_WINDOW: &'static str = "\n.settings-window {\n    background-color: ";
pub const CSS_WINDOW_FG: &'static str = ";\n    color: ";
pub const CSS_ROOT: &'static str = ";\n}\n.settings-root {\n    background-color: ";
pub const CSS_SECTION: &'static str = ";\n}\n.settings-header {\n    padding: 14px 20px 10px 20px;\n}\n.settings-title {\n    font-size: 15px;\n    font-weight: 600;\n}\n/* 内边距放在滚动内容上，滚动条才能贴住窗口右缘 */\n.settings-content {\n    padding: 0 20px;\n}\n/* 底部按钮栏固定在滚动区外 */\n.settings-footer {\n    padding: 12px 20px 16px 20px;\n}\n.section-header {\n    color: ";
pub const CSS_ROW: &'static str = ";\n    font-size: 12px;\n    font-weight: 600;\n    margin-top: 20px;\n    margin-bottom: 4px;\n}\n.settings-row {\n    padding: 9px 0;\n    border-bottom: 1px solid ";
pub const CSS_CLOSE: &'static str = ";\n}\n.row-label {\n    font-size: 14px;\n}\n.close-button {\n    min-width: 26px;\n    min-height: 26px;\n    border-radius: 13px;\n    padding: 0;\n    font-size: 12px;\n    font-weight: bold;\n    border: none;\n    box-shadow: none;\n    background-image: none;\n    background-color: ";
pub const CSS_CLOSE_FG: &'static str = ";\n    color: ";
pub const CSS_HOVER: &'static str = ";\n}\n.close-button:hover {\n    background-color: ";
pub const CSS_END: &'static str = ";\n}\n";

/// The settings window's style sheet for the colours `p`.
pub open spec fn spec_window_css(p: WindowPalette) -> Seq<char> {
    CSS_WINDOW@ + p.bg@ + CSS_WINDOW_FG@ + p.fg@ + CSS_ROOT@ + p.bg@ + CSS_SECTION@ + p.muted@
        + CSS_ROW@ + p.sep@ + CSS_CLOSE@ + p.close_bg@ + CSS_CLOSE_FG@ + p.close_fg@
        + CSS_HOVER@ + p.close_hover@ + CSS_END@
}

/// The style sheet of the settings window in `theme`, close button included.
pub fn window_css(theme: Theme) -> (res: String)
    ensures
        res@ == spec_window_css(spec_window_palette(theme)),
{
    let p = window_palette(theme);
    let mut css = String::from_str(CSS_WINDOW);
    css.append(p.bg);
    css.append(CSS_WINDOW_FG);
    css.append(p.fg);
    css.append(CSS_ROOT);
    css.append(p.bg);
    css.append(CSS_SECTION);
    css.append(p.muted);
    css.append(CSS_ROW);
    css.append(p.sep);
    css.append(CSS_CLOSE);
    css.append(p.close_bg);
    css.append(CSS_CLOSE_FG);
    css.append(p.close_fg);
    css.append(CSS_HOVER);
    css.append(p.close_hover);
    css.append(CSS_END);
    css
}

/// Law: the settings window is near black with near white text in the dark theme
/// and the reverse in the light one, with these greys for muted text, separators
/// and the close button.
pub proof fn lemma_window_palettes()
    ensures
        spec_window_palette(Theme::Light).bg == "#f5f5f7",
        spec_window_palette(Theme::Light).fg == "#1d1d1f",
        spec_window_palette(Theme::Light).muted == "#86868b",
        spec_window_palette(Theme::Light).sep == "rgba(0, 0, 0, 0.08)",
        spec_window_palette(Theme::Light).close_bg == "#e2e2e5",
        spec_window_palette(Theme::Light).close_fg == "#1d1d1f",
        spec_window_palette(Theme::Light).close_hover == "#d2d2d6",
        spec_window_palette(Theme::Dark).bg == "#1c1c1e",
        spec_window_palette(Theme::Dark).fg == "#f5f5f7",
        spec_window_palette(Theme::Dark).muted == "#98989d",
        spec_window_palette(Theme::Dark).sep == "rgba(255, 255, 255, 0.10)",
        spec_window_palette(Theme::Dark).close_bg == "#333336",
        spec_window_palette(Theme::Dark).close_fg == "#f5f5f7",
        spec_window_palette(Theme::Dark).close_hover == "#454549",
{
}

/// Law: the style sheet starts with the window's background colour and ends with
/// the close button's hover colour, for every theme.
pub proof fn lemma_window_css_frame(theme: Theme)
    ensures
        ({
            let css = spec_window_css(spec_window_palette(theme));
            let p = spec_window_palette(theme);
            &&& css.take((CSS_WINDOW@.len() + p.bg@.len()) as int) == CSS_WINDOW@ + p.bg@
            &&& css.skip(css.len() - (p.close_hover@.len() + CSS_END@.len())) == p.close_hover@ + CSS_END@
        }),
{
    let p = spec_window_palette(theme);
    let css = spec_window_css(p);
    let rest = CSS_WINDOW_FG@ + p.fg@ + CSS_ROOT@ + p.bg@ + CSS_SECTION@ + p.muted@ + CSS_ROW@ + p.sep@
        + CSS_CLOSE@ + p.close_bg@ + CSS_CLOSE_FG@ + p.close_fg@ + CSS_HOVER@;
    assert(css =~= (CSS_WINDOW@ + p.bg@) + rest + (p.close_hover@ + CSS_END@));
    assert(css.take((CSS_WINDOW@.len() + p.bg@.len()) as int) =~= CSS_WINDOW@ + p.bg@);
    assert(css.skip(css.len() - (p.close_hover@.len() + CSS_END@.len())) =~= p.close_hover@ + CSS_END@);
}

} // verus!
