use showkey::debounce::SaveDebounce;
use showkey::settings::{
    anchor_edges, overlay_width, settings_window_height, default_fade_duration_ms, default_font_size, lang_from_index, lang_index,
    menu_labels, position_from_index, position_index, theme_from_index, theme_index, Hotkey,
    HorizontalEdge, Language, Position, Theme, VerticalEdge,
};
use showkey::texts::{window_css, Strings};

#[test]
fn defaults() {
    assert_eq!(Theme::default(), Theme::Dark);
    assert_eq!(Language::default(), Language::Zh);
    assert_eq!(Position::default(), Position::TopRight);
    assert_eq!(
        Hotkey::default(),
        Hotkey { ctrl: true, shift: false, alt: true, super_key: false, key: 25 }
    );
    assert_eq!(default_font_size(), 20);
    assert_eq!(default_fade_duration_ms(), 150);
}

#[test]
fn selection_indices_round_trip() {
    for t in [Theme::Light, Theme::Dark] {
        assert_eq!(theme_from_index(theme_index(t)), t);
    }
    for l in [Language::Zh, Language::En] {
        assert_eq!(lang_from_index(lang_index(l)), l);
    }
    for p in [Position::BottomLeft, Position::BottomRight, Position::TopLeft, Position::TopRight] {
        assert_eq!(position_from_index(position_index(p)), p);
    }
    assert_eq!(position_index(Position::TopLeft), 2);
    assert_eq!(theme_from_index(7), Theme::Dark);
    assert_eq!(lang_from_index(9), Language::En);
    assert_eq!(position_from_index(42), Position::TopRight);
}

#[test]
fn anchors() {
    assert_eq!(anchor_edges(Position::BottomLeft), (HorizontalEdge::Left, VerticalEdge::Bottom));
    assert_eq!(anchor_edges(Position::TopRight), (HorizontalEdge::Right, VerticalEdge::Top));
}

#[test]
fn texts_in_both_languages() {
    let zh = Strings::for_lang(Language::Zh);
    let en = Strings::for_lang(Language::En);
    assert_eq!(zh.title, "设置");
    assert_eq!(en.title, "Settings");
    assert_eq!(zh.rows.len(), 17);
    assert_eq!(en.rows[14], "Pause hotkey");
    assert_eq!(zh.positions[3], "右上");
    assert_eq!(en.record_hint, "Press a combo…");
    assert_eq!(menu_labels(Language::Zh), ("显示设置", "退出"));
    assert_eq!(menu_labels(Language::En), ("Show Settings", "Quit"));
}

#[test]
fn window_style_sheet() {
    let dark = window_css(Theme::Dark);
    assert!(dark.starts_with("\n.settings-window {\n    background-color: #1c1c1e;\n    color: #f5f5f7;\n}"));
    assert!(dark.contains("border-bottom: 1px solid rgba(255, 255, 255, 0.10);"));
    assert!(dark.ends_with(".close-button:hover {\n    background-color: #454549;\n}\n"));
    let light = window_css(Theme::Light);
    assert!(light.contains(".settings-root {\n    background-color: #f5f5f7;\n}"));
    assert!(light.contains("background-color: #e2e2e5;\n    color: #1d1d1f;"));
}

#[test]
fn debounced_saving() {
    let mut d = SaveDebounce::new();
    assert!(d.schedule());
    assert!(!d.schedule());
    assert!(d.flush());
    assert!(!d.timer_fired());
    assert!(d.schedule());
    assert!(d.timer_fired());
    assert!(!d.flush());
}

#[test]
fn window_sizes() {
    assert_eq!(overlay_width(5), 360);
    assert_eq!(overlay_width(0), 0);
    // fits: natural height
    assert_eq!(settings_window_height(700, 1080), 700);
    // too tall: 75 % of the screen
    assert_eq!(settings_window_height(1000, 1080), 810);
    // too short: the least height
    assert_eq!(settings_window_height(200, 1080), 360);
    // tiny screen: never below the least height
    assert_eq!(settings_window_height(500, 400), 360);
}

#[test]
fn setting_defaults_table() {
    let d = showkey::settings::setting_defaults();
    assert_eq!(d.theme, Theme::Dark);
    assert_eq!(d.chip_theme, Theme::Dark);
    assert_eq!(d.language, Language::Zh);
    assert_eq!(d.max_chips, 5);
    assert_eq!(d.display_duration_ms, 2750);
    assert_eq!(d.position, Position::TopRight);
    assert_eq!((d.margin_x, d.margin_y, d.spacing, d.border_radius), (24, 24, 8, 18));
    assert_eq!((d.font_size, d.fade_duration_ms), (20, 150));
    assert_eq!(d.pause_hotkey, Hotkey::default());
    assert!(d.click_through);
    assert!(!d.autostart);
}
