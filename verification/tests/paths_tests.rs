use showkey::keyboard::{find_keyboards, is_keyboard};
use showkey::keymap::{KEY_A, KEY_ENTER, KEY_LEFTCTRL, KEY_Z};
use showkey::xdg::{
    autostart_entry, autostart_exec, autostart_path, config_dir, config_path, data_dir,
    font_path, font_up_to_date, runtime_dir, tray_icon_dir,
};

fn b(s: &str) -> Option<Vec<u8>> {
    Some(s.as_bytes().to_vec())
}

#[test]
fn config_dir_prefers_nonempty_variable() {
    assert_eq!(config_dir(b("/x/cfg"), b("/home/u")), b("/x/cfg"));
    assert_eq!(config_dir(b(""), b("/home/u")), b("/home/u/.config"));
    assert_eq!(config_dir(None, b("/home/u/")), b("/home/u/.config"));
    assert_eq!(config_dir(None, b("")), None);
    assert_eq!(config_dir(None, None), None);
}

#[test]
fn data_and_runtime_dirs() {
    assert_eq!(data_dir(None, b("/home/u")), b("/home/u/.local/share"));
    assert_eq!(data_dir(b("/d"), None), b("/d"));
    assert_eq!(runtime_dir(b("/run/user/1000"), b"/tmp".to_vec()), b"/run/user/1000".to_vec());
    assert_eq!(runtime_dir(b(""), b"/tmp".to_vec()), b"/tmp".to_vec());
    let (dir, path) = font_path(b"/run/user/1000".to_vec());
    assert_eq!(dir, b"/run/user/1000/showkey".to_vec());
    assert_eq!(path, b"/run/user/1000/showkey/JetBrainsMonoNerdFont-Bold.ttf".to_vec());
    assert!(font_up_to_date(Some(42), 42));
    assert!(!font_up_to_date(Some(41), 42));
    assert!(!font_up_to_date(None, 42));
}

#[test]
fn settings_and_autostart_files() {
    assert_eq!(config_path(b("/c"), b("/home/u")), b("/c/showkey/config.toml"));
    assert_eq!(config_path(None, b("/home/u")), b("/home/u/.config/showkey/config.toml"));
    // an empty variable counts as unset: never a relative path
    assert_eq!(config_path(b(""), b("/home/u")), b("/home/u/.config/showkey/config.toml"));
    assert_eq!(config_path(b(""), None), None);
    assert_eq!(tray_icon_dir(b"/home/u/.local/share".to_vec()), b"/home/u/.local/share/showkey/icon".to_vec());
    assert_eq!(config_path(None, None), None);
    assert_eq!(autostart_path(None, b("/home/u")), b("/home/u/.config/autostart/showkey.desktop"));
    assert_eq!(autostart_path(b(""), None), None);
}

#[test]
fn autostart_program_and_entry() {
    assert_eq!(autostart_exec(b("/usr/bin/showkey"), b("/home/u")), "/usr/bin/showkey");
    assert_eq!(autostart_exec(None, b("/home/u")), "/home/u/.local/bin/showkey");
    assert_eq!(autostart_exec(None, None), "showkey");
    assert_eq!(autostart_exec(Some(vec![b'/', 0xff]), None), "/\u{FFFD}");
    let entry = autostart_entry("/usr/bin/showkey");
    assert_eq!(
        entry,
        "[Desktop Entry]\nType=Application\nName=showkey\nComment=显示按键组合的悬浮胶囊\nExec=/usr/bin/showkey\nTerminal=false\nX-GNOME-Autostart-enabled=true\n"
    );
}

#[test]
fn keyboards_are_told_apart() {
    let keyboard = Some(vec![1, KEY_A, KEY_Z, KEY_ENTER, KEY_LEFTCTRL, 100]);
    let mouse = Some(vec![0x110, 0x111]);
    let no_ctrl = Some(vec![KEY_A, KEY_Z, KEY_ENTER]);
    assert!(is_keyboard(&keyboard));
    assert!(!is_keyboard(&mouse));
    assert!(!is_keyboard(&no_ctrl));
    assert!(!is_keyboard(&None));
    let devices = vec![mouse, keyboard.clone(), None, no_ctrl, keyboard];
    assert_eq!(find_keyboards(&devices), vec![1, 4]);
}
