//! XDG base directories and the files under them, computed from the values of
//! the environment variables (as raw bytes, the way Unix paths are).
//!
//! The specification treats a variable that is set but empty as unset: a path
//! built on an empty value would be relative, and the files would land in the
//! working directory.

use vstd::prelude::*;
use vstd::string::*;

verus! {

/// The path separator `/`.
pub const SLASH: u8 = 47;

/// The bytes of an ASCII text.
pub open spec fn ascii_bytes(s: Seq<char>) -> Seq<u8> {
    Seq::new(s.len(), |i: int| s[i] as u8)
}

/// `base` joined with the relative path `rel`, as `PathBuf::push` joins them: a
/// separator goes between them unless `base` is empty or already ends in one.
pub open spec fn spec_join(base: Seq<u8>, rel: Seq<u8>) -> Seq<u8> {
    if base.len() > 0 && base.last() != SLASH {
        base + seq![SLASH] + rel
    } else {
        base + rel
    }
}

/// The view of an optional path.
pub open spec fn opt_view(v: Option<Vec<u8>>) -> Option<Seq<u8>> {
    match v {
        Some(x) => Some(x@),
        None => None,
    }
}

/// Whether a variable is set to a non-empty value.
pub open spec fn set_and_nonempty(v: Option<Seq<u8>>) -> bool {
    v matches Some(x) && x.len() > 0
}

/// Joins the relative ASCII path `rel` to `base`.
fn join(base: Vec<u8>, rel: &str) -> (res: Vec<u8>)
    requires
        rel.is_ascii(),
    ensures
        res@ == spec_join(base@, ascii_bytes(rel@)),
{
    broadcast use is_ascii_spec_bytes;

    let mut res = base;
    let n = res.len();
    if n > 0 && res[n - 1] != SLASH {
        res.push(SLASH);
    }
    let ghost start = res@;
    let bytes = rel.as_bytes();
    assert(bytes@ =~= ascii_bytes(rel@));
    let mut i: usize = 0;
    while i < bytes.len()
        invariant
            i <= bytes@.len(),
            res@ == start + bytes@.take(i as int),
        decreases bytes@.len() - i,
    {
        res.push(bytes[i]);
        i = i + 1;
        assert(res@ =~= start + bytes@.take(i as int));
    }
    assert(bytes@.take(bytes@.len() as int) =~= bytes@);
    res
}

/// `$var` where it is set and not empty, else `~/fallback` where `HOME` is set and
/// not empty, else nothing.
pub open spec fn spec_xdg_dir(var: Option<Seq<u8>>, home: Option<Seq<u8>>, fallback: Seq<char>) -> Option<Seq<u8>> {
    if set_and_nonempty(var) {
        var
    } else if set_and_nonempty(home) {
        Some(spec_join(home.unwrap(), ascii_bytes(fallback)))
    } else {
        None
    }
}

fn xdg_dir(var: Option<Vec<u8>>, home: Option<Vec<u8>>, fallback: &str) -> (res: Option<Vec<u8>>)
    requires
        fallback.is_ascii(),
    ensures
        opt_view(res) == spec_xdg_dir(opt_view(var), opt_view(home), fallback@),
{
    match var {
        Some(v) if v.len() > 0 => return Some(v),
        _ => {},
    }
    match home {
        Some(h) if h.len() > 0 => Some(join(h, fallback)),
        _ => None,
    }
}

/// `$XDG_CONFIG_HOME`, falling back to `~/.config`; `None` where neither is known.
pub fn config_dir(xdg_config_home: Option<Vec<u8>>, home: Option<Vec<u8>>) -> (res: Option<Vec<u8>>)
    ensures
        opt_view(res) == spec_xdg_dir(opt_view(xdg_config_home), opt_view(home), ".config"@),
{
    proof {
        reveal_strlit(".config");
    }
    xdg_dir(xdg_config_home, home, ".config")
}

/// `$XDG_DATA_HOME`, falling back to `~/.local/share`; `None` where neither is known.
pub fn data_dir(xdg_data_home: Option<Vec<u8>>, home: Option<Vec<u8>>) -> (res: Option<Vec<u8>>)
    ensures
        opt_view(res) == spec_xdg_dir(opt_view(xdg_data_home), opt_view(home), ".local/share"@),
{
    proof {
        reveal_strlit(".local/share");
    }
    xdg_dir(xdg_data_home, home, ".local/share")
}

/// `$XDG_RUNTIME_DIR`, falling back to the system's temporary directory (the
/// variable has no fallback under the home directory).
pub fn runtime_dir(xdg_runtime_dir: Option<Vec<u8>>, temp_dir: Vec<u8>) -> (res: Vec<u8>)
    ensures
        res@ == (if set_and_nonempty(opt_view(xdg_runtime_dir)) {
            xdg_runtime_dir.unwrap()@
        } else {
            temp_dir@
        }),
{
    match xdg_runtime_dir {
        Some(v) if v.len() > 0 => v,
        _ => temp_dir,
    }
}

/// The settings file: `<config dir>/showkey/config.toml`, the config directory
/// being that of `config_dir` (a set but empty variable counts as unset, so the
/// file never lands in the working directory).
pub open spec fn spec_config_path(xdg_config_home: Option<Seq<u8>>, home: Option<Seq<u8>>) -> Option<Seq<u8>> {
    match spec_xdg_dir(xdg_config_home, home, ".config"@) {
        Some(dir) => Some(spec_join(spec_join(dir, ascii_bytes("showkey"@)), ascii_bytes("config.toml"@))),
        None => None,
    }
}

pub fn config_path(xdg_config_home: Option<Vec<u8>>, home: Option<Vec<u8>>) -> (res: Option<Vec<u8>>)
    ensures
        opt_view(res) == spec_config_path(opt_view(xdg_config_home), opt_view(home)),
{
    proof {
        reveal_strlit("showkey");
        reveal_strlit("config.toml");
    }
    match config_dir(xdg_config_home, home) {
        Some(dir) => Some(join(join(dir, "showkey"), "config.toml")),
        None => None,
    }
}

/// The autostart entry: `<config dir>/autostart/showkey.desktop`.
pub open spec fn spec_autostart_path(xdg_config_home: Option<Seq<u8>>, home: Option<Seq<u8>>) -> Option<Seq<u8>> {
    match spec_xdg_dir(xdg_config_home, home, ".config"@) {
        Some(dir) => Some(spec_join(spec_join(dir, ascii_bytes("autostart"@)), ascii_bytes("showkey.desktop"@))),
        None => None,
    }
}

pub fn autostart_path(xdg_config_home: Option<Vec<u8>>, home: Option<Vec<u8>>) -> (res: Option<Vec<u8>>)
    ensures
        opt_view(res) == spec_autostart_path(opt_view(xdg_config_home), opt_view(home)),
{
    proof {
        reveal_strlit("autostart");
        reveal_strlit("showkey.desktop");
    }
    match config_dir(xdg_config_home, home) {
        Some(dir) => Some(join(join(dir, "autostart"), "showkey.desktop")),
        None => None,
    }
}

/// File name of the bundled font.
pub const FONT_FILE_NAME: &'static str = "JetBrainsMonoNerdFont-Bold.ttf";

/// Where the bundled font is written: (`<runtime dir>/showkey`, the font file in it).
pub fn font_path(runtime_dir: Vec<u8>) -> (res: (Vec<u8>, Vec<u8>))
    ensures
        res.0@ == spec_join(runtime_dir@, ascii_bytes("showkey"@)),
        res.1@ == spec_join(res.0@, ascii_bytes(FONT_FILE_NAME@)),
{
    proof {
        reveal_strlit("showkey");
        reveal_strlit("JetBrainsMonoNerdFont-Bold.ttf");
    }
    let dir = join(runtime_dir, "showkey");
    let path = join(dir.clone(), FONT_FILE_NAME);
    (dir, path)
}

/// Whether the font file on disk (`existing_len`: its size, `None` where it cannot
/// be read) is already the bundled font of `font_len` bytes, so that writing it
/// again can be skipped.
pub fn font_up_to_date(existing_len: Option<u64>, font_len: u64) -> (res: bool)
    ensures
        res == (existing_len == Some(font_len)),
{
    match existing_len {
        Some(len) => len == font_len,
        None => false,
    }
}

/// Where the tray icon lives: `<data dir>/showkey/icon`.
pub fn tray_icon_dir(data_dir: Vec<u8>) -> (res: Vec<u8>)
    ensures
        res@ == spec_join(spec_join(data_dir@, ascii_bytes("showkey"@)), ascii_bytes("icon"@)),
{
    proof {
        reveal_strlit("showkey");
        reveal_strlit("icon");
    }
    join(join(data_dir, "showkey"), "icon")
}

/// What `String::from_utf8_lossy` makes of a byte string.
pub uninterp spec fn utf8_lossy(bytes: Seq<u8>) -> Seq<char>;

/// Decodes `bytes` with `String::from_utf8_lossy` (invalid sequences become U+FFFD).
/// Claimed: the text is a function of the bytes, named `utf8_lossy`.
#[verifier::external_body]
fn lossy_text(bytes: &Vec<u8>) -> (res: String)
    ensures
        res@ == utf8_lossy(bytes@),
{
    String::from_utf8_lossy(bytes.as_slice()).into_owned()
}

/// The program that the autostart entry runs: the running executable where it is
/// known, else `~/.local/bin/showkey` where `HOME` is set, else `showkey`.
pub open spec fn spec_autostart_exec(current_exe: Option<Seq<u8>>, home: Option<Seq<u8>>) -> Seq<char> {
    match current_exe {
        Some(exe) => utf8_lossy(exe),
        None => match home {
            Some(h) => utf8_lossy(spec_join(h, ascii_bytes(".local/bin/showkey"@))),
            None => "showkey"@,
        },
    }
}

pub fn autostart_exec(current_exe: Option<Vec<u8>>, home: Option<Vec<u8>>) -> (res: String)
    ensures
        res@ == spec_autostart_exec(opt_view(current_exe), opt_view(home)),
{
    proof {
        reveal_strlit(".local/bin/showkey");
    }
    match current_exe {
        Some(exe) => lossy_text(&exe),
        None => match home {
            Some(h) => {
                let path = join(h, ".local/bin/showkey");
                lossy_text(&path)
            },
            None => String::from_str("showkey"),
        },
    }
}

/// The text of the autostart entry before and after the program it runs.
pub const DESKTOP_ENTRY_HEAD: &'static str = "[Desktop Entry]\nType=Application\nName=showkey\nComment=显示按键组合的悬浮胶囊\nExec=";
pub const DESKTOP_ENTRY_TAIL: &'static str = "\nTerminal=false\nX-GNOME-Autostart-enabled=true\n";

/// The autostart desktop entry that runs `exec`.
pub fn autostart_entry(exec: &str) -> (res: String)
    ensures
        res@ == DESKTOP_ENTRY_HEAD@ + exec@ + DESKTOP_ENTRY_TAIL@,
{
    let mut text = String::from_str(DESKTOP_ENTRY_HEAD);
    text.append(exec);
    text.append(DESKTOP_ENTRY_TAIL);
    text
}

/// Law: joining puts one `/` between a path and a relative path, none after an
/// empty path or one that already ends in `/`.
pub proof fn lemma_join_separator(base: Seq<u8>, rel: Seq<u8>)
    ensures
        base.len() > 0 && base.last() != 47u8 ==> spec_join(base, rel) == base + seq![47u8] + rel,
        base.len() == 0 || base.last() == 47u8 ==> spec_join(base, rel) == base + rel,
{
}

/// Law: with `$XDG_CONFIG_HOME` set to a non-empty `v` (not ending in `/`), the
/// config directory is `v`, the settings file `v/showkey/config.toml` and the
/// autostart entry `v/autostart/showkey.desktop`, whatever `HOME` is.
pub proof fn lemma_config_home_wins(v: Seq<u8>, home: Option<Seq<u8>>)
    requires
        v.len() > 0,
        v.last() != 47u8,
    ensures
        spec_xdg_dir(Some(v), home, ".config"@) == Some(v),
        spec_config_path(Some(v), home) == Some(
            v + seq![47u8] + ascii_bytes("showkey"@) + seq![47u8] + ascii_bytes("config.toml"@),
        ),
        spec_autostart_path(Some(v), home) == Some(
            v + seq![47u8] + ascii_bytes("autostart"@) + seq![47u8] + ascii_bytes("showkey.desktop"@),
        ),
{
    reveal_strlit("showkey");
    reveal_strlit("autostart");
    assert(ascii_bytes("showkey"@).len() > 0);
    assert(ascii_bytes("autostart"@).len() > 0);
    assert((v + seq![47u8] + ascii_bytes("showkey"@)).last() == ascii_bytes("showkey"@).last());
    assert((v + seq![47u8] + ascii_bytes("autostart"@)).last() == ascii_bytes("autostart"@).last());
}

/// Law: with `$XDG_CONFIG_HOME` unset or empty and `HOME` a non-empty `h` (not
/// ending in `/`), the settings file is `h/.config/showkey/config.toml` and the
/// autostart entry `h/.config/autostart/showkey.desktop`; with neither known there
/// is no path.
pub proof fn lemma_config_falls_back_to_home(v: Option<Seq<u8>>, h: Seq<u8>)
    requires
        !set_and_nonempty(v),
        h.len() > 0,
        h.last() != 47u8,
    ensures
        spec_config_path(v, Some(h)) == Some(
            h + seq![47u8] + ascii_bytes(".config"@) + seq![47u8] + ascii_bytes("showkey"@) + seq![47u8]
                + ascii_bytes("config.toml"@),
        ),
        spec_autostart_path(v, Some(h)) == Some(
            h + seq![47u8] + ascii_bytes(".config"@) + seq![47u8] + ascii_bytes("autostart"@) + seq![47u8]
                + ascii_bytes("showkey.desktop"@),
        ),
        spec_config_path(v, None) is None,
        spec_autostart_path(v, None) is None,
        spec_config_path(v, Some(Seq::empty())) is None,
{
    reveal_strlit(".config");
    reveal_strlit("showkey");
    reveal_strlit("autostart");
    let c = h + seq![47u8] + ascii_bytes(".config"@);
    assert(c.last() == ascii_bytes(".config"@).last());
    assert((c + seq![47u8] + ascii_bytes("showkey"@)).last() == ascii_bytes("showkey"@).last());
    assert((c + seq![47u8] + ascii_bytes("autostart"@)).last() == ascii_bytes("autostart"@).last());
}

/// Law: the data directory is `$XDG_DATA_HOME` where set and not empty, else
/// `~/.local/share`.
pub proof fn lemma_data_and_runtime_dirs(v: Option<Seq<u8>>, h: Seq<u8>)
    requires
        h.len() > 0,
        h.last() != 47u8,
    ensures
        set_and_nonempty(v) ==> spec_xdg_dir(v, Some(h), ".local/share"@) == v,
        !set_and_nonempty(v) ==> spec_xdg_dir(v, Some(h), ".local/share"@) == Some(
            h + seq![47u8] + ascii_bytes(".local/share"@),
        ),
{
}

} // verus!
