//! Where the configuration file lives: `<user configuration directory>/ra-discord-rp/config.toml`
//! (`~/.config` on Linux, `~/Library/Application Support` on macOS, `%APPDATA%` on Windows).

use vstd::prelude::*;
use vstd::string::*;

verus! {

/// Name of the application: the name of its directory inside the user's configuration
/// directory.
pub const APP_NAME: &'static str = "ra-discord-rp";

/// Name of the configuration file inside the configuration directory.
pub const CONFIG_FILENAME: &'static str = "config.toml";

/// A file name that `Path::join` appends to a directory as one more component: not
/// empty, not `.` or `..`, and with no path separator and no drive or prefix colon, so
/// that it is relative on every platform.
pub open spec fn is_plain_file_name(name: Seq<char>) -> bool {
    &&& name.len() > 0
    &&& name != seq!['.']
    &&& name != seq!['.', '.']
    &&& forall|i: int|
        0 <= i < name.len() ==> #[trigger] name[i] != '/' && name[i] != '\\' && name[i] != ':'
}

/// `s` ends with `suffix`.
pub open spec fn is_suffix(suffix: Seq<char>, s: Seq<char>) -> bool {
    suffix.len() <= s.len() && s.subrange(s.len() - suffix.len(), s.len() as int) == suffix
}

/// A Windows verbatim path: it begins with `\\?\`.
pub open spec fn is_verbatim(dir: Seq<char>) -> bool {
    dir.len() >= 4 && dir.subrange(0, 4) == seq!['\\', '\\', '?', '\\']
}

/// The directory followed by the name, with or without a separator between them (the
/// separator is `/` or `\` depending on the platform, and none is added after one
/// already there).
pub open spec fn is_joined_path(r: Seq<char>, dir: Seq<char>, name: Seq<char>) -> bool {
    ||| r == dir + name
    ||| r == dir + seq!['/'] + name
    ||| r == dir + seq!['\\'] + name
}

/// A bare two-character drive such as `C:`, after which Windows adds no separator.
pub open spec fn is_bare_drive(dir: Seq<char>) -> bool {
    dir.len() == 2 && dir[1] == ':'
}

/// What joining a plain file name to a directory gives: a path that ends with the name;
/// the name alone for an empty directory; and, unless the directory is a Windows
/// verbatim path (which `PathBuf::push` rebuilds from its normalised components),
/// exactly `is_joined_path`, with no separator added after a trailing `/`, and one of
/// the two separators added after any other directory that does not end in `\` and is
/// not a bare drive.
pub open spec fn joins_to(r: Seq<char>, dir: Seq<char>, name: Seq<char>) -> bool {
    &&& is_suffix(name, r)
    &&& dir.len() == 0 ==> r == name
    &&& !is_verbatim(dir) ==> is_joined_path(r, dir, name)
    &&& !is_verbatim(dir) && dir.len() > 0 && dir.last() == '/' ==> r == dir + name
    &&& !is_verbatim(dir) && dir.len() > 0 && dir.last() != '/' && dir.last() != '\\'
        && !is_bare_drive(dir) ==> r != dir + name
}

/// Calls `BaseDirs::new` of the `directories` crate and, when it finds the user's home,
/// returns the user's configuration directory (`BaseDirs::config_dir`: `$XDG_CONFIG_HOME`
/// or `~/.config` on Linux, `~/Library/Application Support` on macOS, the roaming
/// application data folder on Windows) as text, or `None` when it is not valid UTF-8.
/// Which directory, and whether one is found, depend on the platform and on the
/// environment, so the contract states nothing of the result.
#[verifier::external_body]
fn user_config_dir() -> (r: Option<String>) {
    match directories::BaseDirs::new() {
        Some(dirs) => dirs.config_dir().to_str().map(String::from),
        None => None,
    }
}

/// Calls `Path::join` on `dir` with a plain file name and returns the path as text.
/// By the documentation of `PathBuf::push`, a relative name is appended after a
/// separator unless `dir` already ends with one (or is empty, or is a bare drive such as
/// `C:`); which separator depends on the platform (`/` on Unix, `\` on Windows, where
/// `/` also counts as one), so the contract allows both; after a trailing `\`, a
/// separator only on Windows, it leaves open whether one is added. For a Windows
/// verbatim directory (`\\?\...`) `push` rebuilds the path from its normalised
/// components, the name last, so there the contract states only that the result ends
/// with the name.
#[verifier::external_body]
fn join_path(dir: &str, name: &str) -> (r: String)
    requires
        is_plain_file_name(name@),
    ensures
        joins_to(r@, dir@, name@),
{
    std::path::Path::new(dir).join(name).to_string_lossy().into_owned()
}

proof fn lemma_app_name_plain()
    ensures
        is_plain_file_name(APP_NAME@),
{
    reveal_strlit("ra-discord-rp");
    assert(APP_NAME@.len() == 13);
    assert(APP_NAME@ != seq!['.']);
    assert(APP_NAME@ != seq!['.', '.']);
}

proof fn lemma_config_file_name_plain()
    ensures
        is_plain_file_name(CONFIG_FILENAME@),
{
    reveal_strlit("config.toml");
    assert(CONFIG_FILENAME@.len() == 11);
    assert(CONFIG_FILENAME@ != seq!['.']);
    assert(CONFIG_FILENAME@ != seq!['.', '.']);
}

/// The directory of this application inside the user's configuration directory `base`:
/// `base` joined with `ra-discord-rp`.
pub fn app_dir_in(base: Option<String>) -> (r: Option<String>)
    ensures
        r is Some <==> base is Some,
        r matches Some(d) ==> joins_to(d@, base->0@, APP_NAME@),
{
    match base {
        Some(b) => {
            proof {
                lemma_app_name_plain();
            }
            Some(join_path(b.as_str(), APP_NAME))
        },
        None => None,
    }
}

/// The configuration directory of this application on this machine, if the user's
/// configuration directory can be found: that directory joined with `ra-discord-rp`.
pub fn get_config_dir() -> (r: Option<String>)
    ensures
        r matches Some(d) ==> exists|base: Seq<char>| joins_to(d@, base, APP_NAME@),
{
    app_dir_in(user_config_dir())
}

/// The path of the configuration file inside the directory `dir`, if there is one.
pub fn config_path_in(dir: Option<String>) -> (r: Option<String>)
    ensures
        r is Some <==> dir is Some,
        r matches Some(p) ==> joins_to(p@, dir->0@, CONFIG_FILENAME@),
{
    match dir {
        Some(d) => {
            proof {
                lemma_config_file_name_plain();
            }
            Some(join_path(d.as_str(), CONFIG_FILENAME))
        },
        None => None,
    }
}

/// The path of the configuration file, if the configuration directory can be found:
/// `config.toml` joined to the application's configuration directory.
pub fn get_config_path() -> (r: Option<String>)
    ensures
        r matches Some(p) ==> exists|base: Seq<char>, dir: Seq<char>|
            joins_to(dir, base, APP_NAME@) && joins_to(p@, dir, CONFIG_FILENAME@),
{
    config_path_in(get_config_dir())
}

/// How a configuration directory is shown to the user: the directory itself, or
/// `Unknown` when there is none.
pub fn config_dir_display(dir: Option<String>) -> (r: String)
    ensures
        r@ == match dir {
            Some(d) => d@,
            None => "Unknown"@,
        },
{
    match dir {
        Some(d) => d,
        None => String::from_str("Unknown"),
    }
}

/// The configuration directory as shown to the user: the application's configuration
/// directory (which ends with `ra-discord-rp`), or `Unknown`.
pub fn get_config_dir_display() -> (r: String)
    ensures
        r@ == "Unknown"@ || exists|base: Seq<char>| joins_to(r@, base, APP_NAME@),
{
    config_dir_display(get_config_dir())
}

/// A path separator: `/`, or `\` (on Windows).
pub open spec fn is_separator(c: char) -> bool {
    c == '/' || c == '\\'
}

/// The documented layout of the configuration file: for a user configuration directory
/// `base` (non-empty, not ending in a separator, not a bare drive, not verbatim), the
/// file is `base`, a separator, `ra-discord-rp`, a separator, `config.toml`; for example
/// `~/.config/ra-discord-rp/config.toml` on Linux, `~/Library/Application
/// Support/ra-discord-rp/config.toml` on macOS, `%APPDATA%\ra-discord-rp\config.toml` on
/// Windows.
pub proof fn config_file_layout(base: Seq<char>, dir: Seq<char>, path: Seq<char>)
    requires
        base.len() > 0,
        !is_separator(base.last()),
        !is_bare_drive(base),
        !is_verbatim(base),
        !is_verbatim(dir),
        joins_to(dir, base, APP_NAME@),
        joins_to(path, dir, CONFIG_FILENAME@),
    ensures
        exists|s1: char, s2: char|
            is_separator(s1) && is_separator(s2) && path == base + seq![s1] + APP_NAME@ + seq![s2]
                + CONFIG_FILENAME@,
{
    reveal_strlit("ra-discord-rp");
    let s1 = if dir == base + seq!['/'] + APP_NAME@ { '/' } else { '\\' };
    assert(dir == base + seq![s1] + APP_NAME@);
    assert(dir.last() == 'p');
    let s2 = if path == dir + seq!['/'] + CONFIG_FILENAME@ { '/' } else { '\\' };
    assert(path == dir + seq![s2] + CONFIG_FILENAME@);
    assert(path == base + seq![s1] + APP_NAME@ + seq![s2] + CONFIG_FILENAME@);
}

} // verus!
