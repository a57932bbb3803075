//! The checks of interactive setup: what a typed answer must look like, the console
//! images offered, and the errors of setup.

use vstd::prelude::*;
use vstd::string::*;
use crate::config::config::Config;
use crate::config::config::problems;
use crate::config::default_idle_timeout;
use crate::config::default_log_level;
use crate::config::default_poll_interval;
use crate::config::default_ra_base_url;
use crate::config::default_recent_achievements;
use crate::config::default_recent_games;
use crate::config::spec_default_idle_timeout;
use crate::config::spec_default_log_level;
use crate::config::spec_default_poll_interval;
use crate::config::spec_default_ra_base_url;
use crate::config::spec_default_recent_achievements;
use crate::config::spec_default_recent_games;
use crate::text::ascii_lower_char;
use crate::text::lemma_trimmed_empty_iff_blank;
use crate::text::remove_spaces;
use crate::text::to_lowercase_text;
use crate::text::trim_text;
use crate::text::trimmed;
use crate::text::lowercase_of;
use crate::text::without_spaces;

verus! {

/// What a typed user name is taken as: the trimmed text, refused when nothing remains.
pub open spec fn username_answer(input: Seq<char>) -> Result<Seq<char>, Seq<char>> {
    let t = trimmed(input);
    if t.len() == 0 {
        Err("Username cannot be empty. Please try again.\n"@)
    } else {
        Ok(t)
    }
}

/// What a typed API key is taken as: the trimmed text, refused when nothing remains or
/// when it is shorter than ten bytes in UTF-8 (its length as `str::len` reports it).
pub open spec fn api_key_answer(input: Seq<char>) -> Result<Seq<char>, Seq<char>> {
    let t = trimmed(input);
    if t.len() == 0 {
        Err("API key cannot be empty. Please try again.\n"@)
    } else if (vstd::utf8::encode_utf8(t).len() as usize) < 10 {
        Err("API key seems too short. Please try again.\n"@)
    } else {
        Ok(t)
    }
}

/// An ASCII decimal digit.
pub open spec fn is_ascii_digit(c: char) -> bool {
    '0' <= c <= '9'
}

/// What a typed Discord client ID is taken as: the trimmed text, refused when nothing
/// remains or when it holds anything but ASCII digits.
pub open spec fn client_id_answer(input: Seq<char>) -> Result<Seq<char>, Seq<char>> {
    let t = trimmed(input);
    if t.len() == 0 {
        Err("Client ID cannot be empty. Please try again.\n"@)
    } else if !(forall|i: int| 0 <= i < t.len() ==> is_ascii_digit(#[trigger] t[i])) {
        Err("Client ID should only contain digits. Please try again.\n"@)
    } else {
        Ok(t)
    }
}

/// The text a result of the answer checks holds, whichever side it is.
pub open spec fn answer_view(r: Result<String, String>) -> Result<Seq<char>, Seq<char>> {
    match r {
        Ok(s) => Ok(s@),
        Err(s) => Err(s@),
    }
}

/// Checks a typed user name: `Ok` with the trimmed name, or `Err` with the message to
/// show before asking again.
pub fn check_username(input: &str) -> (r: Result<String, String>)
    ensures
        answer_view(r) == username_answer(input@),
{
    let t = trim_text(input);
    if t.is_empty() {
        return Err(String::from_str("Username cannot be empty. Please try again.\n"));
    }
    Ok(t.to_owned())
}

/// Checks a typed API key: `Ok` with the trimmed key, or `Err` with the message to show
/// before asking again.
pub fn check_api_key(input: &str) -> (r: Result<String, String>)
    ensures
        answer_view(r) == api_key_answer(input@),
{
    let t = trim_text(input);
    if t.is_empty() {
        return Err(String::from_str("API key cannot be empty. Please try again.\n"));
    }
    if t.len() < 10 {
        return Err(String::from_str("API key seems too short. Please try again.\n"));
    }
    Ok(t.to_owned())
}

/// Checks a typed Discord client ID: `Ok` with the trimmed ID, or `Err` with the message
/// to show before asking again.
pub fn check_discord_client_id(input: &str) -> (r: Result<String, String>)
    ensures
        answer_view(r) == client_id_answer(input@),
{
    let t = trim_text(input);
    if t.is_empty() {
        return Err(String::from_str("Client ID cannot be empty. Please try again.\n"));
    }
    let mut all_digits = true;
    let ghost tv = t@;
    for c in iter: t.chars()
        invariant
            iter.seq() == tv,
            all_digits <==> (forall|i: int| 0 <= i < iter.index() ==> is_ascii_digit(
                #[trigger] tv[i],
            )),
    {
        let ghost k = iter.index();
        assert(c == tv[k as int]);
        if !('0' <= c && c <= '9') {
            all_digits = false;
        }
    }
    if !all_digits {
        return Err(String::from_str("Client ID should only contain digits. Please try again.\n"));
    }
    Ok(t.to_owned())
}

/// The console images offered during setup; the first entry means "no console image".
pub open spec fn console_names() -> Seq<Seq<char>> {
    seq![
        "None (use game box art)"@,
        "GameCube"@,
        "PlayStation 2"@,
        "PlayStation"@,
        "Xbox"@,
        "Xbox 360"@,
        "NES"@,
        "SNES"@,
        "Nintendo 64"@,
        "Game Boy Advance"@,
        "Game Boy Color"@,
        "Game Boy"@,
        "Sega Genesis"@,
        "Sega Saturn"@,
        "Dreamcast"@,
        "Wii"@,
        "Wii U"@,
        "Nintendo Switch"@,
        "Arcade"@,
    ]
}

/// The image key a console name gives: the name in lowercase with its spaces removed.
pub open spec fn asset_key(name: Seq<char>) -> Seq<char> {
    without_spaces(lowercase_of(name))
}

/// The image keys of the setup choices: none for the first, `asset_key` of the name for
/// the others.
pub open spec fn console_choice_key(selection: int) -> Option<Seq<char>> {
    if selection == 0 {
        None
    } else {
        Some(asset_key(console_names()[selection]))
    }
}

/// Every console name offered is plain ASCII text.
pub proof fn lemma_console_names_ascii()
    ensures
        forall|i: int|
            0 <= i < console_names().len() ==> vstd::utf8::is_ascii_chars(
                #[trigger] console_names()[i],
            ),
{
    reveal_strlit("None (use game box art)");
    reveal_strlit("GameCube");
    reveal_strlit("PlayStation 2");
    reveal_strlit("PlayStation");
    reveal_strlit("Xbox");
    reveal_strlit("Xbox 360");
    reveal_strlit("NES");
    reveal_strlit("SNES");
    reveal_strlit("Nintendo 64");
    reveal_strlit("Game Boy Advance");
    reveal_strlit("Game Boy Color");
    reveal_strlit("Game Boy");
    reveal_strlit("Sega Genesis");
    reveal_strlit("Sega Saturn");
    reveal_strlit("Dreamcast");
    reveal_strlit("Wii");
    reveal_strlit("Wii U");
    reveal_strlit("Nintendo Switch");
    reveal_strlit("Arcade");
    assert forall|i: int| 0 <= i < console_names().len() implies vstd::utf8::is_ascii_chars(
        #[trigger] console_names()[i],
    ) by {
        let n = console_names()[i];
        assert(forall|j: int| 0 <= j < n.len() ==> (n[j] as u32) < 128);
    }
}

/// The image key of an ASCII console name: ASCII lowercase, spaces removed.
pub open spec fn ascii_asset_key(name: Seq<char>) -> Seq<char> {
    without_spaces(name.map_values(|c: char| ascii_lower_char(c)))
}

/// The console images offered during setup, in order.
pub fn console_options() -> (r: Vec<&'static str>)
    ensures
        r@.map_values(|s: &str| s@) == console_names(),
{
    let v: Vec<&'static str> = vec![
        "None (use game box art)",
        "GameCube",
        "PlayStation 2",
        "PlayStation",
        "Xbox",
        "Xbox 360",
        "NES",
        "SNES",
        "Nintendo 64",
        "Game Boy Advance",
        "Game Boy Color",
        "Game Boy",
        "Sega Genesis",
        "Sega Saturn",
        "Dreamcast",
        "Wii",
        "Wii U",
        "Nintendo Switch",
        "Arcade",
    ];
    assert(v@.map_values(|s: &str| s@) =~= console_names());
    v
}

/// The image key for the console picked at position `selection` of `console_options`:
/// none for the first entry, otherwise the name lowercased with its spaces removed.
pub fn console_choice(selection: usize) -> (r: Option<String>)
    requires
        selection < console_names().len(),
    ensures
        match r {
            Some(k) => console_choice_key(selection as int) == Some(k@),
            None => console_choice_key(selection as int) is None,
        },
        r matches Some(k) ==> k@ == ascii_asset_key(console_names()[selection as int]),
{
    let consoles = console_options();
    if selection == 0 {
        return None;
    }
    let name: &str = consoles[selection];
    assert(name@ == console_names()[selection as int]);
    proof {
        lemma_console_names_ascii();
    }
    let lower = to_lowercase_text(name);
    Some(remove_spaces(lower.as_str()))
}

/// Why setup did not complete.
#[derive(Debug, Clone, PartialEq, Eq)]
pub enum SetupError {
    ValidationFailed,
    SaveFailed(String),
    Io(String),
}

/// The text that describes a setup error.
pub open spec fn setup_error_text(e: SetupError) -> Seq<char> {
    match e {
        SetupError::ValidationFailed => "Failed to validate credentials"@,
        SetupError::SaveFailed(s) => "Failed to save config: "@ + s@,
        SetupError::Io(s) => "IO error: "@ + s@,
    }
}

impl SetupError {
    /// The text that describes this error.
    pub fn message(&self) -> (r: String)
        ensures
            r@ == setup_error_text(*self),
    {
        match self {
            SetupError::ValidationFailed => String::from_str("Failed to validate credentials"),
            SetupError::SaveFailed(s) => {
                let mut r = String::from_str("Failed to save config: ");
                r.append(s.as_str());
                r
            },
            SetupError::Io(s) => {
                let mut r = String::from_str("IO error: ");
                r.append(s.as_str());
                r
            },
        }
    }
}

/// The configuration that setup writes: the answers given, and every other setting at
/// its default.
pub fn setup_config(
    username: String,
    api_key: String,
    discord_client_id: String,
    console: Option<String>,
    presence_buttons: bool,
) -> (c: Config)
    ensures
        c.username@ == username@,
        c.api_key@ == api_key@,
        c.discord_client_id@ == discord_client_id@,
        c.presence_large_image_key == console,
        c.presence_buttons == presence_buttons,
        c.poll_interval_secs == spec_default_poll_interval(),
        c.idle_timeout_secs == spec_default_idle_timeout(),
        c.log_level@ == spec_default_log_level(),
        c.ra_base_url@ == spec_default_ra_base_url(),
        c.ra_recent_games == spec_default_recent_games(),
        c.ra_recent_achievements == spec_default_recent_achievements(),
{
    Config {
        username,
        api_key,
        discord_client_id,
        poll_interval_secs: default_poll_interval(),
        idle_timeout_secs: default_idle_timeout(),
        log_level: default_log_level(),
        ra_base_url: default_ra_base_url(),
        ra_recent_games: default_recent_games(),
        ra_recent_achievements: default_recent_achievements(),
        presence_buttons,
        presence_large_image_key: console,
    }
}

/// Whether setup saves the configuration: when the credentials were confirmed by the
/// API, or when the user chose to save anyway; otherwise setup fails with
/// `ValidationFailed`.
pub fn setup_may_save(credentials_confirmed: bool, save_anyway: bool) -> (r: Result<(), SetupError>)
    ensures
        r is Ok <==> credentials_confirmed || save_anyway,
        r matches Err(e) ==> e == SetupError::ValidationFailed,
{
    if credentials_confirmed || save_anyway {
        Ok(())
    } else {
        Err(SetupError::ValidationFailed)
    }
}

/// Answers that setup accepts make a configuration that passes its check: no accepted
/// user name, API key or client ID is blank.
pub proof fn accepted_answers_pass_check(username: Seq<char>, api_key: Seq<char>, client_id: Seq<char>)
    ensures
        match (username_answer(username), api_key_answer(api_key), client_id_answer(client_id)) {
            (Ok(u), Ok(k), Ok(d)) => problems(u, k, d).len() == 0,
            _ => true,
        },
{
    lemma_trimmed_empty_iff_blank(username);
    lemma_trimmed_empty_iff_blank(api_key);
    lemma_trimmed_empty_iff_blank(client_id);
}

/// An accepted Discord client ID is the trimmed answer and consists only of ASCII digits,
/// every character included; a trimmed answer that is not empty and is all digits is
/// accepted.
pub proof fn accepted_client_id_is_digits(input: Seq<char>)
    ensures
        client_id_answer(input) matches Ok(s) ==> {
            &&& s == trimmed(input)
            &&& s.len() > 0
            &&& forall|i: int| 0 <= i < s.len() ==> '0' <= #[trigger] s[i] <= '9'
        },
        trimmed(input).len() > 0 && (forall|i: int|
            0 <= i < trimmed(input).len() ==> '0' <= #[trigger] trimmed(input)[i] <= '9')
            ==> client_id_answer(input) == Ok::<Seq<char>, Seq<char>>(trimmed(input)),
        (exists|i: int| 0 <= i < trimmed(input).len() && !('0' <= #[trigger] trimmed(input)[i] <= '9'))
            ==> client_id_answer(input) is Err,
{
}

/// An accepted API key is the trimmed answer itself, and that key (not the untrimmed
/// answer) is at least ten bytes long in UTF-8 (for any key whose length fits in a
/// `usize`, as every key in memory does).
pub proof fn accepted_api_key_is_long_enough(input: Seq<char>)
    ensures
        api_key_answer(input) matches Ok(k) ==> {
            &&& k == trimmed(input)
            &&& k.len() > 0
            &&& vstd::utf8::encode_utf8(k).len() <= usize::MAX ==> vstd::utf8::encode_utf8(k).len()
                >= 10
        },
        vstd::utf8::encode_utf8(trimmed(input)).len() < 10 ==> api_key_answer(input) is Err,
{
}

} // verus!
