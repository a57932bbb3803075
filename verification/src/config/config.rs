//! The configuration stored in the configuration file, its check, and the errors of
//! loading and saving it.

use vstd::prelude::*;
use vstd::string::*;
use crate::config::default_idle_timeout;
use crate::config::default_log_level;
use crate::config::default_poll_interval;
use crate::config::default_presence_buttons;
use crate::config::default_ra_base_url;
use crate::config::default_recent_achievements;
use crate::config::default_recent_games;
use crate::config::build_request_url;
use crate::config::request_url;
use crate::config::spec_default_idle_timeout;
use crate::config::spec_default_log_level;
use crate::config::spec_default_poll_interval;
use crate::config::spec_default_ra_base_url;
use crate::config::spec_default_recent_achievements;
use crate::config::spec_default_recent_games;
use crate::text::is_blank;
use crate::text::join_strings;
use crate::text::joined;
use crate::text::lemma_trimmed_empty_iff_blank;
use crate::text::texts;
use crate::text::trim_text;

verus! {

/// Settings of the application as the configuration file holds them.
#[derive(Debug, Clone)]
pub struct Config {
    pub username: String,
    pub api_key: String,
    pub discord_client_id: String,
    pub poll_interval_secs: u64,
    pub idle_timeout_secs: u64,
    pub log_level: String,
    pub ra_base_url: String,
    pub ra_recent_games: u32,
    pub ra_recent_achievements: u32,
    pub presence_buttons: bool,
    pub presence_large_image_key: Option<String>,
}

/// The messages of a failed check, one per blank credential, in the order user name,
/// API key, Discord client ID.
pub open spec fn problems(username: Seq<char>, api_key: Seq<char>, client_id: Seq<char>) -> Seq<
    Seq<char>,
> {
    (if is_blank(username) { seq!["Username is required"@] } else { Seq::empty() }) + (if is_blank(
        api_key,
    ) {
        seq!["RetroAchievements API key is required"@]
    } else {
        Seq::empty()
    }) + (if is_blank(client_id) { seq!["Discord client ID is required"@] } else { Seq::empty() })
}

impl Config {
    /// Empty credentials and every other setting at its default.
    pub open spec fn is_default(self) -> bool {
        &&& self.username@.len() == 0
        &&& self.api_key@.len() == 0
        &&& self.discord_client_id@.len() == 0
        &&& self.poll_interval_secs == spec_default_poll_interval()
        &&& self.idle_timeout_secs == spec_default_idle_timeout()
        &&& self.log_level@ == spec_default_log_level()
        &&& self.ra_base_url@ == spec_default_ra_base_url()
        &&& self.ra_recent_games == spec_default_recent_games()
        &&& self.ra_recent_achievements == spec_default_recent_achievements()
        &&& self.presence_buttons
        &&& self.presence_large_image_key is None
    }

    /// What the check of this configuration reports.
    pub open spec fn spec_problems(self) -> Seq<Seq<char>> {
        problems(self.username@, self.api_key@, self.discord_client_id@)
    }

    /// Succeeds exactly when none of the user name, API key and Discord client ID is
    /// blank (empty or white space only); otherwise lists one message per blank one.
    pub fn validate(&self) -> (r: Result<(), Vec<String>>)
        ensures
            r is Ok <==> self.spec_problems().len() == 0,
            r matches Err(v) ==> texts(v@) == self.spec_problems(),
    {
        let mut errors: Vec<String> = Vec::new();
        let u = trim_text(self.username.as_str());
        let k = trim_text(self.api_key.as_str());
        let d = trim_text(self.discord_client_id.as_str());
        proof {
            lemma_trimmed_empty_iff_blank(self.username@);
            lemma_trimmed_empty_iff_blank(self.api_key@);
            lemma_trimmed_empty_iff_blank(self.discord_client_id@);
        }
        let ghost first = if is_blank(self.username@) {
            seq!["Username is required"@]
        } else {
            Seq::<Seq<char>>::empty()
        };
        let ghost second = if is_blank(self.api_key@) {
            seq!["RetroAchievements API key is required"@]
        } else {
            Seq::<Seq<char>>::empty()
        };
        let ghost third = if is_blank(self.discord_client_id@) {
            seq!["Discord client ID is required"@]
        } else {
            Seq::<Seq<char>>::empty()
        };
        if u.is_empty() {
            errors.push(String::from_str("Username is required"));
        }
        assert(texts(errors@) =~= first);
        if k.is_empty() {
            errors.push(String::from_str("RetroAchievements API key is required"));
        }
        assert(texts(errors@) =~= first + second);
        if d.is_empty() {
            errors.push(String::from_str("Discord client ID is required"));
        }
        assert(texts(errors@) =~= first + second + third);
        if errors.len() == 0 {
            Ok(())
        } else {
            Err(errors)
        }
    }

    /// The request URL for the user summary of the configured user.
    pub fn ra_url(&self) -> (r: String)
        ensures
            r@ == request_url(
                self.ra_base_url@,
                self.username@,
                self.api_key@,
                self.ra_recent_games as nat,
                self.ra_recent_achievements as nat,
            ),
    {
        build_request_url(
            &self.ra_base_url,
            &self.username,
            &self.api_key,
            self.ra_recent_games,
            self.ra_recent_achievements,
        )
    }
}

impl Default for Config {
    fn default() -> (r: Self)
        ensures
            r.is_default(),
    {
        Config {
            username: String::new(),
            api_key: String::new(),
            discord_client_id: String::new(),
            poll_interval_secs: default_poll_interval(),
            idle_timeout_secs: default_idle_timeout(),
            log_level: default_log_level(),
            ra_base_url: default_ra_base_url(),
            ra_recent_games: default_recent_games(),
            ra_recent_achievements: default_recent_achievements(),
            presence_buttons: default_presence_buttons(),
            presence_large_image_key: None,
        }
    }
}

/// Why the configuration could not be loaded or saved.
#[derive(Debug, Clone, PartialEq, Eq)]
pub enum ConfigError {
    NotFound,
    NoConfigPath,
    Io(String),
    Parse(String),
    Invalid(String),
    Serialize(String),
}

/// The text that describes a configuration error.
pub open spec fn config_error_text(e: ConfigError) -> Seq<char> {
    match e {
        ConfigError::NotFound => "Config file not found. Run with --setup to create one."@,
        ConfigError::NoConfigPath => "Could not determine config directory"@,
        ConfigError::Io(s) => "IO error: "@ + s@,
        ConfigError::Parse(s) => "Failed to parse config: "@ + s@,
        ConfigError::Invalid(s) => "Invalid config: "@ + s@,
        ConfigError::Serialize(s) => "Failed to serialize config: "@ + s@,
    }
}

fn prefixed(prefix: &str, detail: &String) -> (r: String)
    ensures
        r@ == prefix@ + detail@,
{
    let mut r = String::from_str(prefix);
    r.append(detail.as_str());
    r
}

impl ConfigError {
    /// The text that describes this error.
    pub fn message(&self) -> (r: String)
        ensures
            r@ == config_error_text(*self),
    {
        match self {
            ConfigError::NotFound => String::from_str(
                "Config file not found. Run with --setup to create one.",
            ),
            ConfigError::NoConfigPath => String::from_str("Could not determine config directory"),
            ConfigError::Io(s) => prefixed("IO error: ", s),
            ConfigError::Parse(s) => prefixed("Failed to parse config: ", s),
            ConfigError::Invalid(s) => prefixed("Invalid config: ", s),
            ConfigError::Serialize(s) => prefixed("Failed to serialize config: ", s),
        }
    }
}

/// Accepts the result of parsing the configuration file: a parse failure with message
/// `e` becomes `Parse(e)`; a parsed configuration that fails its check becomes
/// `Invalid` with the check's messages joined by ", "; any other is returned as it is.
pub fn accept_loaded_config(parsed: Result<Config, String>) -> (r: Result<Config, ConfigError>)
    ensures
        parsed matches Err(e) ==> r == Err::<Config, ConfigError>(ConfigError::Parse(e)),
        parsed matches Ok(c) ==> {
            &&& (r is Ok <==> c.spec_problems().len() == 0)
            &&& r matches Ok(c2) ==> c2 == c
            &&& r matches Err(err) ==> (err matches ConfigError::Invalid(m) && m@ == joined(
                c.spec_problems(),
                ", "@,
            ))
        },
{
    match parsed {
        Err(e) => Err(ConfigError::Parse(e)),
        Ok(c) => {
            match c.validate() {
                Ok(()) => Ok(c),
                Err(errors) => Err(ConfigError::Invalid(join_strings(&errors, ", "))),
            }
        },
    }
}

/// A configuration with every setting at its default lacks all three credentials.
pub proof fn default_config_lists_all_credentials(c: Config)
    requires
        c.is_default(),
    ensures
        c.spec_problems() == seq![
            "Username is required"@,
            "RetroAchievements API key is required"@,
            "Discord client ID is required"@,
        ],
{
    assert(is_blank(c.username@));
    assert(is_blank(c.api_key@));
    assert(is_blank(c.discord_client_id@));
    assert(c.spec_problems() =~= seq![
        "Username is required"@,
        "RetroAchievements API key is required"@,
        "Discord client ID is required"@,
    ]);
}

} // verus!
