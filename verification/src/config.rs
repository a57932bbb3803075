//! Settings read from the environment, and the defaults that every configuration shares.

pub mod config;
pub mod paths;
pub mod setup;

use vstd::prelude::*;
use vstd::string::*;
use crate::text::decimal;
use crate::text::push_decimal;

verus! {

/// Seconds between two polls of the RetroAchievements API, unless configured.
pub open spec fn spec_default_poll_interval() -> u64 {
    45
}

/// Seconds without play after which the presence is cleared, unless configured.
pub open spec fn spec_default_idle_timeout() -> u64 {
    300
}

/// Number of recently played games requested, unless configured.
pub open spec fn spec_default_recent_games() -> u32 {
    5
}

/// Number of recent achievements requested, unless configured.
pub open spec fn spec_default_recent_achievements() -> u32 {
    5
}

/// The log level used unless configured.
pub open spec fn spec_default_log_level() -> Seq<char> {
    "info"@
}

/// The user-summary endpoint used unless configured.
pub open spec fn spec_default_ra_base_url() -> Seq<char> {
    "https://retroachievements.org/API/API_GetUserSummary.php"@
}

/// Seconds between polls unless configured: 45.
pub fn default_poll_interval() -> (r: u64)
    ensures
        r == spec_default_poll_interval(),
{
    45
}

/// Seconds without play before the presence is cleared, unless configured: 300.
pub fn default_idle_timeout() -> (r: u64)
    ensures
        r == spec_default_idle_timeout(),
{
    300
}

/// The log level unless configured: `info`.
pub fn default_log_level() -> (r: String)
    ensures
        r@ == spec_default_log_level(),
{
    String::from_str("info")
}

/// The user-summary endpoint of the RetroAchievements API, unless configured.
pub fn default_ra_base_url() -> (r: String)
    ensures
        r@ == spec_default_ra_base_url(),
{
    String::from_str("https://retroachievements.org/API/API_GetUserSummary.php")
}

/// Recently played games requested unless configured: 5.
pub fn default_recent_games() -> (r: u32)
    ensures
        r == spec_default_recent_games(),
{
    5
}

/// Recent achievements requested unless configured: 5.
pub fn default_recent_achievements() -> (r: u32)
    ensures
        r == spec_default_recent_achievements(),
{
    5
}

/// Whether the presence shows its buttons unless configured: yes.
pub fn default_presence_buttons() -> (r: bool)
    ensures
        r,
{
    true
}

/// The API request URL: the base URL with the user name, API key, number of recent
/// games and number of recent achievements as the query parameters `u`, `y`, `g`, `a`.
pub open spec fn request_url(
    base: Seq<char>,
    username: Seq<char>,
    api_key: Seq<char>,
    games: nat,
    achievements: nat,
) -> Seq<char> {
    base + "?u="@ + username + "&y="@ + api_key + "&g="@ + decimal(games) + "&a="@ + decimal(
        achievements,
    )
}

/// Builds `request_url` for the given settings.
pub fn build_request_url(
    base: &String,
    username: &String,
    api_key: &String,
    games: u32,
    achievements: u32,
) -> (r: String)
    ensures
        r@ == request_url(base@, username@, api_key@, games as nat, achievements as nat),
{
    let mut url = base.clone();
    url.append("?u=");
    url.append(username.as_str());
    url.append("&y=");
    url.append(api_key.as_str());
    url.append("&g=");
    push_decimal(&mut url, games as u64);
    url.append("&a=");
    push_decimal(&mut url, achievements as u64);
    url
}

/// What a setting becomes when the environment offers `value`: a non-empty value
/// replaces it, an empty or absent one leaves it.
pub open spec fn env_override(current: Seq<char>, value: Option<String>) -> Seq<char> {
    match value {
        Some(v) => if v@.len() > 0 { v@ } else { current },
        None => current,
    }
}

/// Settings of the application, with credentials that may come from the environment.
#[derive(Debug, Clone)]
pub struct Config {
    pub username: String,
    pub api_key: String,
    pub discord_client_id: String,
    pub poll_interval_secs: u64,
    pub idle_timeout_secs: u64,
    pub log_level: String,
    pub ra_base_url: String,
    pub ra_recent_games: u32,
    pub ra_recent_achievements: u32,
    pub presence_buttons: bool,
    pub presence_large_image_key: Option<String>,
}

impl Config {
    /// The settings other than the three credentials are those of `other`.
    pub open spec fn same_settings(self, other: Config) -> bool {
        &&& self.poll_interval_secs == other.poll_interval_secs
        &&& self.idle_timeout_secs == other.idle_timeout_secs
        &&& self.log_level@ == other.log_level@
        &&& self.ra_base_url@ == other.ra_base_url@
        &&& self.ra_recent_games == other.ra_recent_games
        &&& self.ra_recent_achievements == other.ra_recent_achievements
        &&& self.presence_buttons == other.presence_buttons
        &&& self.presence_large_image_key == other.presence_large_image_key
    }

    /// Empty credentials and every other setting at its default.
    pub open spec fn is_default(self) -> bool {
        &&& self.username@.len() == 0
        &&& self.api_key@.len() == 0
        &&& self.discord_client_id@.len() == 0
        &&& self.poll_interval_secs == spec_default_poll_interval()
        &&& self.idle_timeout_secs == spec_default_idle_timeout()
        &&& self.log_level@ == spec_default_log_level()
        &&& self.ra_base_url@ == spec_default_ra_base_url()
        &&& self.ra_recent_games == spec_default_recent_games()
        &&& self.ra_recent_achievements == spec_default_recent_achievements()
        &&& self.presence_buttons
        &&& self.presence_large_image_key is None
    }

    /// The message for the first missing credential, in the order user name, API key,
    /// Discord client ID; `None` when all three are set.
    pub open spec fn first_missing(self) -> Option<Seq<char>> {
        if self.username@.len() == 0 {
            Some("username is required (set RA_USERNAME env var)"@)
        } else if self.api_key@.len() == 0 {
            Some("api_key is required (set RA_API_KEY env var)"@)
        } else if self.discord_client_id@.len() == 0 {
            Some("discord_client_id is required (set DISCORD_CLIENT_ID env var)"@)
        } else {
            None
        }
    }

    /// Succeeds exactly when the user name, API key and Discord client ID are all
    /// non-empty; otherwise reports the first one that is missing.
    pub fn validate(&self) -> (r: Result<(), String>)
        ensures
            r is Ok <==> self.first_missing() is None,
            r matches Err(e) ==> self.first_missing() == Some(e@),
    {
        if self.username.as_str().is_empty() {
            return Err(String::from_str("username is required (set RA_USERNAME env var)"));
        }
        if self.api_key.as_str().is_empty() {
            return Err(String::from_str("api_key is required (set RA_API_KEY env var)"));
        }
        if self.discord_client_id.as_str().is_empty() {
            return Err(
                String::from_str("discord_client_id is required (set DISCORD_CLIENT_ID env var)"),
            );
        }
        Ok(())
    }

    /// The request URL for the user summary of the configured user.
    pub fn ra_url(&self) -> (r: String)
        ensures
            r@ == request_url(
                self.ra_base_url@,
                self.username@,
                self.api_key@,
                self.ra_recent_games as nat,
                self.ra_recent_achievements as nat,
            ),
    {
        build_request_url(
            &self.ra_base_url,
            &self.username,
            &self.api_key,
            self.ra_recent_games,
            self.ra_recent_achievements,
        )
    }

    /// Takes the credentials from the values of the environment variables `RA_USERNAME`,
    /// `RA_API_KEY` and `DISCORD_CLIENT_ID` (`None` where a variable is unset): each
    /// non-empty value replaces the setting; the other settings stay.
    pub fn load_from_env(
        &mut self,
        ra_username: Option<String>,
        ra_api_key: Option<String>,
        discord_client_id: Option<String>,
    )
        ensures
            final(self).username@ == env_override(old(self).username@, ra_username),
            final(self).api_key@ == env_override(old(self).api_key@, ra_api_key),
            final(self).discord_client_id@ == env_override(
                old(self).discord_client_id@,
                discord_client_id,
            ),
            final(self).same_settings(*old(self)),
    {
        if let Some(v) = ra_username {
            if !v.as_str().is_empty() {
                self.username = v;
            }
        }
        if let Some(v) = ra_api_key {
            if !v.as_str().is_empty() {
                self.api_key = v;
            }
        }
        if let Some(v) = discord_client_id {
            if !v.as_str().is_empty() {
                self.discord_client_id = v;
            }
        }
    }
}

impl Default for Config {
    fn default() -> (r: Self)
        ensures
            r.is_default(),
    {
        Config {
            username: String::new(),
            api_key: String::new(),
            discord_client_id: String::new(),
            poll_interval_secs: default_poll_interval(),
            idle_timeout_secs: default_idle_timeout(),
            log_level: default_log_level(),
            ra_base_url: default_ra_base_url(),
            ra_recent_games: default_recent_games(),
            ra_recent_achievements: default_recent_achievements(),
            presence_buttons: default_presence_buttons(),
            presence_large_image_key: None,
        }
    }
}

/// A configuration with every setting at its default has no credentials, so it never
/// validates: the first missing credential is the user name.
pub proof fn default_env_config_is_incomplete(c: Config)
    requires
        c.is_default(),
    ensures
        c.first_missing() == Some("username is required (set RA_USERNAME env var)"@),
{
}

/// Reading the same environment twice gives what reading it once gives.
pub proof fn env_override_idempotent(current: Seq<char>, value: Option<String>)
    ensures
        env_override(env_override(current, value), value) == env_override(current, value),
{
}

} // verus!
