use ra_discord_rp::config::config::accept_loaded_config;
use ra_discord_rp::config::config::Config as FileConfig;
use ra_discord_rp::config::config::ConfigError;
use ra_discord_rp::config::paths::app_dir_in;
use ra_discord_rp::config::paths::config_dir_display;
use ra_discord_rp::config::paths::config_path_in;
use ra_discord_rp::config::paths::get_config_dir;
use ra_discord_rp::config::paths::get_config_dir_display;
use ra_discord_rp::config::paths::get_config_path;
use ra_discord_rp::config::paths::CONFIG_FILENAME;
use ra_discord_rp::config::setup::check_api_key;
use ra_discord_rp::config::setup::check_discord_client_id;
use ra_discord_rp::config::setup::check_username;
use ra_discord_rp::config::setup::console_choice;
use ra_discord_rp::config::setup::console_options;
use ra_discord_rp::config::setup::SetupError;
use ra_discord_rp::config::setup::setup_config;
use ra_discord_rp::config::setup::setup_may_save;
use ra_discord_rp::config::Config as EnvConfig;
use ra_discord_rp::config::default_idle_timeout;
use ra_discord_rp::config::default_log_level;
use ra_discord_rp::config::default_poll_interval;
use ra_discord_rp::config::default_presence_buttons;
use ra_discord_rp::config::default_ra_base_url;
use ra_discord_rp::config::default_recent_achievements;
use ra_discord_rp::config::default_recent_games;
use ra_discord_rp::control::log_level_for;
use ra_discord_rp::control::on_poll;
use ra_discord_rp::control::parse_command;
use ra_discord_rp::control::playing_title;
use ra_discord_rp::control::startup_check;
use ra_discord_rp::control::Command;
use ra_discord_rp::control::LogLevel;
use ra_discord_rp::control::PollAction;
use ra_discord_rp::discord::console_to_image_key;
use ra_discord_rp::discord::plan_presence;
use ra_discord_rp::discord::PresenceUpdate;
use ra_discord_rp::ra_api::RecentlyPlayedGame;
use ra_discord_rp::ra_api::UserSummary;
use ra_discord_rp::state::AppState;
use ra_discord_rp::text::join_strings;
use ra_discord_rp::text::push_decimal;
use ra_discord_rp::text::remove_spaces;

const SEC: u128 = 1_000_000_000;

fn file_config(user: &str, key: &str, id: &str) -> FileConfig {
    let mut c = FileConfig::default();
    c.username = user.to_string();
    c.api_key = key.to_string();
    c.discord_client_id = id.to_string();
    c
}

fn game(title: &str, console: &str, box_art: Option<&str>, title_img: Option<&str>, ingame: Option<&str>) -> RecentlyPlayedGame {
    RecentlyPlayedGame {
        game_id: 1,
        console_id: 2,
        console_name: console.to_string(),
        title: title.to_string(),
        image_icon: None,
        image_title: title_img.map(|s| s.to_string()),
        image_ingame: ingame.map(|s| s.to_string()),
        image_box_art: box_art.map(|s| s.to_string()),
        last_played: None,
        achievements_total: None,
    }
}

fn summary(user: &str, msg: Option<&str>, games: Vec<RecentlyPlayedGame>) -> UserSummary {
    UserSummary {
        user: user.to_string(),
        ulid: None,
        last_activity: None,
        rich_presence_msg: msg.map(|s| s.to_string()),
        last_game_id: None,
        last_game: None,
        recently_played: games,
    }
}

fn strings(v: &[&str]) -> Vec<String> {
    v.iter().map(|s| s.to_string()).collect()
}

// ---- defaults ----

#[test]
fn defaults_have_documented_values() {
    assert_eq!(default_poll_interval(), 45);
    assert_eq!(default_idle_timeout(), 300);
    assert_eq!(default_log_level(), "info");
    assert_eq!(default_ra_base_url(), "https://retroachievements.org/API/API_GetUserSummary.php");
    assert_eq!(default_recent_games(), 5);
    assert_eq!(default_recent_achievements(), 5);
    assert!(default_presence_buttons());
}

#[test]
fn default_file_config_matches_readme() {
    let c = FileConfig::default();
    assert_eq!(c.username, "");
    assert_eq!(c.api_key, "");
    assert_eq!(c.discord_client_id, "");
    assert_eq!(c.poll_interval_secs, 45);
    assert_eq!(c.idle_timeout_secs, 300);
    assert_eq!(c.log_level, "info");
    assert_eq!(c.ra_recent_games, 5);
    assert_eq!(c.ra_recent_achievements, 5);
    assert!(c.presence_buttons);
    assert_eq!(c.presence_large_image_key, None);
}

#[test]
fn default_env_config_matches_file_defaults() {
    let c = EnvConfig::default();
    assert_eq!(c.poll_interval_secs, 45);
    assert_eq!(c.idle_timeout_secs, 300);
    assert_eq!(c.log_level, "info");
    assert_eq!(c.ra_base_url, "https://retroachievements.org/API/API_GetUserSummary.php");
    assert!(c.presence_buttons);
    assert_eq!(c.presence_large_image_key, None);
}

// ---- env config ----

#[test]
fn env_validate_reports_first_missing() {
    let mut c = EnvConfig::default();
    assert_eq!(c.validate(), Err("username is required (set RA_USERNAME env var)".to_string()));
    c.username = "alice".to_string();
    assert_eq!(c.validate(), Err("api_key is required (set RA_API_KEY env var)".to_string()));
    c.api_key = "k".to_string();
    assert_eq!(
        c.validate(),
        Err("discord_client_id is required (set DISCORD_CLIENT_ID env var)".to_string())
    );
    c.discord_client_id = "1".to_string();
    assert_eq!(c.validate(), Ok(()));
}

#[test]
fn env_validate_accepts_white_space_credentials() {
    let mut c = EnvConfig::default();
    c.username = " ".to_string();
    c.api_key = " ".to_string();
    c.discord_client_id = " ".to_string();
    assert_eq!(c.validate(), Ok(()));
}

#[test]
fn env_ra_url_has_query_in_order() {
    let mut c = EnvConfig::default();
    c.username = "alice".to_string();
    c.api_key = "KEY123".to_string();
    c.ra_recent_games = 3;
    c.ra_recent_achievements = 12;
    assert_eq!(
        c.ra_url(),
        "https://retroachievements.org/API/API_GetUserSummary.php?u=alice&y=KEY123&g=3&a=12"
    );
}

#[test]
fn env_values_override_only_when_non_empty() {
    let mut c = EnvConfig::default();
    c.username = "file_user".to_string();
    c.api_key = "file_key".to_string();
    c.discord_client_id = "42".to_string();
    c.load_from_env(Some("env_user".to_string()), Some(String::new()), None);
    assert_eq!(c.username, "env_user");
    assert_eq!(c.api_key, "file_key");
    assert_eq!(c.discord_client_id, "42");
    assert_eq!(c.poll_interval_secs, 45);
    c.load_from_env(Some("env_user".to_string()), Some(String::new()), None);
    assert_eq!(c.username, "env_user");
    c.load_from_env(None, Some("k2".to_string()), Some("77".to_string()));
    assert_eq!(c.api_key, "k2");
    assert_eq!(c.discord_client_id, "77");
}

// ---- file config ----

#[test]
fn file_validate_lists_every_blank_credential() {
    let c = FileConfig::default();
    assert_eq!(
        c.validate(),
        Err(strings(&[
            "Username is required",
            "RetroAchievements API key is required",
            "Discord client ID is required"
        ]))
    );
}

#[test]
fn file_validate_treats_white_space_as_blank() {
    let c = file_config(" \t", "key", "\u{3000}\n");
    assert_eq!(
        c.validate(),
        Err(strings(&["Username is required", "Discord client ID is required"]))
    );
    let c = file_config("bob", "\u{a0}", "1");
    assert_eq!(c.validate(), Err(strings(&["RetroAchievements API key is required"])));
}

#[test]
fn file_validate_accepts_complete_config() {
    let c = file_config(" bob ", "abcdefghijkl", "123");
    assert_eq!(c.validate(), Ok(()));
}

#[test]
fn file_ra_url_uses_configured_base() {
    let mut c = file_config("bob", "xyz", "1");
    c.ra_base_url = "http://localhost/api".to_string();
    c.ra_recent_games = 0;
    c.ra_recent_achievements = 4294967295;
    assert_eq!(c.ra_url(), "http://localhost/api?u=bob&y=xyz&g=0&a=4294967295");
}

#[test]
fn loaded_config_parse_error_is_reported() {
    let r = accept_loaded_config(Err("expected `=`".to_string()));
    assert_eq!(r.err(), Some(ConfigError::Parse("expected `=`".to_string())));
}

#[test]
fn loaded_config_invalid_joins_messages_with_commas() {
    let r = accept_loaded_config(Ok(file_config("", "", "5")));
    assert_eq!(
        r.err(),
        Some(ConfigError::Invalid(
            "Username is required, RetroAchievements API key is required".to_string()
        ))
    );
}

#[test]
fn loaded_config_valid_is_returned() {
    let r = accept_loaded_config(Ok(file_config("bob", "key", "5")));
    let c = r.ok().unwrap();
    assert_eq!(c.username, "bob");
    assert_eq!(c.discord_client_id, "5");
}

#[test]
fn config_error_messages() {
    assert_eq!(ConfigError::NotFound.message(), "Config file not found. Run with --setup to create one.");
    assert_eq!(ConfigError::NoConfigPath.message(), "Could not determine config directory");
    assert_eq!(ConfigError::Io("disk".to_string()).message(), "IO error: disk");
    assert_eq!(ConfigError::Parse("bad".to_string()).message(), "Failed to parse config: bad");
    assert_eq!(ConfigError::Invalid("x".to_string()).message(), "Invalid config: x");
    assert_eq!(ConfigError::Serialize("y".to_string()).message(), "Failed to serialize config: y");
}

// ---- paths ----

#[test]
fn config_path_is_file_in_directory() {
    assert_eq!(CONFIG_FILENAME, "config.toml");
    let p = config_path_in(Some("/home/alice/.config/ra-discord-rp".to_string()));
    let sep = std::path::MAIN_SEPARATOR;
    assert_eq!(p, Some(format!("/home/alice/.config/ra-discord-rp{}config.toml", sep)));
    assert_eq!(config_path_in(None), None);
}

#[test]
fn config_path_after_trailing_separator() {
    let p = config_path_in(Some("/tmp/conf/".to_string()));
    assert_eq!(p, Some("/tmp/conf/config.toml".to_string()));
}

#[test]
fn config_path_ends_with_file_name_when_found() {
    if let Some(p) = get_config_path() {
        assert!(p.ends_with("config.toml"));
    }
}

#[test]
fn config_dir_display_shows_unknown_without_dir() {
    assert_eq!(config_dir_display(None), "Unknown");
    assert_eq!(config_dir_display(Some("/x/y".to_string())), "/x/y");
    assert!(!get_config_dir_display().is_empty());
}

// ---- setup checks ----

#[test]
fn username_answer_is_trimmed() {
    assert_eq!(check_username("  bob \n"), Ok("bob".to_string()));
    assert_eq!(
        check_username(" \t "),
        Err("Username cannot be empty. Please try again.\n".to_string())
    );
}

#[test]
fn api_key_answer_length_counts_bytes() {
    assert_eq!(check_api_key(""), Err("API key cannot be empty. Please try again.\n".to_string()));
    assert_eq!(
        check_api_key("  short  "),
        Err("API key seems too short. Please try again.\n".to_string())
    );
    assert_eq!(
        check_api_key("123456789"),
        Err("API key seems too short. Please try again.\n".to_string())
    );
    assert_eq!(check_api_key(" 1234567890 "), Ok("1234567890".to_string()));
    // five two-byte characters are ten bytes
    assert_eq!(check_api_key("ééééé"), Ok("ééééé".to_string()));
}

#[test]
fn client_id_answer_must_be_digits() {
    assert_eq!(
        check_discord_client_id("   "),
        Err("Client ID cannot be empty. Please try again.\n".to_string())
    );
    assert_eq!(
        check_discord_client_id("12a4"),
        Err("Client ID should only contain digits. Please try again.\n".to_string())
    );
    assert_eq!(
        check_discord_client_id("１２"),
        Err("Client ID should only contain digits. Please try again.\n".to_string())
    );
    assert_eq!(check_discord_client_id(" 1234567890 "), Ok("1234567890".to_string()));
}

#[test]
fn console_options_in_order() {
    let v = console_options();
    assert_eq!(v.len(), 19);
    assert_eq!(v[0], "None (use game box art)");
    assert_eq!(v[2], "PlayStation 2");
    assert_eq!(v[18], "Arcade");
}

#[test]
fn console_choice_gives_lowercase_key_without_spaces() {
    assert_eq!(console_choice(0), None);
    assert_eq!(console_choice(1), Some("gamecube".to_string()));
    assert_eq!(console_choice(2), Some("playstation2".to_string()));
    assert_eq!(console_choice(9), Some("gameboyadvance".to_string()));
    assert_eq!(console_choice(16), Some("wiiu".to_string()));
    assert_eq!(console_choice(18), Some("arcade".to_string()));
}

#[test]
fn setup_error_messages() {
    assert_eq!(SetupError::ValidationFailed.message(), "Failed to validate credentials");
    assert_eq!(SetupError::SaveFailed("disk full".to_string()).message(), "Failed to save config: disk full");
    assert_eq!(SetupError::Io("eof".to_string()).message(), "IO error: eof");
}

// ---- discord ----

#[test]
fn console_keys_for_known_consoles() {
    let pairs = [
        ("GameCube", "gamecube"),
        ("PlayStation 2", "ps2"),
        ("PlayStation", "ps1"),
        ("Xbox", "xbox"),
        ("Xbox 360", "xbox360"),
        ("NES", "nes"),
        ("SNES", "snes"),
        ("Nintendo 64", "n64"),
        ("Game Boy Advance", "gba"),
        ("Game Boy Color", "gbc"),
        ("Game Boy", "gb"),
        ("Sega Genesis", "genesis"),
        ("Sega Saturn", "saturn"),
        ("Dreamcast", "dreamcast"),
        ("Wii", "wii"),
        ("Wii U", "wiiu"),
        ("Nintendo Switch", "switch"),
        ("Arcade", "arcade"),
    ];
    for (name, key) in pairs {
        assert_eq!(console_to_image_key(name), Some(key));
    }
    assert_eq!(console_to_image_key("gamecube"), None);
    assert_eq!(console_to_image_key("Atari 2600"), None);
    assert_eq!(console_to_image_key(""), None);
}

#[test]
fn presence_cleared_without_recent_game() {
    let s = summary("bob", Some("Playing"), vec![]);
    let c = file_config("bob", "k", "1");
    assert!(matches!(plan_presence(&s, &c), PresenceUpdate::Clear));
}

#[test]
fn presence_shows_game_with_site_image() {
    let s = summary(
        "bob",
        Some("Level 3, 2 lives"),
        vec![
            game("Sonic", "Sega Genesis", Some("/Images/012345.png"), None, None),
            game("Other", "NES", None, None, None),
        ],
    );
    let c = file_config("bob", "k", "1");
    match plan_presence(&s, &c) {
        PresenceUpdate::Show(p) => {
            assert_eq!(p.details, "Sonic");
            assert_eq!(p.state, Some("Level 3, 2 lives".to_string()));
            assert_eq!(p.large_image, Some("https://retroachievements.org/Images/012345.png".to_string()));
            assert_eq!(p.large_text, Some("Sega Genesis".to_string()));
            assert_eq!(p.buttons.len(), 2);
            assert_eq!(p.buttons[0].label, "View Profile");
            assert_eq!(p.buttons[0].url, "https://retroachievements.org/user/bob");
            assert_eq!(p.buttons[1].label, "Achievements");
            assert_eq!(p.buttons[1].url, "https://retroachievements.org/");
        }
        PresenceUpdate::Clear => panic!("expected a presence"),
    }
}

#[test]
fn presence_falls_back_to_configured_key_then_console_key() {
    let mut c = file_config("bob", "k", "1");
    c.presence_buttons = false;
    c.presence_large_image_key = Some("custom".to_string());
    let s = summary("bob", Some(""), vec![game("Zelda", "NES", None, None, None)]);
    match plan_presence(&s, &c) {
        PresenceUpdate::Show(p) => {
            assert_eq!(p.state, None);
            assert_eq!(p.large_image, Some("custom".to_string()));
            assert_eq!(p.large_text, None);
            assert!(p.buttons.is_empty());
        }
        PresenceUpdate::Clear => panic!("expected a presence"),
    }
    c.presence_large_image_key = None;
    match plan_presence(&s, &c) {
        PresenceUpdate::Show(p) => assert_eq!(p.large_image, Some("nes".to_string())),
        PresenceUpdate::Clear => panic!("expected a presence"),
    }
    let s = summary("bob", None, vec![game("X", "Unknown Console", None, None, None)]);
    match plan_presence(&s, &c) {
        PresenceUpdate::Show(p) => {
            assert_eq!(p.large_image, None);
            assert_eq!(p.state, None);
        }
        PresenceUpdate::Clear => panic!("expected a presence"),
    }
}

#[test]
fn presence_without_console_name_has_no_hover_text() {
    let c = file_config("bob", "k", "1");
    let s = summary("bob", None, vec![game("X", "", Some("http://cdn/x.png"), None, None)]);
    match plan_presence(&s, &c) {
        PresenceUpdate::Show(p) => {
            assert_eq!(p.large_image, Some("http://cdn/x.png".to_string()));
            assert_eq!(p.large_text, None);
        }
        PresenceUpdate::Clear => panic!("expected a presence"),
    }
}

// ---- ra_api ----

#[test]
fn image_url_prefers_box_art_then_title_then_ingame() {
    let g = game("T", "NES", Some("box.png"), Some("/title.png"), Some("http://x/ingame.png"));
    assert_eq!(g.get_game_image_url(), Some("https://retroachievements.org/Images/box.png".to_string()));
    let g = game("T", "NES", None, Some("/Images/title.png"), Some("http://x/ingame.png"));
    assert_eq!(g.get_game_image_url(), Some("https://retroachievements.org/Images/title.png".to_string()));
    let g = game("T", "NES", None, None, Some("https://x/ingame.png"));
    assert_eq!(g.get_game_image_url(), Some("https://x/ingame.png".to_string()));
    let g = game("T", "NES", None, None, None);
    assert_eq!(g.get_game_image_url(), None);
}

#[test]
fn image_url_of_empty_path_is_images_directory() {
    let g = game("T", "NES", Some(""), None, None);
    assert_eq!(g.get_game_image_url(), Some("https://retroachievements.org/Images/".to_string()));
}

#[test]
fn playing_needs_non_empty_message() {
    assert!(summary("u", Some("In menu"), vec![]).is_playing());
    assert!(!summary("u", Some(""), vec![]).is_playing());
    assert!(!summary("u", None, vec![]).is_playing());
}

#[test]
fn current_game_is_first_recent() {
    let s = summary("u", None, vec![game("A", "NES", None, None, None), game("B", "NES", None, None, None)]);
    assert_eq!(s.get_current_game().map(|g| g.title.clone()), Some("A".to_string()));
    assert!(summary("u", None, vec![]).get_current_game().is_none());
}

// ---- state ----

#[test]
fn new_state_never_clears() {
    let s = AppState::new(300);
    assert_eq!(s.idle_timeout, 300 * SEC);
    assert_eq!(s.last_play_time, None);
    assert!(!s.was_playing);
    assert!(!s.should_clear(0));
    assert!(!s.should_clear(u128::MAX));
}

#[test]
fn clears_exactly_when_timeout_passed() {
    let mut s = AppState::new(300);
    s.update_playing(true, 10 * SEC);
    assert!(s.was_playing);
    assert!(!s.should_clear(10 * SEC));
    s.update_playing(false, 20 * SEC);
    assert!(!s.was_playing);
    assert_eq!(s.last_play_time, Some(10 * SEC));
    assert!(!s.should_clear(310 * SEC - 1));
    assert!(s.should_clear(310 * SEC));
    s.reset();
    assert!(!s.should_clear(1000 * SEC));
    assert_eq!(s.idle_timeout, 300 * SEC);
}

#[test]
fn earlier_clock_counts_as_no_time() {
    let mut s = AppState::new(0);
    s.update_playing(true, 50);
    assert!(s.should_clear(10));
    let mut s = AppState::new(1);
    s.update_playing(true, 50);
    assert!(!s.should_clear(10));
}

#[test]
fn largest_timeout_fits() {
    let s = AppState::new(u64::MAX);
    assert_eq!(s.idle_timeout, (u64::MAX as u128) * SEC);
}

// ---- control ----

#[test]
fn command_priority() {
    assert_eq!(parse_command(&strings(&["prog"])), Command::Run);
    assert_eq!(parse_command(&strings(&["prog", "--setup", "--help"])), Command::Help);
    assert_eq!(parse_command(&strings(&["prog", "-v", "--config-path"])), Command::Version);
    assert_eq!(parse_command(&strings(&["prog", "--setup", "--config-path"])), Command::ConfigPath);
    assert_eq!(parse_command(&strings(&["prog", "--setup"])), Command::Setup);
    assert_eq!(parse_command(&strings(&["prog", "-h"])), Command::Help);
    assert_eq!(parse_command(&strings(&["prog", "--version"])), Command::Version);
    assert_eq!(parse_command(&strings(&["prog", "--setupx", "help"])), Command::Run);
    assert_eq!(parse_command(&Vec::new()), Command::Run);
}

#[test]
fn log_levels() {
    assert_eq!(log_level_for("debug"), LogLevel::Debug);
    assert_eq!(log_level_for("trace"), LogLevel::Trace);
    assert_eq!(log_level_for("warn"), LogLevel::Warn);
    assert_eq!(log_level_for("error"), LogLevel::Error);
    assert_eq!(log_level_for("info"), LogLevel::Info);
    assert_eq!(log_level_for("DEBUG"), LogLevel::Info);
    assert_eq!(log_level_for(""), LogLevel::Info);
}

#[test]
fn startup_check_joins_lines() {
    assert_eq!(startup_check(&file_config("a", "b", "c")), Ok(()));
    assert_eq!(
        startup_check(&file_config("", "b", " ")),
        Err("Username is required\nDiscord client ID is required".to_string())
    );
}

#[test]
fn poll_sequence_shows_then_clears_once() {
    let mut st = AppState::new(60);
    let playing = summary("u", Some("Stage 1"), vec![game("A", "NES", None, None, None)]);
    let idle = summary("u", None, vec![game("A", "NES", None, None, None)]);
    assert_eq!(on_poll(&mut st, Some(&idle), 0), PollAction::Wait);
    assert_eq!(on_poll(&mut st, Some(&playing), SEC), PollAction::ShowPresence);
    assert_eq!(on_poll(&mut st, Some(&idle), 30 * SEC), PollAction::Wait);
    assert_eq!(on_poll(&mut st, None, 100 * SEC), PollAction::ReportFetchError);
    assert_eq!(st.last_play_time, Some(SEC));
    assert_eq!(on_poll(&mut st, Some(&idle), 61 * SEC), PollAction::ClearPresence);
    assert_eq!(st.last_play_time, None);
    assert_eq!(on_poll(&mut st, Some(&idle), 500 * SEC), PollAction::Wait);
}

#[test]
fn playing_title_or_unknown() {
    assert_eq!(playing_title(&summary("u", None, vec![game("Metroid", "NES", None, None, None)])), "Metroid");
    assert_eq!(playing_title(&summary("u", None, vec![])), "Unknown");
}

// ---- text ----

#[test]
fn join_with_separator() {
    assert_eq!(join_strings(&strings(&[]), ", "), "");
    assert_eq!(join_strings(&strings(&["a"]), ", "), "a");
    assert_eq!(join_strings(&strings(&["a", "b", "c"]), ", "), "a, b, c");
}

#[test]
fn decimal_digits() {
    let mut s = "n=".to_string();
    push_decimal(&mut s, 0);
    assert_eq!(s, "n=0");
    let mut s = String::new();
    push_decimal(&mut s, u64::MAX);
    assert_eq!(s, "18446744073709551615");
}

#[test]
fn trim_uses_unicode_white_space() {
    assert_eq!(check_username("\u{3000}\t x y \u{a0}\u{2028}"), Ok("x y".to_string()));
    assert_eq!(check_username("\u{200b}x"), Ok("\u{200b}x".to_string()));
}

#[test]
fn remove_spaces_keeps_other_characters() {
    assert_eq!(remove_spaces(" a b  c "), "abc");
    assert_eq!(remove_spaces("\ta\u{a0}"), "\ta\u{a0}");
    assert_eq!(remove_spaces(""), "");
}

#[test]
fn found_config_dir_is_not_empty() {
    if let Some(d) = get_config_dir() {
        assert!(d.ends_with("ra-discord-rp"));
        assert_eq!(get_config_dir_display(), d);
    } else {
        assert_eq!(get_config_dir_display(), "Unknown");
    }
}

#[test]
fn app_dir_is_named_after_application() {
    let sep = std::path::MAIN_SEPARATOR;
    assert_eq!(app_dir_in(Some("/home/alice/.config".to_string())), Some(format!("/home/alice/.config{}ra-discord-rp", sep)));
    assert_eq!(app_dir_in(None), None);
}

#[test]
fn setup_config_takes_answers_and_defaults() {
    let c = setup_config("bob".to_string(), "1234567890".to_string(), "42".to_string(), Some("nes".to_string()), false);
    assert_eq!(c.username, "bob");
    assert_eq!(c.api_key, "1234567890");
    assert_eq!(c.discord_client_id, "42");
    assert_eq!(c.presence_large_image_key, Some("nes".to_string()));
    assert!(!c.presence_buttons);
    assert_eq!(c.poll_interval_secs, 45);
    assert_eq!(c.idle_timeout_secs, 300);
    assert_eq!(c.log_level, "info");
    assert_eq!(c.ra_base_url, "https://retroachievements.org/API/API_GetUserSummary.php");
    assert_eq!(c.ra_recent_games, 5);
    assert_eq!(c.ra_recent_achievements, 5);
    assert_eq!(c.validate(), Ok(()));
}

#[test]
fn setup_saves_only_when_confirmed_or_asked() {
    assert_eq!(setup_may_save(true, false), Ok(()));
    assert_eq!(setup_may_save(false, true), Ok(()));
    assert_eq!(setup_may_save(true, true), Ok(()));
    assert_eq!(setup_may_save(false, false), Err(SetupError::ValidationFailed));
}

#[test]
fn console_keys_are_exact_names_only() {
    assert_eq!(console_to_image_key(" NES"), None);
    assert_eq!(console_to_image_key("NES "), None);
    assert_eq!(console_to_image_key("nes"), None);
}

#[test]
fn long_poll_run_clears_once_per_idle_period() {
    let mut st = AppState::new(10);
    let playing = summary("u", Some("Level"), vec![game("A", "NES", None, None, None)]);
    let idle = summary("u", Some(""), vec![game("A", "NES", None, None, None)]);
    let mut actions = Vec::new();
    let polls: Vec<(bool, u128)> = vec![(true, 0), (false, 5), (false, 10), (false, 15), (false, 30), (true, 40), (false, 49), (false, 50), (false, 80)];
    for (p, t) in polls {
        let s = if p { &playing } else { &idle };
        actions.push(on_poll(&mut st, Some(s), t * SEC));
    }
    let (show, wait, clear) = (PollAction::ShowPresence, PollAction::Wait, PollAction::ClearPresence);
    assert_eq!(actions, vec![show, wait, clear, wait, wait, show, wait, clear, wait]);
}

#[test]
fn config_path_in_empty_directory_is_file_name() {
    assert_eq!(config_path_in(Some(String::new())), Some("config.toml".to_string()));
}

#[test]
fn documented_layout_under_linux_style_base() {
    let sep = std::path::MAIN_SEPARATOR;
    let dir = app_dir_in(Some("/home/alice/.config".to_string()));
    let path = config_path_in(dir);
    assert_eq!(path, Some(format!("/home/alice/.config{0}ra-discord-rp{0}config.toml", sep)));
}
