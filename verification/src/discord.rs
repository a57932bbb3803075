//! What the Discord rich presence shows for a user summary.

use vstd::prelude::*;
use vstd::string::*;
use crate::config::config::Config;
use crate::ra_api::RecentlyPlayedGame;
use crate::ra_api::UserSummary;
use crate::ra_api::opt_text;
use crate::text::same_text;

verus! {

/// The Discord asset key of the image for a console, for the consoles that have one.
pub open spec fn image_key_for(name: Seq<char>) -> Option<Seq<char>> {
    if name == "GameCube"@ {
        Some("gamecube"@)
    } else if name == "PlayStation 2"@ {
        Some("ps2"@)
    } else if name == "PlayStation"@ {
        Some("ps1"@)
    } else if name == "Xbox"@ {
        Some("xbox"@)
    } else if name == "Xbox 360"@ {
        Some("xbox360"@)
    } else if name == "NES"@ {
        Some("nes"@)
    } else if name == "SNES"@ {
        Some("snes"@)
    } else if name == "Nintendo 64"@ {
        Some("n64"@)
    } else if name == "Game Boy Advance"@ {
        Some("gba"@)
    } else if name == "Game Boy Color"@ {
        Some("gbc"@)
    } else if name == "Game Boy"@ {
        Some("gb"@)
    } else if name == "Sega Genesis"@ {
        Some("genesis"@)
    } else if name == "Sega Saturn"@ {
        Some("saturn"@)
    } else if name == "Dreamcast"@ {
        Some("dreamcast"@)
    } else if name == "Wii"@ {
        Some("wii"@)
    } else if name == "Wii U"@ {
        Some("wiiu"@)
    } else if name == "Nintendo Switch"@ {
        Some("switch"@)
    } else if name == "Arcade"@ {
        Some("arcade"@)
    } else {
        None
    }
}

/// The Discord asset key of the image for the console named `console_name`, if it is one
/// of the consoles with an image.
pub fn console_to_image_key(console_name: &str) -> (r: Option<&'static str>)
    ensures
        match r {
            Some(k) => image_key_for(console_name@) == Some(k@),
            None => image_key_for(console_name@) is None,
        },
{
    if same_text(console_name, "GameCube") {
        Some("gamecube")
    } else if same_text(console_name, "PlayStation 2") {
        Some("ps2")
    } else if same_text(console_name, "PlayStation") {
        Some("ps1")
    } else if same_text(console_name, "Xbox") {
        Some("xbox")
    } else if same_text(console_name, "Xbox 360") {
        Some("xbox360")
    } else if same_text(console_name, "NES") {
        Some("nes")
    } else if same_text(console_name, "SNES") {
        Some("snes")
    } else if same_text(console_name, "Nintendo 64") {
        Some("n64")
    } else if same_text(console_name, "Game Boy Advance") {
        Some("gba")
    } else if same_text(console_name, "Game Boy Color") {
        Some("gbc")
    } else if same_text(console_name, "Game Boy") {
        Some("gb")
    } else if same_text(console_name, "Sega Genesis") {
        Some("genesis")
    } else if same_text(console_name, "Sega Saturn") {
        Some("saturn")
    } else if same_text(console_name, "Dreamcast") {
        Some("dreamcast")
    } else if same_text(console_name, "Wii") {
        Some("wii")
    } else if same_text(console_name, "Wii U") {
        Some("wiiu")
    } else if same_text(console_name, "Nintendo Switch") {
        Some("switch")
    } else if same_text(console_name, "Arcade") {
        Some("arcade")
    } else {
        None
    }
}

/// An image key is plain: not empty, and made of lowercase ASCII letters and digits.
pub open spec fn is_plain_key(k: Seq<char>) -> bool {
    &&& k.len() > 0
    &&& forall|i: int| 0 <= i < k.len() ==> ('a' <= #[trigger] k[i] <= 'z' || '0' <= k[i] <= '9')
}

/// Every console image key is plain.
pub proof fn image_keys_are_plain(name: Seq<char>)
    ensures
        image_key_for(name) matches Some(k) ==> is_plain_key(k),
{
    reveal_strlit("gamecube");
    reveal_strlit("ps2");
    reveal_strlit("ps1");
    reveal_strlit("xbox");
    reveal_strlit("xbox360");
    reveal_strlit("nes");
    reveal_strlit("snes");
    reveal_strlit("n64");
    reveal_strlit("gba");
    reveal_strlit("gbc");
    reveal_strlit("gb");
    reveal_strlit("genesis");
    reveal_strlit("saturn");
    reveal_strlit("dreamcast");
    reveal_strlit("wii");
    reveal_strlit("wiiu");
    reveal_strlit("switch");
    reveal_strlit("arcade");
}

/// The console whose image key has length `len` and ends with `last`; no two image keys
/// share both, so this names the console of every key (the empty text for none).
spec fn console_by_key_shape(len: nat, last: char) -> Seq<char> {
    if len == 8 && last == 'e' {
        "GameCube"@
    } else if len == 3 && last == '2' {
        "PlayStation 2"@
    } else if len == 3 && last == '1' {
        "PlayStation"@
    } else if len == 4 && last == 'x' {
        "Xbox"@
    } else if len == 7 && last == '0' {
        "Xbox 360"@
    } else if len == 3 && last == 's' {
        "NES"@
    } else if len == 4 && last == 's' {
        "SNES"@
    } else if len == 3 && last == '4' {
        "Nintendo 64"@
    } else if len == 3 && last == 'a' {
        "Game Boy Advance"@
    } else if len == 3 && last == 'c' {
        "Game Boy Color"@
    } else if len == 2 && last == 'b' {
        "Game Boy"@
    } else if len == 7 && last == 's' {
        "Sega Genesis"@
    } else if len == 6 && last == 'n' {
        "Sega Saturn"@
    } else if len == 9 && last == 't' {
        "Dreamcast"@
    } else if len == 3 && last == 'i' {
        "Wii"@
    } else if len == 4 && last == 'u' {
        "Wii U"@
    } else if len == 6 && last == 'h' {
        "Nintendo Switch"@
    } else if len == 6 && last == 'e' {
        "Arcade"@
    } else {
        Seq::empty()
    }
}

proof fn lemma_key_shape_names_console(x: Seq<char>)
    ensures
        image_key_for(x) matches Some(k) ==> k.len() > 0 && console_by_key_shape(k.len(), k.last()) == x,
{
    reveal_strlit("GameCube");
    reveal_strlit("gamecube");
    reveal_strlit("PlayStation 2");
    reveal_strlit("ps2");
    reveal_strlit("PlayStation");
    reveal_strlit("ps1");
    reveal_strlit("Xbox");
    reveal_strlit("xbox");
    reveal_strlit("Xbox 360");
    reveal_strlit("xbox360");
    reveal_strlit("NES");
    reveal_strlit("nes");
    reveal_strlit("SNES");
    reveal_strlit("snes");
    reveal_strlit("Nintendo 64");
    reveal_strlit("n64");
    reveal_strlit("Game Boy Advance");
    reveal_strlit("gba");
    reveal_strlit("Game Boy Color");
    reveal_strlit("gbc");
    reveal_strlit("Game Boy");
    reveal_strlit("gb");
    reveal_strlit("Sega Genesis");
    reveal_strlit("genesis");
    reveal_strlit("Sega Saturn");
    reveal_strlit("saturn");
    reveal_strlit("Dreamcast");
    reveal_strlit("dreamcast");
    reveal_strlit("Wii");
    reveal_strlit("wii");
    reveal_strlit("Wii U");
    reveal_strlit("wiiu");
    reveal_strlit("Nintendo Switch");
    reveal_strlit("switch");
    reveal_strlit("Arcade");
    reveal_strlit("arcade");
    if x == "GameCube"@ {
        assert(image_key_for(x) == Some("gamecube"@));
    } else if x == "PlayStation 2"@ {
        assert(image_key_for(x) == Some("ps2"@));
    } else if x == "PlayStation"@ {
        assert(image_key_for(x) == Some("ps1"@));
    } else if x == "Xbox"@ {
        assert(image_key_for(x) == Some("xbox"@));
    } else if x == "Xbox 360"@ {
        assert(image_key_for(x) == Some("xbox360"@));
    } else if x == "NES"@ {
        assert(image_key_for(x) == Some("nes"@));
    } else if x == "SNES"@ {
        assert(image_key_for(x) == Some("snes"@));
    } else if x == "Nintendo 64"@ {
        assert(image_key_for(x) == Some("n64"@));
    } else if x == "Game Boy Advance"@ {
        assert(image_key_for(x) == Some("gba"@));
    } else if x == "Game Boy Color"@ {
        assert(image_key_for(x) == Some("gbc"@));
    } else if x == "Game Boy"@ {
        assert(image_key_for(x) == Some("gb"@));
    } else if x == "Sega Genesis"@ {
        assert(image_key_for(x) == Some("genesis"@));
    } else if x == "Sega Saturn"@ {
        assert(image_key_for(x) == Some("saturn"@));
    } else if x == "Dreamcast"@ {
        assert(image_key_for(x) == Some("dreamcast"@));
    } else if x == "Wii"@ {
        assert(image_key_for(x) == Some("wii"@));
    } else if x == "Wii U"@ {
        assert(image_key_for(x) == Some("wiiu"@));
    } else if x == "Nintendo Switch"@ {
        assert(image_key_for(x) == Some("switch"@));
    } else if x == "Arcade"@ {
        assert(image_key_for(x) == Some("arcade"@));
    }
}

/// Different consoles have different image keys.
pub proof fn image_keys_are_distinct(a: Seq<char>, b: Seq<char>)
    requires
        image_key_for(a) is Some,
        image_key_for(a) == image_key_for(b),
    ensures
        a == b,
{
    lemma_key_shape_names_console(a);
    lemma_key_shape_names_console(b);
}

/// A button of the presence: its label and the URL it opens.
#[derive(Debug, Clone)]
pub struct PresenceButton {
    pub label: String,
    pub url: String,
}

/// The activity to show: the game's title, the rich presence message, the large image
/// and its hover text, and the buttons.
#[derive(Debug, Clone)]
pub struct ActivityPlan {
    pub details: String,
    pub state: Option<String>,
    pub large_image: Option<String>,
    pub large_text: Option<String>,
    pub buttons: Vec<PresenceButton>,
}

/// What to do with the Discord presence after a poll.
#[derive(Debug, Clone)]
pub enum PresenceUpdate {
    Clear,
    Show(ActivityPlan),
}

/// The rich presence message shown as the activity's state: the message, when there is
/// one and it is not empty.
pub open spec fn presence_state(summary: UserSummary) -> Option<Seq<char>> {
    match summary.rich_presence_msg {
        Some(m) => if m@.len() > 0 { Some(m@) } else { None },
        None => None,
    }
}

/// The large image: the game's image URL; else the configured image key; else the
/// console's asset key.
pub open spec fn presence_image(game: RecentlyPlayedGame, config: Config) -> Option<Seq<char>> {
    if game.image_url() is Some {
        game.image_url()
    } else if config.presence_large_image_key is Some {
        opt_text(config.presence_large_image_key)
    } else {
        image_key_for(game.console_name@)
    }
}

/// The hover text of the large image: the console name, shown only with the game's own
/// image and only when it is not empty.
pub open spec fn presence_image_text(game: RecentlyPlayedGame) -> Option<Seq<char>> {
    if game.image_url() is Some && game.console_name@.len() > 0 {
        Some(game.console_name@)
    } else {
        None
    }
}

/// The URL of a user's profile page.
pub open spec fn profile_url(user: Seq<char>) -> Seq<char> {
    "https://retroachievements.org/user/"@ + user
}

/// The buttons, as (label, URL) pairs: the profile and the site, when buttons are on.
pub open spec fn presence_buttons(summary: UserSummary, config: Config) -> Seq<(Seq<char>, Seq<char>)> {
    if config.presence_buttons {
        seq![
            ("View Profile"@, profile_url(summary.user@)),
            ("Achievements"@, "https://retroachievements.org/"@),
        ]
    } else {
        Seq::empty()
    }
}

/// The buttons of a plan as (label, URL) pairs.
pub open spec fn button_texts(buttons: Seq<PresenceButton>) -> Seq<(Seq<char>, Seq<char>)> {
    buttons.map_values(|b: PresenceButton| (b.label@, b.url@))
}

/// `plan` shows the most recent game `game` of `summary` as configured by `config`.
pub open spec fn plan_shows(plan: ActivityPlan, game: RecentlyPlayedGame, summary: UserSummary, config: Config) -> bool {
    &&& plan.details@ == game.title@
    &&& opt_text(plan.state) == presence_state(summary)
    &&& opt_text(plan.large_image) == presence_image(game, config)
    &&& opt_text(plan.large_text) == presence_image_text(game)
    &&& button_texts(plan.buttons@) == presence_buttons(summary, config)
}

fn make_button(label: &str, url: String) -> (b: PresenceButton)
    ensures
        b.label@ == label@,
        b.url@ == url@,
{
    PresenceButton { label: String::from_str(label), url }
}

/// What the presence is to show for `summary`: nothing (cleared) when the user has no
/// recently played game; otherwise the most recent game, as `plan_shows` describes it.
pub fn plan_presence(summary: &UserSummary, config: &Config) -> (r: PresenceUpdate)
    ensures
        r is Clear <==> summary.recently_played@.len() == 0,
        r matches PresenceUpdate::Show(p) ==> plan_shows(p, summary.recently_played@[0], *summary, *config),
{
    let game = match summary.get_current_game() {
        Some(g) => g,
        None => {
            return PresenceUpdate::Clear;
        },
    };
    let details = game.title.clone();
    let state: Option<String> = match &summary.rich_presence_msg {
        Some(m) => if !m.as_str().is_empty() { Some(m.clone()) } else { None },
        None => None,
    };
    let mut large_image: Option<String> = None;
    let mut large_text: Option<String> = None;
    match game.get_game_image_url() {
        Some(url) => {
            large_image = Some(url);
            if !game.console_name.as_str().is_empty() {
                large_text = Some(game.console_name.clone());
            }
        },
        None => {
            match &config.presence_large_image_key {
                Some(k) => {
                    large_image = Some(k.clone());
                },
                None => {
                    match console_to_image_key(game.console_name.as_str()) {
                        Some(k) => {
                            large_image = Some(String::from_str(k));
                        },
                        None => {},
                    }
                },
            }
        },
    }
    let mut buttons: Vec<PresenceButton> = Vec::new();
    if config.presence_buttons {
        let mut profile = String::from_str("https://retroachievements.org/user/");
        profile.append(summary.user.as_str());
        buttons.push(make_button("View Profile", profile));
        buttons.push(make_button("Achievements", String::from_str("https://retroachievements.org/")));
    }
    assert(button_texts(buttons@) =~= presence_buttons(*summary, *config));
    PresenceUpdate::Show(ActivityPlan { details, state, large_image, large_text, buttons })
}

/// The game's own image comes first: whenever the most recent game has an image (box
/// art, else title screen, else in-game screen), the large image is that image's
/// absolute URL, whatever image key is configured; the configured key is used only for a
/// game without images, and the console's asset key only when neither is there. The
/// hover text appears only with the game's own image.
pub proof fn game_image_comes_first(game: RecentlyPlayedGame, config: Config)
    ensures
        game.image_box_art matches Some(b) ==> presence_image(game, config) == Some(
            crate::ra_api::image_url_for(b@),
        ),
        game.image_box_art is None && game.image_title is Some ==> presence_image(game, config)
            == Some(crate::ra_api::image_url_for(game.image_title->0@)),
        game.image_box_art is None && game.image_title is None && game.image_ingame is Some
            ==> presence_image(game, config) == Some(
            crate::ra_api::image_url_for(game.image_ingame->0@),
        ),
        game.image_box_art is None && game.image_title is None && game.image_ingame is None
            && config.presence_large_image_key is Some ==> presence_image(game, config) == Some(
            config.presence_large_image_key->0@,
        ),
        game.image_box_art is None && game.image_title is None && game.image_ingame is None
            && config.presence_large_image_key is None ==> presence_image(game, config)
            == image_key_for(game.console_name@),
        presence_image_text(game) is Some ==> (game.image_box_art is Some
            || game.image_title is Some || game.image_ingame is Some),
        presence_image_text(game) matches Some(t) ==> t == game.console_name@ && t.len() > 0,
{
}

} // verus!
