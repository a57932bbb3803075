//! The user summary that the RetroAchievements API returns, and what the application
//! reads from it.

use vstd::prelude::*;
use vstd::string::*;
use crate::text::is_prefix;
use crate::text::starts_with_text;

verus! {

/// The summary of a user's activity as the `API_GetUserSummary` endpoint reports it.
#[derive(Debug, Clone)]
pub struct UserSummary {
    pub user: String,
    pub ulid: Option<String>,
    pub last_activity: Option<LastActivity>,
    pub rich_presence_msg: Option<String>,
    pub last_game_id: Option<u64>,
    pub last_game: Option<LastGame>,
    pub recently_played: Vec<RecentlyPlayedGame>,
}

/// The last recorded activity of a user.
#[derive(Debug, Clone)]
pub struct LastActivity {
    pub id: u64,
    pub timestamp: Option<String>,
    pub activity_type: Option<String>,
    pub data: Option<String>,
    pub data2: Option<String>,
}

/// The game a user played last.
#[derive(Debug, Clone)]
pub struct LastGame {
    pub id: u64,
    pub title: String,
    pub console_id: u64,
    pub console_name: String,
    pub image_icon: Option<String>,
    pub image_title: Option<String>,
    pub image_ingame: Option<String>,
    pub image_box_art: Option<String>,
}

/// One of the games a user played recently, most recent first.
#[derive(Debug, Clone)]
pub struct RecentlyPlayedGame {
    pub game_id: u64,
    pub console_id: u64,
    pub console_name: String,
    pub title: String,
    pub image_icon: Option<String>,
    pub image_title: Option<String>,
    pub image_ingame: Option<String>,
    pub image_box_art: Option<String>,
    pub last_played: Option<String>,
    pub achievements_total: Option<u32>,
}

/// The site that image paths of the API are relative to.
pub open spec fn site_root() -> Seq<char> {
    "https://retroachievements.org"@
}

/// The absolute URL of an image path of the API: a path that begins with `http` is
/// already one; a path that begins with `/` is on the site; any other is under
/// `/Images/` on the site.
pub open spec fn image_url_for(path: Seq<char>) -> Seq<char> {
    if is_prefix("http"@, path) {
        path
    } else if is_prefix("/"@, path) {
        site_root() + path
    } else {
        "https://retroachievements.org/Images/"@ + path
    }
}

/// The text of an optional string.
pub open spec fn opt_text(s: Option<String>) -> Option<Seq<char>> {
    match s {
        Some(v) => Some(v@),
        None => None,
    }
}

impl RecentlyPlayedGame {
    /// The image path to show: the box art, else the title screen, else the in-game
    /// screen.
    pub open spec fn image_path(self) -> Option<Seq<char>> {
        if self.image_box_art is Some {
            opt_text(self.image_box_art)
        } else if self.image_title is Some {
            opt_text(self.image_title)
        } else {
            opt_text(self.image_ingame)
        }
    }

    /// The absolute URL of the image to show, if the game has any image.
    pub open spec fn image_url(self) -> Option<Seq<char>> {
        match self.image_path() {
            Some(p) => Some(image_url_for(p)),
            None => None,
        }
    }

    /// The absolute URL of the game's image: the box art, else the title screen, else
    /// the in-game screen, made absolute on the RetroAchievements site.
    pub fn get_game_image_url(&self) -> (r: Option<String>)
        ensures
            opt_text(r) == self.image_url(),
    {
        let image_path: &String = match &self.image_box_art {
            Some(p) => p,
            None => match &self.image_title {
                Some(p) => p,
                None => match &self.image_ingame {
                    Some(p) => p,
                    None => {
                        return None;
                    },
                },
            },
        };
        if starts_with_text(image_path.as_str(), "http") {
            return Some(image_path.clone());
        }
        if starts_with_text(image_path.as_str(), "/") {
            let mut url = String::from_str("https://retroachievements.org");
            url.append(image_path.as_str());
            return Some(url);
        }
        let mut url = String::from_str("https://retroachievements.org/Images/");
        url.append(image_path.as_str());
        Some(url)
    }
}

impl UserSummary {
    /// The user is playing: the API reports a rich presence message that is not empty.
    pub open spec fn spec_is_playing(self) -> bool {
        self.rich_presence_msg matches Some(m) && m@.len() > 0
    }

    /// Whether the user is playing right now (a non-empty rich presence message).
    pub fn is_playing(&self) -> (r: bool)
        ensures
            r == self.spec_is_playing(),
    {
        match &self.rich_presence_msg {
            Some(m) => !m.as_str().is_empty(),
            None => false,
        }
    }

    /// The game played most recently, if any.
    pub fn get_current_game(&self) -> (r: Option<&RecentlyPlayedGame>)
        ensures
            r == (if self.recently_played@.len() > 0 {
                Some(&self.recently_played@[0])
            } else {
                None
            }),
    {
        if self.recently_played.len() > 0 {
            Some(&self.recently_played[0])
        } else {
            None
        }
    }
}

/// Every image URL the library makes begins with `http`: it is absolute.
pub proof fn image_urls_are_absolute(game: RecentlyPlayedGame)
    ensures
        game.image_url() matches Some(u) ==> is_prefix("http"@, u),
{
    reveal_strlit("http");
    reveal_strlit("https://retroachievements.org");
    reveal_strlit("https://retroachievements.org/Images/");
    if let Some(p) = game.image_path() {
        let u = image_url_for(p);
        if !is_prefix("http"@, p) {
            assert(u.subrange(0, 4) =~= "http"@);
        }
    }
}

/// An image URL keeps the API's image path whole at its end: a path that already begins
/// with `http` is used as it is, and any other is only given the site (and, for a path
/// not beginning with `/`, the `/Images/` directory) in front.
pub proof fn image_url_ends_with_path(p: Seq<char>)
    ensures
        image_url_for(p).len() >= p.len(),
        image_url_for(p).subrange(image_url_for(p).len() - p.len(), image_url_for(p).len() as int)
            == p,
        is_prefix("http"@, p) ==> image_url_for(p) == p,
        !is_prefix("http"@, p) && is_prefix("/"@, p) ==> image_url_for(p) == site_root() + p,
        !is_prefix("http"@, p) && !is_prefix("/"@, p) ==> image_url_for(p) == site_root()
            + "/Images/"@ + p,
{
    reveal_strlit("https://retroachievements.org");
    reveal_strlit("/Images/");
    reveal_strlit("https://retroachievements.org/Images/");
    let u = image_url_for(p);
    assert(u.subrange(u.len() - p.len(), u.len() as int) =~= p);
    assert("https://retroachievements.org/Images/"@ =~= site_root() + "/Images/"@);
}

} // verus!
