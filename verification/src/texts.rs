//! The texts that the window shows, in the user's language.

use vstd::prelude::*;

verus! {

/// The translated texts of the window, its rows and its toasts.
pub struct Texts {
    /// The title of the discover page and of the application.
    pub app_name: String,
    /// The title of the toplist page.
    pub toplist: String,
    /// The title of the play list and lyrics page.
    pub play_list_lyrics: String,
    /// The toast when a play list holds no song that can be played.
    pub no_playable_songs: String,
    /// The toast when a request to the music service fails.
    pub request_failed: String,
    /// The toast when a song has no album.
    pub album_not_found: String,
    /// The artist shown for a song without singer.
    pub unknown_artist: String,
}

impl Texts {
    /// The texts as the catalogs know them before translation: each is the
    /// message id under which its translation is looked up.
    pub fn untranslated() -> (r: Texts)
        ensures
            r.app_name@ == "Netease Cloud Music"@,
            r.toplist@ == "Toplist"@,
            r.play_list_lyrics@ == "Play List&Lyrics"@,
            r.no_playable_songs@ == "No playable songs found！"@,
            r.request_failed@ == "Request for interface failed, please try again!"@,
            r.album_not_found@ == "Album not found!"@,
            r.unknown_artist@ == "Unknown artist"@,
    {
        Texts {
            app_name: String::from_str("Netease Cloud Music"),
            toplist: String::from_str("Toplist"),
            play_list_lyrics: String::from_str("Play List&Lyrics"),
            no_playable_songs: String::from_str("No playable songs found！"),
            request_failed: String::from_str("Request for interface failed, please try again!"),
            album_not_found: String::from_str("Album not found!"),
            unknown_artist: String::from_str("Unknown artist"),
        }
    }

    /// A copy of the texts.
    pub fn duplicate(&self) -> (r: Texts)
        ensures
            r == *self,
    {
        Texts {
            app_name: self.app_name.clone(),
            toplist: self.toplist.clone(),
            play_list_lyrics: self.play_list_lyrics.clone(),
            no_playable_songs: self.no_playable_songs.clone(),
            request_failed: self.request_failed.clone(),
            album_not_found: self.album_not_found.clone(),
            unknown_artist: self.unknown_artist.clone(),
        }
    }
}

} // verus!
