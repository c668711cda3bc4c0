//! The play list: the drawer that lists it, and what the window asks for
//! when songs are added, removed or started.

use vstd::prelude::*;

use crate::model::{Action, SongInfo};
use crate::pages::{is_page, repeats_top};
use crate::text::{decimal, decimal_string};
use crate::window::{likes_of, NeteaseCloudMusicGtk4Window};

verus! {

/// The icon of the play button of the song that is playing: pause while it
/// plays, start while it does not.
pub open spec fn play_icon(is_playing: bool) -> Seq<char> {
    if is_playing {
        "media-playback-pause-symbolic"@
    } else {
        "media-playback-start-symbolic"@
    }
}

/// The name of the play button icon.
pub fn play_icon_name(is_playing: bool) -> (r: String)
    ensures
        r@ == play_icon(is_playing),
{
    if is_playing {
        String::from_str("media-playback-pause-symbolic")
    } else {
        String::from_str("media-playback-start-symbolic")
    }
}

/// Song `i` is the first one with this id.
pub open spec fn is_first_with_id(sis: Seq<SongInfo>, id: u64, i: int) -> bool {
    &&& 0 <= i < sis.len()
    &&& sis[i].id == id
    &&& forall|j: int| 0 <= j < i ==> sis[j].id != id
}

/// Some song has this id.
pub open spec fn has_id(sis: Seq<SongInfo>, id: u64) -> bool {
    exists|j: int| 0 <= j < sis.len() && sis[j].id == id
}

/// Row `i` is the first one marked.
pub open spec fn is_first_marked(rows: Seq<bool>, i: int) -> bool {
    &&& 0 <= i < rows.len()
    &&& rows[i]
    &&& forall|j: int| 0 <= j < i ==> !rows[j]
}

/// What the drawer shows: the number of songs, whether the user likes each,
/// and the row of the song that is playing with the icon of its button.
pub struct DrawerView {
    pub count_label: String,
    pub likes: Vec<bool>,
    pub playing: Option<(usize, String)>,
}

/// What follows the removal of a song from the play list.
pub struct PlaylistRemoval {
    /// Whether the user likes each song left, for the play list page.
    pub likes: Vec<bool>,
    /// Whether the play list page is stacked anew.
    pub page_pushed: bool,
    /// Whether to go back a page, as no song is playing any more.
    pub page_back: bool,
    /// Whether the drawer, being open, is refreshed.
    pub refresh_drawer: bool,
}

/// The index of the first song with this id, if any.
pub fn position_of_id(sis: &[SongInfo], id: u64) -> (r: Option<usize>)
    ensures
        r matches Some(i) ==> is_first_with_id(sis@, id, i as int),
        r is None ==> !has_id(sis@, id),
{
    let n = sis.len();
    for i in 0..n
        invariant
            n == sis@.len(),
            forall|j: int| 0 <= j < i ==> sis@[j].id != id,
    {
        if sis[i].id == id {
            return Some(i);
        }
    }
    None
}

impl NeteaseCloudMusicGtk4Window {
    /// Opens the drawer when it is closed and closes it when it is open;
    /// returns whether it opens, when its list is refreshed first.
    pub fn toggle_playlist_drawer(&mut self) -> (refresh: bool)
        ensures
            refresh == !old(self).drawer_open,
            final(self).drawer_open == !old(self).drawer_open,
            NeteaseCloudMusicGtk4Window::same_user(&*final(self), &*old(self)),
            NeteaseCloudMusicGtk4Window::same_nav(&*final(self), &*old(self)),
            NeteaseCloudMusicGtk4Window::same_overlay(&*final(self), &*old(self)),
            NeteaseCloudMusicGtk4Window::same_sidebar(&*final(self), &*old(self)),
    {
        let is_open = self.drawer_open;
        self.drawer_open = !is_open;
        !is_open
    }

    /// The play list is emptied and the drawer closed.
    pub fn clear_playlist(&mut self)
        ensures
            !final(self).drawer_open,
            NeteaseCloudMusicGtk4Window::same_user(&*final(self), &*old(self)),
            NeteaseCloudMusicGtk4Window::same_nav(&*final(self), &*old(self)),
            NeteaseCloudMusicGtk4Window::same_overlay(&*final(self), &*old(self)),
            NeteaseCloudMusicGtk4Window::same_sidebar(&*final(self), &*old(self)),
    {
        self.drawer_open = false;
    }

    /// Once the pages of the window are set up, it asks for the charts.
    pub fn init_page_data(&self) -> (r: Action)
        ensures
            r == Action::GetToplist,
    {
        Action::GetToplist
    }

    /// A press somewhere in the window, on a widget inside the drawer
    /// (`Some(true)`), outside it (`Some(false)`) or on none (`None`): a press
    /// outside the open drawer closes it, and the press is then claimed.
    pub fn close_drawer_on_press(&mut self, target_in_drawer: Option<bool>) -> (claimed: bool)
        ensures
            claimed == (old(self).drawer_open && target_in_drawer == Some(false)),
            final(self).drawer_open == (old(self).drawer_open && !claimed),
            NeteaseCloudMusicGtk4Window::same_user(&*final(self), &*old(self)),
            NeteaseCloudMusicGtk4Window::same_nav(&*final(self), &*old(self)),
            NeteaseCloudMusicGtk4Window::same_overlay(&*final(self), &*old(self)),
            NeteaseCloudMusicGtk4Window::same_sidebar(&*final(self), &*old(self)),
    {
        if self.drawer_open {
            match target_in_drawer {
                Some(inside) => {
                    if !inside {
                        self.drawer_open = false;
                        return true;
                    }
                },
                None => {},
            }
        }
        false
    }

    /// What the drawer shows for this play list, with the song that is
    /// playing, if any, and whether it plays.
    pub fn update_drawer_playlist(&self, sis: &[SongInfo], current: Option<&SongInfo>, is_playing: bool) -> (r: DrawerView)
        ensures
            r.count_label@ == decimal(sis@.len()),
            r.likes@ == likes_of(sis@, self.user_info.like_songs@),
            match current {
                None => r.playing is None,
                Some(c) => match r.playing {
                    Some((i, icon)) => is_first_with_id(sis@, c.id, i as int) && icon@ == play_icon(is_playing),
                    None => !has_id(sis@, c.id),
                },
            },
    {
        let likes = self.get_song_likes(sis);
        let count_label = decimal_string(sis.len() as u64);
        let playing = match current {
            None => None,
            Some(c) => match position_of_id(sis, c.id) {
                Some(i) => Some((i, play_icon_name(is_playing))),
                None => None,
            },
        };
        DrawerView { count_label, likes, playing }
    }

    /// The row of the open drawer whose play button icon follows the play
    /// state: the first row marked as playing, with the icon; none when the
    /// drawer is closed or no row is marked.
    pub fn update_drawer_play_state(&self, is_playing: bool, playing_rows: &[bool]) -> (r: Option<(usize, String)>)
        ensures
            !self.drawer_open ==> r is None,
            self.drawer_open ==> match r {
                Some((i, icon)) => is_first_marked(playing_rows@, i as int) && icon@ == play_icon(is_playing),
                None => forall|j: int| 0 <= j < playing_rows@.len() ==> !playing_rows@[j],
            },
    {
        if !self.drawer_open {
            return None;
        }
        let n = playing_rows.len();
        for i in 0..n
            invariant
                n == playing_rows@.len(),
                self.drawer_open,
                forall|j: int| 0 <= j < i ==> !playing_rows@[j],
        {
            if playing_rows[i] {
                return Some((i, play_icon_name(is_playing)));
            }
        }
        None
    }

    /// The play list and lyrics page `lyrics_page` shows this play list: it
    /// is stacked unless it is on top already; returns whether the user likes
    /// each song.
    pub fn init_playlist_lyrics_page(&mut self, sis: &[SongInfo], lyrics_page: u64) -> (r: (Vec<bool>, bool))
        ensures
            final(self).wf() == old(self).wf(),
            r.0@ == likes_of(sis@, old(self).user_info.like_songs@),
            r.1 == !repeats_top(old(self).pages@, old(self).texts.play_list_lyrics@, "Play List&Lyrics"@),
            !r.1 ==> *final(self) == *old(self),
            r.1 ==> {
                &&& final(self).pages@.drop_last() == old(self).pages@
                &&& is_page(final(self).pages@.last(), lyrics_page, old(self).texts.play_list_lyrics@, "Play List&Lyrics"@)
                &&& final(self).title@ == old(self).texts.play_list_lyrics@
                &&& final(self).back_visible
                &&& final(self).content_page == old(self).content_page
                &&& NeteaseCloudMusicGtk4Window::same_user(&*final(self), &*old(self))
                &&& NeteaseCloudMusicGtk4Window::same_overlay(&*final(self), &*old(self))
                &&& NeteaseCloudMusicGtk4Window::same_sidebar(&*final(self), &*old(self))
                &&& final(self).drawer_open == old(self).drawer_open
            },
    {
        let likes = self.get_song_likes(sis);
        let title = self.texts.play_list_lyrics.clone();
        let pushed = self.page_new(lyrics_page, title.as_str(), "Play List&Lyrics");
        (likes, pushed)
    }

    /// A song was removed from the play list `sis`, leaving `current`
    /// playing, if any: the play list page `lyrics_page` shows the list, the
    /// window goes back a page when no song is playing (or one with id 0),
    /// and the open drawer is refreshed.
    pub fn remove_from_playlist(&mut self, sis: &[SongInfo], current: Option<&SongInfo>, lyrics_page: u64) -> (r: PlaylistRemoval)
        ensures
            final(self).wf() == old(self).wf(),
            r.likes@ == likes_of(sis@, old(self).user_info.like_songs@),
            r.page_pushed == !repeats_top(old(self).pages@, old(self).texts.play_list_lyrics@, "Play List&Lyrics"@),
            !r.page_pushed ==> *final(self) == *old(self),
            r.page_pushed ==> {
                &&& final(self).pages@.drop_last() == old(self).pages@
                &&& is_page(final(self).pages@.last(), lyrics_page, old(self).texts.play_list_lyrics@, "Play List&Lyrics"@)
                &&& final(self).title@ == old(self).texts.play_list_lyrics@
                &&& final(self).back_visible
                &&& NeteaseCloudMusicGtk4Window::same_user(&*final(self), &*old(self))
                &&& NeteaseCloudMusicGtk4Window::same_overlay(&*final(self), &*old(self))
                &&& NeteaseCloudMusicGtk4Window::same_sidebar(&*final(self), &*old(self))
                &&& final(self).drawer_open == old(self).drawer_open
            },
            r.page_back == match current {
                None => true,
                Some(si) => si.id == 0,
            },
            r.refresh_drawer == old(self).drawer_open,
    {
        let (likes, page_pushed) = self.init_playlist_lyrics_page(sis, lyrics_page);
        let page_back = match current {
            None => true,
            Some(si) => si.id == 0,
        };
        PlaylistRemoval { likes, page_pushed, page_back, refresh_drawer: self.drawer_open }
    }

    /// Songs were added to the play list: they start playing when `is_play`.
    pub fn add_playlist(&self, is_play: bool) -> (r: Option<Action>)
        ensures
            is_play ==> r == Some(Action::PlayListStart),
            !is_play ==> r is None,
    {
        if is_play {
            Some(Action::PlayListStart)
        } else {
            None
        }
    }

    /// Songs were added to the play list with the play position set among
    /// them: they start playing.
    pub fn add_playlist_at(&self) -> (r: Action)
        ensures
            r == Action::PlayListStart,
    {
        Action::PlayListStart
    }

    /// The play list starts: the song that is current plays, or, with none,
    /// a toast says that no song can be played.
    pub fn playlist_start(&self, current: Option<&SongInfo>) -> (r: Action)
        ensures
            match current {
                Some(si) => r == Action::Play(*si),
                None => r == Action::AddToast(self.texts.no_playable_songs),
            },
    {
        match current {
            Some(si) => Action::Play(si.duplicate()),
            None => Action::AddToast(self.texts.no_playable_songs.clone()),
        }
    }

    /// The clear button of the drawer asks for the play list to be cleared.
    pub fn drawer_clear_clicked_cb(&self) -> (r: Action)
        ensures
            r == Action::ClearPlaylist,
    {
        Action::ClearPlaylist
    }
}

} // verus!
