//! A row of a song list: what it shows of its song and what its buttons,
//! clicks and menu ask for.

use vstd::prelude::*;

use crate::model::{Action, CoverSource, LikeDone, SongInfo, SongList};
use crate::sidebar::{songlist_cover_file, songlist_cover_name};
use crate::text::{pad2, pad2_string};
use crate::texts::Texts;

verus! {

/// A duration in milliseconds as minutes and seconds, each of at least two
/// digits: "mm:ss".
pub open spec fn duration_text(duration: u64) -> Seq<char> {
    pad2((duration / 1000 / 60) as nat) + seq![':'] + pad2((duration / 1000 % 60) as nat)
}

/// The icon of the like button.
pub open spec fn like_icon(like: bool) -> Seq<char> {
    if like {
        "starred-symbolic"@
    } else {
        "non-starred-symbolic"@
    }
}

/// The label of the like entry of the context menu.
pub open spec fn like_menu_label(like: bool) -> Seq<char> {
    if like {
        "取消收藏"@
    } else {
        "收藏"@
    }
}

/// The request of a row's like button and like menu entry: like or unlike
/// its song, the opposite of what the row shows, and once the service has
/// answered, show the song so.
pub open spec fn like_request(row: SonglistRow) -> Action {
    Action::LikeSong(row.song_info->0.id, !row.like, Some(LikeDone { like: !row.like }))
}

/// `after` is `before` with the like flag set to `like`, all else kept.
pub open spec fn like_set(before: SonglistRow, after: SonglistRow, like: bool) -> bool {
    &&& after.like == like
    &&& SonglistRow::same_song(&after, &before)
    &&& after.has_sender == before.has_sender
    &&& after.not_ignore_grey == before.not_ignore_grey
    &&& after.index_label == before.index_label
    &&& after.play_icon_visible == before.play_icon_visible
    &&& after.index_visible == before.index_visible
    &&& after.like_button_visible == before.like_button_visible
    &&& after.album_button_visible == before.album_button_visible
    &&& after.remove_button_visible == before.remove_button_visible
}

/// The state of a song row.
pub struct SonglistRow {
    /// Whether the row can send requests to the application.
    pub has_sender: bool,
    pub song_info: Option<SongInfo>,
    pub like: bool,
    pub not_ignore_grey: bool,
    pub tooltip: String,
    pub title: String,
    pub artist: String,
    pub album: String,
    pub duration_label: String,
    pub index_label: String,
    /// Whether the row can be activated, which plays its song.
    pub activatable: bool,
    pub cover: CoverSource,
    pub play_icon_visible: bool,
    pub index_visible: bool,
    pub like_button_visible: bool,
    pub album_button_visible: bool,
    pub remove_button_visible: bool,
}

/// The text of a duration in milliseconds, as "mm:ss".
pub fn duration_string(duration: u64) -> (r: String)
    ensures
        r@ == duration_text(duration),
{
    let mut s = pad2_string(duration / 1000 / 60);
    let colon = ":";
    proof {
        reveal_strlit(":");
    }
    s.append(colon);
    s.append(pad2_string(duration / 1000 % 60).as_str());
    s
}

/// The name of the like button icon.
pub fn like_icon_name(like: bool) -> (r: String)
    ensures
        r@ == like_icon(like),
{
    if like {
        String::from_str("starred-symbolic")
    } else {
        String::from_str("non-starred-symbolic")
    }
}

impl SonglistRow {
    /// Sender, like state, position and visibility of icons and buttons are
    /// the same in both.
    pub open spec fn same_flags(a: &Self, b: &Self) -> bool {
        &&& a.has_sender == b.has_sender
        &&& a.like == b.like
        &&& a.not_ignore_grey == b.not_ignore_grey
        &&& a.index_label == b.index_label
        &&& a.play_icon_visible == b.play_icon_visible
        &&& a.index_visible == b.index_visible
        &&& a.like_button_visible == b.like_button_visible
        &&& a.album_button_visible == b.album_button_visible
        &&& a.remove_button_visible == b.remove_button_visible
    }

    /// Song, texts, activation and cover are the same in both.
    pub open spec fn same_song(a: &Self, b: &Self) -> bool {
        &&& a.song_info == b.song_info
        &&& a.tooltip == b.tooltip
        &&& a.title == b.title
        &&& a.artist == b.artist
        &&& a.album == b.album
        &&& a.duration_label == b.duration_label
        &&& a.activatable == b.activatable
        &&& a.cover == b.cover
    }

    /// A row that shows this song and can send requests; `cached` tells
    /// whether the cover of the song's album is in the cache.
    pub fn new(si: &SongInfo, cached: bool, texts: &Texts) -> (r: Self)
        ensures
            r.has_sender,
            r.shows(si, texts),
            r.cover_for(si, cached, CoverSource::Keep),
            !r.like,
            !r.not_ignore_grey,
            r.index_label@ == Seq::<char>::empty(),
            !r.play_icon_visible,
            r.index_visible,
            r.like_button_visible,
            r.album_button_visible,
            r.remove_button_visible,
    {
        let mut row = SonglistRow {
            has_sender: true,
            song_info: None,
            like: false,
            not_ignore_grey: false,
            tooltip: String::new(),
            title: String::new(),
            artist: String::new(),
            album: String::new(),
            duration_label: String::new(),
            index_label: String::new(),
            activatable: false,
            cover: CoverSource::Keep,
            play_icon_visible: false,
            index_visible: true,
            like_button_visible: true,
            album_button_visible: true,
            remove_button_visible: true,
        };
        row.set_from_song_info(si, cached, texts);
        row
    }

    /// The row shows this song: its name as title and tooltip, its singer
    /// (or the unknown-artist text when it has none), album and duration,
    /// and it can be activated when the song can be played.
    pub open spec fn shows(&self, si: &SongInfo, texts: &Texts) -> bool {
        &&& self.song_info == Some(*si)
        &&& self.tooltip@ == si.name@
        &&& self.title@ == si.name@
        &&& self.artist@ == (if si.singer@.len() == 0 { texts.unknown_artist@ } else { si.singer@ })
        &&& self.album@ == si.album@
        &&& self.duration_label@ == duration_text(si.duration)
        &&& self.activatable == si.playable
    }

    /// The cover after showing the song, from the cover before (`before`):
    /// for a row that can send requests, the cached picture of the album when
    /// there is one (`cached`), else the picture fetched from the song's
    /// address when it has one, else unchanged.
    pub open spec fn cover_for(&self, si: &SongInfo, cached: bool, before: CoverSource) -> bool {
        if !self.has_sender {
            self.cover == before
        } else if cached {
            self.cover matches CoverSource::Cached(f) && f@ == songlist_cover_name(si.album_id)
        } else if si.pic_url@.len() != 0 {
            self.cover matches CoverSource::Download(url, f, w, h)
                && url == si.pic_url && f@ == songlist_cover_name(si.album_id) && w == 40 && h == 40
        } else {
            self.cover == before
        }
    }

    /// The row shows this song from now on.
    pub fn set_from_song_info(&mut self, si: &SongInfo, cached: bool, texts: &Texts)
        ensures
            final(self).shows(si, texts),
            final(self).cover_for(si, cached, old(self).cover),
            final(self).has_sender == old(self).has_sender,
            final(self).like == old(self).like,
            final(self).not_ignore_grey == old(self).not_ignore_grey,
            final(self).index_label == old(self).index_label,
            final(self).play_icon_visible == old(self).play_icon_visible,
            final(self).index_visible == old(self).index_visible,
            final(self).like_button_visible == old(self).like_button_visible,
            final(self).album_button_visible == old(self).album_button_visible,
            final(self).remove_button_visible == old(self).remove_button_visible,
    {
        self.song_info = Some(si.duplicate());
        self.tooltip = si.name.clone();
        self.set_name(si.name.as_str());
        self.set_singer(si.singer.as_str(), texts);
        self.set_album(si.album.as_str());
        self.set_duration(si.duration);
        self.activatable = si.playable;
        if self.has_sender {
            if cached {
                self.cover = CoverSource::Cached(songlist_cover_file(si.album_id));
            } else if !si.pic_url.as_str().is_empty() {
                self.cover = CoverSource::Download(si.pic_url.clone(), songlist_cover_file(si.album_id), 40, 40);
            }
        }
    }

    /// Whether a grey (unplayable) row is still to be treated as playable.
    pub fn not_ignore_grey(&self) -> (r: bool)
        ensures
            r == self.not_ignore_grey,
    {
        self.not_ignore_grey
    }

    /// The song of the row, if it has one.
    pub fn get_song_info(&self) -> (r: Option<SongInfo>)
        ensures
            r == self.song_info,
    {
        match &self.song_info {
            Some(si) => Some(si.duplicate()),
            None => None,
        }
    }

    /// Shows the position `n` of the row, with at least two digits.
    pub fn set_index(&mut self, n: usize)
        ensures
            final(self).index_label@ == pad2(n as nat),
            SonglistRow::same_song(&*final(self), &*old(self)),
            final(self).like == old(self).like,
            final(self).has_sender == old(self).has_sender,
            final(self).not_ignore_grey == old(self).not_ignore_grey,
            final(self).play_icon_visible == old(self).play_icon_visible,
            final(self).index_visible == old(self).index_visible,
            final(self).like_button_visible == old(self).like_button_visible,
            final(self).album_button_visible == old(self).album_button_visible,
            final(self).remove_button_visible == old(self).remove_button_visible,
    {
        self.index_label = pad2_string(n as u64);
    }

    /// Shows the play icon in place of the position, or the position.
    pub fn switch_image(&mut self, visible: bool)
        ensures
            final(self).play_icon_visible == visible,
            final(self).index_visible == !visible,
            SonglistRow::same_song(&*final(self), &*old(self)),
            final(self).like == old(self).like,
            final(self).has_sender == old(self).has_sender,
            final(self).not_ignore_grey == old(self).not_ignore_grey,
            final(self).index_label == old(self).index_label,
            final(self).like_button_visible == old(self).like_button_visible,
            final(self).album_button_visible == old(self).album_button_visible,
            final(self).remove_button_visible == old(self).remove_button_visible,
    {
        self.play_icon_visible = visible;
        self.index_visible = !visible;
    }

    /// Shows or hides the like button.
    pub fn set_like_button_visible(&mut self, visible: bool)
        ensures
            final(self).like_button_visible == visible,
            SonglistRow::same_song(&*final(self), &*old(self)),
            final(self).like == old(self).like,
            final(self).has_sender == old(self).has_sender,
            final(self).not_ignore_grey == old(self).not_ignore_grey,
            final(self).index_label == old(self).index_label,
            final(self).play_icon_visible == old(self).play_icon_visible,
            final(self).index_visible == old(self).index_visible,
            final(self).album_button_visible == old(self).album_button_visible,
            final(self).remove_button_visible == old(self).remove_button_visible,
    {
        self.like_button_visible = visible;
    }

    /// Shows or hides the album button.
    pub fn set_album_button_visible(&mut self, visible: bool)
        ensures
            final(self).album_button_visible == visible,
            SonglistRow::same_song(&*final(self), &*old(self)),
            final(self).like == old(self).like,
            final(self).has_sender == old(self).has_sender,
            final(self).not_ignore_grey == old(self).not_ignore_grey,
            final(self).index_label == old(self).index_label,
            final(self).play_icon_visible == old(self).play_icon_visible,
            final(self).index_visible == old(self).index_visible,
            final(self).like_button_visible == old(self).like_button_visible,
            final(self).remove_button_visible == old(self).remove_button_visible,
    {
        self.album_button_visible = visible;
    }

    /// Shows or hides the remove button.
    pub fn set_remove_button_visible(&mut self, visible: bool)
        ensures
            final(self).remove_button_visible == visible,
            SonglistRow::same_song(&*final(self), &*old(self)),
            final(self).like == old(self).like,
            final(self).has_sender == old(self).has_sender,
            final(self).not_ignore_grey == old(self).not_ignore_grey,
            final(self).index_label == old(self).index_label,
            final(self).play_icon_visible == old(self).play_icon_visible,
            final(self).index_visible == old(self).index_visible,
            final(self).like_button_visible == old(self).like_button_visible,
            final(self).album_button_visible == old(self).album_button_visible,
    {
        self.remove_button_visible = visible;
    }

    fn set_name(&mut self, label: &str)
        ensures
            final(self).title@ == label@,
            final(self).song_info == old(self).song_info,
            final(self).tooltip == old(self).tooltip,
            final(self).has_sender == old(self).has_sender,
            final(self).cover == old(self).cover,
            final(self).like == old(self).like,
            SonglistRow::same_flags(&*final(self), &*old(self)),
    {
        self.title = String::from_str(label);
    }

    fn set_singer(&mut self, label: &str, texts: &Texts)
        ensures
            final(self).artist@ == (if label@.len() == 0 { texts.unknown_artist@ } else { label@ }),
            final(self).song_info == old(self).song_info,
            final(self).tooltip == old(self).tooltip,
            final(self).title == old(self).title,
            final(self).has_sender == old(self).has_sender,
            final(self).cover == old(self).cover,
            final(self).like == old(self).like,
            SonglistRow::same_flags(&*final(self), &*old(self)),
    {
        if label.is_empty() {
            self.artist = texts.unknown_artist.clone();
        } else {
            self.artist = String::from_str(label);
        }
    }

    fn set_album(&mut self, label: &str)
        ensures
            final(self).album@ == label@,
            final(self).song_info == old(self).song_info,
            final(self).tooltip == old(self).tooltip,
            final(self).title == old(self).title,
            final(self).artist == old(self).artist,
            final(self).has_sender == old(self).has_sender,
            final(self).cover == old(self).cover,
            final(self).like == old(self).like,
            SonglistRow::same_flags(&*final(self), &*old(self)),
    {
        self.album = String::from_str(label);
    }

    fn set_duration(&mut self, duration: u64)
        ensures
            final(self).duration_label@ == duration_text(duration),
            final(self).song_info == old(self).song_info,
            final(self).tooltip == old(self).tooltip,
            final(self).title == old(self).title,
            final(self).artist == old(self).artist,
            final(self).album == old(self).album,
            final(self).has_sender == old(self).has_sender,
            final(self).cover == old(self).cover,
            final(self).like == old(self).like,
            SonglistRow::same_flags(&*final(self), &*old(self)),
    {
        self.duration_label = duration_string(duration);
    }

    /// A click with this number of presses: a double click activates the row.
    pub fn on_click(&self, n_press: i32) -> (activate: bool)
        ensures
            activate == (n_press == 2),
    {
        n_press == 2
    }

    /// The entries of the context menu, label and action each: play now,
    /// play next, and like or unlike as the song is not liked or liked.
    pub fn on_right_click(&self) -> (r: Vec<(String, String)>)
        ensures
            r@.len() == 3,
            r@[0].0@ == "播放"@ && r@[0].1@ == "row.play-now"@,
            r@[1].0@ == "下一首播放"@ && r@[1].1@ == "row.play-next"@,
            r@[2].0@ == like_menu_label(self.like) && r@[2].1@ == "row.toggle-like"@,
    {
        let like_label = if self.like {
            String::from_str("取消收藏")
        } else {
            String::from_str("收藏")
        };
        let mut r: Vec<(String, String)> = Vec::new();
        r.push((String::from_str("播放"), String::from_str("row.play-now")));
        r.push((String::from_str("下一首播放"), String::from_str("row.play-next")));
        r.push((like_label, String::from_str("row.toggle-like")));
        r
    }

    /// The like button asks for the song to be liked or unliked, the
    /// opposite of what it is now; the row shows the change once the service
    /// has answered.
    pub fn like_button_clicked_cb(&self) -> (r: Action)
        requires
            self.has_sender,
            self.song_info is Some,
        ensures
            r == like_request(*self),
    {
        let id = match &self.song_info {
            Some(si) => si.id,
            None => 0,
        };
        Action::LikeSong(id, !self.like, Some(LikeDone { like: !self.like }))
    }

    /// The album button opens the album of the song, or, for a song without
    /// album (id 0), a toast says that there is none.
    pub fn album_button_clicked_cb(&self, texts: &Texts) -> (r: Action)
        requires
            self.has_sender,
            self.song_info is Some,
        ensures
            ({
                let si = self.song_info->0;
                if si.album_id != 0 {
                    r matches Action::ToAlbumPage(sl) && sl.id == si.album_id && sl.name == si.album
                        && sl.cover_img_url == si.pic_url && sl.author@ == Seq::<char>::empty()
                        && sl.creator_id == 0
                } else {
                    r == Action::AddToast(texts.album_not_found)
                }
            }),
    {
        match &self.song_info {
            Some(si) => {
                if si.album_id != 0 {
                    Action::ToAlbumPage(SongList {
                        id: si.album_id,
                        name: si.album.clone(),
                        cover_img_url: si.pic_url.clone(),
                        author: String::new(),
                        creator_id: 0,
                    })
                } else {
                    Action::AddToast(texts.album_not_found.clone())
                }
            },
            None => Action::AddToast(texts.album_not_found.clone()),
        }
    }

    /// The remove button asks for the song to leave the play list.
    pub fn remove_button_clicked_cb(&self) -> (r: Action)
        requires
            self.has_sender,
            self.song_info is Some,
        ensures
            r == Action::RemoveFromPlayList(self.song_info->0),
    {
        match &self.song_info {
            Some(si) => Action::RemoveFromPlayList(si.duplicate()),
            None => Action::ClearPlaylist,
        }
    }

    /// The "play now" menu entry: plays the song, when the row has one and
    /// can send requests.
    pub fn play_now_action(&self) -> (r: Option<Action>)
        ensures
            (self.has_sender && self.song_info is Some) ==> r == Some(Action::PlayNow(self.song_info->0)),
            !(self.has_sender && self.song_info is Some) ==> r is None,
    {
        if self.has_sender {
            match &self.song_info {
                Some(si) => Some(Action::PlayNow(si.duplicate())),
                None => None,
            }
        } else {
            None
        }
    }

    /// The "play next" menu entry: the song plays after the current one,
    /// when the row has one and can send requests.
    pub fn play_next_action(&self) -> (r: Option<Action>)
        ensures
            (self.has_sender && self.song_info is Some) ==> r == Some(Action::PlayNext(self.song_info->0)),
            !(self.has_sender && self.song_info is Some) ==> r is None,
    {
        if self.has_sender {
            match &self.song_info {
                Some(si) => Some(Action::PlayNext(si.duplicate())),
                None => None,
            }
        } else {
            None
        }
    }

    /// The like entry of the menu: like or unlike the song, the opposite of
    /// what it is now, when the row can send requests.
    pub fn toggle_like_action(&self) -> (r: Option<Action>)
        requires
            self.has_sender ==> self.song_info is Some,
        ensures
            self.has_sender ==> r == Some(like_request(*self)),
            !self.has_sender ==> r is None,
    {
        if self.has_sender {
            Some(self.like_button_clicked_cb())
        } else {
            None
        }
    }

    /// Sets whether the song is liked, which the like button shows; a row
    /// does so with the completion of its like request once it is answered.
    pub fn set_like(&mut self, like: bool)
        ensures
            like_set(*old(self), *final(self), like),
    {
        self.like = like;
    }

    /// Sets whether a grey row is still to be treated as playable.
    pub fn set_not_ignore_grey(&mut self, val: bool)
        ensures
            final(self).not_ignore_grey == val,
            SonglistRow::same_song(&*final(self), &*old(self)),
            final(self).like == old(self).like,
            final(self).has_sender == old(self).has_sender,
            final(self).index_label == old(self).index_label,
            final(self).play_icon_visible == old(self).play_icon_visible,
            final(self).index_visible == old(self).index_visible,
            final(self).like_button_visible == old(self).like_button_visible,
            final(self).album_button_visible == old(self).album_button_visible,
            final(self).remove_button_visible == old(self).remove_button_visible,
    {
        self.not_ignore_grey = val;
    }
}

} // verus!
