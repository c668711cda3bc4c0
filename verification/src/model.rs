//! The data that the window, its rows and its pages carry.

use vstd::prelude::*;

use crate::search::SearchPageKind;

verus! {

/// A song as the music service describes it.
pub struct SongInfo {
    pub id: u64,
    pub name: String,
    pub singer: String,
    pub album: String,
    pub album_id: u64,
    pub pic_url: String,
    /// Length in milliseconds.
    pub duration: u64,
    pub song_url: String,
    /// Whether the copyright of the song lets it be played.
    pub playable: bool,
}

impl SongInfo {
    /// A copy of the song.
    pub fn duplicate(&self) -> (r: SongInfo)
        ensures
            r == *self,
    {
        SongInfo {
            id: self.id,
            name: self.name.clone(),
            singer: self.singer.clone(),
            album: self.album.clone(),
            album_id: self.album_id,
            pic_url: self.pic_url.clone(),
            duration: self.duration,
            song_url: self.song_url.clone(),
            playable: self.playable,
        }
    }
}

/// A song list (a playlist or an album).
pub struct SongList {
    pub id: u64,
    pub name: String,
    pub cover_img_url: String,
    pub author: String,
    pub creator_id: u64,
}

impl SongList {
    /// A copy of the song list.
    pub fn duplicate(&self) -> (r: SongList)
        ensures
            r == *self,
    {
        SongList {
            id: self.id,
            name: self.name.clone(),
            cover_img_url: self.cover_img_url.clone(),
            author: self.author.clone(),
            creator_id: self.creator_id,
        }
    }
}

/// A chart of the music service.
pub struct TopList {
    pub id: u64,
    pub name: String,
    /// When the chart was last updated, as the service words it.
    pub update: String,
    pub cover: String,
}

/// A singer found by a search.
pub struct SingerInfo {
    pub id: u64,
    pub name: String,
    pub pic_url: String,
}

/// What the service answers to a login.
pub struct LoginInfo {
    pub uid: u64,
    pub nickname: String,
    pub avatar_url: String,
    pub vip_type: i32,
}

/// What a search looks for.
#[derive(PartialEq, Eq, Structural, Clone, Copy, Debug)]
pub enum SearchType {
    Song,
    Singer,
    Album,
    Lyrics,
    SongList,
    TopPicks,
    AllAlbums,
    Radio,
    LikeAlbums,
    LikeSongList,
    DailyRec,
    Heartbeat,
    CloudDisk,
}

/// The results of a search, as the pages show them.
pub enum SearchResult {
    /// Songs, each with whether the user likes it.
    Songs(Vec<SongInfo>, Vec<bool>),
    Singers(Vec<SingerInfo>),
    SongLists(Vec<SongList>),
}

/// What a song row does once the service has answered its like request:
/// it shows the song as liked (`true`) or not.
#[derive(PartialEq, Eq, Structural, Clone, Copy, Debug)]
pub struct LikeDone {
    pub like: bool,
}

/// Where the results of a search go once the service has answered: to the
/// page stacked with this handle, which shows results of this kind.
#[derive(PartialEq, Eq, Structural, Clone, Copy, Debug)]
pub struct SearchDone {
    pub page: u64,
    pub kind: SearchPageKind,
}

/// The requests that the window and its rows send to the application.
pub enum Action {
    PageBack,
    PlayListStart,
    Play(SongInfo),
    PlayNow(SongInfo),
    PlayNext(SongInfo),
    AddToast(String),
    GetToplist,
    ToSongListPage(SongList),
    ToAlbumPage(SongList),
    /// Like (`true`) or unlike (`false`) the song with this id; once the
    /// service has answered, the row that asked, if any, does what the
    /// completion says.
    LikeSong(u64, bool, Option<LikeDone>),
    RemoveFromPlayList(SongInfo),
    ToMyPageDailyRec,
    ToMyPageHeartbeat,
    ToMyPageRadio,
    ToMyPageCloudDisk,
    ToMyPageAlbums,
    ClearPlaylist,
    TryUpdateQrCode,
    /// Search for the text, of this type, from this offset, at most this
    /// many; the results go to the page that the completion names.
    Search(String, SearchType, u16, u16, SearchDone),
}

/// Where a cover picture comes from.
pub enum CoverSource {
    /// The picture is in the cache, in the file of this name.
    Cached(String),
    /// The picture is fetched from this address, stored in the cache under
    /// this name, and shown at this width and height.
    Download(String, String, i32, i32),
    /// No picture is set.
    Keep,
}

} // verus!
