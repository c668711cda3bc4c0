//! Searches: which request each kind of search makes, what its answer
//! becomes, and the search entry of the header bar.

use vstd::prelude::*;

use crate::model::{Action, SearchDone, SearchResult, SearchType, SingerInfo, SongInfo, SongList};
use crate::pages::{is_page, without_name, Page};
use crate::window::{likes_of, NeteaseCloudMusicGtk4Window};

verus! {

/// A request to the music service.
pub enum SearchRequest {
    /// Songs matching the text, from the offset, at most the limit.
    SearchSong(String, u16, u16),
    SearchSinger(String, u16, u16),
    SearchAlbum(String, u16, u16),
    /// Songs whose lyrics match the text.
    SearchLyrics(String, u16, u16),
    SearchSongList(String, u16, u16),
    /// Play lists of a category, in an order.
    TopSongList(String, String, u16, u16),
    /// New albums of an area.
    NewAlbums(String, u16, u16),
    UserRadioSublist(u16, u16),
    AlbumSublist(u16, u16),
    /// The play lists of the user with this id.
    UserSongList(u64, u16, u16),
}

/// What the music service answered to a request.
pub enum SearchReply {
    Songs(Vec<SongInfo>),
    Singers(Vec<SingerInfo>),
    SongLists(Vec<SongList>),
}

/// Where the results of a request start and how many it asks for at most.
pub open spec fn request_paging(req: SearchRequest) -> (u16, u16) {
    match req {
        SearchRequest::SearchSong(_, o, l) => (o, l),
        SearchRequest::SearchSinger(_, o, l) => (o, l),
        SearchRequest::SearchAlbum(_, o, l) => (o, l),
        SearchRequest::SearchLyrics(_, o, l) => (o, l),
        SearchRequest::SearchSongList(_, o, l) => (o, l),
        SearchRequest::TopSongList(_, _, o, l) => (o, l),
        SearchRequest::NewAlbums(_, o, l) => (o, l),
        SearchRequest::UserRadioSublist(o, l) => (o, l),
        SearchRequest::AlbumSublist(o, l) => (o, l),
        SearchRequest::UserSongList(_, o, l) => (o, l),
    }
}

/// The text that a request searches for, for the requests that search one.
pub open spec fn request_text(req: SearchRequest) -> Option<String> {
    match req {
        SearchRequest::SearchSong(t, _, _) => Some(t),
        SearchRequest::SearchSinger(t, _, _) => Some(t),
        SearchRequest::SearchAlbum(t, _, _) => Some(t),
        SearchRequest::SearchLyrics(t, _, _) => Some(t),
        SearchRequest::SearchSongList(t, _, _) => Some(t),
        _ => None,
    }
}

/// What the service answers a request with: songs to a song or lyrics
/// search, singers to a singer search, song lists to the others.
pub open spec fn answer_kind(req: SearchRequest) -> SearchPageKind {
    match req {
        SearchRequest::SearchSong(_, _, _) | SearchRequest::SearchLyrics(_, _, _) => SearchPageKind::Songs,
        SearchRequest::SearchSinger(_, _, _) => SearchPageKind::Singers,
        _ => SearchPageKind::SongLists,
    }
}

/// What a reply holds: songs, singers or song lists.
pub open spec fn reply_kind(reply: SearchReply) -> SearchPageKind {
    match reply {
        SearchReply::Songs(_) => SearchPageKind::Songs,
        SearchReply::Singers(_) => SearchPageKind::Singers,
        SearchReply::SongLists(_) => SearchPageKind::SongLists,
    }
}

/// The page that shows the results of a search.
#[derive(PartialEq, Eq, Structural, Clone, Copy, Debug)]
pub enum SearchPageKind {
    Songs,
    Singers,
    SongLists,
}

/// The request that a search of this type makes, for the user `uid`; none
/// for the types that cannot be searched.
pub open spec fn request_of(
    search_type: SearchType,
    text: String,
    offset: u16,
    limit: u16,
    uid: u64,
    r: Option<SearchRequest>,
) -> bool {
    match search_type {
        SearchType::Song => r == Some(SearchRequest::SearchSong(text, offset, limit)),
        SearchType::Singer => r == Some(SearchRequest::SearchSinger(text, offset, limit)),
        SearchType::Album => r == Some(SearchRequest::SearchAlbum(text, offset, limit)),
        SearchType::Lyrics => r == Some(SearchRequest::SearchLyrics(text, offset, limit)),
        SearchType::SongList => r == Some(SearchRequest::SearchSongList(text, offset, limit)),
        SearchType::TopPicks => r matches Some(SearchRequest::TopSongList(cat, order, o, l))
            && cat@ == "全部"@ && order@ == "hot"@ && o == offset && l == limit,
        SearchType::AllAlbums => r matches Some(SearchRequest::NewAlbums(area, o, l))
            && area@ == "ALL"@ && o == offset && l == limit,
        SearchType::Radio => r == Some(SearchRequest::UserRadioSublist(offset, limit)),
        SearchType::LikeAlbums => r == Some(SearchRequest::AlbumSublist(offset, limit)),
        SearchType::LikeSongList => r == Some(SearchRequest::UserSongList(uid, offset, limit)),
        _ => r is None,
    }
}

/// The kind of page that shows these results.
pub open spec fn result_kind(res: SearchResult) -> SearchPageKind {
    match res {
        SearchResult::Songs(_, _) => SearchPageKind::Songs,
        SearchResult::Singers(_) => SearchPageKind::Singers,
        SearchResult::SongLists(_) => SearchPageKind::SongLists,
    }
}

/// The service answers the request of a search of this type with a reply
/// of this kind: songs, singers or song lists; the types that make no
/// request get no reply.
pub open spec fn reply_fits(search_type: SearchType, reply: SearchReply) -> bool {
    match search_type {
        SearchType::Song | SearchType::Lyrics => reply is Songs,
        SearchType::Singer => reply is Singers,
        SearchType::Album | SearchType::SongList | SearchType::TopPicks | SearchType::AllAlbums
        | SearchType::Radio | SearchType::LikeAlbums | SearchType::LikeSongList => reply is SongLists,
        _ => false,
    }
}

/// Some stacked page is the widget with this handle.
pub open spec fn is_stacked(pages: Seq<Page>, widget: u64) -> bool {
    exists|k: int| 0 <= k < pages.len() && #[trigger] pages[k].widget == widget
}

/// The page that shows the results of a search of this type, if any.
pub open spec fn page_kind_of(search_type: SearchType) -> Option<SearchPageKind> {
    match search_type {
        SearchType::Song | SearchType::Lyrics => Some(SearchPageKind::Songs),
        SearchType::Singer => Some(SearchPageKind::Singers),
        SearchType::Album | SearchType::SongList => Some(SearchPageKind::SongLists),
        _ => None,
    }
}

/// Whether the service's reply is of the kind that a search of this type
/// asks for.
pub fn search_reply_fits(search_type: SearchType, reply: &SearchReply) -> (r: bool)
    ensures
        r == reply_fits(search_type, *reply),
{
    match search_type {
        SearchType::Song | SearchType::Lyrics => matches!(reply, SearchReply::Songs(_)),
        SearchType::Singer => matches!(reply, SearchReply::Singers(_)),
        SearchType::Album | SearchType::SongList | SearchType::TopPicks | SearchType::AllAlbums
        | SearchType::Radio | SearchType::LikeAlbums | SearchType::LikeSongList => matches!(reply, SearchReply::SongLists(_)),
        _ => false,
    }
}

/// The kind of page that shows these results.
pub fn search_result_kind(res: &SearchResult) -> (r: SearchPageKind)
    ensures
        r == result_kind(*res),
{
    match res {
        SearchResult::Songs(_, _) => SearchPageKind::Songs,
        SearchResult::Singers(_) => SearchPageKind::Singers,
        SearchResult::SongLists(_) => SearchPageKind::SongLists,
    }
}

/// The page that shows the results of a search of this type, if any.
pub fn search_page_kind(search_type: SearchType) -> (r: Option<SearchPageKind>)
    ensures
        r == page_kind_of(search_type),
{
    match search_type {
        SearchType::Song | SearchType::Lyrics => Some(SearchPageKind::Songs),
        SearchType::Singer => Some(SearchPageKind::Singers),
        SearchType::Album | SearchType::SongList => Some(SearchPageKind::SongLists),
        _ => None,
    }
}

impl NeteaseCloudMusicGtk4Window {
    /// The request that a search of this type makes; none for the types
    /// that cannot be searched. The play lists of the user are those of the
    /// user who is logged in.
    pub fn search_request(&self, search_type: SearchType, text: String, offset: u16, limit: u16) -> (r: Option<SearchRequest>)
        ensures
            request_of(search_type, text, offset, limit, self.user_info.uid, r),
    {
        match search_type {
            SearchType::Song => Some(SearchRequest::SearchSong(text, offset, limit)),
            SearchType::Singer => Some(SearchRequest::SearchSinger(text, offset, limit)),
            SearchType::Album => Some(SearchRequest::SearchAlbum(text, offset, limit)),
            SearchType::Lyrics => Some(SearchRequest::SearchLyrics(text, offset, limit)),
            SearchType::SongList => Some(SearchRequest::SearchSongList(text, offset, limit)),
            SearchType::TopPicks => {
                let cat = "全部";
                let order = "hot";
                Some(SearchRequest::TopSongList(String::from_str(cat), String::from_str(order), offset, limit))
            },
            SearchType::AllAlbums => {
                let area = "ALL";
                Some(SearchRequest::NewAlbums(String::from_str(area), offset, limit))
            },
            SearchType::Radio => Some(SearchRequest::UserRadioSublist(offset, limit)),
            SearchType::LikeAlbums => Some(SearchRequest::AlbumSublist(offset, limit)),
            SearchType::LikeSongList => Some(SearchRequest::UserSongList(self.get_uid(), offset, limit)),
            _ => None,
        }
    }

    /// What a search gives once the service answered (`Some`) or failed or
    /// could not be asked (`None`): the results, with for songs whether the
    /// user likes each, or no results and a toast that the request failed.
    pub fn search_outcome(&self, search_type: SearchType, reply: Option<SearchReply>) -> (r: (Option<SearchResult>, Option<Action>))
        requires
            reply matches Some(rep) ==> reply_fits(search_type, rep),
        ensures
            page_kind_of(search_type) matches Some(k) ==> (r.0 matches Some(res) ==> result_kind(res) == k),
            match reply {
                None => r.0 is None && r.1 == Some(Action::AddToast(self.texts.request_failed)),
                Some(SearchReply::Songs(sis)) => r.1 is None && (r.0 matches Some(SearchResult::Songs(s, likes))
                    && s == sis && likes@ == likes_of(sis@, self.user_info.like_songs@)),
                Some(SearchReply::Singers(sgs)) => r.1 is None && r.0 == Some(SearchResult::Singers(sgs)),
                Some(SearchReply::SongLists(sls)) => r.1 is None && r.0 == Some(SearchResult::SongLists(sls)),
            },
    {
        match reply {
            None => (None, Some(Action::AddToast(self.texts.request_failed.clone()))),
            Some(SearchReply::Songs(sis)) => {
                let likes = self.get_song_likes(sis.as_slice());
                (Some(SearchResult::Songs(sis, likes)), None)
            },
            Some(SearchReply::Singers(sgs)) => (Some(SearchResult::Singers(sgs)), None),
            Some(SearchReply::SongLists(sls)) => (Some(SearchResult::SongLists(sls)), None),
        }
    }

    /// Text entered in the search entry: the header shows it and the back
    /// button; when the chosen search type has a result page, the page
    /// `page` is stacked under the name "search" with the text as title, and
    /// the search for the first 50 results is asked for.
    pub fn search_entry_cb(&mut self, text: &str, page: u64) -> (r: Option<(SearchPageKind, Action)>)
        ensures
            final(self).wf() == old(self).wf(),
            final(self).title@ == text@,
            final(self).back_visible,
            NeteaseCloudMusicGtk4Window::same_user(&*final(self), &*old(self)),
            NeteaseCloudMusicGtk4Window::same_overlay(&*final(self), &*old(self)),
            NeteaseCloudMusicGtk4Window::same_sidebar(&*final(self), &*old(self)),
            final(self).drawer_open == old(self).drawer_open,
            final(self).content_page == old(self).content_page,
            page_kind_of(old(self).search_type) is None ==> r is None && final(self).pages@ == old(self).pages@,
            page_kind_of(old(self).search_type) matches Some(kind) ==> {
                &&& r matches Some((k, Action::Search(t, st, offset, limit, done)))
                &&& k == kind && t@ == text@ && st == old(self).search_type && offset == 0 && limit == 50
                &&& done == SearchDone { page, kind }
                &&& final(self).pages@.drop_last() == without_name(old(self).pages@, "search"@)
                &&& final(self).pages@.len() > 0
                &&& is_page(final(self).pages@.last(), page, text@, "search"@)
            },
    {
        self.page_set_info(text);
        self.back_visible = true;
        let search_type = self.search_type;
        match search_page_kind(search_type) {
            None => None,
            Some(kind) => {
                let name = "search";
                self.page_new_with_name(name, page, text);
                Some((kind, Action::Search(String::from_str(text), search_type, 0, 50, SearchDone { page, kind })))
            },
        }
    }

    /// The results of a search, once the service has answered, go to the
    /// page that the completion names while that page is still stacked;
    /// a page taken away gets nothing.
    pub fn search_answered(&self, done: SearchDone, res: SearchResult) -> (r: Option<SearchResult>)
        requires
            result_kind(res) == done.kind,
        ensures
            r == (if is_stacked(self.pages@, done.page) { Some(res) } else { None }),
    {
        let n = self.pages.len();
        for i in 0..n
            invariant
                n == self.pages@.len(),
                forall|k: int| 0 <= k < i ==> #[trigger] self.pages@[k].widget != done.page,
        {
            if self.pages[i].widget == done.page {
                return Some(res);
            }
        }
        None
    }

    /// The song search is chosen.
    pub fn search_song_cb(&mut self)
        ensures
            final(self).search_type == SearchType::Song,
            NeteaseCloudMusicGtk4Window::same_user_but_search_type(&*final(self), &*old(self)),
            NeteaseCloudMusicGtk4Window::same_nav(&*final(self), &*old(self)),
            NeteaseCloudMusicGtk4Window::same_overlay(&*final(self), &*old(self)),
            NeteaseCloudMusicGtk4Window::same_sidebar(&*final(self), &*old(self)),
            final(self).drawer_open == old(self).drawer_open,
    {
        self.search_type = SearchType::Song;
    }

    /// The singer search is chosen.
    pub fn search_singer_cb(&mut self)
        ensures
            final(self).search_type == SearchType::Singer,
            NeteaseCloudMusicGtk4Window::same_user_but_search_type(&*final(self), &*old(self)),
            NeteaseCloudMusicGtk4Window::same_nav(&*final(self), &*old(self)),
            NeteaseCloudMusicGtk4Window::same_overlay(&*final(self), &*old(self)),
            NeteaseCloudMusicGtk4Window::same_sidebar(&*final(self), &*old(self)),
            final(self).drawer_open == old(self).drawer_open,
    {
        self.search_type = SearchType::Singer;
    }

    /// The album search is chosen.
    pub fn search_album_cb(&mut self)
        ensures
            final(self).search_type == SearchType::Album,
            NeteaseCloudMusicGtk4Window::same_user_but_search_type(&*final(self), &*old(self)),
            NeteaseCloudMusicGtk4Window::same_nav(&*final(self), &*old(self)),
            NeteaseCloudMusicGtk4Window::same_overlay(&*final(self), &*old(self)),
            NeteaseCloudMusicGtk4Window::same_sidebar(&*final(self), &*old(self)),
            final(self).drawer_open == old(self).drawer_open,
    {
        self.search_type = SearchType::Album;
    }

    /// The lyrics search is chosen.
    pub fn search_lyrics_cb(&mut self)
        ensures
            final(self).search_type == SearchType::Lyrics,
            NeteaseCloudMusicGtk4Window::same_user_but_search_type(&*final(self), &*old(self)),
            NeteaseCloudMusicGtk4Window::same_nav(&*final(self), &*old(self)),
            NeteaseCloudMusicGtk4Window::same_overlay(&*final(self), &*old(self)),
            NeteaseCloudMusicGtk4Window::same_sidebar(&*final(self), &*old(self)),
            final(self).drawer_open == old(self).drawer_open,
    {
        self.search_type = SearchType::Lyrics;
    }

    /// The play list search is chosen.
    pub fn search_songlist_cb(&mut self)
        ensures
            final(self).search_type == SearchType::SongList,
            NeteaseCloudMusicGtk4Window::same_user_but_search_type(&*final(self), &*old(self)),
            NeteaseCloudMusicGtk4Window::same_nav(&*final(self), &*old(self)),
            NeteaseCloudMusicGtk4Window::same_overlay(&*final(self), &*old(self)),
            NeteaseCloudMusicGtk4Window::same_sidebar(&*final(self), &*old(self)),
            final(self).drawer_open == old(self).drawer_open,
    {
        self.search_type = SearchType::SongList;
    }

    /// The title and search type of the page of all play lists.
    pub fn init_picks_songlist(&self) -> (r: (String, SearchType))
        ensures
            r.0@ == "全部歌单"@,
            r.1 == SearchType::TopPicks,
    {
        (String::from_str("全部歌单"), SearchType::TopPicks)
    }

    /// The title and search type of the page of all new albums.
    pub fn init_all_albums(&self) -> (r: (String, SearchType))
        ensures
            r.0@ == "全部新碟"@,
            r.1 == SearchType::AllAlbums,
    {
        (String::from_str("全部新碟"), SearchType::AllAlbums)
    }
}

} // verus!
