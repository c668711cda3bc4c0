//! The main window: who is logged in and which songs they like, the pages
//! stacked over the content, the play list drawer, the lyrics overlay and the
//! sidebar with the user's play lists.

use std::collections::HashSet;
use vstd::prelude::*;
use vstd::std_specs::hash::group_hash_axioms;

use crate::model::{LoginInfo, SearchType, SongInfo, SongList};
use crate::texts::Texts;
use crate::lyrics::overlay_texts;
use crate::pages::Page;

verus! {

broadcast use group_hash_axioms;

/// The user who is logged in: id (0 when nobody is), nickname and the ids of
/// the songs they like.
pub struct UserInfo {
    pub uid: u64,
    pub nickname: String,
    pub like_songs: HashSet<u64>,
}

impl UserInfo {
    /// Nobody logged in.
    pub fn new() -> (r: UserInfo)
        ensures
            r.uid == 0,
            r.nickname@ == Seq::<char>::empty(),
            r.like_songs@ == Set::<u64>::empty(),
    {
        UserInfo { uid: 0, nickname: String::new(), like_songs: HashSet::new() }
    }
}

/// For each song, whether its id is among the liked ones.
pub open spec fn likes_of(sis: Seq<SongInfo>, liked: Set<u64>) -> Seq<bool> {
    Seq::new(sis.len(), |i: int| liked.contains(sis[i].id))
}

/// The name shown for a logged-in user: VIP users get a crown before it.
pub open spec fn display_name(vip_type: i32, nickname: Seq<char>) -> Seq<char> {
    if vip_type == 0 {
        nickname
    } else {
        seq!['\u{1f451}'] + nickname
    }
}

/// The page that the content area shows under the stacked pages.
#[derive(PartialEq, Eq, Structural, Clone, Copy, Debug)]
pub enum ContentPage {
    Discover,
    Toplist,
}

/// A row of the navigation list of the sidebar.
#[derive(PartialEq, Eq, Structural, Clone, Copy, Debug)]
pub enum NavRow {
    Discover,
    Toplist,
    Other,
}

/// The selectable lists of the sidebar.
#[derive(PartialEq, Eq, Structural, Clone, Copy, Debug)]
pub enum SidebarList {
    Nav,
    My,
    Created,
    Collected,
}

/// The state of the main window.
pub struct NeteaseCloudMusicGtk4Window {
    pub texts: Texts,
    pub user_info: UserInfo,
    pub search_type: SearchType,
    /// The pages stacked over the content, the top one last.
    pub pages: Vec<Page>,
    /// The title in the header bar.
    pub title: String,
    pub back_visible: bool,
    pub content_page: ContentPage,
    /// Whether the play list drawer is open.
    pub drawer_open: bool,
    pub overlay_visible: bool,
    pub overlay_title: String,
    pub overlay_artist: String,
    /// The lyrics shown in the overlay: time stamp and text of each line.
    pub overlay_lyrics: Vec<(u64, String)>,
    /// The lines of the overlay, one label each.
    pub overlay_labels: Vec<String>,
    /// Whether the "my" section of the sidebar (label and list) is shown.
    pub my_section_visible: bool,
    pub created_expander_visible: bool,
    pub collected_expander_visible: bool,
    pub created_label: String,
    pub collected_label: String,
    pub created_playlists: Vec<SongList>,
    pub collected_playlists: Vec<SongList>,
    /// Once a row of the sidebar was activated, the list that it belongs
    /// to: the one list that may hold a selected row, the others holding
    /// none.
    pub selected_list: Option<SidebarList>,
}

impl NeteaseCloudMusicGtk4Window {
    /// A window with nobody logged in, no stacked page, the discover page
    /// shown, drawer and overlay closed and the "my" sidebar hidden.
    pub fn new(texts: Texts) -> (r: Self)
        ensures
            r.texts == texts,
            r.user_info.uid == 0,
            r.user_info.nickname@ == Seq::<char>::empty(),
            r.user_info.like_songs@ == Set::<u64>::empty(),
            r.search_type == SearchType::Song,
            r.pages@.len() == 0,
            r.title@ == texts.app_name@,
            !r.back_visible,
            r.content_page == ContentPage::Discover,
            !r.drawer_open,
            !r.overlay_visible,
            r.overlay_lyrics@.len() == 0,
            r.overlay_labels@.len() == 0,
            !r.my_section_visible,
            !r.created_expander_visible,
            !r.collected_expander_visible,
            r.created_playlists@.len() == 0,
            r.collected_playlists@.len() == 0,
            r.selected_list is None,
            r.wf(),
    {
        let title = texts.app_name.clone();
        NeteaseCloudMusicGtk4Window {
            texts,
            user_info: UserInfo::new(),
            search_type: SearchType::Song,
            pages: Vec::new(),
            title,
            back_visible: false,
            content_page: ContentPage::Discover,
            drawer_open: false,
            overlay_visible: false,
            overlay_title: String::new(),
            overlay_artist: String::new(),
            overlay_lyrics: Vec::new(),
            overlay_labels: Vec::new(),
            my_section_visible: false,
            created_expander_visible: false,
            collected_expander_visible: false,
            created_label: String::new(),
            collected_label: String::new(),
            created_playlists: Vec::new(),
            collected_playlists: Vec::new(),
            selected_list: None,
        }
    }

    /// Texts, user and search type are the same in both.
    pub open spec fn same_user(a: &Self, b: &Self) -> bool {
        &&& a.texts == b.texts
        &&& a.user_info.uid == b.user_info.uid
        &&& a.user_info.nickname == b.user_info.nickname
        &&& a.user_info.like_songs@ == b.user_info.like_songs@
        &&& a.search_type == b.search_type
    }

    /// Texts and user are the same in both.
    pub open spec fn same_user_but_search_type(a: &Self, b: &Self) -> bool {
        &&& a.texts == b.texts
        &&& a.user_info.uid == b.user_info.uid
        &&& a.user_info.nickname == b.user_info.nickname
        &&& a.user_info.like_songs@ == b.user_info.like_songs@
    }

    /// Stacked pages, header and content page are the same in both.
    pub open spec fn same_nav(a: &Self, b: &Self) -> bool {
        &&& a.pages@ == b.pages@
        &&& a.title == b.title
        &&& a.back_visible == b.back_visible
        &&& a.content_page == b.content_page
    }

    /// The lyrics overlay is the same in both.
    pub open spec fn same_overlay(a: &Self, b: &Self) -> bool {
        &&& a.overlay_visible == b.overlay_visible
        &&& a.overlay_title == b.overlay_title
        &&& a.overlay_artist == b.overlay_artist
        &&& a.overlay_lyrics@ == b.overlay_lyrics@
        &&& a.overlay_labels@ == b.overlay_labels@
    }

    /// The sidebar is the same in both, its selection included.
    pub open spec fn same_sidebar(a: &Self, b: &Self) -> bool {
        &&& Self::same_sidebar_lists(a, b)
        &&& a.selected_list == b.selected_list
    }

    /// The sidebar shows the same in both, but for which list holds a
    /// selection.
    pub open spec fn same_sidebar_lists(a: &Self, b: &Self) -> bool {
        &&& a.my_section_visible == b.my_section_visible
        &&& a.created_expander_visible == b.created_expander_visible
        &&& a.collected_expander_visible == b.collected_expander_visible
        &&& a.created_label == b.created_label
        &&& a.collected_label == b.collected_label
        &&& a.created_playlists@ == b.created_playlists@
        &&& a.collected_playlists@ == b.collected_playlists@
    }

    /// Only the user differs between the two.
    pub open spec fn only_user_changed(a: &Self, b: &Self) -> bool {
        &&& a.texts == b.texts
        &&& a.search_type == b.search_type
        &&& Self::same_nav(a, b)
        &&& Self::same_overlay(a, b)
        &&& Self::same_sidebar(a, b)
        &&& a.drawer_open == b.drawer_open
    }

    /// The overlay labels are those of the overlay lyrics (or both are empty).
    pub open spec fn wf(&self) -> bool {
        ||| self.overlay_labels@.map_values(|s: String| s@) == overlay_texts(self.overlay_lyrics@)
        ||| (self.overlay_lyrics@.len() == 0 && self.overlay_labels@.len() == 0)
    }

    /// Whether the user likes the song with this id.
    pub fn user_like_song_contains(&self, id: &u64) -> (r: bool)
        ensures
            r == self.user_info.like_songs@.contains(*id),
    {
        self.user_info.like_songs.contains(id)
    }

    /// The user now likes the song with this id.
    pub fn user_like_song_add(&mut self, id: u64)
        ensures
            final(self).user_info.like_songs@ == old(self).user_info.like_songs@.insert(id),
            final(self).user_info.uid == old(self).user_info.uid,
            final(self).user_info.nickname == old(self).user_info.nickname,
            Self::only_user_changed(&*final(self), &*old(self)),
    {
        self.user_info.like_songs.insert(id);
    }

    /// The user no longer likes the song with this id.
    pub fn user_like_song_remove(&mut self, id: &u64)
        ensures
            final(self).user_info.like_songs@ == old(self).user_info.like_songs@.remove(*id),
            final(self).user_info.uid == old(self).user_info.uid,
            final(self).user_info.nickname == old(self).user_info.nickname,
            Self::only_user_changed(&*final(self), &*old(self)),
    {
        self.user_info.like_songs.remove(id);
    }

    /// Forgets the user: no id, no nickname, no liked songs.
    pub fn clear_user_info(&mut self)
        ensures
            final(self).user_info.uid == 0,
            final(self).user_info.nickname@ == Seq::<char>::empty(),
            final(self).user_info.like_songs@ == Set::<u64>::empty(),
            Self::only_user_changed(&*final(self), &*old(self)),
    {
        self.user_info = UserInfo::new();
    }

    /// Sets the nickname of the user.
    pub fn set_nickname(&mut self, nickname: String)
        ensures
            final(self).user_info.nickname == nickname,
            final(self).user_info.uid == old(self).user_info.uid,
            final(self).user_info.like_songs@ == old(self).user_info.like_songs@,
            Self::only_user_changed(&*final(self), &*old(self)),
    {
        self.user_info.nickname = nickname;
    }

    /// The nickname of the user.
    pub fn get_nickname(&self) -> (r: String)
        ensures
            r == self.user_info.nickname,
    {
        self.user_info.nickname.clone()
    }

    /// The id of the user (0 when nobody is logged in).
    pub fn get_uid(&self) -> (r: u64)
        ensures
            r == self.user_info.uid,
    {
        self.user_info.uid
    }

    /// Sets the id of the user.
    pub fn set_uid(&mut self, val: u64)
        ensures
            final(self).user_info.uid == val,
            final(self).user_info.nickname == old(self).user_info.nickname,
            final(self).user_info.like_songs@ == old(self).user_info.like_songs@,
            Self::only_user_changed(&*final(self), &*old(self)),
    {
        self.user_info.uid = val;
    }

    /// Whether somebody is logged in.
    pub fn is_logined(&self) -> (r: bool)
        ensures
            r == (self.user_info.uid != 0),
    {
        self.get_uid() != 0
    }

    /// Logs the user out.
    pub fn logout(&mut self)
        ensures
            final(self).user_info.uid == 0,
            final(self).user_info.nickname@ == Seq::<char>::empty(),
            final(self).user_info.like_songs@ == Set::<u64>::empty(),
            Self::only_user_changed(&*final(self), &*old(self)),
    {
        self.clear_user_info();
    }

    /// For each song, whether the user likes it.
    pub fn get_song_likes(&self, sis: &[SongInfo]) -> (r: Vec<bool>)
        ensures
            r@ == likes_of(sis@, self.user_info.like_songs@),
    {
        let mut r: Vec<bool> = Vec::new();
        let n = sis.len();
        for i in 0..n
            invariant
                n == sis@.len(),
                r@.len() == i,
                forall|j: int| 0 <= j < i ==> r@[j] == self.user_info.like_songs@.contains(sis@[j].id),
        {
            r.push(self.user_like_song_contains(&sis[i].id));
        }
        r
    }

    /// Records that the user likes (`val`) or no longer likes the song with
    /// this id. Returns whether the song that is playing, if any (by its id),
    /// is that song, so that its like button is set to `val` too.
    pub fn set_like_song(&mut self, id: u64, val: bool, current_song: Option<u64>) -> (r: bool)
        ensures
            r == (current_song == Some(id)),
            val ==> final(self).user_info.like_songs@ == old(self).user_info.like_songs@.insert(id),
            !val ==> final(self).user_info.like_songs@ == old(self).user_info.like_songs@.remove(id),
            final(self).user_info.uid == old(self).user_info.uid,
            final(self).user_info.nickname == old(self).user_info.nickname,
            Self::only_user_changed(&*final(self), &*old(self)),
    {
        let same = match current_song {
            Some(cur) => cur == id,
            None => false,
        };
        if val {
            self.user_like_song_add(id);
        } else {
            self.user_like_song_remove(&id);
        }
        same
    }

    /// The user likes every song with one of these ids (besides those liked before).
    pub fn set_user_like_songs(&mut self, song_ids: &[u64])
        ensures
            final(self).user_info.like_songs@ == old(self).user_info.like_songs@.union(song_ids@.to_set()),
            final(self).user_info.uid == old(self).user_info.uid,
            final(self).user_info.nickname == old(self).user_info.nickname,
            Self::only_user_changed(&*final(self), &*old(self)),
    {
        let n = song_ids.len();
        for i in 0..n
            invariant
                n == song_ids@.len(),
                self.user_info.like_songs@ == old(self).user_info.like_songs@.union(song_ids@.take(i as int).to_set()),
                self.user_info.uid == old(self).user_info.uid,
                self.user_info.nickname == old(self).user_info.nickname,
                Self::only_user_changed(&*self, &*old(self)),
        {
            proof {
                assert(song_ids@.take(i + 1) == song_ids@.take(i as int).push(song_ids@[i as int]));
                song_ids@.take(i as int).lemma_push_to_set_commute(song_ids@[i as int]);
            }
            self.user_like_song_add(song_ids[i]);
        }
        proof {
            assert(song_ids@.take(n as int) == song_ids@);
        }
    }

    /// Whether the song about to play is liked, which its like button shows.
    pub fn play(&self, song_info: &SongInfo) -> (r: bool)
        ensures
            r == self.user_info.like_songs@.contains(song_info.id),
    {
        self.user_like_song_contains(&song_info.id)
    }

    /// The name that the user menu shows for a logged-in user.
    pub fn switch_user_menu_to_user(&self, login_info: &LoginInfo) -> (r: String)
        ensures
            r@ == display_name(login_info.vip_type, login_info.nickname@),
    {
        if login_info.vip_type == 0 {
            login_info.nickname.clone()
        } else {
            let crown = "\u{1f451}";
            proof { reveal_strlit("\u{1f451}"); }
            let mut s = String::from_str(crown);
            s.append(login_info.nickname.as_str());
            s
        }
    }
}

} // verus!
