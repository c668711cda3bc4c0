//! The sidebar of the main window: navigation, the "my" section and the
//! play lists that the user created or collected.

use vstd::prelude::*;

use crate::model::{Action, CoverSource, SongList};
use crate::text::{decimal, decimal_string};
use crate::window::{NeteaseCloudMusicGtk4Window, SidebarList};

verus! {

/// The label of the expander of created play lists, with their number.
pub open spec fn created_label_text(n: nat) -> Seq<char> {
    "创建的歌单 ("@ + decimal(n) + ")"@
}

/// The label of the expander of collected play lists, with their number.
pub open spec fn collected_label_text(n: nat) -> Seq<char> {
    "收藏的歌单 ("@ + decimal(n) + ")"@
}

/// The name of the cached cover of a play list.
pub open spec fn songlist_cover_name(id: u64) -> Seq<char> {
    decimal(id as nat) + "-songlist.jpg"@
}

/// The name of the cached cover of the play list with this id.
pub fn songlist_cover_file(id: u64) -> (r: String)
    ensures
        r@ == songlist_cover_name(id),
{
    let mut s = decimal_string(id);
    s.append("-songlist.jpg");
    s
}

/// The cover of a play list row: the cached picture when there is one
/// (`cached`), else the picture fetched from the play list's address.
pub fn create_playlist_row(sl: &SongList, cached: bool) -> (r: CoverSource)
    ensures
        cached ==> (r matches CoverSource::Cached(f) && f@ == songlist_cover_name(sl.id)),
        !cached ==> (r matches CoverSource::Download(url, f, w, h)
            && url == sl.cover_img_url && f@ == songlist_cover_name(sl.id) && w == 140 && h == 140),
{
    let file = songlist_cover_file(sl.id);
    if !cached {
        CoverSource::Download(sl.cover_img_url.clone(), file, 140, 140)
    } else {
        CoverSource::Cached(file)
    }
}

/// Whether a list is another one than `except`.
pub open spec fn is_other(except: SidebarList) -> spec_fn(SidebarList) -> bool {
    |l: SidebarList| l != except
}

/// All the lists of the sidebar, in order.
pub open spec fn all_lists() -> Seq<SidebarList> {
    seq![SidebarList::Nav, SidebarList::My, SidebarList::Created, SidebarList::Collected]
}

/// All the lists of the sidebar but `except`, in order.
pub open spec fn other_lists(except: SidebarList) -> Seq<SidebarList> {
    all_lists().filter(is_other(except))
}

/// `after` is `before` with a row of `list` activated: every other list of
/// the sidebar loses its selection, and nothing else changes.
pub open spec fn selected_only(before: NeteaseCloudMusicGtk4Window, after: NeteaseCloudMusicGtk4Window, list: SidebarList) -> bool {
    after == (NeteaseCloudMusicGtk4Window { selected_list: Some(list), ..before })
}

/// The lists of the sidebar that lose their selection when a row of
/// `except` is activated: all the others, in order.
pub fn unselect_other_listboxes(except: SidebarList) -> (r: Vec<SidebarList>)
    ensures
        r@ == other_lists(except),
{
    let all = [SidebarList::Nav, SidebarList::My, SidebarList::Created, SidebarList::Collected];
    let mut r: Vec<SidebarList> = Vec::new();
    let ghost full = all_lists();
    for i in 0..4
        invariant
            all@ == full,
            full == all_lists(),
            r@ == full.take(i as int).filter(is_other(except)),
    {
        proof {
            full.take(i as int).lemma_filter_push(full[i as int], is_other(except));
            assert(full.take(i + 1) == full.take(i as int).push(full[i as int]));
        }
        if all[i] != except {
            r.push(all[i]);
        }
    }
    proof {
        assert(full.take(4) == full);
    }
    r
}

impl NeteaseCloudMusicGtk4Window {
    /// A row of `list` was activated: the other lists lose their selection.
    pub fn select_only(&mut self, list: SidebarList)
        ensures
            selected_only(*old(self), *final(self), list),
    {
        self.selected_list = Some(list);
    }

    /// A user logged in: the "my" section and the created play lists show.
    pub fn show_my_sidebar(&mut self)
        ensures
            final(self).my_section_visible,
            final(self).created_expander_visible,
            final(self).collected_expander_visible == old(self).collected_expander_visible,
            final(self).created_label == old(self).created_label,
            final(self).collected_label == old(self).collected_label,
            final(self).created_playlists@ == old(self).created_playlists@,
            final(self).collected_playlists@ == old(self).collected_playlists@,
            NeteaseCloudMusicGtk4Window::same_user(&*final(self), &*old(self)),
            NeteaseCloudMusicGtk4Window::same_nav(&*final(self), &*old(self)),
            NeteaseCloudMusicGtk4Window::same_overlay(&*final(self), &*old(self)),
            final(self).drawer_open == old(self).drawer_open,
            final(self).selected_list == old(self).selected_list,
    {
        self.my_section_visible = true;
        self.created_expander_visible = true;
    }

    /// The user logged out: the "my" section and both play list expanders
    /// hide, and the play lists are forgotten.
    pub fn hide_my_sidebar(&mut self)
        ensures
            !final(self).my_section_visible,
            !final(self).created_expander_visible,
            !final(self).collected_expander_visible,
            final(self).created_playlists@.len() == 0,
            final(self).collected_playlists@.len() == 0,
            final(self).created_label == old(self).created_label,
            final(self).collected_label == old(self).collected_label,
            NeteaseCloudMusicGtk4Window::same_user(&*final(self), &*old(self)),
            NeteaseCloudMusicGtk4Window::same_nav(&*final(self), &*old(self)),
            NeteaseCloudMusicGtk4Window::same_overlay(&*final(self), &*old(self)),
            final(self).drawer_open == old(self).drawer_open,
            final(self).selected_list == old(self).selected_list,
    {
        self.my_section_visible = false;
        self.created_expander_visible = false;
        self.collected_expander_visible = false;
        self.created_playlists.clear();
        self.collected_playlists.clear();
    }

    /// The user's play lists: all but the first one count as created, and
    /// there are no collected ones.
    pub fn init_sidebar_playlists(&mut self, sls: Vec<SongList>)
        ensures
            final(self).created_playlists@ == (if sls@.len() > 0 { sls@.drop_first() } else { sls@ }),
            final(self).collected_playlists@.len() == 0,
            final(self).created_label@ == created_label_text(final(self).created_playlists@.len()),
            final(self).collected_label@ == collected_label_text(0),
            !final(self).collected_expander_visible,
            final(self).my_section_visible == old(self).my_section_visible,
            final(self).created_expander_visible == old(self).created_expander_visible,
            NeteaseCloudMusicGtk4Window::same_user(&*final(self), &*old(self)),
            NeteaseCloudMusicGtk4Window::same_nav(&*final(self), &*old(self)),
            NeteaseCloudMusicGtk4Window::same_overlay(&*final(self), &*old(self)),
            final(self).drawer_open == old(self).drawer_open,
            final(self).selected_list == old(self).selected_list,
    {
        let mut created = sls;
        if created.len() > 0 {
            created.remove(0);
        }
        self.init_sidebar_playlists_split(created, Vec::new());
    }

    /// The play lists that the user created and collected: the expanders
    /// show their numbers, and that of collected ones shows only when there
    /// are some.
    pub fn init_sidebar_playlists_split(&mut self, created: Vec<SongList>, collected: Vec<SongList>)
        ensures
            final(self).created_playlists@ == created@,
            final(self).collected_playlists@ == collected@,
            final(self).created_label@ == created_label_text(created@.len()),
            final(self).collected_label@ == collected_label_text(collected@.len()),
            final(self).collected_expander_visible == (collected@.len() != 0),
            final(self).my_section_visible == old(self).my_section_visible,
            final(self).created_expander_visible == old(self).created_expander_visible,
            NeteaseCloudMusicGtk4Window::same_user(&*final(self), &*old(self)),
            NeteaseCloudMusicGtk4Window::same_nav(&*final(self), &*old(self)),
            NeteaseCloudMusicGtk4Window::same_overlay(&*final(self), &*old(self)),
            final(self).drawer_open == old(self).drawer_open,
            final(self).selected_list == old(self).selected_list,
    {
        let mut created_label = String::from_str("创建的歌单 (");
        created_label.append(decimal_string(created.len() as u64).as_str());
        created_label.append(")");
        let mut collected_label = String::from_str("收藏的歌单 (");
        collected_label.append(decimal_string(collected.len() as u64).as_str());
        collected_label.append(")");
        self.created_label = created_label;
        self.collected_label = collected_label;
        self.collected_expander_visible = collected.len() != 0;
        self.created_playlists = created;
        self.collected_playlists = collected;
    }

    /// Row `index` of the created play lists was activated: the other
    /// lists lose their selection, and the play list's page opens, when
    /// there is such a play list.
    pub fn created_playlist_row_activated_cb(&mut self, index: i32) -> (r: Option<Action>)
        ensures
            selected_only(*old(self), *final(self), SidebarList::Created),
            0 <= index < old(self).created_playlists@.len() ==> r == Some(
                Action::ToSongListPage(old(self).created_playlists@[index as int]),
            ),
            !(0 <= index < old(self).created_playlists@.len()) ==> r is None,
    {
        self.select_only(SidebarList::Created);
        if index >= 0 && (index as usize) < self.created_playlists.len() {
            Some(Action::ToSongListPage(self.created_playlists[index as usize].duplicate()))
        } else {
            None
        }
    }

    /// Row `index` of the collected play lists was activated: the other
    /// lists lose their selection, and the play list's page opens, when
    /// there is such a play list.
    pub fn collected_playlist_row_activated_cb(&mut self, index: i32) -> (r: Option<Action>)
        ensures
            selected_only(*old(self), *final(self), SidebarList::Collected),
            0 <= index < old(self).collected_playlists@.len() ==> r == Some(
                Action::ToSongListPage(old(self).collected_playlists@[index as int]),
            ),
            !(0 <= index < old(self).collected_playlists@.len()) ==> r is None,
    {
        self.select_only(SidebarList::Collected);
        if index >= 0 && (index as usize) < self.collected_playlists.len() {
            Some(Action::ToSongListPage(self.collected_playlists[index as usize].duplicate()))
        } else {
            None
        }
    }

    /// Row `index` of the "my" list was activated: the other lists lose
    /// their selection, and the page opens of daily recommendations,
    /// heartbeat mode, radio, cloud disk or albums, in that order.
    pub fn my_row_activated_cb(&mut self, index: i32) -> (r: Option<Action>)
        ensures
            selected_only(*old(self), *final(self), SidebarList::My),
            index == 0 ==> r == Some(Action::ToMyPageDailyRec),
            index == 1 ==> r == Some(Action::ToMyPageHeartbeat),
            index == 2 ==> r == Some(Action::ToMyPageRadio),
            index == 3 ==> r == Some(Action::ToMyPageCloudDisk),
            index == 4 ==> r == Some(Action::ToMyPageAlbums),
            !(0 <= index <= 4) ==> r is None,
    {
        self.select_only(SidebarList::My);
        if index == 0 {
            Some(Action::ToMyPageDailyRec)
        } else if index == 1 {
            Some(Action::ToMyPageHeartbeat)
        } else if index == 2 {
            Some(Action::ToMyPageRadio)
        } else if index == 3 {
            Some(Action::ToMyPageCloudDisk)
        } else if index == 4 {
            Some(Action::ToMyPageAlbums)
        } else {
            None
        }
    }
}

} // verus!
