//! The pages stacked over the content of the main window, and the header
//! bar that shows their title and the back button.

use vstd::prelude::*;

use crate::text::same_text;
use crate::texts::Texts;
use crate::window::{ContentPage, NavRow, NeteaseCloudMusicGtk4Window, SidebarList};

verus! {

/// A page stacked over the content: the widget (by the handle that the
/// caller gave it), its title and its name.
pub struct Page {
    pub widget: u64,
    pub title: String,
    pub name: Option<String>,
}

impl Page {
    /// A copy of the page.
    pub fn duplicate(&self) -> (r: Page)
        ensures
            r == *self,
    {
        Page {
            widget: self.widget,
            title: self.title.clone(),
            name: match &self.name {
                Some(n) => Some(n.clone()),
                None => None,
            },
        }
    }
}

/// Whether the page has this name.
pub open spec fn has_name(p: Page, name: Seq<char>) -> bool {
    p.name matches Some(n) && n@ == name
}

/// Whether the page is this widget with this title and name.
pub open spec fn is_page(p: Page, widget: u64, title: Seq<char>, name: Seq<char>) -> bool {
    p.widget == widget && p.title@ == title && has_name(p, name)
}

/// The pages without those of this name, in order.
pub open spec fn without_name(pages: Seq<Page>, name: Seq<char>) -> Seq<Page>
    decreases pages.len(),
{
    if pages.len() == 0 {
        pages
    } else {
        let prev = without_name(pages.drop_last(), name);
        if has_name(pages.last(), name) {
            prev
        } else {
            prev.push(pages.last())
        }
    }
}

/// Opening a page with this title and name would repeat the top page: same
/// title, and the same name or none.
pub open spec fn repeats_top(pages: Seq<Page>, title: Seq<char>, name: Seq<char>) -> bool {
    &&& pages.len() > 0
    &&& pages.last().title@ == title
    &&& (pages.last().name matches Some(n) ==> n@ == name)
}

/// The title of the content page when no page is stacked over it.
pub open spec fn root_title(content: ContentPage, texts: Texts) -> Seq<char> {
    match content {
        ContentPage::Discover => texts.app_name@,
        ContentPage::Toplist => texts.toplist@,
    }
}

impl NeteaseCloudMusicGtk4Window {
    /// `after` is `before` with the page `page` stacked with this title and
    /// name (`pushed`), unless that would repeat the top page, when nothing
    /// changes. A stacked page's title shows in the header, with the back
    /// button.
    pub open spec fn page_new_done(before: Self, after: Self, page: u64, title: Seq<char>, name: Seq<char>, pushed: bool) -> bool {
        &&& pushed == !repeats_top(before.pages@, title, name)
        &&& after.wf() == before.wf()
        &&& !pushed ==> after == before
        &&& pushed ==> {
            &&& after.pages@.drop_last() == before.pages@
            &&& after.pages@.len() == before.pages@.len() + 1
            &&& is_page(after.pages@.last(), page, title, name)
            &&& after.title@ == title
            &&& after.back_visible
            &&& after.content_page == before.content_page
            &&& Self::same_user(&after, &before)
            &&& Self::same_overlay(&after, &before)
            &&& Self::same_sidebar(&after, &before)
            &&& after.drawer_open == before.drawer_open
        }
    }

    /// `after` is `before` with its top page taken away, if it had one. The
    /// header shows the title of the new top page and the back button, or,
    /// with no page left, the title of the content page and no back button.
    pub open spec fn page_back_done(before: Self, after: Self) -> bool {
        &&& after.wf() == before.wf()
        &&& after.pages@ == (if before.pages@.len() > 0 {
            before.pages@.drop_last()
        } else {
            before.pages@
        })
        &&& after.pages@.len() > 0 ==> after.back_visible && after.title@ == after.pages@.last().title@
        &&& after.pages@.len() == 0 ==> !after.back_visible
            && after.title@ == root_title(before.content_page, before.texts)
        &&& Self::same_user(&after, &before)
        &&& Self::same_overlay(&after, &before)
        &&& Self::same_sidebar(&after, &before)
        &&& after.drawer_open == before.drawer_open
        &&& after.content_page == before.content_page
    }

    /// Shows the back button or hides it.
    fn page_widget_switch(&mut self, need_back: bool)
        ensures
            final(self).back_visible == need_back,
            final(self).title == old(self).title,
            final(self).pages@ == old(self).pages@,
            NeteaseCloudMusicGtk4Window::same_user(&*final(self), &*old(self)),
            NeteaseCloudMusicGtk4Window::same_overlay(&*final(self), &*old(self)),
            NeteaseCloudMusicGtk4Window::same_sidebar(&*final(self), &*old(self)),
            final(self).drawer_open == old(self).drawer_open,
            final(self).content_page == old(self).content_page,
    {
        self.back_visible = need_back;
    }

    /// Sets the title of the header bar.
    pub fn page_set_info(&mut self, title: &str)
        ensures
            final(self).title@ == title@,
            final(self).back_visible == old(self).back_visible,
            final(self).pages@ == old(self).pages@,
            NeteaseCloudMusicGtk4Window::same_user(&*final(self), &*old(self)),
            NeteaseCloudMusicGtk4Window::same_overlay(&*final(self), &*old(self)),
            NeteaseCloudMusicGtk4Window::same_sidebar(&*final(self), &*old(self)),
            final(self).drawer_open == old(self).drawer_open,
            final(self).content_page == old(self).content_page,
    {
        self.title = String::from_str(title);
    }

    /// Stacks the page `page` named `name` with this title, after taking
    /// away any stacked page of that name; the header shows the title and the
    /// back button.
    pub fn page_new_with_name(&mut self, name: &str, page: u64, title: &str)
        ensures
            final(self).wf() == old(self).wf(),
            final(self).pages@.drop_last() == without_name(old(self).pages@, name@),
            final(self).pages@.len() > 0,
            is_page(final(self).pages@.last(), page, title@, name@),
            final(self).title@ == title@,
            final(self).back_visible,
            NeteaseCloudMusicGtk4Window::same_user(&*final(self), &*old(self)),
            NeteaseCloudMusicGtk4Window::same_overlay(&*final(self), &*old(self)),
            NeteaseCloudMusicGtk4Window::same_sidebar(&*final(self), &*old(self)),
            final(self).drawer_open == old(self).drawer_open,
            final(self).content_page == old(self).content_page,
    {
        let mut kept: Vec<Page> = Vec::new();
        let n = self.pages.len();
        for i in 0..n
            invariant
                n == self.pages@.len(),
                kept@ == without_name(self.pages@.take(i as int), name@),
        {
            let p = &self.pages[i];
            let same = match &p.name {
                Some(pn) => same_text(pn.as_str(), name),
                None => false,
            };
            proof {
                assert(self.pages@.take(i + 1).drop_last() == self.pages@.take(i as int));
                assert(self.pages@.take(i + 1).last() == self.pages@[i as int]);
            }
            if !same {
                kept.push(p.duplicate());
            }
        }
        proof {
            assert(self.pages@.take(n as int) == self.pages@);
        }
        kept.push(Page { widget: page, title: String::from_str(title), name: Some(String::from_str(name)) });
        proof {
            assert(kept@.drop_last() == without_name(old(self).pages@, name@));
        }
        self.pages = kept;
        self.page_set_info(title);
        self.page_widget_switch(true);
    }

    /// Stacks the page `page` with this title and name, unless it would
    /// repeat the top page; returns whether it did. When it does, the header
    /// shows the title and the back button.
    pub fn page_new(&mut self, page: u64, title: &str, name: &str) -> (pushed: bool)
        ensures
            NeteaseCloudMusicGtk4Window::page_new_done(*old(self), *final(self), page, title@, name@, pushed),
    {
        let len = self.pages.len();
        if len > 0 {
            let top = &self.pages[len - 1];
            if same_text(top.title.as_str(), title) {
                match &top.name {
                    Some(n) => {
                        if same_text(n.as_str(), name) {
                            return false;
                        }
                    },
                    None => {
                        return false;
                    },
                }
            }
        }
        self.pages.push(Page { widget: page, title: String::from_str(title), name: Some(String::from_str(name)) });
        self.page_set_info(title);
        self.page_widget_switch(true);
        proof {
            assert(self.pages@.drop_last() == old(self).pages@);
        }
        true
    }

    /// Takes the top page away, if any. The header then shows the title of
    /// the new top page and the back button, or, with no page left, the
    /// title of the content page and no back button. Returns no widget.
    pub fn page_back(&mut self) -> (r: Option<u64>)
        ensures
            r is None,
            NeteaseCloudMusicGtk4Window::page_back_done(*old(self), *final(self)),
    {
        if self.pages.len() > 0 {
            self.pages.pop();
        }
        let len = self.pages.len();
        if len > 0 {
            let t = self.pages[len - 1].title.clone();
            self.page_set_info(t.as_str());
            self.page_widget_switch(true);
        } else {
            self.page_widget_switch(false);
            match self.content_page {
                ContentPage::Discover => {
                    let t = self.texts.app_name.clone();
                    self.page_set_info(t.as_str());
                },
                ContentPage::Toplist => {
                    let t = self.texts.toplist.clone();
                    self.page_set_info(t.as_str());
                },
            }
        }
        None
    }

    /// A row of the navigation list was activated: every stacked page is
    /// taken away, the back button hidden, and the discover or toplist page
    /// shown with its title.
    pub fn nav_row_activated_cb(&mut self, row: NavRow)
        ensures
            final(self).wf() == old(self).wf(),
            final(self).selected_list == Some(SidebarList::Nav),
            final(self).pages@.len() == 0,
            !final(self).back_visible,
            row == NavRow::Discover ==> final(self).content_page == ContentPage::Discover
                && final(self).title@ == old(self).texts.app_name@,
            row == NavRow::Toplist ==> final(self).content_page == ContentPage::Toplist
                && final(self).title@ == old(self).texts.toplist@,
            row == NavRow::Other ==> final(self).content_page == old(self).content_page
                && final(self).title == old(self).title,
            NeteaseCloudMusicGtk4Window::same_user(&*final(self), &*old(self)),
            NeteaseCloudMusicGtk4Window::same_overlay(&*final(self), &*old(self)),
            NeteaseCloudMusicGtk4Window::same_sidebar_lists(&*final(self), &*old(self)),
            final(self).drawer_open == old(self).drawer_open,
    {
        self.select_only(SidebarList::Nav);
        while self.pages.len() > 0
            invariant
                self.selected_list == Some(SidebarList::Nav),
                NeteaseCloudMusicGtk4Window::same_user(&*self, &*old(self)),
                NeteaseCloudMusicGtk4Window::same_overlay(&*self, &*old(self)),
                NeteaseCloudMusicGtk4Window::same_sidebar_lists(&*self, &*old(self)),
                self.title == old(self).title,
                self.content_page == old(self).content_page,
                self.drawer_open == old(self).drawer_open,
            decreases self.pages@.len(),
        {
            self.pages.pop();
        }
        self.page_widget_switch(false);
        match row {
            NavRow::Discover => {
                self.content_page = ContentPage::Discover;
                let t = self.texts.app_name.clone();
                self.page_set_info(t.as_str());
            },
            NavRow::Toplist => {
                self.content_page = ContentPage::Toplist;
                let t = self.texts.toplist.clone();
                self.page_set_info(t.as_str());
            },
            NavRow::Other => {},
        }
    }

    /// Whether the lyrics of the play list and lyrics page `lyrics_page`
    /// follow the playing time: only while it is the top page.
    pub fn update_lyrics_timestamp(&self, lyrics_page: u64) -> (r: bool)
        ensures
            r == (self.pages@.len() > 0 && self.pages@.last().widget == lyrics_page),
    {
        self.page_cur_playlist_lyrics_page(lyrics_page)
    }

    /// Whether the play list and lyrics page `lyrics_page` marks the song
    /// that plays now: only while it is the top page.
    pub fn update_playlist_status(&self, lyrics_page: u64) -> (r: bool)
        ensures
            r == (self.pages@.len() > 0 && self.pages@.last().widget == lyrics_page),
    {
        self.page_cur_playlist_lyrics_page(lyrics_page)
    }

    /// Whether the top page is the play list and lyrics page `lyrics_page`.
    pub fn page_cur_playlist_lyrics_page(&self, lyrics_page: u64) -> (r: bool)
        ensures
            r == (self.pages@.len() > 0 && self.pages@.last().widget == lyrics_page),
    {
        let len = self.pages.len();
        len > 0 && self.pages[len - 1].widget == lyrics_page
    }
}

} // verus!
