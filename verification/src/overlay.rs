//! The lyrics overlay of the main window.

use vstd::prelude::*;

use crate::lyrics::{active_from, highlight_labels, is_blank, label_index, lyric_to_label, overlay_lines, overlay_texts};
use crate::model::SongInfo;
use crate::window::NeteaseCloudMusicGtk4Window;

verus! {

/// What the lyrics overlay highlights: every label is shown plain except
/// the `active` ones, and the view scrolls to `scroll_to` when it is set.
pub struct Highlight {
    pub active: Vec<usize>,
    pub scroll_to: Option<usize>,
}

impl NeteaseCloudMusicGtk4Window {
    /// Opens the lyrics overlay for this song with these lyrics.
    pub fn show_lyrics_overlay(&mut self, si: &SongInfo, lyrics: Vec<(u64, String)>)
        ensures
            final(self).overlay_visible,
            final(self).overlay_title == si.name,
            final(self).overlay_artist == si.singer,
            final(self).overlay_lyrics@ == lyrics@,
            final(self).overlay_labels@.map_values(|s: String| s@) == overlay_texts(lyrics@),
            final(self).wf(),
            NeteaseCloudMusicGtk4Window::same_user(&*final(self), &*old(self)),
            NeteaseCloudMusicGtk4Window::same_nav(&*final(self), &*old(self)),
            NeteaseCloudMusicGtk4Window::same_sidebar(&*final(self), &*old(self)),
            final(self).drawer_open == old(self).drawer_open,
    {
        self.overlay_title = si.name.clone();
        self.overlay_artist = si.singer.clone();
        self.overlay_labels = overlay_lines(&lyrics);
        self.overlay_lyrics = lyrics;
        self.overlay_visible = true;
    }

    /// Closes the lyrics overlay.
    pub fn hide_lyrics_overlay(&mut self)
        ensures
            !final(self).overlay_visible,
            final(self).overlay_lyrics@ == old(self).overlay_lyrics@,
            final(self).overlay_labels@ == old(self).overlay_labels@,
            final(self).overlay_title == old(self).overlay_title,
            final(self).overlay_artist == old(self).overlay_artist,
            NeteaseCloudMusicGtk4Window::same_user(&*final(self), &*old(self)),
            NeteaseCloudMusicGtk4Window::same_nav(&*final(self), &*old(self)),
            NeteaseCloudMusicGtk4Window::same_sidebar(&*final(self), &*old(self)),
            final(self).drawer_open == old(self).drawer_open,
    {
        self.overlay_visible = false;
    }

    /// The close button of the lyrics overlay closes it.
    pub fn lyrics_overlay_close_cb(&mut self)
        ensures
            !final(self).overlay_visible,
            final(self).overlay_lyrics@ == old(self).overlay_lyrics@,
            final(self).overlay_labels@ == old(self).overlay_labels@,
            NeteaseCloudMusicGtk4Window::same_user(&*final(self), &*old(self)),
            NeteaseCloudMusicGtk4Window::same_nav(&*final(self), &*old(self)),
            NeteaseCloudMusicGtk4Window::same_sidebar(&*final(self), &*old(self)),
            final(self).drawer_open == old(self).drawer_open,
    {
        self.hide_lyrics_overlay();
    }

    /// Whether the lyrics overlay is open.
    pub fn is_lyrics_overlay_visible(&self) -> (r: bool)
        ensures
            r == self.overlay_visible,
    {
        self.overlay_visible
    }

    /// New lyrics for the open overlay, with the song that is playing now,
    /// if any; nothing changes when the overlay is closed.
    pub fn update_lyrics_overlay_data(&mut self, lyrics: Vec<(u64, String)>, current: Option<&SongInfo>)
        requires
            old(self).wf(),
        ensures
            final(self).wf(),
            !old(self).overlay_visible ==> *final(self) == *old(self),
            old(self).overlay_visible ==> {
                &&& final(self).overlay_lyrics@ == lyrics@
                &&& final(self).overlay_labels@.map_values(|s: String| s@) == overlay_texts(lyrics@)
                &&& final(self).overlay_visible
                &&& match current {
                    Some(si) => final(self).overlay_title == si.name && final(self).overlay_artist == si.singer,
                    None => final(self).overlay_title == old(self).overlay_title
                        && final(self).overlay_artist == old(self).overlay_artist,
                }
            },
            NeteaseCloudMusicGtk4Window::same_user(&*final(self), &*old(self)),
            NeteaseCloudMusicGtk4Window::same_nav(&*final(self), &*old(self)),
            NeteaseCloudMusicGtk4Window::same_sidebar(&*final(self), &*old(self)),
            final(self).drawer_open == old(self).drawer_open,
    {
        if !self.is_lyrics_overlay_visible() {
            return;
        }
        let labels = overlay_lines(&lyrics);
        match current {
            Some(si) => {
                self.overlay_title = si.name.clone();
                self.overlay_artist = si.singer.clone();
            },
            None => {},
        }
        self.overlay_lyrics = lyrics;
        self.overlay_labels = labels;
    }

    /// What the overlay highlights when the lyrics lines from `start` to
    /// `end` (both included) are playing (`playing`), or `None` when nothing
    /// changes: the overlay is closed, or has no lyrics or no label.
    pub fn update_lyrics_overlay_highlight(&self, playing: Option<(usize, usize)>) -> (r: Option<Highlight>)
        ensures
            (!self.overlay_visible || self.overlay_lyrics@.len() == 0 || self.overlay_labels@.len() == 0)
                <==> r is None,
            r matches Some(h) ==> match playing {
                None => h.active@.len() == 0 && h.scroll_to is None,
                Some((start, end)) => {
                    &&& h.active@.map_values(|x: usize| x as int)
                        == active_from(self.overlay_lyrics@, self.overlay_labels@.len() as int, start as int, end as int)
                    &&& h.scroll_to == (if start <= end && start < self.overlay_lyrics@.len()
                        && !is_blank(self.overlay_lyrics@[start as int].1@)
                        && label_index(self.overlay_lyrics@, start as int) < self.overlay_labels@.len() {
                        Some(label_index(self.overlay_lyrics@, start as int) as usize)
                    } else {
                        None
                    })
                },
            },
    {
        if !self.is_lyrics_overlay_visible() {
            return None;
        }
        if self.overlay_lyrics.len() == 0 || self.overlay_labels.len() == 0 {
            return None;
        }
        match playing {
            None => Some(Highlight { active: Vec::new(), scroll_to: None }),
            Some((start, end)) => {
                let active = highlight_labels(&self.overlay_lyrics, self.overlay_labels.len(), start, end);
                let scroll_to = if start <= end && start < self.overlay_lyrics.len() {
                    let map = lyric_to_label(&self.overlay_lyrics);
                    let first = map[start];
                    proof {
                        crate::lyrics::lemma_line_texts_len(self.overlay_lyrics@.take(start as int));
                    }
                    if first < self.overlay_labels.len() {
                        Some(first)
                    } else {
                        None
                    }
                } else {
                    None
                };
                Some(Highlight { active, scroll_to })
            },
        }
    }
}

} // verus!
