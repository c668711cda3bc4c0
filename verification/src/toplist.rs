//! The view of the music service's charts: one card per chart, and the
//! chart's page when a card is activated.

use vstd::prelude::*;

use crate::model::{Action, CoverSource, SongList, TopList};
use crate::text::{decimal, decimal_string};

verus! {

/// The name of the cached cover of a chart.
pub open spec fn toplist_cover_name(id: u64) -> Seq<char> {
    decimal(id as nat) + "-toplist.jpg"@
}

/// The name of the cached cover of the chart with this id.
pub fn toplist_cover_file(id: u64) -> (r: String)
    ensures
        r@ == toplist_cover_name(id),
{
    let mut file = decimal_string(id);
    file.append("-toplist.jpg");
    file
}

/// The card of a chart: its cover, name and update text.
pub struct ToplistCard {
    pub cover: CoverSource,
    pub name: String,
    pub update: String,
}

/// The card shows this chart; `cached` tells whether its cover is cached.
pub open spec fn card_of(card: ToplistCard, t: TopList, cached: bool) -> bool {
    &&& card.name == t.name
    &&& card.update == t.update
    &&& if cached {
        card.cover matches CoverSource::Cached(f) && f@ == toplist_cover_name(t.id)
    } else {
        card.cover matches CoverSource::Download(url, f, w, h) && url == t.cover
            && f@ == toplist_cover_name(t.id) && w == 140 && h == 140
    }
}

/// The state of the toplist view: whether it can send requests, and the
/// charts it shows.
pub struct TopListView {
    pub has_sender: bool,
    pub data: Vec<TopList>,
}

impl TopListView {
    /// A view without sender and without charts.
    pub fn new() -> (r: Self)
        ensures
            !r.has_sender,
            r.data@.len() == 0,
    {
        TopListView { has_sender: false, data: Vec::new() }
    }

    /// The view can send requests from now on; it is given its sender once.
    pub fn set_sender(&mut self)
        requires
            !old(self).has_sender,
        ensures
            final(self).has_sender,
            final(self).data@ == old(self).data@,
    {
        self.has_sender = true;
    }

    /// Shows these charts, in order, in place of the former ones; `cached`
    /// tells for each whether its cover is cached. Returns their cards.
    pub fn init_toplist(&mut self, list: Vec<TopList>, cached: &[bool]) -> (r: Vec<ToplistCard>)
        requires
            old(self).has_sender,
            cached@.len() == list@.len(),
        ensures
            final(self).data@ == list@,
            final(self).has_sender,
            r@.len() == list@.len(),
            forall|i: int| 0 <= i < list@.len() ==> card_of(#[trigger] r@[i], list@[i], cached@[i]),
    {
        let mut cards: Vec<ToplistCard> = Vec::new();
        let n = list.len();
        for i in 0..n
            invariant
                n == list@.len(),
                cached@.len() == n,
                cards@.len() == i,
                forall|j: int| 0 <= j < i ==> card_of(#[trigger] cards@[j], list@[j], cached@[j]),
        {
            cards.push(Self::create_toplist_card(&list[i], cached[i]));
        }
        self.data = list;
        cards
    }

    /// The card of a chart.
    pub fn create_toplist_card(toplist: &TopList, cached: bool) -> (r: ToplistCard)
        ensures
            card_of(r, *toplist, cached),
    {
        let file = toplist_cover_file(toplist.id);
        let cover = if !cached {
            CoverSource::Download(toplist.cover.clone(), file, 140, 140)
        } else {
            CoverSource::Cached(file)
        };
        ToplistCard { cover, name: toplist.name.clone(), update: toplist.update.clone() }
    }

    /// Card `index` was activated: the chart's song list page opens, when
    /// there is such a chart.
    pub fn toplist_card_activated_cb(&self, index: i32) -> (r: Option<Action>)
        requires
            0 <= index < self.data@.len() ==> self.has_sender,
        ensures
            !(0 <= index < self.data@.len()) ==> r is None,
            0 <= index < self.data@.len() ==> (r matches Some(Action::ToSongListPage(sl))
                && sl.id == self.data@[index as int].id && sl.name == self.data@[index as int].name
                && sl.cover_img_url == self.data@[index as int].cover
                && sl.author@ == Seq::<char>::empty() && sl.creator_id == 0),
    {
        if index >= 0 && (index as usize) < self.data.len() {
            let info = &self.data[index as usize];
            Some(Action::ToSongListPage(SongList {
                id: info.id,
                name: info.name.clone(),
                cover_img_url: info.cover.clone(),
                author: String::new(),
                creator_id: 0,
            }))
        } else {
            None
        }
    }
}

impl Default for TopListView {
    /// A view without sender and without charts.
    fn default() -> (r: Self)
        ensures
            !r.has_sender,
            r.data@.len() == 0,
    {
        Self::new()
    }
}

} // verus!
