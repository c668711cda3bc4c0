//! Properties that hold across the functions of the window.

use vstd::prelude::*;

use crate::lyrics::{active_from, is_blank, label_index, lemma_line_texts_step, line_texts};
use crate::model::{Action, LikeDone, SearchType, SongInfo};
use crate::pages::{has_name, root_title, without_name, Page};
use crate::search::{
    answer_kind, page_kind_of, reply_fits, reply_kind, request_of, request_paging, request_text, SearchReply,
    SearchRequest,
};
use crate::songlist_row::{duration_text, like_request, like_set, SonglistRow};
use crate::text::{decimal, digit_char, pad2, trim};
use crate::sidebar::{all_lists, is_other, other_lists};
use crate::window::{display_name, likes_of, NeteaseCloudMusicGtk4Window, SidebarList};
use crate::lyrics::overlay_texts;

verus! {

/// The labels of the first `k` lines come first among the labels of all lines.
proof fn lemma_line_texts_prefix(lyrics: Seq<(u64, String)>, k: int)
    requires
        0 <= k <= lyrics.len(),
    ensures
        line_texts(lyrics.take(k)).len() <= line_texts(lyrics).len(),
        forall|j: int| 0 <= j < line_texts(lyrics.take(k)).len() ==>
            #[trigger] line_texts(lyrics.take(k))[j] == line_texts(lyrics)[j],
    decreases lyrics.len(),
{
    if k == lyrics.len() {
        assert(lyrics.take(k) == lyrics);
    } else {
        let d = lyrics.drop_last();
        lemma_line_texts_prefix(d, k);
        assert(d.take(k) == lyrics.take(k));
    }
}

/// Every lyrics line that is not blank has a label, and that label shows
/// the line's text, trimmed.
pub proof fn law_each_line_has_its_label(lyrics: Seq<(u64, String)>, i: int)
    requires
        0 <= i < lyrics.len(),
        !is_blank(lyrics[i].1@),
    ensures
        0 <= label_index(lyrics, i) < line_texts(lyrics).len(),
        line_texts(lyrics)[label_index(lyrics, i)] == trim(lyrics[i].1@),
{
    lemma_line_texts_step(lyrics, i);
    lemma_line_texts_prefix(lyrics, i + 1);
    let p = line_texts(lyrics.take(i + 1));
    assert(p[label_index(lyrics, i)] == trim(lyrics[i].1@));
}

/// The label index grows by one after a line that is not blank.
proof fn lemma_label_step(lyrics: Seq<(u64, String)>, i: int)
    requires
        0 <= i < lyrics.len(),
    ensures
        label_index(lyrics, i + 1) == label_index(lyrics, i) + (if is_blank(lyrics[i].1@) { 0int } else { 1int }),
{
    lemma_line_texts_step(lyrics, i);
}

/// Later lines have later labels.
proof fn lemma_label_mono(lyrics: Seq<(u64, String)>, i: int, j: int)
    requires
        0 <= i <= j <= lyrics.len(),
    ensures
        label_index(lyrics, i) <= label_index(lyrics, j),
        i < j && !is_blank(lyrics[i].1@) ==> label_index(lyrics, i) < label_index(lyrics, j),
    decreases j - i,
{
    if i < j {
        lemma_label_step(lyrics, i);
        lemma_label_mono(lyrics, i + 1, j);
    }
}

/// In the lyrics overlay, the label of a line that is not blank shows that
/// line, trimmed: the label that a highlight scrolls to shows the first line
/// that plays.
pub proof fn law_overlay_label_shows_its_line(w: NeteaseCloudMusicGtk4Window, i: int)
    requires
        w.wf(),
        0 <= i < w.overlay_lyrics@.len(),
        !is_blank(w.overlay_lyrics@[i].1@),
    ensures
        0 <= label_index(w.overlay_lyrics@, i) < w.overlay_labels@.len(),
        w.overlay_labels@[label_index(w.overlay_lyrics@, i)]@ == trim(w.overlay_lyrics@[i].1@),
{
    law_each_line_has_its_label(w.overlay_lyrics@, i);
    let m = w.overlay_labels@.map_values(|s: String| s@);
    assert(m == overlay_texts(w.overlay_lyrics@));
    assert(m.len() == w.overlay_labels@.len());
    assert(m[label_index(w.overlay_lyrics@, i)] == w.overlay_labels@[label_index(w.overlay_lyrics@, i)]@);
}

/// The labels highlighted from line `i` on come at or after the label of line `i`.
proof fn lemma_active_lower(lyrics: Seq<(u64, String)>, n_labels: int, i: int, end: int)
    requires
        0 <= i <= lyrics.len(),
    ensures
        forall|k: int| 0 <= k < active_from(lyrics, n_labels, i, end).len() ==>
            label_index(lyrics, i) <= #[trigger] active_from(lyrics, n_labels, i, end)[k] < n_labels,
    decreases lyrics.len() - i,
{
    if i < lyrics.len() && i <= end {
        lemma_active_lower(lyrics, n_labels, i + 1, end);
        lemma_label_mono(lyrics, i, i + 1);
        let a = active_from(lyrics, n_labels, i, end);
        let rest = active_from(lyrics, n_labels, i + 1, end);
        if !is_blank(lyrics[i].1@) && label_index(lyrics, i) < n_labels {
            assert forall|k: int| 0 <= k < a.len() implies label_index(lyrics, i) <= #[trigger] a[k] < n_labels by {
                if k > 0 {
                    assert(a[k] == rest[k - 1]);
                }
            }
        } else {
            assert(a == rest);
        }
    }
}

/// The highlighted labels are labels of the overlay, each once, in order.
pub proof fn law_highlight_in_order(lyrics: Seq<(u64, String)>, n_labels: int, start: int, end: int)
    ensures
        forall|k: int| 0 <= k < active_from(lyrics, n_labels, start, end).len() ==>
            0 <= #[trigger] active_from(lyrics, n_labels, start, end)[k] < n_labels,
        forall|k1: int, k2: int| 0 <= k1 < k2 < active_from(lyrics, n_labels, start, end).len() ==>
            active_from(lyrics, n_labels, start, end)[k1] < active_from(lyrics, n_labels, start, end)[k2],
    decreases lyrics.len() - start,
{
    let a = active_from(lyrics, n_labels, start, end);
    if start < 0 || start > end || start >= lyrics.len() {
    } else {
        law_highlight_in_order(lyrics, n_labels, start + 1, end);
        lemma_active_lower(lyrics, n_labels, start + 1, end);
        lemma_label_mono(lyrics, start, start + 1);
        lemma_line_texts_step(lyrics, start);
        assert(label_index(lyrics, start) >= 0);
        let rest = active_from(lyrics, n_labels, start + 1, end);
        if !is_blank(lyrics[start].1@) && label_index(lyrics, start) < n_labels {
            assert forall|k: int| 0 <= k < a.len() implies 0 <= #[trigger] a[k] < n_labels by {
                if k > 0 {
                    assert(a[k] == rest[k - 1]);
                }
            }
            assert forall|k1: int, k2: int| 0 <= k1 < k2 < a.len() implies a[k1] < a[k2] by {
                assert(a[k2] == rest[k2 - 1]);
                if k1 > 0 {
                    assert(a[k1] == rest[k1 - 1]);
                }
            }
        } else {
            assert(a == rest);
            assert forall|k: int| 0 <= k < a.len() implies 0 <= #[trigger] a[k] < n_labels by {
                assert(a[k] == rest[k]);
            }
        }
    }
}

/// When a single line that is not blank plays, exactly its label is
/// highlighted.
pub proof fn law_single_line_highlight(lyrics: Seq<(u64, String)>, i: int)
    requires
        0 <= i < lyrics.len(),
        !is_blank(lyrics[i].1@),
    ensures
        active_from(lyrics, line_texts(lyrics).len() as int, i, i) == seq![label_index(lyrics, i)],
{
    law_each_line_has_its_label(lyrics, i);
    let n = line_texts(lyrics).len() as int;
    assert(active_from(lyrics, n, i + 1, i) == Seq::<int>::empty());
    assert(seq![label_index(lyrics, i)] + Seq::<int>::empty() == seq![label_index(lyrics, i)]);
}

/// After a page is stacked under a name, no page below it has that name:
/// a name stands for one page at most.
pub proof fn law_page_name_unique(pages: Seq<Page>, name: Seq<char>)
    ensures
        forall|k: int| 0 <= k < without_name(pages, name).len() ==>
            !has_name(#[trigger] without_name(pages, name)[k], name),
    decreases pages.len(),
{
    if pages.len() > 0 {
        law_page_name_unique(pages.drop_last(), name);
        let prev = without_name(pages.drop_last(), name);
        let w = without_name(pages, name);
        assert forall|k: int| 0 <= k < w.len() implies !has_name(#[trigger] w[k], name) by {
            if k < prev.len() {
                assert(w[k] == prev[k]);
            }
        }
    }
}

/// Going back from a page that was just stacked gives the stacked pages as
/// they were, and the header shows again the title of the page below with
/// the back button, or, with none below, the title of the content page
/// without it.
pub proof fn law_back_undoes_new(
    w0: NeteaseCloudMusicGtk4Window,
    w1: NeteaseCloudMusicGtk4Window,
    w2: NeteaseCloudMusicGtk4Window,
    page: u64,
    title: Seq<char>,
    name: Seq<char>,
)
    requires
        NeteaseCloudMusicGtk4Window::page_new_done(w0, w1, page, title, name, true),
        NeteaseCloudMusicGtk4Window::page_back_done(w1, w2),
    ensures
        w2.pages@ == w0.pages@,
        w2.back_visible == (w0.pages@.len() > 0),
        w0.pages@.len() > 0 ==> w2.title@ == w0.pages@.last().title@,
        w0.pages@.len() == 0 ==> w2.title@ == root_title(w0.content_page, w0.texts),
        w2.content_page == w0.content_page,
        w2.wf() == w0.wf(),
        NeteaseCloudMusicGtk4Window::same_user(&w2, &w0),
        NeteaseCloudMusicGtk4Window::same_overlay(&w2, &w0),
        NeteaseCloudMusicGtk4Window::same_sidebar(&w2, &w0),
        w2.drawer_open == w0.drawer_open,
{
}

/// Every search that opens a result page makes a request to the service.
pub proof fn law_search_page_has_request(search_type: SearchType, text: String, offset: u16, limit: u16, uid: u64)
    requires
        page_kind_of(search_type) is Some,
    ensures
        exists|r: Option<SearchRequest>| r is Some && #[trigger] request_of(search_type, text, offset, limit, uid, r),
{
    let r = match search_type {
        SearchType::Song => Some(SearchRequest::SearchSong(text, offset, limit)),
        SearchType::Singer => Some(SearchRequest::SearchSinger(text, offset, limit)),
        SearchType::Album => Some(SearchRequest::SearchAlbum(text, offset, limit)),
        SearchType::Lyrics => Some(SearchRequest::SearchLyrics(text, offset, limit)),
        _ => Some(SearchRequest::SearchSongList(text, offset, limit)),
    };
    assert(request_of(search_type, text, offset, limit, uid, r));
}

/// After liking (`val`) or unliking a song, the likes of a song list show
/// `val` for every song with that id and are unchanged for the others.
pub proof fn law_likes_follow_set_like(sis: Seq<SongInfo>, liked: Set<u64>, id: u64, val: bool, i: int)
    requires
        0 <= i < sis.len(),
    ensures
        likes_of(sis, if val { liked.insert(id) } else { liked.remove(id) })[i] == (if sis[i].id == id {
            val
        } else {
            liked.contains(sis[i].id)
        }),
{
}

/// A row's like request asks for the opposite of what the row shows, and
/// once the service has answered and the row has done what the request's
/// completion says, the row shows that opposite, with its song and all else
/// unchanged.
pub proof fn law_like_answer_flips(row: SonglistRow, answered: SonglistRow, id: u64, val: bool, done: LikeDone)
    requires
        row.song_info is Some,
        like_request(row) == Action::LikeSong(id, val, Some(done)),
        like_set(row, answered, done.like),
    ensures
        id == row.song_info->0.id,
        val == !row.like,
        answered.like == !row.like,
        answered.song_info == row.song_info,
        SonglistRow::same_song(&answered, &row),
{
}

/// Once a row of `list` was activated, the lists that hold no selection
/// are those that `unselect_other_listboxes(list)` names: every list of the
/// sidebar but `list`.
pub proof fn law_activation_unselects_others(w: NeteaseCloudMusicGtk4Window, list: SidebarList, l: SidebarList)
    requires
        w.selected_list == Some(list),
    ensures
        other_lists(list).contains(l) <==> w.selected_list != Some(l),
{
    let all = all_lists();
    let k: int = match l {
        SidebarList::Nav => 0,
        SidebarList::My => 1,
        SidebarList::Created => 2,
        SidebarList::Collected => 3,
    };
    assert(all[k] == l);
    if l != list {
        all.lemma_filter_contains(is_other(list), k);
    }
    if other_lists(list).contains(l) {
        let j = choose|j: int| 0 <= j < other_lists(list).len() && other_lists(list)[j] == l;
        all.lemma_filter_pred(is_other(list), j);
    }
}

/// Opening a page stacks it on top whenever the top page has another title,
/// or there is no page, or the top page has another name; it leaves the
/// window as it was when the top page has the same title and the same name
/// or none.
pub proof fn law_page_new_stacks_unless_repeat(
    w0: NeteaseCloudMusicGtk4Window,
    w1: NeteaseCloudMusicGtk4Window,
    page: u64,
    title: Seq<char>,
    name: Seq<char>,
    pushed: bool,
)
    requires
        NeteaseCloudMusicGtk4Window::page_new_done(w0, w1, page, title, name, pushed),
    ensures
        (w0.pages@.len() == 0 || w0.pages@.last().title@ != title
            || (w0.pages@.last().name matches Some(n) && n@ != name)) ==> {
            &&& pushed
            &&& w1.pages@.len() == w0.pages@.len() + 1
            &&& w1.pages@.drop_last() == w0.pages@
            &&& w1.pages@.last().widget == page
            &&& w1.pages@.last().title@ == title
            &&& w1.title@ == title
            &&& w1.back_visible
        },
        (w0.pages@.len() > 0 && w0.pages@.last().title@ == title
            && (w0.pages@.last().name is None || w0.pages@.last().name->0@ == name)) ==> !pushed && w1 == w0,
{
}

/// Whether a page is without this name: it has another name, or none.
pub open spec fn lacks_name(name: Seq<char>) -> spec_fn(Page) -> bool {
    |p: Page| !(p.name matches Some(n) && n@ == name)
}

/// The pages that a named page replaces are those of its name, and only
/// those: every other stacked page stays, in order.
pub proof fn law_named_page_keeps_the_others(pages: Seq<Page>, name: Seq<char>)
    ensures
        without_name(pages, name) == pages.filter(lacks_name(name)),
        forall|i: int| 0 <= i < pages.len() && !(pages[i].name matches Some(n) && n@ == name) ==>
            without_name(pages, name).contains(#[trigger] pages[i]),
    decreases pages.len(),
{
    let keep = lacks_name(name);
    if pages.len() > 0 {
        law_named_page_keeps_the_others(pages.drop_last(), name);
        assert(keep(pages.last()) == !has_name(pages.last(), name));
        let prev = pages.drop_last().filter(keep);
        reveal(Seq::filter);
        assert(pages.filter(keep) == (if keep(pages.last()) { prev.push(pages.last()) } else { prev }));
    }
    reveal(Seq::filter);
    assert(without_name(pages, name) == pages.filter(keep));
    assert forall|i: int| 0 <= i < pages.len() && !(pages[i].name matches Some(n) && n@ == name) implies
        without_name(pages, name).contains(#[trigger] pages[i]) by {
        pages.lemma_filter_contains(keep, i);
    }
}

/// A search asks the service for results from the offset and at most the
/// limit that it was given, a search of a text asks for that text, and one
/// for the user's play lists asks for those of the given user.
pub proof fn law_search_request_keeps_paging(
    search_type: SearchType,
    text: String,
    offset: u16,
    limit: u16,
    uid: u64,
    r: Option<SearchRequest>,
)
    requires
        request_of(search_type, text, offset, limit, uid, r),
        r is Some,
    ensures
        request_paging(r->0) == (offset, limit),
        page_kind_of(search_type) is Some ==> request_text(r->0) == Some(text),
        r->0 matches SearchRequest::UserSongList(u, _, _) ==> u == uid,
{
}

/// The results page that a search opens is of the kind of results that its
/// request is answered with, and the replies that count as fitting a search
/// are exactly those of that kind.
pub proof fn law_search_page_fits_answer(
    search_type: SearchType,
    text: String,
    offset: u16,
    limit: u16,
    uid: u64,
    req: SearchRequest,
    reply: SearchReply,
)
    requires
        request_of(search_type, text, offset, limit, uid, Some(req)),
    ensures
        page_kind_of(search_type) matches Some(k) ==> k == answer_kind(req),
        reply_fits(search_type, reply) <==> reply_kind(reply) == answer_kind(req),
{
}

/// A user of any VIP type shows with a crown before the nickname; a user
/// who is no VIP (type 0) shows with the nickname alone.
pub proof fn law_vip_crown(vip_type: i32, nickname: Seq<char>)
    ensures
        vip_type == 0 ==> display_name(vip_type, nickname) == nickname,
        vip_type != 0 ==> {
            &&& display_name(vip_type, nickname).len() == nickname.len() + 1
            &&& display_name(vip_type, nickname)[0] == '\u{1f451}'
            &&& display_name(vip_type, nickname).subrange(1, nickname.len() as int + 1) == nickname
        },
{
    if vip_type != 0 {
        assert(display_name(vip_type, nickname).subrange(1, nickname.len() as int + 1) =~= nickname);
    }
}

/// A number below 100 is shown with exactly two digits.
pub proof fn law_pad2_two_digits(n: nat)
    requires
        n < 100,
    ensures
        pad2(n).len() == 2,
        pad2(n)[0] == digit_char(n / 10),
        pad2(n)[1] == digit_char(n % 10),
{
    if n >= 10 {
        assert(decimal(n / 10) == seq![digit_char(n / 10)]);
    }
}

/// A song shorter than 100 minutes shows its duration as "mm:ss".
pub proof fn law_duration_shape(duration: u64)
    requires
        duration < 6_000_000,
    ensures
        duration_text(duration).len() == 5,
        duration_text(duration)[2] == ':',
{
    law_pad2_two_digits((duration / 1000 / 60) as nat);
    law_pad2_two_digits((duration / 1000 % 60) as nat);
}

} // verus!
