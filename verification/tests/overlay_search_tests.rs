use netease_cloud_music_gtk4::lyrics::{highlight_labels, lyric_to_label, overlay_lines};
use netease_cloud_music_gtk4::model::{Action, SearchDone, SearchResult, SearchType, SingerInfo, SongInfo, SongList};
use netease_cloud_music_gtk4::search::{search_page_kind, search_reply_fits, search_result_kind, SearchPageKind, SearchReply, SearchRequest};
use netease_cloud_music_gtk4::texts::Texts;
use netease_cloud_music_gtk4::window::NeteaseCloudMusicGtk4Window;

fn texts() -> Texts {
    Texts {
        app_name: "Netease Cloud Music".to_string(),
        toplist: "Toplist".to_string(),
        play_list_lyrics: "Play List&Lyrics".to_string(),
        no_playable_songs: "No playable songs found！".to_string(),
        request_failed: "Request for interface failed, please try again!".to_string(),
        album_not_found: "Album not found!".to_string(),
        unknown_artist: "Unknown artist".to_string(),
    }
}

fn song(id: u64) -> SongInfo {
    SongInfo {
        id,
        name: format!("song{}", id),
        singer: format!("singer{}", id),
        album: "album".to_string(),
        album_id: 7,
        pic_url: "http://pic".to_string(),
        duration: 1000,
        song_url: String::new(),
        playable: true,
    }
}

fn lyrics() -> Vec<(u64, String)> {
    vec![(0, " first ".to_string()), (10, "   ".to_string()), (20, "second".to_string()), (30, "\tthird\n".to_string())]
}

#[test]
fn overlay_lines_skip_blank_lines() {
    assert_eq!(overlay_lines(&lyrics()), vec!["first", "second", "third"]);
    assert_eq!(overlay_lines(&vec![]), vec!["暂无歌词"]);
    assert_eq!(overlay_lines(&vec![(0, "  ".to_string())]), Vec::<String>::new());
}

#[test]
fn each_line_maps_to_its_label() {
    let l = lyrics();
    let map = lyric_to_label(&l);
    assert_eq!(map, vec![0, usize::MAX, 1, 2]);
    let labels = overlay_lines(&l);
    for (i, m) in map.iter().enumerate() {
        if *m != usize::MAX {
            assert_eq!(labels[*m], l[i].1.trim());
        }
    }
}

#[test]
fn highlighted_labels() {
    let l = lyrics();
    assert_eq!(highlight_labels(&l, 3, 0, 3), vec![0, 1, 2]);
    assert_eq!(highlight_labels(&l, 3, 1, 2), vec![1]);
    assert_eq!(highlight_labels(&l, 3, 1, 1), Vec::<usize>::new());
    assert_eq!(highlight_labels(&l, 3, 2, usize::MAX), vec![1, 2]);
    assert_eq!(highlight_labels(&l, 3, 3, 2), Vec::<usize>::new());
    assert_eq!(highlight_labels(&l, 2, 0, 3), vec![0, 1]);
    assert_eq!(highlight_labels(&l, 3, 9, 12), Vec::<usize>::new());
}

#[test]
fn overlay_show_update_highlight() {
    let mut w = NeteaseCloudMusicGtk4Window::new(texts());
    // closed overlay: no update, no highlight
    w.update_lyrics_overlay_data(lyrics(), Some(&song(1)));
    assert!(w.overlay_lyrics.is_empty());
    assert!(w.update_lyrics_overlay_highlight(Some((0, 0))).is_none());

    w.show_lyrics_overlay(&song(1), lyrics());
    assert!(w.is_lyrics_overlay_visible());
    assert_eq!(w.overlay_title, "song1");
    assert_eq!(w.overlay_artist, "singer1");
    assert_eq!(w.overlay_labels, vec!["first", "second", "third"]);

    let h = w.update_lyrics_overlay_highlight(Some((0, 0))).unwrap();
    assert_eq!(h.active, vec![0]);
    assert_eq!(h.scroll_to, Some(0));
    let h = w.update_lyrics_overlay_highlight(Some((1, 2))).unwrap();
    assert_eq!(h.active, vec![1]);
    assert_eq!(h.scroll_to, None);
    let h = w.update_lyrics_overlay_highlight(Some((2, 3))).unwrap();
    assert_eq!(h.active, vec![1, 2]);
    assert_eq!(h.scroll_to, Some(1));
    let h = w.update_lyrics_overlay_highlight(None).unwrap();
    assert!(h.active.is_empty());
    assert_eq!(h.scroll_to, None);

    w.update_lyrics_overlay_data(vec![(0, "new".to_string())], Some(&song(2)));
    assert_eq!(w.overlay_title, "song2");
    assert_eq!(w.overlay_labels, vec!["new"]);
    w.update_lyrics_overlay_data(vec![], None);
    assert_eq!(w.overlay_title, "song2");
    assert_eq!(w.overlay_labels, vec!["暂无歌词"]);
    // no lyrics: nothing to highlight
    assert!(w.update_lyrics_overlay_highlight(Some((0, 0))).is_none());

    w.lyrics_overlay_close_cb();
    assert!(!w.is_lyrics_overlay_visible());
    w.show_lyrics_overlay(&song(3), lyrics());
    w.hide_lyrics_overlay();
    assert!(w.update_lyrics_overlay_highlight(Some((0, 0))).is_none());
}

#[test]
fn search_requests_by_type() {
    let mut w = NeteaseCloudMusicGtk4Window::new(texts());
    w.set_uid(77);
    let t = || "jay".to_string();
    assert!(matches!(w.search_request(SearchType::Song, t(), 0, 50), Some(SearchRequest::SearchSong(s, 0, 50)) if s == "jay"));
    assert!(matches!(w.search_request(SearchType::Singer, t(), 1, 2), Some(SearchRequest::SearchSinger(s, 1, 2)) if s == "jay"));
    assert!(matches!(w.search_request(SearchType::Album, t(), 1, 2), Some(SearchRequest::SearchAlbum(s, 1, 2)) if s == "jay"));
    assert!(matches!(w.search_request(SearchType::Lyrics, t(), 1, 2), Some(SearchRequest::SearchLyrics(s, 1, 2)) if s == "jay"));
    assert!(matches!(w.search_request(SearchType::SongList, t(), 1, 2), Some(SearchRequest::SearchSongList(s, 1, 2)) if s == "jay"));
    assert!(matches!(w.search_request(SearchType::TopPicks, t(), 3, 4),
        Some(SearchRequest::TopSongList(c, o, 3, 4)) if c == "全部" && o == "hot"));
    assert!(matches!(w.search_request(SearchType::AllAlbums, t(), 3, 4), Some(SearchRequest::NewAlbums(a, 3, 4)) if a == "ALL"));
    assert!(matches!(w.search_request(SearchType::Radio, t(), 3, 4), Some(SearchRequest::UserRadioSublist(3, 4))));
    assert!(matches!(w.search_request(SearchType::LikeAlbums, t(), 3, 4), Some(SearchRequest::AlbumSublist(3, 4))));
    assert!(matches!(w.search_request(SearchType::LikeSongList, t(), 3, 4), Some(SearchRequest::UserSongList(77, 3, 4))));
    assert!(w.search_request(SearchType::DailyRec, t(), 0, 1).is_none());
    assert!(w.search_request(SearchType::CloudDisk, t(), 0, 1).is_none());
}

#[test]
fn search_outcomes() {
    let mut w = NeteaseCloudMusicGtk4Window::new(texts());
    w.user_like_song_add(2);
    match w.search_outcome(SearchType::Song, Some(SearchReply::Songs(vec![song(1), song(2)]))) {
        (Some(SearchResult::Songs(sis, likes)), None) => {
            assert_eq!(sis.len(), 2);
            assert_eq!(likes, vec![false, true]);
        },
        _ => panic!("expected songs"),
    }
    let singer = SingerInfo { id: 1, name: "a".to_string(), pic_url: String::new() };
    assert!(matches!(w.search_outcome(SearchType::Singer, Some(SearchReply::Singers(vec![singer]))), (Some(SearchResult::Singers(v)), None) if v.len() == 1));
    let sl = SongList { id: 1, name: "l".to_string(), cover_img_url: String::new(), author: String::new(), creator_id: 0 };
    assert!(matches!(w.search_outcome(SearchType::Album, Some(SearchReply::SongLists(vec![sl]))), (Some(SearchResult::SongLists(v)), None) if v.len() == 1));
    match w.search_outcome(SearchType::Song, None) {
        (None, Some(Action::AddToast(t))) => assert_eq!(t, "Request for interface failed, please try again!"),
        _ => panic!("expected a toast"),
    }
    // a type that makes no request gets no reply, and the toast
    assert!(matches!(w.search_outcome(SearchType::DailyRec, None), (None, Some(Action::AddToast(_)))));
}

#[test]
fn search_entry_opens_result_page() {
    let mut w = NeteaseCloudMusicGtk4Window::new(texts());
    w.search_singer_cb();
    match w.search_entry_cb("jay", 5) {
        Some((SearchPageKind::Singers, Action::Search(t, SearchType::Singer, 0, 50, done))) => {
            assert_eq!(t, "jay");
            assert_eq!(done, SearchDone { page: 5, kind: SearchPageKind::Singers });
        },
        _ => panic!("expected a singer search"),
    }
    assert_eq!(w.title, "jay");
    assert!(w.back_visible);
    assert_eq!(w.pages.len(), 1);
    assert_eq!(w.pages[0].name.as_deref(), Some("search"));
    // a second search replaces the first results page
    w.search_lyrics_cb();
    assert!(matches!(w.search_entry_cb("moon", 6), Some((SearchPageKind::Songs, Action::Search(_, SearchType::Lyrics, 0, 50, SearchDone { page: 6, kind: SearchPageKind::Songs })))));
    assert_eq!(w.pages.len(), 1);
    assert_eq!(w.pages[0].widget, 6);
    w.search_album_cb();
    assert!(matches!(w.search_entry_cb("x", 7), Some((SearchPageKind::SongLists, _))));
    w.search_songlist_cb();
    assert_eq!(w.search_type, SearchType::SongList);
    w.search_song_cb();
    assert_eq!(w.search_type, SearchType::Song);
    // a type without results page: header changes, no page
    w.search_type = SearchType::Radio;
    assert!(w.search_entry_cb("radio", 8).is_none());
    assert_eq!(w.title, "radio");
    assert_eq!(w.pages.len(), 1);
}

#[test]
fn every_results_page_makes_a_request() {
    let w = NeteaseCloudMusicGtk4Window::new(texts());
    for t in [SearchType::Song, SearchType::Singer, SearchType::Album, SearchType::Lyrics, SearchType::SongList] {
        assert!(search_page_kind(t).is_some());
        assert!(w.search_request(t, "q".to_string(), 0, 50).is_some());
    }
    assert!(search_page_kind(SearchType::TopPicks).is_none());
}

#[test]
fn page_titles_of_all_lists() {
    let w = NeteaseCloudMusicGtk4Window::new(texts());
    assert_eq!(w.init_picks_songlist(), ("全部歌单".to_string(), SearchType::TopPicks));
    assert_eq!(w.init_all_albums(), ("全部新碟".to_string(), SearchType::AllAlbums));
}

#[test]
fn a_single_playing_line_highlights_its_label() {
    let l = lyrics();
    let n = overlay_lines(&l).len();
    assert_eq!(highlight_labels(&l, n, 0, 0), vec![0]);
    assert_eq!(highlight_labels(&l, n, 2, 2), vec![1]);
    assert_eq!(highlight_labels(&l, n, 3, 3), vec![2]);
}

#[test]
fn lyrics_follow_time_only_on_top() {
    let mut w = NeteaseCloudMusicGtk4Window::new(texts());
    assert!(!w.update_lyrics_timestamp(9));
    w.init_playlist_lyrics_page(&[song(1)], 9);
    assert!(w.update_lyrics_timestamp(9));
    assert!(w.update_playlist_status(9));
    w.page_new(10, "Album", "album");
    assert!(!w.update_lyrics_timestamp(9));
    assert!(!w.update_playlist_status(9));
    w.page_back();
    assert!(w.update_playlist_status(9));
}

#[test]
fn search_results_reach_their_page_while_stacked() {
    let mut w = NeteaseCloudMusicGtk4Window::new(texts());
    w.search_singer_cb();
    let done = match w.search_entry_cb("jay", 5) {
        Some((_, Action::Search(_, _, _, _, done))) => done,
        _ => panic!("expected a search"),
    };
    let singer = SingerInfo { id: 1, name: "a".to_string(), pic_url: String::new() };
    let (res, toast) = w.search_outcome(SearchType::Singer, Some(SearchReply::Singers(vec![singer])));
    assert!(toast.is_none());
    let res = res.unwrap();
    // the page is stacked under another one: it still gets the results
    w.page_new(9, "Album", "album");
    match w.search_answered(done, res) {
        Some(SearchResult::Singers(v)) => assert_eq!(v[0].id, 1),
        _ => panic!("expected the singers"),
    }
    // once a new search replaced the page, its results go nowhere
    w.search_entry_cb("eason", 6);
    let singer = SingerInfo { id: 2, name: "b".to_string(), pic_url: String::new() };
    assert!(w.search_answered(done, SearchResult::Singers(vec![singer])).is_none());
}

#[test]
fn replies_and_results_by_kind() {
    assert!(search_reply_fits(SearchType::Lyrics, &SearchReply::Songs(vec![])));
    assert!(!search_reply_fits(SearchType::Singer, &SearchReply::Songs(vec![])));
    assert!(search_reply_fits(SearchType::TopPicks, &SearchReply::SongLists(vec![])));
    assert!(!search_reply_fits(SearchType::Heartbeat, &SearchReply::SongLists(vec![])));
    assert_eq!(search_result_kind(&SearchResult::Songs(vec![], vec![])), SearchPageKind::Songs);
    assert_eq!(search_result_kind(&SearchResult::Singers(vec![])), SearchPageKind::Singers);
    assert_eq!(search_result_kind(&SearchResult::SongLists(vec![])), SearchPageKind::SongLists);
}
