use netease_cloud_music_gtk4::model::{Action, CoverSource, LikeDone, SongInfo, SongList, TopList};
use netease_cloud_music_gtk4::playlist::{play_icon_name, position_of_id};
use netease_cloud_music_gtk4::sidebar::{create_playlist_row, songlist_cover_file, unselect_other_listboxes};
use netease_cloud_music_gtk4::songlist_row::{duration_string, like_icon_name, SonglistRow};
use netease_cloud_music_gtk4::texts::Texts;
use netease_cloud_music_gtk4::toplist::{toplist_cover_file, TopListView};
use netease_cloud_music_gtk4::window::{NeteaseCloudMusicGtk4Window, SidebarList};

fn texts() -> Texts {
    Texts {
        app_name: "Netease Cloud Music".to_string(),
        toplist: "Toplist".to_string(),
        play_list_lyrics: "Play List&Lyrics".to_string(),
        no_playable_songs: "No playable songs found！".to_string(),
        request_failed: "Request for interface failed, please try again!".to_string(),
        album_not_found: "Album not found!".to_string(),
        unknown_artist: "Unknown artist".to_string(),
    }
}

fn song(id: u64) -> SongInfo {
    SongInfo {
        id,
        name: format!("song{}", id),
        singer: "singer".to_string(),
        album: "album".to_string(),
        album_id: 7,
        pic_url: "http://pic".to_string(),
        duration: 215_000,
        song_url: String::new(),
        playable: true,
    }
}

fn list(id: u64) -> SongList {
    SongList { id, name: format!("list{}", id), cover_img_url: format!("http://c/{}", id), author: "me".to_string(), creator_id: 1 }
}

#[test]
fn durations() {
    assert_eq!(duration_string(0), "00:00");
    assert_eq!(duration_string(999), "00:00");
    assert_eq!(duration_string(61_000), "01:01");
    assert_eq!(duration_string(215_000), "03:35");
    assert_eq!(duration_string(3_599_999), "59:59");
    assert_eq!(duration_string(7_200_000), "120:00");
    for d in [0u64, 1_000, 59_000, 600_000, 5_999_999] {
        let s = duration_string(d);
        assert_eq!(s.len(), 5);
        assert_eq!(s.as_bytes()[2], b':');
    }
}

#[test]
fn row_shows_its_song() {
    let t = texts();
    let row = SonglistRow::new(&song(3), true, &t);
    assert_eq!(row.title, "song3");
    assert_eq!(row.tooltip, "song3");
    assert_eq!(row.artist, "singer");
    assert_eq!(row.album, "album");
    assert_eq!(row.duration_label, "03:35");
    assert!(row.activatable);
    assert!(matches!(&row.cover, CoverSource::Cached(f) if f == "7-songlist.jpg"));
    assert_eq!(row.get_song_info().map(|s| s.id), Some(3));

    let mut anon = song(4);
    anon.singer = String::new();
    anon.playable = false;
    let row = SonglistRow::new(&anon, false, &t);
    assert_eq!(row.artist, "Unknown artist");
    assert!(!row.activatable);
    assert!(matches!(&row.cover, CoverSource::Download(u, f, 40, 40) if u == "http://pic" && f == "7-songlist.jpg"));

    let mut nopic = song(5);
    nopic.pic_url = String::new();
    let row = SonglistRow::new(&nopic, false, &t);
    assert!(matches!(row.cover, CoverSource::Keep));
}

#[test]
fn row_widgets() {
    let t = texts();
    let mut row = SonglistRow::new(&song(3), true, &t);
    row.set_index(4);
    assert_eq!(row.index_label, "04");
    row.set_index(123);
    assert_eq!(row.index_label, "123");
    row.switch_image(true);
    assert!(row.play_icon_visible && !row.index_visible);
    row.switch_image(false);
    assert!(!row.play_icon_visible && row.index_visible);
    row.set_like_button_visible(false);
    row.set_album_button_visible(false);
    row.set_remove_button_visible(false);
    assert!(!row.like_button_visible && !row.album_button_visible && !row.remove_button_visible);
    row.set_not_ignore_grey(true);
    assert!(row.not_ignore_grey());
    assert!(row.on_click(2));
    assert!(!row.on_click(1));
    assert_eq!(like_icon_name(true), "starred-symbolic");
    assert_eq!(like_icon_name(false), "non-starred-symbolic");
}

#[test]
fn row_menu_and_buttons() {
    let t = texts();
    let mut row = SonglistRow::new(&song(3), true, &t);
    let menu = row.on_right_click();
    assert_eq!(menu[0], ("播放".to_string(), "row.play-now".to_string()));
    assert_eq!(menu[1], ("下一首播放".to_string(), "row.play-next".to_string()));
    assert_eq!(menu[2], ("收藏".to_string(), "row.toggle-like".to_string()));
    assert!(matches!(row.like_button_clicked_cb(), Action::LikeSong(3, true, Some(LikeDone { like: true }))));
    assert!(!row.like);
    row.set_like(true);
    assert_eq!(row.on_right_click()[2].0, "取消收藏");
    assert!(matches!(row.toggle_like_action(), Some(Action::LikeSong(3, false, Some(LikeDone { like: false })))));
    assert!(matches!(row.play_now_action(), Some(Action::PlayNow(s)) if s.id == 3));
    assert!(matches!(row.play_next_action(), Some(Action::PlayNext(s)) if s.id == 3));
    assert!(matches!(row.remove_button_clicked_cb(), Action::RemoveFromPlayList(s) if s.id == 3));
    match row.album_button_clicked_cb(&t) {
        Action::ToAlbumPage(sl) => {
            assert_eq!(sl.id, 7);
            assert_eq!(sl.name, "album");
            assert_eq!(sl.cover_img_url, "http://pic");
            assert_eq!(sl.author, "");
        },
        _ => panic!("expected the album page"),
    }
    let mut no_album = song(8);
    no_album.album_id = 0;
    let row = SonglistRow::new(&no_album, false, &t);
    assert!(matches!(row.album_button_clicked_cb(&t), Action::AddToast(m) if m == "Album not found!"));
}

#[test]
fn drawer_view() {
    let mut w = NeteaseCloudMusicGtk4Window::new(texts());
    w.user_like_song_add(2);
    let sis = vec![song(1), song(2), song(2)];
    let v = w.update_drawer_playlist(&sis, Some(&song(2)), true);
    assert_eq!(v.count_label, "3");
    assert_eq!(v.likes, vec![false, true, true]);
    assert_eq!(v.playing, Some((1, "media-playback-pause-symbolic".to_string())));
    let v = w.update_drawer_playlist(&sis, Some(&song(9)), false);
    assert_eq!(v.playing, None);
    let v = w.update_drawer_playlist(&[], None, false);
    assert_eq!(v.count_label, "0");
    assert_eq!(position_of_id(&sis, 2), Some(1));
    assert_eq!(position_of_id(&sis, 5), None);
    assert_eq!(play_icon_name(false), "media-playback-start-symbolic");
}

#[test]
fn drawer_open_close() {
    let mut w = NeteaseCloudMusicGtk4Window::new(texts());
    assert_eq!(w.update_drawer_play_state(true, &[false, true]), None);
    assert!(w.toggle_playlist_drawer());
    assert!(w.drawer_open);
    assert_eq!(w.update_drawer_play_state(true, &[false, true, true]), Some((1, "media-playback-pause-symbolic".to_string())));
    assert_eq!(w.update_drawer_play_state(false, &[false, false]), None);
    // presses inside or on nothing keep it open
    assert!(!w.close_drawer_on_press(Some(true)));
    assert!(!w.close_drawer_on_press(None));
    assert!(w.drawer_open);
    assert!(w.close_drawer_on_press(Some(false)));
    assert!(!w.drawer_open);
    assert!(!w.close_drawer_on_press(Some(false)));
    // toggling twice gives the drawer back as it was
    assert!(w.toggle_playlist_drawer());
    assert!(!w.toggle_playlist_drawer());
    assert!(!w.drawer_open);
    w.toggle_playlist_drawer();
    w.clear_playlist();
    assert!(!w.drawer_open);
}

#[test]
fn removing_a_song() {
    let mut w = NeteaseCloudMusicGtk4Window::new(texts());
    w.toggle_playlist_drawer();
    let r = w.remove_from_playlist(&[song(1)], Some(&song(1)), 9);
    assert!(r.page_pushed);
    assert!(!r.page_back);
    assert!(r.refresh_drawer);
    assert_eq!(r.likes, vec![false]);
    let r = w.remove_from_playlist(&[], None, 9);
    assert!(!r.page_pushed);
    assert!(r.page_back);
    let r = w.remove_from_playlist(&[], Some(&song(0)), 9);
    assert!(r.page_back);
}

#[test]
fn sidebar_playlists() {
    let mut w = NeteaseCloudMusicGtk4Window::new(texts());
    w.show_my_sidebar();
    assert!(w.my_section_visible && w.created_expander_visible);
    assert!(!w.collected_expander_visible);
    w.init_sidebar_playlists(vec![list(1), list(2), list(3)]);
    assert_eq!(w.created_playlists.iter().map(|l| l.id).collect::<Vec<_>>(), vec![2, 3]);
    assert_eq!(w.created_label, "创建的歌单 (2)");
    assert_eq!(w.collected_label, "收藏的歌单 (0)");
    assert!(!w.collected_expander_visible);
    w.init_sidebar_playlists_split(vec![list(4)], vec![list(5), list(6)]);
    assert_eq!(w.created_label, "创建的歌单 (1)");
    assert_eq!(w.collected_label, "收藏的歌单 (2)");
    assert!(w.collected_expander_visible);
    assert!(matches!(w.created_playlist_row_activated_cb(0), Some(Action::ToSongListPage(l)) if l.id == 4));
    assert_eq!(w.selected_list, Some(SidebarList::Created));
    assert!(w.created_playlist_row_activated_cb(1).is_none());
    assert!(w.created_playlist_row_activated_cb(-1).is_none());
    assert!(matches!(w.collected_playlist_row_activated_cb(1), Some(Action::ToSongListPage(l)) if l.id == 6));
    assert_eq!(w.selected_list, Some(SidebarList::Collected));
    assert!(w.collected_playlist_row_activated_cb(2).is_none());
    w.hide_my_sidebar();
    assert!(!w.my_section_visible && !w.created_expander_visible && !w.collected_expander_visible);
    assert!(w.created_playlist_row_activated_cb(0).is_none());
    assert!(w.collected_playlist_row_activated_cb(0).is_none());
    w.init_sidebar_playlists(vec![]);
    assert!(w.created_playlists.is_empty());
}

#[test]
fn my_rows_and_list_selection() {
    let mut w = NeteaseCloudMusicGtk4Window::new(texts());
    assert_eq!(w.selected_list, None);
    assert!(matches!(w.my_row_activated_cb(0), Some(Action::ToMyPageDailyRec)));
    assert_eq!(w.selected_list, Some(SidebarList::My));
    assert!(matches!(w.my_row_activated_cb(1), Some(Action::ToMyPageHeartbeat)));
    assert!(matches!(w.my_row_activated_cb(2), Some(Action::ToMyPageRadio)));
    assert!(matches!(w.my_row_activated_cb(3), Some(Action::ToMyPageCloudDisk)));
    assert!(matches!(w.my_row_activated_cb(4), Some(Action::ToMyPageAlbums)));
    assert!(w.my_row_activated_cb(5).is_none());
    assert!(w.my_row_activated_cb(-1).is_none());
    // a row out of range still takes the selection from the other lists
    assert_eq!(w.selected_list, Some(SidebarList::My));
    w.created_playlist_row_activated_cb(7);
    assert_eq!(w.selected_list, Some(SidebarList::Created));
    assert_eq!(unselect_other_listboxes(SidebarList::Created), vec![SidebarList::Nav, SidebarList::My, SidebarList::Collected]);
    assert_eq!(unselect_other_listboxes(SidebarList::Nav), vec![SidebarList::My, SidebarList::Created, SidebarList::Collected]);
    assert_eq!(unselect_other_listboxes(SidebarList::My), vec![SidebarList::Nav, SidebarList::Created, SidebarList::Collected]);
    assert_eq!(unselect_other_listboxes(SidebarList::Collected), vec![SidebarList::Nav, SidebarList::My, SidebarList::Created]);
}

#[test]
fn chart_cover_files() {
    assert_eq!(toplist_cover_file(0), "0-toplist.jpg");
    assert_eq!(toplist_cover_file(19723756), "19723756-toplist.jpg");
}

#[test]
fn playlist_row_covers() {
    assert_eq!(songlist_cover_file(123), "123-songlist.jpg");
    assert!(matches!(create_playlist_row(&list(9), true), CoverSource::Cached(f) if f == "9-songlist.jpg"));
    assert!(matches!(create_playlist_row(&list(9), false),
        CoverSource::Download(u, f, 140, 140) if u == "http://c/9" && f == "9-songlist.jpg"));
}

#[test]
fn toplist_cards() {
    let mut v = TopListView::default();
    assert!(!v.has_sender);
    v.set_sender();
    let charts = vec![
        TopList { id: 19723756, name: "飙升榜".to_string(), update: "每天更新".to_string(), cover: "http://a".to_string() },
        TopList { id: 3778678, name: "热歌榜".to_string(), update: "每周四更新".to_string(), cover: "http://b".to_string() },
    ];
    let cards = v.init_toplist(charts, &[false, true]);
    assert_eq!(cards.len(), 2);
    assert!(matches!(&cards[0].cover, CoverSource::Download(u, f, 140, 140) if u == "http://a" && f == "19723756-toplist.jpg"));
    assert!(matches!(&cards[1].cover, CoverSource::Cached(f) if f == "3778678-toplist.jpg"));
    assert_eq!(cards[1].name, "热歌榜");
    assert_eq!(cards[1].update, "每周四更新");
    match v.toplist_card_activated_cb(1) {
        Some(Action::ToSongListPage(sl)) => {
            assert_eq!(sl.id, 3778678);
            assert_eq!(sl.name, "热歌榜");
            assert_eq!(sl.cover_img_url, "http://b");
            assert_eq!(sl.creator_id, 0);
        },
        _ => panic!("expected the chart's page"),
    }
    assert!(v.toplist_card_activated_cb(2).is_none());
    assert!(v.toplist_card_activated_cb(-3).is_none());
    let empty = TopListView::new();
    assert!(empty.data.is_empty());
}

#[test]
fn a_row_shows_its_answered_like() {
    let t = texts();
    let mut row = SonglistRow::new(&song(3), true, &t);
    let done = match row.like_button_clicked_cb() {
        Action::LikeSong(3, true, Some(done)) => done,
        _ => panic!("expected a like request"),
    };
    assert!(!row.like);
    row.set_like(done.like);
    assert!(row.like);
    assert_eq!(row.title, "song3");
    let done = match row.toggle_like_action() {
        Some(Action::LikeSong(3, false, Some(done))) => done,
        _ => panic!("expected an unlike request"),
    };
    row.set_like(done.like);
    assert!(!row.like);
}
