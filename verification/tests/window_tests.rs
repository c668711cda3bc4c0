use netease_cloud_music_gtk4::model::{Action, LoginInfo, SearchType, SongInfo};
use netease_cloud_music_gtk4::texts::Texts;
use netease_cloud_music_gtk4::window::{ContentPage, NavRow, NeteaseCloudMusicGtk4Window, SidebarList};

fn texts() -> Texts {
    Texts {
        app_name: "Netease Cloud Music".to_string(),
        toplist: "Toplist".to_string(),
        play_list_lyrics: "Play List&Lyrics".to_string(),
        no_playable_songs: "No playable songs found！".to_string(),
        request_failed: "Request for interface failed, please try again!".to_string(),
        album_not_found: "Album not found!".to_string(),
        unknown_artist: "Unknown artist".to_string(),
    }
}

fn song(id: u64) -> SongInfo {
    SongInfo {
        id,
        name: format!("song{}", id),
        singer: "singer".to_string(),
        album: "album".to_string(),
        album_id: 7,
        pic_url: "http://pic".to_string(),
        duration: 1000,
        song_url: String::new(),
        playable: true,
    }
}

#[test]
fn fresh_window() {
    let w = NeteaseCloudMusicGtk4Window::new(texts());
    assert_eq!(w.get_uid(), 0);
    assert!(!w.is_logined());
    assert_eq!(w.get_nickname(), "");
    assert_eq!(w.title, "Netease Cloud Music");
    assert!(!w.back_visible);
    assert!(w.pages.is_empty());
    assert_eq!(w.search_type, SearchType::Song);
    assert_eq!(w.content_page, ContentPage::Discover);
    assert!(!w.drawer_open);
    assert!(!w.is_lyrics_overlay_visible());
}

#[test]
fn login_and_logout() {
    let mut w = NeteaseCloudMusicGtk4Window::new(texts());
    w.set_uid(42);
    w.set_nickname("bob".to_string());
    w.set_user_like_songs(&[1, 2, 3]);
    assert!(w.is_logined());
    assert_eq!(w.get_nickname(), "bob");
    assert!(w.user_like_song_contains(&2));
    w.logout();
    assert!(!w.is_logined());
    assert_eq!(w.get_nickname(), "");
    assert!(!w.user_like_song_contains(&2));
}

#[test]
fn liking_and_unliking() {
    let mut w = NeteaseCloudMusicGtk4Window::new(texts());
    w.user_like_song_add(5);
    assert!(w.user_like_song_contains(&5));
    assert!(!w.user_like_song_contains(&6));
    w.user_like_song_remove(&5);
    assert!(!w.user_like_song_contains(&5));
    // the playing song is the one liked: its button follows
    assert!(w.set_like_song(9, true, Some(9)));
    assert!(w.user_like_song_contains(&9));
    assert!(!w.set_like_song(9, false, Some(8)));
    assert!(!w.user_like_song_contains(&9));
    assert!(!w.set_like_song(9, true, None));
    w.clear_user_info();
    assert!(!w.user_like_song_contains(&9));
}

#[test]
fn likes_of_a_song_list() {
    let mut w = NeteaseCloudMusicGtk4Window::new(texts());
    w.set_user_like_songs(&[2, 4]);
    let sis = vec![song(1), song(2), song(3), song(4), song(2)];
    assert_eq!(w.get_song_likes(&sis), vec![false, true, false, true, true]);
    assert!(w.play(&song(4)));
    assert!(!w.play(&song(3)));
    assert_eq!(w.get_song_likes(&[]), Vec::<bool>::new());
}

#[test]
fn likes_follow_set_like_song() {
    let mut w = NeteaseCloudMusicGtk4Window::new(texts());
    let sis = vec![song(1), song(2), song(1)];
    w.set_like_song(1, true, None);
    assert_eq!(w.get_song_likes(&sis), vec![true, false, true]);
    w.set_like_song(1, false, None);
    assert_eq!(w.get_song_likes(&sis), vec![false, false, false]);
}

#[test]
fn user_menu_names() {
    let w = NeteaseCloudMusicGtk4Window::new(texts());
    let plain = LoginInfo { uid: 1, nickname: "bob".to_string(), avatar_url: String::new(), vip_type: 0 };
    let vip = LoginInfo { uid: 1, nickname: "bob".to_string(), avatar_url: String::new(), vip_type: 11 };
    assert_eq!(w.switch_user_menu_to_user(&plain), "bob");
    assert_eq!(w.switch_user_menu_to_user(&vip), "👑bob");
}

#[test]
fn stacking_and_going_back() {
    let mut w = NeteaseCloudMusicGtk4Window::new(texts());
    assert!(w.page_new(1, "Album A", "album"));
    assert_eq!(w.title, "Album A");
    assert!(w.back_visible);
    // the same title and name again is not stacked
    assert!(!w.page_new(2, "Album A", "album"));
    assert_eq!(w.pages.len(), 1);
    // another name with the same title is stacked
    assert!(w.page_new(3, "Album A", "other"));
    assert_eq!(w.pages.len(), 2);
    assert_eq!(w.page_back(), None);
    assert_eq!(w.title, "Album A");
    assert!(w.back_visible);
    assert_eq!(w.page_back(), None);
    assert!(w.pages.is_empty());
    assert!(!w.back_visible);
    assert_eq!(w.title, "Netease Cloud Music");
    // back on the content page changes nothing but the header
    assert_eq!(w.page_back(), None);
    assert!(w.pages.is_empty());
}

#[test]
fn back_undoes_a_new_page() {
    let mut w = NeteaseCloudMusicGtk4Window::new(texts());
    w.page_new(1, "A", "a");
    w.page_new(2, "B", "b");
    let before: Vec<u64> = w.pages.iter().map(|p| p.widget).collect();
    assert!(w.page_new(3, "C", "c"));
    w.page_back();
    let after: Vec<u64> = w.pages.iter().map(|p| p.widget).collect();
    assert_eq!(before, after);
    assert_eq!(w.title, "B");
    assert!(w.back_visible);
    // from the content page and back: its title, no back button
    let mut w = NeteaseCloudMusicGtk4Window::new(texts());
    assert!(w.page_new(4, "D", "d"));
    assert!(w.back_visible);
    w.page_back();
    assert!(w.pages.is_empty());
    assert!(!w.back_visible);
    assert_eq!(w.title, "Netease Cloud Music");
}

#[test]
fn named_page_replaces_its_namesake() {
    let mut w = NeteaseCloudMusicGtk4Window::new(texts());
    w.page_new_with_name("search", 1, "first");
    w.page_new(2, "Album", "album");
    w.page_new_with_name("search", 3, "second");
    let widgets: Vec<u64> = w.pages.iter().map(|p| p.widget).collect();
    assert_eq!(widgets, vec![2, 3]);
    let named = w.pages.iter().filter(|p| p.name.as_deref() == Some("search")).count();
    assert_eq!(named, 1);
    assert_eq!(w.title, "second");
}

#[test]
fn navigation_rows() {
    let mut w = NeteaseCloudMusicGtk4Window::new(texts());
    w.page_new(1, "A", "a");
    w.page_new(2, "B", "b");
    w.nav_row_activated_cb(NavRow::Toplist);
    assert_eq!(w.selected_list, Some(SidebarList::Nav));
    assert!(w.pages.is_empty());
    assert!(!w.back_visible);
    assert_eq!(w.content_page, ContentPage::Toplist);
    assert_eq!(w.title, "Toplist");
    w.page_new(3, "C", "c");
    w.page_back();
    assert_eq!(w.title, "Toplist");
    w.nav_row_activated_cb(NavRow::Discover);
    assert_eq!(w.content_page, ContentPage::Discover);
    assert_eq!(w.title, "Netease Cloud Music");
    w.page_set_info("custom");
    w.nav_row_activated_cb(NavRow::Other);
    assert_eq!(w.title, "custom");
    assert_eq!(w.content_page, ContentPage::Discover);
}

#[test]
fn lyrics_page_on_top() {
    let mut w = NeteaseCloudMusicGtk4Window::new(texts());
    assert!(!w.page_cur_playlist_lyrics_page(9));
    let (likes, pushed) = w.init_playlist_lyrics_page(&[song(1)], 9);
    assert!(pushed);
    assert_eq!(likes, vec![false]);
    assert!(w.page_cur_playlist_lyrics_page(9));
    assert_eq!(w.title, "Play List&Lyrics");
    // on top already: not stacked again
    let (_, pushed) = w.init_playlist_lyrics_page(&[song(1)], 10);
    assert!(!pushed);
    assert!(w.page_cur_playlist_lyrics_page(9));
    w.page_new(11, "Other", "other");
    assert!(!w.page_cur_playlist_lyrics_page(9));
}

#[test]
fn playlist_start_and_add() {
    let w = NeteaseCloudMusicGtk4Window::new(texts());
    match w.playlist_start(Some(&song(3))) {
        Action::Play(si) => assert_eq!(si.id, 3),
        _ => panic!("expected Play"),
    }
    match w.playlist_start(None) {
        Action::AddToast(t) => assert_eq!(t, "No playable songs found！"),
        _ => panic!("expected a toast"),
    }
    assert!(matches!(w.add_playlist(true), Some(Action::PlayListStart)));
    assert!(w.add_playlist(false).is_none());
    assert!(matches!(w.add_playlist_at(), Action::PlayListStart));
    assert!(matches!(w.init_page_data(), Action::GetToplist));
    assert!(matches!(w.drawer_clear_clicked_cb(), Action::ClearPlaylist));
}
