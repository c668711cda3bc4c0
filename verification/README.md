# netease_cloud_music_gtk4

The state and decisions of the NeteaseCloudMusicGtk4 main window, its song
rows and its toplist view, written in Verus and proved against their
contracts. The widgets themselves live in `app/`, which draws them from this
state and carries the requests to the application.

- `src/window.rs`: the window state, the logged-in user and the liked songs.
- `src/pages.rs`: the pages stacked over the content and the header bar.
- `src/overlay.rs`, `src/lyrics.rs`: the lyrics overlay and its highlight.
- `src/playlist.rs`: the play list drawer and the play list requests.
- `src/sidebar.rs`: the sidebar with the user's play lists.
- `src/search.rs`: search requests, their results and the search entry.
- `src/songlist_row.rs`, `src/toplist.rs`: a song row and the chart cards.
- `src/settings.rs`: the color scheme of the style setting.
- `src/text.rs`, `src/texts.rs`: numbers as text, trimming, the texts of the
  window and their message ids (`app/i18n.rs` translates them).
- `src/laws.rs`: properties that span several functions.
