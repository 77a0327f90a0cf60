use ferrosonic::browse::{
    album_fetch_failed, album_loaded_for_append, album_loaded_for_next, album_loaded_for_play,
    handle_browse_key, BrowseCommand, BrowsePage, Debounce,
};
use ferrosonic::keys::{KeyCode, KeyEvent, KeyModifiers};
use ferrosonic::lyrics_page::{handle_lyrics_key, LyricsState, ScrollTime};
use ferrosonic::models::{BrowseTab, SongOption};
use ferrosonic::radio::{
    handle_radio_click, handle_radio_key, selected_station, LastClick, RadioCommand, RadioState,
};
use ferrosonic::subsonic::{Album, Child, InternetRadioStation};

fn song(id: &str) -> Child {
    Child {
        id: id.to_string(),
        parent: None,
        is_dir: false,
        title: format!("Song {id}"),
        album: None,
        artist: None,
        track: None,
        year: None,
        genre: None,
        cover_art: None,
        size: None,
        content_type: None,
        suffix: None,
        duration: None,
        bit_rate: None,
        path: None,
        disc_number: None,
        starred: None,
    }
}

fn album(id: &str) -> Album {
    Album {
        id: id.to_string(),
        name: format!("Album {id}"),
        artist: None,
        artist_id: None,
        cover_art: None,
        song_count: None,
        duration: None,
        year: None,
        genre: None,
        starred: None,
    }
}

fn station(id: &str) -> InternetRadioStation {
    InternetRadioStation {
        id: id.to_string(),
        name: format!("Station {id}"),
        stream_url: format!("https://example.com/{id}.mp3"),
        home_page_url: None,
        cover_art: None,
    }
}

fn key(code: KeyCode) -> KeyEvent {
    KeyEvent { code, modifiers: KeyModifiers::Plain }
}

fn browse() -> BrowsePage {
    BrowsePage {
        browse_tab: BrowseTab::Songs,
        filter: String::new(),
        filter_active: false,
        focus: 0,
        selected_option: Some(SongOption::All),
        scroll_offset: 4,
        album_scroll_offset: 2,
        selected_index: None,
        selected_album: None,
        songs: vec![song("a"), song("b"), song("c")],
        albums: vec![album("x"), album("y")],
        backing_songs: vec![song("a"), song("b"), song("c")],
        backing_albums: vec![album("x"), album("y")],
        all_songs_offset: 100,
        all_songs_has_more: false,
        all_songs_loading: false,
        albums_offset: 50,
        albums_has_more: false,
        albums_loading: false,
        queue: vec![song("q0"), song("q1")],
        queue_position: None,
    }
}

fn queue_ids(p: &BrowsePage) -> Vec<String> {
    p.queue.iter().map(|s| s.id.clone()).collect()
}

#[test]
fn switching_tabs_resets_filter_and_loads() {
    let mut p = browse();
    p.filter = "abc".to_string();
    p.focus = 1;
    let out = handle_browse_key(&mut p, key(KeyCode::Right), 5);
    assert_eq!(p.browse_tab, BrowseTab::Albums);
    assert_eq!(p.filter, "");
    assert_eq!(p.focus, 0);
    assert_eq!(out.debounce, Debounce::Clear);
    assert!(matches!(out.command, BrowseCommand::FetchAlbums { more: false }));
    assert_eq!(p.albums_offset, 0);
    assert!(p.albums_has_more);
    let out = handle_browse_key(&mut p, key(KeyCode::Left), 5);
    assert_eq!(p.browse_tab, BrowseTab::Songs);
    assert!(matches!(out.command, BrowseCommand::FetchAllSongs { more: false }));
    assert_eq!(p.all_songs_offset, 0);
    // Left on the Songs tab does nothing.
    let out = handle_browse_key(&mut p, key(KeyCode::Left), 5);
    assert!(matches!(out.command, BrowseCommand::Nothing));
}

#[test]
fn options_pane_moves_between_options() {
    let mut p = browse();
    let out = handle_browse_key(&mut p, key(KeyCode::Down), 5);
    assert_eq!(p.selected_option, Some(SongOption::Starred));
    assert_eq!(p.scroll_offset, 0);
    assert_eq!(p.album_scroll_offset, 0);
    assert!(matches!(out.command, BrowseCommand::FetchStarredSongs));
    handle_browse_key(&mut p, key(KeyCode::Char('j')), 5);
    assert_eq!(p.selected_option, Some(SongOption::Random));
    let out = handle_browse_key(&mut p, key(KeyCode::Down), 5);
    assert_eq!(p.selected_option, Some(SongOption::Random));
    assert!(matches!(out.command, BrowseCommand::Nothing));
    handle_browse_key(&mut p, key(KeyCode::Up), 5);
    let out = handle_browse_key(&mut p, key(KeyCode::Char('k')), 5);
    assert_eq!(p.selected_option, Some(SongOption::All));
    assert!(matches!(out.command, BrowseCommand::FetchAllSongs { more: false }));
}

#[test]
fn tab_toggles_focus() {
    let mut p = browse();
    handle_browse_key(&mut p, key(KeyCode::Tab), 5);
    assert_eq!(p.focus, 1);
    handle_browse_key(&mut p, key(KeyCode::Tab), 5);
    assert_eq!(p.focus, 0);
}

#[test]
fn song_list_navigation_fetches_more_near_the_end() {
    let mut p = browse();
    p.focus = 1;
    p.all_songs_has_more = true;
    let out = handle_browse_key(&mut p, key(KeyCode::Down), 1);
    assert_eq!(p.selected_index, Some(0));
    assert!(matches!(out.command, BrowseCommand::Nothing));
    let out = handle_browse_key(&mut p, key(KeyCode::Down), 1);
    assert_eq!(p.selected_index, Some(1));
    assert!(matches!(out.command, BrowseCommand::Nothing));
    let out = handle_browse_key(&mut p, key(KeyCode::Down), 1);
    assert_eq!(p.selected_index, Some(2));
    assert!(matches!(out.command, BrowseCommand::FetchAllSongs { more: true }));
    p.all_songs_loading = true;
    let out = handle_browse_key(&mut p, key(KeyCode::Down), 1);
    assert_eq!(p.selected_index, Some(2));
    assert!(matches!(out.command, BrowseCommand::Nothing));
    handle_browse_key(&mut p, key(KeyCode::Up), 1);
    assert_eq!(p.selected_index, Some(1));
}

#[test]
fn filter_typing_and_closing() {
    let mut p = browse();
    handle_browse_key(&mut p, key(KeyCode::Char('/')), 5);
    assert!(p.filter_active);
    let out = handle_browse_key(&mut p, key(KeyCode::Char('r')), 5);
    assert_eq!(p.filter, "r");
    assert_eq!(out.debounce, Debounce::Start);
    handle_browse_key(&mut p, key(KeyCode::Char('o')), 5);
    handle_browse_key(&mut p, key(KeyCode::Backspace), 5);
    assert_eq!(p.filter, "r");
    let out = handle_browse_key(&mut p, key(KeyCode::Enter), 5);
    assert!(!p.filter_active);
    assert_eq!(p.focus, 1);
    assert_eq!(out.debounce, Debounce::Clear);
    assert!(matches!(out.command, BrowseCommand::FetchAllSongs { more: false }));
    // Filtering starred songs happens in place.
    let mut p = browse();
    p.selected_option = Some(SongOption::Starred);
    p.filter_active = true;
    let out = handle_browse_key(&mut p, key(KeyCode::Char('z')), 5);
    assert!(matches!(out.command, BrowseCommand::ApplySongFilter));
    let out = handle_browse_key(&mut p, key(KeyCode::Esc), 5);
    assert_eq!(p.filter, "");
    assert!(matches!(out.command, BrowseCommand::ApplySongFilter));
    // Albums are always filtered in place.
    let mut p = browse();
    p.browse_tab = BrowseTab::Albums;
    p.filter_active = true;
    let out = handle_browse_key(&mut p, key(KeyCode::Char('z')), 5);
    assert!(matches!(out.command, BrowseCommand::ApplyAlbumFilter));
    assert_eq!(out.debounce, Debounce::Keep);
}

#[test]
fn enter_on_a_song_replaces_the_queue_and_plays_it() {
    let mut p = browse();
    p.focus = 1;
    p.selected_index = Some(2);
    let out = handle_browse_key(&mut p, key(KeyCode::Enter), 5);
    assert_eq!(queue_ids(&p), vec!["a", "b", "c"]);
    assert!(matches!(out.command, BrowseCommand::SaveAndPlay(2)));
    let mut p = browse();
    p.selected_index = Some(9);
    let out = handle_browse_key(&mut p, key(KeyCode::Enter), 5);
    assert!(matches!(out.command, BrowseCommand::Nothing));
    assert_eq!(queue_ids(&p), vec!["q0", "q1"]);
}

#[test]
fn enter_on_an_album_fetches_it_to_play() {
    let mut p = browse();
    p.browse_tab = BrowseTab::Albums;
    p.selected_album = Some(1);
    let out = handle_browse_key(&mut p, key(KeyCode::Enter), 5);
    match out.command {
        BrowseCommand::PlayAlbum { id, name } => {
            assert_eq!(id, "y");
            assert_eq!(name, "Album y");
        }
        other => panic!("unexpected {other:?}"),
    }
    let out = album_loaded_for_play(&mut p, "Album y", vec![song("t1"), song("t2")]);
    assert_eq!(queue_ids(&p), vec!["t1", "t2"]);
    assert_eq!(out.notice.as_deref(), Some("Playing: Album y (2 songs)"));
    assert!(matches!(out.command, BrowseCommand::SaveAndPlay(0)));
}

#[test]
fn add_song_and_album_to_queue() {
    let mut p = browse();
    p.focus = 1;
    p.selected_index = Some(0);
    let out = handle_browse_key(&mut p, key(KeyCode::Char('e')), 5);
    assert_eq!(queue_ids(&p), vec!["q0", "q1", "a"]);
    assert_eq!(out.notice.as_deref(), Some("Added to queue: Song a"));
    assert!(matches!(out.command, BrowseCommand::SaveQueue));
    let out = album_loaded_for_append(&mut p, "Album x", vec![song("t1")]);
    assert_eq!(queue_ids(&p), vec!["q0", "q1", "a", "t1"]);
    assert_eq!(out.notice.as_deref(), Some("Added to queue: Album x (1 songs)"));
}

#[test]
fn play_next_goes_after_the_playing_song() {
    let mut p = browse();
    p.focus = 1;
    p.selected_index = Some(1);
    p.queue_position = Some(0);
    let out = handle_browse_key(&mut p, key(KeyCode::Char('n')), 5);
    assert_eq!(queue_ids(&p), vec!["q0", "b", "q1"]);
    assert_eq!(out.notice.as_deref(), Some("Playing next: Song b"));
    assert!(matches!(out.command, BrowseCommand::SaveAndPreload(0)));
    let out = album_loaded_for_next(&mut p, "Album x", vec![song("t1"), song("t2")]);
    assert_eq!(queue_ids(&p), vec!["q0", "t1", "t2", "b", "q1"]);
    assert_eq!(out.notice.as_deref(), Some("Playing next: Album x (2 songs)"));
    let mut p = browse();
    p.focus = 1;
    p.selected_index = Some(2);
    let out = handle_browse_key(&mut p, key(KeyCode::Char('n')), 5);
    assert_eq!(queue_ids(&p), vec!["c", "q0", "q1"]);
    assert!(matches!(out.command, BrowseCommand::SaveQueue));
}

#[test]
fn star_album_updates_the_backing_list() {
    let mut p = browse();
    p.browse_tab = BrowseTab::Albums;
    p.focus = 1;
    p.selected_album = Some(1);
    p.selected_option = Some(SongOption::Starred);
    let out = handle_browse_key(&mut p, key(KeyCode::Char('f')), 5);
    assert_eq!(p.albums[1].starred.as_deref(), Some("starred"));
    assert_eq!(p.backing_albums[1].starred.as_deref(), Some("starred"));
    assert_eq!(p.backing_albums[0].starred, None);
    match out.command {
        BrowseCommand::StarAlbum { id, star, refresh } => {
            assert_eq!(id, "y");
            assert!(star);
            assert!(refresh);
        }
        other => panic!("unexpected {other:?}"),
    }
}

#[test]
fn star_song_twice_unstars_it() {
    let mut p = browse();
    p.focus = 1;
    p.selected_index = Some(0);
    handle_browse_key(&mut p, key(KeyCode::Char('f')), 5);
    assert!(p.songs[0].starred.is_some());
    assert!(p.backing_songs[0].starred.is_some());
    let out = handle_browse_key(&mut p, key(KeyCode::Char('f')), 5);
    assert!(p.songs[0].starred.is_none());
    assert!(p.backing_songs[0].starred.is_none());
    assert!(matches!(out.command, BrowseCommand::StarSong { star: false, refresh: false, .. }));
}

#[test]
fn album_fetch_errors() {
    let out = album_fetch_failed(true, "timeout");
    assert_eq!(out.error.as_deref(), Some("Failed to load album: timeout"));
    let out = album_fetch_failed(false, "404");
    assert_eq!(out.error.as_deref(), Some("Failed to fetch songs for album: 404"));
}

#[test]
fn radio_keys() {
    let mut r = RadioState { stations: vec![station("1"), station("2")], selected: None, scroll_offset: 0 };
    let c = handle_radio_key(&mut r, key(KeyCode::Char(' ')), None);
    assert!(matches!(c, RadioCommand::TogglePause));
    handle_radio_key(&mut r, key(KeyCode::Down), None);
    handle_radio_key(&mut r, key(KeyCode::Down), None);
    handle_radio_key(&mut r, key(KeyCode::Down), None);
    assert_eq!(r.selected, Some(1));
    let c = handle_radio_key(&mut r, key(KeyCode::Enter), None);
    assert!(matches!(c, RadioCommand::PlayStation(ref s) if s.id == "2"));
    let c = handle_radio_key(&mut r, key(KeyCode::Char(' ')), Some("2"));
    assert!(matches!(c, RadioCommand::TogglePause));
    let c = handle_radio_key(&mut r, key(KeyCode::Char(' ')), Some("1"));
    assert!(matches!(c, RadioCommand::PlayStation(ref s) if s.id == "2"));
    assert_eq!(selected_station(&r).map(|s| s.id), Some("2".to_string()));
    r.selected = Some(5);
    assert!(selected_station(&r).is_none());
}

#[test]
fn radio_double_click_plays() {
    let mut r = RadioState { stations: vec![station("1"), station("2"), station("3")], selected: None, scroll_offset: 1 };
    let play = handle_radio_click(&mut r, 4, 11, 10, None);
    assert_eq!(r.selected, Some(1));
    assert!(play.is_none());
    let last = LastClick { x: 4, y: 11, elapsed_ms: 120 };
    let play = handle_radio_click(&mut r, 4, 11, 10, Some(last));
    assert_eq!(play.map(|s| s.id), Some("2".to_string()));
    let slow = LastClick { x: 4, y: 11, elapsed_ms: 800 };
    assert!(handle_radio_click(&mut r, 4, 11, 10, Some(slow)).is_none());
    // A click below the list changes nothing.
    let play = handle_radio_click(&mut r, 4, 30, 10, Some(last));
    assert!(play.is_none());
    assert_eq!(r.selected, Some(1));
}

#[test]
fn lyrics_keys() {
    let mut s = LyricsState { scroll_offset: 3, is_manual_scroll: false, line_spacing: 0 };
    assert_eq!(handle_lyrics_key(&mut s, key(KeyCode::Up)), ScrollTime::SetNow);
    assert_eq!(s.scroll_offset, 2);
    assert!(s.is_manual_scroll);
    handle_lyrics_key(&mut s, KeyEvent { code: KeyCode::Char('b'), modifiers: KeyModifiers::Control });
    assert_eq!(s.scroll_offset, 0);
    handle_lyrics_key(&mut s, key(KeyCode::PageDown));
    assert_eq!(s.scroll_offset, 10);
    // 'k' with Control is not a scroll key.
    handle_lyrics_key(&mut s, KeyEvent { code: KeyCode::Char('k'), modifiers: KeyModifiers::Control });
    assert_eq!(s.scroll_offset, 10);
    assert_eq!(handle_lyrics_key(&mut s, key(KeyCode::Char('a'))), ScrollTime::Clear);
    assert!(!s.is_manual_scroll);
    assert_eq!(s.scroll_offset, 10);
    handle_lyrics_key(&mut s, key(KeyCode::Home));
    assert_eq!(s.scroll_offset, 0);
    for _ in 0..8 {
        handle_lyrics_key(&mut s, key(KeyCode::Char(']')));
    }
    assert_eq!(s.line_spacing, 5);
    handle_lyrics_key(&mut s, key(KeyCode::Char('[')));
    assert_eq!(s.line_spacing, 4);
    s.scroll_offset = usize::MAX - 3;
    handle_lyrics_key(&mut s, key(KeyCode::PageDown));
    assert_eq!(s.scroll_offset, usize::MAX);
}

#[test]
fn line_spacing_stays_between_zero_and_five() {
    let mut s = LyricsState { scroll_offset: 0, is_manual_scroll: false, line_spacing: 1 };
    handle_lyrics_key(&mut s, key(KeyCode::Char('[')));
    assert_eq!(s.line_spacing, 0);
    handle_lyrics_key(&mut s, key(KeyCode::Char('[')));
    assert_eq!(s.line_spacing, 0);
    // Any modifier widens too; other keys leave the spacing alone.
    handle_lyrics_key(&mut s, KeyEvent { code: KeyCode::Char(']'), modifiers: KeyModifiers::Control });
    assert_eq!(s.line_spacing, 1);
    handle_lyrics_key(&mut s, key(KeyCode::Down));
    handle_lyrics_key(&mut s, key(KeyCode::Home));
    assert_eq!(s.line_spacing, 1);
}

#[test]
fn album_list_selection_stays_inside_the_list() {
    let mut p = browse();
    p.focus = 1;
    p.browse_tab = BrowseTab::Albums;
    let n = p.albums.len();
    for _ in 0..n + 3 {
        handle_browse_key(&mut p, key(KeyCode::Char('j')), 0);
    }
    assert_eq!(p.selected_album, Some(n - 1));
    for _ in 0..n + 3 {
        handle_browse_key(&mut p, key(KeyCode::Char('k')), 0);
    }
    assert_eq!(p.selected_album, Some(0));
    assert_eq!(p.focus, 1);
}
