use ferrosonic::now_playing::{panel_last_row, panel_layout, progress_bar_geometry, LastRow, PanelLayout};
use ferrosonic::quality::quality_line;
use ferrosonic::subsonic::{Child, InternetRadioStation};

fn song() -> Child {
    Child {
        id: "s".to_string(),
        parent: None,
        is_dir: false,
        title: "Song".to_string(),
        album: Some("Album".to_string()),
        artist: None,
        track: None,
        year: None,
        genre: None,
        cover_art: None,
        size: None,
        content_type: None,
        suffix: None,
        duration: Some(200),
        bit_rate: None,
        path: None,
        disc_number: None,
        starred: None,
    }
}

fn station() -> InternetRadioStation {
    InternetRadioStation {
        id: "r".to_string(),
        name: "Station".to_string(),
        stream_url: "http://s".to_string(),
        home_page_url: None,
        cover_art: None,
    }
}

fn texts(l: &PanelLayout) -> Vec<String> {
    match l {
        PanelLayout::Hidden => vec!["hidden".to_string()],
        PanelLayout::Idle => vec!["idle".to_string()],
        PanelLayout::Full { artist, second, title, quality } => vec![
            artist.clone(),
            second.clone(),
            title.clone(),
            quality.clone().unwrap_or_else(|| "-".to_string()),
        ],
        PanelLayout::Compact { title, artist, second } => {
            vec![title.clone(), artist.clone(), second.clone()]
        }
        PanelLayout::Minimal { title } => vec![title.clone()],
    }
}

#[test]
fn panel_is_hidden_when_too_small() {
    let l = panel_layout(19, 10, &Some(song()), &None, &None, &None, "");
    assert_eq!(texts(&l), vec!["hidden"]);
    let l = panel_layout(40, 3, &Some(song()), &None, &None, &None, "");
    assert_eq!(texts(&l), vec!["hidden"]);
}

#[test]
fn panel_without_anything_playing_is_idle() {
    let l = panel_layout(40, 10, &None, &None, &None, &None, "FLAC");
    assert_eq!(texts(&l), vec!["idle"]);
}

#[test]
fn song_panel_layouts_by_height() {
    let s = Some(song());
    let l = panel_layout(40, 7, &s, &None, &None, &None, "FLAC │ 16-bit");
    assert_eq!(texts(&l), vec!["", "Album", "Song", "FLAC │ 16-bit"]);
    let l = panel_layout(40, 7, &s, &None, &None, &None, "");
    assert_eq!(texts(&l), vec!["", "Album", "Song", "-"]);
    // A song's compact layout shows its album, never the quality.
    let l = panel_layout(40, 6, &s, &None, &None, &None, "FLAC");
    assert_eq!(texts(&l), vec!["Song", "", "Album"]);
    let l = panel_layout(40, 5, &s, &None, &None, &None, "FLAC");
    assert_eq!(texts(&l), vec!["Song", "", "Album"]);
    let l = panel_layout(40, 4, &s, &None, &None, &None, "FLAC");
    assert_eq!(texts(&l), vec!["Song"]);
}

#[test]
fn radio_panel_wins_over_the_song() {
    let l = panel_layout(40, 7, &Some(song()), &Some(station()), &None, &None, "MP3");
    assert_eq!(texts(&l), vec!["Internet Radio", "Station", "Station", "MP3"]);
    let l = panel_layout(40, 5, &None, &Some(station()), &Some("Live".into()), &Some("DJ".into()), "MP3");
    assert_eq!(texts(&l), vec!["Live", "DJ", "MP3"]);
    let l = panel_layout(40, 5, &None, &Some(station()), &None, &None, "");
    assert_eq!(texts(&l), vec!["Station", "Internet Radio", "Station"]);
}

#[test]
fn progress_bar_positions() {
    assert_eq!(progress_bar_geometry(0, 14, 13), None);
    // "01:00 / 03:20" is 13 cells: the bar takes what is left but 16 cells.
    assert_eq!(progress_bar_geometry(0, 40, 13), Some((0, 15, 24)));
    assert_eq!(progress_bar_geometry(10, 40, 13), Some((10, 25, 24)));
    // No room for a bar: the time text alone is centred.
    assert_eq!(progress_bar_geometry(0, 15, 13), Some((0, 15, 0)));
    assert_eq!(progress_bar_geometry(0, 20, 16), Some((0, 18, 1)));
    assert_eq!(progress_bar_geometry(0, 21, 16), Some((0, 18, 2)));
    assert_eq!(progress_bar_geometry(0, 18, 16), Some((0, 18, 0)));
    assert_eq!(progress_bar_geometry(0, 16, 20), Some((0, 22, 0)));
}

#[test]
fn radio_shows_elapsed_time_and_songs_a_progress_bar() {
    assert_eq!(panel_last_row(&Some(station())), LastRow::Elapsed);
    assert_eq!(panel_last_row(&None), LastRow::ProgressBar);
}

#[test]
fn quality_line_joins_the_known_parts() {
    assert_eq!(
        quality_line(Some("FLAC"), Some(24), Some(96000), "", Some("Stereo")),
        "FLAC │ 24-bit │ 96kHz │ Stereo"
    );
    assert_eq!(quality_line(None, None, Some(44100), "44.1", None), "44.1kHz");
    assert_eq!(quality_line(Some("MP3"), None, None, "", Some("Mono")), "MP3 │ Mono");
    assert_eq!(quality_line(None, Some(16), None, "", None), "16-bit");
    assert_eq!(quality_line(None, None, None, "", None), "");
}
