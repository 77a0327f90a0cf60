use ferrosonic::models::{tab_at_column, BrowseTab, SongOption};
use ferrosonic::notifications::{notification_body, replacement_id, TrackInfo};
use ferrosonic::now_playing::NowPlayingWidget;
use ferrosonic::subsonic::{Child, InternetRadioStation, OneOrMany};
use ferrosonic::ui::{
    lyrics_mutations, lyrics_scroll_target, queue_remaining_secs, radio_panel_text, track_info,
};

fn song_with(duration: Option<i32>) -> Child {
    Child {
        id: "s".to_string(),
        parent: None,
        is_dir: false,
        title: "t".to_string(),
        album: None,
        artist: None,
        track: None,
        year: None,
        genre: None,
        cover_art: None,
        size: None,
        content_type: None,
        suffix: None,
        duration,
        bit_rate: None,
        path: None,
        disc_number: None,
        starred: None,
    }
}

#[test]
fn format_duration_pads_minutes_and_seconds() {
    assert_eq!(song_with(Some(125)).format_duration(), "02:05");
    assert_eq!(song_with(Some(0)).format_duration(), "00:00");
    assert_eq!(song_with(Some(3600)).format_duration(), "60:00");
    assert_eq!(song_with(Some(59)).format_duration(), "00:59");
    assert_eq!(song_with(None).format_duration(), "--:--");
}

#[test]
fn format_duration_of_negative_values_follows_rust_division() {
    assert_eq!(song_with(Some(-5)).format_duration(), "00:-5");
    assert_eq!(song_with(Some(-61)).format_duration(), "-1:-1");
    assert_eq!(song_with(Some(-600)).format_duration(), "-10:00");
    assert_eq!(song_with(Some(i32::MIN)).format_duration(), "-35791394:-8");
    assert_eq!(song_with(Some(i32::MAX)).format_duration(), "35791394:07");
}

#[test]
fn one_or_many_first() {
    assert_eq!(OneOrMany::One(7).first(), Some(&7));
    assert_eq!(OneOrMany::Many(vec![1, 2]).first(), Some(&1));
    assert_eq!(OneOrMany::<i32>::Many(vec![]).first(), None);
    let d: OneOrMany<i32> = Default::default();
    assert_eq!(d.first(), None);
}

#[test]
fn tab_at_column_hits_titles() {
    // "│ Songs │ Albums │": border at 10, Songs at 12..17, Albums at 22..28.
    assert_eq!(tab_at_column(10, 10), None);
    assert_eq!(tab_at_column(10, 11), None);
    assert_eq!(tab_at_column(10, 12), Some(BrowseTab::Songs));
    assert_eq!(tab_at_column(10, 16), Some(BrowseTab::Songs));
    assert_eq!(tab_at_column(10, 17), None);
    assert_eq!(tab_at_column(10, 21), None);
    assert_eq!(tab_at_column(10, 22), Some(BrowseTab::Albums));
    assert_eq!(tab_at_column(10, 27), Some(BrowseTab::Albums));
    assert_eq!(tab_at_column(10, 28), None);
    assert_eq!(tab_at_column(0, 2), Some(BrowseTab::Songs));
}

#[test]
fn song_options_in_order() {
    let all = SongOption::all();
    assert_eq!(all, vec![SongOption::All, SongOption::Starred, SongOption::Random]);
    let labels: Vec<&str> = all.iter().map(|o| o.label()).collect();
    assert_eq!(labels, vec!["All", "Starred", "Random"]);
    assert_eq!(SongOption::Random.index(), 2);
    assert_eq!(SongOption::All.next(), Some(SongOption::Starred));
    assert_eq!(SongOption::Starred.next().and_then(|o| o.previous()), Some(SongOption::Starred));
    assert_eq!(BrowseTab::default(), BrowseTab::Songs);
}

#[test]
fn notification_text_and_replacement() {
    let t = TrackInfo { title: "Song".into(), artist: "Band".into(), album: "Record".into() };
    assert_eq!(notification_body(&t), "Band — Record");
    assert_eq!(replacement_id(0), None);
    assert_eq!(replacement_id(42), Some(42));
}

#[test]
fn now_playing_widget_builder() {
    let state = 5u8;
    let w = NowPlayingWidget::new(&state, "colors");
    assert!(!w.is_focused());
    let w = w.focused(true);
    assert!(w.is_focused());
    assert_eq!(*w.now_playing(), 5);
    assert_eq!(*w.colors(), "colors");
}

#[test]
fn remaining_time_counts_from_the_playing_song() {
    let q = vec![song_with(Some(100)), song_with(None), song_with(Some(30)), song_with(Some(12))];
    assert_eq!(queue_remaining_secs(&q, None), 142);
    assert_eq!(queue_remaining_secs(&q, Some(1)), 42);
    assert_eq!(queue_remaining_secs(&q, Some(3)), 12);
    assert_eq!(queue_remaining_secs(&q, Some(9)), 0);
}

#[test]
fn track_labels() {
    assert_eq!(track_info(Some(2), Some(7)), " [2.7]");
    assert_eq!(track_info(Some(1), Some(7)), " [#7]");
    assert_eq!(track_info(None, Some(12)), " [#12]");
    assert_eq!(track_info(Some(3), None), "");
    assert_eq!(track_info(Some(2), Some(-1)), " [2.-1]");
}

#[test]
fn lyrics_scroll_centres_the_current_line() {
    assert_eq!(lyrics_scroll_target(10, 0, 12), 5);
    assert_eq!(lyrics_scroll_target(10, 1, 12), 15);
    assert_eq!(lyrics_scroll_target(2, 0, 12), 0);
    assert_eq!(lyrics_scroll_target(4, 0, 1), 4);
}

#[test]
fn radio_panel_texts() {
    let st = InternetRadioStation {
        id: "1".into(),
        name: "Station".into(),
        stream_url: "u".into(),
        home_page_url: Some("https://h".into()),
        cover_art: None,
    };
    let (t, a, s) = radio_panel_text(&st, &None, &None);
    assert_eq!((t.as_str(), a.as_str(), s.as_str()), ("Station", "Internet Radio", "https://h"));
    let (t, a, _) = radio_panel_text(&st, &Some("Live".into()), &Some("DJ".into()));
    assert_eq!((t.as_str(), a.as_str()), ("Live", "DJ"));
}

#[test]
fn lyrics_mutations_follow_the_song_and_resume_after_five_seconds() {
    // Synced and not scrolled by hand: the current line is centred.
    assert_eq!(lyrics_mutations(true, false, Some(10), 0, 12, None), (Some(5), None));
    assert_eq!(lyrics_mutations(true, false, None, 0, 12, None), (None, None));
    // Scrolled by hand: nothing moves until five seconds have passed.
    assert_eq!(lyrics_mutations(true, true, Some(10), 0, 12, Some(4_000_000_000)), (None, None));
    assert_eq!(lyrics_mutations(true, true, Some(10), 0, 12, Some(5_000_000_000)), (None, None));
    assert_eq!(
        lyrics_mutations(true, true, Some(10), 0, 12, Some(5_000_000_001)),
        (None, Some(false))
    );
    assert_eq!(lyrics_mutations(true, true, Some(10), 0, 12, None), (None, None));
    // Unsynced lyrics never scroll by themselves.
    assert_eq!(lyrics_mutations(false, true, None, 0, 12, Some(9_000_000_000)), (None, None));
    assert_eq!(lyrics_mutations(false, false, Some(3), 0, 12, None), (None, None));
}
