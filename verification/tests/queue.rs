use ferrosonic::keys::{KeyCode, KeyEvent, KeyModifiers};
use ferrosonic::queue::{handle_queue_key, QueueCommand, QueuePage};
use ferrosonic::subsonic::Child;

fn song(id: &str) -> Child {
    Child {
        id: id.to_string(),
        parent: None,
        is_dir: false,
        title: format!("Title {id}"),
        album: None,
        artist: None,
        track: None,
        year: None,
        genre: None,
        cover_art: None,
        size: None,
        content_type: None,
        suffix: None,
        duration: None,
        bit_rate: None,
        path: None,
        disc_number: None,
        starred: None,
    }
}

fn key(code: KeyCode) -> KeyEvent {
    KeyEvent { code, modifiers: KeyModifiers::Plain }
}

fn page(ids: &[&str], selected: Option<usize>, position: Option<usize>) -> QueuePage {
    QueuePage {
        queue: ids.iter().map(|i| song(i)).collect(),
        selected,
        queue_position: position,
        starred_songs_dirty: false,
    }
}

fn ids(p: &QueuePage) -> Vec<String> {
    p.queue.iter().map(|s| s.id.clone()).collect()
}

#[test]
fn up_and_down_move_the_selection_within_bounds() {
    let mut p = page(&["a", "b", "c"], None, None);
    handle_queue_key(&mut p, key(KeyCode::Down));
    assert_eq!(p.selected, Some(0));
    handle_queue_key(&mut p, key(KeyCode::Char('j')));
    handle_queue_key(&mut p, key(KeyCode::Down));
    handle_queue_key(&mut p, key(KeyCode::Down));
    assert_eq!(p.selected, Some(2));
    handle_queue_key(&mut p, key(KeyCode::Char('k')));
    assert_eq!(p.selected, Some(1));
    handle_queue_key(&mut p, key(KeyCode::Up));
    handle_queue_key(&mut p, key(KeyCode::Up));
    assert_eq!(p.selected, Some(0));
    let mut empty = page(&[], None, None);
    handle_queue_key(&mut empty, key(KeyCode::Up));
    assert_eq!(empty.selected, None);
}

#[test]
fn enter_plays_the_selected_song() {
    let mut p = page(&["a", "b"], Some(1), None);
    let out = handle_queue_key(&mut p, key(KeyCode::Enter));
    assert!(matches!(out.command, QueueCommand::PlayPosition(1)));
    let mut q = page(&["a"], Some(3), None);
    let out = handle_queue_key(&mut q, key(KeyCode::Enter));
    assert!(matches!(out.command, QueueCommand::Nothing));
}

#[test]
fn remove_adjusts_selection_and_position() {
    let mut p = page(&["a", "b", "c"], Some(0), Some(2));
    let out = handle_queue_key(&mut p, key(KeyCode::Char('d')));
    assert_eq!(ids(&p), vec!["b", "c"]);
    assert_eq!(p.queue_position, Some(1));
    assert_eq!(p.selected, Some(0));
    assert_eq!(out.notice.as_deref(), Some("Removed: Title a"));
    assert!(matches!(out.command, QueueCommand::SaveQueue));
    // Removing the last row moves the selection up.
    let mut p = page(&["a", "b", "c"], Some(2), Some(0));
    handle_queue_key(&mut p, key(KeyCode::Char('d')));
    assert_eq!(p.selected, Some(1));
    assert_eq!(p.queue_position, Some(0));
    // Removing the playing song clears the position.
    let mut p = page(&["a", "b"], Some(1), Some(1));
    handle_queue_key(&mut p, key(KeyCode::Char('d')));
    assert_eq!(p.queue_position, None);
    // Removing the only song clears the selection.
    let mut p = page(&["a"], Some(0), None);
    handle_queue_key(&mut p, key(KeyCode::Char('d')));
    assert!(p.queue.is_empty());
    assert_eq!(p.selected, None);
}

#[test]
fn move_down_then_up_restores_the_queue() {
    let mut p = page(&["a", "b", "c"], Some(0), Some(1));
    handle_queue_key(&mut p, key(KeyCode::Char('J')));
    assert_eq!(ids(&p), vec!["b", "a", "c"]);
    assert_eq!(p.selected, Some(1));
    assert_eq!(p.queue_position, Some(0));
    handle_queue_key(&mut p, key(KeyCode::Char('K')));
    assert_eq!(ids(&p), vec!["a", "b", "c"]);
    assert_eq!(p.selected, Some(0));
    assert_eq!(p.queue_position, Some(1));
}

#[test]
fn moves_at_the_edges_do_nothing() {
    let mut p = page(&["a", "b"], Some(1), None);
    let out = handle_queue_key(&mut p, key(KeyCode::Char('J')));
    assert!(matches!(out.command, QueueCommand::Nothing));
    let mut p = page(&["a", "b"], Some(0), None);
    let out = handle_queue_key(&mut p, key(KeyCode::Char('K')));
    assert!(matches!(out.command, QueueCommand::Nothing));
    assert_eq!(ids(&p), vec!["a", "b"]);
}

#[test]
fn clear_history_drops_played_songs() {
    let mut p = page(&["a", "b", "c", "d"], Some(3), Some(2));
    let out = handle_queue_key(&mut p, key(KeyCode::Char('c')));
    assert_eq!(ids(&p), vec!["c", "d"]);
    assert_eq!(p.queue_position, Some(0));
    assert_eq!(p.selected, Some(1));
    assert_eq!(out.notice.as_deref(), Some("Cleared 2 played songs"));
    let mut p = page(&["a", "b"], Some(0), Some(0));
    let out = handle_queue_key(&mut p, key(KeyCode::Char('c')));
    assert_eq!(out.notice.as_deref(), Some("No history to clear"));
    assert!(matches!(out.command, QueueCommand::Nothing));
    let mut p = page(&["a", "b", "c"], Some(0), Some(2));
    handle_queue_key(&mut p, key(KeyCode::Char('c')));
    assert_eq!(p.selected, Some(0));
}

#[test]
fn star_toggles_and_asks_the_server() {
    let mut p = page(&["a", "b"], Some(1), None);
    let out = handle_queue_key(&mut p, key(KeyCode::Char('f')));
    assert_eq!(p.queue[1].starred.as_deref(), Some("starred"));
    assert!(p.starred_songs_dirty);
    assert!(matches!(out.command, QueueCommand::StarSong(ref id) if id == "b"));
    let out = handle_queue_key(&mut p, key(KeyCode::Char('f')));
    assert_eq!(p.queue[1].starred, None);
    assert!(matches!(out.command, QueueCommand::UnstarSong(ref id) if id == "b"));
    let mut p = page(&["a"], None, None);
    let out = handle_queue_key(&mut p, key(KeyCode::Char('f')));
    assert!(matches!(out.command, QueueCommand::Nothing));
}

#[test]
fn shuffle_keeps_the_playing_song_first_and_every_song() {
    let names: Vec<String> = (0..12).map(|i| format!("s{i}")).collect();
    let refs: Vec<&str> = names.iter().map(|s| s.as_str()).collect();
    let mut changed = false;
    for _ in 0..20 {
        let mut p = page(&refs, Some(3), Some(5));
        let out = handle_queue_key(&mut p, key(KeyCode::Char('s')));
        assert_eq!(out.notice.as_deref(), Some("Queue shuffled"));
        assert_eq!(p.queue_position, Some(0));
        assert_eq!(p.queue[0].id, "s5");
        assert_eq!(p.selected, Some(3));
        let mut got = ids(&p);
        let rest: Vec<String> = got[1..].to_vec();
        let expected_rest: Vec<String> = names.iter().filter(|n| *n != "s5").cloned().collect();
        if rest != expected_rest {
            changed = true;
        }
        got.sort();
        let mut all = names.clone();
        all.sort();
        assert_eq!(got, all);
    }
    assert!(changed);
}

#[test]
fn shuffle_without_playing_song_keeps_every_song() {
    let mut p = page(&["a", "b", "c", "d"], None, None);
    handle_queue_key(&mut p, key(KeyCode::Char('s')));
    let mut got = ids(&p);
    got.sort();
    assert_eq!(got, vec!["a", "b", "c", "d"]);
    assert_eq!(p.queue_position, None);
    // A position past the end leaves the queue as it is.
    let mut p = page(&["a", "b"], None, Some(7));
    handle_queue_key(&mut p, key(KeyCode::Char('s')));
    assert_eq!(ids(&p), vec!["a", "b"]);
    assert_eq!(p.queue_position, Some(7));
}

#[test]
fn other_keys_do_nothing() {
    let mut p = page(&["a"], Some(0), Some(0));
    let out = handle_queue_key(&mut p, key(KeyCode::Char('x')));
    assert!(matches!(out.command, QueueCommand::Nothing));
    assert!(out.notice.is_none());
    assert_eq!(ids(&p), vec!["a"]);
}
