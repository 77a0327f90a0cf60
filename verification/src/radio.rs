//! The radio page: choosing an internet radio station and playing it.

use vstd::prelude::*;
use crate::keys::{KeyCode, KeyEvent, is_down, is_up};
use crate::queue::{select_down, select_down_exec, select_up, select_up_exec};
use crate::subsonic::InternetRadioStation;

verus! {

/// The stations the radio page lists, the selected row and how far the list
/// is scrolled.
pub struct RadioState {
    pub stations: Vec<InternetRadioStation>,
    pub selected: Option<usize>,
    pub scroll_offset: usize,
}

/// The station at the selected row, if a row inside the list is selected.
pub open spec fn spec_selected_station(radio: RadioState) -> Option<InternetRadioStation> {
    match radio.selected {
        Some(idx) => if idx < radio.stations@.len() {
            Some(radio.stations@[idx as int])
        } else {
            None
        },
        None => None,
    }
}

/// The station at the selected row, if a row inside the list is selected.
pub fn selected_station(radio: &RadioState) -> (r: Option<InternetRadioStation>)
    ensures
        r == spec_selected_station(*radio),
{
    match radio.selected {
        Some(idx) => if idx < radio.stations.len() {
            Some(radio.stations[idx].clone())
        } else {
            None
        },
        None => None,
    }
}

/// What the caller does after a key on the radio page.
#[derive(Debug)]
pub enum RadioCommand {
    Nothing,
    PlayStation(InternetRadioStation),
    TogglePause,
}

/// What a key on the radio page does, given the id of the station that is
/// playing, if any.
pub open spec fn radio_command(radio: RadioState, code: KeyCode, playing: Option<Seq<char>>) -> RadioCommand {
    if code == KeyCode::Enter {
        match spec_selected_station(radio) {
            Some(st) => RadioCommand::PlayStation(st),
            None => RadioCommand::Nothing,
        }
    } else if code == KeyCode::Char(' ') {
        match spec_selected_station(radio) {
            Some(st) => if playing == Some(st.id@) {
                RadioCommand::TogglePause
            } else {
                RadioCommand::PlayStation(st)
            },
            None => RadioCommand::TogglePause,
        }
    } else {
        RadioCommand::Nothing
    }
}

/// Handle radio page keys: Up/Down move the selection, Enter plays the
/// selected station, Space pauses the selected station when it is the one
/// playing and plays it otherwise (and pauses when nothing is selected).
pub fn handle_radio_key(radio: &mut RadioState, key: KeyEvent, playing_station_id: Option<&str>) -> (c: RadioCommand)
    ensures
        final(radio).stations == old(radio).stations,
        final(radio).scroll_offset == old(radio).scroll_offset,
        final(radio).selected == (if is_up(key.code) {
            select_up(old(radio).selected, old(radio).stations@.len())
        } else if is_down(key.code) {
            select_down(old(radio).selected, old(radio).stations@.len())
        } else {
            old(radio).selected
        }),
        c == radio_command(
            *old(radio),
            key.code,
            match playing_station_id {
                Some(s) => Some(s@),
                None => None,
            },
        ),
        key.code == KeyCode::Char(' ') ==> match old(radio).selected {
            Some(i) => if i < old(radio).stations@.len() {
                let st = old(radio).stations@[i as int];
                if playing_station_id matches Some(p) && p@ == st.id@ {
                    c == RadioCommand::TogglePause
                } else {
                    c == RadioCommand::PlayStation(st)
                }
            } else {
                c == RadioCommand::TogglePause
            },
            None => c == RadioCommand::TogglePause,
        },
        key.code == KeyCode::Enter ==> match old(radio).selected {
            Some(i) => if i < old(radio).stations@.len() {
                c == RadioCommand::PlayStation(old(radio).stations@[i as int])
            } else {
                c == RadioCommand::Nothing
            },
            None => c == RadioCommand::Nothing,
        },
{
    let code = key.code;
    if code == KeyCode::Up || code == KeyCode::Char('k') {
        radio.selected = select_up_exec(radio.selected, radio.stations.len());
        return RadioCommand::Nothing;
    }
    if code == KeyCode::Down || code == KeyCode::Char('j') {
        radio.selected = select_down_exec(radio.selected, radio.stations.len());
        return RadioCommand::Nothing;
    }
    if code == KeyCode::Enter {
        return match selected_station(radio) {
            Some(station) => RadioCommand::PlayStation(station),
            None => RadioCommand::Nothing,
        };
    }
    if code == KeyCode::Char(' ') {
        return match selected_station(radio) {
            Some(station) => {
                let is_current = match playing_station_id {
                    Some(id) => str_equal(id, station.id.as_str()),
                    None => false,
                };
                if is_current {
                    RadioCommand::TogglePause
                } else {
                    RadioCommand::PlayStation(station)
                }
            },
            None => RadioCommand::TogglePause,
        };
    }
    RadioCommand::Nothing
}

/// Space pauses or resumes only when the selected station is the one
/// playing; any other selected station (also when nothing plays) is started.
/// Enter always starts the selected station. With no station selected, Space
/// pauses or resumes and Enter does nothing.
pub proof fn lemma_space_plays_or_pauses(radio: RadioState, playing: Option<Seq<char>>)
    ensures
        ({
            let space = radio_command(radio, KeyCode::Char(' '), playing);
            let enter = radio_command(radio, KeyCode::Enter, playing);
            match radio.selected {
                Some(i) => if i < radio.stations@.len() {
                    let st = radio.stations@[i as int];
                    &&& (playing == Some(st.id@) ==> space == RadioCommand::TogglePause)
                    &&& (playing != Some(st.id@) ==> space == RadioCommand::PlayStation(st))
                    &&& enter == RadioCommand::PlayStation(st)
                } else {
                    space == RadioCommand::TogglePause && enter == RadioCommand::Nothing
                },
                None => space == RadioCommand::TogglePause && enter == RadioCommand::Nothing,
            }
        }),
{
}

/// Whether two strings are equal.
fn str_equal(a: &str, b: &str) -> (r: bool)
    ensures
        r == (a@ == b@),
{
    let ca = crate::text::chars_of(a);
    let cb = crate::text::chars_of(b);
    if ca.len() != cb.len() {
        return false;
    }
    let mut i: usize = 0;
    while i < ca.len()
        invariant
            ca@ == a@,
            cb@ == b@,
            ca.len() == cb.len(),
            i <= ca.len(),
            forall|j: int| 0 <= j < i ==> ca@[j] == cb@[j],
        decreases ca.len() - i,
    {
        if ca[i] != cb[i] {
            return false;
        }
        i = i + 1;
    }
    assert(a@ =~= b@);
    true
}

/// The previous click on the radio list: where it was and how many
/// milliseconds ago.
#[derive(Clone, Copy, Debug)]
pub struct LastClick {
    pub x: u16,
    pub y: u16,
    pub elapsed_ms: u128,
}

/// The row of the station list under `y`, below the list's top border at
/// `content_y`, taking the scroll offset into account.
pub open spec fn clicked_row(radio: RadioState, y: u16, content_y: u16) -> int {
    radio.scroll_offset + (if y >= content_y + 1 { y - (content_y + 1) } else { 0 })
}

/// Whether the click at `(x, y)` repeats `last` within half a second.
pub open spec fn repeats(last: Option<LastClick>, x: u16, y: u16) -> bool {
    match last {
        Some(c) => c.x == x && c.y == y && c.elapsed_ms < 500,
        None => false,
    }
}

/// Handle a click at `(x, y)` on the radio page: a click on a station selects
/// it; a second click on the selected station at the same place within half
/// a second plays it (the station is returned). The caller records this
/// click as the last one.
pub fn handle_radio_click(radio: &mut RadioState, x: u16, y: u16, content_y: u16, last: Option<LastClick>) -> (play: Option<InternetRadioStation>)
    requires
        content_y + 1 <= u16::MAX,
        clicked_row(*old(radio), y, content_y) <= usize::MAX,
    ensures
        final(radio).stations == old(radio).stations,
        final(radio).scroll_offset == old(radio).scroll_offset,
        ({
            let row = clicked_row(*old(radio), y, content_y);
            if row < old(radio).stations@.len() {
                &&& final(radio).selected == Some(row as usize)
                &&& play == (if old(radio).selected == Some(row as usize) && repeats(last, x, y) {
                    Some(old(radio).stations@[row])
                } else {
                    None
                })
            } else {
                final(radio).selected == old(radio).selected && play is None
            }
        }),
        // A station plays only on a second click, at the same place within
        // half a second, on the row that was already selected.
        play is Some <==> ({
            let row = old(radio).scroll_offset + (if y > content_y { y - content_y - 1 } else { 0 });
            &&& row < old(radio).stations@.len()
            &&& old(radio).selected == Some(row as usize)
            &&& last matches Some(c) && c.x == x && c.y == y && c.elapsed_ms < 500
        }),
        play matches Some(st) ==> final(radio).selected matches Some(r) && st
            == old(radio).stations@[r as int],
{
    let row_in_viewport: usize = if y >= content_y + 1 {
        (y - (content_y + 1)) as usize
    } else {
        0
    };
    let item_index = radio.scroll_offset + row_in_viewport;
    if item_index < radio.stations.len() {
        let was_selected = radio.selected == Some(item_index);
        radio.selected = Some(item_index);
        let is_second_click = was_selected && match last {
            Some(c) => c.x == x && c.y == y && c.elapsed_ms < 500,
            None => false,
        };
        if is_second_click {
            return Some(radio.stations[item_index].clone());
        }
    }
    None
}

} // verus!
