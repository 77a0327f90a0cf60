//! The lyrics page: manual scrolling, returning to automatic scrolling, and
//! the spacing between lines.

use vstd::prelude::*;
use crate::keys::{KeyCode, KeyEvent, KeyModifiers};

verus! {

/// How far the lyrics are scrolled, whether the user scrolls them by hand,
/// and how many blank rows separate two lines.
pub struct LyricsState {
    pub scroll_offset: usize,
    pub is_manual_scroll: bool,
    pub line_spacing: u8,
}

/// What becomes of the time of the last manual scroll.
#[derive(Clone, Copy, Debug, PartialEq, Eq, Structural)]
pub enum ScrollTime {
    Unchanged,
    SetNow,
    Clear,
}

/// The most blank rows between two lines.
pub open spec fn max_line_spacing() -> u8 {
    5
}

/// Scrolls up one line.
pub open spec fn is_scroll_up(k: KeyEvent) -> bool {
    k.code == KeyCode::Up || (k.code == KeyCode::Char('k') && k.modifiers == KeyModifiers::Plain)
}

/// Scrolls down one line.
pub open spec fn is_scroll_down(k: KeyEvent) -> bool {
    k.code == KeyCode::Down || (k.code == KeyCode::Char('j') && k.modifiers == KeyModifiers::Plain)
}

/// Scrolls up one page.
pub open spec fn is_page_up(k: KeyEvent) -> bool {
    k.code == KeyCode::PageUp || (k.code == KeyCode::Char('b') && k.modifiers
        == KeyModifiers::Control)
}

/// Scrolls down one page.
pub open spec fn is_page_down(k: KeyEvent) -> bool {
    k.code == KeyCode::PageDown || (k.code == KeyCode::Char('f') && k.modifiers
        == KeyModifiers::Control)
}

/// Jumps to the top.
pub open spec fn is_home(k: KeyEvent) -> bool {
    k.code == KeyCode::Home || (k.code == KeyCode::Char('g') && k.modifiers == KeyModifiers::Plain)
}

/// Hands scrolling back to the song.
pub open spec fn is_resume(k: KeyEvent) -> bool {
    k.code == KeyCode::Char('a') && k.modifiers == KeyModifiers::Plain
}

/// The lyrics page after the key `k`, and what becomes of the time of the
/// last manual scroll.
pub open spec fn lyrics_step(s: LyricsState, k: KeyEvent) -> (LyricsState, ScrollTime) {
    if is_scroll_up(k) {
        (
            LyricsState {
                scroll_offset: if s.scroll_offset > 0 { (s.scroll_offset - 1) as usize } else { 0 },
                is_manual_scroll: true,
                ..s
            },
            ScrollTime::SetNow,
        )
    } else if is_scroll_down(k) {
        (
            LyricsState {
                scroll_offset: (s.scroll_offset + 1) as usize,
                is_manual_scroll: true,
                ..s
            },
            ScrollTime::SetNow,
        )
    } else if is_page_up(k) {
        (
            LyricsState {
                scroll_offset: if s.scroll_offset >= 10 { (s.scroll_offset - 10) as usize } else { 0 },
                is_manual_scroll: true,
                ..s
            },
            ScrollTime::SetNow,
        )
    } else if is_page_down(k) {
        (
            LyricsState {
                scroll_offset: if s.scroll_offset + 10 <= usize::MAX {
                    (s.scroll_offset + 10) as usize
                } else {
                    usize::MAX
                },
                is_manual_scroll: true,
                ..s
            },
            ScrollTime::SetNow,
        )
    } else if is_home(k) {
        (LyricsState { scroll_offset: 0, is_manual_scroll: false, ..s }, ScrollTime::Clear)
    } else if is_resume(k) {
        (LyricsState { is_manual_scroll: false, ..s }, ScrollTime::Clear)
    } else if k.code == KeyCode::Char(']') {
        (
            LyricsState {
                line_spacing: if s.line_spacing < max_line_spacing() {
                    (s.line_spacing + 1) as u8
                } else {
                    s.line_spacing
                },
                ..s
            },
            ScrollTime::Unchanged,
        )
    } else if k.code == KeyCode::Char('[') {
        (
            LyricsState {
                line_spacing: if s.line_spacing > 0 {
                    (s.line_spacing - 1) as u8
                } else {
                    0
                },
                ..s
            },
            ScrollTime::Unchanged,
        )
    } else {
        (s, ScrollTime::Unchanged)
    }
}

/// Handle a key on the lyrics page. The caller stores the current time, or
/// clears it, as the returned `ScrollTime` says.
pub fn handle_lyrics_key(s: &mut LyricsState, k: KeyEvent) -> (t: ScrollTime)
    requires
        is_scroll_down(k) && !is_scroll_up(k) ==> old(s).scroll_offset < usize::MAX,
    ensures
        (*final(s), t) == lyrics_step(*old(s), k),
{
    let plain = k.modifiers == KeyModifiers::Plain;
    let control = k.modifiers == KeyModifiers::Control;
    let code = k.code;
    if code == KeyCode::Up || (code == KeyCode::Char('k') && plain) {
        if s.scroll_offset > 0 {
            s.scroll_offset = s.scroll_offset - 1;
        }
        s.is_manual_scroll = true;
        ScrollTime::SetNow
    } else if code == KeyCode::Down || (code == KeyCode::Char('j') && plain) {
        s.scroll_offset = s.scroll_offset + 1;
        s.is_manual_scroll = true;
        ScrollTime::SetNow
    } else if code == KeyCode::PageUp || (code == KeyCode::Char('b') && control) {
        s.scroll_offset = s.scroll_offset.saturating_sub(10);
        s.is_manual_scroll = true;
        ScrollTime::SetNow
    } else if code == KeyCode::PageDown || (code == KeyCode::Char('f') && control) {
        s.scroll_offset = s.scroll_offset.saturating_add(10);
        s.is_manual_scroll = true;
        ScrollTime::SetNow
    } else if code == KeyCode::Home || (code == KeyCode::Char('g') && plain) {
        s.scroll_offset = 0;
        s.is_manual_scroll = false;
        ScrollTime::Clear
    } else if code == KeyCode::Char('a') && plain {
        s.is_manual_scroll = false;
        ScrollTime::Clear
    } else if code == KeyCode::Char(']') {
        if s.line_spacing < 5 {
            s.line_spacing = s.line_spacing + 1;
        }
        ScrollTime::Unchanged
    } else if code == KeyCode::Char('[') {
        if s.line_spacing > 0 {
            s.line_spacing = s.line_spacing - 1;
        }
        ScrollTime::Unchanged
    } else {
        ScrollTime::Unchanged
    }
}

/// `code` pressed without modifiers.
pub open spec fn plain(code: KeyCode) -> KeyEvent {
    KeyEvent { code, modifiers: KeyModifiers::Plain }
}

/// `s` with manual scrolling on.
pub open spec fn scrolled_by_hand(s: LyricsState) -> LyricsState {
    LyricsState { is_manual_scroll: true, ..s }
}

/// Line spacing stays within `0..=5` once it is there, whatever key is
/// pressed: `]` widens it by one up to 5, `[` narrows it by one down to 0,
/// and every other key leaves it as it is. Widening then narrowing restores
/// the page when the spacing could be widened.
pub proof fn lemma_line_spacing(s: LyricsState, k: KeyEvent)
    requires
        s.line_spacing <= max_line_spacing(),
    ensures
        ({
            let t = lyrics_step(s, k).0.line_spacing;
            &&& t <= max_line_spacing()
            &&& k.code == KeyCode::Char(']') ==> t == if s.line_spacing < 5 {
                s.line_spacing + 1
            } else {
                5
            }
            &&& k.code == KeyCode::Char('[') ==> t == if s.line_spacing > 0 {
                s.line_spacing - 1
            } else {
                0
            }
            &&& k.code != KeyCode::Char(']') && k.code != KeyCode::Char('[') ==> t
                == s.line_spacing
        }),
        s.line_spacing < max_line_spacing() ==> lyrics_step(
            lyrics_step(s, plain(KeyCode::Char(']'))).0,
            plain(KeyCode::Char('[')),
        ).0 == s,
{
}

/// Scrolling down and then up by a line, or by a page from ten lines on,
/// returns to the same offset, and manual scrolling stays on.
pub proof fn lemma_scroll_round_trip(s: LyricsState)
    requires
        s.scroll_offset + 10 <= usize::MAX,
    ensures
        lyrics_step(
            lyrics_step(s, plain(KeyCode::Down)).0,
            plain(KeyCode::Up),
        ).0 == scrolled_by_hand(s),
        lyrics_step(
            lyrics_step(s, plain(KeyCode::PageDown)).0,
            plain(KeyCode::PageUp),
        ).0 == scrolled_by_hand(s),
{
}

} // verus!
