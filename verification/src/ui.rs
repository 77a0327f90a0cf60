//! What the pages compute before they draw: the listening time left in the
//! queue, the disc and track label of a queue row, the scroll offset that
//! keeps the current lyric line centred, and the texts of the radio panel.

use vstd::prelude::*;
use crate::subsonic::{Child, InternetRadioStation};
use crate::text::{decimal, push_decimal, push_str};
use vstd::string::StringExecFns;

verus! {

/// The sum of the known durations of `songs`, in seconds.
pub open spec fn duration_sum(songs: Seq<Child>) -> int
    decreases songs.len(),
{
    if songs.len() == 0 {
        0
    } else {
        duration_sum(songs.drop_last()) + match songs.last().duration {
            Some(d) => d as int,
            None => 0,
        }
    }
}

/// Where the remaining songs start: at the playing position, or at the
/// start when nothing plays (and never past the end).
pub open spec fn remaining_start(len: nat, position: Option<usize>) -> int {
    let p: int = match position {
        Some(p) => p as int,
        None => 0,
    };
    if p <= len { p } else { len as int }
}

/// Whether every running sum of the durations from `start` on fits in an
/// `i64`.
pub open spec fn remaining_sum_fits(songs: Seq<Child>, start: int) -> bool {
    forall|k: int|
        start <= k <= songs.len() ==> i64::MIN <= #[trigger] duration_sum(songs.subrange(start, k))
            <= i64::MAX
}

/// The listening time left in the queue, in seconds: the known durations of
/// the playing song and every song after it (of the whole queue when nothing
/// plays).
pub fn queue_remaining_secs(queue: &Vec<Child>, queue_position: Option<usize>) -> (secs: i64)
    requires
        remaining_sum_fits(queue@, remaining_start(queue@.len(), queue_position)),
    ensures
        secs == duration_sum(
            queue@.subrange(remaining_start(queue@.len(), queue_position), queue@.len() as int),
        ),
{
    let start = match queue_position {
        Some(p) => if p <= queue.len() {
            p
        } else {
            queue.len()
        },
        None => 0,
    };
    let mut sum: i64 = 0;
    let mut i = start;
    assert(queue@.subrange(start as int, start as int) =~= Seq::<Child>::empty());
    while i < queue.len()
        invariant
            start <= i <= queue.len(),
            start == remaining_start(queue@.len(), queue_position),
            remaining_sum_fits(queue@, start as int),
            sum == duration_sum(queue@.subrange(start as int, i as int)),
        decreases queue.len() - i,
    {
        assert(queue@.subrange(start as int, i + 1).drop_last() =~= queue@.subrange(
            start as int,
            i as int,
        ));
        assert(i64::MIN <= duration_sum(queue@.subrange(start as int, i + 1)) <= i64::MAX);
        if let Some(d) = queue[i].duration {
            sum = sum + d as i64;
        }
        i = i + 1;
    }
    sum
}

/// How `{}` writes an integer.
pub open spec fn signed_decimal(n: int) -> Seq<char> {
    if n < 0 {
        seq!['-'] + decimal((-n) as nat)
    } else {
        decimal(n as nat)
    }
}

fn push_signed(s: &mut String, n: i32)
    ensures
        final(s)@ == old(s)@ + signed_decimal(n as int),
{
    if n < 0 {
        s.push('-');
        push_decimal(s, (-(n as i64)) as u64);
    } else {
        push_decimal(s, n as u64);
    }
    assert(final(s)@ =~= old(s)@ + signed_decimal(n as int));
}

/// The disc and track label of a queue row: `" [disc.track]"` for a track
/// on a disc after the first, `" [#track]"` for another numbered track, and
/// nothing for a song without a track number.
pub open spec fn spec_track_info(disc_number: Option<i32>, track: Option<i32>) -> Seq<char> {
    match (disc_number, track) {
        (Some(d), Some(t)) => if d > 1 {
            " ["@ + signed_decimal(d as int) + "."@ + signed_decimal(t as int) + "]"@
        } else {
            " [#"@ + signed_decimal(t as int) + "]"@
        },
        (None, Some(t)) => " [#"@ + signed_decimal(t as int) + "]"@,
        (_, None) => Seq::empty(),
    }
}

/// The disc and track label of a queue row.
pub fn track_info(disc_number: Option<i32>, track: Option<i32>) -> (s: String)
    ensures
        s@ == spec_track_info(disc_number, track),
{
    let mut s = String::new();
    match (disc_number, track) {
        (Some(d), Some(t)) if d > 1 => {
            push_str(&mut s, " [");
            push_signed(&mut s, d);
            push_str(&mut s, ".");
            push_signed(&mut s, t);
            push_str(&mut s, "]");
        },
        (_, Some(t)) => {
            push_str(&mut s, " [#");
            push_signed(&mut s, t);
            push_str(&mut s, "]");
        },
        _ => {},
    }
    s
}

/// The scroll offset that puts lyric line `idx` in the middle of a lyrics
/// area `area_height` rows high (two of them borders), each line taking
/// `1 + spacing` rows.
pub open spec fn spec_lyrics_scroll(idx: int, spacing: int, area_height: int) -> int {
    let center = (if area_height >= 2 { area_height - 2 } else { 0 }) / 2;
    let top = idx * (1 + spacing);
    if top >= center { top - center } else { 0 }
}

/// The scroll offset that keeps lyric line `idx` centred.
pub fn lyrics_scroll_target(idx: usize, spacing: u8, area_height: u16) -> (offset: usize)
    requires
        idx * (1 + spacing) <= usize::MAX,
    ensures
        offset == spec_lyrics_scroll(idx as int, spacing as int, area_height as int),
{
    let line_height: usize = 1 + spacing as usize;
    let center_offset: usize = (area_height.saturating_sub(2) / 2) as usize;
    (idx * line_height).saturating_sub(center_offset)
}

/// What the lyrics page changes after it is drawn: the scroll offset that
/// centres the current line, while synced lyrics scroll by themselves; and
/// manual scrolling switched off again, once synced lyrics have not been
/// scrolled by hand for more than five seconds.
pub open spec fn spec_lyrics_mutations(
    is_synced: bool,
    is_manual_scroll: bool,
    current_idx: Option<usize>,
    spacing: u8,
    area_height: u16,
    since_manual_scroll_ns: Option<u128>,
) -> (Option<usize>, Option<bool>) {
    if is_synced && !is_manual_scroll {
        match current_idx {
            Some(idx) => (
                Some(spec_lyrics_scroll(idx as int, spacing as int, area_height as int) as usize),
                None,
            ),
            None => (None, None),
        }
    } else if is_manual_scroll {
        match since_manual_scroll_ns {
            Some(ns) => if ns > 5_000_000_000 && is_synced {
                (None, Some(false))
            } else {
                (None, None)
            },
            None => (None, None),
        }
    } else {
        (None, None)
    }
}

/// The scroll offset and the manual-scroll reset that drawing the lyrics
/// page leaves behind (`since_manual_scroll_ns`: the nanoseconds since the last
/// manual scroll, if one is recorded).
pub fn lyrics_mutations(
    is_synced: bool,
    is_manual_scroll: bool,
    current_idx: Option<usize>,
    spacing: u8,
    area_height: u16,
    since_manual_scroll_ns: Option<u128>,
) -> (m: (Option<usize>, Option<bool>))
    requires
        is_synced && !is_manual_scroll ==> match current_idx {
            Some(idx) => idx * (1 + spacing) <= usize::MAX,
            None => true,
        },
    ensures
        m == spec_lyrics_mutations(
            is_synced,
            is_manual_scroll,
            current_idx,
            spacing,
            area_height,
            since_manual_scroll_ns,
        ),
{
    if is_synced && !is_manual_scroll {
        match current_idx {
            Some(idx) => (Some(lyrics_scroll_target(idx, spacing, area_height)), None),
            None => (None, None),
        }
    } else if is_manual_scroll {
        match since_manual_scroll_ns {
            Some(ns) => if ns > 5_000_000_000 && is_synced {
                (None, Some(false))
            } else {
                (None, None)
            },
            None => (None, None),
        }
    } else {
        (None, None)
    }
}

/// The texts of the now-playing panel for a radio station: the title (the
/// stream's own title, or the station's name), the artist (the stream's own,
/// or "Internet Radio"), and the subtitle (the station's home page, or its
/// name).
pub fn radio_panel_text(
    station: &InternetRadioStation,
    radio_title: &Option<String>,
    radio_artist: &Option<String>,
) -> (t: (String, String, String))
    ensures
        t.0@ == (match radio_title {
            Some(s) => s@,
            None => station.name@,
        }),
        t.1@ == (match radio_artist {
            Some(s) => s@,
            None => "Internet Radio"@,
        }),
        t.2@ == (match &station.home_page_url {
            Some(s) => s@,
            None => station.name@,
        }),
{
    let title = match radio_title {
        Some(s) => s.clone(),
        None => station.name.clone(),
    };
    let artist = match radio_artist {
        Some(s) => s.clone(),
        None => String::from_str("Internet Radio"),
    };
    let subtitle = match &station.home_page_url {
        Some(s) => s.clone(),
        None => station.name.clone(),
    };
    (title, artist, subtitle)
}

} // verus!
