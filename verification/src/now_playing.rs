//! The now-playing panel: what it shows and whether it is focused, which
//! rows it lays out for the space it has, and where its progress bar goes.

use vstd::prelude::*;
use crate::subsonic::{Child, InternetRadioStation};
use crate::ui::radio_panel_text;
use vstd::string::StringExecFns;

verus! {

/// Now playing panel widget, over the playback state `N` it shows and the
/// colours `C` it draws with.
pub struct NowPlayingWidget<'a, N, C> {
    now_playing: &'a N,
    focused: bool,
    colors: C,
}

impl<'a, N, C> NowPlayingWidget<'a, N, C> {
    /// The playback state the panel shows.
    pub closed spec fn spec_now_playing(&self) -> &'a N {
        self.now_playing
    }

    /// Whether the panel is focused.
    pub closed spec fn spec_focused(&self) -> bool {
        self.focused
    }

    /// The colours the panel draws with.
    pub closed spec fn spec_colors(&self) -> C {
        self.colors
    }

    /// A panel for `now_playing`, not focused.
    pub fn new(now_playing: &'a N, colors: C) -> (w: Self)
        ensures
            w.spec_now_playing() == now_playing,
            w.spec_colors() == colors,
            !w.spec_focused(),
    {
        NowPlayingWidget { now_playing, focused: false, colors }
    }

    /// The same panel, focused or not.
    pub fn focused(self, focused: bool) -> (w: Self)
        ensures
            w.spec_focused() == focused,
            w.spec_now_playing() == self.spec_now_playing(),
            w.spec_colors() == self.spec_colors(),
    {
        let mut s = self;
        s.focused = focused;
        s
    }

    /// The playback state the panel shows.
    pub fn now_playing(&self) -> (n: &'a N)
        ensures
            n == self.spec_now_playing(),
    {
        self.now_playing
    }

    /// Whether the panel is focused.
    pub fn is_focused(&self) -> (f: bool)
        ensures
            f == self.spec_focused(),
    {
        self.focused
    }

    /// The colours the panel draws with.
    pub fn colors(&self) -> (c: &C)
        ensures
            *c == self.spec_colors(),
    {
        &self.colors
    }
}

/// The text of an optional field, empty when it is missing.
pub open spec fn text_or_empty(o: Option<String>) -> Seq<char> {
    match o {
        Some(s) => s@,
        None => Seq::empty(),
    }
}

/// What the panel shows, row by row, for the space it has. The last row
/// (the elapsed time for a radio station, the progress bar for a song) is
/// drawn besides the rows named here.
pub enum PanelLayout {
    /// The area is too small: nothing is drawn.
    Hidden,
    /// Only the border and "No track playing".
    Idle,
    /// Five rows: artist, album (or station subtitle), title, quality (when
    /// there is any), then the last row.
    Full { artist: String, second: String, title: String, quality: Option<String> },
    /// Three rows: "title - artist", the album (or for a station its quality,
    /// or its subtitle when the quality is unknown), then the last row.
    Compact { title: String, artist: String, second: String },
    /// Two rows: the title, then the last row.
    Minimal { title: String },
}

/// The abstract layout, with texts as character sequences.
pub ghost enum PanelLayoutView {
    Hidden,
    Idle,
    Full { artist: Seq<char>, second: Seq<char>, title: Seq<char>, quality: Option<Seq<char>> },
    Compact { title: Seq<char>, artist: Seq<char>, second: Seq<char> },
    Minimal { title: Seq<char> },
}

impl View for PanelLayout {
    type V = PanelLayoutView;

    open spec fn view(&self) -> PanelLayoutView {
        match self {
            PanelLayout::Hidden => PanelLayoutView::Hidden,
            PanelLayout::Idle => PanelLayoutView::Idle,
            PanelLayout::Full { artist, second, title, quality } => PanelLayoutView::Full {
                artist: artist@,
                second: second@,
                title: title@,
                quality: match quality {
                    Some(q) => Some(q@),
                    None => None,
                },
            },
            PanelLayout::Compact { title, artist, second } => PanelLayoutView::Compact {
                title: title@,
                artist: artist@,
                second: second@,
            },
            PanelLayout::Minimal { title } => PanelLayoutView::Minimal { title: title@ },
        }
    }
}

/// The texts of what plays: title, artist and second line. A radio station
/// wins over a song; for a station they are the stream's title (or the
/// station's name), its artist (or "Internet Radio") and the station's home
/// page (or its name); for a song its title, artist and album (empty when
/// unknown).
pub open spec fn playing_texts(
    song: Option<Child>,
    station: Option<InternetRadioStation>,
    radio_title: Option<String>,
    radio_artist: Option<String>,
) -> Option<(Seq<char>, Seq<char>, Seq<char>)> {
    match station {
        Some(st) => Some(
            (
                match radio_title {
                    Some(t) => t@,
                    None => st.name@,
                },
                match radio_artist {
                    Some(a) => a@,
                    None => "Internet Radio"@,
                },
                match st.home_page_url {
                    Some(h) => h@,
                    None => st.name@,
                },
            ),
        ),
        None => match song {
            Some(c) => Some((c.title@, text_or_empty(c.artist), text_or_empty(c.album))),
            None => None,
        },
    }
}

/// The layout of a panel `width` by `height` cells (its border included):
/// hidden below 20 columns or 4 rows; otherwise, inside the border, five
/// rows or more take the full layout, three or four the compact one, fewer
/// the minimal one. In the compact layout a station shows its `quality`
/// line, or its subtitle when the quality is empty, and a song its album.
pub open spec fn spec_panel_layout(
    width: u16,
    height: u16,
    texts: Option<(Seq<char>, Seq<char>, Seq<char>)>,
    is_radio: bool,
    quality: Seq<char>,
) -> PanelLayoutView {
    let rows = height - 2;
    if height < 4 || width < 20 {
        PanelLayoutView::Hidden
    } else {
        match texts {
            None => PanelLayoutView::Idle,
            Some((title, artist, second)) => if rows >= 5 {
                PanelLayoutView::Full {
                    artist,
                    second,
                    title,
                    quality: if quality.len() > 0 {
                        Some(quality)
                    } else {
                        None
                    },
                }
            } else if rows >= 3 {
                PanelLayoutView::Compact {
                    title,
                    artist,
                    second: if is_radio && quality.len() > 0 {
                        quality
                    } else {
                        second
                    },
                }
            } else {
                PanelLayoutView::Minimal { title }
            },
        }
    }
}

/// What the panel shows when it has room (at least 20 by 4) and something
/// plays. For a song: its title, its artist (empty when unknown) and its
/// album (empty when unknown). For a radio station, which wins over a song:
/// the stream's title or the station's name, the stream's artist or
/// "Internet Radio", and the station's home page or its name, or in the
/// compact layout its quality line when that is known. Seven rows or more
/// give the full layout, five or six the compact one, four the minimal one.
pub proof fn lemma_panel_shows_what_plays(
    width: u16,
    height: u16,
    song: Option<Child>,
    station: Option<InternetRadioStation>,
    radio_title: Option<String>,
    radio_artist: Option<String>,
    quality: Seq<char>,
)
    requires
        width >= 20,
        height >= 4,
        song is Some || station is Some,
    ensures
        ({
            let l = spec_panel_layout(
                width,
                height,
                playing_texts(song, station, radio_title, radio_artist),
                station is Some,
                quality,
            );
            let (title, artist, second): (Seq<char>, Seq<char>, Seq<char>) = match station {
                Some(st) => (
                    match radio_title {
                        Some(t) => t@,
                        None => st.name@,
                    },
                    match radio_artist {
                        Some(a) => a@,
                        None => "Internet Radio"@,
                    },
                    match st.home_page_url {
                        Some(h) => h@,
                        None => st.name@,
                    },
                ),
                None => (
                    song->0.title@,
                    match song->0.artist {
                        Some(a) => a@,
                        None => Seq::empty(),
                    },
                    match song->0.album {
                        Some(a) => a@,
                        None => Seq::empty(),
                    },
                ),
            };
            if height >= 7 {
                l == PanelLayoutView::Full {
                    artist,
                    second,
                    title,
                    quality: if quality.len() > 0 {
                        Some(quality)
                    } else {
                        None
                    },
                }
            } else if height >= 5 {
                l == PanelLayoutView::Compact {
                    title,
                    artist,
                    second: if station is Some && quality.len() > 0 {
                        quality
                    } else {
                        second
                    },
                }
            } else {
                l == PanelLayoutView::Minimal { title }
            }
        }),
{
}

fn text_or_default(o: &Option<String>) -> (s: String)
    ensures
        s@ == text_or_empty(*o),
{
    match o {
        Some(s) => s.clone(),
        None => String::new(),
    }
}

fn copy_text(s: &str) -> (r: String)
    ensures
        r@ == s@,
{
    s.to_string()
}

/// The layout of the now-playing panel for the song or radio station that
/// plays, with `quality` the audio-quality line (empty when nothing is
/// known of it).
pub fn panel_layout(
    width: u16,
    height: u16,
    song: &Option<Child>,
    station: &Option<InternetRadioStation>,
    radio_title: &Option<String>,
    radio_artist: &Option<String>,
    quality: &str,
) -> (l: PanelLayout)
    ensures
        l@ == spec_panel_layout(
            width,
            height,
            playing_texts(*song, *station, *radio_title, *radio_artist),
            station.is_some(),
            quality@,
        ),
        station.is_none() && song.is_some() && width >= 20 && height >= 5 ==> {
            let c = song->0;
            let artist = match c.artist {
                Some(a) => a@,
                None => Seq::empty(),
            };
            let album = match c.album {
                Some(a) => a@,
                None => Seq::empty(),
            };
            ||| l@ == PanelLayoutView::Full {
                artist,
                second: album,
                title: c.title@,
                quality: if quality@.len() > 0 {
                    Some(quality@)
                } else {
                    None
                },
            }
            ||| l@ == PanelLayoutView::Compact { title: c.title@, artist, second: album }
        },
{
    if height < 4 || width < 20 {
        return PanelLayout::Hidden;
    }
    let rows = height - 2;
    let (title, artist, second) = match station {
        Some(st) => radio_panel_text(st, radio_title, radio_artist),
        None => match song {
            Some(c) => (c.title.clone(), text_or_default(&c.artist), text_or_default(&c.album)),
            None => return PanelLayout::Idle,
        },
    };
    if rows >= 5 {
        let q = if quality.unicode_len() > 0 {
            Some(copy_text(quality))
        } else {
            None
        };
        PanelLayout::Full { artist, second, title, quality: q }
    } else if rows >= 3 {
        let second = if station.is_some() && quality.unicode_len() > 0 {
            copy_text(quality)
        } else {
            second
        };
        PanelLayout::Compact { title, artist, second }
    } else {
        PanelLayout::Minimal { title }
    }
}

/// What the last row of the panel shows (in every layout but `Hidden` and
/// `Idle`).
#[derive(Clone, Copy, Debug, PartialEq, Eq, Structural)]
pub enum LastRow {
    /// "Live │ " and the time played: a radio stream has no length.
    Elapsed,
    /// The time played, the song's length and a bar filled to match.
    ProgressBar,
}

/// The last row of the panel: the elapsed time while a radio station plays
/// (even when a song is loaded too), the progress bar otherwise.
pub fn panel_last_row(station: &Option<InternetRadioStation>) -> (r: LastRow)
    ensures
        r == (if station.is_some() {
            LastRow::Elapsed
        } else {
            LastRow::ProgressBar
        }),
{
    if station.is_some() {
        LastRow::Elapsed
    } else {
        LastRow::ProgressBar
    }
}

/// The width of the bar for a row `width` cells wide whose time text is
/// `time_width` cells: what is left after the text, two spaces and one cell
/// of padding.
pub open spec fn bar_width(width: int, time_width: int) -> int {
    if width > time_width + 3 { width - time_width - 3 } else { 0 }
}

/// Where the time text starts: the text, two spaces and the bar, centred.
pub open spec fn bar_row_start(x: int, width: int, time_width: int) -> int {
    let total = time_width + 2 + bar_width(width, time_width);
    x + (if width > total { width - total } else { 0 }) / 2
}

/// Whether the positions of a progress bar in a row at column `x` fit in
/// `u16`.
pub open spec fn bar_fits(x: u16, width: u16, time_width: u16) -> bool {
    width >= 15 ==> {
        &&& time_width + 3 <= u16::MAX
        &&& bar_row_start(x as int, width as int, time_width as int) + time_width + 2 <= u16::MAX
    }
}

/// Where the progress bar of a row at column `x`, `width` cells wide, goes
/// when its time text ("pos / dur") is `time_width` cells: the column of the
/// time text, the column where the bar starts (two cells after the text),
/// and the bar's width. `None` when the row is narrower than 15 cells and
/// nothing is drawn.
pub fn progress_bar_geometry(x: u16, width: u16, time_width: u16) -> (g: Option<(u16, u16, u16)>)
    requires
        bar_fits(x, width, time_width),
    ensures
        width < 15 <==> g is None,
        g matches Some((start, bar_start, bar_w)) ==> {
            &&& start == bar_row_start(x as int, width as int, time_width as int)
            &&& bar_start == start + time_width + 2
            &&& bar_w == bar_width(width as int, time_width as int)
        },
        // With room for a bar, the time text starts at the row's left edge and
        // the bar ends one cell before its right edge.
        width >= 15 && width > time_width + 3 ==> g == Some(
            (x, (x + time_width + 2) as u16, (width - time_width - 3) as u16),
        ),
        // Without, the time text (and the empty bar after it) is centred.
        width >= 15 && width <= time_width + 3 ==> g == Some(
            (
                (x + (if width > time_width + 2 { width - time_width - 2 } else { 0 }) / 2) as u16,
                (x + (if width > time_width + 2 { width - time_width - 2 } else { 0 }) / 2
                    + time_width + 2) as u16,
                0u16,
            ),
        ),
{
    if width < 15 {
        return None;
    }
    let bar_w = width.saturating_sub(time_width + 3);
    let total: u16 = time_width + 2 + bar_w;
    let start = x + width.saturating_sub(total) / 2;
    Some((start, start + time_width + 2, bar_w))
}

} // verus!
