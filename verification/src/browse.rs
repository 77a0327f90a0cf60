//! The browse page: the Songs and Albums tabs, the options pane (all,
//! starred, random), the filter, and adding songs or albums to the queue.

use vstd::prelude::*;
use crate::keys::{KeyCode, KeyEvent, is_down, is_up};
use crate::models::{BrowseTab, SongOption, spec_option_next, spec_option_previous};
use crate::queue::{select_down, select_down_exec, select_up, select_up_exec, star_toggled};
use crate::subsonic::{Album, Child};
use crate::text::{decimal, push_decimal, push_str};
use vstd::string::StringExecFns;

verus! {

/// What the browse page reads and changes, with the play queue that it fills.
pub struct BrowsePage {
    pub browse_tab: BrowseTab,
    pub filter: String,
    pub filter_active: bool,
    pub focus: u8,
    pub selected_option: Option<SongOption>,
    pub scroll_offset: usize,
    pub album_scroll_offset: usize,
    pub selected_index: Option<usize>,
    pub selected_album: Option<usize>,
    pub songs: Vec<Child>,
    pub albums: Vec<Album>,
    pub backing_songs: Vec<Child>,
    pub backing_albums: Vec<Album>,
    pub all_songs_offset: usize,
    pub all_songs_has_more: bool,
    pub all_songs_loading: bool,
    pub albums_offset: usize,
    pub albums_has_more: bool,
    pub albums_loading: bool,
    pub queue: Vec<Child>,
    pub queue_position: Option<usize>,
}

/// The abstract browse page.
pub ghost struct BrowseView {
    pub browse_tab: BrowseTab,
    pub filter: Seq<char>,
    pub filter_active: bool,
    pub focus: u8,
    pub selected_option: Option<SongOption>,
    pub scroll_offset: usize,
    pub album_scroll_offset: usize,
    pub selected_index: Option<usize>,
    pub selected_album: Option<usize>,
    pub songs: Seq<Child>,
    pub albums: Seq<Album>,
    pub backing_songs: Seq<Child>,
    pub backing_albums: Seq<Album>,
    pub all_songs_offset: usize,
    pub all_songs_has_more: bool,
    pub all_songs_loading: bool,
    pub albums_offset: usize,
    pub albums_has_more: bool,
    pub albums_loading: bool,
    pub queue: Seq<Child>,
    pub queue_position: Option<usize>,
}

impl View for BrowsePage {
    type V = BrowseView;

    open spec fn view(&self) -> BrowseView {
        BrowseView {
            browse_tab: self.browse_tab,
            filter: self.filter@,
            filter_active: self.filter_active,
            focus: self.focus,
            selected_option: self.selected_option,
            scroll_offset: self.scroll_offset,
            album_scroll_offset: self.album_scroll_offset,
            selected_index: self.selected_index,
            selected_album: self.selected_album,
            songs: self.songs@,
            albums: self.albums@,
            backing_songs: self.backing_songs@,
            backing_albums: self.backing_albums@,
            all_songs_offset: self.all_songs_offset,
            all_songs_has_more: self.all_songs_has_more,
            all_songs_loading: self.all_songs_loading,
            albums_offset: self.albums_offset,
            albums_has_more: self.albums_has_more,
            albums_loading: self.albums_loading,
            queue: self.queue@,
            queue_position: self.queue_position,
        }
    }
}

/// What the caller does next: load a list from the server (`more` asks for
/// the next page of it), apply the filter to the list it holds, fetch an
/// album's songs to play them, append them or play them next, save the
/// queue (and play a position, or re-preload the track after the one at a
/// position), or star or unstar a song or album on the server (`refresh`:
/// reload the starred list afterwards).
#[derive(Debug)]
pub enum BrowseCommand {
    Nothing,
    FetchAllSongs { more: bool },
    FetchStarredSongs,
    FetchRandomSongs,
    FetchAlbums { more: bool },
    FetchStarredAlbums,
    FetchRandomAlbums,
    ApplySongFilter,
    ApplyAlbumFilter,
    PlayAlbum { id: String, name: String },
    AppendAlbum { id: String, name: String },
    InsertAlbumNext { id: String, name: String },
    SaveQueue,
    SaveAndPlay(usize),
    SaveAndPreload(usize),
    StarSong { id: String, star: bool, refresh: bool },
    StarAlbum { id: String, star: bool, refresh: bool },
}

pub ghost enum BrowseCommandView {
    Nothing,
    FetchAllSongs { more: bool },
    FetchStarredSongs,
    FetchRandomSongs,
    FetchAlbums { more: bool },
    FetchStarredAlbums,
    FetchRandomAlbums,
    ApplySongFilter,
    ApplyAlbumFilter,
    PlayAlbum { id: Seq<char>, name: Seq<char> },
    AppendAlbum { id: Seq<char>, name: Seq<char> },
    InsertAlbumNext { id: Seq<char>, name: Seq<char> },
    SaveQueue,
    SaveAndPlay(usize),
    SaveAndPreload(usize),
    StarSong { id: Seq<char>, star: bool, refresh: bool },
    StarAlbum { id: Seq<char>, star: bool, refresh: bool },
}

impl View for BrowseCommand {
    type V = BrowseCommandView;

    open spec fn view(&self) -> BrowseCommandView {
        match self {
            BrowseCommand::Nothing => BrowseCommandView::Nothing,
            BrowseCommand::FetchAllSongs { more } => BrowseCommandView::FetchAllSongs { more: *more },
            BrowseCommand::FetchStarredSongs => BrowseCommandView::FetchStarredSongs,
            BrowseCommand::FetchRandomSongs => BrowseCommandView::FetchRandomSongs,
            BrowseCommand::FetchAlbums { more } => BrowseCommandView::FetchAlbums { more: *more },
            BrowseCommand::FetchStarredAlbums => BrowseCommandView::FetchStarredAlbums,
            BrowseCommand::FetchRandomAlbums => BrowseCommandView::FetchRandomAlbums,
            BrowseCommand::ApplySongFilter => BrowseCommandView::ApplySongFilter,
            BrowseCommand::ApplyAlbumFilter => BrowseCommandView::ApplyAlbumFilter,
            BrowseCommand::PlayAlbum { id, name } => BrowseCommandView::PlayAlbum {
                id: id@,
                name: name@,
            },
            BrowseCommand::AppendAlbum { id, name } => BrowseCommandView::AppendAlbum {
                id: id@,
                name: name@,
            },
            BrowseCommand::InsertAlbumNext { id, name } => BrowseCommandView::InsertAlbumNext {
                id: id@,
                name: name@,
            },
            BrowseCommand::SaveQueue => BrowseCommandView::SaveQueue,
            BrowseCommand::SaveAndPlay(i) => BrowseCommandView::SaveAndPlay(*i),
            BrowseCommand::SaveAndPreload(i) => BrowseCommandView::SaveAndPreload(*i),
            BrowseCommand::StarSong { id, star, refresh } => BrowseCommandView::StarSong {
                id: id@,
                star: *star,
                refresh: *refresh,
            },
            BrowseCommand::StarAlbum { id, star, refresh } => BrowseCommandView::StarAlbum {
                id: id@,
                star: *star,
                refresh: *refresh,
            },
        }
    }
}

/// What becomes of the pending "filter all songs" timer: kept as it is,
/// cleared, or started now.
#[derive(Clone, Copy, Debug, PartialEq, Eq, Structural)]
pub enum Debounce {
    Keep,
    Clear,
    Start,
}

/// The result of a key on the browse page: a notice, an error notice, what
/// becomes of the filter timer, and the command for the caller.
#[derive(Debug)]
pub struct BrowseOutcome {
    pub notice: Option<String>,
    pub error: Option<String>,
    pub debounce: Debounce,
    pub command: BrowseCommand,
}

pub ghost struct BrowseOutcomeView {
    pub notice: Option<Seq<char>>,
    pub error: Option<Seq<char>>,
    pub debounce: Debounce,
    pub command: BrowseCommandView,
}

/// The text of an optional string.
pub open spec fn opt_view(s: Option<String>) -> Option<Seq<char>> {
    match s {
        Some(t) => Some(t@),
        None => None,
    }
}

impl View for BrowseOutcome {
    type V = BrowseOutcomeView;

    open spec fn view(&self) -> BrowseOutcomeView {
        BrowseOutcomeView {
            notice: opt_view(self.notice),
            error: opt_view(self.error),
            debounce: self.debounce,
            command: self.command@,
        }
    }
}

/// An outcome with only a command.
pub open spec fn only(command: BrowseCommandView) -> BrowseOutcomeView {
    BrowseOutcomeView { notice: None, error: None, debounce: Debounce::Keep, command }
}

/// An outcome that changes the filter timer and gives a command.
pub open spec fn with_debounce(debounce: Debounce, command: BrowseCommandView) -> BrowseOutcomeView {
    BrowseOutcomeView { notice: None, error: None, debounce, command }
}

/// An outcome with a notice and a command.
pub open spec fn noticed(notice: Seq<char>, command: BrowseCommandView) -> BrowseOutcomeView {
    BrowseOutcomeView { notice: Some(notice), error: None, debounce: Debounce::Keep, command }
}

/// Loading a song option: all songs start again from the first page, the
/// starred and random songs are fetched.
pub open spec fn load_song_option_step(v: BrowseView, opt: SongOption) -> (BrowseView, BrowseCommandView) {
    match opt {
        SongOption::All => (
            BrowseView { all_songs_offset: 0, all_songs_has_more: true, ..v },
            BrowseCommandView::FetchAllSongs { more: false },
        ),
        SongOption::Starred => (v, BrowseCommandView::FetchStarredSongs),
        SongOption::Random => (v, BrowseCommandView::FetchRandomSongs),
    }
}

/// Loading an album option, likewise.
pub open spec fn load_album_option_step(v: BrowseView, opt: SongOption) -> (BrowseView, BrowseCommandView) {
    match opt {
        SongOption::All => (
            BrowseView { albums_offset: 0, albums_has_more: true, ..v },
            BrowseCommandView::FetchAlbums { more: false },
        ),
        SongOption::Starred => (v, BrowseCommandView::FetchStarredAlbums),
        SongOption::Random => (v, BrowseCommandView::FetchRandomAlbums),
    }
}

/// Loading option `opt` for the tab the page shows.
pub open spec fn load_for_tab(v: BrowseView, opt: SongOption) -> (BrowseView, BrowseCommandView) {
    match v.browse_tab {
        BrowseTab::Songs => load_song_option_step(v, opt),
        BrowseTab::Albums => load_album_option_step(v, opt),
    }
}

/// The selected song, if the selection is inside the song list.
pub open spec fn selected_song(v: BrowseView) -> Option<Child> {
    match v.selected_index {
        Some(i) => if i < v.songs.len() {
            Some(v.songs[i as int])
        } else {
            None
        },
        None => None,
    }
}

/// The selected album, if the selection is inside the album list.
pub open spec fn selected_album(v: BrowseView) -> Option<Album> {
    match v.selected_album {
        Some(i) => if i < v.albums.len() {
            Some(v.albums[i as int])
        } else {
            None
        },
        None => None,
    }
}

/// Whether the next page of a list is due: all songs (or albums) are listed,
/// the server has more, none is loading, and the selection is within
/// `lookahead` rows of the end.
pub open spec fn should_load_more(
    option: Option<SongOption>,
    has_more: bool,
    loading: bool,
    selected: Option<usize>,
    len: nat,
    lookahead: usize,
) -> bool {
    &&& option == Some(SongOption::All)
    &&& has_more
    &&& !loading
    &&& match selected {
        Some(i) => i + lookahead >= len,
        None => false,
    }
}

/// Where a song played next goes: right after the playing song, or first.
pub open spec fn insert_next_pos(position: Option<usize>) -> int {
    match position {
        Some(p) => p + 1,
        None => 0,
    }
}

/// The command after songs are put next in the queue: save, and re-preload
/// the track after the playing one when a song is playing.
pub open spec fn save_after_insert(position: Option<usize>) -> BrowseCommandView {
    match position {
        Some(p) => BrowseCommandView::SaveAndPreload(p),
        None => BrowseCommandView::SaveQueue,
    }
}

/// After the filter changed: albums are filtered in place; all songs are
/// filtered by the server after a pause; other song lists are filtered in
/// place.
pub open spec fn filter_change_outcome(v: BrowseView) -> BrowseOutcomeView {
    match v.browse_tab {
        BrowseTab::Albums => only(BrowseCommandView::ApplyAlbumFilter),
        BrowseTab::Songs => if v.selected_option == Some(SongOption::All) {
            with_debounce(Debounce::Start, BrowseCommandView::Nothing)
        } else {
            only(BrowseCommandView::ApplySongFilter)
        },
    }
}

/// After the filter was closed: albums are filtered in place; all songs are
/// reloaded from the first page; other song lists are filtered in place.
pub open spec fn reload_step(v: BrowseView) -> (BrowseView, BrowseCommandView) {
    match v.browse_tab {
        BrowseTab::Albums => (v, BrowseCommandView::ApplyAlbumFilter),
        BrowseTab::Songs => if v.selected_option == Some(SongOption::All) {
            (
                BrowseView { all_songs_offset: 0, all_songs_has_more: true, ..v },
                BrowseCommandView::FetchAllSongs { more: false },
            )
        } else {
            (v, BrowseCommandView::ApplySongFilter)
        },
    }
}

/// A key while the filter is being typed.
pub open spec fn filter_step(v: BrowseView, code: KeyCode) -> (BrowseView, BrowseOutcomeView) {
    if code == KeyCode::Esc {
        let w = BrowseView { filter_active: false, filter: Seq::empty(), ..v };
        let r = reload_step(w);
        (r.0, with_debounce(Debounce::Clear, r.1))
    } else if code == KeyCode::Enter {
        let w = BrowseView { filter_active: false, focus: 1, ..v };
        let r = reload_step(w);
        (r.0, with_debounce(Debounce::Clear, r.1))
    } else if code == KeyCode::Backspace {
        let w = BrowseView {
            filter: if v.filter.len() > 0 { v.filter.drop_last() } else { v.filter },
            ..v
        };
        (w, filter_change_outcome(w))
    } else if code is Char {
        let w = BrowseView { filter: v.filter.push(code->Char_0), ..v };
        (w, filter_change_outcome(w))
    } else {
        (v, only(BrowseCommandView::Nothing))
    }
}

/// Whether `browse_step` describes the key: every key but `f` on the lists
/// (starring), which `star_step` states.
pub open spec fn is_star_key(v: BrowseView, code: KeyCode) -> bool {
    !v.filter_active && code == KeyCode::Char('f') && v.focus == 1
}

/// The browse page after the key `code`, and what comes of it.
pub open spec fn browse_step(v: BrowseView, code: KeyCode, lookahead: usize) -> (BrowseView, BrowseOutcomeView) {
    if v.filter_active {
        filter_step(v, code)
    } else if code == KeyCode::Left {
        if v.browse_tab == BrowseTab::Albums {
            let w = BrowseView { browse_tab: BrowseTab::Songs, filter: Seq::empty(), focus: 0, ..v };
            let opt = match v.selected_option {
                Some(o) => o,
                None => SongOption::All,
            };
            let r = load_song_option_step(w, opt);
            (r.0, with_debounce(Debounce::Clear, r.1))
        } else {
            (v, only(BrowseCommandView::Nothing))
        }
    } else if code == KeyCode::Right {
        if v.browse_tab == BrowseTab::Songs {
            let w = BrowseView { browse_tab: BrowseTab::Albums, filter: Seq::empty(), focus: 0, ..v };
            let opt = match v.selected_option {
                Some(o) => o,
                None => SongOption::All,
            };
            let r = load_album_option_step(w, opt);
            (r.0, with_debounce(Debounce::Clear, r.1))
        } else {
            (v, only(BrowseCommandView::Nothing))
        }
    } else if code == KeyCode::Char('/') {
        (BrowseView { filter_active: true, ..v }, only(BrowseCommandView::Nothing))
    } else if code == KeyCode::Tab {
        (
            BrowseView { focus: if v.focus == 0 { 1 } else { 0 }, ..v },
            only(BrowseCommandView::Nothing),
        )
    } else if (is_up(code) || is_down(code)) && v.focus == 0 {
        let next = match v.selected_option {
            Some(o) => if is_up(code) { spec_option_previous(o) } else { spec_option_next(o) },
            None => None,
        };
        match next {
            Some(opt) => {
                let w = BrowseView {
                    selected_option: Some(opt),
                    scroll_offset: 0,
                    album_scroll_offset: 0,
                    ..v
                };
                let r = load_for_tab(w, opt);
                (r.0, only(r.1))
            },
            None => (v, only(BrowseCommandView::Nothing)),
        }
    } else if is_up(code) && v.focus == 1 && v.browse_tab == BrowseTab::Songs {
        (
            BrowseView { selected_index: select_up(v.selected_index, v.songs.len()), ..v },
            only(BrowseCommandView::Nothing),
        )
    } else if is_down(code) && v.focus == 1 && v.browse_tab == BrowseTab::Songs {
        let sel = select_down(v.selected_index, v.songs.len());
        let more = should_load_more(
            v.selected_option,
            v.all_songs_has_more,
            v.all_songs_loading,
            sel,
            v.songs.len(),
            lookahead,
        );
        (
            BrowseView { selected_index: sel, ..v },
            only(
                if more {
                    BrowseCommandView::FetchAllSongs { more: true }
                } else {
                    BrowseCommandView::Nothing
                },
            ),
        )
    } else if is_up(code) && v.focus == 1 && v.browse_tab == BrowseTab::Albums {
        (
            BrowseView { selected_album: select_up(v.selected_album, v.albums.len()), ..v },
            only(BrowseCommandView::Nothing),
        )
    } else if is_down(code) && v.focus == 1 && v.browse_tab == BrowseTab::Albums {
        let sel = select_down(v.selected_album, v.albums.len());
        let more = should_load_more(
            v.selected_option,
            v.albums_has_more,
            v.albums_loading,
            sel,
            v.albums.len(),
            lookahead,
        );
        (
            BrowseView { selected_album: sel, ..v },
            only(
                if more {
                    BrowseCommandView::FetchAlbums { more: true }
                } else {
                    BrowseCommandView::Nothing
                },
            ),
        )
    } else if code == KeyCode::Enter && v.browse_tab == BrowseTab::Albums {
        match selected_album(v) {
            Some(a) => (v, only(BrowseCommandView::PlayAlbum { id: a.id@, name: a.name@ })),
            None => (v, only(BrowseCommandView::Nothing)),
        }
    } else if code == KeyCode::Enter {
        match v.selected_index {
            Some(i) if i < v.songs.len() => (
                BrowseView { queue: v.songs, ..v },
                only(BrowseCommandView::SaveAndPlay(i)),
            ),
            _ => (v, only(BrowseCommandView::Nothing)),
        }
    } else if code == KeyCode::Char('e') && v.focus == 1 && v.browse_tab == BrowseTab::Songs {
        match selected_song(v) {
            Some(s) => (
                BrowseView { queue: v.queue.push(s), ..v },
                noticed("Added to queue: "@ + s.title@, BrowseCommandView::SaveQueue),
            ),
            None => (v, only(BrowseCommandView::Nothing)),
        }
    } else if code == KeyCode::Char('e') && v.focus == 1 && v.browse_tab == BrowseTab::Albums {
        match selected_album(v) {
            Some(a) => (v, only(BrowseCommandView::AppendAlbum { id: a.id@, name: a.name@ })),
            None => (v, only(BrowseCommandView::Nothing)),
        }
    } else if code == KeyCode::Char('n') && v.focus == 1 && v.browse_tab == BrowseTab::Songs {
        match selected_song(v) {
            Some(s) => (
                BrowseView { queue: v.queue.insert(insert_next_pos(v.queue_position), s), ..v },
                noticed("Playing next: "@ + s.title@, save_after_insert(v.queue_position)),
            ),
            None => (v, only(BrowseCommandView::Nothing)),
        }
    } else if code == KeyCode::Char('n') && v.focus == 1 && v.browse_tab == BrowseTab::Albums {
        match selected_album(v) {
            Some(a) => (v, only(BrowseCommandView::InsertAlbumNext { id: a.id@, name: a.name@ })),
            None => (v, only(BrowseCommandView::Nothing)),
        }
    } else {
        (v, only(BrowseCommandView::Nothing))
    }
}


/// Whether `after` is the album `before` starred (its `starred` field set to
/// `"starred"`), or no longer starred if it was; nothing else changes.
pub open spec fn album_star_toggled(before: Album, after: Album) -> bool {
    &&& after == Album { starred: after.starred, ..before }
    &&& if before.starred is Some {
        after.starred is None
    } else {
        match after.starred {
            Some(s) => s@ == "starred"@,
            None => false,
        }
    }
}

/// The index of the first album in `albums` whose id is `id`, or
/// `albums.len()`.
pub open spec fn find_album(albums: Seq<Album>, id: Seq<char>) -> nat
    decreases albums.len(),
{
    if albums.len() == 0 {
        0
    } else if albums[0].id@ == id {
        0
    } else {
        1 + find_album(albums.drop_first(), id)
    }
}

/// The index of the first song in `songs` whose id is `id`, or `songs.len()`.
pub open spec fn find_song(songs: Seq<Child>, id: Seq<char>) -> nat
    decreases songs.len(),
{
    if songs.len() == 0 {
        0
    } else if songs[0].id@ == id {
        0
    } else {
        1 + find_song(songs.drop_first(), id)
    }
}

/// Whether `after` has the length of `before` and equals it everywhere but
/// at `i`.
pub open spec fn songs_changed_at(before: Seq<Child>, after: Seq<Child>, i: int) -> bool {
    &&& after.len() == before.len()
    &&& forall|j: int| 0 <= j < before.len() && j != i ==> after[j] == before[j]
}

/// Whether `after` has the length of `before` and equals it everywhere but
/// at `i`.
pub open spec fn albums_changed_at(before: Seq<Album>, after: Seq<Album>, i: int) -> bool {
    &&& after.len() == before.len()
    &&& forall|j: int| 0 <= j < before.len() && j != i ==> after[j] == before[j]
}

/// What `f` does on the song or album list: the selected entry is starred
/// or unstarred, the first entry with its id in the unfiltered list gets
/// the same `starred` value, and the server is told (the starred list is
/// reloaded afterwards when it is the one shown). With no entry selected
/// nothing happens.
pub open spec fn star_step(v: BrowseView, w: BrowseView, out: BrowseOutcomeView) -> bool {
    let refresh = v.selected_option == Some(SongOption::Starred);
    if v.browse_tab == BrowseTab::Albums {
        match selected_album(v) {
            Some(a) => {
                let i = v.selected_album->0 as int;
                let k = find_album(v.backing_albums, a.id@) as int;
                &&& w == BrowseView { albums: w.albums, backing_albums: w.backing_albums, ..v }
                &&& albums_changed_at(v.albums, w.albums, i)
                &&& album_star_toggled(a, w.albums[i])
                &&& if k < v.backing_albums.len() {
                    &&& albums_changed_at(v.backing_albums, w.backing_albums, k)
                    &&& w.backing_albums[k] == Album {
                        starred: w.albums[i].starred,
                        ..v.backing_albums[k]
                    }
                } else {
                    w.backing_albums == v.backing_albums
                }
                &&& out == only(
                    BrowseCommandView::StarAlbum { id: a.id@, star: a.starred is None, refresh },
                )
            },
            None => w == v && out == only(BrowseCommandView::Nothing),
        }
    } else {
        match selected_song(v) {
            Some(s) => {
                let i = v.selected_index->0 as int;
                let k = find_song(v.backing_songs, s.id@) as int;
                &&& w == BrowseView { songs: w.songs, backing_songs: w.backing_songs, ..v }
                &&& songs_changed_at(v.songs, w.songs, i)
                &&& star_toggled(s, w.songs[i])
                &&& if k < v.backing_songs.len() {
                    &&& songs_changed_at(v.backing_songs, w.backing_songs, k)
                    &&& w.backing_songs[k] == Child {
                        starred: w.songs[i].starred,
                        ..v.backing_songs[k]
                    }
                } else {
                    w.backing_songs == v.backing_songs
                }
                &&& out == only(
                    BrowseCommandView::StarSong { id: s.id@, star: s.starred is None, refresh },
                )
            },
            None => w == v && out == only(BrowseCommandView::Nothing),
        }
    }
}

/// The inputs that the handler does not accept, as the step would overflow or
/// index past the end of the queue: computing how
/// near the end of a list the selection is overflows, or a song is put next
/// after a playing position that lies past the end of the queue.
pub open spec fn browse_key_ok(v: BrowseView, code: KeyCode, lookahead: usize) -> bool {
    &&& (!v.filter_active && is_down(code) && v.focus == 1 && v.browse_tab == BrowseTab::Songs
        && v.selected_option == Some(SongOption::All) && v.all_songs_has_more
        && !v.all_songs_loading ==> match select_down(v.selected_index, v.songs.len()) {
        Some(i) => i + lookahead <= usize::MAX,
        None => true,
    })
    &&& (!v.filter_active && is_down(code) && v.focus == 1 && v.browse_tab == BrowseTab::Albums
        && v.selected_option == Some(SongOption::All) && v.albums_has_more && !v.albums_loading
        ==> match select_down(v.selected_album, v.albums.len()) {
        Some(i) => i + lookahead <= usize::MAX,
        None => true,
    })
    &&& (!v.filter_active && code == KeyCode::Char('n') && v.focus == 1 && v.browse_tab
        == BrowseTab::Songs && selected_song(v) is Some ==> insert_next_pos(v.queue_position)
        <= v.queue.len())
}


// ---------------------------------------------------------------------------
// Laws
// ---------------------------------------------------------------------------

/// Switching to the Albums tab and back shows the Songs tab again, with the
/// filter emptied and the options pane focused; each switch clears the
/// filter timer.
pub proof fn lemma_switch_tabs(v: BrowseView, lookahead: usize)
    requires
        !v.filter_active,
        v.browse_tab == BrowseTab::Songs,
    ensures
        ({
            let (m, o1) = browse_step(v, KeyCode::Right, lookahead);
            let (w, o2) = browse_step(m, KeyCode::Left, lookahead);
            &&& m.browse_tab == BrowseTab::Albums
            &&& w.browse_tab == BrowseTab::Songs
            &&& w.filter == Seq::<char>::empty()
            &&& w.focus == 0
            &&& w.selected_option == v.selected_option
            &&& o1.debounce == Debounce::Clear
            &&& o2.debounce == Debounce::Clear
        }),
{
}

/// In the options pane, moving down and back up returns to the option one
/// started from, and each move loads the list for that option.
pub proof fn lemma_option_round_trip(v: BrowseView, lookahead: usize)
    requires
        !v.filter_active,
        v.focus == 0,
        v.selected_option matches Some(o) && spec_option_next(o) is Some,
    ensures
        ({
            let m = browse_step(v, KeyCode::Down, lookahead).0;
            let w = browse_step(m, KeyCode::Up, lookahead).0;
            &&& m.selected_option == spec_option_next(v.selected_option->0)
            &&& w.selected_option == v.selected_option
            &&& w.browse_tab == v.browse_tab
            &&& w.scroll_offset == 0
        }),
{
    crate::models::lemma_option_next_previous(v.selected_option->0);
}

/// Tab moves the focus between the two panes and back.
pub proof fn lemma_tab_twice(v: BrowseView, lookahead: usize)
    requires
        !v.filter_active,
        v.focus <= 1,
    ensures
        browse_step(v, KeyCode::Tab, lookahead).0.focus != v.focus,
        browse_step(browse_step(v, KeyCode::Tab, lookahead).0, KeyCode::Tab, lookahead).0 == v,
{
}

/// Whatever key is pressed, the focus stays on one of the two panes; Tab
/// outside the filter moves it to the other one. `(w, out)` is any result
/// that `handle_browse_key` may give for the key.
pub proof fn lemma_focus_in_panes(
    v: BrowseView,
    code: KeyCode,
    lookahead: usize,
    w: BrowseView,
    out: BrowseOutcomeView,
)
    requires
        v.focus <= 1,
        !is_star_key(v, code) ==> (w, out) == browse_step(v, code, lookahead),
        is_star_key(v, code) ==> star_step(v, w, out),
    ensures
        w.focus <= 1,
        !v.filter_active && code == KeyCode::Tab ==> w.focus == 1 - v.focus,
{
}

/// Up and Down on the song list move the selection one song (never past
/// either end), select the first song when nothing was selected, and change
/// nothing else on the page; a selection inside the list stays inside it.
pub proof fn lemma_song_selection_moves(v: BrowseView, code: KeyCode, lookahead: usize)
    requires
        !v.filter_active,
        v.focus == 1,
        v.browse_tab == BrowseTab::Songs,
        is_up(code) || is_down(code),
        v.selected_index matches Some(i) ==> i < v.songs.len(),
    ensures
        ({
            let w = browse_step(v, code, lookahead).0;
            let n = v.songs.len();
            &&& w.selected_index == match v.selected_index {
                Some(i) => Some(
                    (if is_up(code) {
                        if i > 0 { i - 1 } else { 0 }
                    } else {
                        if i + 1 < n { i + 1 } else { i as int }
                    }) as usize,
                ),
                None => if n > 0 { Some(0usize) } else { None },
            }
            &&& w.selected_index matches Some(j) ==> j < n
            &&& w == BrowseView { selected_index: w.selected_index, ..v }
        }),
{
}

/// Up and Down on the album list move the selection one album (never past
/// either end), select the first album when nothing was selected, and change
/// nothing else on the page; a selection inside the list stays inside it.
pub proof fn lemma_album_selection_moves(v: BrowseView, code: KeyCode, lookahead: usize)
    requires
        !v.filter_active,
        v.focus == 1,
        v.browse_tab == BrowseTab::Albums,
        is_up(code) || is_down(code),
        v.selected_album matches Some(i) ==> i < v.albums.len(),
    ensures
        ({
            let w = browse_step(v, code, lookahead).0;
            let n = v.albums.len();
            &&& w.selected_album == match v.selected_album {
                Some(i) => Some(
                    (if is_up(code) {
                        if i > 0 { i - 1 } else { 0 }
                    } else {
                        if i + 1 < n { i + 1 } else { i as int }
                    }) as usize,
                ),
                None => if n > 0 { Some(0usize) } else { None },
            }
            &&& w.selected_album matches Some(j) ==> j < n
            &&& w == BrowseView { selected_album: w.selected_album, ..v }
        }),
{
}

/// The keys on a selected album: Enter asks to fetch it and play it in place
/// of the queue, `e` to fetch it and append it, `n` to fetch it and put it
/// after the playing song; each names the selected album and leaves the
/// page as it is. Without an album selected inside the list they do nothing.
pub proof fn lemma_album_keys(v: BrowseView, lookahead: usize)
    requires
        !v.filter_active,
        v.focus == 1,
        v.browse_tab == BrowseTab::Albums,
    ensures
        ({
            let enter = browse_step(v, KeyCode::Enter, lookahead);
            let e = browse_step(v, KeyCode::Char('e'), lookahead);
            let n = browse_step(v, KeyCode::Char('n'), lookahead);
            &&& enter.0 == v && e.0 == v && n.0 == v
            &&& enter.1.notice is None && e.1.notice is None && n.1.notice is None
            &&& match v.selected_album {
                Some(i) => if i < v.albums.len() {
                    let a = v.albums[i as int];
                    &&& enter.1.command == BrowseCommandView::PlayAlbum { id: a.id@, name: a.name@ }
                    &&& e.1.command == BrowseCommandView::AppendAlbum { id: a.id@, name: a.name@ }
                    &&& n.1.command == BrowseCommandView::InsertAlbumNext {
                        id: a.id@,
                        name: a.name@,
                    }
                } else {
                    &&& enter.1.command == BrowseCommandView::Nothing
                    &&& e.1.command == BrowseCommandView::Nothing
                    &&& n.1.command == BrowseCommandView::Nothing
                },
                None => {
                    &&& enter.1.command == BrowseCommandView::Nothing
                    &&& e.1.command == BrowseCommandView::Nothing
                    &&& n.1.command == BrowseCommandView::Nothing
                },
            }
        }),
{
}

/// `e` on a selected song appends exactly that song to the queue, announces
/// it by its title and asks to save the queue; nothing else on the page
/// changes. Without a song selected inside the list nothing happens.
pub proof fn lemma_add_song_appends(v: BrowseView, lookahead: usize)
    requires
        !v.filter_active,
        v.focus == 1,
        v.browse_tab == BrowseTab::Songs,
    ensures
        ({
            let r = browse_step(v, KeyCode::Char('e'), lookahead);
            match v.selected_index {
                Some(i) => if i < v.songs.len() {
                    let s = v.songs[i as int];
                    &&& r.0 == BrowseView { queue: v.queue.push(s), ..v }
                    &&& r.1.notice == Some("Added to queue: "@ + s.title@)
                    &&& r.1.command == BrowseCommandView::SaveQueue
                } else {
                    r.0 == v && r.1.command == BrowseCommandView::Nothing
                },
                None => r.0 == v && r.1.command == BrowseCommandView::Nothing,
            }
        }),
{
}

/// Down on the song list asks for the next page of all songs exactly when
/// the list shows all songs, more are to be had, none are being fetched, and
/// the new selection lies within `lookahead` rows of the end of the list.
pub proof fn lemma_down_fetches_more_songs(v: BrowseView, lookahead: usize)
    requires
        !v.filter_active,
        v.focus == 1,
        v.browse_tab == BrowseTab::Songs,
    ensures
        ({
            let r = browse_step(v, KeyCode::Down, lookahead);
            let fetch = v.selected_option == Some(SongOption::All) && v.all_songs_has_more
                && !v.all_songs_loading && (r.0.selected_index matches Some(i) && i + lookahead
                >= v.songs.len());
            &&& fetch ==> r.1.command == BrowseCommandView::FetchAllSongs { more: true }
            &&& !fetch ==> r.1.command == BrowseCommandView::Nothing
        }),
{
}

/// Down on the album list asks for the next page of all albums exactly when
/// the list shows all albums, more are to be had, none are being fetched, and
/// the new selection lies within `lookahead` rows of the end of the list.
pub proof fn lemma_down_fetches_more_albums(v: BrowseView, lookahead: usize)
    requires
        !v.filter_active,
        v.focus == 1,
        v.browse_tab == BrowseTab::Albums,
    ensures
        ({
            let r = browse_step(v, KeyCode::Down, lookahead);
            let fetch = v.selected_option == Some(SongOption::All) && v.albums_has_more
                && !v.albums_loading && (r.0.selected_album matches Some(i) && i + lookahead
                >= v.albums.len());
            &&& fetch ==> r.1.command == BrowseCommandView::FetchAlbums { more: true }
            &&& !fetch ==> r.1.command == BrowseCommandView::Nothing
        }),
{
}

/// Enter in the filter closes it, keeps what was typed, moves the focus to
/// the list and stops the filter timer; `/` outside the filter opens it and
/// changes nothing else.
pub proof fn lemma_filter_enter_and_open(v: BrowseView, lookahead: usize)
    ensures
        v.filter_active ==> ({
            let r = browse_step(v, KeyCode::Enter, lookahead);
            &&& !r.0.filter_active
            &&& r.0.focus == 1
            &&& r.0.filter == v.filter
            &&& r.0.browse_tab == v.browse_tab
            &&& r.0.queue == v.queue
            &&& r.1.debounce == Debounce::Clear
        }),
        !v.filter_active ==> browse_step(v, KeyCode::Char('/'), lookahead) == (
        BrowseView { filter_active: true, ..v },
        only(BrowseCommandView::Nothing),
        ),
{
}

/// Typing a character into the filter and erasing it restores the filter.
pub proof fn lemma_filter_type_then_erase(v: BrowseView, c: char, lookahead: usize)
    requires
        v.filter_active,
    ensures
        ({
            let m = browse_step(v, KeyCode::Char(c), lookahead).0;
            let w = browse_step(m, KeyCode::Backspace, lookahead).0;
            &&& m.filter == v.filter.push(c)
            &&& w.filter == v.filter
            &&& w.filter_active
        }),
{
    assert(v.filter.push(c).drop_last() =~= v.filter);
}

/// Escape closes the filter and empties it.
pub proof fn lemma_filter_escape(v: BrowseView, lookahead: usize)
    requires
        v.filter_active,
    ensures
        !browse_step(v, KeyCode::Esc, lookahead).0.filter_active,
        browse_step(v, KeyCode::Esc, lookahead).0.filter == Seq::<char>::empty(),
        browse_step(v, KeyCode::Esc, lookahead).1.debounce == Debounce::Clear,
{
}

/// Playing a song next puts it right after the playing song, which keeps
/// its position.
pub proof fn lemma_play_next(v: BrowseView, lookahead: usize)
    requires
        !v.filter_active,
        v.focus == 1,
        v.browse_tab == BrowseTab::Songs,
        selected_song(v) is Some,
        v.queue_position matches Some(p) && p < v.queue.len(),
    ensures
        ({
            let w = browse_step(v, KeyCode::Char('n'), lookahead).0;
            let p = v.queue_position->0 as int;
            &&& w.queue.len() == v.queue.len() + 1
            &&& w.queue[p + 1] == selected_song(v)->0
            &&& w.queue[p] == v.queue[p]
            &&& w.queue_position == v.queue_position
        }),
{
}

/// Enter on a song replaces the queue with the listed songs and plays the
/// selected one.
pub proof fn lemma_enter_plays_selected_song(v: BrowseView, lookahead: usize)
    requires
        !v.filter_active,
        v.browse_tab == BrowseTab::Songs,
        selected_song(v) is Some,
    ensures
        ({
            let (w, o) = browse_step(v, KeyCode::Enter, lookahead);
            &&& w.queue == v.songs
            &&& o.command == BrowseCommandView::SaveAndPlay(v.selected_index->0)
            &&& w.queue[v.selected_index->0 as int] == selected_song(v)->0
        }),
{
}

// ---------------------------------------------------------------------------
// Handlers
// ---------------------------------------------------------------------------

fn outcome(command: BrowseCommand) -> (o: BrowseOutcome)
    ensures
        o@ == only(command@),
{
    BrowseOutcome { notice: None, error: None, debounce: Debounce::Keep, command }
}

/// Loads a song option for the Songs tab.
pub fn load_song_option(page: &mut BrowsePage, opt: SongOption) -> (c: BrowseCommand)
    ensures
        (final(page)@, c@) == load_song_option_step(old(page)@, opt),
{
    match opt {
        SongOption::All => {
            page.all_songs_offset = 0;
            page.all_songs_has_more = true;
            BrowseCommand::FetchAllSongs { more: false }
        },
        SongOption::Starred => BrowseCommand::FetchStarredSongs,
        SongOption::Random => BrowseCommand::FetchRandomSongs,
    }
}

/// Loads an album option for the Albums tab.
pub fn load_album_option(page: &mut BrowsePage, opt: SongOption) -> (c: BrowseCommand)
    ensures
        (final(page)@, c@) == load_album_option_step(old(page)@, opt),
{
    match opt {
        SongOption::All => {
            page.albums_offset = 0;
            page.albums_has_more = true;
            BrowseCommand::FetchAlbums { more: false }
        },
        SongOption::Starred => BrowseCommand::FetchStarredAlbums,
        SongOption::Random => BrowseCommand::FetchRandomAlbums,
    }
}

/// Applies the filter to the list of the current tab after it changed.
pub fn apply_filter_for(page: &BrowsePage) -> (o: BrowseOutcome)
    ensures
        o@ == filter_change_outcome(page@),
{
    match page.browse_tab {
        BrowseTab::Albums => outcome(BrowseCommand::ApplyAlbumFilter),
        BrowseTab::Songs => if page.selected_option == Some(SongOption::All) {
            BrowseOutcome {
                notice: None,
                error: None,
                debounce: Debounce::Start,
                command: BrowseCommand::Nothing,
            }
        } else {
            outcome(BrowseCommand::ApplySongFilter)
        },
    }
}

/// Reloads the list of the current tab after the filter was closed.
pub fn reload_after_filter_change(page: &mut BrowsePage) -> (c: BrowseCommand)
    ensures
        (final(page)@, c@) == reload_step(old(page)@),
{
    match page.browse_tab {
        BrowseTab::Albums => BrowseCommand::ApplyAlbumFilter,
        BrowseTab::Songs => if page.selected_option == Some(SongOption::All) {
            page.all_songs_offset = 0;
            page.all_songs_has_more = true;
            BrowseCommand::FetchAllSongs { more: false }
        } else {
            BrowseCommand::ApplySongFilter
        },
    }
}

/// Handle a key event while filter input is active.
pub fn handle_browse_filter_key(page: &mut BrowsePage, code: KeyCode) -> (o: BrowseOutcome)
    ensures
        (final(page)@, o@) == filter_step(old(page)@, code),
{
    if code == KeyCode::Esc {
        page.filter_active = false;
        page.filter = String::new();
        let c = reload_after_filter_change(page);
        BrowseOutcome { notice: None, error: None, debounce: Debounce::Clear, command: c }
    } else if code == KeyCode::Enter {
        page.filter_active = false;
        page.focus = 1;
        let c = reload_after_filter_change(page);
        BrowseOutcome { notice: None, error: None, debounce: Debounce::Clear, command: c }
    } else if code == KeyCode::Backspace {
        let _ = page.filter.pop();
        apply_filter_for(page)
    } else if let KeyCode::Char(c) = code {
        page.filter.push(c);
        apply_filter_for(page)
    } else {
        outcome(BrowseCommand::Nothing)
    }
}

/// Get the selected song from the song list.
pub fn get_selected_song(page: &BrowsePage) -> (r: Option<Child>)
    ensures
        r == selected_song(page@),
{
    match page.selected_index {
        Some(i) => if i < page.songs.len() {
            Some(page.songs[i].clone())
        } else {
            None
        },
        None => None,
    }
}

/// Get the selected album from the album list.
pub fn get_selected_album(page: &BrowsePage) -> (r: Option<Album>)
    ensures
        r == selected_album(page@),
{
    match page.selected_album {
        Some(i) => if i < page.albums.len() {
            Some(page.albums[i].clone())
        } else {
            None
        },
        None => None,
    }
}

/// A copy of a list of songs.
fn clone_songs(v: &Vec<Child>) -> (r: Vec<Child>)
    ensures
        r@ == v@,
{
    let mut r: Vec<Child> = Vec::new();
    let mut i: usize = 0;
    while i < v.len()
        invariant
            i <= v.len(),
            r@ == v@.take(i as int),
        decreases v.len() - i,
    {
        r.push(v[i].clone());
        i = i + 1;
        assert(r@ =~= v@.take(i as int));
    }
    assert(v@.take(i as int) =~= v@);
    r
}

/// A notice made of `prefix` and `rest`.
fn notice_of(prefix: &str, rest: &str) -> (s: String)
    ensures
        s@ == prefix@ + rest@,
{
    let mut s = String::new();
    push_str(&mut s, prefix);
    push_str(&mut s, rest);
    s
}

/// The starred value that toggling gives: none for a starred entry,
/// `"starred"` otherwise.
fn toggled_starred(was_starred: bool) -> (r: Option<String>)
    ensures
        was_starred ==> r is None,
        !was_starred ==> (r matches Some(s) && s@ == "starred"@),
{
    if was_starred {
        None
    } else {
        Some(String::from_str("starred"))
    }
}

/// The index of the first album with id `id`.
fn find_album_exec(albums: &Vec<Album>, id: &String) -> (k: usize)
    ensures
        k == find_album(albums@, id@),
{
    let mut i: usize = 0;
    assert(albums@.skip(0) =~= albums@);
    while i < albums.len() && albums[i].id != *id
        invariant
            i <= albums.len(),
            find_album(albums@, id@) == i + find_album(albums@.skip(i as int), id@),
        decreases albums.len() - i,
    {
        assert(albums@.skip(i as int).drop_first() =~= albums@.skip(i + 1));
        i = i + 1;
    }
    proof {
        if i < albums.len() {
            assert(albums@.skip(i as int)[0] == albums@[i as int]);
        }
    }
    i
}

/// The index of the first song with id `id`.
fn find_song_exec(songs: &Vec<Child>, id: &String) -> (k: usize)
    ensures
        k == find_song(songs@, id@),
{
    let mut i: usize = 0;
    assert(songs@.skip(0) =~= songs@);
    while i < songs.len() && songs[i].id != *id
        invariant
            i <= songs.len(),
            find_song(songs@, id@) == i + find_song(songs@.skip(i as int), id@),
        decreases songs.len() - i,
    {
        assert(songs@.skip(i as int).drop_first() =~= songs@.skip(i + 1));
        i = i + 1;
    }
    proof {
        if i < songs.len() {
            assert(songs@.skip(i as int)[0] == songs@[i as int]);
        }
    }
    i
}

/// A copy of an optional string.
fn copy_opt(s: &Option<String>) -> (r: Option<String>)
    ensures
        r == *s,
{
    match s {
        Some(t) => Some(t.clone()),
        None => None,
    }
}

/// Stars or unstars the selected album.
fn star_selected_album(page: &mut BrowsePage) -> (o: BrowseOutcome)
    requires
        old(page).browse_tab == BrowseTab::Albums,
    ensures
        star_step(old(page)@, final(page)@, o@),
{
    let idx = match page.selected_album {
        Some(i) => i,
        None => {
            return outcome(BrowseCommand::Nothing);
        },
    };
    if idx >= page.albums.len() {
        return outcome(BrowseCommand::Nothing);
    }
    let ghost v = page@;
    let mut album = page.albums.remove(idx);
    let id = album.id.clone();
    let was_starred = album.starred.is_some();
    album.starred = toggled_starred(was_starred);
    let new_starred = copy_opt(&album.starred);
    page.albums.insert(idx, album);
    assert(page.albums@ =~= v.albums.update(idx as int, page.albums@[idx as int]));
    let k = find_album_exec(&page.backing_albums, &id);
    if k < page.backing_albums.len() {
        let mut backing = page.backing_albums.remove(k);
        backing.starred = new_starred;
        page.backing_albums.insert(k, backing);
        assert(page.backing_albums@ =~= v.backing_albums.update(
            k as int,
            page.backing_albums@[k as int],
        ));
    }
    let refresh = page.selected_option == Some(SongOption::Starred);
    outcome(BrowseCommand::StarAlbum { id, star: !was_starred, refresh })
}

/// Stars or unstars the selected song.
fn star_selected_song(page: &mut BrowsePage) -> (o: BrowseOutcome)
    requires
        old(page).browse_tab != BrowseTab::Albums,
    ensures
        star_step(old(page)@, final(page)@, o@),
{
    let idx = match page.selected_index {
        Some(i) => i,
        None => {
            return outcome(BrowseCommand::Nothing);
        },
    };
    if idx >= page.songs.len() {
        return outcome(BrowseCommand::Nothing);
    }
    let ghost v = page@;
    let mut song = page.songs.remove(idx);
    let id = song.id.clone();
    let was_starred = song.starred.is_some();
    song.starred = toggled_starred(was_starred);
    let new_starred = copy_opt(&song.starred);
    page.songs.insert(idx, song);
    assert(page.songs@ =~= v.songs.update(idx as int, page.songs@[idx as int]));
    let k = find_song_exec(&page.backing_songs, &id);
    if k < page.backing_songs.len() {
        let mut backing = page.backing_songs.remove(k);
        backing.starred = new_starred;
        page.backing_songs.insert(k, backing);
        assert(page.backing_songs@ =~= v.backing_songs.update(
            k as int,
            page.backing_songs@[k as int],
        ));
    }
    let refresh = page.selected_option == Some(SongOption::Starred);
    outcome(BrowseCommand::StarSong { id, star: !was_starred, refresh })
}


/// Handle a key on the browse page. `lookahead` is how close to the end of
/// the list of all songs (or albums) the selection comes before the next page
/// is fetched.
pub fn handle_browse_key(page: &mut BrowsePage, key: KeyEvent, lookahead: usize) -> (o: BrowseOutcome)
    requires
        browse_key_ok(old(page)@, key.code, lookahead),
    ensures
        !is_star_key(old(page)@, key.code) ==> (final(page)@, o@) == browse_step(
            old(page)@,
            key.code,
            lookahead,
        ),
        is_star_key(old(page)@, key.code) ==> star_step(old(page)@, final(page)@, o@),
        !old(page).filter_active && old(page).focus == 1 && old(page).browse_tab
            == BrowseTab::Albums && key.code == KeyCode::Char('e') ==> match old(page).selected_album {
            Some(i) => if i < old(page).albums@.len() {
                let a = old(page).albums@[i as int];
                o@.command == BrowseCommandView::AppendAlbum { id: a.id@, name: a.name@ }
            } else {
                o@.command == BrowseCommandView::Nothing
            },
            None => o@.command == BrowseCommandView::Nothing,
        },
{
    let code = key.code;
    if page.filter_active {
        return handle_browse_filter_key(page, code);
    }
    let up = code == KeyCode::Up || code == KeyCode::Char('k');
    let down = code == KeyCode::Down || code == KeyCode::Char('j');
    if code == KeyCode::Left {
        if page.browse_tab == BrowseTab::Albums {
            page.browse_tab = BrowseTab::Songs;
            page.filter = String::new();
            page.focus = 0;
            let opt = match page.selected_option {
                Some(o) => o,
                None => SongOption::All,
            };
            let c = load_song_option(page, opt);
            return BrowseOutcome { notice: None, error: None, debounce: Debounce::Clear, command: c };
        }
        return outcome(BrowseCommand::Nothing);
    }
    if code == KeyCode::Right {
        if page.browse_tab == BrowseTab::Songs {
            page.browse_tab = BrowseTab::Albums;
            page.filter = String::new();
            page.focus = 0;
            let opt = match page.selected_option {
                Some(o) => o,
                None => SongOption::All,
            };
            let c = load_album_option(page, opt);
            return BrowseOutcome { notice: None, error: None, debounce: Debounce::Clear, command: c };
        }
        return outcome(BrowseCommand::Nothing);
    }
    if code == KeyCode::Char('/') {
        page.filter_active = true;
        return outcome(BrowseCommand::Nothing);
    }
    if code == KeyCode::Tab {
        page.focus = if page.focus == 0 {
            1
        } else {
            0
        };
        return outcome(BrowseCommand::Nothing);
    }
    if (up || down) && page.focus == 0 {
        let next = match page.selected_option {
            Some(o) => if up {
                o.previous()
            } else {
                o.next()
            },
            None => None,
        };
        if let Some(opt) = next {
            page.selected_option = Some(opt);
            page.scroll_offset = 0;
            page.album_scroll_offset = 0;
            let c = match page.browse_tab {
                BrowseTab::Songs => load_song_option(page, opt),
                BrowseTab::Albums => load_album_option(page, opt),
            };
            return outcome(c);
        }
        return outcome(BrowseCommand::Nothing);
    }
    if up && page.focus == 1 && page.browse_tab == BrowseTab::Songs {
        page.selected_index = select_up_exec(page.selected_index, page.songs.len());
        return outcome(BrowseCommand::Nothing);
    }
    if down && page.focus == 1 && page.browse_tab == BrowseTab::Songs {
        let len = page.songs.len();
        page.selected_index = select_down_exec(page.selected_index, len);
        let more = page.selected_option == Some(SongOption::All) && page.all_songs_has_more
            && !page.all_songs_loading && match page.selected_index {
            Some(i) => i + lookahead >= len,
            None => false,
        };
        return outcome(
            if more {
                BrowseCommand::FetchAllSongs { more: true }
            } else {
                BrowseCommand::Nothing
            },
        );
    }
    if up && page.focus == 1 && page.browse_tab == BrowseTab::Albums {
        page.selected_album = select_up_exec(page.selected_album, page.albums.len());
        return outcome(BrowseCommand::Nothing);
    }
    if down && page.focus == 1 && page.browse_tab == BrowseTab::Albums {
        let len = page.albums.len();
        page.selected_album = select_down_exec(page.selected_album, len);
        let more = page.selected_option == Some(SongOption::All) && page.albums_has_more
            && !page.albums_loading && match page.selected_album {
            Some(i) => i + lookahead >= len,
            None => false,
        };
        return outcome(
            if more {
                BrowseCommand::FetchAlbums { more: true }
            } else {
                BrowseCommand::Nothing
            },
        );
    }
    if code == KeyCode::Enter && page.browse_tab == BrowseTab::Albums {
        return match get_selected_album(page) {
            Some(a) => outcome(BrowseCommand::PlayAlbum { id: a.id, name: a.name }),
            None => outcome(BrowseCommand::Nothing),
        };
    }
    if code == KeyCode::Enter {
        if let Some(i) = page.selected_index {
            if i < page.songs.len() {
                page.queue = clone_songs(&page.songs);
                return outcome(BrowseCommand::SaveAndPlay(i));
            }
        }
        return outcome(BrowseCommand::Nothing);
    }
    if code == KeyCode::Char('f') && page.focus == 1 {
        if page.browse_tab == BrowseTab::Albums {
            return star_selected_album(page);
        }
        return star_selected_song(page);
    }
    if code == KeyCode::Char('e') && page.focus == 1 && page.browse_tab == BrowseTab::Songs {
        return match get_selected_song(page) {
            Some(song) => {
                let notice = notice_of("Added to queue: ", song.title.as_str());
                page.queue.push(song);
                BrowseOutcome {
                    notice: Some(notice),
                    error: None,
                    debounce: Debounce::Keep,
                    command: BrowseCommand::SaveQueue,
                }
            },
            None => outcome(BrowseCommand::Nothing),
        };
    }
    if code == KeyCode::Char('e') && page.focus == 1 && page.browse_tab == BrowseTab::Albums {
        return match get_selected_album(page) {
            Some(a) => outcome(BrowseCommand::AppendAlbum { id: a.id, name: a.name }),
            None => outcome(BrowseCommand::Nothing),
        };
    }
    if code == KeyCode::Char('n') && page.focus == 1 && page.browse_tab == BrowseTab::Songs {
        return match get_selected_song(page) {
            Some(song) => {
                let notice = notice_of("Playing next: ", song.title.as_str());
                let current_pos = page.queue_position;
                let qlen = page.queue.len();
                assert(insert_next_pos(current_pos) <= qlen);
                let insert_pos = match current_pos {
                    Some(p) => p + 1,
                    None => 0,
                };
                page.queue.insert(insert_pos, song);
                let command = match current_pos {
                    Some(p) => BrowseCommand::SaveAndPreload(p),
                    None => BrowseCommand::SaveQueue,
                };
                BrowseOutcome { notice: Some(notice), error: None, debounce: Debounce::Keep, command }
            },
            None => outcome(BrowseCommand::Nothing),
        };
    }
    if code == KeyCode::Char('n') && page.focus == 1 && page.browse_tab == BrowseTab::Albums {
        return match get_selected_album(page) {
            Some(a) => outcome(BrowseCommand::InsertAlbumNext { id: a.id, name: a.name }),
            None => outcome(BrowseCommand::Nothing),
        };
    }
    outcome(BrowseCommand::Nothing)
}


// ---------------------------------------------------------------------------
// After an album's songs were fetched
// ---------------------------------------------------------------------------

/// `"{prefix}{name} ({count} songs)"`.
pub open spec fn album_notice(prefix: Seq<char>, name: Seq<char>, count: nat) -> Seq<char> {
    prefix + name + " ("@ + decimal(count) + " songs)"@
}

fn album_notice_exec(prefix: &str, name: &str, count: usize) -> (s: String)
    ensures
        s@ == album_notice(prefix@, name@, count as nat),
{
    let mut s = String::new();
    push_str(&mut s, prefix);
    push_str(&mut s, name);
    push_str(&mut s, " (");
    push_decimal(&mut s, count as u64);
    push_str(&mut s, " songs)");
    s
}

/// The songs of the album chosen with Enter arrived: they replace the queue,
/// which is saved and played from its first song.
pub fn album_loaded_for_play(page: &mut BrowsePage, name: &str, songs: Vec<Child>) -> (o: BrowseOutcome)
    ensures
        final(page)@ == (BrowseView { queue: songs@, ..old(page)@ }),
        o@ == noticed(
            album_notice("Playing: "@, name@, songs@.len()),
            BrowseCommandView::SaveAndPlay(0),
        ),
{
    let count = songs.len();
    page.queue = songs;
    let notice = album_notice_exec("Playing: ", name, count);
    BrowseOutcome {
        notice: Some(notice),
        error: None,
        debounce: Debounce::Keep,
        command: BrowseCommand::SaveAndPlay(0),
    }
}

/// The songs of the album chosen with `e` arrived: they are appended to the
/// queue, which is saved.
pub fn album_loaded_for_append(page: &mut BrowsePage, name: &str, songs: Vec<Child>) -> (o: BrowseOutcome)
    ensures
        final(page)@ == (BrowseView { queue: old(page)@.queue + songs@, ..old(page)@ }),
        o@ == noticed(
            album_notice("Added to queue: "@, name@, songs@.len()),
            BrowseCommandView::SaveQueue,
        ),
{
    let count = songs.len();
    let mut songs = songs;
    page.queue.append(&mut songs);
    let notice = album_notice_exec("Added to queue: ", name, count);
    BrowseOutcome {
        notice: Some(notice),
        error: None,
        debounce: Debounce::Keep,
        command: BrowseCommand::SaveQueue,
    }
}

/// The songs of the album chosen with `n` arrived: they go right after the
/// playing song (or first), the queue is saved, and the track preloaded
/// after the playing one is replaced.
pub fn album_loaded_for_next(page: &mut BrowsePage, name: &str, songs: Vec<Child>) -> (o: BrowseOutcome)
    requires
        insert_next_pos(old(page).queue_position) <= old(page).queue@.len(),
    ensures
        ({
            let q = old(page)@.queue;
            let p = insert_next_pos(old(page).queue_position);
            final(page)@ == (BrowseView { queue: q.take(p) + songs@ + q.skip(p), ..old(page)@ })
        }),
        o@ == noticed(
            album_notice("Playing next: "@, name@, songs@.len()),
            save_after_insert(old(page).queue_position),
        ),
{
    let count = songs.len();
    let current_pos = page.queue_position;
    let qlen = page.queue.len();
    let insert_pos = match current_pos {
        Some(p) => p + 1,
        None => 0,
    };
    let ghost q = page.queue@;
    let ghost added = songs@;
    let mut songs = songs;
    let mut tail = page.queue.split_off(insert_pos);
    page.queue.append(&mut songs);
    page.queue.append(&mut tail);
    assert(page.queue@ =~= q.take(insert_pos as int) + added + q.skip(insert_pos as int)) by {
        assert(q.subrange(0, insert_pos as int) =~= q.take(insert_pos as int));
        assert(q.subrange(insert_pos as int, q.len() as int) =~= q.skip(insert_pos as int));
    }
    let notice = album_notice_exec("Playing next: ", name, count);
    let command = match current_pos {
        Some(p) => BrowseCommand::SaveAndPreload(p),
        None => BrowseCommand::SaveQueue,
    };
    BrowseOutcome { notice: Some(notice), error: None, debounce: Debounce::Keep, command }
}

/// Fetching an album's songs failed with the message `error`: an error
/// notice for playing it (`for_play`) or for adding it to the queue.
pub fn album_fetch_failed(for_play: bool, error: &str) -> (o: BrowseOutcome)
    ensures
        o@ == (BrowseOutcomeView {
            notice: None,
            error: Some(
                (if for_play {
                    "Failed to load album: "@
                } else {
                    "Failed to fetch songs for album: "@
                }) + error@,
            ),
            debounce: Debounce::Keep,
            command: BrowseCommandView::Nothing,
        }),
{
    let msg = if for_play {
        notice_of("Failed to load album: ", error)
    } else {
        notice_of("Failed to fetch songs for album: ", error)
    };
    BrowseOutcome { notice: None, error: Some(msg), debounce: Debounce::Keep, command: BrowseCommand::Nothing }
}

} // verus!
