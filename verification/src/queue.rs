//! The queue page: moving the selection, playing, removing, reordering,
//! shuffling and starring songs, and clearing the songs already played.

use vstd::prelude::*;
use crate::keys::{KeyCode, KeyEvent, is_down, is_up};
use crate::random::{shuffle_songs, thread_rng};
use crate::subsonic::Child;
use crate::text::{decimal, push_decimal, push_str};
use vstd::string::StringExecFns;

verus! {

/// What the queue page reads and changes: the play queue, the selected row,
/// the position of the song that is playing, and whether the list of starred
/// songs must be reloaded.
pub struct QueuePage {
    pub queue: Vec<Child>,
    pub selected: Option<usize>,
    pub queue_position: Option<usize>,
    pub starred_songs_dirty: bool,
}

/// The abstract queue page.
pub ghost struct QueueView {
    pub queue: Seq<Child>,
    pub selected: Option<usize>,
    pub queue_position: Option<usize>,
    pub starred_songs_dirty: bool,
}

impl View for QueuePage {
    type V = QueueView;

    open spec fn view(&self) -> QueueView {
        QueueView {
            queue: self.queue@,
            selected: self.selected,
            queue_position: self.queue_position,
            starred_songs_dirty: self.starred_songs_dirty,
        }
    }
}

/// What the caller does after a key: nothing, play the song at a queue
/// position, save the queue, or tell the server to star or unstar a song.
#[derive(Debug)]
pub enum QueueCommand {
    Nothing,
    PlayPosition(usize),
    SaveQueue,
    StarSong(String),
    UnstarSong(String),
}

pub ghost enum QueueCommandView {
    Nothing,
    PlayPosition(usize),
    SaveQueue,
    StarSong(Seq<char>),
    UnstarSong(Seq<char>),
}

impl View for QueueCommand {
    type V = QueueCommandView;

    open spec fn view(&self) -> QueueCommandView {
        match self {
            QueueCommand::Nothing => QueueCommandView::Nothing,
            QueueCommand::PlayPosition(i) => QueueCommandView::PlayPosition(*i),
            QueueCommand::SaveQueue => QueueCommandView::SaveQueue,
            QueueCommand::StarSong(id) => QueueCommandView::StarSong(id@),
            QueueCommand::UnstarSong(id) => QueueCommandView::UnstarSong(id@),
        }
    }
}

/// The result of a key on the queue page: a notice to show, if any, and the
/// command for the caller.
#[derive(Debug)]
pub struct QueueOutcome {
    pub notice: Option<String>,
    pub command: QueueCommand,
}

pub ghost struct QueueOutcomeView {
    pub notice: Option<Seq<char>>,
    pub command: QueueCommandView,
}

impl View for QueueOutcome {
    type V = QueueOutcomeView;

    open spec fn view(&self) -> QueueOutcomeView {
        QueueOutcomeView {
            notice: match self.notice {
                Some(s) => Some(s@),
                None => None,
            },
            command: self.command@,
        }
    }
}

/// An outcome with no notice.
pub open spec fn quiet(command: QueueCommandView) -> QueueOutcomeView {
    QueueOutcomeView { notice: None, command }
}

/// The selection after Up: one row higher, or the first row when nothing
/// was selected and the list is not empty.
pub open spec fn select_up(selected: Option<usize>, len: nat) -> Option<usize> {
    match selected {
        Some(s) => if s > 0 {
            Some((s - 1) as usize)
        } else {
            Some(s)
        },
        None => if len > 0 {
            Some(0)
        } else {
            None
        },
    }
}

/// The selection after Down: one row lower but not past the last row, or the
/// first row when nothing was selected and the list is not empty.
pub open spec fn select_down(selected: Option<usize>, len: nat) -> Option<usize> {
    let max = if len > 0 { len - 1 } else { 0 };
    match selected {
        Some(s) => if s < max {
            Some((s + 1) as usize)
        } else {
            Some(s)
        },
        None => if len > 0 {
            Some(0)
        } else {
            None
        },
    }
}

/// `q` with the songs at `i` and `i + 1` swapped.
pub open spec fn swap_adjacent(q: Seq<Child>, i: int) -> Seq<Child> {
    q.update(i, q[i + 1]).update(i + 1, q[i])
}

/// Whether `after` is the song `before` starred (its `starred` field set to
/// `"starred"`), or no longer starred if it was; nothing else changes.
pub open spec fn star_toggled(before: Child, after: Child) -> bool {
    &&& after == Child { starred: after.starred, ..before }
    &&& if before.starred is Some {
        after.starred is None
    } else {
        match after.starred {
            Some(s) => s@ == "starred"@,
            None => false,
        }
    }
}

/// Whether `queue_step` describes the key `code`: every key but `s`
/// (shuffle) and `f` (star), whose results `shuffled` and `star_step` state.
pub open spec fn is_plain_queue_key(code: KeyCode) -> bool {
    code != KeyCode::Char('s') && code != KeyCode::Char('f')
}

/// What `f` does: the selected song is starred or unstarred, the list of
/// starred songs must be reloaded, and the server is told.
pub open spec fn star_step(before: QueueView, after: QueueView, out: QueueOutcomeView) -> bool {
    match before.selected {
        Some(i) => {
            let song = before.queue[i as int];
            &&& after.queue.len() == before.queue.len()
            &&& star_toggled(song, after.queue[i as int])
            &&& forall|j: int|
                0 <= j < before.queue.len() && j != i ==> after.queue[j] == before.queue[j]
            &&& after.selected == before.selected
            &&& after.queue_position == before.queue_position
            &&& after.starred_songs_dirty
            &&& out == quiet(
                if song.starred is Some {
                    QueueCommandView::UnstarSong(song.id@)
                } else {
                    QueueCommandView::StarSong(song.id@)
                },
            )
        },
        None => after == before && out == quiet(QueueCommandView::Nothing),
    }
}

/// The queue page after the key `code` (other than `s` and `f`), and what
/// comes of it.
pub open spec fn queue_step(v: QueueView, code: KeyCode) -> (QueueView, QueueOutcomeView) {
    let len = v.queue.len();
    if is_up(code) {
        (QueueView { selected: select_up(v.selected, len), ..v }, quiet(QueueCommandView::Nothing))
    } else if is_down(code) {
        (QueueView { selected: select_down(v.selected, len), ..v }, quiet(QueueCommandView::Nothing))
    } else if code == KeyCode::Enter {
        match v.selected {
            Some(i) if i < len => (v, quiet(QueueCommandView::PlayPosition(i))),
            _ => (v, quiet(QueueCommandView::Nothing)),
        }
    } else if code == KeyCode::Char('d') {
        match v.selected {
            Some(i) if i < len => {
                let q = v.queue.remove(i as int);
                let selected = if q.len() == 0 {
                    None
                } else if i >= q.len() {
                    Some((q.len() - 1) as usize)
                } else {
                    v.selected
                };
                let queue_position = match v.queue_position {
                    Some(p) => if i < p {
                        Some((p - 1) as usize)
                    } else if i == p {
                        None
                    } else {
                        Some(p)
                    },
                    None => None,
                };
                (
                    QueueView { queue: q, selected, queue_position, ..v },
                    QueueOutcomeView {
                        notice: Some("Removed: "@ + v.queue[i as int].title@),
                        command: QueueCommandView::SaveQueue,
                    },
                )
            },
            _ => (v, quiet(QueueCommandView::Nothing)),
        }
    } else if code == KeyCode::Char('J') {
        match v.selected {
            Some(i) if i + 1 < len => {
                let queue_position = match v.queue_position {
                    Some(p) => if p == i {
                        Some((i + 1) as usize)
                    } else if p == i + 1 {
                        Some(i)
                    } else {
                        Some(p)
                    },
                    None => None,
                };
                (
                    QueueView {
                        queue: swap_adjacent(v.queue, i as int),
                        selected: Some((i + 1) as usize),
                        queue_position,
                        ..v
                    },
                    quiet(QueueCommandView::SaveQueue),
                )
            },
            _ => (v, quiet(QueueCommandView::Nothing)),
        }
    } else if code == KeyCode::Char('K') {
        match v.selected {
            Some(i) if i > 0 => {
                let queue_position = match v.queue_position {
                    Some(p) => if p == i {
                        Some((i - 1) as usize)
                    } else if p == i - 1 {
                        Some(i)
                    } else {
                        Some(p)
                    },
                    None => None,
                };
                (
                    QueueView {
                        queue: swap_adjacent(v.queue, i - 1),
                        selected: Some((i - 1) as usize),
                        queue_position,
                        ..v
                    },
                    quiet(QueueCommandView::SaveQueue),
                )
            },
            _ => (v, quiet(QueueCommandView::Nothing)),
        }
    } else if code == KeyCode::Char('c') {
        match v.queue_position {
            Some(p) if p > 0 => {
                let selected = match v.selected {
                    Some(s) => if s < p {
                        Some(0usize)
                    } else {
                        Some((s - p) as usize)
                    },
                    None => None,
                };
                (
                    QueueView {
                        queue: v.queue.skip(p as int),
                        selected,
                        queue_position: Some(0),
                        ..v
                    },
                    QueueOutcomeView {
                        notice: Some("Cleared "@ + decimal(p as nat) + " played songs"@),
                        command: QueueCommandView::SaveQueue,
                    },
                )
            },
            _ => (
                v,
                QueueOutcomeView {
                    notice: Some("No history to clear"@),
                    command: QueueCommandView::Nothing,
                },
            ),
        }
    } else {
        (v, quiet(QueueCommandView::Nothing))
    }
}

/// What a shuffle leaves: with a playing song inside the queue, that song
/// first and the other songs in some order after it; with a position past the
/// end, the queue unchanged; with no song playing, the same songs in some
/// order. The selection stays as it was.
pub open spec fn shuffled(before: QueueView, after: QueueView) -> bool {
    &&& after.selected == before.selected
    &&& after.starred_songs_dirty == before.starred_songs_dirty
    &&& match before.queue_position {
        Some(p) => if p < before.queue.len() {
            &&& after.queue.len() == before.queue.len()
            &&& after.queue[0] == before.queue[p as int]
            &&& after.queue.skip(1).to_multiset() == before.queue.remove(p as int).to_multiset()
            &&& after.queue_position == Some(0usize)
        } else {
            after.queue == before.queue && after.queue_position == before.queue_position
        },
        None => after.queue.to_multiset() == before.queue.to_multiset()
            && after.queue_position == before.queue_position,
    }
}

/// What a shuffle reports.
pub open spec fn shuffle_outcome() -> QueueOutcomeView {
    QueueOutcomeView { notice: Some("Queue shuffled"@), command: QueueCommandView::SaveQueue }
}

/// The inputs that the handler does not accept, as the step would index past
/// the end of the queue or underflow: moving a selected
/// song down in an empty queue, moving or starring a selected song that is
/// past the end of the queue, and clearing history up to a position past the
/// end.
pub open spec fn queue_key_ok(v: QueueView, code: KeyCode) -> bool {
    &&& (code == KeyCode::Char('J') && v.selected is Some ==> v.queue.len() > 0)
    &&& (code == KeyCode::Char('K') ==> match v.selected {
        Some(i) => i > 0 ==> i < v.queue.len(),
        None => true,
    })
    &&& (code == KeyCode::Char('c') ==> match v.queue_position {
        Some(p) => p <= v.queue.len(),
        None => true,
    })
    &&& (code == KeyCode::Char('f') ==> match v.selected {
        Some(i) => i < v.queue.len(),
        None => true,
    })
}


// ---------------------------------------------------------------------------
// Laws
// ---------------------------------------------------------------------------

/// Moving the selected song down and then up again restores the queue, the
/// selection and the playing position.
pub proof fn lemma_move_down_then_up(v: QueueView)
    requires
        v.queue.len() <= usize::MAX,
        v.selected matches Some(i) && i + 1 < v.queue.len(),
    ensures
        queue_step(queue_step(v, KeyCode::Char('J')).0, KeyCode::Char('K')).0 == v,
{
    let i = v.selected->0;
    let m = queue_step(v, KeyCode::Char('J')).0;
    let w = queue_step(m, KeyCode::Char('K')).0;
    assert(w.queue =~= v.queue);
}

/// Moving the selected song up and then down again restores the queue, the
/// selection and the playing position.
pub proof fn lemma_move_up_then_down(v: QueueView)
    requires
        v.queue.len() <= usize::MAX,
        v.selected matches Some(i) && 0 < i < v.queue.len(),
    ensures
        queue_step(queue_step(v, KeyCode::Char('K')).0, KeyCode::Char('J')).0 == v,
{
    let m = queue_step(v, KeyCode::Char('K')).0;
    let w = queue_step(m, KeyCode::Char('J')).0;
    assert(w.queue =~= v.queue);
}

/// Moving a song up or down keeps the playing position on the song that is
/// playing.
pub proof fn lemma_move_keeps_playing_song(v: QueueView, code: KeyCode)
    requires
        v.queue.len() <= usize::MAX,
        code == KeyCode::Char('J') || code == KeyCode::Char('K'),
        queue_key_ok(v, code),
        v.selected matches Some(i) && i < v.queue.len(),
        v.queue_position matches Some(p) && p < v.queue.len(),
    ensures
        queue_step(v, code).0.queue_position matches Some(p2) && p2 < v.queue.len()
            && queue_step(v, code).0.queue[p2 as int] == v.queue[v.queue_position->0 as int],
        queue_step(v, code).0.queue.len() == v.queue.len(),
{
}

/// Removing a song keeps the playing position on the song that is playing,
/// or clears it when that song is the one removed; the selection stays on a
/// song of the queue, or is cleared when the queue becomes empty.
pub proof fn lemma_remove_keeps_playing_song(v: QueueView)
    requires
        v.queue.len() <= usize::MAX,
        v.selected matches Some(i) && i < v.queue.len(),
    ensures
        ({
            let w = queue_step(v, KeyCode::Char('d')).0;
            let i = v.selected->0;
            &&& w.queue.len() == v.queue.len() - 1
            &&& (w.selected is None <==> w.queue.len() == 0)
            &&& (w.selected matches Some(s) ==> s < w.queue.len())
            &&& match v.queue_position {
                Some(p) => p < v.queue.len() ==> if p == i {
                    w.queue_position is None
                } else {
                    w.queue_position matches Some(p2) && p2 < w.queue.len() && w.queue[p2 as int]
                        == v.queue[p as int]
                },
                None => w.queue_position is None,
            }
        }),
{
}

/// Enter plays exactly the selected row when it lies inside the queue (the
/// first row too), and does nothing otherwise; the page never changes.
pub proof fn lemma_enter_plays_selected_row(v: QueueView)
    ensures
        queue_step(v, KeyCode::Enter).0 == v,
        queue_step(v, KeyCode::Enter).1.notice is None,
        queue_step(v, KeyCode::Enter).1.command == match v.selected {
            Some(i) => if i < v.queue.len() {
                QueueCommandView::PlayPosition(i)
            } else {
                QueueCommandView::Nothing
            },
            None => QueueCommandView::Nothing,
        },
{
}

/// `J` swaps the selected song with the one below it and follows it with the
/// selection; the playing position follows the playing song. At the bottom
/// of the queue, or with nothing selected, nothing happens.
pub proof fn lemma_move_down_swaps(v: QueueView)
    requires
        v.queue.len() <= usize::MAX,
    ensures
        ({
            let r = queue_step(v, KeyCode::Char('J'));
            let w = r.0;
            match v.selected {
                Some(i) => if i + 1 < v.queue.len() {
                    &&& w.queue.len() == v.queue.len()
                    &&& w.queue[i as int] == v.queue[i + 1]
                    &&& w.queue[i + 1] == v.queue[i as int]
                    &&& forall|j: int|
                        0 <= j < v.queue.len() && j != i && j != i + 1 ==> #[trigger] w.queue[j]
                            == v.queue[j]
                    &&& w.selected == Some((i + 1) as usize)
                    &&& w.queue_position == match v.queue_position {
                        Some(p) => Some(
                            (if p == i {
                                i + 1
                            } else if p == i + 1 {
                                i as int
                            } else {
                                p as int
                            }) as usize,
                        ),
                        None => None,
                    }
                    &&& w.starred_songs_dirty == v.starred_songs_dirty
                    &&& r.1.notice is None
                    &&& r.1.command == QueueCommandView::SaveQueue
                } else {
                    w == v && r.1.command == QueueCommandView::Nothing
                },
                None => w == v && r.1.command == QueueCommandView::Nothing,
            }
        }),
{
}

/// `K` swaps the selected song with the one above it and follows it with the
/// selection; the playing position follows the playing song. At the top of
/// the queue, or with nothing selected, nothing happens.
pub proof fn lemma_move_up_swaps(v: QueueView)
    requires
        v.queue.len() <= usize::MAX,
        match v.selected {
            Some(i) => i > 0 ==> i < v.queue.len(),
            None => true,
        },
    ensures
        ({
            let r = queue_step(v, KeyCode::Char('K'));
            let w = r.0;
            match v.selected {
                Some(i) => if i > 0 {
                    &&& w.queue.len() == v.queue.len()
                    &&& w.queue[i as int] == v.queue[i - 1]
                    &&& w.queue[i - 1] == v.queue[i as int]
                    &&& forall|j: int|
                        0 <= j < v.queue.len() && j != i && j != i - 1 ==> #[trigger] w.queue[j]
                            == v.queue[j]
                    &&& w.selected == Some((i - 1) as usize)
                    &&& w.queue_position == match v.queue_position {
                        Some(p) => Some(
                            (if p == i {
                                i - 1
                            } else if p == i - 1 {
                                i as int
                            } else {
                                p as int
                            }) as usize,
                        ),
                        None => None,
                    }
                    &&& w.starred_songs_dirty == v.starred_songs_dirty
                    &&& r.1.notice is None
                    &&& r.1.command == QueueCommandView::SaveQueue
                } else {
                    w == v && r.1.command == QueueCommandView::Nothing
                },
                None => w == v && r.1.command == QueueCommandView::Nothing,
            }
        }),
{
}

/// `d` removes exactly the selected song (the songs after it move up by
/// one), announces it by its title and asks to save the queue; the selection
/// stays on the same row, or on the new last row when the last song was
/// removed, and is cleared when the queue becomes empty. With nothing
/// selected inside the queue nothing happens.
pub proof fn lemma_remove_selected(v: QueueView)
    requires
        v.queue.len() <= usize::MAX,
    ensures
        ({
            let r = queue_step(v, KeyCode::Char('d'));
            let w = r.0;
            match v.selected {
                Some(i) => if i < v.queue.len() {
                    let n = v.queue.len() - 1;
                    &&& w.queue.len() == n
                    &&& forall|j: int| 0 <= j < i ==> #[trigger] w.queue[j] == v.queue[j]
                    &&& forall|j: int| i <= j < n ==> #[trigger] w.queue[j] == v.queue[j + 1]
                    &&& w.selected == if n == 0 {
                        None
                    } else if i < n {
                        Some(i)
                    } else {
                        Some((n - 1) as usize)
                    }
                    &&& r.1.notice == Some("Removed: "@ + v.queue[i as int].title@)
                    &&& r.1.command == QueueCommandView::SaveQueue
                } else {
                    w == v && r.1.command == QueueCommandView::Nothing
                },
                None => w == v && r.1.command == QueueCommandView::Nothing,
            }
        }),
{
}

/// Clearing the history removes exactly the songs before the playing one,
/// which then plays at position 0.
pub proof fn lemma_clear_history(v: QueueView)
    requires
        v.queue.len() <= usize::MAX,
        v.queue_position matches Some(p) && 0 < p < v.queue.len(),
    ensures
        ({
            let w = queue_step(v, KeyCode::Char('c')).0;
            let p = v.queue_position->0;
            &&& w.queue == v.queue.skip(p as int)
            &&& w.queue_position == Some(0usize)
            &&& w.queue[0] == v.queue[p as int]
            &&& w.selected == match v.selected {
                Some(s) => Some((if s < p { 0 } else { s - p }) as usize),
                None => None,
            }
        }),
{
}

/// Up and Down keep a selection that is inside the queue inside it, and
/// select the first song of a non-empty queue when nothing was selected.
pub proof fn lemma_select_in_bounds(v: QueueView, code: KeyCode)
    requires
        v.queue.len() <= usize::MAX,
        is_up(code) || is_down(code),
        v.selected matches Some(i) ==> i < v.queue.len(),
    ensures
        queue_step(v, code).0.queue == v.queue,
        queue_step(v, code).0.selected is None <==> v.queue.len() == 0,
        queue_step(v, code).0.selected matches Some(i) ==> i < v.queue.len(),
{
}

/// Starring a song twice leaves it starred exactly when it was before, and
/// the two commands undo each other.
pub proof fn lemma_star_twice(
    v: QueueView,
    m: QueueView,
    w: QueueView,
    o1: QueueOutcomeView,
    o2: QueueOutcomeView,
)
    requires
        v.selected matches Some(i) && i < v.queue.len(),
        star_step(v, m, o1),
        star_step(m, w, o2),
    ensures
        ({
            let i = v.selected->0 as int;
            &&& (w.queue[i].starred is Some <==> v.queue[i].starred is Some)
            &&& w.queue[i].id == v.queue[i].id
            &&& w.queue.len() == v.queue.len()
            &&& forall|j: int| 0 <= j < v.queue.len() && j != i ==> w.queue[j] == v.queue[j]
            &&& (o1.command matches QueueCommandView::StarSong(id) ==> o2.command
                == QueueCommandView::UnstarSong(id))
            &&& (o1.command matches QueueCommandView::UnstarSong(id) ==> o2.command
                == QueueCommandView::StarSong(id))
        }),
{
}

/// A shuffle keeps every song of the queue, each as often as before.
pub proof fn lemma_shuffle_keeps_songs(v: QueueView, w: QueueView)
    requires
        shuffled(v, w),
    ensures
        w.queue.to_multiset() == v.queue.to_multiset(),
{
    broadcast use vstd::seq_lib::to_multiset_remove, vstd::seq_lib::to_multiset_build;
    broadcast use vstd::multiset::group_multiset_axioms;

    if let Some(p) = v.queue_position {
        if p < v.queue.len() {
            let rest = w.queue.skip(1);
            assert(w.queue =~= seq![w.queue[0]] + rest);
            vstd::seq_lib::lemma_seq_union_to_multiset_commutative(seq![w.queue[0]], rest);
            assert(rest + seq![w.queue[0]] =~= rest.push(w.queue[0]));
            assert(v.queue.to_multiset().count(v.queue[p as int]) > 0) by {
                vstd::seq_lib::to_multiset_contains(v.queue, v.queue[p as int]);
            }
            assert(w.queue.to_multiset() =~= v.queue.to_multiset());
        }
    }
}

/// Swaps the songs at `i` and `i + 1`.
fn swap_next(q: &mut Vec<Child>, i: usize)
    requires
        i + 1 < old(q).len(),
    ensures
        final(q)@ == swap_adjacent(old(q)@, i as int),
{
    let next = q.remove(i + 1);
    q.insert(i, next);
    assert(final(q)@ =~= swap_adjacent(old(q)@, i as int));
}

/// A notice made of `prefix` and `rest`.
fn notice_with(prefix: &str, rest: &str) -> (s: String)
    ensures
        s@ == prefix@ + rest@,
{
    let mut s = String::new();
    push_str(&mut s, prefix);
    push_str(&mut s, rest);
    s
}

/// The selection after Up.
pub fn select_up_exec(selected: Option<usize>, len: usize) -> (r: Option<usize>)
    ensures
        r == select_up(selected, len as nat),
{
    match selected {
        Some(s) => if s > 0 {
            Some(s - 1)
        } else {
            Some(s)
        },
        None => if len > 0 {
            Some(0)
        } else {
            None
        },
    }
}

/// The selection after Down.
pub fn select_down_exec(selected: Option<usize>, len: usize) -> (r: Option<usize>)
    ensures
        r == select_down(selected, len as nat),
{
    let max = if len > 0 {
        len - 1
    } else {
        0
    };
    match selected {
        Some(s) => if s < max {
            Some(s + 1)
        } else {
            Some(s)
        },
        None => if len > 0 {
            Some(0)
        } else {
            None
        },
    }
}

/// Handles a key on the queue page. `s` shuffles with the thread's random
/// generator, keeping the song that is playing first.
pub fn handle_queue_key(page: &mut QueuePage, key: KeyEvent) -> (out: QueueOutcome)
    requires
        queue_key_ok(old(page)@, key.code),
    ensures
        is_plain_queue_key(key.code) ==> (final(page)@, out@) == queue_step(old(page)@, key.code),
        key.code == KeyCode::Char('f') ==> star_step(old(page)@, final(page)@, out@),
        key.code == KeyCode::Enter ==> match old(page).selected {
            Some(i) => if i < old(page).queue@.len() {
                out.command == QueueCommand::PlayPosition(i)
            } else {
                out.command == QueueCommand::Nothing
            },
            None => out.command == QueueCommand::Nothing,
        },
        key.code == KeyCode::Char('s') ==> shuffled(old(page)@, final(page)@) && out@
            == shuffle_outcome(),
{
    let code = key.code;
    let len = page.queue.len();
    if code == KeyCode::Up || code == KeyCode::Char('k') {
        page.selected = select_up_exec(page.selected, len);
        return QueueOutcome { notice: None, command: QueueCommand::Nothing };
    }
    if code == KeyCode::Down || code == KeyCode::Char('j') {
        page.selected = select_down_exec(page.selected, len);
        return QueueOutcome { notice: None, command: QueueCommand::Nothing };
    }
    if code == KeyCode::Enter {
        if let Some(idx) = page.selected {
            if idx < len {
                return QueueOutcome { notice: None, command: QueueCommand::PlayPosition(idx) };
            }
        }
        return QueueOutcome { notice: None, command: QueueCommand::Nothing };
    }
    if code == KeyCode::Char('d') {
        if let Some(idx) = page.selected {
            if idx < len {
                let song = page.queue.remove(idx);
                let notice = notice_with("Removed: ", song.title.as_str());
                if page.queue.len() == 0 {
                    page.selected = None;
                } else if idx >= page.queue.len() {
                    page.selected = Some(page.queue.len() - 1);
                }
                if let Some(pos) = page.queue_position {
                    if idx < pos {
                        page.queue_position = Some(pos - 1);
                    } else if idx == pos {
                        page.queue_position = None;
                    }
                }
                return QueueOutcome { notice: Some(notice), command: QueueCommand::SaveQueue };
            }
        }
        return QueueOutcome { notice: None, command: QueueCommand::Nothing };
    }
    if code == KeyCode::Char('J') {
        if let Some(idx) = page.selected {
            if idx < len - 1 {
                swap_next(&mut page.queue, idx);
                page.selected = Some(idx + 1);
                if let Some(pos) = page.queue_position {
                    if pos == idx {
                        page.queue_position = Some(idx + 1);
                    } else if pos == idx + 1 {
                        page.queue_position = Some(idx);
                    }
                }
                return QueueOutcome { notice: None, command: QueueCommand::SaveQueue };
            }
        }
        return QueueOutcome { notice: None, command: QueueCommand::Nothing };
    }
    if code == KeyCode::Char('K') {
        if let Some(idx) = page.selected {
            if idx > 0 {
                swap_next(&mut page.queue, idx - 1);
                page.selected = Some(idx - 1);
                if let Some(pos) = page.queue_position {
                    if pos == idx {
                        page.queue_position = Some(idx - 1);
                    } else if pos == idx - 1 {
                        page.queue_position = Some(idx);
                    }
                }
                return QueueOutcome { notice: None, command: QueueCommand::SaveQueue };
            }
        }
        return QueueOutcome { notice: None, command: QueueCommand::Nothing };
    }
    if code == KeyCode::Char('s') {
        let mut rng = thread_rng();
        if let Some(pos) = page.queue_position {
            if pos < len {
                let ghost before = page.queue@;
                let current = page.queue.remove(pos);
                shuffle_songs(&mut page.queue, &mut rng);
                let ghost rest = page.queue@;
                page.queue.insert(0, current);
                proof {
                    broadcast use vstd::seq_lib::to_multiset_len;

                    assert(page.queue@.skip(1) =~= rest);
                    assert(rest.to_multiset() == before.remove(pos as int).to_multiset());
                    assert(rest.to_multiset().len() == before.remove(
                        pos as int,
                    ).to_multiset().len());
                    assert(rest.len() == before.remove(pos as int).len());
                    assert(page.queue@[0] == before[pos as int]);
                }
                page.queue_position = Some(0);
            }
        } else {
            shuffle_songs(&mut page.queue, &mut rng);
        }
        let notice = String::from_str("Queue shuffled");
        return QueueOutcome { notice: Some(notice), command: QueueCommand::SaveQueue };
    }
    if code == KeyCode::Char('c') {
        if let Some(pos) = page.queue_position {
            if pos > 0 {
                let rest = page.queue.split_off(pos);
                page.queue = rest;
                page.queue_position = Some(0);
                if let Some(sel) = page.selected {
                    if sel < pos {
                        page.selected = Some(0);
                    } else {
                        page.selected = Some(sel - pos);
                    }
                }
                let mut notice = String::from_str("Cleared ");
                push_decimal(&mut notice, pos as u64);
                push_str(&mut notice, " played songs");
                return QueueOutcome { notice: Some(notice), command: QueueCommand::SaveQueue };
            }
        }
        let notice = String::from_str("No history to clear");
        return QueueOutcome { notice: Some(notice), command: QueueCommand::Nothing };
    }
    if code == KeyCode::Char('f') {
        if let Some(idx) = page.selected {
            let mut song = page.queue.remove(idx);
            let id = song.id.clone();
            let was_starred = song.starred.is_some();
            song.starred = if was_starred {
                None
            } else {
                Some(String::from_str("starred"))
            };
            page.queue.insert(idx, song);
            page.starred_songs_dirty = true;
            let command = if was_starred {
                QueueCommand::UnstarSong(id)
            } else {
                QueueCommand::StarSong(id)
            };
            return QueueOutcome { notice: None, command };
        }
        return QueueOutcome { notice: None, command: QueueCommand::Nothing };
    }
    QueueOutcome { notice: None, command: QueueCommand::Nothing }
}

} // verus!
