//! Desktop notifications when the track changes: what they say, and which
//! earlier notification they replace.

use vstd::prelude::*;
use crate::text::push_str;

verus! {

/// The track that a notification announces.
pub struct TrackInfo {
    pub title: String,
    pub artist: String,
    pub album: String,
}

/// The body of the notification: `"{artist} — {album}"` (its summary is the
/// title).
pub fn notification_body(track: &TrackInfo) -> (body: String)
    ensures
        body@ == track.artist@ + " — "@ + track.album@,
{
    let mut s = String::new();
    push_str(&mut s, track.artist.as_str());
    push_str(&mut s, " — ");
    push_str(&mut s, track.album.as_str());
    s
}

/// The notification that a new one replaces: the previous one, unless no
/// notification has been shown yet (id 0).
pub fn replacement_id(previous_id: u32) -> (id: Option<u32>)
    ensures
        id == (if previous_id != 0 {
            Some(previous_id)
        } else {
            None
        }),
{
    if previous_id != 0 {
        Some(previous_id)
    } else {
        None
    }
}

} // verus!
