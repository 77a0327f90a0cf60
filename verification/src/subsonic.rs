//! Subsonic API response models.

use vstd::prelude::*;
use crate::text::{decimal, digit, digit_char, pad2, push_decimal};

verus! {

/// Wrapper for all Subsonic API responses.
#[derive(Debug)]
pub struct SubsonicResponse<T> {
    pub subsonic_response: SubsonicResponseInner<T>,
}

/// The body of a response: its status, the error when it failed, and the
/// payload that the request asked for.
#[derive(Debug)]
pub struct SubsonicResponseInner<T> {
    pub status: String,
    pub version: String,
    pub error: Option<ApiError>,
    pub data: Option<T>,
}

/// API error response.
#[derive(Debug)]
pub struct ApiError {
    pub code: i32,
    pub message: String,
}

#[derive(Debug)]
pub struct StarredSongsData {
    pub starred_songs: StarredSongs,
}

#[derive(Debug)]
pub struct StarredSongs {
    pub song: Vec<Child>,
    pub album: Vec<Album>,
}

#[derive(Debug)]
pub struct RandomSongsData {
    pub random_songs: RandomSongs,
}

#[derive(Debug)]
pub struct RandomSongs {
    pub song: Vec<Child>,
}

/// Artists response wrapper.
#[derive(Debug)]
pub struct ArtistsData {
    pub artists: ArtistsIndex,
}

#[derive(Debug)]
pub struct ArtistsIndex {
    pub index: Vec<ArtistIndex>,
}

#[derive(Debug)]
pub struct ArtistIndex {
    pub name: String,
    pub artist: Vec<Artist>,
}

/// Artist.
#[derive(Debug, Clone)]
pub struct Artist {
    pub id: String,
    pub name: String,
    pub album_count: Option<i32>,
    pub cover_art: Option<String>,
    pub starred: Option<String>,
}

/// Artist detail with albums.
#[derive(Debug)]
pub struct ArtistData {
    pub artist: ArtistDetail,
}

#[derive(Debug)]
pub struct ArtistDetail {
    pub id: String,
    pub name: String,
    pub album: Vec<Album>,
}

/// Album.
#[derive(Debug)]
pub struct Album {
    pub id: String,
    pub name: String,
    pub artist: Option<String>,
    pub artist_id: Option<String>,
    pub cover_art: Option<String>,
    pub song_count: Option<i32>,
    pub duration: Option<i32>,
    pub year: Option<i32>,
    pub genre: Option<String>,
    pub starred: Option<String>,
}

/// Album detail with songs.
#[derive(Debug)]
pub struct AlbumData {
    pub album: AlbumDetail,
}

#[derive(Debug)]
pub struct AlbumDetail {
    pub id: String,
    pub name: String,
    pub artist: Option<String>,
    pub artist_id: Option<String>,
    pub year: Option<i32>,
    pub song: Vec<Child>,
}

/// Song or media item (called "Child" in the Subsonic API).
#[derive(Debug)]
pub struct Child {
    pub id: String,
    pub parent: Option<String>,
    pub is_dir: bool,
    pub title: String,
    pub album: Option<String>,
    pub artist: Option<String>,
    pub track: Option<i32>,
    pub year: Option<i32>,
    pub genre: Option<String>,
    pub cover_art: Option<String>,
    pub size: Option<i64>,
    pub content_type: Option<String>,
    pub suffix: Option<String>,
    pub duration: Option<i32>,
    pub bit_rate: Option<i32>,
    pub path: Option<String>,
    pub disc_number: Option<i32>,
    pub starred: Option<String>,
}

/// Rust's `/` on integers: the quotient rounded toward zero.
pub open spec fn trunc_div(a: int, b: int) -> int {
    if a >= 0 { a / b } else { -((-a) / b) }
}

/// Rust's `%` on integers: the remainder takes the sign of the dividend.
pub open spec fn trunc_rem(a: int, b: int) -> int {
    if a >= 0 { a % b } else { -((-a) % b) }
}

/// `MM:SS` for a duration in seconds, as `format!("{:02}:{:02}", d / 60, d % 60)`
/// writes it; `--:--` when the duration is unknown.
pub open spec fn spec_format_duration(duration: Option<i32>) -> Seq<char> {
    match duration {
        Some(d) => pad2(trunc_div(d as int, 60)) + seq![':'] + pad2(trunc_rem(d as int, 60)),
        None => seq!['-', '-', ':', '-', '-'],
    }
}

/// Appends `format!("{:02}", n)` to `s`.
fn push_pad2(s: &mut String, n: i64)
    requires
        -0x1_0000_0000 < n < 0x1_0000_0000,
    ensures
        final(s)@ == old(s)@ + pad2(n as int),
{
    if n < 0 {
        s.push('-');
        push_decimal(s, (-n) as u64);
    } else if n < 10 {
        s.push('0');
        let c = digit(n as u64);
        s.push(c);
    } else {
        push_decimal(s, n as u64);
    }
    assert(final(s)@ =~= old(s)@ + pad2(n as int));
}

impl Child {
    /// Format duration as MM:SS.
    pub fn format_duration(&self) -> (res: String)
        ensures
            res@ == spec_format_duration(self.duration),
    {
        let mut s = String::new();
        match self.duration {
            Some(d) => {
                let d64: i64 = d as i64;
                let (mins, secs): (i64, i64) = if d64 >= 0 {
                    (d64 / 60, d64 % 60)
                } else {
                    (-((-d64) / 60), -((-d64) % 60))
                };
                push_pad2(&mut s, mins);
                s.push(':');
                push_pad2(&mut s, secs);
            },
            None => {
                s.push('-');
                s.push('-');
                s.push(':');
                s.push('-');
                s.push('-');
            },
        }
        s
    }
}


/// Playlists response.
#[derive(Debug)]
pub struct PlaylistsData {
    pub playlists: PlaylistsInner,
}

#[derive(Debug)]
pub struct PlaylistsInner {
    pub playlist: Vec<Playlist>,
}

/// Playlist.
#[derive(Debug, Clone)]
pub struct Playlist {
    pub id: String,
    pub name: String,
    pub owner: Option<String>,
    pub song_count: Option<i32>,
    pub duration: Option<i32>,
    pub cover_art: Option<String>,
    pub public: Option<bool>,
    pub comment: Option<String>,
}

/// Playlist detail with songs.
#[derive(Debug)]
pub struct PlaylistData {
    pub playlist: PlaylistDetail,
}

#[derive(Debug)]
pub struct PlaylistDetail {
    pub id: String,
    pub name: String,
    pub owner: Option<String>,
    pub song_count: Option<i32>,
    pub duration: Option<i32>,
    pub entry: Vec<Child>,
}

/// Internet radio stations response.
#[derive(Debug)]
pub struct InternetRadioStationsData {
    pub internet_radio_stations: InternetRadioStationsInner,
}

#[derive(Debug)]
pub struct InternetRadioStationsInner {
    pub internet_radio_station: Vec<InternetRadioStation>,
}

/// Internet radio station.
#[derive(Debug)]
pub struct InternetRadioStation {
    pub id: String,
    pub name: String,
    pub stream_url: String,
    pub home_page_url: Option<String>,
    pub cover_art: Option<String>,
}

/// Search3 response wrapper.
#[derive(Debug)]
pub struct Search3Data {
    pub search_result: SearchResult3,
}

#[derive(Debug)]
pub struct SearchResult3 {
    pub song: Vec<Child>,
}

/// getAlbumList2 response wrapper.
#[derive(Debug)]
pub struct AlbumListData {
    pub album_list: AlbumListInner,
}

#[derive(Debug)]
pub struct AlbumListInner {
    pub album: Vec<Album>,
}

/// Ping response (for testing the connection).
#[derive(Debug)]
pub struct PingData {}

/// Lyrics response.
#[derive(Debug)]
pub struct LyricsData {
    pub lyrics: OneOrMany<Lyrics>,
}

#[derive(Debug, Clone)]
pub struct Lyrics {
    pub artist: Option<String>,
    pub title: Option<String>,
    pub content: Option<String>,
}

/// OpenSubsonic structured lyrics response.
#[derive(Debug)]
pub struct LyricsListData {
    pub lyrics_list: Option<LyricsList>,
    pub structured_lyrics: Option<Vec<StructuredLyrics>>,
}

#[derive(Debug)]
pub struct LyricsList {
    pub structured_lyrics: Vec<StructuredLyrics>,
    pub lyrics: Vec<Lyrics>,
}

#[derive(Debug)]
pub struct StructuredLyrics {
    pub line: Vec<LyricsLine>,
}

#[derive(Debug)]
pub struct LyricsLine {
    pub start: Option<i64>,
    pub value: String,
}

/// A field that the server sends either as one value or as a list.
#[derive(Debug, Clone)]
pub enum OneOrMany<T> {
    One(T),
    Many(Vec<T>),
}

impl<T> Default for OneOrMany<T> {
    /// An empty list.
    fn default() -> (r: Self)
        ensures
            r matches OneOrMany::Many(v) && v@.len() == 0,
    {
        OneOrMany::Many(Vec::new())
    }
}

impl<T> OneOrMany<T> {
    /// The single value, or the first value of the list.
    pub fn first(&self) -> (r: Option<&T>)
        ensures
            r == (match self {
                OneOrMany::One(t) => Some(t),
                OneOrMany::Many(v) => if v@.len() > 0 {
                    Some(&v@[0])
                } else {
                    None
                },
            }),
    {
        match self {
            OneOrMany::One(t) => Some(t),
            OneOrMany::Many(v) => if v.len() > 0 {
                Some(&v[0])
            } else {
                None
            },
        }
    }
}

/// A copy of an optional string.
fn copy_opt_string(s: &Option<String>) -> (r: Option<String>)
    ensures
        r == *s,
{
    match s {
        Some(t) => Some(t.clone()),
        None => None,
    }
}

impl Clone for Child {
    fn clone(&self) -> (r: Self)
        ensures
            r == *self,
    {
        Child {
            id: self.id.clone(),
            parent: copy_opt_string(&self.parent),
            is_dir: self.is_dir,
            title: self.title.clone(),
            album: copy_opt_string(&self.album),
            artist: copy_opt_string(&self.artist),
            track: self.track,
            year: self.year,
            genre: copy_opt_string(&self.genre),
            cover_art: copy_opt_string(&self.cover_art),
            size: self.size,
            content_type: copy_opt_string(&self.content_type),
            suffix: copy_opt_string(&self.suffix),
            duration: self.duration,
            bit_rate: self.bit_rate,
            path: copy_opt_string(&self.path),
            disc_number: self.disc_number,
            starred: copy_opt_string(&self.starred),
        }
    }
}

impl Clone for Album {
    fn clone(&self) -> (r: Self)
        ensures
            r == *self,
    {
        Album {
            id: self.id.clone(),
            name: self.name.clone(),
            artist: copy_opt_string(&self.artist),
            artist_id: copy_opt_string(&self.artist_id),
            cover_art: copy_opt_string(&self.cover_art),
            song_count: self.song_count,
            duration: self.duration,
            year: self.year,
            genre: copy_opt_string(&self.genre),
            starred: copy_opt_string(&self.starred),
        }
    }
}

impl Clone for InternetRadioStation {
    fn clone(&self) -> (r: Self)
        ensures
            r == *self,
    {
        InternetRadioStation {
            id: self.id.clone(),
            name: self.name.clone(),
            stream_url: self.stream_url.clone(),
            home_page_url: copy_opt_string(&self.home_page_url),
            cover_art: copy_opt_string(&self.cover_art),
        }
    }
}

} // verus!
