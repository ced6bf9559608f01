//! Tracks from audio files: what the tags of a file come to.
//!
//! Opening the file and reading its tags is the caller's part; it hands over
//! the texts it found. What a track is made of them is decided here.

use vstd::prelude::*;
use vstd::string::{StringExecFns, StringSliceAdditionalSpecFns};
use vstd::utf8::{decode_utf8, encode_utf8, is_char_boundary};
use crate::ident::{fresh_id, is_id};
use crate::model::{
    album_title, all_fresh, first_artist, names_of, new_artists, opt_bytes, opt_text, texts,
    title_of_album, Album, ArtistView, Track, TrackSource,
};

verus! {

/// Why a file did not resolve to a track.
#[derive(Debug, PartialEq)]
pub enum ResolveError {
    /// No path was given.
    PathEmpty,
    /// There is no file at the path.
    FileMissing,
    /// The file's tags could not be read; the text says why.
    TagRead(String),
}

/// What the tags of an audio file say, as far as the library asks. A file
/// without tags says nothing: no artists, and none of the texts.
#[derive(Debug, PartialEq)]
pub struct TagFields {
    /// The artists of the track, where the tags list them one by one.
    pub track_artists: Vec<String>,
    /// The artist of the track, where the tags give one text for it.
    pub track_artist: Option<String>,
    /// The first picture in the tags.
    pub picture: Option<Vec<u8>>,
    pub album_title: Option<String>,
    /// The date of release, which begins with the year.
    pub year: Option<String>,
    pub title: Option<String>,
    pub track_number: Option<String>,
}

/// The number that `str::parse::<i32>` reads from a text, if it reads one:
/// decimal digits, with a sign before them or without, within the range of
/// an `i32`.
pub uninterp spec fn parsed_i32(s: Seq<char>) -> Option<i32>;

/// Calls `str::parse::<i32>`, whose result depends on the text alone, and
/// drops the reason of a failure.
#[verifier::external_body]
fn parse_i32(s: &str) -> (r: Option<i32>)
    ensures
        r == parsed_i32(s@),
{
    s.parse::<i32>().ok()
}

/// The first four bytes of a text, where they are whole characters.
pub fn first_four(s: &str) -> (r: Option<&str>)
    ensures
        match r {
            Some(p) => is_char_boundary(s.spec_bytes(), 4) && p.spec_bytes() == s.spec_bytes().subrange(
                0,
                4,
            ),
            None => !is_char_boundary(s.spec_bytes(), 4),
        },
{
    if s.is_char_boundary(4) {
        let (head, _) = s.split_at(4);
        Some(head)
    } else {
        None
    }
}

/// The names of the artists that the tags give: those that are listed one by
/// one, or else the one that is given as one text.
pub open spec fn artist_names_of(listed: Seq<Seq<char>>, single: Option<Seq<char>>) -> Seq<
    Seq<char>,
> {
    if listed.len() > 0 {
        listed
    } else {
        match single {
            Some(name) => seq![name],
            None => seq![],
        }
    }
}

/// Refuses an empty path.
pub fn require_path(path: &str) -> (r: Result<(), ResolveError>)
    ensures
        r is Ok <==> path@.len() > 0,
        r matches Err(e) ==> e is PathEmpty,
{
    if path.is_empty() {
        Err(ResolveError::PathEmpty)
    } else {
        Ok(())
    }
}

/// Whether `r` is the track that a file's tags come to, with the year of
/// release and the number of the track as they were read from the tags'
/// texts. The track and its artists are new; the album is new too and has
/// the track's first artist. A file without a title in its tags is called by
/// the stem of its name, and an album without a title is the unknown album.
pub open spec fn resolves(
    r: Track,
    path: String,
    file_stem: String,
    duration_ms: u64,
    tags: TagFields,
    release_year: Option<i32>,
    track_number: Option<i32>,
) -> bool {
    &&& is_id(r.id@)
    &&& r.title@ == match tags.title {
        Some(t) => t@,
        None => file_stem@,
    }
    &&& names_of(r.artists@) == artist_names_of(
        texts(tags.track_artists@),
        opt_text(tags.track_artist),
    )
    &&& all_fresh(r.artists@)
    &&& is_id(r.album.id@)
    &&& r.album.title@ == album_title(opt_text(tags.album_title))
    &&& r.album@.artists == if r.artists@.len() > 0 {
        seq![r.artists@[0]@]
    } else {
        Seq::<ArtistView>::empty()
    }
    &&& r.album.release_year == release_year
    &&& opt_bytes(r.album.album_art) == opt_bytes(tags.picture)
    &&& r.duration_ms == duration_ms
    &&& r.path == Some(path)
    &&& r.source == TrackSource::Local
    &&& r.source_id.is_none()
    &&& r.track_number == track_number
    &&& r@.well_formed()
}

/// Makes the track that a file's tags come to, with the year of release and
/// the number of the track as they were read from the tags' texts.
pub fn track_from_parts(
    path: String,
    file_stem: String,
    duration_ms: u64,
    tags: TagFields,
    release_year: Option<i32>,
    track_number: Option<i32>,
) -> (r: Track)
    ensures
        resolves(r, path, file_stem, duration_ms, tags, release_year, track_number),
{
    let TagFields { track_artists, track_artist, picture, album_title, year: _, title, track_number: _ } =
        tags;
    let mut names = track_artists;
    if names.len() == 0 {
        if let Some(name) = track_artist {
            names.push(name);
            assert(texts(names@) =~= seq![name@]);
        } else {
            assert(texts(names@) =~= seq![]);
        }
    }
    let artists = new_artists(&names);
    let album = Album::new(
        title_of_album(album_title),
        first_artist(&artists),
        release_year,
        picture,
    );
    let title = match title {
        Some(t) => t,
        None => file_stem,
    };
    Track {
        id: fresh_id(),
        title,
        artists,
        album,
        duration_ms,
        path: Some(path),
        source: TrackSource::Local,
        source_id: None,
        track_number,
    }
}

/// The text in the first four bytes of a text.
pub open spec fn head_of(s: Seq<char>) -> Seq<char> {
    decode_utf8(encode_utf8(s).subrange(0, 4))
}

/// The year at the beginning of a date: the number in its first four bytes,
/// where they are whole characters.
pub open spec fn year_of(date: Option<Seq<char>>) -> Option<i32> {
    match date {
        Some(d) => if is_char_boundary(encode_utf8(d), 4) {
            parsed_i32(head_of(d))
        } else {
            None
        },
        None => None,
    }
}

/// The number of a track in the text that the tags give for it.
pub open spec fn number_of(text: Option<Seq<char>>) -> Option<i32> {
    match text {
        Some(t) => parsed_i32(t),
        None => None,
    }
}

/// Reads the year at the beginning of a date.
pub fn read_year(date: &Option<String>) -> (r: Option<i32>)
    ensures
        r == year_of(opt_text(*date)),
{
    match date {
        Some(d) => match first_four(d.as_str()) {
            Some(p) => {
                proof {
                    vstd::utf8::encode_utf8_decode_utf8(p@);
                }
                parse_i32(p)
            },
            None => None,
        },
        None => None,
    }
}

/// Reads the number of a track.
pub fn read_number(text: &Option<String>) -> (r: Option<i32>)
    ensures
        r == number_of(opt_text(*text)),
{
    match text {
        Some(t) => parse_i32(t.as_str()),
        None => None,
    }
}

/// Makes the track that a file's tags come to.
pub fn track_from_tags(path: String, file_stem: String, duration_ms: u64, tags: TagFields) -> (r:
    Track)
    ensures
        resolves(
            r,
            path,
            file_stem,
            duration_ms,
            tags,
            year_of(opt_text(tags.year)),
            number_of(opt_text(tags.track_number)),
        ),
{
    let release_year = read_year(&tags.year);
    let track_number = read_number(&tags.track_number);
    track_from_parts(path, file_stem, duration_ms, tags, release_year, track_number)
}

} // verus!
