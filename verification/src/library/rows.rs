//! Reading the rows of a reply.
//!
//! A column is read as the database driver reads it: a text, a number or a
//! byte string is taken from a value of its own type only, null is an error
//! where a value is due and stands for none where the column is optional,
//! and a time is taken from a real number or from a whole number of seconds.

use vstd::prelude::*;
use crate::library::value::{row_views, value_views, Malformation, Value, ValueView};
use crate::model::{
    lowercase, opt_bytes, opt_text, Album, AlbumView, Artist, ArtistView, Playlist, PlaylistView,
    TrackSource,
};

verus! {

/// The text in column `i`.
pub open spec fn text_at(row: Seq<ValueView>, i: usize) -> Result<Seq<char>, Malformation> {
    if i >= row.len() {
        Err(Malformation::MissingColumn(i))
    } else {
        match row[i as int] {
            ValueView::Text(s) => Ok(s),
            ValueView::Null => Err(Malformation::NullColumn(i)),
            _ => Err(Malformation::WrongType(i)),
        }
    }
}

/// The text in column `i`, or none where it is null.
pub open spec fn opt_text_at(row: Seq<ValueView>, i: usize) -> Result<
    Option<Seq<char>>,
    Malformation,
> {
    if i >= row.len() {
        Err(Malformation::MissingColumn(i))
    } else {
        match row[i as int] {
            ValueView::Text(s) => Ok(Some(s)),
            ValueView::Null => Ok(None),
            _ => Err(Malformation::WrongType(i)),
        }
    }
}

/// The whole number in column `i`.
pub open spec fn int_at(row: Seq<ValueView>, i: usize) -> Result<i64, Malformation> {
    if i >= row.len() {
        Err(Malformation::MissingColumn(i))
    } else {
        match row[i as int] {
            ValueView::Integer(n) => Ok(n),
            ValueView::Null => Err(Malformation::NullColumn(i)),
            _ => Err(Malformation::WrongType(i)),
        }
    }
}

/// The whole number in column `i`, or none where it is null.
pub open spec fn opt_int_at(row: Seq<ValueView>, i: usize) -> Result<Option<i64>, Malformation> {
    if i >= row.len() {
        Err(Malformation::MissingColumn(i))
    } else {
        match row[i as int] {
            ValueView::Integer(n) => Ok(Some(n)),
            ValueView::Null => Ok(None),
            _ => Err(Malformation::WrongType(i)),
        }
    }
}

/// The byte string in column `i`, or none where it is null.
pub open spec fn opt_blob_at(row: Seq<ValueView>, i: usize) -> Result<
    Option<Seq<u8>>,
    Malformation,
> {
    if i >= row.len() {
        Err(Malformation::MissingColumn(i))
    } else {
        match row[i as int] {
            ValueView::Blob(b) => Ok(Some(b)),
            ValueView::Null => Ok(None),
            _ => Err(Malformation::WrongType(i)),
        }
    }
}

/// The number `n` as a time in milliseconds: no less than zero and no more
/// than a `u64` holds.
pub open spec fn clamped(n: int) -> u64 {
    if n < 0 {
        0
    } else if n > u64::MAX {
        u64::MAX
    } else {
        n as u64
    }
}

/// The time in column `i`, in milliseconds: a real number as it stands, a
/// whole number as seconds.
pub open spec fn millis_at(row: Seq<ValueView>, i: usize) -> Result<u64, Malformation> {
    if i >= row.len() {
        Err(Malformation::MissingColumn(i))
    } else {
        match row[i as int] {
            ValueView::Real(r) => Ok(clamped(r as int)),
            ValueView::Integer(n) => Ok(clamped(n * 1000)),
            ValueView::Null => Err(Malformation::NullColumn(i)),
            _ => Err(Malformation::WrongType(i)),
        }
    }
}

/// A stored number as the number of a year or of a track: its low 32 bits.
pub open spec fn narrowed(n: Option<i64>) -> Option<i32> {
    match n {
        Some(n) => Some(n as i32),
        None => None,
    }
}

/// The artist in a row of identifier and name.
pub open spec fn artist_of_row(row: Seq<ValueView>) -> Result<ArtistView, Malformation> {
    match (text_at(row, 0), text_at(row, 1)) {
        (Ok(id), Ok(name)) => Ok(ArtistView { id, name }),
        (Err(e), _) => Err(e),
        (_, Err(e)) => Err(e),
    }
}

/// The album in a row of identifier, title, year and cover. The row does not
/// tell the album's artists.
pub open spec fn album_of_row(row: Seq<ValueView>) -> Result<AlbumView, Malformation> {
    match (text_at(row, 0), text_at(row, 1), opt_int_at(row, 2), opt_blob_at(row, 3)) {
        (Ok(id), Ok(title), Ok(year), Ok(art)) => Ok(
            AlbumView { id, title, artists: seq![], release_year: narrowed(year), album_art: art },
        ),
        (Err(e), _, _, _) => Err(e),
        (_, Err(e), _, _) => Err(e),
        (_, _, Err(e), _) => Err(e),
        (_, _, _, Err(e)) => Err(e),
    }
}

/// A track as its row holds it: the album by its identifier, and no artists.
#[derive(Debug, PartialEq)]
pub struct TrackRow {
    pub id: String,
    pub title: String,
    pub album_id: String,
    pub duration_ms: u64,
    pub path: Option<String>,
    pub source: TrackSource,
    pub source_id: Option<String>,
    pub track_number: Option<i32>,
}

/// Mathematical value of a [`TrackRow`].
pub struct TrackRowView {
    pub id: Seq<char>,
    pub title: Seq<char>,
    pub album_id: Seq<char>,
    pub duration_ms: u64,
    pub path: Option<Seq<char>>,
    pub source: TrackSource,
    pub source_id: Option<Seq<char>>,
    pub track_number: Option<i32>,
}

impl View for TrackRow {
    type V = TrackRowView;

    open spec fn view(&self) -> TrackRowView {
        TrackRowView {
            id: self.id@,
            title: self.title@,
            album_id: self.album_id@,
            duration_ms: self.duration_ms,
            path: crate::model::opt_text(self.path),
            source: self.source,
            source_id: crate::model::opt_text(self.source_id),
            track_number: self.track_number,
        }
    }
}

/// The track in a row of identifier, title, album, duration, path, source,
/// remote identifier and number. The columns are read in this order, and the
/// name of the source is looked up last, whatever the case of its letters.
pub open spec fn track_of_row(row: Seq<ValueView>) -> Result<TrackRowView, Malformation> {
    match (
        text_at(row, 0),
        text_at(row, 1),
        text_at(row, 2),
        millis_at(row, 3),
        opt_text_at(row, 4),
        text_at(row, 5),
        opt_text_at(row, 6),
        opt_int_at(row, 7),
    ) {
        (Ok(id), Ok(title), Ok(album_id), Ok(duration_ms), Ok(path), Ok(name), Ok(source_id), Ok(number)) => {
            match TrackSource::named(lowercase(name)) {
                Some(source) => Ok(
                    TrackRowView {
                        id,
                        title,
                        album_id,
                        duration_ms,
                        path,
                        source,
                        source_id,
                        track_number: narrowed(number),
                    },
                ),
                None => Err(Malformation::UnknownSource),
            }
        },
        (Err(e), _, _, _, _, _, _, _) => Err(e),
        (_, Err(e), _, _, _, _, _, _) => Err(e),
        (_, _, Err(e), _, _, _, _, _) => Err(e),
        (_, _, _, Err(e), _, _, _, _) => Err(e),
        (_, _, _, _, Err(e), _, _, _) => Err(e),
        (_, _, _, _, _, Err(e), _, _) => Err(e),
        (_, _, _, _, _, _, Err(e), _) => Err(e),
        (_, _, _, _, _, _, _, Err(e)) => Err(e),
    }
}

/// The playlist in a row of identifier, name and description. The row does
/// not tell the playlist's tracks.
pub open spec fn playlist_of_row(row: Seq<ValueView>) -> Result<PlaylistView, Malformation> {
    match (text_at(row, 0), text_at(row, 1), opt_text_at(row, 2)) {
        (Ok(id), Ok(name), Ok(description)) => Ok(
            PlaylistView { id, name, description, tracks: seq![] },
        ),
        (Err(e), _, _) => Err(e),
        (_, Err(e), _) => Err(e),
        (_, _, Err(e)) => Err(e),
    }
}

/// The position that the rows of a request for the next position tell: the
/// number in the first row, and 1 where there is no row or no number in it.
pub open spec fn position_of_rows(rows: Seq<Seq<ValueView>>) -> i64 {
    if rows.len() == 0 {
        1
    } else {
        match int_at(rows[0], 0) {
            Ok(n) => n,
            Err(_) => 1,
        }
    }
}

/// Value of a result that holds a record.
pub open spec fn viewed<T: View>(r: Result<T, Malformation>) -> Result<T::V, Malformation> {
    match r {
        Ok(v) => Ok(v@),
        Err(e) => Err(e),
    }
}

/// Value of a result that holds an optional text.
pub open spec fn viewed_opt_text(r: Result<Option<String>, Malformation>) -> Result<
    Option<Seq<char>>,
    Malformation,
> {
    match r {
        Ok(v) => Ok(opt_text(v)),
        Err(e) => Err(e),
    }
}

/// Value of a result that holds an optional byte string.
pub open spec fn viewed_opt_blob(r: Result<Option<Vec<u8>>, Malformation>) -> Result<
    Option<Seq<u8>>,
    Malformation,
> {
    match r {
        Ok(v) => Ok(opt_bytes(v)),
        Err(e) => Err(e),
    }
}

/// Reads the text in column `i`.
pub fn read_text(row: &Vec<Value>, i: usize) -> (r: Result<String, Malformation>)
    ensures
        viewed(r) == text_at(value_views(row@), i),
{
    if i >= row.len() {
        Err(Malformation::MissingColumn(i))
    } else {
        match &row[i] {
            Value::Text(s) => Ok(s.clone()),
            Value::Null => Err(Malformation::NullColumn(i)),
            _ => Err(Malformation::WrongType(i)),
        }
    }
}

/// Reads the text in column `i`, or none where it is null.
pub fn read_opt_text(row: &Vec<Value>, i: usize) -> (r: Result<Option<String>, Malformation>)
    ensures
        viewed_opt_text(r) == opt_text_at(value_views(row@), i),
{
    if i >= row.len() {
        Err(Malformation::MissingColumn(i))
    } else {
        match &row[i] {
            Value::Text(s) => Ok(Some(s.clone())),
            Value::Null => Ok(None),
            _ => Err(Malformation::WrongType(i)),
        }
    }
}

/// Reads the whole number in column `i`.
pub fn read_int(row: &Vec<Value>, i: usize) -> (r: Result<i64, Malformation>)
    ensures
        r == int_at(value_views(row@), i),
{
    if i >= row.len() {
        Err(Malformation::MissingColumn(i))
    } else {
        match &row[i] {
            Value::Integer(n) => Ok(*n),
            Value::Null => Err(Malformation::NullColumn(i)),
            _ => Err(Malformation::WrongType(i)),
        }
    }
}

/// Reads the whole number in column `i`, or none where it is null.
pub fn read_opt_int(row: &Vec<Value>, i: usize) -> (r: Result<Option<i64>, Malformation>)
    ensures
        r == opt_int_at(value_views(row@), i),
{
    if i >= row.len() {
        Err(Malformation::MissingColumn(i))
    } else {
        match &row[i] {
            Value::Integer(n) => Ok(Some(*n)),
            Value::Null => Ok(None),
            _ => Err(Malformation::WrongType(i)),
        }
    }
}

/// Reads the byte string in column `i`, or none where it is null.
pub fn read_opt_blob(row: &Vec<Value>, i: usize) -> (r: Result<Option<Vec<u8>>, Malformation>)
    ensures
        viewed_opt_blob(r) == opt_blob_at(value_views(row@), i),
{
    if i >= row.len() {
        Err(Malformation::MissingColumn(i))
    } else {
        match &row[i] {
            Value::Blob(b) => {
                let copy = b.clone();
                assert(copy@ =~= b@);
                Ok(Some(copy))
            },
            Value::Null => Ok(None),
            _ => Err(Malformation::WrongType(i)),
        }
    }
}

/// Reads the time in column `i`, in milliseconds.
pub fn read_millis(row: &Vec<Value>, i: usize) -> (r: Result<u64, Malformation>)
    ensures
        r == millis_at(value_views(row@), i),
{
    if i >= row.len() {
        Err(Malformation::MissingColumn(i))
    } else {
        match &row[i] {
            Value::Real(r) => {
                if *r < 0 {
                    Ok(0)
                } else {
                    Ok(*r as u64)
                }
            },
            Value::Integer(n) => {
                let scaled: i128 = (*n as i128) * 1000;
                if scaled < 0 {
                    Ok(0)
                } else if scaled > u64::MAX as i128 {
                    Ok(u64::MAX)
                } else {
                    Ok(scaled as u64)
                }
            },
            Value::Null => Err(Malformation::NullColumn(i)),
            _ => Err(Malformation::WrongType(i)),
        }
    }
}

/// Computes [`narrowed`].
pub fn narrow(n: Option<i64>) -> (r: Option<i32>)
    ensures
        r == narrowed(n),
{
    match n {
        Some(n) => Some(#[verifier::truncate] (n as i32)),
        None => None,
    }
}

/// Reads an artist from a row of identifier and name.
pub fn read_artist(row: &Vec<Value>) -> (r: Result<Artist, Malformation>)
    ensures
        viewed(r) == artist_of_row(value_views(row@)),
{
    let id = match read_text(row, 0) {
        Ok(v) => v,
        Err(e) => { return Err(e); },
    };
    let name = match read_text(row, 1) {
        Ok(v) => v,
        Err(e) => { return Err(e); },
    };
    Ok(Artist { id, name })
}

/// Reads an album, without its artists, from a row of identifier, title,
/// year and cover.
pub fn read_album(row: &Vec<Value>) -> (r: Result<Album, Malformation>)
    ensures
        viewed(r) == album_of_row(value_views(row@)),
{
    let id = match read_text(row, 0) {
        Ok(v) => v,
        Err(e) => { return Err(e); },
    };
    let title = match read_text(row, 1) {
        Ok(v) => v,
        Err(e) => { return Err(e); },
    };
    let year = match read_opt_int(row, 2) {
        Ok(v) => v,
        Err(e) => { return Err(e); },
    };
    let album_art = match read_opt_blob(row, 3) {
        Ok(v) => v,
        Err(e) => { return Err(e); },
    };
    let artists: Vec<Artist> = Vec::new();
    assert(crate::model::artist_views(artists@) =~= seq![]);
    Ok(Album { id, title, artists, release_year: narrow(year), album_art })
}

/// Reads a track, as its row holds it, from a row of identifier, title,
/// album, duration, path, source, remote identifier and number.
pub fn read_track(row: &Vec<Value>) -> (r: Result<TrackRow, Malformation>)
    ensures
        viewed(r) == track_of_row(value_views(row@)),
{
    let id = match read_text(row, 0) {
        Ok(v) => v,
        Err(e) => { return Err(e); },
    };
    let title = match read_text(row, 1) {
        Ok(v) => v,
        Err(e) => { return Err(e); },
    };
    let album_id = match read_text(row, 2) {
        Ok(v) => v,
        Err(e) => { return Err(e); },
    };
    let duration_ms = match read_millis(row, 3) {
        Ok(v) => v,
        Err(e) => { return Err(e); },
    };
    let path = match read_opt_text(row, 4) {
        Ok(v) => v,
        Err(e) => { return Err(e); },
    };
    let name = match read_text(row, 5) {
        Ok(v) => v,
        Err(e) => { return Err(e); },
    };
    let source_id = match read_opt_text(row, 6) {
        Ok(v) => v,
        Err(e) => { return Err(e); },
    };
    let number = match read_opt_int(row, 7) {
        Ok(v) => v,
        Err(e) => { return Err(e); },
    };
    match TrackSource::from_str(name.as_str()) {
        Some(source) => Ok(
            TrackRow {
                id,
                title,
                album_id,
                duration_ms,
                path,
                source,
                source_id,
                track_number: narrow(number),
            },
        ),
        None => Err(Malformation::UnknownSource),
    }
}

/// Reads a playlist, without its tracks, from a row of identifier, name and
/// description.
pub fn read_playlist(row: &Vec<Value>) -> (r: Result<Playlist, Malformation>)
    ensures
        viewed(r) == playlist_of_row(value_views(row@)),
{
    let id = match read_text(row, 0) {
        Ok(v) => v,
        Err(e) => { return Err(e); },
    };
    let name = match read_text(row, 1) {
        Ok(v) => v,
        Err(e) => { return Err(e); },
    };
    let description = match read_opt_text(row, 2) {
        Ok(v) => v,
        Err(e) => { return Err(e); },
    };
    let tracks: Vec<crate::model::Track> = Vec::new();
    assert(crate::model::track_views(tracks@) =~= seq![]);
    Ok(Playlist { id, name, description, tracks })
}

/// Reads the next position of a playlist from the rows of the request for
/// it.
pub fn read_position(rows: &Vec<Vec<Value>>) -> (r: i64)
    ensures
        r == position_of_rows(row_views(rows@)),
{
    if rows.len() == 0 {
        1
    } else {
        match read_int(&rows[0], 0) {
            Ok(n) => n,
            Err(_) => 1,
        }
    }
}

} // verus!
