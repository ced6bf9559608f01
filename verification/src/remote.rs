//! Tracks of the remote catalogue: what a search finds, what becomes of it
//! in the library, and how its audio is fetched in pieces.

use vstd::prelude::*;
use vstd::string::StringExecFns;
use crate::ident::{fresh_id, is_id};
use crate::model::{
    album_title, all_fresh, first_artist, joined, names_of, new_artists, opt_bytes, opt_text,
    texts, title_of_album, Album, ArtistView, Track, TrackSource, UNKNOWN_ALBUM,
};

verus! {

/// A find of a search in the remote catalogue.
#[derive(Debug, PartialEq)]
pub struct YtTrack {
    pub id: String,
    pub title: String,
    /// The artists' names, separated by a comma and a space.
    pub artist: String,
    pub album: String,
    pub album_art: Option<Vec<u8>>,
    /// Playing time in seconds.
    pub duration: u32,
}

/// Mathematical value of a [`YtTrack`].
pub struct YtTrackView {
    pub id: Seq<char>,
    pub title: Seq<char>,
    pub artist: Seq<char>,
    pub album: Seq<char>,
    pub album_art: Option<Seq<u8>>,
    pub duration: u32,
}

impl View for YtTrack {
    type V = YtTrackView;

    open spec fn view(&self) -> YtTrackView {
        YtTrackView {
            id: self.id@,
            title: self.title@,
            artist: self.artist@,
            album: self.album@,
            album_art: opt_bytes(self.album_art),
            duration: self.duration,
        }
    }
}

/// Joins texts with a comma and a space between each two neighbours.
pub fn join_names(names: &Vec<String>) -> (r: String)
    ensures
        r@ == joined(texts(names@), ", "@),
{
    let ghost all = texts(names@);
    let mut out = String::new();
    let mut i: usize = 0;
    while i < names.len()
        invariant
            i <= names.len(),
            all == texts(names@),
            out@ == joined(all.take(i as int), ", "@),
        decreases names.len() - i,
    {
        proof {
            assert(all.take(i + 1).drop_last() =~= all.take(i as int));
            assert(all.take(i + 1).last() == names@[i as int]@);
        }
        if i > 0 {
            out.append(", ");
        }
        out.append(names[i].as_str());
        i += 1;
        proof {
            if i == 1 {
                assert(out@ =~= all.take(1)[0]);
            }
        }
    }
    assert(all.take(i as int) =~= all);
    out
}

impl YtTrack {
    /// The find that the catalogue's entry comes to: the artists' names in
    /// one line, and a name for the album where the entry has none.
    pub fn from_entry(
        id: String,
        title: String,
        artists: &Vec<String>,
        album: Option<String>,
        album_art: Option<Vec<u8>>,
        duration: u32,
    ) -> (r: YtTrack)
        ensures
            r@ == (YtTrackView {
                id: id@,
                title: title@,
                artist: joined(texts(artists@), ", "@),
                album: album_title(opt_text(album)),
                album_art: opt_bytes(album_art),
                duration,
            }),
    {
        YtTrack {
            id,
            title,
            artist: join_names(artists),
            album: title_of_album(album),
            album_art,
            duration,
        }
    }
}

/// Whether `i` is the place of the widest cover: no cover is wider, and of
/// covers of that width it is the last.
pub open spec fn is_widest(widths: Seq<u32>, i: int) -> bool {
    &&& 0 <= i < widths.len()
    &&& forall|j: int| 0 <= j < widths.len() ==> widths[j] <= widths[i]
    &&& forall|j: int| i < j < widths.len() ==> widths[j] < widths[i]
}

/// The place of the cover to fetch among covers of these widths: the widest
/// one, and the last of the widest ones; none where there is no cover.
pub fn widest_cover(widths: &Vec<u32>) -> (r: Option<usize>)
    ensures
        match r {
            Some(i) => is_widest(widths@, i as int),
            None => widths@.len() == 0,
        },
{
    if widths.len() == 0 {
        return None;
    }
    let mut best: usize = 0;
    let mut i: usize = 1;
    while i < widths.len()
        invariant
            1 <= i <= widths.len(),
            0 <= best < i,
            forall|j: int| 0 <= j < i ==> widths@[j] <= widths@[best as int],
            forall|j: int| best < j < i ==> widths@[j] < widths@[best as int],
        decreases widths.len() - i,
    {
        if widths[i] >= widths[best] {
            best = i;
        }
        i += 1;
    }
    Some(best)
}

/// Playing time in milliseconds of a time in seconds that may be missing.
pub open spec fn millis_of(seconds: Option<u32>) -> u64 {
    match seconds {
        Some(s) => (s * 1000) as u64,
        None => 0,
    }
}

/// Whether `r` is the track that an entry of the remote catalogue comes to.
/// The track and its artists are new; the album is new too and has the
/// track's first artist. An entry without an album belongs to the unknown
/// album, which has no cover.
pub open spec fn is_track_of_entry(
    r: Track,
    remote_id: String,
    name: String,
    artists: Seq<String>,
    album: Option<String>,
    cover: Option<Vec<u8>>,
    seconds: Option<u32>,
) -> bool {
    &&& is_id(r.id@)
    &&& r.title == name
    &&& names_of(r.artists@) == texts(artists)
    &&& all_fresh(r.artists@)
    &&& is_id(r.album.id@)
    &&& r.album.title@ == album_title(opt_text(album))
    &&& r.album@.artists == if r.artists@.len() > 0 {
        seq![r.artists@[0]@]
    } else {
        Seq::<ArtistView>::empty()
    }
    &&& r.album.release_year.is_none()
    &&& opt_bytes(r.album.album_art) == if album is Some {
        opt_bytes(cover)
    } else {
        None
    }
    &&& r.duration_ms == millis_of(seconds)
    &&& r.path.is_none()
    &&& r.source == TrackSource::YouTube
    &&& r.source_id == Some(remote_id)
    &&& r.track_number.is_none()
    &&& r@.well_formed()
}

/// Makes the track that an entry of the remote catalogue comes to.
pub fn track_from_entry(
    remote_id: String,
    name: String,
    artists: &Vec<String>,
    album: Option<String>,
    cover: Option<Vec<u8>>,
    seconds: Option<u32>,
) -> (r: Track)
    ensures
        is_track_of_entry(r, remote_id, name, artists@, album, cover, seconds),
{
    let artists = new_artists(artists);
    let album = match album {
        Some(title) => Album::new(title, first_artist(&artists), None, cover),
        None => Album::new(String::from_str(UNKNOWN_ALBUM), first_artist(&artists), None, None),
    };
    let duration_ms: u64 = match seconds {
        Some(s) => (s as u64) * 1000,
        None => 0,
    };
    Track {
        id: fresh_id(),
        title: name,
        artists,
        album,
        duration_ms,
        path: None,
        source: TrackSource::YouTube,
        source_id: Some(remote_id),
        track_number: None,
    }
}

/// Why the audio of a track cannot be asked for.
#[derive(Debug, PartialEq, Eq, Structural, Clone, Copy)]
pub enum LoadError {
    /// A local track without a path.
    MissingPath,
    /// A remote track without a remote identifier.
    MissingSourceId,
    /// A local track where a remote one is due.
    NotRemote,
}

/// Where the audio of a track is to be had.
#[derive(Debug, PartialEq)]
pub enum Origin {
    /// In the file at this path.
    File(String),
    /// At the remote catalogue under this identifier; the audio is kept in a
    /// file of the cache once it was fetched.
    Remote(String),
}

/// Mathematical value of an [`Origin`].
pub enum OriginView {
    File(Seq<char>),
    Remote(Seq<char>),
}

impl View for Origin {
    type V = OriginView;

    open spec fn view(&self) -> OriginView {
        match self {
            Origin::File(p) => OriginView::File(p@),
            Origin::Remote(i) => OriginView::Remote(i@),
        }
    }
}

/// Where the audio of a track is to be had, by its source.
pub open spec fn origin_of(track: crate::model::TrackView) -> Result<OriginView, LoadError> {
    match track.source {
        TrackSource::Local => match track.path {
            Some(p) => Ok(OriginView::File(p)),
            None => Err(LoadError::MissingPath),
        },
        TrackSource::YouTube => match track.source_id {
            Some(i) => Ok(OriginView::Remote(i)),
            None => Err(LoadError::MissingSourceId),
        },
    }
}

/// The remote identifier under which a track's audio is fetched.
pub open spec fn remote_id_of(track: crate::model::TrackView) -> Result<Seq<char>, LoadError> {
    if track.source != TrackSource::YouTube {
        Err(LoadError::NotRemote)
    } else {
        match track.source_id {
            Some(i) => Ok(i),
            None => Err(LoadError::MissingSourceId),
        }
    }
}

/// Value of a result that holds an origin.
pub open spec fn viewed_origin(r: Result<Origin, LoadError>) -> Result<OriginView, LoadError> {
    match r {
        Ok(o) => Ok(o@),
        Err(e) => Err(e),
    }
}

/// Value of a result that holds a text.
pub open spec fn viewed_text(r: Result<String, LoadError>) -> Result<Seq<char>, LoadError> {
    match r {
        Ok(s) => Ok(s@),
        Err(e) => Err(e),
    }
}

/// Tells where the audio of a track is to be had.
pub fn origin(track: &Track) -> (r: Result<Origin, LoadError>)
    ensures
        viewed_origin(r) == origin_of(track@),
        track@.well_formed() ==> r is Ok,
{
    match track.source {
        TrackSource::Local => match &track.path {
            Some(p) => Ok(Origin::File(p.clone())),
            None => Err(LoadError::MissingPath),
        },
        TrackSource::YouTube => match &track.source_id {
            Some(i) => Ok(Origin::Remote(i.clone())),
            None => Err(LoadError::MissingSourceId),
        },
    }
}

/// Tells the remote identifier under which a track's audio is fetched.
pub fn remote_id(track: &Track) -> (r: Result<String, LoadError>)
    ensures
        viewed_text(r) == remote_id_of(track@),
{
    match track.source {
        TrackSource::Local => Err(LoadError::NotRemote),
        TrackSource::YouTube => match &track.source_id {
            Some(i) => Ok(i.clone()),
            None => Err(LoadError::MissingSourceId),
        },
    }
}

/// Name of the file in which the audio of a remote track is kept.
pub fn cache_file_name(remote_id: &str) -> (r: String)
    ensures
        r@ == remote_id@ + ".m4a"@,
{
    let mut name = String::from_str(remote_id);
    name.append(".m4a");
    name
}

/// Bytes of one piece of a download.
pub const CHUNK_SIZE: u64 = 262144;

/// Pieces of a download that are fetched at the same time, at most.
pub const PERMITS: usize = 8;

/// In how many pieces audio of `total` bytes is fetched.
pub open spec fn pieces(total: u64) -> nat {
    ((total + CHUNK_SIZE - 1) / CHUNK_SIZE as int) as nat
}

/// Where piece `index` begins.
pub open spec fn piece_start(index: nat) -> int {
    index * CHUNK_SIZE
}

/// Where piece `index` ends: one past its last byte.
pub open spec fn piece_end(total: u64, index: nat) -> int {
    if (index + 1) * CHUNK_SIZE < total {
        (index + 1) * CHUNK_SIZE
    } else {
        total as int
    }
}

/// Computes [`pieces`].
pub fn chunk_count(total: u64) -> (r: u64)
    ensures
        r == pieces(total),
{
    let whole = total / CHUNK_SIZE;
    if total % CHUNK_SIZE == 0 {
        whole
    } else {
        whole + 1
    }
}

/// The bytes of piece `index` of audio of `total` bytes: where it begins and
/// one past where it ends; none where there is no such piece.
pub fn chunk_at(total: u64, index: u64) -> (r: Option<(u64, u64)>)
    ensures
        match r {
            Some((start, end)) => index < pieces(total) && start == piece_start(index as nat) && end
                == piece_end(total, index as nat),
            None => index >= pieces(total),
        },
{
    if index >= chunk_count(total) {
        return None;
    }
    assert(index * CHUNK_SIZE < total) by (nonlinear_arith)
        requires
            index < pieces(total),
            CHUNK_SIZE == 262144,
    ;
    let start = index * CHUNK_SIZE;
    let end = if total - start > CHUNK_SIZE {
        start + CHUNK_SIZE
    } else {
        total
    };
    assert((index + 1) * CHUNK_SIZE == index * CHUNK_SIZE + CHUNK_SIZE) by (nonlinear_arith);
    Some((start, end))
}

/// The pieces of a download lie end to end from the first byte to the last:
/// each is at least one byte and at most [`CHUNK_SIZE`] bytes long and begins
/// where the one before it ends, the first at byte 0, and the last ends with
/// the audio.
pub proof fn law_pieces_tile(total: u64, index: nat)
    requires
        index < pieces(total),
    ensures
        piece_start(0) == 0,
        piece_start(index) < piece_end(total, index) <= total,
        piece_end(total, index) - piece_start(index) <= CHUNK_SIZE,
        index + 1 < pieces(total) ==> piece_end(total, index) == piece_start(index + 1),
        index + 1 == pieces(total) ==> piece_end(total, index) == total,
{
    assert(index * CHUNK_SIZE < total) by (nonlinear_arith)
        requires
            index < pieces(total),
            CHUNK_SIZE == 262144,
    ;
    assert((index + 1) * CHUNK_SIZE == index * CHUNK_SIZE + CHUNK_SIZE) by (nonlinear_arith);
    if index + 1 < pieces(total) {
        assert((index + 1) * CHUNK_SIZE < total) by (nonlinear_arith)
            requires
                index + 1 < pieces(total),
                CHUNK_SIZE == 262144,
        ;
    }
    if index + 1 == pieces(total) {
        assert((index + 1) * CHUNK_SIZE >= total) by (nonlinear_arith)
            requires
                index + 1 == pieces(total),
                CHUNK_SIZE == 262144,
        ;
    }
}

/// The digit that stands for a number below ten.
pub open spec fn digit_char(d: u8) -> char {
    match d {
        0 => '0',
        1 => '1',
        2 => '2',
        3 => '3',
        4 => '4',
        5 => '5',
        6 => '6',
        7 => '7',
        8 => '8',
        _ => '9',
    }
}

/// A number in decimal digits, without leading zeros.
pub open spec fn decimal(n: nat) -> Seq<char>
    decreases n,
{
    if n < 10 {
        seq![digit_char(n as u8)]
    } else {
        decimal(n / 10).push(digit_char((n % 10) as u8))
    }
}

/// The digit that stands for a number below ten, as a text.
fn digit_str(d: u64) -> (r: &'static str)
    requires
        d < 10,
    ensures
        r@ == seq![digit_char(d as u8)],
{
    match d {
        0 => {
            proof {
                reveal_strlit("0");
            }
            assert("0"@ =~= seq!['0']);
            "0"
        },
        1 => {
            proof {
                reveal_strlit("1");
            }
            assert("1"@ =~= seq!['1']);
            "1"
        },
        2 => {
            proof {
                reveal_strlit("2");
            }
            assert("2"@ =~= seq!['2']);
            "2"
        },
        3 => {
            proof {
                reveal_strlit("3");
            }
            assert("3"@ =~= seq!['3']);
            "3"
        },
        4 => {
            proof {
                reveal_strlit("4");
            }
            assert("4"@ =~= seq!['4']);
            "4"
        },
        5 => {
            proof {
                reveal_strlit("5");
            }
            assert("5"@ =~= seq!['5']);
            "5"
        },
        6 => {
            proof {
                reveal_strlit("6");
            }
            assert("6"@ =~= seq!['6']);
            "6"
        },
        7 => {
            proof {
                reveal_strlit("7");
            }
            assert("7"@ =~= seq!['7']);
            "7"
        },
        8 => {
            proof {
                reveal_strlit("8");
            }
            assert("8"@ =~= seq!['8']);
            "8"
        },
        _ => {
            proof {
                reveal_strlit("9");
            }
            assert("9"@ =~= seq!['9']);
            "9"
        },
    }
}

/// Writes a number in decimal digits.
pub fn decimal_string(n: u64) -> (r: String)
    ensures
        r@ == decimal(n as nat),
    decreases n,
{
    if n < 10 {
        String::from_str(digit_str(n))
    } else {
        let mut text = decimal_string(n / 10);
        text.append(digit_str(n % 10));
        assert(text@ =~= decimal((n / 10) as nat).push(digit_char((n % 10) as u8)));
        text
    }
}

/// The range of bytes from `first` to `last`, both included, as a request
/// for a part of a file names it.
pub open spec fn range_of(first: nat, last: nat) -> Seq<char> {
    "bytes="@ + decimal(first) + "-"@ + decimal(last)
}

/// The range to ask for to get piece `index` of audio of `total` bytes; none
/// where there is no such piece.
pub fn chunk_header(total: u64, index: u64) -> (r: Option<String>)
    ensures
        match r {
            Some(h) => index < pieces(total) && h@ == range_of(
                piece_start(index as nat) as nat,
                (piece_end(total, index as nat) - 1) as nat,
            ),
            None => index >= pieces(total),
        },
{
    match chunk_at(total, index) {
        Some((start, end)) => {
            proof {
                law_pieces_tile(total, index as nat);
            }
            let mut header = String::from_str("bytes=");
            header.append(decimal_string(start).as_str());
            header.append("-");
            header.append(decimal_string(end - 1).as_str());
            Some(header)
        },
        None => None,
    }
}

} // verus!
