//! Catalogue records: artists, albums, tracks and playlists.

use vstd::prelude::*;
use vstd::string::StringExecFns;
use crate::ident::{fresh_id, is_id};

verus! {

/// Where a track's audio comes from.
#[derive(Debug, PartialEq, Eq, Structural, Clone, Copy)]
pub enum TrackSource {
    Local,
    YouTube,
}

/// What `str::to_lowercase` makes of a text: its lower-case form by the
/// Unicode character database.
pub uninterp spec fn lowercase(s: Seq<char>) -> Seq<char>;

/// Calls `str::to_lowercase`. The mapping follows tables of the standard
/// library and depends on the text alone, so the result is only named.
#[verifier::external_body]
fn to_lowercase(s: &str) -> (r: String)
    ensures
        r@ == lowercase(s@),
{
    s.to_lowercase()
}

impl TrackSource {
    /// The name under which the source is stored.
    pub open spec fn name(self) -> Seq<char> {
        match self {
            TrackSource::Local => "local"@,
            TrackSource::YouTube => "youtube"@,
        }
    }

    /// The source that is stored under exactly the name `s`, if there is one.
    pub open spec fn named(s: Seq<char>) -> Option<TrackSource> {
        if s == "local"@ {
            Some(TrackSource::Local)
        } else if s == "youtube"@ {
            Some(TrackSource::YouTube)
        } else {
            None
        }
    }

    /// The name under which the source is stored.
    pub fn as_str(&self) -> (r: &'static str)
        ensures
            r@ == self.name(),
    {
        match self {
            TrackSource::Local => "local",
            TrackSource::YouTube => "youtube",
        }
    }

    /// The source with exactly the stored name `s`.
    pub fn from_name(s: &str) -> (r: Option<TrackSource>)
        ensures
            r == TrackSource::named(s@),
    {
        let text = String::from_str(s);
        if text == String::from_str("local") {
            Some(TrackSource::Local)
        } else if text == String::from_str("youtube") {
            Some(TrackSource::YouTube)
        } else {
            None
        }
    }

    /// The source named by `s`, whatever the case of its letters.
    pub fn from_str(s: &str) -> (r: Option<TrackSource>)
        ensures
            r == TrackSource::named(lowercase(s@)),
    {
        let lowered = to_lowercase(s);
        TrackSource::from_name(lowered.as_str())
    }
}

/// Every source is found again under its stored name.
pub proof fn lemma_name_round_trip(source: TrackSource)
    ensures
        TrackSource::named(source.name()) == Some(source),
{
    reveal_strlit("local");
    reveal_strlit("youtube");
    assert("local"@.len() != "youtube"@.len());
}

/// An artist, known by name.
#[derive(Debug, PartialEq)]
pub struct Artist {
    pub id: String,
    pub name: String,
}

/// Mathematical value of an [`Artist`].
pub struct ArtistView {
    pub id: Seq<char>,
    pub name: Seq<char>,
}

impl View for Artist {
    type V = ArtistView;

    open spec fn view(&self) -> ArtistView {
        ArtistView { id: self.id@, name: self.name@ }
    }
}

/// Values of a sequence of artists, in order.
pub open spec fn artist_views(s: Seq<Artist>) -> Seq<ArtistView> {
    s.map_values(|a: Artist| a@)
}

impl Clone for Artist {
    fn clone(&self) -> (r: Self)
        ensures
            r@ == self@,
    {
        Artist { id: self.id.clone(), name: self.name.clone() }
    }
}

impl Artist {
    /// A new artist under a fresh identifier.
    pub fn new(name: String) -> (r: Self)
        ensures
            r.name == name,
            is_id(r.id@),
    {
        Artist { id: fresh_id(), name }
    }

    /// The artist's name.
    pub fn to_string(&self) -> (r: String)
        ensures
            r@ == self.name@,
    {
        self.name.clone()
    }
}

/// Copies a list of artists.
pub fn clone_artists(v: &Vec<Artist>) -> (r: Vec<Artist>)
    ensures
        artist_views(r@) == artist_views(v@),
{
    let mut out: Vec<Artist> = Vec::new();
    let mut i: usize = 0;
    while i < v.len()
        invariant
            i <= v.len(),
            out@.len() == i,
            forall|j: int| 0 <= j < i ==> out@[j]@ == v@[j]@,
        decreases v.len() - i,
    {
        out.push(v[i].clone());
        i += 1;
    }
    assert(artist_views(out@) =~= artist_views(v@));
    out
}

/// Value of an optional text.
pub open spec fn opt_text(o: Option<String>) -> Option<Seq<char>> {
    match o {
        Some(s) => Some(s@),
        None => None,
    }
}

/// Value of an optional byte string.
pub open spec fn opt_bytes(o: Option<Vec<u8>>) -> Option<Seq<u8>> {
    match o {
        Some(b) => Some(b@),
        None => None,
    }
}

/// Copies an optional text.
pub fn clone_opt_text(o: &Option<String>) -> (r: Option<String>)
    ensures
        opt_text(r) == opt_text(*o),
{
    match o {
        Some(s) => Some(s.clone()),
        None => None,
    }
}

/// Copies an optional byte string.
pub fn clone_opt_bytes(o: &Option<Vec<u8>>) -> (r: Option<Vec<u8>>)
    ensures
        opt_bytes(r) == opt_bytes(*o),
{
    match o {
        Some(b) => {
            let c = b.clone();
            assert(c@ =~= b@);
            Some(c)
        },
        None => None,
    }
}

/// An album, known by title.
#[derive(Debug, PartialEq)]
pub struct Album {
    pub id: String,
    pub title: String,
    pub artists: Vec<Artist>,
    pub release_year: Option<i32>,
    /// Cover image, as the bytes of an image file.
    pub album_art: Option<Vec<u8>>,
}

/// Mathematical value of an [`Album`].
pub struct AlbumView {
    pub id: Seq<char>,
    pub title: Seq<char>,
    pub artists: Seq<ArtistView>,
    pub release_year: Option<i32>,
    pub album_art: Option<Seq<u8>>,
}

impl View for Album {
    type V = AlbumView;

    open spec fn view(&self) -> AlbumView {
        AlbumView {
            id: self.id@,
            title: self.title@,
            artists: artist_views(self.artists@),
            release_year: self.release_year,
            album_art: opt_bytes(self.album_art),
        }
    }
}

impl Clone for Album {
    fn clone(&self) -> (r: Self)
        ensures
            r@ == self@,
    {
        Album {
            id: self.id.clone(),
            title: self.title.clone(),
            artists: clone_artists(&self.artists),
            release_year: self.release_year,
            album_art: clone_opt_bytes(&self.album_art),
        }
    }
}

impl Album {
    /// A new album under a fresh identifier.
    pub fn new(
        title: String,
        artists: Vec<Artist>,
        release_year: Option<i32>,
        album_art: Option<Vec<u8>>,
    ) -> (r: Self)
        ensures
            r.title == title,
            r.artists == artists,
            r.release_year == release_year,
            r.album_art == album_art,
            is_id(r.id@),
    {
        Album { id: fresh_id(), title, artists, release_year, album_art }
    }

    /// The album's title.
    pub fn to_string(&self) -> (r: String)
        ensures
            r@ == self.title@,
    {
        self.title.clone()
    }
}

/// A playable unit of the catalogue.
#[derive(Debug, PartialEq)]
pub struct Track {
    pub id: String,
    pub title: String,
    pub artists: Vec<Artist>,
    pub album: Album,
    /// Playing time in milliseconds.
    pub duration_ms: u64,
    /// Location of the audio file, for a local track.
    pub path: Option<String>,
    pub source: TrackSource,
    /// Identifier at the remote catalogue, for a remote track.
    pub source_id: Option<String>,
    pub track_number: Option<i32>,
}

/// Mathematical value of a [`Track`].
pub struct TrackView {
    pub id: Seq<char>,
    pub title: Seq<char>,
    pub artists: Seq<ArtistView>,
    pub album: AlbumView,
    pub duration_ms: u64,
    pub path: Option<Seq<char>>,
    pub source: TrackSource,
    pub source_id: Option<Seq<char>>,
    pub track_number: Option<i32>,
}

impl TrackView {
    /// A track has exactly one origin: a local one has a path and no remote
    /// identifier, a remote one has a remote identifier and no path.
    pub open spec fn well_formed(self) -> bool {
        match self.source {
            TrackSource::Local => self.path.is_some() && self.source_id.is_none(),
            TrackSource::YouTube => self.source_id.is_some() && self.path.is_none(),
        }
    }
}

impl View for Track {
    type V = TrackView;

    open spec fn view(&self) -> TrackView {
        TrackView {
            id: self.id@,
            title: self.title@,
            artists: artist_views(self.artists@),
            album: self.album@,
            duration_ms: self.duration_ms,
            path: opt_text(self.path),
            source: self.source,
            source_id: opt_text(self.source_id),
            track_number: self.track_number,
        }
    }
}

/// Values of a sequence of tracks, in order.
pub open spec fn track_views(s: Seq<Track>) -> Seq<TrackView> {
    s.map_values(|t: Track| t@)
}

impl Clone for Track {
    fn clone(&self) -> (r: Self)
        ensures
            r@ == self@,
    {
        Track {
            id: self.id.clone(),
            title: self.title.clone(),
            artists: clone_artists(&self.artists),
            album: self.album.clone(),
            duration_ms: self.duration_ms,
            path: clone_opt_text(&self.path),
            source: self.source,
            source_id: clone_opt_text(&self.source_id),
            track_number: self.track_number,
        }
    }
}

/// Copies a list of tracks.
pub fn clone_tracks(v: &Vec<Track>) -> (r: Vec<Track>)
    ensures
        track_views(r@) == track_views(v@),
{
    let mut out: Vec<Track> = Vec::new();
    let mut i: usize = 0;
    while i < v.len()
        invariant
            i <= v.len(),
            out@.len() == i,
            forall|j: int| 0 <= j < i ==> out@[j]@ == v@[j]@,
        decreases v.len() - i,
    {
        out.push(v[i].clone());
        i += 1;
    }
    assert(track_views(out@) =~= track_views(v@));
    out
}

/// The texts of `parts` with `sep` between each two neighbours.
pub open spec fn joined(parts: Seq<Seq<char>>, sep: Seq<char>) -> Seq<char>
    decreases parts.len(),
{
    if parts.len() == 0 {
        Seq::empty()
    } else if parts.len() == 1 {
        parts[0]
    } else {
        joined(parts.drop_last(), sep) + sep + parts.last()
    }
}

/// Names of a sequence of artists, in order.
pub open spec fn artist_names(s: Seq<ArtistView>) -> Seq<Seq<char>> {
    s.map_values(|a: ArtistView| a.name)
}

impl Track {
    /// A new track that plays from a file, under a fresh identifier.
    pub fn new_local(
        title: String,
        artists: Vec<Artist>,
        album: Album,
        duration_ms: u64,
        path: String,
        track_number: Option<i32>,
    ) -> (r: Self)
        ensures
            r.title == title,
            r.artists == artists,
            r.album == album,
            r.duration_ms == duration_ms,
            r.path == Some(path),
            r.source == TrackSource::Local,
            r.source_id.is_none(),
            r.track_number == track_number,
            is_id(r.id@),
            r@.well_formed(),
    {
        Track {
            id: fresh_id(),
            title,
            artists,
            album,
            duration_ms,
            path: Some(path),
            source: TrackSource::Local,
            source_id: None,
            track_number,
        }
    }

    /// A new track that plays from the remote catalogue, under a fresh
    /// identifier.
    pub fn new_youtube(
        title: String,
        artists: Vec<Artist>,
        album: Album,
        duration_ms: u64,
        yt_id: String,
    ) -> (r: Self)
        ensures
            r.title == title,
            r.artists == artists,
            r.album == album,
            r.duration_ms == duration_ms,
            r.path.is_none(),
            r.source == TrackSource::YouTube,
            r.source_id == Some(yt_id),
            r.track_number.is_none(),
            is_id(r.id@),
            r@.well_formed(),
    {
        Track {
            id: fresh_id(),
            title,
            artists,
            album,
            duration_ms,
            path: None,
            source: TrackSource::YouTube,
            source_id: Some(yt_id),
            track_number: None,
        }
    }

    /// The artists' names, separated by a comma and a space.
    pub fn artists_string(&self) -> (r: String)
        ensures
            r@ == joined(artist_names(self@.artists), ", "@),
    {
        let ghost names = artist_names(self@.artists);
        let mut out = String::new();
        let mut i: usize = 0;
        while i < self.artists.len()
            invariant
                i <= self.artists.len(),
                names == artist_names(self@.artists),
                out@ == joined(names.take(i as int), ", "@),
            decreases self.artists.len() - i,
        {
            proof {
                assert(names.take(i + 1).drop_last() =~= names.take(i as int));
                assert(names.take(i + 1).last() == self.artists@[i as int].name@);
            }
            if i > 0 {
                out.append(", ");
            }
            out.append(self.artists[i].name.as_str());
            i += 1;
            proof {
                if i == 1 {
                    assert(out@ =~= names.take(1)[0]);
                }
            }
        }
        assert(names.take(i as int) =~= names);
        out
    }
}

/// A named, ordered selection of tracks.
#[derive(Debug, PartialEq)]
pub struct Playlist {
    pub id: String,
    pub name: String,
    pub description: Option<String>,
    pub tracks: Vec<Track>,
}

/// Mathematical value of a [`Playlist`].
pub struct PlaylistView {
    pub id: Seq<char>,
    pub name: Seq<char>,
    pub description: Option<Seq<char>>,
    pub tracks: Seq<TrackView>,
}

impl View for Playlist {
    type V = PlaylistView;

    open spec fn view(&self) -> PlaylistView {
        PlaylistView {
            id: self.id@,
            name: self.name@,
            description: opt_text(self.description),
            tracks: track_views(self.tracks@),
        }
    }
}

impl Clone for Playlist {
    fn clone(&self) -> (r: Self)
        ensures
            r@ == self@,
    {
        Playlist {
            id: self.id.clone(),
            name: self.name.clone(),
            description: clone_opt_text(&self.description),
            tracks: clone_tracks(&self.tracks),
        }
    }
}

impl Playlist {
    /// A new, empty playlist under a fresh identifier.
    pub fn new(name: String, description: Option<String>) -> (r: Self)
        ensures
            r.name == name,
            r.description == description,
            r.tracks@.len() == 0,
            is_id(r.id@),
    {
        Playlist { id: fresh_id(), name, description, tracks: Vec::new() }
    }
}

/// Title of the album of a track that names none.
pub const UNKNOWN_ALBUM: &'static str = "Unknown Album";

/// The texts of a sequence of strings, in order.
pub open spec fn texts(s: Seq<String>) -> Seq<Seq<char>> {
    s.map_values(|t: String| t@)
}

/// The title of an album that may be missing.
pub open spec fn album_title(album: Option<Seq<char>>) -> Seq<char> {
    match album {
        Some(t) => t,
        None => UNKNOWN_ALBUM@,
    }
}

/// Computes [`album_title`].
pub fn title_of_album(album: Option<String>) -> (r: String)
    ensures
        r@ == album_title(opt_text(album)),
{
    match album {
        Some(t) => t,
        None => String::from_str(UNKNOWN_ALBUM),
    }
}

/// The names of a sequence of artists, in order.
pub open spec fn names_of(artists: Seq<Artist>) -> Seq<Seq<char>> {
    artists.map_values(|a: Artist| a.name@)
}

/// Whether each of the artists has the shape of a new one.
pub open spec fn all_fresh(artists: Seq<Artist>) -> bool {
    forall|i: int| 0 <= i < artists.len() ==> is_id(#[trigger] artists[i].id@)
}

/// New artists of the given names, in order.
pub fn new_artists(names: &Vec<String>) -> (r: Vec<Artist>)
    ensures
        names_of(r@) == texts(names@),
        all_fresh(r@),
{
    let mut out: Vec<Artist> = Vec::new();
    let mut i: usize = 0;
    while i < names.len()
        invariant
            i <= names.len(),
            out@.len() == i,
            forall|j: int| 0 <= j < i ==> (#[trigger] out@[j]).name@ == names@[j]@,
            all_fresh(out@),
        decreases names.len() - i,
    {
        out.push(Artist::new(names[i].clone()));
        i += 1;
    }
    assert(names_of(out@) =~= texts(names@));
    out
}

/// The first of the artists, if there is one, as a list.
pub fn first_artist(artists: &Vec<Artist>) -> (r: Vec<Artist>)
    ensures
        artist_views(r@) == if artists@.len() > 0 {
            seq![artists@[0]@]
        } else {
            seq![]
        },
{
    let mut out: Vec<Artist> = Vec::new();
    if artists.len() > 0 {
        out.push(artists[0].clone());
        assert(artist_views(out@) =~= seq![artists@[0]@]);
    } else {
        assert(artist_views(out@) =~= seq![]);
    }
    out
}

} // verus!
