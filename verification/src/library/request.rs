//! Requests of the repository to the task that owns the database, and its
//! replies.

use vstd::prelude::*;
use vstd::string::StringExecFns;
use crate::library::value::{row_views, value_views, Value, ValueView};
use crate::model::{Album, AlbumView, Artist, ArtistView, Playlist, PlaylistView, Track, TrackView};

verus! {

/// Tables and indexes of the library, as one block of statements.
pub const SCHEMA: &'static str = "CREATE TABLE IF NOT EXISTS artists (id TEXT PRIMARY KEY, name TEXT NOT NULL); \
CREATE TABLE IF NOT EXISTS albums (id TEXT PRIMARY KEY, title TEXT NOT NULL, release_year INTEGER, album_art BLOB); \
CREATE TABLE IF NOT EXISTS tracks (id TEXT PRIMARY KEY, title TEXT NOT NULL, album_id TEXT NOT NULL, duration REAL NOT NULL, path TEXT, source TEXT NOT NULL, source_id TEXT, track_number INTEGER, FOREIGN KEY (album_id) REFERENCES albums(id) ON DELETE CASCADE); \
CREATE TABLE IF NOT EXISTS playlists (id TEXT PRIMARY KEY, name TEXT NOT NULL, description TEXT); \
CREATE TABLE IF NOT EXISTS album_artists (album_id TEXT NOT NULL, artist_id TEXT NOT NULL, PRIMARY KEY (album_id, artist_id), FOREIGN KEY (album_id) REFERENCES albums(id) ON DELETE CASCADE, FOREIGN KEY (artist_id) REFERENCES artists(id) ON DELETE CASCADE); \
CREATE TABLE IF NOT EXISTS track_artists (track_id TEXT NOT NULL, artist_id TEXT NOT NULL, PRIMARY KEY (track_id, artist_id), FOREIGN KEY (track_id) REFERENCES tracks(id) ON DELETE CASCADE, FOREIGN KEY (artist_id) REFERENCES artists(id) ON DELETE CASCADE); \
CREATE TABLE IF NOT EXISTS playlist_tracks (playlist_id TEXT NOT NULL, track_id TEXT NOT NULL, position INTEGER, added_at DATETIME DEFAULT CURRENT_TIMESTAMP, PRIMARY KEY (playlist_id, track_id), FOREIGN KEY (playlist_id) REFERENCES playlists(id) ON DELETE CASCADE, FOREIGN KEY (track_id) REFERENCES tracks(id) ON DELETE CASCADE); \
CREATE INDEX IF NOT EXISTS idx_tracks_album ON tracks(album_id); \
CREATE INDEX IF NOT EXISTS idx_tracks_source ON tracks(source); \
CREATE INDEX IF NOT EXISTS idx_playlist_tracks_position ON playlist_tracks(playlist_id, position); \
CREATE INDEX IF NOT EXISTS idx_album_artists_artist ON album_artists(artist_id); \
CREATE INDEX IF NOT EXISTS idx_track_artists_artist ON track_artists(artist_id);";

/// Statement of [`Op::InsertArtist`].
pub const INSERT_ARTIST: &'static str = "INSERT INTO artists (id, name) VALUES (?, ?)";
/// Statement of [`Op::FindArtistById`].
pub const FIND_ARTIST_BY_ID: &'static str = "SELECT id, name FROM artists WHERE id = ?";
/// Statement of [`Op::FindArtistByName`].
pub const FIND_ARTIST_BY_NAME: &'static str = "SELECT id, name FROM artists WHERE name = ?";
/// Statement of [`Op::AllArtists`].
pub const ALL_ARTISTS: &'static str = "SELECT id, name FROM artists ORDER BY name";
/// Statement of [`Op::SearchArtists`].
pub const SEARCH_ARTISTS: &'static str = "SELECT id, name FROM artists WHERE name LIKE ? ORDER BY name";
/// Statement of [`Op::InsertAlbum`].
pub const INSERT_ALBUM: &'static str = "INSERT INTO albums (id, title, release_year, album_art) VALUES (?, ?, ?, ?)";
/// Statement of [`Op::LinkAlbumArtist`].
pub const LINK_ALBUM_ARTIST: &'static str = "INSERT OR IGNORE INTO album_artists (album_id, artist_id) VALUES (?, ?)";
/// Statement of [`Op::FindAlbumById`].
pub const FIND_ALBUM_BY_ID: &'static str = "SELECT id, title, release_year, album_art FROM albums WHERE id = ?";
/// Statement of [`Op::FindAlbumByTitle`].
pub const FIND_ALBUM_BY_TITLE: &'static str = "SELECT id, title, release_year, album_art FROM albums WHERE title = ?";
/// Statement of [`Op::AllAlbums`].
pub const ALL_ALBUMS: &'static str = "SELECT id, title, release_year, album_art FROM albums ORDER BY title";
/// Statement of [`Op::SearchAlbums`].
pub const SEARCH_ALBUMS: &'static str = "SELECT id, title, release_year, album_art FROM albums WHERE title LIKE ? ORDER BY title";
/// Statement of [`Op::AlbumArtists`].
pub const ALBUM_ARTISTS: &'static str = "SELECT a.id, a.name FROM artists a INNER JOIN album_artists aa ON a.id = aa.artist_id WHERE aa.album_id = ?";
/// Statement of [`Op::InsertTrack`].
pub const INSERT_TRACK: &'static str = "INSERT INTO tracks (id, title, album_id, duration, path, source, source_id, track_number) VALUES (?, ?, ?, ?, ?, ?, ?, ?)";
/// Statement of [`Op::LinkTrackArtist`].
pub const LINK_TRACK_ARTIST: &'static str = "INSERT OR IGNORE INTO track_artists (track_id, artist_id) VALUES (?, ?)";
/// Statement of [`Op::FindTrackById`].
pub const FIND_TRACK_BY_ID: &'static str = "SELECT id, title, album_id, duration, path, source, source_id, track_number FROM tracks WHERE id = ?";
/// Statement of [`Op::FindTrackBySource`].
pub const FIND_TRACK_BY_SOURCE: &'static str = "SELECT id, title, album_id, duration, path, source, source_id, track_number FROM tracks WHERE source = ? AND source_id = ?";
/// Statement of [`Op::FindTracksBySource`].
pub const FIND_TRACKS_BY_SOURCE: &'static str = "SELECT id, title, album_id, duration, path, source, source_id, track_number FROM tracks WHERE source = ?";
/// Statement of [`Op::AllTracks`].
pub const ALL_TRACKS: &'static str = "SELECT id, title, album_id, duration, path, source, source_id, track_number FROM tracks ORDER BY title";
/// Statement of [`Op::UnorganizedTracks`].
pub const UNORGANIZED_TRACKS: &'static str = "SELECT t.id, t.title, t.album_id, t.duration, t.path, t.source, t.source_id, t.track_number FROM tracks t LEFT JOIN playlist_tracks pt ON t.id = pt.track_id WHERE pt.track_id IS NULL ORDER BY t.title";
/// Statement of [`Op::SearchTracks`].
pub const SEARCH_TRACKS: &'static str = "SELECT id, title, album_id, duration, path, source, source_id, track_number FROM tracks WHERE title LIKE ? ORDER BY title";
/// Statement of [`Op::TracksByAlbum`].
pub const TRACKS_BY_ALBUM: &'static str = "SELECT id, title, album_id, duration, path, source, source_id, track_number FROM tracks WHERE album_id = ? ORDER BY track_number, title";
/// Statement of [`Op::TracksByArtist`].
pub const TRACKS_BY_ARTIST: &'static str = "SELECT t.id, t.title, t.album_id, t.duration, t.path, t.source, t.source_id, t.track_number FROM tracks t INNER JOIN track_artists ta ON t.id = ta.track_id WHERE ta.artist_id = ? ORDER BY t.title";
/// Statement of [`Op::TrackArtists`].
pub const TRACK_ARTISTS: &'static str = "SELECT a.id, a.name FROM artists a INNER JOIN track_artists ta ON a.id = ta.artist_id WHERE ta.track_id = ?";
/// Statement of [`Op::DeleteTrack`].
pub const DELETE_TRACK: &'static str = "DELETE FROM tracks WHERE id = ?";
/// Statement of [`Op::InsertPlaylist`].
pub const INSERT_PLAYLIST: &'static str = "INSERT INTO playlists (id, name, description) VALUES (?, ?, ?)";
/// Statement of [`Op::FindPlaylistById`].
pub const FIND_PLAYLIST_BY_ID: &'static str = "SELECT id, name, description FROM playlists WHERE id = ?";
/// Statement of [`Op::AllPlaylists`].
pub const ALL_PLAYLISTS: &'static str = "SELECT id, name, description FROM playlists ORDER BY name";
/// Statement of [`Op::PlaylistTracks`].
pub const PLAYLIST_TRACKS: &'static str = "SELECT t.id, t.title, t.album_id, t.duration, t.path, t.source, t.source_id, t.track_number FROM tracks t INNER JOIN playlist_tracks pt ON t.id = pt.track_id WHERE pt.playlist_id = ? ORDER BY pt.position";
/// Statement of [`Op::NextPosition`].
pub const NEXT_POSITION: &'static str = "SELECT COALESCE(MAX(position), 0) + 1 FROM playlist_tracks WHERE playlist_id = ?";
/// Statement of [`Op::LinkPlaylistTrack`].
pub const LINK_PLAYLIST_TRACK: &'static str = "INSERT OR IGNORE INTO playlist_tracks (playlist_id, track_id, position) VALUES (?, ?, ?)";
/// Statement of [`Op::UnlinkPlaylistTrack`].
pub const UNLINK_PLAYLIST_TRACK: &'static str = "DELETE FROM playlist_tracks WHERE playlist_id = ? AND track_id = ?";
/// Statement of [`Op::DeletePlaylist`].
pub const DELETE_PLAYLIST: &'static str = "DELETE FROM playlists WHERE id = ?";
/// Statement of [`Op::UpdatePlaylist`].
pub const UPDATE_PLAYLIST: &'static str = "UPDATE playlists SET name = ?, description = ? WHERE id = ?";

/// What the repository can ask of the database. The values that a request
/// binds are listed with each kind, in their order.
#[derive(Debug, PartialEq, Eq, Structural, Clone, Copy)]
pub enum Op {
    /// Create the tables and indexes that are not there yet.
    CreateSchema,
    /// Make what was written durable.
    Flush,
    /// Store an artist: identifier, name.
    InsertArtist,
    /// The artist with an identifier.
    FindArtistById,
    /// The artists with a name.
    FindArtistByName,
    /// All artists, by name.
    AllArtists,
    /// The artists whose name matches a pattern, by name.
    SearchArtists,
    /// Store an album: identifier, title, year, cover.
    InsertAlbum,
    /// Name an artist of an album: album, artist.
    LinkAlbumArtist,
    /// The album with an identifier.
    FindAlbumById,
    /// The albums with a title.
    FindAlbumByTitle,
    /// All albums, by title.
    AllAlbums,
    /// The albums whose title matches a pattern, by title.
    SearchAlbums,
    /// The artists of an album.
    AlbumArtists,
    /// Store a track: identifier, title, album, duration, path, source, remote identifier, number.
    InsertTrack,
    /// Name an artist of a track: track, artist.
    LinkTrackArtist,
    /// The track with an identifier.
    FindTrackById,
    /// The tracks of a source with a remote identifier.
    FindTrackBySource,
    /// The tracks of a source.
    FindTracksBySource,
    /// All tracks, by title.
    AllTracks,
    /// The tracks that are in no playlist, by title.
    UnorganizedTracks,
    /// The tracks whose title matches a pattern, by title.
    SearchTracks,
    /// The tracks of an album, by number and title.
    TracksByAlbum,
    /// The tracks of an artist, by title.
    TracksByArtist,
    /// The artists of a track.
    TrackArtists,
    /// Remove the track with an identifier.
    DeleteTrack,
    /// Store a playlist: identifier, name, description.
    InsertPlaylist,
    /// The playlist with an identifier.
    FindPlaylistById,
    /// All playlists, by name.
    AllPlaylists,
    /// The tracks of a playlist, by position.
    PlaylistTracks,
    /// The position after the last one of a playlist.
    NextPosition,
    /// Put a track into a playlist: playlist, track, position.
    LinkPlaylistTrack,
    /// Take a track out of a playlist: playlist, track.
    UnlinkPlaylistTrack,
    /// Remove the playlist with an identifier.
    DeletePlaylist,
    /// Rename a playlist: name, description, identifier.
    UpdatePlaylist,
}

impl Op {
    /// Whether the request reads rows; the others write.
    pub open spec fn reads(self) -> bool {
        match self {
            Op::FindArtistById => true,
            Op::FindArtistByName => true,
            Op::AllArtists => true,
            Op::SearchArtists => true,
            Op::FindAlbumById => true,
            Op::FindAlbumByTitle => true,
            Op::AllAlbums => true,
            Op::SearchAlbums => true,
            Op::AlbumArtists => true,
            Op::FindTrackById => true,
            Op::FindTrackBySource => true,
            Op::FindTracksBySource => true,
            Op::AllTracks => true,
            Op::UnorganizedTracks => true,
            Op::SearchTracks => true,
            Op::TracksByAlbum => true,
            Op::TracksByArtist => true,
            Op::TrackArtists => true,
            Op::FindPlaylistById => true,
            Op::AllPlaylists => true,
            Op::PlaylistTracks => true,
            Op::NextPosition => true,
            _ => false,
        }
    }

    /// The statement of the request.
    pub open spec fn sql_text(self) -> Seq<char> {
        match self {
            Op::CreateSchema => SCHEMA@,
            Op::Flush => Seq::empty(),
            Op::InsertArtist => INSERT_ARTIST@,
            Op::FindArtistById => FIND_ARTIST_BY_ID@,
            Op::FindArtistByName => FIND_ARTIST_BY_NAME@,
            Op::AllArtists => ALL_ARTISTS@,
            Op::SearchArtists => SEARCH_ARTISTS@,
            Op::InsertAlbum => INSERT_ALBUM@,
            Op::LinkAlbumArtist => LINK_ALBUM_ARTIST@,
            Op::FindAlbumById => FIND_ALBUM_BY_ID@,
            Op::FindAlbumByTitle => FIND_ALBUM_BY_TITLE@,
            Op::AllAlbums => ALL_ALBUMS@,
            Op::SearchAlbums => SEARCH_ALBUMS@,
            Op::AlbumArtists => ALBUM_ARTISTS@,
            Op::InsertTrack => INSERT_TRACK@,
            Op::LinkTrackArtist => LINK_TRACK_ARTIST@,
            Op::FindTrackById => FIND_TRACK_BY_ID@,
            Op::FindTrackBySource => FIND_TRACK_BY_SOURCE@,
            Op::FindTracksBySource => FIND_TRACKS_BY_SOURCE@,
            Op::AllTracks => ALL_TRACKS@,
            Op::UnorganizedTracks => UNORGANIZED_TRACKS@,
            Op::SearchTracks => SEARCH_TRACKS@,
            Op::TracksByAlbum => TRACKS_BY_ALBUM@,
            Op::TracksByArtist => TRACKS_BY_ARTIST@,
            Op::TrackArtists => TRACK_ARTISTS@,
            Op::DeleteTrack => DELETE_TRACK@,
            Op::InsertPlaylist => INSERT_PLAYLIST@,
            Op::FindPlaylistById => FIND_PLAYLIST_BY_ID@,
            Op::AllPlaylists => ALL_PLAYLISTS@,
            Op::PlaylistTracks => PLAYLIST_TRACKS@,
            Op::NextPosition => NEXT_POSITION@,
            Op::LinkPlaylistTrack => LINK_PLAYLIST_TRACK@,
            Op::UnlinkPlaylistTrack => UNLINK_PLAYLIST_TRACK@,
            Op::DeletePlaylist => DELETE_PLAYLIST@,
            Op::UpdatePlaylist => UPDATE_PLAYLIST@,
        }
    }

    /// Whether the request reads rows.
    pub fn is_query(self) -> (r: bool)
        ensures
            r == self.reads(),
    {
        match self {
            Op::FindArtistById
            | Op::FindArtistByName
            | Op::AllArtists
            | Op::SearchArtists
            | Op::FindAlbumById
            | Op::FindAlbumByTitle
            | Op::AllAlbums
            | Op::SearchAlbums
            | Op::AlbumArtists
            | Op::FindTrackById
            | Op::FindTrackBySource
            | Op::FindTracksBySource
            | Op::AllTracks
            | Op::UnorganizedTracks
            | Op::SearchTracks
            | Op::TracksByAlbum
            | Op::TracksByArtist
            | Op::TrackArtists
            | Op::FindPlaylistById
            | Op::AllPlaylists
            | Op::PlaylistTracks
            | Op::NextPosition => true,
            _ => false,
        }
    }

    /// The statement of the request; none for [`Op::Flush`].
    pub fn sql(self) -> (r: &'static str)
        ensures
            r@ == self.sql_text(),
    {
        match self {
            Op::CreateSchema => SCHEMA,
            Op::Flush => {
                proof {
                    reveal_strlit("");
                }
                assert(""@ =~= Seq::<char>::empty());
                ""
            },
            Op::InsertArtist => INSERT_ARTIST,
            Op::FindArtistById => FIND_ARTIST_BY_ID,
            Op::FindArtistByName => FIND_ARTIST_BY_NAME,
            Op::AllArtists => ALL_ARTISTS,
            Op::SearchArtists => SEARCH_ARTISTS,
            Op::InsertAlbum => INSERT_ALBUM,
            Op::LinkAlbumArtist => LINK_ALBUM_ARTIST,
            Op::FindAlbumById => FIND_ALBUM_BY_ID,
            Op::FindAlbumByTitle => FIND_ALBUM_BY_TITLE,
            Op::AllAlbums => ALL_ALBUMS,
            Op::SearchAlbums => SEARCH_ALBUMS,
            Op::AlbumArtists => ALBUM_ARTISTS,
            Op::InsertTrack => INSERT_TRACK,
            Op::LinkTrackArtist => LINK_TRACK_ARTIST,
            Op::FindTrackById => FIND_TRACK_BY_ID,
            Op::FindTrackBySource => FIND_TRACK_BY_SOURCE,
            Op::FindTracksBySource => FIND_TRACKS_BY_SOURCE,
            Op::AllTracks => ALL_TRACKS,
            Op::UnorganizedTracks => UNORGANIZED_TRACKS,
            Op::SearchTracks => SEARCH_TRACKS,
            Op::TracksByAlbum => TRACKS_BY_ALBUM,
            Op::TracksByArtist => TRACKS_BY_ARTIST,
            Op::TrackArtists => TRACK_ARTISTS,
            Op::DeleteTrack => DELETE_TRACK,
            Op::InsertPlaylist => INSERT_PLAYLIST,
            Op::FindPlaylistById => FIND_PLAYLIST_BY_ID,
            Op::AllPlaylists => ALL_PLAYLISTS,
            Op::PlaylistTracks => PLAYLIST_TRACKS,
            Op::NextPosition => NEXT_POSITION,
            Op::LinkPlaylistTrack => LINK_PLAYLIST_TRACK,
            Op::UnlinkPlaylistTrack => UNLINK_PLAYLIST_TRACK,
            Op::DeletePlaylist => DELETE_PLAYLIST,
            Op::UpdatePlaylist => UPDATE_PLAYLIST,
        }
    }
}

/// A statement with the values bound to its placeholders, in order.
#[derive(Debug, PartialEq)]
pub struct Statement {
    pub sql: String,
    pub params: Vec<Value>,
}

/// Mathematical value of a [`Statement`].
pub struct StatementView {
    pub sql: Seq<char>,
    pub params: Seq<ValueView>,
}

impl View for Statement {
    type V = StatementView;

    open spec fn view(&self) -> StatementView {
        StatementView { sql: self.sql@, params: value_views(self.params@) }
    }
}

/// What goes through the inbox of the task that owns the database. The task
/// takes the commands one by one in the order in which they were sent, and
/// answers each with one [`Reply`].
#[derive(Debug, PartialEq)]
pub enum LibraryCommand {
    /// Run a block of statements.
    ExecuteBatch(String),
    /// Make what was written durable.
    Cacheflush,
    /// Run a statement that writes.
    Execute(Statement),
    /// Run a statement that reads rows.
    Query(Statement),
}

/// Mathematical value of a [`LibraryCommand`].
pub enum LibraryCommandView {
    ExecuteBatch(Seq<char>),
    Cacheflush,
    Execute(StatementView),
    Query(StatementView),
}

impl View for LibraryCommand {
    type V = LibraryCommandView;

    open spec fn view(&self) -> LibraryCommandView {
        match self {
            LibraryCommand::ExecuteBatch(s) => LibraryCommandView::ExecuteBatch(s@),
            LibraryCommand::Cacheflush => LibraryCommandView::Cacheflush,
            LibraryCommand::Execute(s) => LibraryCommandView::Execute(s@),
            LibraryCommand::Query(s) => LibraryCommandView::Query(s@),
        }
    }
}

/// The answer of the task that owns the database to one command.
#[derive(Debug, PartialEq)]
pub enum Reply {
    /// The command was carried out; for a command that reads no rows.
    Done,
    /// The rows that a query found, in its order.
    Rows(Vec<Vec<Value>>),
    /// The database refused the command, in its own words.
    Failed(String),
    /// The task is gone: the command was not taken, or not answered.
    Closed,
}

/// Mathematical value of a [`Reply`].
pub enum ReplyView {
    Done,
    Rows(Seq<Seq<ValueView>>),
    Failed(Seq<char>),
    Closed,
}

impl View for Reply {
    type V = ReplyView;

    open spec fn view(&self) -> ReplyView {
        match self {
            Reply::Done => ReplyView::Done,
            Reply::Rows(rows) => ReplyView::Rows(row_views(rows@)),
            Reply::Failed(s) => ReplyView::Failed(s@),
            Reply::Closed => ReplyView::Closed,
        }
    }
}

/// A request of the repository: what is asked, and the values it binds.
#[derive(Debug, PartialEq)]
pub struct Request {
    pub op: Op,
    pub args: Vec<Value>,
}

/// Mathematical value of a [`Request`].
pub struct RequestView {
    pub op: Op,
    pub args: Seq<ValueView>,
}

impl View for Request {
    type V = RequestView;

    open spec fn view(&self) -> RequestView {
        RequestView { op: self.op, args: value_views(self.args@) }
    }
}

/// The pattern that matches the texts in which `query` occurs.
pub open spec fn pattern_for(query: Seq<char>) -> Seq<char> {
    seq!['%'] + query + seq!['%']
}

impl RequestView {
    /// A request that binds nothing.
    pub open spec fn bare(op: Op) -> RequestView {
        RequestView { op, args: seq![] }
    }

    /// A request that binds one text.
    pub open spec fn by_text(op: Op, text: Seq<char>) -> RequestView {
        RequestView { op, args: seq![ValueView::Text(text)] }
    }

    /// A request that binds two texts.
    pub open spec fn by_texts(op: Op, first: Seq<char>, second: Seq<char>) -> RequestView {
        RequestView { op, args: seq![ValueView::Text(first), ValueView::Text(second)] }
    }

    /// A request for what matches the pattern of `query`.
    pub open spec fn search(op: Op, query: Seq<char>) -> RequestView {
        RequestView::by_text(op, pattern_for(query))
    }

    /// The artist's identifier and name.
    pub open spec fn insert_artist(artist: ArtistView) -> RequestView {
        RequestView::by_texts(Op::InsertArtist, artist.id, artist.name)
    }

    /// The album's own columns; its artists are named one by one.
    pub open spec fn insert_album(album: AlbumView) -> RequestView {
        RequestView {
            op: Op::InsertAlbum,
            args: seq![
                ValueView::Text(album.id),
                ValueView::Text(album.title),
                ValueView::of_opt_int(album.release_year),
                ValueView::of_opt_blob(album.album_art),
            ],
        }
    }

    /// The track's own columns, with the album under the identifier that it
    /// has in the library.
    pub open spec fn insert_track(track: TrackView, album_id: Seq<char>) -> RequestView {
        RequestView {
            op: Op::InsertTrack,
            args: seq![
                ValueView::Text(track.id),
                ValueView::Text(track.title),
                ValueView::Text(album_id),
                ValueView::of_millis(track.duration_ms),
                ValueView::of_opt_text(track.path),
                ValueView::Text(track.source.name()),
                ValueView::of_opt_text(track.source_id),
                ValueView::of_opt_int(track.track_number),
            ],
        }
    }

    /// The playlist's own columns; its tracks are put in one by one.
    pub open spec fn insert_playlist(playlist: PlaylistView) -> RequestView {
        RequestView {
            op: Op::InsertPlaylist,
            args: seq![
                ValueView::Text(playlist.id),
                ValueView::Text(playlist.name),
                ValueView::of_opt_text(playlist.description),
            ],
        }
    }

    /// The new name and description of the playlist with the identifier.
    pub open spec fn update_playlist(playlist: PlaylistView) -> RequestView {
        RequestView {
            op: Op::UpdatePlaylist,
            args: seq![
                ValueView::Text(playlist.name),
                ValueView::of_opt_text(playlist.description),
                ValueView::Text(playlist.id),
            ],
        }
    }

    /// A track at a position of a playlist.
    pub open spec fn link_playlist_track(
        playlist_id: Seq<char>,
        track_id: Seq<char>,
        position: i64,
    ) -> RequestView {
        RequestView {
            op: Op::LinkPlaylistTrack,
            args: seq![
                ValueView::Text(playlist_id),
                ValueView::Text(track_id),
                ValueView::Integer(position),
            ],
        }
    }

    /// The command that carries the request to the database.
    pub open spec fn command(self) -> LibraryCommandView {
        match self.op {
            Op::CreateSchema => LibraryCommandView::ExecuteBatch(self.op.sql_text()),
            Op::Flush => LibraryCommandView::Cacheflush,
            _ => {
                let statement = StatementView { sql: self.op.sql_text(), params: self.args };
                if self.op.reads() {
                    LibraryCommandView::Query(statement)
                } else {
                    LibraryCommandView::Execute(statement)
                }
            },
        }
    }
}

impl Request {
    /// A request that binds nothing.
    pub fn bare(op: Op) -> (r: Request)
        ensures
            r@ == RequestView::bare(op),
    {
        let args: Vec<Value> = Vec::new();
        assert(value_views(args@) =~= seq![]);
        Request { op, args }
    }

    /// A request that binds one text.
    pub fn by_text(op: Op, text: &str) -> (r: Request)
        ensures
            r@ == RequestView::by_text(op, text@),
    {
        let mut args: Vec<Value> = Vec::new();
        args.push(Value::Text(String::from_str(text)));
        assert(value_views(args@) =~= seq![ValueView::Text(text@)]);
        Request { op, args }
    }

    /// A request that binds two texts.
    pub fn by_texts(op: Op, first: &str, second: &str) -> (r: Request)
        ensures
            r@ == RequestView::by_texts(op, first@, second@),
    {
        let mut args: Vec<Value> = Vec::new();
        args.push(Value::Text(String::from_str(first)));
        args.push(Value::Text(String::from_str(second)));
        assert(value_views(args@) =~= seq![ValueView::Text(first@), ValueView::Text(second@)]);
        Request { op, args }
    }

    /// A request for what matches the pattern of `query`.
    pub fn search(op: Op, query: &str) -> (r: Request)
        ensures
            r@ == RequestView::search(op, query@),
    {
        proof {
            reveal_strlit("%");
        }
        let mut pattern = String::from_str("%");
        pattern.append(query);
        pattern.append("%");
        assert(pattern@ =~= pattern_for(query@));
        Request::by_text(op, pattern.as_str())
    }

    /// The request to store an artist.
    pub fn insert_artist(artist: &Artist) -> (r: Request)
        ensures
            r@ == RequestView::insert_artist(artist@),
    {
        Request::by_texts(Op::InsertArtist, artist.id.as_str(), artist.name.as_str())
    }

    /// The request to store an album, without its artists.
    pub fn insert_album(album: &Album) -> (r: Request)
        ensures
            r@ == RequestView::insert_album(album@),
    {
        let mut args: Vec<Value> = Vec::new();
        args.push(Value::text(&album.id));
        args.push(Value::text(&album.title));
        args.push(Value::opt_int(album.release_year));
        args.push(Value::opt_blob(&album.album_art));
        assert(value_views(args@) =~= RequestView::insert_album(album@).args);
        Request { op: Op::InsertAlbum, args }
    }

    /// The request to store a track under the album of an identifier.
    pub fn insert_track(track: &Track, album_id: &str) -> (r: Request)
        ensures
            r@ == RequestView::insert_track(track@, album_id@),
    {
        let mut args: Vec<Value> = Vec::new();
        args.push(Value::text(&track.id));
        args.push(Value::text(&track.title));
        args.push(Value::Text(String::from_str(album_id)));
        args.push(Value::millis(track.duration_ms));
        args.push(Value::opt_text(&track.path));
        args.push(Value::Text(String::from_str(track.source.as_str())));
        args.push(Value::opt_text(&track.source_id));
        args.push(Value::opt_int(track.track_number));
        assert(value_views(args@) =~= RequestView::insert_track(track@, album_id@).args);
        Request { op: Op::InsertTrack, args }
    }

    /// The request to store a playlist, without its tracks.
    pub fn insert_playlist(playlist: &Playlist) -> (r: Request)
        ensures
            r@ == RequestView::insert_playlist(playlist@),
    {
        let mut args: Vec<Value> = Vec::new();
        args.push(Value::text(&playlist.id));
        args.push(Value::text(&playlist.name));
        args.push(Value::opt_text(&playlist.description));
        assert(value_views(args@) =~= RequestView::insert_playlist(playlist@).args);
        Request { op: Op::InsertPlaylist, args }
    }

    /// The request to store the name and description of a playlist anew.
    pub fn update_playlist(playlist: &Playlist) -> (r: Request)
        ensures
            r@ == RequestView::update_playlist(playlist@),
    {
        let mut args: Vec<Value> = Vec::new();
        args.push(Value::text(&playlist.name));
        args.push(Value::opt_text(&playlist.description));
        args.push(Value::text(&playlist.id));
        assert(value_views(args@) =~= RequestView::update_playlist(playlist@).args);
        Request { op: Op::UpdatePlaylist, args }
    }

    /// The request to put a track at a position of a playlist.
    pub fn link_playlist_track(playlist_id: &str, track_id: &str, position: i64) -> (r: Request)
        ensures
            r@ == RequestView::link_playlist_track(playlist_id@, track_id@, position),
    {
        let mut args: Vec<Value> = Vec::new();
        args.push(Value::Text(String::from_str(playlist_id)));
        args.push(Value::Text(String::from_str(track_id)));
        args.push(Value::Integer(position));
        assert(value_views(args@) =~= RequestView::link_playlist_track(
            playlist_id@,
            track_id@,
            position,
        ).args);
        Request { op: Op::LinkPlaylistTrack, args }
    }

    /// The command that carries the request to the database.
    pub fn command(self) -> (r: LibraryCommand)
        ensures
            r@ == self@.command(),
    {
        match self.op {
            Op::CreateSchema => LibraryCommand::ExecuteBatch(String::from_str(self.op.sql())),
            Op::Flush => LibraryCommand::Cacheflush,
            _ => {
                let reads = self.op.is_query();
                let statement = Statement {
                    sql: String::from_str(self.op.sql()),
                    params: self.args,
                };
                if reads {
                    LibraryCommand::Query(statement)
                } else {
                    LibraryCommand::Execute(statement)
                }
            },
        }
    }
}

} // verus!
