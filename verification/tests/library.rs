use vibrance::library::albums::{AddAlbum, FetchAlbums};
use vibrance::library::artists::{AddArtist, FetchArtists};
use vibrance::library::playlists::{AddToPlaylist, FetchPlaylists};
use vibrance::library::protocol::{expect_done, expect_rows, into_first, Step, Write};
use vibrance::library::repository::Library;
use vibrance::library::request::{
    LibraryCommand, Op, Reply, Request, Statement, ALBUM_ARTISTS, ALL_ALBUMS, ALL_ARTISTS,
    ALL_PLAYLISTS, ALL_TRACKS, DELETE_PLAYLIST, DELETE_TRACK, FIND_ALBUM_BY_ID,
    FIND_ALBUM_BY_TITLE, FIND_ARTIST_BY_ID, FIND_ARTIST_BY_NAME, FIND_PLAYLIST_BY_ID,
    FIND_TRACKS_BY_SOURCE, FIND_TRACK_BY_ID, FIND_TRACK_BY_SOURCE, INSERT_ALBUM, INSERT_ARTIST,
    INSERT_PLAYLIST, INSERT_TRACK, LINK_ALBUM_ARTIST, LINK_PLAYLIST_TRACK, LINK_TRACK_ARTIST,
    NEXT_POSITION, PLAYLIST_TRACKS, SCHEMA, SEARCH_ALBUMS, SEARCH_ARTISTS, SEARCH_TRACKS,
    TRACKS_BY_ALBUM, TRACKS_BY_ARTIST, TRACK_ARTISTS, UNLINK_PLAYLIST_TRACK, UNORGANIZED_TRACKS,
    UPDATE_PLAYLIST,
};
use vibrance::library::rows::{
    narrow, read_album, read_artist, read_millis, read_playlist, read_position, read_track,
};
use vibrance::library::tracks::{AddTrack, AddTracks, FetchTracks, LibraryEvent};
use vibrance::library::value::{LibraryError, Malformation, Value};
use vibrance::model::{Album, Artist, Playlist, Track, TrackSource};

/// A database in memory that does what the statements of the library say.
struct FakeDb {
    artists: Vec<Vec<Value>>,
    albums: Vec<Vec<Value>>,
    tracks: Vec<Vec<Value>>,
    playlists: Vec<Vec<Value>>,
    album_artists: Vec<Vec<Value>>,
    track_artists: Vec<Vec<Value>>,
    playlist_tracks: Vec<Vec<Value>>,
    /// The statements that were run, in order.
    log: Vec<String>,
    /// How many commands are still served before the database refuses all.
    budget: Option<usize>,
    flushed: usize,
}

fn text(v: &Value) -> String {
    match v {
        Value::Text(s) => s.clone(),
        other => panic!("not a text: {:?}", other),
    }
}

fn copy(v: &Value) -> Value {
    match v {
        Value::Null => Value::Null,
        Value::Integer(i) => Value::Integer(*i),
        Value::Real(r) => Value::Real(*r),
        Value::Text(s) => Value::Text(s.clone()),
        Value::Blob(b) => Value::Blob(b.clone()),
    }
}

fn copy_row(row: &Vec<Value>) -> Vec<Value> {
    row.iter().map(copy).collect()
}

fn select(table: &Vec<Vec<Value>>, column: usize, value: &Value) -> Vec<Vec<Value>> {
    table.iter().filter(|r| &r[column] == value).map(copy_row).collect()
}

fn sorted_by(mut rows: Vec<Vec<Value>>, column: usize) -> Vec<Vec<Value>> {
    rows.sort_by_key(|r| text(&r[column]));
    rows
}

fn like(table: &Vec<Vec<Value>>, column: usize, pattern: &Value) -> Vec<Vec<Value>> {
    let pattern = text(pattern);
    let inner = pattern.trim_matches('%').to_lowercase();
    assert_eq!(pattern, format!("%{}%", pattern.trim_matches('%')));
    table
        .iter()
        .filter(|r| text(&r[column]).to_lowercase().contains(&inner))
        .map(copy_row)
        .collect()
}

impl FakeDb {
    fn new() -> FakeDb {
        FakeDb {
            artists: vec![],
            albums: vec![],
            tracks: vec![],
            playlists: vec![],
            album_artists: vec![],
            track_artists: vec![],
            playlist_tracks: vec![],
            log: vec![],
            budget: None,
            flushed: 0,
        }
    }

    fn insert(table: &mut Vec<Vec<Value>>, name: &str, row: Vec<Value>) -> Reply {
        if table.iter().any(|r| r[0] == row[0]) {
            Reply::Failed(format!("UNIQUE constraint failed: {name}.id"))
        } else {
            table.push(row);
            Reply::Done
        }
    }

    fn link(table: &mut Vec<Vec<Value>>, row: Vec<Value>) -> Reply {
        if !table.iter().any(|r| r[0] == row[0] && r[1] == row[1]) {
            table.push(row);
        }
        Reply::Done
    }

    fn joined(
        table: &Vec<Vec<Value>>,
        links: &Vec<Vec<Value>>,
        mine: usize,
        theirs: usize,
        value: &Value,
    ) -> Vec<Vec<Value>> {
        table
            .iter()
            .filter(|r| links.iter().any(|l| &l[mine] == value && l[theirs] == r[0]))
            .map(copy_row)
            .collect()
    }

    fn serve(&mut self, command: LibraryCommand) -> Reply {
        if let Some(left) = self.budget {
            if left == 0 {
                return Reply::Failed("disk I/O error".to_string());
            }
            self.budget = Some(left - 1);
        }
        match command {
            LibraryCommand::ExecuteBatch(sql) => {
                self.log.push(sql);
                Reply::Done
            }
            LibraryCommand::Cacheflush => {
                self.flushed += 1;
                Reply::Done
            }
            LibraryCommand::Execute(Statement { sql, params }) => {
                self.log.push(sql.clone());
                self.execute(&sql, params)
            }
            LibraryCommand::Query(Statement { sql, params }) => {
                self.log.push(sql.clone());
                Reply::Rows(self.query(&sql, params))
            }
        }
    }

    fn execute(&mut self, sql: &str, p: Vec<Value>) -> Reply {
        if sql == INSERT_ARTIST {
            Self::insert(&mut self.artists, "artists", p)
        } else if sql == INSERT_ALBUM {
            Self::insert(&mut self.albums, "albums", p)
        } else if sql == INSERT_TRACK {
            Self::insert(&mut self.tracks, "tracks", p)
        } else if sql == INSERT_PLAYLIST {
            Self::insert(&mut self.playlists, "playlists", p)
        } else if sql == LINK_ALBUM_ARTIST {
            Self::link(&mut self.album_artists, p)
        } else if sql == LINK_TRACK_ARTIST {
            Self::link(&mut self.track_artists, p)
        } else if sql == LINK_PLAYLIST_TRACK {
            Self::link(&mut self.playlist_tracks, p)
        } else if sql == UNLINK_PLAYLIST_TRACK {
            self.playlist_tracks.retain(|r| !(r[0] == p[0] && r[1] == p[1]));
            Reply::Done
        } else if sql == DELETE_TRACK {
            self.tracks.retain(|r| r[0] != p[0]);
            self.track_artists.retain(|r| r[0] != p[0]);
            self.playlist_tracks.retain(|r| r[1] != p[0]);
            Reply::Done
        } else if sql == DELETE_PLAYLIST {
            self.playlists.retain(|r| r[0] != p[0]);
            self.playlist_tracks.retain(|r| r[0] != p[0]);
            Reply::Done
        } else if sql == UPDATE_PLAYLIST {
            for r in self.playlists.iter_mut() {
                if r[0] == p[2] {
                    r[1] = copy(&p[0]);
                    r[2] = copy(&p[1]);
                }
            }
            Reply::Done
        } else {
            panic!("not a write: {sql}")
        }
    }

    fn query(&self, sql: &str, p: Vec<Value>) -> Vec<Vec<Value>> {
        if sql == FIND_ARTIST_BY_ID {
            select(&self.artists, 0, &p[0])
        } else if sql == FIND_ARTIST_BY_NAME {
            select(&self.artists, 1, &p[0])
        } else if sql == ALL_ARTISTS {
            sorted_by(self.artists.iter().map(copy_row).collect(), 1)
        } else if sql == SEARCH_ARTISTS {
            sorted_by(like(&self.artists, 1, &p[0]), 1)
        } else if sql == FIND_ALBUM_BY_ID {
            select(&self.albums, 0, &p[0])
        } else if sql == FIND_ALBUM_BY_TITLE {
            select(&self.albums, 1, &p[0])
        } else if sql == ALL_ALBUMS {
            sorted_by(self.albums.iter().map(copy_row).collect(), 1)
        } else if sql == SEARCH_ALBUMS {
            sorted_by(like(&self.albums, 1, &p[0]), 1)
        } else if sql == ALBUM_ARTISTS {
            Self::joined(&self.artists, &self.album_artists, 0, 1, &p[0])
        } else if sql == TRACK_ARTISTS {
            Self::joined(&self.artists, &self.track_artists, 0, 1, &p[0])
        } else if sql == FIND_TRACK_BY_ID {
            select(&self.tracks, 0, &p[0])
        } else if sql == FIND_TRACK_BY_SOURCE {
            select(&select(&self.tracks, 5, &p[0]), 6, &p[1])
        } else if sql == FIND_TRACKS_BY_SOURCE {
            select(&self.tracks, 5, &p[0])
        } else if sql == ALL_TRACKS {
            sorted_by(self.tracks.iter().map(copy_row).collect(), 1)
        } else if sql == UNORGANIZED_TRACKS {
            let free = self
                .tracks
                .iter()
                .filter(|t| !self.playlist_tracks.iter().any(|l| l[1] == t[0]))
                .map(copy_row)
                .collect();
            sorted_by(free, 1)
        } else if sql == SEARCH_TRACKS {
            sorted_by(like(&self.tracks, 1, &p[0]), 1)
        } else if sql == TRACKS_BY_ALBUM {
            sorted_by(select(&self.tracks, 2, &p[0]), 1)
        } else if sql == TRACKS_BY_ARTIST {
            sorted_by(Self::joined(&self.tracks, &self.track_artists, 1, 0, &p[0]), 1)
        } else if sql == FIND_PLAYLIST_BY_ID {
            select(&self.playlists, 0, &p[0])
        } else if sql == ALL_PLAYLISTS {
            sorted_by(self.playlists.iter().map(copy_row).collect(), 1)
        } else if sql == PLAYLIST_TRACKS {
            let mut links = select(&self.playlist_tracks, 0, &p[0]);
            links.sort_by_key(|l| match l[2] {
                Value::Integer(n) => n,
                _ => 0,
            });
            links.iter().flat_map(|l| select(&self.tracks, 0, &l[1])).collect()
        } else if sql == NEXT_POSITION {
            let last = select(&self.playlist_tracks, 0, &p[0])
                .iter()
                .map(|l| match l[2] {
                    Value::Integer(n) => n,
                    _ => 0,
                })
                .max()
                .unwrap_or(0);
            vec![vec![Value::Integer(last + 1)]]
        } else {
            panic!("not a query: {sql}")
        }
    }
}

/// An operation of the library, whatever it yields.
trait Operation {
    type Output;
    fn step(&mut self, reply: Reply) -> Step<Self::Output>;
}

impl Operation for Write {
    type Output = ();
    fn step(&mut self, reply: Reply) -> Step<()> {
        self.resume(reply)
    }
}

impl Operation for AddArtist {
    type Output = Artist;
    fn step(&mut self, reply: Reply) -> Step<Artist> {
        self.resume(reply)
    }
}

impl Operation for FetchArtists {
    type Output = Vec<Artist>;
    fn step(&mut self, reply: Reply) -> Step<Vec<Artist>> {
        self.resume(reply)
    }
}

impl Operation for AddAlbum {
    type Output = Album;
    fn step(&mut self, reply: Reply) -> Step<Album> {
        self.resume(reply)
    }
}

impl Operation for FetchAlbums {
    type Output = Vec<Album>;
    fn step(&mut self, reply: Reply) -> Step<Vec<Album>> {
        self.resume(reply)
    }
}

impl Operation for AddTrack {
    type Output = Track;
    fn step(&mut self, reply: Reply) -> Step<Track> {
        self.resume(reply)
    }
}

impl Operation for AddTracks {
    type Output = Vec<Track>;
    fn step(&mut self, reply: Reply) -> Step<Vec<Track>> {
        self.resume(reply)
    }
}

impl Operation for FetchTracks {
    type Output = Vec<Track>;
    fn step(&mut self, reply: Reply) -> Step<Vec<Track>> {
        self.resume(reply)
    }
}

impl Operation for FetchPlaylists {
    type Output = Vec<Playlist>;
    fn step(&mut self, reply: Reply) -> Step<Vec<Playlist>> {
        self.resume(reply)
    }
}

impl Operation for AddToPlaylist {
    type Output = ();
    fn step(&mut self, reply: Reply) -> Step<()> {
        self.resume(reply)
    }
}

fn finish<M: Operation>(
    db: &mut FakeDb,
    mut machine: M,
    mut step: Step<M::Output>,
) -> Result<M::Output, LibraryError> {
    loop {
        match step {
            Step::Ask(request) => {
                let reply = db.serve(request.command());
                step = machine.step(reply);
            }
            Step::Done(result) => return result,
        }
    }
}

fn run<M: Operation>(db: &mut FakeDb, start: (M, Request)) -> Result<M::Output, LibraryError> {
    finish(db, start.0, Step::Ask(start.1))
}

fn nina() -> Artist {
    Artist { id: "A1".to_string(), name: "Nina".to_string() }
}

fn otis() -> Artist {
    Artist { id: "A2".to_string(), name: "Otis".to_string() }
}

fn pastel() -> Album {
    Album {
        id: "L1".to_string(),
        title: "Pastel".to_string(),
        artists: vec![nina()],
        release_year: Some(1967),
        album_art: Some(vec![0xff, 0xd8, 0xff]),
    }
}

fn blue() -> Track {
    Track {
        id: "T1".to_string(),
        title: "Blue".to_string(),
        artists: vec![nina(), otis()],
        album: pastel(),
        duration_ms: 183_500,
        path: Some("/music/blue.flac".to_string()),
        source: TrackSource::Local,
        source_id: None,
        track_number: Some(4),
    }
}

fn amber() -> Track {
    Track {
        id: "T2".to_string(),
        title: "Amber".to_string(),
        artists: vec![otis()],
        album: pastel(),
        duration_ms: 60_000,
        path: None,
        source: TrackSource::YouTube,
        source_id: Some("yt-amber".to_string()),
        track_number: None,
    }
}

#[test]
fn adding_an_artist_twice_yields_one_row_and_the_same_identity() {
    let mut db = FakeDb::new();
    let first = run(&mut db, Library::add_artist(&nina())).unwrap();
    let again = Artist { id: "OTHER".to_string(), name: "Nina".to_string() };
    let second = run(&mut db, Library::add_artist(&again)).unwrap();
    assert_eq!(first, nina());
    assert_eq!(second, nina());
    assert_eq!(db.artists.len(), 1);
    assert_eq!(
        db.log,
        vec![FIND_ARTIST_BY_NAME, INSERT_ARTIST, FIND_ARTIST_BY_NAME]
    );
}

#[test]
fn adding_an_artist_under_a_taken_identifier_is_refused() {
    let mut db = FakeDb::new();
    run(&mut db, Library::add_artist(&nina())).unwrap();
    let clash = Artist { id: "A1".to_string(), name: "Otis".to_string() };
    let result = run(&mut db, Library::add_artist(&clash));
    assert_eq!(
        result,
        Err(LibraryError::Storage("UNIQUE constraint failed: artists.id".to_string()))
    );
    assert_eq!(db.artists.len(), 1);
}

#[test]
fn adding_an_album_twice_yields_one_row_and_the_same_identity() {
    let mut db = FakeDb::new();
    let first = run(&mut db, Library::add_album(&pastel())).unwrap();
    assert_eq!(first, pastel());
    let again = Album {
        id: "OTHER".to_string(),
        title: "Pastel".to_string(),
        artists: vec![otis()],
        release_year: None,
        album_art: None,
    };
    let second = run(&mut db, Library::add_album(&again)).unwrap();
    assert_eq!(second, pastel());
    assert_eq!(db.albums.len(), 1);
    assert_eq!(db.artists.len(), 1);
    assert_eq!(db.album_artists.len(), 1);
}

#[test]
fn adding_an_album_stores_album_then_artists_then_links() {
    let mut db = FakeDb::new();
    let mut album = pastel();
    album.artists = vec![nina(), otis()];
    run(&mut db, Library::add_album(&album)).unwrap();
    assert_eq!(
        db.log,
        vec![
            FIND_ALBUM_BY_TITLE,
            INSERT_ALBUM,
            FIND_ARTIST_BY_NAME,
            INSERT_ARTIST,
            LINK_ALBUM_ARTIST,
            FIND_ARTIST_BY_NAME,
            INSERT_ARTIST,
            LINK_ALBUM_ARTIST,
        ]
    );
    assert_eq!(
        db.albums,
        vec![vec![
            Value::Text("L1".to_string()),
            Value::Text("Pastel".to_string()),
            Value::Integer(1967),
            Value::Blob(vec![0xff, 0xd8, 0xff]),
        ]]
    );
    assert_eq!(
        db.album_artists,
        vec![
            vec![Value::Text("L1".to_string()), Value::Text("A1".to_string())],
            vec![Value::Text("L1".to_string()), Value::Text("A2".to_string())],
        ]
    );
}

#[test]
fn album_artists_are_linked_under_their_stored_identity() {
    let mut db = FakeDb::new();
    run(&mut db, Library::add_artist(&nina())).unwrap();
    let mut album = pastel();
    album.artists = vec![Artist { id: "NEW".to_string(), name: "Nina".to_string() }];
    let added = run(&mut db, Library::add_album(&album)).unwrap();
    // The result is the album as it was handed in.
    assert_eq!(added, album);
    assert_eq!(
        db.album_artists,
        vec![vec![Value::Text("L1".to_string()), Value::Text("A1".to_string())]]
    );
    let found = into_first(run(&mut db, Library::find_album_by_title("Pastel")).unwrap());
    assert_eq!(found, Some(pastel()));
}

#[test]
fn a_query_sees_the_write_that_was_sent_before_it() {
    let mut db = FakeDb::new();
    let write = Request::insert_track(&blue(), "L1").command();
    let read = Request::by_text(Op::FindTrackById, "T1").command();
    // The task serves its inbox in the order of arrival.
    let replies: Vec<Reply> = vec![write, read].into_iter().map(|c| db.serve(c)).collect();
    assert_eq!(
        replies,
        vec![
            Reply::Done,
            Reply::Rows(vec![vec![
                Value::Text("T1".to_string()),
                Value::Text("Blue".to_string()),
                Value::Text("L1".to_string()),
                Value::Real(183_500),
                Value::Text("/music/blue.flac".to_string()),
                Value::Text("local".to_string()),
                Value::Null,
                Value::Integer(4),
            ]]),
        ]
    );
}

#[test]
fn adding_a_track_stores_album_artists_track_and_links_in_order() {
    let mut db = FakeDb::new();
    let added = run(&mut db, Library::add_track(&blue())).unwrap();
    assert_eq!(added, blue());
    assert_eq!(
        db.log,
        vec![
            FIND_ALBUM_BY_TITLE,
            INSERT_ALBUM,
            FIND_ARTIST_BY_NAME,
            INSERT_ARTIST,
            LINK_ALBUM_ARTIST,
            FIND_ARTIST_BY_NAME,
            FIND_ARTIST_BY_NAME,
            INSERT_ARTIST,
            INSERT_TRACK,
            LINK_TRACK_ARTIST,
            LINK_TRACK_ARTIST,
        ]
    );
    assert_eq!(db.tracks.len(), 1);
    assert_eq!(db.artists.len(), 2);
    assert_eq!(db.track_artists.len(), 2);
}

#[test]
fn added_track_comes_back_with_its_artists_as_stored() {
    let mut db = FakeDb::new();
    run(&mut db, Library::add_track(&blue())).unwrap();
    let mut other = amber();
    other.artists = vec![Artist { id: "FRESH".to_string(), name: "Otis".to_string() }];
    other.album.id = "FRESH-ALBUM".to_string();
    let added = run(&mut db, Library::add_track(&other)).unwrap();
    assert_eq!(added.artists, vec![otis()]);
    assert_eq!(added.id, "T2");
    // The track is stored under the album that was there already.
    assert_eq!(db.tracks[1][2], Value::Text("L1".to_string()));
    assert_eq!(db.albums.len(), 1);
    assert_eq!(db.artists.len(), 2);
}

#[test]
fn adding_the_same_track_again_is_refused_by_its_key() {
    let mut db = FakeDb::new();
    run(&mut db, Library::add_track(&blue())).unwrap();
    let result = run(&mut db, Library::add_track(&blue()));
    assert_eq!(
        result,
        Err(LibraryError::Storage("UNIQUE constraint failed: tracks.id".to_string()))
    );
    // The same song under a new identifier is a second row.
    let mut copy = blue();
    copy.id = "T9".to_string();
    run(&mut db, Library::add_track(&copy)).unwrap();
    assert_eq!(db.tracks.len(), 2);
}

#[test]
fn a_failure_in_the_middle_leaves_what_was_written() {
    let mut db = FakeDb::new();
    db.budget = Some(4);
    let result = run(&mut db, Library::add_track(&blue()));
    assert_eq!(result, Err(LibraryError::Storage("disk I/O error".to_string())));
    assert_eq!(db.albums.len(), 1);
    assert_eq!(db.artists.len(), 1);
    assert!(db.album_artists.is_empty());
    assert!(db.tracks.is_empty());
}

#[test]
fn adding_tracks_in_bulk_adds_each_in_order() {
    let mut db = FakeDb::new();
    let (machine, step) = Library::add_tracks(&vec![blue(), amber()]);
    let added = finish(&mut db, machine, step).unwrap();
    assert_eq!(added, vec![blue(), amber()]);
    assert_eq!(db.tracks.len(), 2);
    assert_eq!(
        LibraryEvent::after_adding(&Ok(added)),
        Some(LibraryEvent::TracksAdded(vec![blue(), amber()]))
    );
}

#[test]
fn adding_no_tracks_is_done_at_once() {
    let (_, step) = Library::add_tracks(&vec![]);
    assert_eq!(step, Step::Done(Ok(vec![])));
}

#[test]
fn bulk_add_stops_at_the_first_failure() {
    let mut db = FakeDb::new();
    let (machine, step) = Library::add_tracks(&vec![blue(), blue(), amber()]);
    let result = finish(&mut db, machine, step);
    assert_eq!(
        result,
        Err(LibraryError::Storage("UNIQUE constraint failed: tracks.id".to_string()))
    );
    assert_eq!(db.tracks.len(), 1);
    assert_eq!(LibraryEvent::after_adding(&result), None);
}

#[test]
fn event_after_adding_one_track_lists_it() {
    assert_eq!(
        LibraryEvent::after_adding_one(&Ok(blue())),
        Some(LibraryEvent::TracksAdded(vec![blue()]))
    );
    assert_eq!(LibraryEvent::after_adding_one(&Err(LibraryError::ChannelClosed)), None);
}

#[test]
fn found_track_has_its_album_and_its_artists() {
    let mut db = FakeDb::new();
    run(&mut db, Library::add_track(&blue())).unwrap();
    run(&mut db, Library::add_track(&amber())).unwrap();
    let found = into_first(run(&mut db, Library::find_track_by_id("T1")).unwrap());
    assert_eq!(found, Some(blue()));
    assert_eq!(into_first(run(&mut db, Library::find_track_by_id("T0")).unwrap()), None);
    let remote =
        into_first(run(&mut db, Library::find_track_by_source(TrackSource::YouTube, "yt-amber"))
            .unwrap());
    assert_eq!(remote, Some(amber()));
    assert_eq!(
        run(&mut db, Library::find_tracks_by_source(TrackSource::Local)).unwrap(),
        vec![blue()]
    );
}

#[test]
fn lists_come_in_the_order_of_the_query() {
    let mut db = FakeDb::new();
    run(&mut db, Library::add_track(&blue())).unwrap();
    run(&mut db, Library::add_track(&amber())).unwrap();
    assert_eq!(run(&mut db, Library::all_tracks()).unwrap(), vec![amber(), blue()]);
    assert_eq!(run(&mut db, Library::all_artists()).unwrap(), vec![nina(), otis()]);
    assert_eq!(run(&mut db, Library::all_albums()).unwrap(), vec![pastel()]);
    assert_eq!(run(&mut db, Library::all_unorganized_tracks()).unwrap(), vec![amber(), blue()]);
}

#[test]
fn searches_match_inside_the_text() {
    let mut db = FakeDb::new();
    run(&mut db, Library::add_track(&blue())).unwrap();
    run(&mut db, Library::add_track(&amber())).unwrap();
    assert_eq!(run(&mut db, Library::search_tracks("mbe")).unwrap(), vec![amber()]);
    assert_eq!(run(&mut db, Library::search_artists("ti")).unwrap(), vec![otis()]);
    assert_eq!(run(&mut db, Library::search_albums("past")).unwrap(), vec![pastel()]);
    assert_eq!(run(&mut db, Library::search_albums("zzz")).unwrap(), vec![]);
    assert_eq!(run(&mut db, Library::get_tracks_by_album("L1")).unwrap(), vec![amber(), blue()]);
    assert_eq!(run(&mut db, Library::get_tracks_by_artist("A1")).unwrap(), vec![blue()]);
}

#[test]
fn artists_are_found_by_identifier_and_by_name() {
    let mut db = FakeDb::new();
    run(&mut db, Library::add_artist(&nina())).unwrap();
    assert_eq!(run(&mut db, Library::find_artist_by_id("A1")).unwrap(), vec![nina()]);
    assert_eq!(run(&mut db, Library::find_artist_by_name("Nina")).unwrap(), vec![nina()]);
    assert_eq!(run(&mut db, Library::find_artist_by_name("nina")).unwrap(), vec![]);
    assert_eq!(
        into_first(run(&mut db, Library::find_album_by_id("L1")).unwrap()),
        None
    );
}

#[test]
fn track_without_album_is_an_error() {
    let mut db = FakeDb::new();
    db.serve(Request::insert_track(&blue(), "GONE").command());
    assert_eq!(
        run(&mut db, Library::find_track_by_id("T1")),
        Err(LibraryError::Malformed(Malformation::AlbumMissing))
    );
}

#[test]
fn deleting_a_track_removes_it() {
    let mut db = FakeDb::new();
    run(&mut db, Library::add_track(&blue())).unwrap();
    assert_eq!(run(&mut db, Library::delete_track("T1")), Ok(()));
    assert_eq!(run(&mut db, Library::all_tracks()).unwrap(), vec![]);
    // The album and the artists stay.
    assert_eq!(db.albums.len(), 1);
    assert_eq!(db.artists.len(), 2);
}

#[test]
fn playlists_keep_their_tracks_in_order() {
    let mut db = FakeDb::new();
    run(&mut db, Library::add_track(&blue())).unwrap();
    run(&mut db, Library::add_track(&amber())).unwrap();
    let playlist = Playlist {
        id: "PL-1".to_string(),
        name: "Evening".to_string(),
        description: Some("slow".to_string()),
        tracks: vec![],
    };
    assert_eq!(run(&mut db, Library::create_playlist(&playlist)), Ok(()));
    assert_eq!(run(&mut db, Library::add_track_to_playlist("PL-1", "T2")), Ok(()));
    assert_eq!(run(&mut db, Library::add_track_to_playlist("PL-1", "T1")), Ok(()));
    // A track that is in the playlist stays where it is.
    assert_eq!(run(&mut db, Library::add_track_to_playlist("PL-1", "T2")), Ok(()));
    assert_eq!(
        db.playlist_tracks,
        vec![
            vec![
                Value::Text("PL-1".to_string()),
                Value::Text("T2".to_string()),
                Value::Integer(1)
            ],
            vec![
                Value::Text("PL-1".to_string()),
                Value::Text("T1".to_string()),
                Value::Integer(2)
            ],
        ]
    );
    let found = into_first(run(&mut db, Library::find_playlist_by_id("PL-1")).unwrap()).unwrap();
    assert_eq!(found.name, "Evening");
    assert_eq!(found.description.as_deref(), Some("slow"));
    assert_eq!(found.tracks, vec![amber(), blue()]);
    assert_eq!(run(&mut db, Library::all_unorganized_tracks()).unwrap(), vec![]);
    assert_eq!(run(&mut db, Library::remove_track_from_playlist("PL-1", "T2")), Ok(()));
    let all = run(&mut db, Library::all_playlists()).unwrap();
    assert_eq!(all.len(), 1);
    assert_eq!(all[0].tracks, vec![blue()]);
    assert_eq!(run(&mut db, Library::all_unorganized_tracks()).unwrap(), vec![amber()]);
}

#[test]
fn playlists_are_renamed_and_deleted() {
    let mut db = FakeDb::new();
    let mut playlist = Playlist {
        id: "PL-1".to_string(),
        name: "Evening".to_string(),
        description: None,
        tracks: vec![],
    };
    run(&mut db, Library::create_playlist(&playlist)).unwrap();
    playlist.name = "Night".to_string();
    playlist.description = Some("late".to_string());
    assert_eq!(run(&mut db, Library::update_playlist(&playlist)), Ok(()));
    assert_eq!(
        run(&mut db, Library::find_playlist_by_id("PL-1")).unwrap(),
        vec![playlist]
    );
    assert_eq!(run(&mut db, Library::delete_playlist("PL-1")), Ok(()));
    assert_eq!(run(&mut db, Library::find_playlist_by_id("PL-1")).unwrap(), vec![]);
}

#[test]
fn schema_goes_as_a_batch_and_flush_as_its_own_command() {
    let (_, request) = Library::initialize();
    assert_eq!(request.command(), LibraryCommand::ExecuteBatch(SCHEMA.to_string()));
    assert!(SCHEMA.contains("CREATE TABLE IF NOT EXISTS playlist_tracks"));
    let (_, request) = Library::write();
    assert_eq!(request.command(), LibraryCommand::Cacheflush);
    let mut db = FakeDb::new();
    assert_eq!(run(&mut db, Library::write()), Ok(()));
    assert_eq!(db.flushed, 1);
}

#[test]
fn reads_are_queries_and_writes_are_executes() {
    assert!(Op::FindArtistByName.is_query());
    assert!(Op::NextPosition.is_query());
    assert!(!Op::InsertTrack.is_query());
    assert!(!Op::UpdatePlaylist.is_query());
    assert!(!Op::Flush.is_query());
    match Request::by_text(Op::TrackArtists, "T1").command() {
        LibraryCommand::Query(s) => {
            assert_eq!(s.sql, TRACK_ARTISTS);
            assert_eq!(s.params, vec![Value::Text("T1".to_string())]);
        }
        other => panic!("{:?}", other),
    }
    match Request::by_texts(Op::LinkTrackArtist, "T1", "A1").command() {
        LibraryCommand::Execute(s) => {
            assert_eq!(s.sql, LINK_TRACK_ARTIST);
            assert_eq!(
                s.params,
                vec![Value::Text("T1".to_string()), Value::Text("A1".to_string())]
            );
        }
        other => panic!("{:?}", other),
    }
}

#[test]
fn search_pattern_wraps_the_query_in_percent_signs() {
    assert_eq!(
        Request::search(Op::SearchTracks, "blue").args,
        vec![Value::Text("%blue%".to_string())]
    );
    assert_eq!(Request::search(Op::SearchTracks, "").args, vec![Value::Text("%%".to_string())]);
}

#[test]
fn missing_values_are_bound_as_null() {
    let album = Album {
        id: "L".to_string(),
        title: "T".to_string(),
        artists: vec![],
        release_year: None,
        album_art: None,
    };
    assert_eq!(
        Request::insert_album(&album).args,
        vec![
            Value::Text("L".to_string()),
            Value::Text("T".to_string()),
            Value::Null,
            Value::Null
        ]
    );
    assert_eq!(
        Request::insert_track(&amber(), "L1").args,
        vec![
            Value::Text("T2".to_string()),
            Value::Text("Amber".to_string()),
            Value::Text("L1".to_string()),
            Value::Real(60_000),
            Value::Null,
            Value::Text("youtube".to_string()),
            Value::Text("yt-amber".to_string()),
            Value::Null,
        ]
    );
    assert_eq!(Value::millis(u64::MAX), Value::Real(i64::MAX));
    assert_eq!(Value::opt_int(Some(-3)), Value::Integer(-3));
}

#[test]
fn closed_channel_ends_every_operation() {
    let (mut machine, _) = Library::add_track(&blue());
    assert_eq!(machine.resume(Reply::Closed), Step::Done(Err(LibraryError::ChannelClosed)));
    let (mut machine, _) = Library::all_playlists();
    assert_eq!(machine.resume(Reply::Closed), Step::Done(Err(LibraryError::ChannelClosed)));
    let (mut machine, _) = Library::delete_track("T1");
    assert_eq!(machine.resume(Reply::Closed), Step::Done(Err(LibraryError::ChannelClosed)));
    let (mut machine, _) = Library::add_track_to_playlist("P", "T");
    assert_eq!(machine.resume(Reply::Closed), Step::Done(Err(LibraryError::ChannelClosed)));
}

#[test]
fn replies_of_the_wrong_kind_are_malformed() {
    let unexpected = LibraryError::Malformed(Malformation::UnexpectedReply);
    assert_eq!(expect_rows(Reply::Done), Err(LibraryError::Malformed(Malformation::UnexpectedReply)));
    assert_eq!(expect_done(Reply::Rows(vec![])), Some(unexpected));
    assert_eq!(expect_done(Reply::Done), None);
    assert_eq!(
        expect_rows(Reply::Failed("no such table".to_string())),
        Err(LibraryError::Storage("no such table".to_string()))
    );
    let (mut machine, _) = Library::all_artists();
    assert_eq!(
        machine.resume(Reply::Done),
        Step::Done(Err(LibraryError::Malformed(Malformation::UnexpectedReply)))
    );
    // A finished operation takes no more replies.
    assert_eq!(
        machine.resume(Reply::Rows(vec![])),
        Step::Done(Err(LibraryError::Malformed(Malformation::UnexpectedReply)))
    );
}

#[test]
fn only_the_first_row_counts_where_one_item_is_looked_for() {
    let rows = vec![
        vec![Value::Text("A1".to_string()), Value::Text("Nina".to_string())],
        vec![Value::Null, Value::Null],
    ];
    let (mut one, _) = Library::find_artist_by_name("Nina");
    assert_eq!(
        one.resume(Reply::Rows(rows.iter().map(copy_row).collect())),
        Step::Done(Ok(vec![nina()]))
    );
    let (mut all, _) = Library::all_artists();
    assert_eq!(
        all.resume(Reply::Rows(rows)),
        Step::Done(Err(LibraryError::Malformed(Malformation::NullColumn(0))))
    );
}

#[test]
fn rows_are_read_column_by_column() {
    let row = vec![Value::Text("A1".to_string()), Value::Text("Nina".to_string())];
    assert_eq!(read_artist(&row), Ok(nina()));
    assert_eq!(read_artist(&vec![]), Err(Malformation::MissingColumn(0)));
    assert_eq!(
        read_artist(&vec![Value::Text("A1".to_string())]),
        Err(Malformation::MissingColumn(1))
    );
    assert_eq!(
        read_artist(&vec![Value::Integer(1), Value::Null]),
        Err(Malformation::WrongType(0))
    );
    assert_eq!(
        read_artist(&vec![Value::Text("A1".to_string()), Value::Null]),
        Err(Malformation::NullColumn(1))
    );
}

#[test]
fn album_rows_allow_missing_year_and_cover() {
    let row = vec![
        Value::Text("L1".to_string()),
        Value::Text("Pastel".to_string()),
        Value::Null,
        Value::Null,
    ];
    let album = read_album(&row).unwrap();
    assert_eq!(album.release_year, None);
    assert_eq!(album.album_art, None);
    assert!(album.artists.is_empty());
    let bad = vec![
        Value::Text("L1".to_string()),
        Value::Text("Pastel".to_string()),
        Value::Text("1967".to_string()),
        Value::Null,
    ];
    assert_eq!(read_album(&bad), Err(Malformation::WrongType(2)));
}

#[test]
fn stored_numbers_are_narrowed_to_32_bits() {
    assert_eq!(narrow(None), None);
    assert_eq!(narrow(Some(1967)), Some(1967));
    assert_eq!(narrow(Some(-1)), Some(-1));
    assert_eq!(narrow(Some(4_294_969_263)), Some(1967));
    assert_eq!(narrow(Some(i64::MAX)), Some(-1));
}

#[test]
fn durations_are_read_from_reals_and_whole_seconds() {
    assert_eq!(read_millis(&vec![Value::Real(183_500)], 0), Ok(183_500));
    assert_eq!(read_millis(&vec![Value::Integer(183)], 0), Ok(183_000));
    assert_eq!(read_millis(&vec![Value::Real(-5)], 0), Ok(0));
    assert_eq!(read_millis(&vec![Value::Integer(-5)], 0), Ok(0));
    assert_eq!(read_millis(&vec![Value::Integer(i64::MAX)], 0), Ok(u64::MAX));
    assert_eq!(read_millis(&vec![Value::Null], 0), Err(Malformation::NullColumn(0)));
    assert_eq!(
        read_millis(&vec![Value::Text("3".to_string())], 0),
        Err(Malformation::WrongType(0))
    );
    assert_eq!(read_millis(&vec![], 2), Err(Malformation::MissingColumn(2)));
}

#[test]
fn track_rows_name_their_source_in_any_case() {
    let row = |source: Value| {
        vec![
            Value::Text("T1".to_string()),
            Value::Text("Blue".to_string()),
            Value::Text("L1".to_string()),
            Value::Integer(3),
            Value::Null,
            source,
            Value::Text("yt".to_string()),
            Value::Integer(7),
        ]
    };
    let read = read_track(&row(Value::Text("YouTube".to_string()))).unwrap();
    assert_eq!(read.source, TrackSource::YouTube);
    assert_eq!(read.album_id, "L1");
    assert_eq!(read.duration_ms, 3_000);
    assert_eq!(read.path, None);
    assert_eq!(read.source_id.as_deref(), Some("yt"));
    assert_eq!(read.track_number, Some(7));
    assert_eq!(
        read_track(&row(Value::Text("tape".to_string()))),
        Err(Malformation::UnknownSource)
    );
    assert_eq!(read_track(&row(Value::Null)), Err(Malformation::NullColumn(5)));
    // An earlier column that cannot be read comes before the source.
    let mut bad = row(Value::Text("tape".to_string()));
    bad[1] = Value::Null;
    assert_eq!(read_track(&bad), Err(Malformation::NullColumn(1)));
}

#[test]
fn playlist_rows_allow_a_missing_description() {
    let row = vec![Value::Text("PL-1".to_string()), Value::Text("Evening".to_string()), Value::Null];
    let playlist = read_playlist(&row).unwrap();
    assert_eq!(playlist.description, None);
    assert!(playlist.tracks.is_empty());
    assert_eq!(read_playlist(&row[..2].iter().map(copy).collect()), Err(Malformation::MissingColumn(2)));
}

#[test]
fn next_position_defaults_to_one() {
    assert_eq!(read_position(&vec![]), 1);
    assert_eq!(read_position(&vec![vec![Value::Integer(5)]]), 5);
    assert_eq!(read_position(&vec![vec![Value::Null]]), 1);
    assert_eq!(read_position(&vec![vec![]]), 1);
    assert_eq!(read_position(&vec![vec![Value::Integer(2)], vec![Value::Integer(9)]]), 2);
}

#[test]
fn storage_error_speaks_the_words_of_the_database() {
    assert_eq!(LibraryError::Storage("disk full".to_string()).to_string(), "disk full");
}
