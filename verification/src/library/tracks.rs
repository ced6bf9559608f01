//! Repository operations on tracks.

use vstd::prelude::*;
use crate::library::albums::{AddAlbum, AddAlbumView, FetchAlbums, FetchAlbumsView};
use crate::library::artists::{artists_of_rows, read_artists, AddArtist, AddArtistView, Turn};
use crate::library::protocol::{expect_done, expect_rows, refusal_of, rows_of, Step, StepView};
use crate::library::request::{Op, Reply, ReplyView, Request, RequestView};
use crate::library::rows::{read_track, track_of_row, TrackRow, TrackRowView};
use crate::library::value::{row_views, ErrorView, LibraryError, Malformation, Value, ValueView};
use crate::model::{
    artist_views, clone_opt_text, clone_tracks, track_views, Album, AlbumView, Artist, ArtistView,
    Track, TrackView,
};

verus! {

/// Value of a step that ends with tracks.
pub open spec fn viewed_tracks_step(step: Step<Vec<Track>>) -> StepView<Seq<TrackView>> {
    match step {
        Step::Ask(r) => StepView::Ask(r@),
        Step::Done(Ok(v)) => StepView::Done(Ok(track_views(v@))),
        Step::Done(Err(e)) => StepView::Done(Err(e@)),
    }
}

/// Value of a step that ends with a track.
pub open spec fn viewed_track_step(step: Step<Track>) -> StepView<TrackView> {
    match step {
        Step::Ask(r) => StepView::Ask(r@),
        Step::Done(Ok(t)) => StepView::Done(Ok(t@)),
        Step::Done(Err(e)) => StepView::Done(Err(e@)),
    }
}

/// The track of a row with its artists and its album.
pub open spec fn assembled(row: TrackRowView, artists: Seq<ArtistView>, album: AlbumView) -> TrackView {
    TrackView {
        id: row.id,
        title: row.title,
        artists,
        album,
        duration_ms: row.duration_ms,
        path: row.path,
        source: row.source,
        source_id: row.source_id,
        track_number: row.track_number,
    }
}

/// Puts a track together from its row, its artists and its album.
pub fn assemble(row: TrackRow, artists: Vec<Artist>, album: Album) -> (r: Track)
    ensures
        r@ == assembled(row@, artist_views(artists@), album@),
{
    Track {
        id: row.id,
        title: row.title,
        artists,
        album,
        duration_ms: row.duration_ms,
        path: row.path,
        source: row.source,
        source_id: row.source_id,
        track_number: row.track_number,
    }
}

/// How far the fetching of tracks has come.
#[derive(Debug, PartialEq)]
pub enum FetchTracksStage {
    /// The rows of the tracks are awaited.
    Primary,
    /// The artists of the track in the row at `next` are awaited.
    Artists,
    /// The album of that track is being fetched.
    Album(FetchAlbums),
    Finished,
}

/// Mathematical value of a [`FetchTracksStage`].
pub enum FetchTracksStageView {
    Primary,
    Artists,
    Album(FetchAlbumsView),
    Finished,
}

impl View for FetchTracksStage {
    type V = FetchTracksStageView;

    open spec fn view(&self) -> FetchTracksStageView {
        match self {
            FetchTracksStage::Primary => FetchTracksStageView::Primary,
            FetchTracksStage::Artists => FetchTracksStageView::Artists,
            FetchTracksStage::Album(f) => FetchTracksStageView::Album(f@),
            FetchTracksStage::Finished => FetchTracksStageView::Finished,
        }
    }
}

/// Fetches tracks: the rows of a query for tracks, and for each row, in
/// order, the track's artists and then its album with the album's artists,
/// each by queries of its own. A track whose album is not stored is an
/// error.
#[derive(Debug, PartialEq)]
pub struct FetchTracks {
    /// Whether only the first row counts.
    pub first_only: bool,
    pub stage: FetchTracksStage,
    pub rows: Vec<Vec<Value>>,
    /// Place of the row that is being worked on.
    pub next: usize,
    /// The track of that row, as the row holds it.
    pub pending: Option<TrackRow>,
    /// The artists of that track, once they are known.
    pub artists: Vec<Artist>,
    /// The tracks of the rows before it.
    pub found: Vec<Track>,
}

/// Mathematical value of a [`FetchTracks`].
pub struct FetchTracksView {
    pub first_only: bool,
    pub stage: FetchTracksStageView,
    pub rows: Seq<Seq<ValueView>>,
    pub next: nat,
    pub pending: Option<TrackRowView>,
    pub artists: Seq<ArtistView>,
    pub found: Seq<TrackView>,
}

/// Value of an optional row of a track.
pub open spec fn opt_track_row(o: Option<TrackRow>) -> Option<TrackRowView> {
    match o {
        Some(r) => Some(r@),
        None => None,
    }
}

impl View for FetchTracks {
    type V = FetchTracksView;

    open spec fn view(&self) -> FetchTracksView {
        FetchTracksView {
            first_only: self.first_only,
            stage: self.stage@,
            rows: row_views(self.rows@),
            next: self.next as nat,
            pending: opt_track_row(self.pending),
            artists: artist_views(self.artists@),
            found: track_views(self.found@),
        }
    }
}

impl FetchTracksView {
    /// The operation as it starts.
    pub open spec fn start(first_only: bool) -> FetchTracksView {
        FetchTracksView {
            first_only,
            stage: FetchTracksStageView::Primary,
            rows: seq![],
            next: 0,
            pending: None,
            artists: seq![],
            found: seq![],
        }
    }

    /// The operation as it ends: with nothing left in it.
    pub open spec fn finish(self) -> FetchTracksView {
        FetchTracksView {
            stage: FetchTracksStageView::Finished,
            rows: seq![],
            next: 0,
            pending: None,
            artists: seq![],
            found: seq![],
            ..self
        }
    }

    /// The operation ends with an error.
    pub open spec fn fail(self, e: ErrorView) -> Turn<FetchTracksView, Seq<TrackView>> {
        Turn { state: self.finish(), step: StepView::Done(Err(e)) }
    }

    /// Turns to the row at `next`: with no row left the tracks found are the
    /// result, else the row is read and the track's artists are asked for.
    pub open spec fn turn_to_row(self) -> Turn<FetchTracksView, Seq<TrackView>> {
        if self.next >= self.rows.len() {
            Turn { state: self.finish(), step: StepView::Done(Ok(self.found)) }
        } else {
            match track_of_row(self.rows[self.next as int]) {
                Ok(row) => Turn {
                    state: FetchTracksView {
                        stage: FetchTracksStageView::Artists,
                        pending: Some(row),
                        artists: seq![],
                        ..self
                    },
                    step: StepView::Ask(RequestView::by_text(Op::TrackArtists, row.id)),
                },
                Err(m) => self.fail(ErrorView::Malformed(m)),
            }
        }
    }

    /// The operation after a reply.
    pub open spec fn resume(self, reply: ReplyView) -> Turn<FetchTracksView, Seq<TrackView>> {
        match self.stage {
            FetchTracksStageView::Finished => Turn {
                state: self,
                step: StepView::Done(Err(ErrorView::Malformed(Malformation::UnexpectedReply))),
            },
            FetchTracksStageView::Primary => match rows_of(reply) {
                Err(e) => self.fail(e),
                Ok(rows) => FetchTracksView {
                    rows: if self.first_only {
                        rows.take(if rows.len() > 0 { 1 } else { 0 })
                    } else {
                        rows
                    },
                    next: 0,
                    ..self
                }.turn_to_row(),
            },
            FetchTracksStageView::Artists => match rows_of(reply) {
                Err(e) => self.fail(e),
                Ok(rows) => match (artists_of_rows(rows), self.pending) {
                    (Err(e), _) => self.fail(e),
                    (Ok(_), None) => self.fail(ErrorView::Malformed(Malformation::UnexpectedReply)),
                    (Ok(artists), Some(row)) => Turn {
                        state: FetchTracksView {
                            stage: FetchTracksStageView::Album(FetchAlbumsView::start(true)),
                            artists,
                            ..self
                        },
                        step: StepView::Ask(RequestView::by_text(Op::FindAlbumById, row.album_id)),
                    },
                },
            },
            FetchTracksStageView::Album(f) => {
                let t = f.resume(reply);
                match t.step {
                    StepView::Ask(r) => Turn {
                        state: FetchTracksView {
                            stage: FetchTracksStageView::Album(t.state),
                            ..self
                        },
                        step: StepView::Ask(r),
                    },
                    StepView::Done(Err(e)) => self.fail(e),
                    StepView::Done(Ok(albums)) => match self.pending {
                        None => self.fail(ErrorView::Malformed(Malformation::UnexpectedReply)),
                        Some(row) => if albums.len() == 0 {
                            self.fail(ErrorView::Malformed(Malformation::AlbumMissing))
                        } else {
                            FetchTracksView {
                                stage: FetchTracksStageView::Primary,
                                next: self.next + 1,
                                pending: None,
                                artists: seq![],
                                found: self.found.push(assembled(row, self.artists, albums[0])),
                                ..self
                            }.turn_to_row()
                        },
                    },
                }
            },
        }
    }
}

impl FetchTracks {
    /// Starts the operation with a request for rows of tracks; `first_only`
    /// tells whether only the first row counts.
    pub fn start(request: Request, first_only: bool) -> (r: (FetchTracks, Request))
        ensures
            r.0@ == FetchTracksView::start(first_only),
            r.1 == request,
    {
        let machine = FetchTracks {
            first_only,
            stage: FetchTracksStage::Primary,
            rows: Vec::new(),
            next: 0,
            pending: None,
            artists: Vec::new(),
            found: Vec::new(),
        };
        assert(machine@.rows =~= seq![]);
        assert(machine@.found =~= seq![]);
        assert(machine@.artists =~= seq![]);
        (machine, request)
    }

    fn finish(&mut self)
        ensures
            final(self)@ == old(self)@.finish(),
    {
        self.stage = FetchTracksStage::Finished;
        self.rows = Vec::new();
        self.next = 0;
        assert(self@.rows =~= seq![]);
        self.pending = None;
        self.artists = Vec::new();
        self.found = Vec::new();
        assert(self@.found =~= seq![]);
        assert(self@.artists =~= seq![]);
    }

    fn turn_to_row(&mut self) -> (r: Step<Vec<Track>>)
        ensures
            final(self)@ == old(self)@.turn_to_row().state,
            viewed_tracks_step(r) == old(self)@.turn_to_row().step,
    {
        if self.next >= self.rows.len() {
            let mut found: Vec<Track> = Vec::new();
            core::mem::swap(&mut found, &mut self.found);
            self.finish();
            Step::Done(Ok(found))
        } else {
            match read_track(&self.rows[self.next]) {
                Ok(row) => {
                    let request = Request::by_text(Op::TrackArtists, row.id.as_str());
                    self.stage = FetchTracksStage::Artists;
                    self.pending = Some(row);
                    self.artists = Vec::new();
                    assert(self@.artists =~= seq![]);
                    Step::Ask(request)
                },
                Err(m) => {
                    self.finish();
                    Step::Done(Err(LibraryError::Malformed(m)))
                },
            }
        }
    }

    /// Resumes the operation with the reply to its last request.
    #[verifier::rlimit(40)]
    pub fn resume(&mut self, reply: Reply) -> (r: Step<Vec<Track>>)
        ensures
            final(self)@ == old(self)@.resume(reply@).state,
            viewed_tracks_step(r) == old(self)@.resume(reply@).step,
    {
        let mut stage = FetchTracksStage::Finished;
        core::mem::swap(&mut stage, &mut self.stage);
        match stage {
            FetchTracksStage::Finished => Step::Done(
                Err(LibraryError::Malformed(Malformation::UnexpectedReply)),
            ),
            FetchTracksStage::Primary => {
                match expect_rows(reply) {
                    Err(e) => {
                        self.finish();
                        Step::Done(Err(e))
                    },
                    Ok(rows) => {
                        let mut rows = rows;
                        if self.first_only && rows.len() > 1 {
                            rows.truncate(1);
                        }
                        proof {
                            let all = rows_of(reply@)->Ok_0;
                            if self.first_only {
                                assert(row_views(rows@) =~= all.take(
                                    if all.len() > 0 {
                                        1int
                                    } else {
                                        0int
                                    },
                                ));
                            }
                        }
                        self.rows = rows;
                        self.next = 0;
                        self.stage = FetchTracksStage::Primary;
                        self.turn_to_row()
                    },
                }
            },
            FetchTracksStage::Artists => {
                let artists = match expect_rows(reply) {
                    Err(e) => Err(e),
                    Ok(rows) => read_artists(&rows),
                };
                match artists {
                    Err(e) => {
                        self.finish();
                        Step::Done(Err(e))
                    },
                    Ok(artists) => {
                        match &self.pending {
                            None => {
                                self.finish();
                                Step::Done(
                                    Err(LibraryError::Malformed(Malformation::UnexpectedReply)),
                                )
                            },
                            Some(row) => {
                                let request = Request::by_text(
                                    Op::FindAlbumById,
                                    row.album_id.as_str(),
                                );
                                let (lookup, request) = FetchAlbums::start(request, true);
                                self.artists = artists;
                                self.stage = FetchTracksStage::Album(lookup);
                                Step::Ask(request)
                            },
                        }
                    },
                }
            },
            FetchTracksStage::Album(mut lookup) => {
                match lookup.resume(reply) {
                    Step::Ask(request) => {
                        self.stage = FetchTracksStage::Album(lookup);
                        Step::Ask(request)
                    },
                    Step::Done(Err(e)) => {
                        self.finish();
                        Step::Done(Err(e))
                    },
                    Step::Done(Ok(mut albums)) => {
                        match self.pending.take() {
                            None => {
                                self.finish();
                                Step::Done(
                                    Err(LibraryError::Malformed(Malformation::UnexpectedReply)),
                                )
                            },
                            Some(row) => {
                                if albums.len() == 0 {
                                    self.finish();
                                    Step::Done(
                                        Err(LibraryError::Malformed(Malformation::AlbumMissing)),
                                    )
                                } else {
                                    let album = albums.remove(0);
                                    let mut artists: Vec<Artist> = Vec::new();
                                    core::mem::swap(&mut artists, &mut self.artists);
                                    assert(self@.artists =~= seq![]);
                                    let ghost before = track_views(self.found@);
                                    let track = assemble(row, artists, album);
                                    self.found.push(track);
                                    assert(track_views(self.found@) =~= before.push(track@));
                                    if self.next < self.rows.len() {
                                        self.next = self.next + 1;
                                    }
                                    self.stage = FetchTracksStage::Primary;
                                    self.turn_to_row()
                                }
                            },
                        }
                    },
                }
            },
        }
    }
}

/// How far the adding of a track has come.
#[derive(Debug, PartialEq)]
pub enum AddTrackStage {
    /// The track's album is being added.
    Album(AddAlbum),
    /// The artist at this place of the track's list is being added.
    Artist(usize, AddArtist),
    /// The track is being stored.
    Inserting,
    /// The stored artist at this place is being named as an artist of the
    /// track.
    Linking(usize),
    Finished,
}

/// Mathematical value of an [`AddTrackStage`].
pub enum AddTrackStageView {
    Album(AddAlbumView),
    Artist(nat, AddArtistView),
    Inserting,
    Linking(nat),
    Finished,
}

impl View for AddTrackStage {
    type V = AddTrackStageView;

    open spec fn view(&self) -> AddTrackStageView {
        match self {
            AddTrackStage::Album(a) => AddTrackStageView::Album(a@),
            AddTrackStage::Artist(i, a) => AddTrackStageView::Artist(*i as nat, a@),
            AddTrackStage::Inserting => AddTrackStageView::Inserting,
            AddTrackStage::Linking(i) => AddTrackStageView::Linking(*i as nat),
            AddTrackStage::Finished => AddTrackStageView::Finished,
        }
    }
}

/// Adds a track: first its album, then each of its artists in order, then
/// the track itself under the stored album, and last the stored artists as
/// the track's artists. An album or an artist that is stored already is kept
/// as it is; the track is stored anew each time. The result is the track
/// with its artists as they are stored. The writes are not one transaction:
/// what was written before a failure stays.
#[derive(Debug, PartialEq)]
pub struct AddTrack {
    pub track: Track,
    pub stage: AddTrackStage,
    /// Identifier of the album as it is stored.
    pub album_id: String,
    /// The track's artists as they are stored, as far as they were added.
    pub stored: Vec<Artist>,
}

/// Mathematical value of an [`AddTrack`].
pub struct AddTrackView {
    pub track: TrackView,
    pub stage: AddTrackStageView,
    pub album_id: Seq<char>,
    pub stored: Seq<ArtistView>,
}

impl View for AddTrack {
    type V = AddTrackView;

    open spec fn view(&self) -> AddTrackView {
        AddTrackView {
            track: self.track@,
            stage: self.stage@,
            album_id: self.album_id@,
            stored: artist_views(self.stored@),
        }
    }
}

impl AddTrackView {
    /// The operation as it starts.
    pub open spec fn start(track: TrackView) -> AddTrackView {
        AddTrackView {
            track,
            stage: AddTrackStageView::Album(AddAlbumView::start(track.album)),
            album_id: seq![],
            stored: seq![],
        }
    }

    /// The first request: the first one of adding the album.
    pub open spec fn first_request(self) -> RequestView {
        AddAlbumView::start(self.track.album).first_request()
    }

    /// The operation as it ends.
    pub open spec fn finish(self) -> AddTrackView {
        AddTrackView { stage: AddTrackStageView::Finished, stored: seq![], ..self }
    }

    /// The operation ends with an error.
    pub open spec fn fail(self, e: ErrorView) -> Turn<AddTrackView, TrackView> {
        Turn { state: self.finish(), step: StepView::Done(Err(e)) }
    }

    /// Turns to the artist at place `i`: with no artist left the track is
    /// stored, else the artist is added.
    pub open spec fn turn_to_artist(self, i: nat) -> Turn<AddTrackView, TrackView> {
        if i >= self.track.artists.len() {
            Turn {
                state: AddTrackView { stage: AddTrackStageView::Inserting, ..self },
                step: StepView::Ask(RequestView::insert_track(self.track, self.album_id)),
            }
        } else {
            let sub = AddArtistView::start(self.track.artists[i as int]);
            Turn {
                state: AddTrackView { stage: AddTrackStageView::Artist(i, sub), ..self },
                step: StepView::Ask(sub.first_request()),
            }
        }
    }

    /// Turns to the stored artist at place `i`: with none left the track
    /// with its stored artists is the result, else the artist is named as an
    /// artist of the track.
    pub open spec fn turn_to_link(self, i: nat) -> Turn<AddTrackView, TrackView> {
        if i >= self.stored.len() {
            Turn {
                state: self.finish(),
                step: StepView::Done(Ok(TrackView { artists: self.stored, ..self.track })),
            }
        } else {
            Turn {
                state: AddTrackView { stage: AddTrackStageView::Linking(i), ..self },
                step: StepView::Ask(
                    RequestView::by_texts(Op::LinkTrackArtist, self.track.id, self.stored[i as int].id),
                ),
            }
        }
    }

    /// The operation after a reply.
    pub open spec fn resume(self, reply: ReplyView) -> Turn<AddTrackView, TrackView> {
        match self.stage {
            AddTrackStageView::Album(sub) => {
                let t = sub.resume(reply);
                match t.step {
                    StepView::Ask(r) => Turn {
                        state: AddTrackView { stage: AddTrackStageView::Album(t.state), ..self },
                        step: StepView::Ask(r),
                    },
                    StepView::Done(Ok(album)) => AddTrackView {
                        album_id: album.id,
                        ..self
                    }.turn_to_artist(0),
                    StepView::Done(Err(e)) => self.fail(e),
                }
            },
            AddTrackStageView::Artist(i, sub) => {
                let t = sub.resume(reply);
                match t.step {
                    StepView::Ask(r) => Turn {
                        state: AddTrackView {
                            stage: AddTrackStageView::Artist(i, t.state),
                            ..self
                        },
                        step: StepView::Ask(r),
                    },
                    StepView::Done(Ok(stored)) => AddTrackView {
                        stored: self.stored.push(stored),
                        ..self
                    }.turn_to_artist(i + 1),
                    StepView::Done(Err(e)) => self.fail(e),
                }
            },
            AddTrackStageView::Inserting => match refusal_of(reply) {
                Some(e) => self.fail(e),
                None => self.turn_to_link(0),
            },
            AddTrackStageView::Linking(i) => match refusal_of(reply) {
                Some(e) => self.fail(e),
                None => self.turn_to_link(i + 1),
            },
            AddTrackStageView::Finished => Turn {
                state: self,
                step: StepView::Done(Err(ErrorView::Malformed(Malformation::UnexpectedReply))),
            },
        }
    }
}

impl AddTrack {
    /// Starts the operation; the request is the first to send.
    pub fn start(track: Track) -> (r: (AddTrack, Request))
        ensures
            r.0@ == AddTrackView::start(track@),
            r.1@ == r.0@.first_request(),
    {
        let (sub, request) = AddAlbum::start(track.album.clone());
        let machine = AddTrack {
            track,
            stage: AddTrackStage::Album(sub),
            album_id: String::new(),
            stored: Vec::new(),
        };
        assert(machine@.stored =~= seq![]);
        assert(machine@.album_id =~= seq![]);
        (machine, request)
    }

    fn finish(&mut self)
        ensures
            final(self)@ == old(self)@.finish(),
    {
        self.stage = AddTrackStage::Finished;
        self.stored = Vec::new();
        assert(self@.stored =~= seq![]);
    }

    fn turn_to_artist(&mut self, i: usize) -> (r: Step<Track>)
        ensures
            final(self)@ == old(self)@.turn_to_artist(i as nat).state,
            viewed_track_step(r) == old(self)@.turn_to_artist(i as nat).step,
    {
        if i >= self.track.artists.len() {
            self.stage = AddTrackStage::Inserting;
            Step::Ask(Request::insert_track(&self.track, self.album_id.as_str()))
        } else {
            let (sub, request) = AddArtist::start(self.track.artists[i].clone());
            self.stage = AddTrackStage::Artist(i, sub);
            Step::Ask(request)
        }
    }

    fn turn_to_link(&mut self, i: usize) -> (r: Step<Track>)
        ensures
            final(self)@ == old(self)@.turn_to_link(i as nat).state,
            viewed_track_step(r) == old(self)@.turn_to_link(i as nat).step,
    {
        if i >= self.stored.len() {
            let mut stored: Vec<Artist> = Vec::new();
            core::mem::swap(&mut stored, &mut self.stored);
            self.finish();
            let whole = Track {
                id: self.track.id.clone(),
                title: self.track.title.clone(),
                artists: stored,
                album: self.track.album.clone(),
                duration_ms: self.track.duration_ms,
                path: clone_opt_text(&self.track.path),
                source: self.track.source,
                source_id: clone_opt_text(&self.track.source_id),
                track_number: self.track.track_number,
            };
            Step::Done(Ok(whole))
        } else {
            let request = Request::by_texts(
                Op::LinkTrackArtist,
                self.track.id.as_str(),
                self.stored[i].id.as_str(),
            );
            self.stage = AddTrackStage::Linking(i);
            Step::Ask(request)
        }
    }

    /// Resumes the operation with the reply to its last request.
    #[verifier::rlimit(40)]
    pub fn resume(&mut self, reply: Reply) -> (r: Step<Track>)
        ensures
            final(self)@ == old(self)@.resume(reply@).state,
            viewed_track_step(r) == old(self)@.resume(reply@).step,
    {
        let mut stage = AddTrackStage::Finished;
        core::mem::swap(&mut stage, &mut self.stage);
        match stage {
            AddTrackStage::Album(mut sub) => {
                match sub.resume(reply) {
                    Step::Ask(request) => {
                        self.stage = AddTrackStage::Album(sub);
                        Step::Ask(request)
                    },
                    Step::Done(Ok(album)) => {
                        self.album_id = album.id;
                        self.turn_to_artist(0)
                    },
                    Step::Done(Err(e)) => {
                        self.finish();
                        Step::Done(Err(e))
                    },
                }
            },
            AddTrackStage::Artist(i, mut sub) => {
                match sub.resume(reply) {
                    Step::Ask(request) => {
                        self.stage = AddTrackStage::Artist(i, sub);
                        Step::Ask(request)
                    },
                    Step::Done(Ok(stored)) => {
                        let ghost before = artist_views(self.stored@);
                        self.stored.push(stored);
                        assert(artist_views(self.stored@) =~= before.push(stored@));
                        // Past the last artist every place leads to the same turn.
                        let next = if i < self.track.artists.len() {
                            i + 1
                        } else {
                            i
                        };
                        self.turn_to_artist(next)
                    },
                    Step::Done(Err(e)) => {
                        self.finish();
                        Step::Done(Err(e))
                    },
                }
            },
            AddTrackStage::Inserting => {
                match expect_done(reply) {
                    Some(e) => {
                        self.finish();
                        Step::Done(Err(e))
                    },
                    None => self.turn_to_link(0),
                }
            },
            AddTrackStage::Linking(i) => {
                match expect_done(reply) {
                    Some(e) => {
                        self.finish();
                        Step::Done(Err(e))
                    },
                    None => {
                        let next = if i < self.stored.len() {
                            i + 1
                        } else {
                            i
                        };
                        self.turn_to_link(next)
                    },
                }
            },
            AddTrackStage::Finished => Step::Done(
                Err(LibraryError::Malformed(Malformation::UnexpectedReply)),
            ),
        }
    }
}

/// Adds tracks one after the other, in order. The first track that cannot
/// be added ends the operation with its error; the tracks before it stay
/// stored.
#[derive(Debug, PartialEq)]
pub struct AddTracks {
    pub tracks: Vec<Track>,
    /// Place of the track that is being added.
    pub next: usize,
    /// The adding of that track, while it goes on.
    pub sub: Option<AddTrack>,
    /// The tracks before it, as they were stored.
    pub added: Vec<Track>,
}

/// Mathematical value of an [`AddTracks`].
pub struct AddTracksView {
    pub tracks: Seq<TrackView>,
    pub next: nat,
    pub sub: Option<AddTrackView>,
    pub added: Seq<TrackView>,
}

/// Value of the adding of a track that may be going on.
pub open spec fn opt_add_track(o: Option<AddTrack>) -> Option<AddTrackView> {
    match o {
        Some(m) => Some(m@),
        None => None,
    }
}

impl View for AddTracks {
    type V = AddTracksView;

    open spec fn view(&self) -> AddTracksView {
        AddTracksView {
            tracks: track_views(self.tracks@),
            next: self.next as nat,
            sub: opt_add_track(self.sub),
            added: track_views(self.added@),
        }
    }
}

impl AddTracksView {
    /// The operation before its first turn.
    pub open spec fn initial(tracks: Seq<TrackView>) -> AddTracksView {
        AddTracksView { tracks, next: 0, sub: None, added: seq![] }
    }

    /// The operation as it starts: with its first turn taken.
    pub open spec fn start(tracks: Seq<TrackView>) -> Turn<AddTracksView, Seq<TrackView>> {
        AddTracksView::initial(tracks).turn_to_track()
    }

    /// The operation as it ends: with nothing left in it.
    pub open spec fn finish(self) -> AddTracksView {
        AddTracksView { tracks: seq![], next: 0, sub: None, added: seq![] }
    }

    /// Turns to the track at `next`: with no track left the tracks added are
    /// the result, else the track is added.
    pub open spec fn turn_to_track(self) -> Turn<AddTracksView, Seq<TrackView>> {
        if self.next >= self.tracks.len() {
            Turn { state: self.finish(), step: StepView::Done(Ok(self.added)) }
        } else {
            let sub = AddTrackView::start(self.tracks[self.next as int]);
            Turn {
                state: AddTracksView { sub: Some(sub), ..self },
                step: StepView::Ask(sub.first_request()),
            }
        }
    }

    /// The operation after a reply.
    pub open spec fn resume(self, reply: ReplyView) -> Turn<AddTracksView, Seq<TrackView>> {
        match self.sub {
            None => Turn {
                state: self,
                step: StepView::Done(Err(ErrorView::Malformed(Malformation::UnexpectedReply))),
            },
            Some(m) => {
                let t = m.resume(reply);
                match t.step {
                    StepView::Ask(r) => Turn {
                        state: AddTracksView { sub: Some(t.state), ..self },
                        step: StepView::Ask(r),
                    },
                    StepView::Done(Err(e)) => Turn {
                        state: self.finish(),
                        step: StepView::Done(Err(e)),
                    },
                    StepView::Done(Ok(track)) => AddTracksView {
                        next: self.next + 1,
                        sub: None,
                        added: self.added.push(track),
                        ..self
                    }.turn_to_track(),
                }
            },
        }
    }
}

impl AddTracks {
    /// Starts the operation. With no tracks it is done at once.
    pub fn start(tracks: Vec<Track>) -> (r: (AddTracks, Step<Vec<Track>>))
        ensures
            r.0@ == AddTracksView::start(track_views(tracks@)).state,
            viewed_tracks_step(r.1) == AddTracksView::start(track_views(tracks@)).step,
    {
        let mut machine = AddTracks { tracks, next: 0, sub: None, added: Vec::new() };
        assert(machine@.added =~= seq![]);
        let step = machine.turn_to_track();
        (machine, step)
    }

    fn finish(&mut self)
        ensures
            final(self)@ == old(self)@.finish(),
    {
        self.tracks = Vec::new();
        self.next = 0;
        self.sub = None;
        self.added = Vec::new();
        assert(self@.tracks =~= seq![]);
        assert(self@.added =~= seq![]);
    }

    fn turn_to_track(&mut self) -> (r: Step<Vec<Track>>)
        ensures
            final(self)@ == old(self)@.turn_to_track().state,
            viewed_tracks_step(r) == old(self)@.turn_to_track().step,
    {
        if self.next >= self.tracks.len() {
            let mut added: Vec<Track> = Vec::new();
            core::mem::swap(&mut added, &mut self.added);
            self.finish();
            Step::Done(Ok(added))
        } else {
            let (sub, request) = AddTrack::start(self.tracks[self.next].clone());
            self.sub = Some(sub);
            Step::Ask(request)
        }
    }

    /// Resumes the operation with the reply to its last request.
    #[verifier::rlimit(40)]
    pub fn resume(&mut self, reply: Reply) -> (r: Step<Vec<Track>>)
        ensures
            final(self)@ == old(self)@.resume(reply@).state,
            viewed_tracks_step(r) == old(self)@.resume(reply@).step,
    {
        match self.sub.take() {
            None => Step::Done(Err(LibraryError::Malformed(Malformation::UnexpectedReply))),
            Some(mut sub) => {
                match sub.resume(reply) {
                    Step::Ask(request) => {
                        self.sub = Some(sub);
                        Step::Ask(request)
                    },
                    Step::Done(Err(e)) => {
                        self.finish();
                        Step::Done(Err(e))
                    },
                    Step::Done(Ok(track)) => {
                        let ghost before = track_views(self.added@);
                        self.added.push(track);
                        assert(track_views(self.added@) =~= before.push(track@));
                        if self.next < self.tracks.len() {
                            self.next = self.next + 1;
                        }
                        self.turn_to_track()
                    },
                }
            },
        }
    }
}

/// What the library tells its observers.
#[derive(Debug, PartialEq)]
pub enum LibraryEvent {
    /// These tracks were added, in this order.
    TracksAdded(Vec<Track>),
}

/// Mathematical value of a [`LibraryEvent`].
pub enum LibraryEventView {
    TracksAdded(Seq<TrackView>),
}

impl View for LibraryEvent {
    type V = LibraryEventView;

    open spec fn view(&self) -> LibraryEventView {
        match self {
            LibraryEvent::TracksAdded(tracks) => LibraryEventView::TracksAdded(track_views(tracks@)),
        }
    }
}

/// Value of an optional event.
pub open spec fn opt_event(o: Option<LibraryEvent>) -> Option<LibraryEventView> {
    match o {
        Some(e) => Some(e@),
        None => None,
    }
}

impl LibraryEvent {
    /// The event to broadcast after tracks were to be added: the tracks that
    /// were added where the adding succeeded, and none where it failed.
    pub fn after_adding(result: &Result<Vec<Track>, LibraryError>) -> (r: Option<LibraryEvent>)
        ensures
            opt_event(r) == match *result {
                Ok(tracks) => Some(LibraryEventView::TracksAdded(track_views(tracks@))),
                Err(_) => None,
            },
    {
        match result {
            Ok(tracks) => Some(LibraryEvent::TracksAdded(clone_tracks(tracks))),
            Err(_) => None,
        }
    }

    /// The event to broadcast after one track was to be added.
    pub fn after_adding_one(result: &Result<Track, LibraryError>) -> (r: Option<LibraryEvent>)
        ensures
            opt_event(r) == match *result {
                Ok(track) => Some(LibraryEventView::TracksAdded(seq![track@])),
                Err(_) => None,
            },
    {
        match result {
            Ok(track) => {
                let mut tracks: Vec<Track> = Vec::new();
                tracks.push(track.clone());
                assert(track_views(tracks@) =~= seq![track@]);
                Some(LibraryEvent::TracksAdded(tracks))
            },
            Err(_) => None,
        }
    }
}

} // verus!
