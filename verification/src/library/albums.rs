//! Repository operations on albums.

use vstd::prelude::*;
use crate::library::artists::{artists_of_rows, read_artists, AddArtist, AddArtistView, Turn};
use crate::library::protocol::{expect_done, expect_rows, refusal_of, rows_of, Step, StepView};
use crate::library::request::{Op, Reply, ReplyView, Request, RequestView};
use crate::library::rows::{album_of_row, read_album};
use crate::library::value::{row_views, ErrorView, LibraryError, Malformation, Value, ValueView};
use crate::model::{Album, AlbumView, Artist};

verus! {

/// Values of a sequence of albums, in order.
pub open spec fn album_views(s: Seq<Album>) -> Seq<AlbumView> {
    s.map_values(|a: Album| a@)
}

/// Value of a result that holds albums.
pub open spec fn viewed_albums(r: Result<Vec<Album>, LibraryError>) -> Result<
    Seq<AlbumView>,
    ErrorView,
> {
    match r {
        Ok(v) => Ok(album_views(v@)),
        Err(e) => Err(e@),
    }
}

/// Value of a step that ends with albums.
pub open spec fn viewed_albums_step(step: Step<Vec<Album>>) -> StepView<Seq<AlbumView>> {
    match step {
        Step::Ask(r) => StepView::Ask(r@),
        Step::Done(r) => StepView::Done(viewed_albums(r)),
    }
}

/// Value of a step that ends with an album.
pub open spec fn viewed_album_step(step: Step<Album>) -> StepView<AlbumView> {
    match step {
        Step::Ask(r) => StepView::Ask(r@),
        Step::Done(Ok(a)) => StepView::Done(Ok(a@)),
        Step::Done(Err(e)) => StepView::Done(Err(e@)),
    }
}

/// How far the fetching of albums has come.
#[derive(Debug, PartialEq, Eq, Structural, Clone, Copy)]
pub enum FetchStage {
    /// The rows of the albums are awaited.
    Primary,
    /// The artists of the album in the row at `next` are awaited.
    Related,
    Finished,
}

/// Fetches albums: the rows of a query for albums, and for each row, in
/// order, the album's artists by a query of its own.
#[derive(Debug, PartialEq)]
pub struct FetchAlbums {
    /// Whether only the first row counts.
    pub first_only: bool,
    pub stage: FetchStage,
    pub rows: Vec<Vec<Value>>,
    /// Place of the row that is being worked on.
    pub next: usize,
    /// The album of that row, while its artists are awaited.
    pub pending: Option<Album>,
    /// The albums of the rows before it.
    pub found: Vec<Album>,
}

/// Mathematical value of a [`FetchAlbums`].
pub struct FetchAlbumsView {
    pub first_only: bool,
    pub stage: FetchStage,
    pub rows: Seq<Seq<ValueView>>,
    pub next: nat,
    pub pending: Option<AlbumView>,
    pub found: Seq<AlbumView>,
}

/// Value of an optional album.
pub open spec fn opt_album(o: Option<Album>) -> Option<AlbumView> {
    match o {
        Some(a) => Some(a@),
        None => None,
    }
}

impl View for FetchAlbums {
    type V = FetchAlbumsView;

    open spec fn view(&self) -> FetchAlbumsView {
        FetchAlbumsView {
            first_only: self.first_only,
            stage: self.stage,
            rows: row_views(self.rows@),
            next: self.next as nat,
            pending: opt_album(self.pending),
            found: album_views(self.found@),
        }
    }
}

impl FetchAlbumsView {
    /// The operation as it starts.
    pub open spec fn start(first_only: bool) -> FetchAlbumsView {
        FetchAlbumsView {
            first_only,
            stage: FetchStage::Primary,
            rows: seq![],
            next: 0,
            pending: None,
            found: seq![],
        }
    }

    /// The operation as it ends: with nothing left in it.
    pub open spec fn finish(self) -> FetchAlbumsView {
        FetchAlbumsView {
            stage: FetchStage::Finished,
            rows: seq![],
            next: 0,
            pending: None,
            found: seq![],
            ..self
        }
    }

    /// Turns to the row at `next`: with no row left the albums found are the
    /// result, else the row is read and its artists are asked for.
    pub open spec fn turn_to_row(self) -> Turn<FetchAlbumsView, Seq<AlbumView>> {
        if self.next >= self.rows.len() {
            Turn { state: self.finish(), step: StepView::Done(Ok(self.found)) }
        } else {
            match album_of_row(self.rows[self.next as int]) {
                Ok(album) => Turn {
                    state: FetchAlbumsView {
                        stage: FetchStage::Related,
                        pending: Some(album),
                        ..self
                    },
                    step: StepView::Ask(RequestView::by_text(Op::AlbumArtists, album.id)),
                },
                Err(m) => Turn {
                    state: self.finish(),
                    step: StepView::Done(Err(ErrorView::Malformed(m))),
                },
            }
        }
    }

    /// The operation after a reply.
    pub open spec fn resume(self, reply: ReplyView) -> Turn<FetchAlbumsView, Seq<AlbumView>> {
        match (self.stage, rows_of(reply)) {
            (FetchStage::Finished, _) => Turn {
                state: self,
                step: StepView::Done(Err(ErrorView::Malformed(Malformation::UnexpectedReply))),
            },
            (_, Err(e)) => Turn { state: self.finish(), step: StepView::Done(Err(e)) },
            (FetchStage::Primary, Ok(rows)) => FetchAlbumsView {
                rows: if self.first_only {
                    rows.take(if rows.len() > 0 { 1 } else { 0 })
                } else {
                    rows
                },
                next: 0,
                ..self
            }.turn_to_row(),
            (FetchStage::Related, Ok(rows)) => match (self.pending, artists_of_rows(rows)) {
                (Some(album), Ok(artists)) => FetchAlbumsView {
                    next: self.next + 1,
                    pending: None,
                    found: self.found.push(AlbumView { artists, ..album }),
                    ..self
                }.turn_to_row(),
                (_, Err(e)) => Turn { state: self.finish(), step: StepView::Done(Err(e)) },
                (None, _) => Turn {
                    state: self.finish(),
                    step: StepView::Done(Err(ErrorView::Malformed(Malformation::UnexpectedReply))),
                },
            },
        }
    }
}

impl FetchAlbums {
    /// Starts the operation with a request for rows of albums; `first_only`
    /// tells whether only the first row counts.
    pub fn start(request: Request, first_only: bool) -> (r: (FetchAlbums, Request))
        ensures
            r.0@ == FetchAlbumsView::start(first_only),
            r.1 == request,
    {
        let machine = FetchAlbums {
            first_only,
            stage: FetchStage::Primary,
            rows: Vec::new(),
            next: 0,
            pending: None,
            found: Vec::new(),
        };
        assert(machine@.rows =~= seq![]);
        assert(machine@.found =~= seq![]);
        (machine, request)
    }

    fn finish(&mut self)
        ensures
            final(self)@ == old(self)@.finish(),
    {
        self.stage = FetchStage::Finished;
        self.rows = Vec::new();
        self.next = 0;
        self.pending = None;
        self.found = Vec::new();
        assert(self@.rows =~= seq![]);
        assert(self@.found =~= seq![]);
    }

    fn turn_to_row(&mut self) -> (r: Step<Vec<Album>>)
        ensures
            final(self)@ == old(self)@.turn_to_row().state,
            viewed_albums_step(r) == old(self)@.turn_to_row().step,
    {
        if self.next >= self.rows.len() {
            let mut found: Vec<Album> = Vec::new();
            core::mem::swap(&mut found, &mut self.found);
            self.finish();
            Step::Done(Ok(found))
        } else {
            match read_album(&self.rows[self.next]) {
                Ok(album) => {
                    let request = Request::by_text(Op::AlbumArtists, album.id.as_str());
                    self.stage = FetchStage::Related;
                    self.pending = Some(album);
                    Step::Ask(request)
                },
                Err(m) => {
                    self.finish();
                    Step::Done(Err(LibraryError::Malformed(m)))
                },
            }
        }
    }

    /// Resumes the operation with the reply to its last request.
    #[verifier::rlimit(40)]
    pub fn resume(&mut self, reply: Reply) -> (r: Step<Vec<Album>>)
        ensures
            final(self)@ == old(self)@.resume(reply@).state,
            viewed_albums_step(r) == old(self)@.resume(reply@).step,
    {
        if self.stage == FetchStage::Finished {
            return Step::Done(Err(LibraryError::Malformed(Malformation::UnexpectedReply)));
        }
        let rows = match expect_rows(reply) {
            Ok(rows) => rows,
            Err(e) => {
                self.finish();
                return Step::Done(Err(e));
            },
        };
        match self.stage {
            FetchStage::Primary => {
                let mut rows = rows;
                if self.first_only && rows.len() > 1 {
                    rows.truncate(1);
                }
                proof {
                    let all = rows_of(reply@)->Ok_0;
                    if self.first_only {
                        assert(row_views(rows@) =~= all.take(
                            if all.len() > 0 {
                                1int
                            } else {
                                0int
                            },
                        ));
                    }
                }
                self.rows = rows;
                self.next = 0;
                self.turn_to_row()
            },
            _ => {
                let artists = match read_artists(&rows) {
                    Ok(artists) => artists,
                    Err(e) => {
                        self.finish();
                        return Step::Done(Err(e));
                    },
                };
                match self.pending.take() {
                    Some(album) => {
                        let ghost before = album_views(self.found@);
                        let whole = Album { artists, ..album };
                        self.found.push(whole);
                        assert(album_views(self.found@) =~= before.push(whole@));
                        if self.next < self.rows.len() {
                            self.next = self.next + 1;
                        }
                        self.turn_to_row()
                    },
                    None => {
                        self.finish();
                        Step::Done(Err(LibraryError::Malformed(Malformation::UnexpectedReply)))
                    },
                }
            },
        }
    }
}

/// How far the adding of an album has come.
#[derive(Debug, PartialEq)]
pub enum AddAlbumStage {
    /// The album's title is being looked up.
    Looking(FetchAlbums),
    /// The album is being stored.
    Inserting,
    /// The artist at this place of the album's list is being added.
    Artist(usize, AddArtist),
    /// The artist at this place is being named as an artist of the album.
    Linking(usize),
    Finished,
}

/// Mathematical value of an [`AddAlbumStage`].
pub enum AddAlbumStageView {
    Looking(FetchAlbumsView),
    Inserting,
    Artist(nat, AddArtistView),
    Linking(nat),
    Finished,
}

impl View for AddAlbumStage {
    type V = AddAlbumStageView;

    open spec fn view(&self) -> AddAlbumStageView {
        match self {
            AddAlbumStage::Looking(f) => AddAlbumStageView::Looking(f@),
            AddAlbumStage::Inserting => AddAlbumStageView::Inserting,
            AddAlbumStage::Artist(i, a) => AddAlbumStageView::Artist(*i as nat, a@),
            AddAlbumStage::Linking(i) => AddAlbumStageView::Linking(*i as nat),
            AddAlbumStage::Finished => AddAlbumStageView::Finished,
        }
    }
}

/// Adds an album unless one of the same title is stored: then that one is
/// the result, as it is stored, and nothing is written. Else the album is
/// stored, and after it each of its artists is added and named as an artist
/// of the album, in the order of the album's list. The writes are not one
/// transaction: what was written before a failure stays.
#[derive(Debug, PartialEq)]
pub struct AddAlbum {
    pub album: Album,
    pub stage: AddAlbumStage,
}

/// Mathematical value of an [`AddAlbum`].
pub struct AddAlbumView {
    pub album: AlbumView,
    pub stage: AddAlbumStageView,
}

impl View for AddAlbum {
    type V = AddAlbumView;

    open spec fn view(&self) -> AddAlbumView {
        AddAlbumView { album: self.album@, stage: self.stage@ }
    }
}

impl AddAlbumView {
    /// The operation as it starts.
    pub open spec fn start(album: AlbumView) -> AddAlbumView {
        AddAlbumView { album, stage: AddAlbumStageView::Looking(FetchAlbumsView::start(true)) }
    }

    /// The first request: for the albums of that title.
    pub open spec fn first_request(self) -> RequestView {
        RequestView::by_text(Op::FindAlbumByTitle, self.album.title)
    }

    /// The operation as it ends.
    pub open spec fn finish(self) -> AddAlbumView {
        AddAlbumView { stage: AddAlbumStageView::Finished, ..self }
    }

    /// The operation ends with an error.
    pub open spec fn fail(self, e: ErrorView) -> Turn<AddAlbumView, AlbumView> {
        Turn { state: self.finish(), step: StepView::Done(Err(e)) }
    }

    /// Turns to the artist at place `i`: with no artist left the album is
    /// the result, else the artist is added.
    pub open spec fn turn_to_artist(self, i: nat) -> Turn<AddAlbumView, AlbumView> {
        if i >= self.album.artists.len() {
            Turn { state: self.finish(), step: StepView::Done(Ok(self.album)) }
        } else {
            let sub = AddArtistView::start(self.album.artists[i as int]);
            Turn {
                state: AddAlbumView { stage: AddAlbumStageView::Artist(i, sub), ..self },
                step: StepView::Ask(sub.first_request()),
            }
        }
    }

    /// The operation after a reply.
    pub open spec fn resume(self, reply: ReplyView) -> Turn<AddAlbumView, AlbumView> {
        match self.stage {
            AddAlbumStageView::Looking(f) => {
                let t = f.resume(reply);
                match t.step {
                    StepView::Ask(r) => Turn {
                        state: AddAlbumView { stage: AddAlbumStageView::Looking(t.state), ..self },
                        step: StepView::Ask(r),
                    },
                    StepView::Done(Ok(found)) => if found.len() > 0 {
                        Turn { state: self.finish(), step: StepView::Done(Ok(found[0])) }
                    } else {
                        Turn {
                            state: AddAlbumView { stage: AddAlbumStageView::Inserting, ..self },
                            step: StepView::Ask(RequestView::insert_album(self.album)),
                        }
                    },
                    StepView::Done(Err(e)) => self.fail(e),
                }
            },
            AddAlbumStageView::Inserting => match refusal_of(reply) {
                Some(e) => self.fail(e),
                None => self.turn_to_artist(0),
            },
            AddAlbumStageView::Artist(i, sub) => {
                let t = sub.resume(reply);
                match t.step {
                    StepView::Ask(r) => Turn {
                        state: AddAlbumView {
                            stage: AddAlbumStageView::Artist(i, t.state),
                            ..self
                        },
                        step: StepView::Ask(r),
                    },
                    StepView::Done(Ok(stored)) => Turn {
                        state: AddAlbumView { stage: AddAlbumStageView::Linking(i), ..self },
                        step: StepView::Ask(
                            RequestView::by_texts(Op::LinkAlbumArtist, self.album.id, stored.id),
                        ),
                    },
                    StepView::Done(Err(e)) => self.fail(e),
                }
            },
            AddAlbumStageView::Linking(i) => match refusal_of(reply) {
                Some(e) => self.fail(e),
                None => self.turn_to_artist(i + 1),
            },
            AddAlbumStageView::Finished => Turn {
                state: self,
                step: StepView::Done(Err(ErrorView::Malformed(Malformation::UnexpectedReply))),
            },
        }
    }
}

impl AddAlbum {
    /// Starts the operation; the request is the first to send.
    pub fn start(album: Album) -> (r: (AddAlbum, Request))
        ensures
            r.0@ == AddAlbumView::start(album@),
            r.1@ == r.0@.first_request(),
    {
        let request = Request::by_text(Op::FindAlbumByTitle, album.title.as_str());
        let (lookup, request) = FetchAlbums::start(request, true);
        (AddAlbum { album, stage: AddAlbumStage::Looking(lookup) }, request)
    }

    fn turn_to_artist(&mut self, i: usize) -> (r: Step<Album>)
        ensures
            final(self)@ == old(self)@.turn_to_artist(i as nat).state,
            viewed_album_step(r) == old(self)@.turn_to_artist(i as nat).step,
    {
        if i >= self.album.artists.len() {
            self.stage = AddAlbumStage::Finished;
            Step::Done(Ok(self.album.clone()))
        } else {
            let (sub, request) = AddArtist::start(self.album.artists[i].clone());
            self.stage = AddAlbumStage::Artist(i, sub);
            Step::Ask(request)
        }
    }

    /// Resumes the operation with the reply to its last request.
    #[verifier::rlimit(40)]
    pub fn resume(&mut self, reply: Reply) -> (r: Step<Album>)
        ensures
            final(self)@ == old(self)@.resume(reply@).state,
            viewed_album_step(r) == old(self)@.resume(reply@).step,
    {
        let mut stage = AddAlbumStage::Finished;
        core::mem::swap(&mut stage, &mut self.stage);
        match stage {
            AddAlbumStage::Looking(mut lookup) => {
                match lookup.resume(reply) {
                    Step::Ask(request) => {
                        self.stage = AddAlbumStage::Looking(lookup);
                        Step::Ask(request)
                    },
                    Step::Done(Ok(mut found)) => {
                        if found.len() > 0 {
                            Step::Done(Ok(found.remove(0)))
                        } else {
                            self.stage = AddAlbumStage::Inserting;
                            Step::Ask(Request::insert_album(&self.album))
                        }
                    },
                    Step::Done(Err(e)) => Step::Done(Err(e)),
                }
            },
            AddAlbumStage::Inserting => {
                match expect_done(reply) {
                    Some(e) => Step::Done(Err(e)),
                    None => self.turn_to_artist(0),
                }
            },
            AddAlbumStage::Artist(i, mut sub) => {
                match sub.resume(reply) {
                    Step::Ask(request) => {
                        self.stage = AddAlbumStage::Artist(i, sub);
                        Step::Ask(request)
                    },
                    Step::Done(Ok(stored)) => {
                        self.stage = AddAlbumStage::Linking(i);
                        Step::Ask(
                            Request::by_texts(
                                Op::LinkAlbumArtist,
                                self.album.id.as_str(),
                                stored.id.as_str(),
                            ),
                        )
                    },
                    Step::Done(Err(e)) => Step::Done(Err(e)),
                }
            },
            AddAlbumStage::Linking(i) => {
                match expect_done(reply) {
                    Some(e) => Step::Done(Err(e)),
                    None => {
                        // Past the last artist every place ends the operation alike.
                        let next = if i < self.album.artists.len() {
                            i + 1
                        } else {
                            i
                        };
                        self.turn_to_artist(next)
                    },
                }
            },
            AddAlbumStage::Finished => Step::Done(
                Err(LibraryError::Malformed(Malformation::UnexpectedReply)),
            ),
        }
    }
}

} // verus!
