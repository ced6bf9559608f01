//! Repository operations on playlists.

use vstd::prelude::*;
use crate::library::artists::Turn;
use crate::library::protocol::{expect_done, expect_rows, rows_of, Step, StepView};
use crate::library::request::{Op, Reply, ReplyView, Request, RequestView};
use crate::library::rows::{playlist_of_row, position_of_rows, read_playlist, read_position};
use crate::library::tracks::{FetchTracks, FetchTracksView};
use crate::library::value::{row_views, ErrorView, LibraryError, Malformation, Value, ValueView};
use crate::model::{Playlist, PlaylistView};

verus! {

/// Values of a sequence of playlists, in order.
pub open spec fn playlist_views(s: Seq<Playlist>) -> Seq<PlaylistView> {
    s.map_values(|p: Playlist| p@)
}

/// Value of a step that ends with playlists.
pub open spec fn viewed_playlists_step(step: Step<Vec<Playlist>>) -> StepView<Seq<PlaylistView>> {
    match step {
        Step::Ask(r) => StepView::Ask(r@),
        Step::Done(Ok(v)) => StepView::Done(Ok(playlist_views(v@))),
        Step::Done(Err(e)) => StepView::Done(Err(e@)),
    }
}

/// How far the fetching of playlists has come.
#[derive(Debug, PartialEq)]
pub enum FetchPlaylistsStage {
    /// The rows of the playlists are awaited.
    Primary,
    /// The tracks of the playlist in the row at `next` are being fetched.
    Tracks(FetchTracks),
    Finished,
}

/// Mathematical value of a [`FetchPlaylistsStage`].
pub enum FetchPlaylistsStageView {
    Primary,
    Tracks(FetchTracksView),
    Finished,
}

impl View for FetchPlaylistsStage {
    type V = FetchPlaylistsStageView;

    open spec fn view(&self) -> FetchPlaylistsStageView {
        match self {
            FetchPlaylistsStage::Primary => FetchPlaylistsStageView::Primary,
            FetchPlaylistsStage::Tracks(f) => FetchPlaylistsStageView::Tracks(f@),
            FetchPlaylistsStage::Finished => FetchPlaylistsStageView::Finished,
        }
    }
}

/// Fetches playlists: the rows of a query for playlists, and for each row,
/// in order, the playlist's tracks by position.
#[derive(Debug, PartialEq)]
pub struct FetchPlaylists {
    /// Whether only the first row counts.
    pub first_only: bool,
    pub stage: FetchPlaylistsStage,
    pub rows: Vec<Vec<Value>>,
    /// Place of the row that is being worked on.
    pub next: usize,
    /// The playlist of that row, while its tracks are fetched.
    pub pending: Option<Playlist>,
    /// The playlists of the rows before it.
    pub found: Vec<Playlist>,
}

/// Mathematical value of a [`FetchPlaylists`].
pub struct FetchPlaylistsView {
    pub first_only: bool,
    pub stage: FetchPlaylistsStageView,
    pub rows: Seq<Seq<ValueView>>,
    pub next: nat,
    pub pending: Option<PlaylistView>,
    pub found: Seq<PlaylistView>,
}

/// Value of an optional playlist.
pub open spec fn opt_playlist(o: Option<Playlist>) -> Option<PlaylistView> {
    match o {
        Some(p) => Some(p@),
        None => None,
    }
}

impl View for FetchPlaylists {
    type V = FetchPlaylistsView;

    open spec fn view(&self) -> FetchPlaylistsView {
        FetchPlaylistsView {
            first_only: self.first_only,
            stage: self.stage@,
            rows: row_views(self.rows@),
            next: self.next as nat,
            pending: opt_playlist(self.pending),
            found: playlist_views(self.found@),
        }
    }
}

impl FetchPlaylistsView {
    /// The operation as it starts.
    pub open spec fn start(first_only: bool) -> FetchPlaylistsView {
        FetchPlaylistsView {
            first_only,
            stage: FetchPlaylistsStageView::Primary,
            rows: seq![],
            next: 0,
            pending: None,
            found: seq![],
        }
    }

    /// The operation as it ends: with nothing left in it.
    pub open spec fn finish(self) -> FetchPlaylistsView {
        FetchPlaylistsView {
            stage: FetchPlaylistsStageView::Finished,
            rows: seq![],
            next: 0,
            pending: None,
            found: seq![],
            ..self
        }
    }

    /// The operation ends with an error.
    pub open spec fn fail(self, e: ErrorView) -> Turn<FetchPlaylistsView, Seq<PlaylistView>> {
        Turn { state: self.finish(), step: StepView::Done(Err(e)) }
    }

    /// Turns to the row at `next`: with no row left the playlists found are
    /// the result, else the row is read and the playlist's tracks are asked
    /// for.
    pub open spec fn turn_to_row(self) -> Turn<FetchPlaylistsView, Seq<PlaylistView>> {
        if self.next >= self.rows.len() {
            Turn { state: self.finish(), step: StepView::Done(Ok(self.found)) }
        } else {
            match playlist_of_row(self.rows[self.next as int]) {
                Ok(playlist) => Turn {
                    state: FetchPlaylistsView {
                        stage: FetchPlaylistsStageView::Tracks(FetchTracksView::start(false)),
                        pending: Some(playlist),
                        ..self
                    },
                    step: StepView::Ask(RequestView::by_text(Op::PlaylistTracks, playlist.id)),
                },
                Err(m) => self.fail(ErrorView::Malformed(m)),
            }
        }
    }

    /// The operation after a reply.
    pub open spec fn resume(self, reply: ReplyView) -> Turn<FetchPlaylistsView, Seq<PlaylistView>> {
        match self.stage {
            FetchPlaylistsStageView::Finished => Turn {
                state: self,
                step: StepView::Done(Err(ErrorView::Malformed(Malformation::UnexpectedReply))),
            },
            FetchPlaylistsStageView::Primary => match rows_of(reply) {
                Err(e) => self.fail(e),
                Ok(rows) => FetchPlaylistsView {
                    rows: if self.first_only {
                        rows.take(if rows.len() > 0 { 1 } else { 0 })
                    } else {
                        rows
                    },
                    next: 0,
                    ..self
                }.turn_to_row(),
            },
            FetchPlaylistsStageView::Tracks(f) => {
                let t = f.resume(reply);
                match t.step {
                    StepView::Ask(r) => Turn {
                        state: FetchPlaylistsView {
                            stage: FetchPlaylistsStageView::Tracks(t.state),
                            ..self
                        },
                        step: StepView::Ask(r),
                    },
                    StepView::Done(Err(e)) => self.fail(e),
                    StepView::Done(Ok(tracks)) => match self.pending {
                        None => self.fail(ErrorView::Malformed(Malformation::UnexpectedReply)),
                        Some(playlist) => FetchPlaylistsView {
                            stage: FetchPlaylistsStageView::Primary,
                            next: self.next + 1,
                            pending: None,
                            found: self.found.push(PlaylistView { tracks, ..playlist }),
                            ..self
                        }.turn_to_row(),
                    },
                }
            },
        }
    }
}

impl FetchPlaylists {
    /// Starts the operation with a request for rows of playlists;
    /// `first_only` tells whether only the first row counts.
    pub fn start(request: Request, first_only: bool) -> (r: (FetchPlaylists, Request))
        ensures
            r.0@ == FetchPlaylistsView::start(first_only),
            r.1 == request,
    {
        let machine = FetchPlaylists {
            first_only,
            stage: FetchPlaylistsStage::Primary,
            rows: Vec::new(),
            next: 0,
            pending: None,
            found: Vec::new(),
        };
        assert(machine@.rows =~= seq![]);
        assert(machine@.found =~= seq![]);
        (machine, request)
    }

    fn finish(&mut self)
        ensures
            final(self)@ == old(self)@.finish(),
    {
        self.stage = FetchPlaylistsStage::Finished;
        self.rows = Vec::new();
        self.next = 0;
        assert(self@.rows =~= seq![]);
        self.pending = None;
        self.found = Vec::new();
        assert(self@.found =~= seq![]);
    }

    fn turn_to_row(&mut self) -> (r: Step<Vec<Playlist>>)
        ensures
            final(self)@ == old(self)@.turn_to_row().state,
            viewed_playlists_step(r) == old(self)@.turn_to_row().step,
    {
        if self.next >= self.rows.len() {
            let mut found: Vec<Playlist> = Vec::new();
            core::mem::swap(&mut found, &mut self.found);
            self.finish();
            Step::Done(Ok(found))
        } else {
            match read_playlist(&self.rows[self.next]) {
                Ok(playlist) => {
                    let request = Request::by_text(Op::PlaylistTracks, playlist.id.as_str());
                    let (sub, request) = FetchTracks::start(request, false);
                    self.stage = FetchPlaylistsStage::Tracks(sub);
                    self.pending = Some(playlist);
                    Step::Ask(request)
                },
                Err(m) => {
                    self.finish();
                    Step::Done(Err(LibraryError::Malformed(m)))
                },
            }
        }
    }

    /// Resumes the operation with the reply to its last request.
    #[verifier::rlimit(40)]
    pub fn resume(&mut self, reply: Reply) -> (r: Step<Vec<Playlist>>)
        ensures
            final(self)@ == old(self)@.resume(reply@).state,
            viewed_playlists_step(r) == old(self)@.resume(reply@).step,
    {
        let mut stage = FetchPlaylistsStage::Finished;
        core::mem::swap(&mut stage, &mut self.stage);
        match stage {
            FetchPlaylistsStage::Finished => Step::Done(
                Err(LibraryError::Malformed(Malformation::UnexpectedReply)),
            ),
            FetchPlaylistsStage::Primary => {
                match expect_rows(reply) {
                    Err(e) => {
                        self.finish();
                        Step::Done(Err(e))
                    },
                    Ok(rows) => {
                        let mut rows = rows;
                        if self.first_only && rows.len() > 1 {
                            rows.truncate(1);
                        }
                        proof {
                            let all = rows_of(reply@)->Ok_0;
                            if self.first_only {
                                assert(row_views(rows@) =~= all.take(
                                    if all.len() > 0 {
                                        1int
                                    } else {
                                        0int
                                    },
                                ));
                            }
                        }
                        self.rows = rows;
                        self.next = 0;
                        self.stage = FetchPlaylistsStage::Primary;
                        self.turn_to_row()
                    },
                }
            },
            FetchPlaylistsStage::Tracks(mut sub) => {
                match sub.resume(reply) {
                    Step::Ask(request) => {
                        self.stage = FetchPlaylistsStage::Tracks(sub);
                        Step::Ask(request)
                    },
                    Step::Done(Err(e)) => {
                        self.finish();
                        Step::Done(Err(e))
                    },
                    Step::Done(Ok(tracks)) => {
                        match self.pending.take() {
                            None => {
                                self.finish();
                                Step::Done(
                                    Err(LibraryError::Malformed(Malformation::UnexpectedReply)),
                                )
                            },
                            Some(playlist) => {
                                let ghost before = playlist_views(self.found@);
                                let whole = Playlist { tracks, ..playlist };
                                self.found.push(whole);
                                assert(playlist_views(self.found@) =~= before.push(whole@));
                                if self.next < self.rows.len() {
                                    self.next = self.next + 1;
                                }
                                self.stage = FetchPlaylistsStage::Primary;
                                self.turn_to_row()
                            },
                        }
                    },
                }
            },
        }
    }
}

/// How far the putting of a track into a playlist has come.
#[derive(Debug, PartialEq, Eq, Structural, Clone, Copy)]
pub enum AddToPlaylistStage {
    /// The position after the playlist's last one is awaited.
    Position,
    /// The track is being put at that position.
    Linking,
    Finished,
}

/// Puts a track at the end of a playlist: after the last position, or at
/// position 1 in an empty playlist. A track that is in the playlist already
/// stays where it is.
#[derive(Debug, PartialEq)]
pub struct AddToPlaylist {
    pub playlist_id: String,
    pub track_id: String,
    pub stage: AddToPlaylistStage,
}

/// Mathematical value of an [`AddToPlaylist`].
pub struct AddToPlaylistView {
    pub playlist_id: Seq<char>,
    pub track_id: Seq<char>,
    pub stage: AddToPlaylistStage,
}

impl View for AddToPlaylist {
    type V = AddToPlaylistView;

    open spec fn view(&self) -> AddToPlaylistView {
        AddToPlaylistView {
            playlist_id: self.playlist_id@,
            track_id: self.track_id@,
            stage: self.stage,
        }
    }
}

impl AddToPlaylistView {
    /// The operation as it starts.
    pub open spec fn start(playlist_id: Seq<char>, track_id: Seq<char>) -> AddToPlaylistView {
        AddToPlaylistView { playlist_id, track_id, stage: AddToPlaylistStage::Position }
    }

    /// The first request: for the next position of the playlist.
    pub open spec fn first_request(self) -> RequestView {
        RequestView::by_text(Op::NextPosition, self.playlist_id)
    }

    /// The operation after a reply.
    pub open spec fn resume(self, reply: ReplyView) -> Turn<AddToPlaylistView, ()> {
        let finished = AddToPlaylistView { stage: AddToPlaylistStage::Finished, ..self };
        match self.stage {
            AddToPlaylistStage::Position => match rows_of(reply) {
                Ok(rows) => Turn {
                    state: AddToPlaylistView { stage: AddToPlaylistStage::Linking, ..self },
                    step: StepView::Ask(
                        RequestView::link_playlist_track(
                            self.playlist_id,
                            self.track_id,
                            position_of_rows(rows),
                        ),
                    ),
                },
                Err(e) => Turn { state: finished, step: StepView::Done(Err(e)) },
            },
            AddToPlaylistStage::Linking => Turn {
                state: finished,
                step: StepView::Done(crate::library::protocol::written(reply)),
            },
            AddToPlaylistStage::Finished => Turn {
                state: self,
                step: StepView::Done(Err(ErrorView::Malformed(Malformation::UnexpectedReply))),
            },
        }
    }
}

impl AddToPlaylist {
    /// Starts the operation; the request is the first to send.
    pub fn start(playlist_id: String, track_id: String) -> (r: (AddToPlaylist, Request))
        ensures
            r.0@ == AddToPlaylistView::start(playlist_id@, track_id@),
            r.1@ == r.0@.first_request(),
    {
        let request = Request::by_text(Op::NextPosition, playlist_id.as_str());
        (AddToPlaylist { playlist_id, track_id, stage: AddToPlaylistStage::Position }, request)
    }

    /// Resumes the operation with the reply to its last request.
    pub fn resume(&mut self, reply: Reply) -> (r: Step<()>)
        ensures
            final(self)@ == old(self)@.resume(reply@).state,
            crate::library::protocol::viewed_unit_step(r) == old(self)@.resume(reply@).step,
    {
        match self.stage {
            AddToPlaylistStage::Position => {
                match expect_rows(reply) {
                    Ok(rows) => {
                        let position = read_position(&rows);
                        self.stage = AddToPlaylistStage::Linking;
                        Step::Ask(
                            Request::link_playlist_track(
                                self.playlist_id.as_str(),
                                self.track_id.as_str(),
                                position,
                            ),
                        )
                    },
                    Err(e) => {
                        self.stage = AddToPlaylistStage::Finished;
                        Step::Done(Err(e))
                    },
                }
            },
            AddToPlaylistStage::Linking => {
                self.stage = AddToPlaylistStage::Finished;
                match expect_done(reply) {
                    None => Step::Done(Ok(())),
                    Some(e) => Step::Done(Err(e)),
                }
            },
            AddToPlaylistStage::Finished => Step::Done(
                Err(LibraryError::Malformed(Malformation::UnexpectedReply)),
            ),
        }
    }
}

} // verus!
