//! Repository operations on artists.

use vstd::prelude::*;
use crate::library::protocol::{expect_done, expect_rows, refusal_of, rows_of, Step, StepView};
use crate::library::request::{Op, Reply, ReplyView, Request, RequestView};
use crate::library::rows::{artist_of_row, read_artist};
use crate::library::value::{row_views, value_views, ErrorView, LibraryError, Value, ValueView};
use crate::model::{artist_views, Artist, ArtistView};

verus! {

/// The artists in the rows of a reply, in order; the first row that cannot
/// be read decides.
pub open spec fn artists_of_rows(rows: Seq<Seq<ValueView>>) -> Result<Seq<ArtistView>, ErrorView>
    decreases rows.len(),
{
    if rows.len() == 0 {
        Ok(seq![])
    } else {
        match artists_of_rows(rows.drop_last()) {
            Ok(front) => match artist_of_row(rows.last()) {
                Ok(a) => Ok(front.push(a)),
                Err(m) => Err(ErrorView::Malformed(m)),
            },
            Err(e) => Err(e),
        }
    }
}

/// The artist in the first row of a reply, if there is a row.
pub open spec fn first_artist_of_rows(rows: Seq<Seq<ValueView>>) -> Result<
    Option<ArtistView>,
    ErrorView,
> {
    if rows.len() == 0 {
        Ok(None)
    } else {
        match artist_of_row(rows[0]) {
            Ok(a) => Ok(Some(a)),
            Err(m) => Err(ErrorView::Malformed(m)),
        }
    }
}

/// Value of a result that holds artists.
pub open spec fn viewed_artists(r: Result<Vec<Artist>, LibraryError>) -> Result<
    Seq<ArtistView>,
    ErrorView,
> {
    match r {
        Ok(v) => Ok(artist_views(v@)),
        Err(e) => Err(e@),
    }
}

/// Value of a result that holds an optional artist.
pub open spec fn viewed_opt_artist(r: Result<Option<Artist>, LibraryError>) -> Result<
    Option<ArtistView>,
    ErrorView,
> {
    match r {
        Ok(Some(a)) => Ok(Some(a@)),
        Ok(None) => Ok(None),
        Err(e) => Err(e@),
    }
}

/// Value of a result that holds an artist.
pub open spec fn viewed_artist(r: Result<Artist, LibraryError>) -> Result<ArtistView, ErrorView> {
    match r {
        Ok(a) => Ok(a@),
        Err(e) => Err(e@),
    }
}

/// Reads the artists in the rows of a reply.
pub fn read_artists(rows: &Vec<Vec<Value>>) -> (r: Result<Vec<Artist>, LibraryError>)
    ensures
        viewed_artists(r) == artists_of_rows(row_views(rows@)),
{
    let ghost all = row_views(rows@);
    let mut out: Vec<Artist> = Vec::new();
    let mut i: usize = 0;
    assert(all.take(0) =~= seq![]);
    assert(artist_views(out@) =~= seq![]);
    while i < rows.len()
        invariant
            i <= rows.len(),
            all == row_views(rows@),
            artists_of_rows(all.take(i as int)) == Ok::<Seq<ArtistView>, ErrorView>(
                artist_views(out@),
            ),
        decreases rows.len() - i,
    {
        proof {
            assert(all.take(i + 1).drop_last() =~= all.take(i as int));
            assert(all.take(i + 1).last() == value_views(rows@[i as int]@));
        }
        let ghost before = artist_views(out@);
        match read_artist(&rows[i]) {
            Ok(a) => {
                out.push(a);
                assert(artist_views(out@) =~= before.push(a@));
            },
            Err(m) => {
                proof {
                    lemma_artists_error_stays(all, i + 1);
                }
                return Err(LibraryError::Malformed(m));
            },
        }
        i += 1;
    }
    assert(all.take(i as int) =~= all);
    Ok(out)
}

/// Once a row cannot be read, the rows after it do not matter.
pub proof fn lemma_artists_error_stays(rows: Seq<Seq<ValueView>>, n: int)
    requires
        0 <= n <= rows.len(),
        artists_of_rows(rows.take(n)) is Err,
    ensures
        artists_of_rows(rows) == artists_of_rows(rows.take(n)),
    decreases rows.len() - n,
{
    if n < rows.len() {
        assert(rows.take(n + 1).drop_last() =~= rows.take(n));
        lemma_artists_error_stays(rows, n + 1);
    } else {
        assert(rows.take(n) =~= rows);
    }
}

/// Reads the artist in the first row of a reply, if there is a row.
pub fn read_first_artist(rows: &Vec<Vec<Value>>) -> (r: Result<Option<Artist>, LibraryError>)
    ensures
        viewed_opt_artist(r) == first_artist_of_rows(row_views(rows@)),
{
    if rows.len() == 0 {
        Ok(None)
    } else {
        match read_artist(&rows[0]) {
            Ok(a) => Ok(Some(a)),
            Err(m) => Err(LibraryError::Malformed(m)),
        }
    }
}

/// How far the adding of an artist has come.
#[derive(Debug, PartialEq, Eq, Structural, Clone, Copy)]
pub enum AddArtistStage {
    /// The artist's name is being looked up.
    Looking,
    /// The artist is being stored.
    Inserting,
    Finished,
}

/// Adds an artist unless one of the same name is stored: then that one is
/// the result, as it is stored.
#[derive(Debug, PartialEq)]
pub struct AddArtist {
    pub artist: Artist,
    pub stage: AddArtistStage,
}

/// Mathematical value of an [`AddArtist`].
pub struct AddArtistView {
    pub artist: ArtistView,
    pub stage: AddArtistStage,
}

impl View for AddArtist {
    type V = AddArtistView;

    open spec fn view(&self) -> AddArtistView {
        AddArtistView { artist: self.artist@, stage: self.stage }
    }
}

/// A state of an operation together with what it wants next.
pub struct Turn<S, V> {
    pub state: S,
    pub step: StepView<V>,
}

impl AddArtistView {
    /// The operation as it starts.
    pub open spec fn start(artist: ArtistView) -> AddArtistView {
        AddArtistView { artist, stage: AddArtistStage::Looking }
    }

    /// The first request: for the artists of that name.
    pub open spec fn first_request(self) -> RequestView {
        RequestView::by_text(Op::FindArtistByName, self.artist.name)
    }

    /// The operation after a reply.
    pub open spec fn resume(self, reply: ReplyView) -> Turn<AddArtistView, ArtistView> {
        let finished = AddArtistView { stage: AddArtistStage::Finished, ..self };
        match self.stage {
            AddArtistStage::Looking => match rows_of(reply) {
                Ok(rows) => match first_artist_of_rows(rows) {
                    Ok(Some(stored)) => Turn { state: finished, step: StepView::Done(Ok(stored)) },
                    Ok(None) => Turn {
                        state: AddArtistView { stage: AddArtistStage::Inserting, ..self },
                        step: StepView::Ask(RequestView::insert_artist(self.artist)),
                    },
                    Err(e) => Turn { state: finished, step: StepView::Done(Err(e)) },
                },
                Err(e) => Turn { state: finished, step: StepView::Done(Err(e)) },
            },
            AddArtistStage::Inserting => match refusal_of(reply) {
                None => Turn { state: finished, step: StepView::Done(Ok(self.artist)) },
                Some(e) => Turn { state: finished, step: StepView::Done(Err(e)) },
            },
            AddArtistStage::Finished => Turn {
                state: self,
                step: StepView::Done(
                    Err(ErrorView::Malformed(crate::library::value::Malformation::UnexpectedReply)),
                ),
            },
        }
    }
}

/// Value of a step that ends with an artist.
pub open spec fn viewed_artist_step(step: Step<Artist>) -> StepView<ArtistView> {
    match step {
        Step::Ask(r) => StepView::Ask(r@),
        Step::Done(r) => StepView::Done(viewed_artist(r)),
    }
}

impl AddArtist {
    /// Starts the operation; the request is the first to send.
    pub fn start(artist: Artist) -> (r: (AddArtist, Request))
        ensures
            r.0@ == AddArtistView::start(artist@),
            r.1@ == r.0@.first_request(),
    {
        let request = Request::by_text(Op::FindArtistByName, artist.name.as_str());
        (AddArtist { artist, stage: AddArtistStage::Looking }, request)
    }

    /// Resumes the operation with the reply to its last request.
    pub fn resume(&mut self, reply: Reply) -> (r: Step<Artist>)
        ensures
            final(self)@ == old(self)@.resume(reply@).state,
            viewed_artist_step(r) == old(self)@.resume(reply@).step,
    {
        match self.stage {
            AddArtistStage::Looking => {
                let found = match expect_rows(reply) {
                    Ok(rows) => read_first_artist(&rows),
                    Err(e) => Err(e),
                };
                match found {
                    Ok(Some(stored)) => {
                        self.stage = AddArtistStage::Finished;
                        Step::Done(Ok(stored))
                    },
                    Ok(None) => {
                        self.stage = AddArtistStage::Inserting;
                        Step::Ask(Request::insert_artist(&self.artist))
                    },
                    Err(e) => {
                        self.stage = AddArtistStage::Finished;
                        Step::Done(Err(e))
                    },
                }
            },
            AddArtistStage::Inserting => {
                self.stage = AddArtistStage::Finished;
                match expect_done(reply) {
                    None => Step::Done(Ok(self.artist.clone())),
                    Some(e) => Step::Done(Err(e)),
                }
            },
            AddArtistStage::Finished => Step::Done(
                Err(LibraryError::Malformed(crate::library::value::Malformation::UnexpectedReply)),
            ),
        }
    }
}

/// Value of a step that ends with artists.
pub open spec fn viewed_artists_step(step: Step<Vec<Artist>>) -> StepView<Seq<ArtistView>> {
    match step {
        Step::Ask(r) => StepView::Ask(r@),
        Step::Done(r) => StepView::Done(viewed_artists(r)),
    }
}

/// The artists that a reply to a query for artists holds: all of them, or,
/// where only the first row counts, the one of the first row.
pub open spec fn artists_of_reply(reply: ReplyView, first_only: bool) -> Result<
    Seq<ArtistView>,
    ErrorView,
> {
    match rows_of(reply) {
        Err(e) => Err(e),
        Ok(rows) => if first_only {
            match first_artist_of_rows(rows) {
                Ok(Some(a)) => Ok(seq![a]),
                Ok(None) => Ok(seq![]),
                Err(e) => Err(e),
            }
        } else {
            artists_of_rows(rows)
        },
    }
}

/// Fetches artists by one query.
#[derive(Debug, PartialEq)]
pub struct FetchArtists {
    /// Whether only the first row counts.
    pub first_only: bool,
    pub finished: bool,
}

impl FetchArtists {
    /// Starts the operation with a request for rows of artists.
    pub fn start(request: Request, first_only: bool) -> (r: (FetchArtists, Request))
        ensures
            r.0.first_only == first_only,
            !r.0.finished,
            r.1 == request,
    {
        (FetchArtists { first_only, finished: false }, request)
    }

    /// Resumes the operation with the reply to its request: it is then
    /// done.
    pub fn resume(&mut self, reply: Reply) -> (r: Step<Vec<Artist>>)
        ensures
            final(self).finished,
            final(self).first_only == old(self).first_only,
            viewed_artists_step(r) == StepView::Done(
                if old(self).finished {
                    Err(ErrorView::Malformed(crate::library::value::Malformation::UnexpectedReply))
                } else {
                    artists_of_reply(reply@, old(self).first_only)
                },
            ),
    {
        if self.finished {
            return Step::Done(
                Err(LibraryError::Malformed(crate::library::value::Malformation::UnexpectedReply)),
            );
        }
        self.finished = true;
        let rows = match expect_rows(reply) {
            Ok(rows) => rows,
            Err(e) => {
                return Step::Done(Err(e));
            },
        };
        if self.first_only {
            match read_first_artist(&rows) {
                Ok(Some(a)) => {
                    let mut out: Vec<Artist> = Vec::new();
                    out.push(a);
                    assert(artist_views(out@) =~= seq![a@]);
                    Step::Done(Ok(out))
                },
                Ok(None) => {
                    let out: Vec<Artist> = Vec::new();
                    assert(artist_views(out@) =~= seq![]);
                    Step::Done(Ok(out))
                },
                Err(e) => Step::Done(Err(e)),
            }
        } else {
            Step::Done(read_artists(&rows))
        }
    }
}

} // verus!
