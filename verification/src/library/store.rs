//! A model of the database, as far as the adding of artists, albums and
//! tracks goes.
//!
//! The model says what the repository takes the database to do with the
//! requests it sends: a table is a sequence of rows in the order in which
//! they were stored, the first column of a row is its key, and a query finds
//! the rows of a table that hold a given value in a given column. What is
//! proved of the repository against the model holds of a database that
//! behaves like it.

use vstd::prelude::*;
use crate::library::artists::Turn;
use crate::library::protocol::StepView;
use crate::library::request::{Op, ReplyView, RequestView};
use crate::library::value::{ErrorView, ValueView};

verus! {

/// A table: its rows, in the order in which they were stored.
pub type Table = Seq<Seq<ValueView>>;

/// What the database holds.
pub struct Tables {
    /// Rows of identifier and name.
    pub artists: Table,
    /// Rows of identifier, title, year and cover.
    pub albums: Table,
    /// Rows of identifier, title, album, duration, path, source, remote
    /// identifier and number.
    pub tracks: Table,
    /// Rows of album and artist.
    pub album_artists: Table,
    /// Rows of track and artist.
    pub track_artists: Table,
}

/// The words in which the database refuses a row whose key is taken.
pub open spec fn refusal() -> Seq<char> {
    "UNIQUE constraint failed"@
}

/// Whether some row of the table holds `value` in column `column`.
pub open spec fn holds(table: Table, column: int, value: ValueView) -> bool {
    exists|i: int| 0 <= i < table.len() && #[trigger] row_has(table[i], column, value)
}

/// Whether the row holds `value` in column `column`.
pub open spec fn row_has(row: Seq<ValueView>, column: int, value: ValueView) -> bool {
    0 <= column < row.len() && row[column] == value
}

/// The test whether a row holds `value` in column `column`.
pub open spec fn matcher(column: int, value: ValueView) -> spec_fn(Seq<ValueView>) -> bool {
    |row: Seq<ValueView>| row_has(row, column, value)
}

/// The rows of the table that hold `value` in column `column`, in order.
pub open spec fn select(table: Table, column: int, value: ValueView) -> Table {
    table.filter(matcher(column, value))
}

/// Whether the table holds this very row.
pub open spec fn has_row(table: Table, row: Seq<ValueView>) -> bool {
    exists|i: int| 0 <= i < table.len() && #[trigger] table[i] == row
}

/// Whether some row of `links` holds `value` in column `mine` and the key
/// of `row` in column `theirs`.
pub open spec fn is_linked(
    row: Seq<ValueView>,
    links: Table,
    mine: int,
    theirs: int,
    value: ValueView,
) -> bool {
    row.len() > 0 && exists|i: int|
        0 <= i < links.len() && row_has(#[trigger] links[i], mine, value) && row_has(
            links[i],
            theirs,
            row[0],
        )
}

/// The test [`is_linked`] for given links.
pub open spec fn linker(links: Table, mine: int, theirs: int, value: ValueView) -> spec_fn(
    Seq<ValueView>,
) -> bool {
    |row: Seq<ValueView>| is_linked(row, links, mine, theirs, value)
}

/// The rows of `table` whose key stands in column `theirs` of a row of
/// `links` that holds `value` in column `mine`, in the order of `table`.
pub open spec fn joined_rows(
    table: Table,
    links: Table,
    mine: int,
    theirs: int,
    value: ValueView,
) -> Table {
    table.filter(linker(links, mine, theirs, value))
}

/// A table and the reply to the request that led to it.
pub struct Answer {
    pub tables: Tables,
    pub reply: ReplyView,
}

/// Whether the model says what the database does with a request of this
/// kind.
pub open spec fn modelled(op: Op) -> bool {
    match op {
        Op::InsertArtist
        | Op::FindArtistById
        | Op::FindArtistByName
        | Op::InsertAlbum
        | Op::FindAlbumById
        | Op::FindAlbumByTitle
        | Op::LinkAlbumArtist
        | Op::AlbumArtists
        | Op::InsertTrack
        | Op::FindTrackById
        | Op::LinkTrackArtist
        | Op::TrackArtists => true,
        _ => false,
    }
}

impl Tables {
    /// The database with nothing stored.
    pub open spec fn empty() -> Tables {
        Tables {
            artists: seq![],
            albums: seq![],
            tracks: seq![],
            album_artists: seq![],
            track_artists: seq![],
        }
    }

    /// Stores a row under its key: refused where the row has no key or the
    /// key is taken.
    pub open spec fn stored(table: Table, row: Seq<ValueView>) -> Option<Table> {
        if row.len() == 0 || holds(table, 0, row[0]) {
            None
        } else {
            Some(table.push(row))
        }
    }

    /// Stores a row unless the table holds it.
    pub open spec fn linked(table: Table, row: Seq<ValueView>) -> Table {
        if has_row(table, row) {
            table
        } else {
            table.push(row)
        }
    }

    /// The reply to a query that finds `rows`.
    pub open spec fn found(self, rows: Table) -> Answer {
        Answer { tables: self, reply: ReplyView::Rows(rows) }
    }

    /// The reply to a write that leaves `tables`.
    pub open spec fn written(tables: Tables) -> Answer {
        Answer { tables, reply: ReplyView::Done }
    }

    /// The reply to a write that the database refuses.
    pub open spec fn refused(self) -> Answer {
        Answer { tables: self, reply: ReplyView::Failed(refusal()) }
    }

    /// What the database does with a request: what it holds after it, and
    /// what it replies.
    pub open spec fn answer(self, request: RequestView) -> Answer
        recommends
            modelled(request.op),
    {
        let args = request.args;
        let first = if args.len() > 0 { args[0] } else { ValueView::Null };
        match request.op {
            Op::InsertArtist => match Tables::stored(self.artists, args) {
                Some(artists) => Tables::written(Tables { artists, ..self }),
                None => self.refused(),
            },
            Op::FindArtistById => self.found(select(self.artists, 0, first)),
            Op::FindArtistByName => self.found(select(self.artists, 1, first)),
            Op::InsertAlbum => match Tables::stored(self.albums, args) {
                Some(albums) => Tables::written(Tables { albums, ..self }),
                None => self.refused(),
            },
            Op::FindAlbumById => self.found(select(self.albums, 0, first)),
            Op::FindAlbumByTitle => self.found(select(self.albums, 1, first)),
            Op::LinkAlbumArtist => Tables::written(
                Tables { album_artists: Tables::linked(self.album_artists, args), ..self },
            ),
            Op::AlbumArtists => self.found(
                joined_rows(self.artists, self.album_artists, 0, 1, first),
            ),
            Op::InsertTrack => match Tables::stored(self.tracks, args) {
                Some(tracks) => Tables::written(Tables { tracks, ..self }),
                None => self.refused(),
            },
            Op::FindTrackById => self.found(select(self.tracks, 0, first)),
            Op::LinkTrackArtist => Tables::written(
                Tables { track_artists: Tables::linked(self.track_artists, args), ..self },
            ),
            Op::TrackArtists => self.found(
                joined_rows(self.artists, self.track_artists, 0, 1, first),
            ),
            _ => Answer { tables: self, reply: ReplyView::Closed },
        }
    }

    /// The replies to requests that are served one by one in the order in
    /// which they were sent, each on what the ones before it left.
    pub open spec fn serve(self, requests: Seq<RequestView>) -> Seq<ReplyView>
        decreases requests.len(),
    {
        if requests.len() == 0 {
            seq![]
        } else {
            seq![self.answer(requests[0]).reply] + self.answer(requests[0]).tables.serve(
                requests.drop_first(),
            )
        }
    }

    /// What the database holds after requests were served in order.
    pub open spec fn after(self, requests: Seq<RequestView>) -> Tables
        decreases requests.len(),
    {
        if requests.len() == 0 {
            self
        } else {
            self.answer(requests[0]).tables.after(requests.drop_first())
        }
    }
}

/// What running an operation against the database comes to.
pub struct Run<V> {
    /// What the database holds afterwards.
    pub tables: Tables,
    /// The operation's result; none where it was not done within the
    /// requests allowed.
    pub result: Option<Result<V, ErrorView>>,
}

/// Runs an operation against the database: sends its request, resumes it
/// with the reply, and so on until it is done or `fuel` requests were sent.
pub open spec fn drive<S, V>(
    resume: spec_fn(S, ReplyView) -> Turn<S, V>,
    state: S,
    request: RequestView,
    tables: Tables,
    fuel: nat,
) -> Run<V>
    decreases fuel,
{
    if fuel == 0 {
        Run { tables, result: None }
    } else {
        let answer = tables.answer(request);
        let turn = resume(state, answer.reply);
        match turn.step {
            StepView::Ask(next) => drive(resume, turn.state, next, answer.tables, (fuel - 1) as nat),
            StepView::Done(result) => Run { tables: answer.tables, result: Some(result) },
        }
    }
}

} // verus!
