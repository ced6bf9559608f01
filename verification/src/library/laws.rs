//! What holds of the repository's operations when they run against the
//! model of the database.

use vstd::prelude::*;
use crate::library::albums::{AddAlbumStageView, AddAlbumView};
use crate::library::artists::{artists_of_rows, AddArtistStage, AddArtistView, Turn};
use crate::library::protocol::StepView;
use crate::library::request::{Op, ReplyView, RequestView};
use crate::library::rows::{album_of_row, artist_of_row, track_of_row, TrackRowView};
use crate::library::store::{
    drive, has_row, holds, joined_rows, linker, matcher, refusal, row_has, select, Run, Table,
    Tables,
};
use crate::library::value::{ErrorView, ValueView};
use crate::model::{lowercase, AlbumView, ArtistView, TrackSource, TrackView};

verus! {

/// No two rows of the table hold the same value in column `column`.
pub open spec fn unique(table: Table, column: int) -> bool {
    forall|i: int, j: int|
        0 <= i < table.len() && 0 <= j < table.len() && i != j && 0 <= column
            < table[i].len() ==> !row_has(#[trigger] table[j], column, #[trigger] table[i][column])
}

/// Exactly one row of the table holds `value` in column `column`.
pub open spec fn exactly_one(table: Table, column: int, value: ValueView) -> bool {
    exists|i: int|
        0 <= i < table.len() && #[trigger] row_has(table[i], column, value) && forall|j: int|
            0 <= j < table.len() && j != i ==> !#[trigger] row_has(table[j], column, value)
}

impl Tables {
    /// Every row of an artist or an album can be read, and no key is taken
    /// twice.
    pub open spec fn sound(self) -> bool {
        &&& forall|i: int| 0 <= i < self.artists.len() ==> artist_of_row(#[trigger] self.artists[i]) is Ok
        &&& forall|i: int| 0 <= i < self.albums.len() ==> album_of_row(#[trigger] self.albums[i]) is Ok
        &&& unique(self.artists, 0)
        &&& unique(self.albums, 0)
        &&& unique(self.tracks, 0)
    }

    /// No two artists have the same name, and no two albums the same title:
    /// so it is where artists and albums were only ever added by the
    /// repository.
    pub open spec fn canonical(self) -> bool {
        &&& unique(self.artists, 1)
        &&& unique(self.albums, 1)
    }
}

/// A query finds rows exactly where the table holds the value, and each row
/// it finds is a row of the table that holds the value.
pub proof fn lemma_select(table: Table, column: int, value: ValueView)
    ensures
        holds(table, column, value) <==> select(table, column, value).len() > 0,
        forall|k: int|
            0 <= k < select(table, column, value).len() ==> row_has(
                #[trigger] select(table, column, value)[k],
                column,
                value,
            ) && has_row(table, select(table, column, value)[k]),
{
    let pick = matcher(column, value);
    let found = select(table, column, value);
    assert forall|k: int| 0 <= k < found.len() implies row_has(#[trigger] found[k], column, value)
        && has_row(table, found[k]) by {
        table.lemma_filter_pred(pick, k);
        assert(found.contains(found[k]));
        table.lemma_filter_contains_rev(pick, found[k]);
        let i = choose|i: int| 0 <= i < table.len() && table[i] == found[k];
        assert(table[i] == found[k]);
    }
    if holds(table, column, value) {
        let i = choose|i: int| 0 <= i < table.len() && #[trigger] row_has(table[i], column, value);
        table.lemma_filter_contains(pick, i);
    }
    if found.len() > 0 {
        let i = choose|i: int| 0 <= i < table.len() && #[trigger] table[i] == found[0];
        assert(row_has(table[i], column, value));
    }
}

/// The way in which the adding of an artist resumes.
pub open spec fn add_artist_resume() -> spec_fn(AddArtistView, ReplyView) -> Turn<
    AddArtistView,
    ArtistView,
> {
    |s: AddArtistView, reply: ReplyView| s.resume(reply)
}

/// The adding of an artist, run against the database: it takes two requests
/// at most.
pub open spec fn add_artist(tables: Tables, artist: ArtistView) -> Run<ArtistView> {
    drive(
        add_artist_resume(),
        AddArtistView::start(artist),
        AddArtistView::start(artist).first_request(),
        tables,
        2,
    )
}

/// Adding an artist is idempotent. It always comes to an end. Where it
/// succeeds, exactly one artist of that name is stored, and adding an artist
/// of the same name again yields the same artist and changes nothing. It
/// fails only where no artist of that name is stored and the new artist's
/// identifier is taken, and then nothing is changed.
#[verifier::rlimit(40)]
pub proof fn law_add_artist_idempotent(tables: Tables, first: ArtistView, second: ArtistView)
    requires
        tables.sound(),
        tables.canonical(),
        first.name == second.name,
    ensures
        ({
            let one = add_artist(tables, first);
            let two = add_artist(one.tables, second);
            &&& one.result is Some
            &&& one.tables.sound()
            &&& one.tables.canonical()
            &&& one.result matches Some(Ok(stored)) ==> {
                &&& stored.name == first.name
                &&& exactly_one(one.tables.artists, 1, ValueView::Text(first.name))
                &&& two.result == Some(Ok::<ArtistView, ErrorView>(stored))
                &&& two.tables == one.tables
            }
            &&& one.result matches Some(Err(e)) ==> {
                &&& e == ErrorView::Storage(refusal())
                &&& one.tables == tables
                &&& holds(tables.artists, 0, ValueView::Text(first.id))
                &&& !holds(tables.artists, 1, ValueView::Text(first.name))
            }
        }),
{
    reveal_with_fuel(drive, 3);
    let name = ValueView::Text(first.name);
    lemma_select(tables.artists, 1, name);
    let one = add_artist(tables, first);
    let rows = select(tables.artists, 1, name);
    if holds(tables.artists, 1, name) {
        let i = choose|i: int| 0 <= i < tables.artists.len() && #[trigger] tables.artists[i] == rows[0];
        assert(artist_of_row(tables.artists[i]) is Ok);
        assert(one.tables == tables);
        assert(row_has(tables.artists[i], 1, name));
    } else {
        let row = RequestView::insert_artist(first).args;
        assert(row =~= seq![ValueView::Text(first.id), name]);
        if !holds(tables.artists, 0, ValueView::Text(first.id)) {
            let after = tables.artists.push(row);
            assert(one.tables.artists == after);
            assert(artist_of_row(row) == Ok::<ArtistView, crate::library::value::Malformation>(first));
            assert forall|k: int| 0 <= k < after.len() implies artist_of_row(
                #[trigger] after[k],
            ) is Ok by {
                if k < tables.artists.len() {
                    assert(after[k] == tables.artists[k]);
                }
            }
            assert(unique(after, 0)) by {
                assert forall|a: int, b: int|
                    0 <= a < after.len() && 0 <= b < after.len() && a != b && 0 < after[a].len() implies !row_has(
                    #[trigger] after[b],
                    0,
                    #[trigger] after[a][0],
                ) by {
                    lemma_unique_push(tables.artists, row, 0, a, b);
                }
            }
            assert(unique(after, 1)) by {
                assert forall|a: int, b: int|
                    0 <= a < after.len() && 0 <= b < after.len() && a != b && 1 < after[a].len() implies !row_has(
                    #[trigger] after[b],
                    1,
                    #[trigger] after[a][1],
                ) by {
                    lemma_unique_push(tables.artists, row, 1, a, b);
                }
            }
            let last = tables.artists.len() as int;
            assert(row_has(after[last], 1, name));
            assert forall|j: int| 0 <= j < after.len() && j != last implies !#[trigger] row_has(
                after[j],
                1,
                name,
            ) by {
                assert(after[j] == tables.artists[j]);
                assert(row_has(tables.artists[j], 1, name) ==> holds(tables.artists, 1, name));
            }
            lemma_select(after, 1, name);
            let again = select(after, 1, name);
            assert(holds(after, 1, name));
            let k = choose|k: int| 0 <= k < after.len() && #[trigger] after[k] == again[0];
            assert(row_has(after[k], 1, name));
            assert(k == last);
        }
    }
}

/// A row that holds in a column a value that no row of the table holds
/// there keeps the column free of twins when it is stored.
pub proof fn lemma_unique_push(table: Table, row: Seq<ValueView>, column: int, a: int, b: int)
    requires
        unique(table, column),
        0 <= column < row.len() ==> !holds(table, column, row[column]),
        0 <= a <= table.len(),
        0 <= b <= table.len(),
        a != b,
        0 <= column < table.push(row)[a].len(),
    ensures
        !row_has(table.push(row)[b], column, table.push(row)[a][column]),
{
    let after = table.push(row);
    if a < table.len() && b < table.len() {
        assert(after[a] == table[a]);
        assert(after[b] == table[b]);
    } else if a == table.len() {
        assert(after[b] == table[b]);
        assert(row_has(table[b], column, row[column]) ==> holds(table, column, row[column]));
    } else {
        assert(after[a] == table[a]);
        if row_has(row, column, table[a][column]) {
            assert(row_has(table[a], column, row[column]));
        }
    }
}

/// Rows that can be read one by one can be read as a list.
pub proof fn lemma_artists_readable(rows: Table)
    requires
        forall|k: int| 0 <= k < rows.len() ==> artist_of_row(#[trigger] rows[k]) is Ok,
    ensures
        artists_of_rows(rows) is Ok,
    decreases rows.len(),
{
    if rows.len() > 0 {
        let front = rows.drop_last();
        assert forall|k: int| 0 <= k < front.len() implies artist_of_row(#[trigger] front[k]) is Ok by {
            assert(front[k] == rows[k]);
        }
        lemma_artists_readable(front);
        assert(rows.last() == rows[rows.len() - 1]);
    }
}

/// The artists that a row of links names can be read where the artists'
/// table can.
pub proof fn lemma_joined_readable(tables: Tables, links: Table, value: ValueView)
    requires
        tables.sound(),
    ensures
        artists_of_rows(joined_rows(tables.artists, links, 0, 1, value)) is Ok,
{
    let pick = linker(links, 0, 1, value);
    let found = joined_rows(tables.artists, links, 0, 1, value);
    assert forall|k: int| 0 <= k < found.len() implies artist_of_row(#[trigger] found[k]) is Ok by {
        assert(found.contains(found[k]));
        tables.artists.lemma_filter_contains_rev(pick, found[k]);
        let i = choose|i: int| 0 <= i < tables.artists.len() && tables.artists[i] == found[k];
        assert(artist_of_row(tables.artists[i]) is Ok);
    }
    lemma_artists_readable(found);
}

/// The way in which the adding of an album resumes.
pub open spec fn add_album_resume() -> spec_fn(AddAlbumView, ReplyView) -> Turn<
    AddAlbumView,
    AlbumView,
> {
    |s: AddAlbumView, reply: ReplyView| s.resume(reply)
}

/// The adding of an album, run against the database with at most `fuel`
/// requests.
pub open spec fn add_album(tables: Tables, album: AlbumView, fuel: nat) -> Run<AlbumView> {
    drive(
        add_album_resume(),
        AddAlbumView::start(album),
        AddAlbumView::start(album).first_request(),
        tables,
        fuel,
    )
}

/// Whether the adding of an album is at its artists, about to send
/// `request`.
pub open spec fn at_artists(m: AddAlbumView, request: RequestView) -> bool {
    match m.stage {
        AddAlbumStageView::Artist(_, sub) => match sub.stage {
            AddArtistStage::Looking => request == sub.first_request(),
            AddArtistStage::Inserting => request == RequestView::insert_artist(sub.artist),
            AddArtistStage::Finished => false,
        },
        AddAlbumStageView::Linking(_) => request.op == Op::LinkAlbumArtist,
        _ => false,
    }
}

/// Once an album is stored, the adding of its artists leaves the albums and
/// the tracks as they are and the database sound, and where it succeeds the
/// result is the album that was to be added.
#[verifier::rlimit(40)]
pub proof fn lemma_artists_of_album(m: AddAlbumView, request: RequestView, tables: Tables, fuel: nat)
    requires
        tables.sound(),
        at_artists(m, request),
    ensures
        ({
            let run = drive(add_album_resume(), m, request, tables, fuel);
            &&& run.tables.albums == tables.albums
            &&& run.tables.tracks == tables.tracks
            &&& run.tables.sound()
            &&& run.result matches Some(Ok(album)) ==> album == m.album
        }),
    decreases fuel,
{
    reveal_with_fuel(drive, 2);
    if fuel > 0 {
        let answer = tables.answer(request);
        let turn = m.resume(answer.reply);
        match m.stage {
            AddAlbumStageView::Artist(i, sub) => {
                match sub.stage {
                    AddArtistStage::Looking => {
                        assert(answer.tables == tables);
                    },
                    _ => {
                        let row = request.args;
                        assert(row =~= seq![
                            ValueView::Text(sub.artist.id),
                            ValueView::Text(sub.artist.name),
                        ]);
                        if !holds(tables.artists, 0, row[0]) {
                            let after = tables.artists.push(row);
                            assert(answer.tables.artists == after);
                            assert(artist_of_row(row) is Ok);
                            assert forall|k: int| 0 <= k < after.len() implies artist_of_row(
                                #[trigger] after[k],
                            ) is Ok by {
                                if k < tables.artists.len() {
                                    assert(after[k] == tables.artists[k]);
                                }
                            }
                            assert(unique(after, 0)) by {
                                assert forall|a: int, b: int|
                                    0 <= a < after.len() && 0 <= b < after.len() && a != b && 0
                                        < after[a].len() implies !row_has(
                                    #[trigger] after[b],
                                    0,
                                    #[trigger] after[a][0],
                                ) by {
                                    lemma_unique_push(tables.artists, row, 0, a, b);
                                }
                            }
                        }
                    },
                }
            },
            _ => {},
        }
        assert(answer.tables.sound());
        match turn.step {
            StepView::Ask(next) => {
                assert(at_artists(turn.state, next));
                assert(turn.state.album == m.album);
                lemma_artists_of_album(turn.state, next, answer.tables, (fuel - 1) as nat);
            },
            StepView::Done(_) => {},
        }
    }
}

/// How many requests the adding of an album may still send at most, once it
/// is at its artists.
pub open spec fn requests_left(m: AddAlbumView) -> nat {
    let n = m.album.artists.len();
    match m.stage {
        AddAlbumStageView::Artist(i, sub) => {
            let artists = if i < n { (n - i) as nat } else { 1 };
            if sub.stage == AddArtistStage::Inserting {
                (3 * artists - 1) as nat
            } else {
                3 * artists
            }
        },
        AddAlbumStageView::Linking(i) => {
            let artists = if i < n { (n - i) as nat } else { 1 };
            (3 * artists - 2) as nat
        },
        _ => 0,
    }
}

/// The adding of an album's artists comes to an end within the requests that
/// are left to it, whatever the database holds.
#[verifier::rlimit(40)]
pub proof fn lemma_artists_finish(m: AddAlbumView, request: RequestView, tables: Tables, fuel: nat)
    requires
        at_artists(m, request),
        fuel >= requests_left(m),
    ensures
        drive(add_album_resume(), m, request, tables, fuel).result is Some,
    decreases fuel,
{
    reveal_with_fuel(drive, 2);
    let answer = tables.answer(request);
    let turn = m.resume(answer.reply);
    match turn.step {
        StepView::Ask(next) => {
            assert(at_artists(turn.state, next));
            assert(requests_left(turn.state) < requests_left(m));
            lemma_artists_finish(turn.state, next, answer.tables, (fuel - 1) as nat);
        },
        StepView::Done(_) => {},
    }
}

/// Adding an album always comes to an end: within two requests, and three
/// more for each of its artists.
#[verifier::rlimit(40)]
pub proof fn law_add_album_finishes(tables: Tables, album: AlbumView)
    ensures
        add_album(tables, album, 2 + 3 * album.artists.len()).result is Some,
{
    reveal_with_fuel(drive, 3);
    let fuel = 2 + 3 * album.artists.len();
    let start = AddAlbumView::start(album);
    let first = tables.answer(start.first_request());
    let turn = start.resume(first.reply);
    match turn.step {
        StepView::Ask(asked) => {
            let second = first.tables.answer(asked);
            let then = turn.state.resume(second.reply);
            match then.step {
                StepView::Ask(next) => {
                    assert(at_artists(then.state, next));
                    lemma_artists_finish(then.state, next, second.tables, (fuel - 2) as nat);
                },
                StepView::Done(_) => {},
            }
        },
        StepView::Done(_) => {},
    }
}

/// Adding an album is idempotent. Where it succeeds, exactly one album of
/// that title is stored, and adding an album of the same title again yields
/// the album of the same identifier, title, year and cover, and changes
/// nothing.
#[verifier::rlimit(40)]
pub proof fn law_add_album_idempotent(
    tables: Tables,
    first: AlbumView,
    second: AlbumView,
    fuel: nat,
)
    requires
        tables.sound(),
        tables.canonical(),
        first.title == second.title,
    ensures
        ({
            let one = add_album(tables, first, fuel);
            let two = add_album(one.tables, second, 2);
            one.result matches Some(Ok(stored)) ==> {
                &&& stored.title == first.title
                &&& one.tables.sound()
                &&& exactly_one(one.tables.albums, 1, ValueView::Text(first.title))
                &&& two.tables == one.tables
                &&& two.result matches Some(Ok(again)) && stored == (AlbumView {
                    artists: stored.artists,
                    ..again
                })
            }
        }),
{
    reveal_with_fuel(drive, 3);
    let title = ValueView::Text(first.title);
    let one = add_album(tables, first, fuel);
    lemma_select(tables.albums, 1, title);
    let rows = select(tables.albums, 1, title);
    if one.result matches Some(Ok(stored)) {
        if holds(tables.albums, 1, title) {
            lemma_found_album(tables, first.title);
            lemma_found_album(tables, second.title);
            assert(fuel >= 2);
            let i = choose|i: int| 0 <= i < tables.albums.len() && #[trigger] tables.albums[i] == rows[0];
            assert(row_has(tables.albums[i], 1, title));
        } else {
            assert(rows.take(0) =~= seq![]);
            let row = RequestView::insert_album(first).args;
            let after = tables.albums.push(row);
            let stored_tables = Tables { albums: after, ..tables };
            assert(fuel >= 2);
            assert(!holds(tables.albums, 0, row[0]));
            assert(album_of_row(row) == Ok::<AlbumView, crate::library::value::Malformation>(
                AlbumView { artists: seq![], ..first },
            )) by {
                match first.release_year {
                    Some(n) => {
                        assert((n as i64) as i32 == n);
                    },
                    None => {},
                }
            }
            assert forall|k: int| 0 <= k < after.len() implies album_of_row(#[trigger] after[k]) is Ok by {
                if k < tables.albums.len() {
                    assert(after[k] == tables.albums[k]);
                }
            }
            assert(unique(after, 0)) by {
                assert forall|a: int, b: int|
                    0 <= a < after.len() && 0 <= b < after.len() && a != b && 0 < after[a].len() implies !row_has(
                    #[trigger] after[b],
                    0,
                    #[trigger] after[a][0],
                ) by {
                    lemma_unique_push(tables.albums, row, 0, a, b);
                }
            }
            assert(stored_tables.sound());
            let last = tables.albums.len() as int;
            assert(row_has(after[last], 1, title));
            assert forall|j: int| 0 <= j < after.len() && j != last implies !#[trigger] row_has(
                after[j],
                1,
                title,
            ) by {
                assert(after[j] == tables.albums[j]);
                assert(row_has(tables.albums[j], 1, title) ==> holds(tables.albums, 1, title));
            }
            let inserting = AddAlbumView { stage: AddAlbumStageView::Inserting, ..AddAlbumView::start(first) };
            let turn = inserting.resume(ReplyView::Done);
            match turn.step {
                StepView::Ask(next) => {
                    lemma_artists_of_album(turn.state, next, stored_tables, (fuel - 2) as nat);
                },
                StepView::Done(_) => {},
            }
            assert(one.tables.albums == after);
            lemma_select(after, 1, title);
            let again = select(after, 1, title);
            assert(holds(after, 1, title));
            let k = choose|k: int| 0 <= k < after.len() && #[trigger] after[k] == again[0];
            assert(row_has(after[k], 1, title));
            assert(k == last);
            lemma_found_album(one.tables, second.title);
        }
    }
}

/// Looking for an album by a title that is stored finds the album of the
/// first row of that title, with its artists, within two requests, and
/// changes nothing.
#[verifier::rlimit(40)]
pub proof fn lemma_found_album(tables: Tables, title: Seq<char>)
    requires
        tables.sound(),
        holds(tables.albums, 1, ValueView::Text(title)),
    ensures
        forall|album: AlbumView, fuel: nat|
            album.title == title && fuel >= 2 ==> {
                let run = #[trigger] add_album(tables, album, fuel);
                let row = select(tables.albums, 1, ValueView::Text(title))[0];
                &&& run.tables == tables
                &&& run.result matches Some(Ok(found)) && album_of_row(row) == Ok::<
                    AlbumView,
                    crate::library::value::Malformation,
                >(AlbumView { artists: seq![], ..found })
            },
{
    reveal_with_fuel(drive, 3);
    let value = ValueView::Text(title);
    lemma_select(tables.albums, 1, value);
    let rows = select(tables.albums, 1, value);
    let i = choose|i: int| 0 <= i < tables.albums.len() && #[trigger] tables.albums[i] == rows[0];
    assert(album_of_row(tables.albums[i]) is Ok);
    let stored = album_of_row(rows[0])->Ok_0;
    lemma_joined_readable(tables, tables.album_artists, ValueView::Text(stored.id));
    assert(rows.take(1)[0] == rows[0]);
    assert forall|album: AlbumView, fuel: nat| album.title == title && fuel >= 2 implies ({
        let run = #[trigger] add_album(tables, album, fuel);
        &&& run.tables == tables
        &&& run.result matches Some(Ok(found)) && album_of_row(rows[0]) == Ok::<
            AlbumView,
            crate::library::value::Malformation,
        >(AlbumView { artists: seq![], ..found })
    }) by {
        let start = AddAlbumView::start(album);
        let first = tables.answer(start.first_request());
        assert(first.reply == ReplyView::Rows(rows));
        let turn = start.resume(first.reply);
        let asked = RequestView::by_text(Op::AlbumArtists, stored.id);
        assert(turn.step == StepView::<AlbumView>::Ask(asked));
        let second = tables.answer(asked);
        let end = turn.state.resume(second.reply);
        let artists = artists_of_rows(
            joined_rows(tables.artists, tables.album_artists, 0, 1, ValueView::Text(stored.id)),
        )->Ok_0;
        let whole = AlbumView { artists, ..stored };
        assert(seq![whole][0] == whole);
        assert(Seq::<AlbumView>::empty().push(whole)[0] == whole);
        assert(end.step == StepView::Done(Ok::<AlbumView, ErrorView>(whole)));
    }
}

/// Requests are served in the order in which they were sent: the replies
/// to the first of them do not depend on the later ones, and the later ones
/// are served on what the first ones left.
pub proof fn law_served_in_order(tables: Tables, first: Seq<RequestView>, then: Seq<RequestView>)
    ensures
        tables.serve(first + then) == tables.serve(first) + tables.after(first).serve(then),
        tables.after(first + then) == tables.after(first).after(then),
    decreases first.len(),
{
    if first.len() == 0 {
        assert(first + then =~= then);
        assert(tables.serve(first) + tables.serve(then) =~= tables.serve(then));
    } else {
        let next = tables.answer(first[0]).tables;
        assert((first + then).drop_first() =~= first.drop_first() + then);
        assert((first + then)[0] == first[0]);
        law_served_in_order(next, first.drop_first(), then);
        assert(tables.serve(first + then) =~= tables.serve(first) + tables.after(first).serve(then));
    }
}

/// A query that is sent after a write sees what was written: the request
/// for the track of an identifier, sent after the request that stores a
/// track under that identifier, finds the row that was stored.
pub proof fn law_read_after_write(tables: Tables, track: TrackView, album_id: Seq<char>)
    requires
        !holds(tables.tracks, 0, ValueView::Text(track.id)),
    ensures
        tables.serve(
            seq![
                RequestView::insert_track(track, album_id),
                RequestView::by_text(Op::FindTrackById, track.id),
            ],
        ) == seq![
            ReplyView::Done,
            ReplyView::Rows(seq![RequestView::insert_track(track, album_id).args]),
        ],
{
    let write = RequestView::insert_track(track, album_id);
    let read = RequestView::by_text(Op::FindTrackById, track.id);
    let key = ValueView::Text(track.id);
    let requests = seq![write, read];
    let row = write.args;
    assert(row[0] == key);
    let after = tables.tracks.push(row);
    assert(tables.answer(write).tables.tracks == after);
    lemma_select(tables.tracks, 0, key);
    assert(select(tables.tracks, 0, key) =~= seq![]);
    tables.tracks.lemma_filter_push(row, matcher(0, key));
    assert(row_has(row, 0, key));
    assert(select(after, 0, key) =~= seq![row]);
    reveal_with_fuel(Tables::serve, 3);
    assert(requests.drop_first() =~= seq![read]);
    assert(requests.drop_first().drop_first() =~= Seq::<RequestView>::empty());
    assert(tables.serve(requests) =~= seq![ReplyView::Done, ReplyView::Rows(seq![row])]);
}

/// What the repository writes of an artist or an album, it reads back as
/// it was: the row that a request to store binds is read as the record that
/// was to be stored. An album's artists are not in its row.
pub proof fn law_rows_read_back(artist: ArtistView, album: AlbumView)
    ensures
        artist_of_row(RequestView::insert_artist(artist).args) == Ok::<
            ArtistView,
            crate::library::value::Malformation,
        >(artist),
        album_of_row(RequestView::insert_album(album).args) == Ok::<
            AlbumView,
            crate::library::value::Malformation,
        >(AlbumView { artists: seq![], ..album }),
{
    match album.release_year {
        Some(n) => {
            assert((n as i64) as i32 == n);
        },
        None => {},
    }
}

/// The same of a track, as long as its duration is one that the database
/// holds and the name of its source is in lower case as it stands.
pub proof fn law_track_row_reads_back(track: TrackView, album_id: Seq<char>)
    requires
        track.duration_ms <= i64::MAX,
    ensures
        TrackSource::named(lowercase(track.source.name())) == Some(track.source) ==> track_of_row(
            RequestView::insert_track(track, album_id).args,
        ) == Ok::<
            TrackRowView,
            crate::library::value::Malformation,
        >(
            TrackRowView {
                id: track.id,
                title: track.title,
                album_id,
                duration_ms: track.duration_ms,
                path: track.path,
                source: track.source,
                source_id: track.source_id,
                track_number: track.track_number,
            },
        ),
{
    match track.track_number {
        Some(n) => {
            assert((n as i64) as i32 == n);
        },
        None => {},
    }
}

} // verus!
