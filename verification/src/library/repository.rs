//! The repository: where each operation of the library starts.

use vstd::prelude::*;
use crate::library::albums::{AddAlbum, AddAlbumView, FetchAlbums, FetchAlbumsView};
use crate::library::artists::{AddArtist, AddArtistView, FetchArtists};
use crate::library::playlists::{
    AddToPlaylist, AddToPlaylistView, FetchPlaylists, FetchPlaylistsView,
};
use crate::library::protocol::{Step, Write};
use crate::library::request::{Op, Request, RequestView};
use crate::library::tracks::{
    viewed_tracks_step, AddTrack, AddTrackView, AddTracks, AddTracksView, FetchTracks,
    FetchTracksView,
};
use crate::model::{clone_tracks, track_views, Album, Artist, Playlist, Track, TrackSource};
use vstd::string::StringExecFns;

verus! {

/// The repository of the library. Each of its functions starts an
/// operation: it returns the operation and the first request to send.
#[derive(Debug, PartialEq, Eq, Structural, Clone, Copy)]
pub struct Library;

impl Library {
    /// Creates the tables and indexes that are not there yet.
    pub fn initialize() -> (r: (Write, Request))
        ensures
            !r.0.finished,
            r.1@ == RequestView::bare(Op::CreateSchema),
    {
        Write::start(Request::bare(Op::CreateSchema))
    }

    /// Makes what was written durable.
    pub fn write() -> (r: (Write, Request))
        ensures
            !r.0.finished,
            r.1@ == RequestView::bare(Op::Flush),
    {
        Write::start(Request::bare(Op::Flush))
    }

    /// Adds an artist, or finds the one that is stored under the name.
    pub fn add_artist(artist: &Artist) -> (r: (AddArtist, Request))
        ensures
            r.0@ == AddArtistView::start(artist@),
            r.1@ == r.0@.first_request(),
    {
        AddArtist::start(artist.clone())
    }

    /// The artist with the identifier, if there is one.
    pub fn find_artist_by_id(id: &str) -> (r: (FetchArtists, Request))
        ensures
            r.0.first_only && !r.0.finished,
            r.1@ == RequestView::by_text(Op::FindArtistById, id@),
    {
        FetchArtists::start(Request::by_text(Op::FindArtistById, id), true)
    }

    /// The artist with the name, if there is one.
    pub fn find_artist_by_name(name: &str) -> (r: (FetchArtists, Request))
        ensures
            r.0.first_only && !r.0.finished,
            r.1@ == RequestView::by_text(Op::FindArtistByName, name@),
    {
        FetchArtists::start(Request::by_text(Op::FindArtistByName, name), true)
    }

    /// All artists, by name.
    pub fn all_artists() -> (r: (FetchArtists, Request))
        ensures
            !r.0.first_only && !r.0.finished,
            r.1@ == RequestView::bare(Op::AllArtists),
    {
        FetchArtists::start(Request::bare(Op::AllArtists), false)
    }

    /// The artists in whose name `query` occurs, by name.
    pub fn search_artists(query: &str) -> (r: (FetchArtists, Request))
        ensures
            !r.0.first_only && !r.0.finished,
            r.1@ == RequestView::search(Op::SearchArtists, query@),
    {
        FetchArtists::start(Request::search(Op::SearchArtists, query), false)
    }

    /// Adds an album with its artists, or finds the one that is stored
    /// under the title.
    pub fn add_album(album: &Album) -> (r: (AddAlbum, Request))
        ensures
            r.0@ == AddAlbumView::start(album@),
            r.1@ == r.0@.first_request(),
    {
        AddAlbum::start(album.clone())
    }

    /// The album with the identifier, if there is one.
    pub fn find_album_by_id(id: &str) -> (r: (FetchAlbums, Request))
        ensures
            r.0@ == FetchAlbumsView::start(true),
            r.1@ == RequestView::by_text(Op::FindAlbumById, id@),
    {
        FetchAlbums::start(Request::by_text(Op::FindAlbumById, id), true)
    }

    /// The album with the title, if there is one.
    pub fn find_album_by_title(title: &str) -> (r: (FetchAlbums, Request))
        ensures
            r.0@ == FetchAlbumsView::start(true),
            r.1@ == RequestView::by_text(Op::FindAlbumByTitle, title@),
    {
        FetchAlbums::start(Request::by_text(Op::FindAlbumByTitle, title), true)
    }

    /// All albums, by title.
    pub fn all_albums() -> (r: (FetchAlbums, Request))
        ensures
            r.0@ == FetchAlbumsView::start(false),
            r.1@ == RequestView::bare(Op::AllAlbums),
    {
        FetchAlbums::start(Request::bare(Op::AllAlbums), false)
    }

    /// The albums in whose title `query` occurs, by title.
    pub fn search_albums(query: &str) -> (r: (FetchAlbums, Request))
        ensures
            r.0@ == FetchAlbumsView::start(false),
            r.1@ == RequestView::search(Op::SearchAlbums, query@),
    {
        FetchAlbums::start(Request::search(Op::SearchAlbums, query), false)
    }

    /// Adds a track with its album and its artists.
    pub fn add_track(track: &Track) -> (r: (AddTrack, Request))
        ensures
            r.0@ == AddTrackView::start(track@),
            r.1@ == r.0@.first_request(),
    {
        AddTrack::start(track.clone())
    }

    /// Adds tracks one after the other.
    pub fn add_tracks(tracks: &Vec<Track>) -> (r: (AddTracks, Step<Vec<Track>>))
        ensures
            r.0@ == AddTracksView::start(track_views(tracks@)).state,
            viewed_tracks_step(r.1) == AddTracksView::start(track_views(tracks@)).step,
    {
        AddTracks::start(clone_tracks(tracks))
    }

    /// The track with the identifier, if there is one.
    pub fn find_track_by_id(id: &str) -> (r: (FetchTracks, Request))
        ensures
            r.0@ == FetchTracksView::start(true),
            r.1@ == RequestView::by_text(Op::FindTrackById, id@),
    {
        FetchTracks::start(Request::by_text(Op::FindTrackById, id), true)
    }

    /// The track of a source with the remote identifier, if there is one.
    pub fn find_track_by_source(source: TrackSource, id: &str) -> (r: (FetchTracks, Request))
        ensures
            r.0@ == FetchTracksView::start(true),
            r.1@ == RequestView::by_texts(Op::FindTrackBySource, source.name(), id@),
    {
        FetchTracks::start(Request::by_texts(Op::FindTrackBySource, source.as_str(), id), true)
    }

    /// The tracks of a source.
    pub fn find_tracks_by_source(source: TrackSource) -> (r: (FetchTracks, Request))
        ensures
            r.0@ == FetchTracksView::start(false),
            r.1@ == RequestView::by_text(Op::FindTracksBySource, source.name()),
    {
        FetchTracks::start(Request::by_text(Op::FindTracksBySource, source.as_str()), false)
    }

    /// All tracks, by title.
    pub fn all_tracks() -> (r: (FetchTracks, Request))
        ensures
            r.0@ == FetchTracksView::start(false),
            r.1@ == RequestView::bare(Op::AllTracks),
    {
        FetchTracks::start(Request::bare(Op::AllTracks), false)
    }

    /// The tracks that are in no playlist, by title.
    pub fn all_unorganized_tracks() -> (r: (FetchTracks, Request))
        ensures
            r.0@ == FetchTracksView::start(false),
            r.1@ == RequestView::bare(Op::UnorganizedTracks),
    {
        FetchTracks::start(Request::bare(Op::UnorganizedTracks), false)
    }

    /// The tracks in whose title `query` occurs, by title.
    pub fn search_tracks(query: &str) -> (r: (FetchTracks, Request))
        ensures
            r.0@ == FetchTracksView::start(false),
            r.1@ == RequestView::search(Op::SearchTracks, query@),
    {
        FetchTracks::start(Request::search(Op::SearchTracks, query), false)
    }

    /// The tracks of an album, by number and title.
    pub fn get_tracks_by_album(album_id: &str) -> (r: (FetchTracks, Request))
        ensures
            r.0@ == FetchTracksView::start(false),
            r.1@ == RequestView::by_text(Op::TracksByAlbum, album_id@),
    {
        FetchTracks::start(Request::by_text(Op::TracksByAlbum, album_id), false)
    }

    /// The tracks of an artist, by title.
    pub fn get_tracks_by_artist(artist_id: &str) -> (r: (FetchTracks, Request))
        ensures
            r.0@ == FetchTracksView::start(false),
            r.1@ == RequestView::by_text(Op::TracksByArtist, artist_id@),
    {
        FetchTracks::start(Request::by_text(Op::TracksByArtist, artist_id), false)
    }

    /// Removes the track with the identifier.
    pub fn delete_track(id: &str) -> (r: (Write, Request))
        ensures
            !r.0.finished,
            r.1@ == RequestView::by_text(Op::DeleteTrack, id@),
    {
        Write::start(Request::by_text(Op::DeleteTrack, id))
    }

    /// Stores a playlist, without tracks.
    pub fn create_playlist(playlist: &Playlist) -> (r: (Write, Request))
        ensures
            !r.0.finished,
            r.1@ == RequestView::insert_playlist(playlist@),
    {
        Write::start(Request::insert_playlist(playlist))
    }

    /// The playlist with the identifier and its tracks, if there is one.
    pub fn find_playlist_by_id(id: &str) -> (r: (FetchPlaylists, Request))
        ensures
            r.0@ == FetchPlaylistsView::start(true),
            r.1@ == RequestView::by_text(Op::FindPlaylistById, id@),
    {
        FetchPlaylists::start(Request::by_text(Op::FindPlaylistById, id), true)
    }

    /// All playlists with their tracks, by name.
    pub fn all_playlists() -> (r: (FetchPlaylists, Request))
        ensures
            r.0@ == FetchPlaylistsView::start(false),
            r.1@ == RequestView::bare(Op::AllPlaylists),
    {
        FetchPlaylists::start(Request::bare(Op::AllPlaylists), false)
    }

    /// Puts a track at the end of a playlist.
    pub fn add_track_to_playlist(playlist_id: &str, track_id: &str) -> (r: (
        AddToPlaylist,
        Request,
    ))
        ensures
            r.0@ == AddToPlaylistView::start(playlist_id@, track_id@),
            r.1@ == r.0@.first_request(),
    {
        AddToPlaylist::start(String::from_str(playlist_id), String::from_str(track_id))
    }

    /// Takes a track out of a playlist.
    pub fn remove_track_from_playlist(playlist_id: &str, track_id: &str) -> (r: (Write, Request))
        ensures
            !r.0.finished,
            r.1@ == RequestView::by_texts(Op::UnlinkPlaylistTrack, playlist_id@, track_id@),
    {
        Write::start(Request::by_texts(Op::UnlinkPlaylistTrack, playlist_id, track_id))
    }

    /// Removes the playlist with the identifier.
    pub fn delete_playlist(id: &str) -> (r: (Write, Request))
        ensures
            !r.0.finished,
            r.1@ == RequestView::by_text(Op::DeletePlaylist, id@),
    {
        Write::start(Request::by_text(Op::DeletePlaylist, id))
    }

    /// Stores the name and the description of a playlist anew.
    pub fn update_playlist(playlist: &Playlist) -> (r: (Write, Request))
        ensures
            !r.0.finished,
            r.1@ == RequestView::update_playlist(playlist@),
    {
        Write::start(Request::update_playlist(playlist))
    }
}

} // verus!
