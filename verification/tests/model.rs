use vibrance::model::{Album, Artist, Playlist, Track, TrackSource};

fn is_identifier(id: &str) -> bool {
    id.len() == 26
        && id
            .chars()
            .all(|c| c.is_ascii_digit() || (c.is_ascii_uppercase() && !"ILOU".contains(c)))
}

#[test]
fn source_names_round_trip() {
    assert_eq!(TrackSource::Local.as_str(), "local");
    assert_eq!(TrackSource::YouTube.as_str(), "youtube");
    assert_eq!(TrackSource::from_str("local"), Some(TrackSource::Local));
    assert_eq!(TrackSource::from_str("youtube"), Some(TrackSource::YouTube));
    assert_eq!(
        TrackSource::from_str(TrackSource::YouTube.as_str()),
        Some(TrackSource::YouTube)
    );
}

#[test]
fn source_name_ignores_case() {
    assert_eq!(TrackSource::from_str("LOCAL"), Some(TrackSource::Local));
    assert_eq!(TrackSource::from_str("YouTube"), Some(TrackSource::YouTube));
}

#[test]
fn exact_source_name_minds_case() {
    assert_eq!(TrackSource::from_name("local"), Some(TrackSource::Local));
    assert_eq!(TrackSource::from_name("Local"), None);
    assert_eq!(TrackSource::from_name("YOUTUBE"), None);
}

#[test]
fn unknown_source_names_are_refused() {
    assert_eq!(TrackSource::from_str("spotify"), None);
    assert_eq!(TrackSource::from_str(""), None);
    assert_eq!(TrackSource::from_str("local "), None);
}

#[test]
fn new_artist_has_fresh_identifier() {
    let a = Artist::new("Nina".to_string());
    let b = Artist::new("Nina".to_string());
    assert_eq!(a.name, "Nina");
    assert!(is_identifier(&a.id));
    assert!(is_identifier(&b.id));
    assert_ne!(a.id, b.id);
    assert_eq!(a.to_string(), "Nina");
}

#[test]
fn new_album_keeps_its_parts() {
    let artist = Artist::new("Nina".to_string());
    let album = Album::new(
        "Pastel".to_string(),
        vec![artist.clone()],
        Some(1967),
        Some(vec![1, 2, 3]),
    );
    assert!(is_identifier(&album.id));
    assert_eq!(album.title, "Pastel");
    assert_eq!(album.artists, vec![artist]);
    assert_eq!(album.release_year, Some(1967));
    assert_eq!(album.album_art, Some(vec![1, 2, 3]));
    assert_eq!(album.to_string(), "Pastel");
}

#[test]
fn local_track_has_a_path_and_no_remote_identifier() {
    let album = Album::new("Pastel".to_string(), vec![], None, None);
    let track = Track::new_local(
        "Blue".to_string(),
        vec![],
        album.clone(),
        183_000,
        "/music/blue.flac".to_string(),
        Some(4),
    );
    assert!(is_identifier(&track.id));
    assert_eq!(track.title, "Blue");
    assert_eq!(track.album, album);
    assert_eq!(track.duration_ms, 183_000);
    assert_eq!(track.path.as_deref(), Some("/music/blue.flac"));
    assert_eq!(track.source, TrackSource::Local);
    assert_eq!(track.source_id, None);
    assert_eq!(track.track_number, Some(4));
}

#[test]
fn remote_track_has_a_remote_identifier_and_no_path() {
    let album = Album::new("Pastel".to_string(), vec![], None, None);
    let track = Track::new_youtube(
        "Blue".to_string(),
        vec![],
        album,
        60_000,
        "dQw4w9WgXcQ".to_string(),
    );
    assert_eq!(track.path, None);
    assert_eq!(track.source, TrackSource::YouTube);
    assert_eq!(track.source_id.as_deref(), Some("dQw4w9WgXcQ"));
    assert_eq!(track.track_number, None);
    assert_eq!(track.duration_ms, 60_000);
}

#[test]
fn artists_are_joined_with_comma_and_space() {
    let album = Album::new("Pastel".to_string(), vec![], None, None);
    let mut track = Track::new_local(
        "Blue".to_string(),
        vec![],
        album,
        1,
        "/a".to_string(),
        None,
    );
    assert_eq!(track.artists_string(), "");
    track.artists.push(Artist::new("Nina".to_string()));
    assert_eq!(track.artists_string(), "Nina");
    track.artists.push(Artist::new("Otis".to_string()));
    track.artists.push(Artist::new("Ella".to_string()));
    assert_eq!(track.artists_string(), "Nina, Otis, Ella");
}

#[test]
fn clones_are_equal_to_what_they_were_made_of() {
    let artist = Artist::new("Nina".to_string());
    let album = Album::new("Pastel".to_string(), vec![artist.clone()], Some(1967), Some(vec![9]));
    let track = Track::new_local(
        "Blue".to_string(),
        vec![artist.clone()],
        album.clone(),
        5,
        "/a".to_string(),
        Some(1),
    );
    let mut playlist = Playlist::new("Evening".to_string(), Some("slow".to_string()));
    playlist.tracks.push(track.clone());
    assert_eq!(artist.clone(), artist);
    assert_eq!(album.clone(), album);
    assert_eq!(track.clone(), track);
    assert_eq!(playlist.clone(), playlist);
    assert_eq!(vibrance::model::clone_tracks(&playlist.tracks), playlist.tracks);
}

#[test]
fn new_playlist_is_empty() {
    let playlist = Playlist::new("Evening".to_string(), None);
    assert!(is_identifier(&playlist.id));
    assert_eq!(playlist.name, "Evening");
    assert_eq!(playlist.description, None);
    assert!(playlist.tracks.is_empty());
}
