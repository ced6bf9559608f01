use vibrance::components::{format_time, Icon, ImageKind, NavigationState, RenderedTrack};
use vibrance::local::{
    require_path, first_four, read_number, read_year, track_from_parts, track_from_tags,
    ResolveError, TagFields,
};
use vibrance::lyrics::{
    lyrics_of, unescape, LocalLyricSource, LyricError, LyricLine, Lyrics, QQProvider,
};
use vibrance::model::{Album, Track, TrackSource, UNKNOWN_ALBUM};
use vibrance::player::command::Repeat;
use vibrance::preferences::{Preferences, DEFAULT_VOLUME};
use vibrance::remote::{
    cache_file_name, chunk_at, chunk_count, chunk_header, decimal_string, join_names, origin,
    remote_id, track_from_entry, widest_cover, LoadError, Origin, YtTrack, CHUNK_SIZE, PERMITS,
};

fn no_tags() -> TagFields {
    TagFields {
        track_artists: vec![],
        track_artist: None,
        picture: None,
        album_title: None,
        year: None,
        title: None,
        track_number: None,
    }
}

fn names(track: &Track) -> Vec<String> {
    track.artists.iter().map(|a| a.name.clone()).collect()
}

#[test]
fn empty_path_is_refused() {
    assert!(matches!(require_path(""), Err(ResolveError::PathEmpty)));
    assert_eq!(require_path("/music/a.flac"), Ok(()));
    assert_eq!(require_path(" "), Ok(()));
}

#[test]
fn file_without_tags_is_called_by_its_stem() {
    let track = track_from_tags("/music/blue.flac".to_string(), "blue".to_string(), 9_000, no_tags());
    assert_eq!(track.title, "blue");
    assert!(track.artists.is_empty());
    assert_eq!(track.album.title, UNKNOWN_ALBUM);
    assert_eq!(track.album.title, "Unknown Album");
    assert!(track.album.artists.is_empty());
    assert_eq!(track.album.release_year, None);
    assert_eq!(track.album.album_art, None);
    assert_eq!(track.duration_ms, 9_000);
    assert_eq!(track.path.as_deref(), Some("/music/blue.flac"));
    assert_eq!(track.source, TrackSource::Local);
    assert_eq!(track.source_id, None);
    assert_eq!(track.track_number, None);
    assert_eq!(track.id.len(), 26);
    assert_eq!(track.album.id.len(), 26);
}

#[test]
fn tags_fill_the_track() {
    let tags = TagFields {
        track_artists: vec!["Nina".to_string(), "Otis".to_string()],
        track_artist: Some("Nina & Otis".to_string()),
        picture: Some(vec![1, 2, 3]),
        album_title: Some("Pastel".to_string()),
        year: Some("1967-03-01".to_string()),
        title: Some("Blue".to_string()),
        track_number: Some("4".to_string()),
    };
    let track = track_from_tags("/m/b.flac".to_string(), "b".to_string(), 1, tags);
    assert_eq!(track.title, "Blue");
    assert_eq!(names(&track), vec!["Nina", "Otis"]);
    assert_eq!(track.album.title, "Pastel");
    assert_eq!(track.album.release_year, Some(1967));
    assert_eq!(track.album.album_art, Some(vec![1, 2, 3]));
    assert_eq!(track.track_number, Some(4));
    // The album has the track's first artist, under the same identity.
    assert_eq!(track.album.artists, vec![track.artists[0].clone()]);
    assert_ne!(track.artists[0].id, track.artists[1].id);
    assert_ne!(track.id, track.album.id);
}

#[test]
fn single_artist_text_counts_where_no_artists_are_listed() {
    let mut tags = no_tags();
    tags.track_artist = Some("Nina".to_string());
    let track = track_from_tags("/m/b.flac".to_string(), "b".to_string(), 1, tags);
    assert_eq!(names(&track), vec!["Nina"]);
    assert_eq!(track.album.artists.len(), 1);
}

#[test]
fn year_and_number_are_taken_as_they_were_read() {
    let track =
        track_from_parts("/m/b.flac".to_string(), "b".to_string(), 1, no_tags(), Some(-44), Some(12));
    assert_eq!(track.album.release_year, Some(-44));
    assert_eq!(track.track_number, Some(12));
}

#[test]
fn year_is_the_number_in_the_first_four_bytes() {
    assert_eq!(read_year(&Some("1967".to_string())), Some(1967));
    assert_eq!(read_year(&Some("1967-03-01".to_string())), Some(1967));
    assert_eq!(read_year(&Some("19670301".to_string())), Some(1967));
    assert_eq!(read_year(&Some("0042".to_string())), Some(42));
    assert_eq!(read_year(&Some("-123".to_string())), Some(-123));
    assert_eq!(read_year(&Some("196".to_string())), None);
    assert_eq!(read_year(&Some("".to_string())), None);
    assert_eq!(read_year(&Some("c.19".to_string())), None);
    assert_eq!(read_year(&Some("19é7".to_string())), None);
    assert_eq!(read_year(&Some("196é".to_string())), None);
    assert_eq!(read_year(&None), None);
}

#[test]
fn first_four_bytes_must_be_whole_characters() {
    assert_eq!(first_four("1967-03"), Some("1967"));
    assert_eq!(first_four("abcd"), Some("abcd"));
    assert_eq!(first_four("abc"), None);
    assert_eq!(first_four("éé!"), Some("éé"));
    assert_eq!(first_four("abcé"), None);
}

#[test]
fn track_number_is_a_plain_number() {
    assert_eq!(read_number(&Some("7".to_string())), Some(7));
    assert_eq!(read_number(&Some("+7".to_string())), Some(7));
    assert_eq!(read_number(&Some("07".to_string())), Some(7));
    assert_eq!(read_number(&Some("7/12".to_string())), None);
    assert_eq!(read_number(&Some(" 7".to_string())), None);
    assert_eq!(read_number(&Some("2147483648".to_string())), None);
    assert_eq!(read_number(&Some("".to_string())), None);
    assert_eq!(read_number(&None), None);
}

#[test]
fn search_find_joins_artists_and_names_the_album() {
    let find = YtTrack::from_entry(
        "yt1".to_string(),
        "Blue".to_string(),
        &vec!["Nina".to_string(), "Otis".to_string()],
        None,
        Some(vec![7]),
        183,
    );
    assert_eq!(find.id, "yt1");
    assert_eq!(find.title, "Blue");
    assert_eq!(find.artist, "Nina, Otis");
    assert_eq!(find.album, "Unknown Album");
    assert_eq!(find.album_art, Some(vec![7]));
    assert_eq!(find.duration, 183);
    let named = YtTrack::from_entry(
        "yt1".to_string(),
        "Blue".to_string(),
        &vec![],
        Some("Pastel".to_string()),
        None,
        0,
    );
    assert_eq!(named.artist, "");
    assert_eq!(named.album, "Pastel");
}

#[test]
fn names_are_joined_with_comma_and_space() {
    assert_eq!(join_names(&vec![]), "");
    assert_eq!(join_names(&vec!["a".to_string()]), "a");
    assert_eq!(join_names(&vec!["a".to_string(), "".to_string(), "c".to_string()]), "a, , c");
}

#[test]
fn widest_cover_is_the_last_of_the_widest() {
    assert_eq!(widest_cover(&vec![]), None);
    assert_eq!(widest_cover(&vec![60]), Some(0));
    assert_eq!(widest_cover(&vec![60, 544, 120]), Some(1));
    assert_eq!(widest_cover(&vec![544, 60, 544, 120]), Some(2));
    assert_eq!(widest_cover(&vec![0, 0, 0]), Some(2));
}

#[test]
fn catalogue_entry_becomes_a_remote_track() {
    let track = track_from_entry(
        "yt1".to_string(),
        "Blue".to_string(),
        &vec!["Nina".to_string(), "Otis".to_string()],
        Some("Pastel".to_string()),
        Some(vec![7, 7]),
        Some(183),
    );
    assert_eq!(track.title, "Blue");
    assert_eq!(names(&track), vec!["Nina", "Otis"]);
    assert_eq!(track.album.title, "Pastel");
    assert_eq!(track.album.artists, vec![track.artists[0].clone()]);
    assert_eq!(track.album.album_art, Some(vec![7, 7]));
    assert_eq!(track.album.release_year, None);
    assert_eq!(track.duration_ms, 183_000);
    assert_eq!(track.path, None);
    assert_eq!(track.source, TrackSource::YouTube);
    assert_eq!(track.source_id.as_deref(), Some("yt1"));
    assert_eq!(track.track_number, None);
    assert_eq!(track.id.len(), 26);
}

#[test]
fn entry_without_album_has_no_cover_and_no_duration_counts_as_zero() {
    let track = track_from_entry(
        "yt1".to_string(),
        "Blue".to_string(),
        &vec![],
        None,
        Some(vec![7, 7]),
        None,
    );
    assert_eq!(track.album.title, "Unknown Album");
    assert_eq!(track.album.album_art, None);
    assert!(track.album.artists.is_empty());
    assert_eq!(track.duration_ms, 0);
    let long = track_from_entry("y".to_string(), "B".to_string(), &vec![], None, None, Some(u32::MAX));
    assert_eq!(long.duration_ms, 4_294_967_295_000);
}

fn local(path: Option<&str>) -> Track {
    let mut track = Track::new_local(
        "Blue".to_string(),
        vec![],
        Album::new("Pastel".to_string(), vec![], None, None),
        1,
        "x".to_string(),
        None,
    );
    track.path = path.map(str::to_string);
    track
}

fn remote(id: Option<&str>) -> Track {
    let mut track = Track::new_youtube(
        "Blue".to_string(),
        vec![],
        Album::new("Pastel".to_string(), vec![], None, None),
        1,
        "x".to_string(),
    );
    track.source_id = id.map(str::to_string);
    track
}

#[test]
fn audio_is_had_from_the_file_or_from_the_catalogue() {
    assert_eq!(origin(&local(Some("/m/b.flac"))), Ok(Origin::File("/m/b.flac".to_string())));
    assert_eq!(origin(&remote(Some("yt1"))), Ok(Origin::Remote("yt1".to_string())));
    assert_eq!(origin(&local(None)), Err(LoadError::MissingPath));
    assert_eq!(origin(&remote(None)), Err(LoadError::MissingSourceId));
    // A path on a remote track does not make it a local one.
    let mut odd = remote(None);
    odd.path = Some("/m/b.flac".to_string());
    assert_eq!(origin(&odd), Err(LoadError::MissingSourceId));
}

#[test]
fn only_remote_tracks_are_downloaded() {
    assert_eq!(remote_id(&remote(Some("yt1"))), Ok("yt1".to_string()));
    assert_eq!(remote_id(&remote(None)), Err(LoadError::MissingSourceId));
    assert_eq!(remote_id(&local(Some("/m/b.flac"))), Err(LoadError::NotRemote));
    assert_eq!(cache_file_name("yt1"), "yt1.m4a");
}

#[test]
fn download_is_cut_into_pieces_of_256_kib() {
    assert_eq!(CHUNK_SIZE, 256 * 1024);
    assert_eq!(PERMITS, 8);
    assert_eq!(chunk_count(0), 0);
    assert_eq!(chunk_count(1), 1);
    assert_eq!(chunk_count(CHUNK_SIZE), 1);
    assert_eq!(chunk_count(CHUNK_SIZE + 1), 2);
    assert_eq!(chunk_count(u64::MAX), 70_368_744_177_664);
    assert_eq!(chunk_at(0, 0), None);
    assert_eq!(chunk_at(600_000, 0), Some((0, 262_144)));
    assert_eq!(chunk_at(600_000, 1), Some((262_144, 524_288)));
    assert_eq!(chunk_at(600_000, 2), Some((524_288, 600_000)));
    assert_eq!(chunk_at(600_000, 3), None);
    assert_eq!(chunk_at(2 * CHUNK_SIZE, 1), Some((CHUNK_SIZE, 2 * CHUNK_SIZE)));
    assert_eq!(chunk_at(2 * CHUNK_SIZE, 2), None);
    assert_eq!(
        chunk_at(u64::MAX, 70_368_744_177_663),
        Some((u64::MAX - CHUNK_SIZE + 1, u64::MAX))
    );
}

#[test]
fn pieces_tile_the_download() {
    for total in [1u64, 5, CHUNK_SIZE - 1, CHUNK_SIZE, CHUNK_SIZE + 1, 10 * CHUNK_SIZE + 17] {
        let mut at = 0;
        for index in 0..chunk_count(total) {
            let (start, end) = chunk_at(total, index).unwrap();
            assert_eq!(start, at);
            assert!(start < end && end - start <= CHUNK_SIZE);
            at = end;
        }
        assert_eq!(at, total);
        assert_eq!(chunk_at(total, chunk_count(total)), None);
    }
}

#[test]
fn range_header_names_first_and_last_byte() {
    assert_eq!(chunk_header(600_000, 0).as_deref(), Some("bytes=0-262143"));
    assert_eq!(chunk_header(600_000, 2).as_deref(), Some("bytes=524288-599999"));
    assert_eq!(chunk_header(1, 0).as_deref(), Some("bytes=0-0"));
    assert_eq!(chunk_header(600_000, 3), None);
}

#[test]
fn numbers_are_written_in_decimal() {
    assert_eq!(decimal_string(0), "0");
    assert_eq!(decimal_string(7), "7");
    assert_eq!(decimal_string(10), "10");
    assert_eq!(decimal_string(1_234_567_890), "1234567890");
    assert_eq!(decimal_string(u64::MAX), "18446744073709551615");
}

fn timed(lines: &[(i64, &str)]) -> Lyrics {
    Lyrics(
        lines
            .iter()
            .map(|(t, s)| LyricLine { timestamp: *t, text: s.to_string() })
            .collect(),
    )
}

#[test]
fn active_line_is_the_one_that_is_due() {
    let lyrics = timed(&[(1_000, "one"), (2_000, "two"), (3_500, "three")]);
    assert_eq!(lyrics.active_line(0), None);
    assert_eq!(lyrics.active_line(999), None);
    assert_eq!(lyrics.active_line(1_000), Some(0));
    assert_eq!(lyrics.active_line(1_999), Some(0));
    assert_eq!(lyrics.active_line(2_000), Some(1));
    assert_eq!(lyrics.active_line(3_499), Some(1));
    assert_eq!(lyrics.active_line(3_500), Some(2));
    assert_eq!(lyrics.active_line(i64::MAX), Some(2));
    assert_eq!(timed(&[]).active_line(5), None);
}

#[test]
fn active_line_of_unordered_lyrics_is_the_first_that_fits() {
    let lyrics = timed(&[(5_000, "late"), (1_000, "early"), (9_000, "last")]);
    assert_eq!(lyrics.active_line(2_000), Some(1));
    assert_eq!(lyrics.active_line(6_000), Some(1));
    assert_eq!(lyrics.active_line(500), None);
}

#[test]
fn entities_are_written_out() {
    assert_eq!(unescape("it&apos;s &quot;blue&quot;"), "it's \"blue\"");
    assert_eq!(unescape("a &lt; b &gt; c &amp; d"), "a < b > c & d");
    assert_eq!(unescape("a&nbsp;b&ensp;c&emsp;d"), "a b c d");
    // The ampersand is written out before the angle brackets are.
    assert_eq!(unescape("&amp;lt;"), "<");
    assert_eq!(unescape("plain"), "plain");
}

#[test]
fn lyrics_are_read_from_base64() {
    // "[00:01.00]it&apos;s\n[00:02.50]blue &amp; green"
    let payload = "WzAwOjAxLjAwXWl0JmFwb3M7cwpbMDA6MDIuNTBdYmx1ZSAmYW1wOyBncmVlbg==";
    let lyrics = QQProvider::decode(payload).unwrap();
    assert_eq!(lyrics, timed(&[(1_000, "it's"), (2_500, "blue & green")]));
}

#[test]
fn lyrics_that_cannot_be_read_are_errors() {
    assert_eq!(QQProvider::decode("not base64!"), Err(LyricError::Base64));
    assert_eq!(QQProvider::decode("WzAw"), Ok(timed(&[])));
    // The bytes ff fe are not UTF-8.
    assert_eq!(QQProvider::decode("//4="), Err(LyricError::Encoding));
    // "[00:xx.00]broken"
    assert_eq!(QQProvider::decode("WzAwOnh4LjAwXWJyb2tlbg=="), Ok(timed(&[])));
    assert_eq!(QQProvider::decode(""), Ok(timed(&[])));
    // "[00:123.00]x": a time with three digits of seconds.
    assert_eq!(QQProvider::decode("WzAwOjEyMy4wMF14"), Err(LyricError::Format));
    // "[00:01.00]hello [ti:x]": a tag within the words.
    assert_eq!(QQProvider::decode("WzAwOjAxLjAwXWhlbGxvIFt0aTp4XQ=="), Err(LyricError::Format));
}

#[test]
fn timed_texts_become_lines_in_order() {
    let lyrics = lyrics_of(vec![(5, "a".to_string()), (1, "b".to_string()), (9, "c".to_string())]);
    assert_eq!(lyrics, timed(&[(5, "a"), (1, "b"), (9, "c")]));
    assert_eq!(lyrics_of(vec![]), timed(&[]));
}

#[test]
fn search_key_is_title_then_artist() {
    assert_eq!(QQProvider::search_key("Nina", "Blue"), "Blue Nina");
    assert_eq!(QQProvider::search_key("", ""), " ");
    assert!(LocalLyricSource::fetch_lyrics("Nina", "Blue").is_empty());
}

#[test]
fn icons_have_their_assets() {
    assert_eq!(Icon::Play.path(), "svg/play.svg");
    assert_eq!(Icon::Speaker2.path(), "svg/speaker_2.svg");
    assert_eq!(Icon::ArrowRepeatOff.path(), "svg/arrow_repeat_off.svg");
    assert_eq!(Icon::FolderList.path(), "svg/folder_list.svg");
    assert_eq!(Icon::for_repeat(Repeat::Off), Icon::ArrowRepeatOff);
    assert_eq!(Icon::for_repeat(Repeat::All), Icon::ArrowRepeatAll);
    assert_eq!(Icon::for_repeat(Repeat::One), Icon::ArrowRepeatOne);
    assert_ne!(NavigationState::Home, NavigationState::Lyrics);
}

#[test]
fn times_are_shown_as_minutes_and_seconds() {
    assert_eq!(format_time(0), "0:00");
    assert_eq!(format_time(999), "0:00");
    assert_eq!(format_time(1_000), "0:01");
    assert_eq!(format_time(65_000), "1:05");
    assert_eq!(format_time(599_999), "9:59");
    assert_eq!(format_time(600_000), "10:00");
    assert_eq!(format_time(3_661_000), "61:01");
    assert_eq!(format_time(u64::MAX), "307445734561825:51");
}

#[test]
fn image_format_is_told_by_the_first_bytes() {
    assert_eq!(ImageKind::detect(&vec![0x89, 0x50, 0x4e, 0x47, 0x0d]), ImageKind::Png);
    assert_eq!(ImageKind::detect(&vec![0xff, 0xd8, 0xff, 0xe0]), ImageKind::Jpeg);
    assert_eq!(ImageKind::detect(&b"RIFF\x00\x00\x00\x00WEBPVP8 ".to_vec()), ImageKind::Webp);
    assert_eq!(ImageKind::detect(&b"GIF89a".to_vec()), ImageKind::Gif);
    assert_eq!(ImageKind::detect(&b"BM\x00\x00".to_vec()), ImageKind::Bmp);
    // Twelve bytes are not enough for the second word.
    assert_eq!(ImageKind::detect(&b"RIFF\x00\x00\x00\x00WEBP".to_vec()), ImageKind::Jpeg);
    assert_eq!(ImageKind::detect(&b"RIFF\x00\x00\x00\x00WAVEfmt ".to_vec()), ImageKind::Jpeg);
    assert_eq!(ImageKind::detect(&vec![]), ImageKind::Jpeg);
    assert_eq!(ImageKind::detect(&vec![0x89, 0x50]), ImageKind::Jpeg);
}

#[test]
fn list_items_show_title_artists_and_cover() {
    let mut track = local(Some("/m/b.flac"));
    track.artists = vec![
        vibrance::model::Artist::new("Nina".to_string()),
        vibrance::model::Artist::new("Otis".to_string()),
    ];
    track.album.album_art = Some(vec![1]);
    assert_eq!(RenderedTrack::artists_string(&track), "Nina, Otis");
    assert_eq!(RenderedTrack::id(&track), track.id);
    assert_eq!(RenderedTrack::title(&track), "Blue");
    assert_eq!(RenderedTrack::album_art(&track), Some(vec![1]));
    let find = YtTrack::from_entry("yt1".to_string(), "Amber".to_string(), &vec!["Ella".to_string()], None, None, 5);
    assert_eq!(RenderedTrack::artists_string(&find), "Ella");
    assert_eq!(RenderedTrack::id(&find), "yt1");
    assert_eq!(RenderedTrack::title(&find), "Amber");
    assert_eq!(RenderedTrack::album_art(&find), None);
}

#[test]
fn preferences_default_to_half_volume() {
    let preferences = Preferences::default();
    assert!(preferences.use_system_audio_controls);
    assert_eq!(preferences.volume, 500_000);
    assert_eq!(DEFAULT_VOLUME, 500_000);
    let louder = preferences.with_volume(900_000);
    assert_eq!(louder.volume, 900_000);
    assert!(louder.use_system_audio_controls);
    assert!(louder.needs_saving(&preferences));
    assert!(!louder.needs_saving(&louder));
}
