//! What the window shows besides the library itself: the view that is
//! selected and the icons of the controls.

use vstd::prelude::*;
use vstd::string::StringExecFns;
use crate::model::{artist_names, clone_opt_bytes, joined, opt_bytes, Track};
use crate::remote::{decimal, decimal_string, digit_char, YtTrack};

verus! {

/// The view that the window shows.
#[derive(Debug, PartialEq, Eq, Structural, Clone, Copy)]
pub enum NavigationState {
    Home,
    Search,
    Lyrics,
}

/// An icon of the controls.
#[derive(Debug, PartialEq, Eq, Structural, Clone, Copy)]
pub enum Icon {
    Play,
    Pause,
    Next,
    Previous,
    Search,
    Settings,
    Home,
    FolderList,
    FolderOpen,
    Navigation,
    Speaker2,
    ArrowRepeatOne,
    ArrowRepeatAll,
    ArrowRepeatOff,
}

impl Icon {
    /// Where the icon's drawing lies among the assets.
    pub open spec fn asset(self) -> Seq<char> {
        match self {
            Icon::Play => "svg/play.svg"@,
            Icon::Pause => "svg/pause.svg"@,
            Icon::Next => "svg/next.svg"@,
            Icon::Previous => "svg/previous.svg"@,
            Icon::Search => "svg/search.svg"@,
            Icon::Settings => "svg/settings.svg"@,
            Icon::Home => "svg/home.svg"@,
            Icon::FolderList => "svg/folder_list.svg"@,
            Icon::FolderOpen => "svg/folder_open.svg"@,
            Icon::Navigation => "svg/navigation.svg"@,
            Icon::Speaker2 => "svg/speaker_2.svg"@,
            Icon::ArrowRepeatOne => "svg/arrow_repeat_one.svg"@,
            Icon::ArrowRepeatAll => "svg/arrow_repeat_all.svg"@,
            Icon::ArrowRepeatOff => "svg/arrow_repeat_off.svg"@,
        }
    }

    /// Where the icon's drawing lies among the assets.
    pub fn path(self) -> (r: &'static str)
        ensures
            r@ == self.asset(),
    {
        match self {
            Icon::Play => "svg/play.svg",
            Icon::Pause => "svg/pause.svg",
            Icon::Next => "svg/next.svg",
            Icon::Previous => "svg/previous.svg",
            Icon::Search => "svg/search.svg",
            Icon::Settings => "svg/settings.svg",
            Icon::Home => "svg/home.svg",
            Icon::FolderList => "svg/folder_list.svg",
            Icon::FolderOpen => "svg/folder_open.svg",
            Icon::Navigation => "svg/navigation.svg",
            Icon::Speaker2 => "svg/speaker_2.svg",
            Icon::ArrowRepeatOne => "svg/arrow_repeat_one.svg",
            Icon::ArrowRepeatAll => "svg/arrow_repeat_all.svg",
            Icon::ArrowRepeatOff => "svg/arrow_repeat_off.svg",
        }
    }

    /// The icon of the control that changes the repeat mode, for the mode
    /// that is set.
    pub fn for_repeat(mode: crate::player::command::Repeat) -> (r: Icon)
        ensures
            r == match mode {
                crate::player::command::Repeat::Off => Icon::ArrowRepeatOff,
                crate::player::command::Repeat::All => Icon::ArrowRepeatAll,
                crate::player::command::Repeat::One => Icon::ArrowRepeatOne,
            },
    {
        match mode {
            crate::player::command::Repeat::Off => Icon::ArrowRepeatOff,
            crate::player::command::Repeat::All => Icon::ArrowRepeatAll,
            crate::player::command::Repeat::One => Icon::ArrowRepeatOne,
        }
    }
}

/// A time as the player shows it: the minutes, a colon, and the seconds of
/// the minute in two digits. Parts of a second are dropped.
pub open spec fn clock(millis: u64) -> Seq<char> {
    let seconds = millis / 1000;
    decimal((seconds / 60) as nat) + seq![
        ':',
        digit_char(((seconds % 60) / 10) as u8),
        digit_char(((seconds % 60) % 10) as u8),
    ]
}

/// Writes a time as the player shows it.
pub fn format_time(millis: u64) -> (r: String)
    ensures
        r@ == clock(millis),
{
    let seconds = millis / 1000;
    let mut text = decimal_string(seconds / 60);
    proof {
        reveal_strlit(":");
    }
    text.append(":");
    let ghost minutes = text@;
    let tens = decimal_string((seconds % 60) / 10);
    let ones = decimal_string((seconds % 60) % 10);
    assert(tens@ =~= seq![digit_char(((seconds % 60) / 10) as u8)]) by {
        reveal_with_fuel(decimal, 1);
    }
    assert(ones@ =~= seq![digit_char(((seconds % 60) % 10) as u8)]) by {
        reveal_with_fuel(decimal, 1);
    }
    text.append(tens.as_str());
    text.append(ones.as_str());
    assert(text@ =~= clock(millis));
    text
}

/// The format of an image file.
#[derive(Debug, PartialEq, Eq, Structural, Clone, Copy)]
pub enum ImageKind {
    Png,
    Jpeg,
    Webp,
    Gif,
    Bmp,
}

/// Whether `bytes` begins with `prefix`.
pub open spec fn begins_with(bytes: Seq<u8>, prefix: Seq<u8>) -> bool {
    prefix.len() <= bytes.len() && bytes.subrange(0, prefix.len() as int) == prefix
}

/// The format that the first bytes of an image file tell; a file that tells
/// none is taken for a JPEG.
pub open spec fn kind_of(bytes: Seq<u8>) -> ImageKind {
    if begins_with(bytes, seq![0x89u8, 0x50, 0x4e, 0x47]) {
        ImageKind::Png
    } else if begins_with(bytes, seq![0xffu8, 0xd8, 0xff]) {
        ImageKind::Jpeg
    } else if begins_with(bytes, seq![0x52u8, 0x49, 0x46, 0x46]) && bytes.len() > 12
        && bytes.subrange(8, 12) == seq![0x57u8, 0x45, 0x42, 0x50] {
        ImageKind::Webp
    } else if begins_with(bytes, seq![0x47u8, 0x49, 0x46]) {
        ImageKind::Gif
    } else if begins_with(bytes, seq![0x42u8, 0x4d]) {
        ImageKind::Bmp
    } else {
        ImageKind::Jpeg
    }
}

/// Whether the bytes from place `at` on are those of `word`.
fn has_at(bytes: &Vec<u8>, at: usize, word: &[u8]) -> (r: bool)
    requires
        at + word@.len() <= usize::MAX,
    ensures
        r == (at + word@.len() <= bytes@.len() && bytes@.subrange(
            at as int,
            at + word@.len(),
        ) == word@),
{
    if bytes.len() < word.len() || at > bytes.len() - word.len() {
        return false;
    }
    let mut i: usize = 0;
    while i < word.len()
        invariant
            i <= word@.len(),
            at + word@.len() <= bytes@.len(),
            bytes@.len() <= usize::MAX,
            forall|j: int| 0 <= j < i ==> bytes@[at + j] == word@[j],
        decreases word.len() - i,
    {
        if bytes[at + i] != word[i] {
            assert(bytes@.subrange(at as int, at + word@.len())[i as int] != word@[i as int]);
            return false;
        }
        i += 1;
    }
    assert(bytes@.subrange(at as int, at + word@.len()) =~= word@);
    true
}

impl ImageKind {
    /// Tells the format of an image file by its first bytes.
    pub fn detect(bytes: &Vec<u8>) -> (r: ImageKind)
        ensures
            r == kind_of(bytes@),
    {
        let png: [u8; 4] = [0x89, 0x50, 0x4e, 0x47];
        let jpeg: [u8; 3] = [0xff, 0xd8, 0xff];
        let riff: [u8; 4] = [0x52, 0x49, 0x46, 0x46];
        let webp: [u8; 4] = [0x57, 0x45, 0x42, 0x50];
        let gif: [u8; 3] = [0x47, 0x49, 0x46];
        let bmp: [u8; 2] = [0x42, 0x4d];
        assert(png@ =~= seq![0x89u8, 0x50, 0x4e, 0x47]);
        assert(jpeg@ =~= seq![0xffu8, 0xd8, 0xff]);
        assert(riff@ =~= seq![0x52u8, 0x49, 0x46, 0x46]);
        assert(webp@ =~= seq![0x57u8, 0x45, 0x42, 0x50]);
        assert(gif@ =~= seq![0x47u8, 0x49, 0x46]);
        assert(bmp@ =~= seq![0x42u8, 0x4d]);
        if has_at(bytes, 0, png.as_slice()) {
            ImageKind::Png
        } else if has_at(bytes, 0, jpeg.as_slice()) {
            ImageKind::Jpeg
        } else if has_at(bytes, 0, riff.as_slice()) && bytes.len() > 12 && has_at(
            bytes,
            8,
            webp.as_slice(),
        ) {
            ImageKind::Webp
        } else if has_at(bytes, 0, gif.as_slice()) {
            ImageKind::Gif
        } else if has_at(bytes, 0, bmp.as_slice()) {
            ImageKind::Bmp
        } else {
            ImageKind::Jpeg
        }
    }
}

/// What a list of tracks shows of each of its items, whether the item is a
/// track of the library or a find of a search.
pub trait RenderedTrack: Sized {
    /// The line that names the artists.
    spec fn artists_line(&self) -> Seq<char>;

    /// The identifier under which the item is played.
    spec fn key(&self) -> Seq<char>;

    /// The item's title.
    spec fn heading(&self) -> Seq<char>;

    /// The bytes of the item's cover image, if it has one.
    spec fn cover(&self) -> Option<Seq<u8>>;

    fn artists_string(&self) -> (r: String)
        ensures
            r@ == self.artists_line(),
    ;

    fn id(&self) -> (r: String)
        ensures
            r@ == self.key(),
    ;

    fn title(&self) -> (r: String)
        ensures
            r@ == self.heading(),
    ;

    fn album_art(&self) -> (r: Option<Vec<u8>>)
        ensures
            opt_bytes(r) == self.cover(),
    ;
}

impl RenderedTrack for Track {
    open spec fn artists_line(&self) -> Seq<char> {
        joined(artist_names(self@.artists), ", "@)
    }

    open spec fn key(&self) -> Seq<char> {
        self.id@
    }

    open spec fn heading(&self) -> Seq<char> {
        self.title@
    }

    open spec fn cover(&self) -> Option<Seq<u8>> {
        self@.album.album_art
    }

    fn artists_string(&self) -> (r: String) {
        Track::artists_string(self)
    }

    fn id(&self) -> (r: String) {
        self.id.clone()
    }

    fn title(&self) -> (r: String) {
        self.title.clone()
    }

    fn album_art(&self) -> (r: Option<Vec<u8>>) {
        clone_opt_bytes(&self.album.album_art)
    }
}

impl RenderedTrack for YtTrack {
    open spec fn artists_line(&self) -> Seq<char> {
        self.artist@
    }

    open spec fn key(&self) -> Seq<char> {
        self.id@
    }

    open spec fn heading(&self) -> Seq<char> {
        self.title@
    }

    open spec fn cover(&self) -> Option<Seq<u8>> {
        opt_bytes(self.album_art)
    }

    fn artists_string(&self) -> (r: String) {
        self.artist.clone()
    }

    fn id(&self) -> (r: String) {
        self.id.clone()
    }

    fn title(&self) -> (r: String) {
        self.title.clone()
    }

    fn album_art(&self) -> (r: Option<Vec<u8>>) {
        clone_opt_bytes(&self.album_art)
    }
}

} // verus!
