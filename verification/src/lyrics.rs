//! Lyrics with the times at which their lines are due.

use vstd::prelude::*;
use vstd::string::StringExecFns;
use vstd::utf8::{decode_utf8, valid_utf8};

verus! {

/// A line of lyrics.
#[derive(Debug, PartialEq)]
pub struct LyricLine {
    /// When the line is due, in milliseconds from the start of the track.
    pub timestamp: i64,
    pub text: String,
}

/// Mathematical value of a [`LyricLine`].
pub struct LyricLineView {
    pub timestamp: i64,
    pub text: Seq<char>,
}

impl View for LyricLine {
    type V = LyricLineView;

    open spec fn view(&self) -> LyricLineView {
        LyricLineView { timestamp: self.timestamp, text: self.text@ }
    }
}

/// The lines of a track's lyrics, in the order in which they are shown.
#[derive(Debug, PartialEq)]
pub struct Lyrics(pub Vec<LyricLine>);

impl View for Lyrics {
    type V = Seq<LyricLineView>;

    open spec fn view(&self) -> Seq<LyricLineView> {
        self.0@.map_values(|l: LyricLine| l@)
    }
}

/// Whether line `i` is being sung at `position_ms`: it is due, and the line
/// after it, if there is one, is not.
pub open spec fn is_sung(lines: Seq<LyricLineView>, i: int, position_ms: i64) -> bool {
    &&& 0 <= i < lines.len()
    &&& lines[i].timestamp <= position_ms
    &&& (i + 1 < lines.len() ==> position_ms < lines[i + 1].timestamp)
}

impl Lyrics {
    /// The place of the line that is being sung at `position_ms`: the first
    /// line that is due while the line after it is not; none where no line
    /// is.
    pub fn active_line(&self, position_ms: i64) -> (r: Option<usize>)
        ensures
            match r {
                Some(i) => is_sung(self@, i as int, position_ms) && forall|j: int|
                    0 <= j < i ==> !is_sung(self@, j, position_ms),
                None => forall|j: int| 0 <= j < self@.len() ==> !is_sung(self@, j, position_ms),
            },
    {
        let mut i: usize = 0;
        while i < self.0.len()
            invariant
                i <= self.0.len(),
                forall|j: int| 0 <= j < i ==> !is_sung(self@, j, position_ms),
            decreases self.0.len() - i,
        {
            if position_ms >= self.0[i].timestamp {
                if i + 1 >= self.0.len() || position_ms < self.0[i + 1].timestamp {
                    return Some(i);
                }
            }
            i += 1;
        }
        None
    }
}

/// Why a text did not yield lyrics.
#[derive(Debug, PartialEq, Eq, Structural, Clone, Copy)]
pub enum LyricError {
    /// The text is not base64.
    Base64,
    /// The bytes are not UTF-8.
    Encoding,
    /// The text is not in the format of timed lyrics.
    Format,
}

/// What the standard base64 alphabet with padding decodes a text to; none
/// where the text is not base64.
pub uninterp spec fn base64_decoded(text: Seq<char>) -> Option<Seq<u8>>;

/// The error of `base64::Engine::decode`, of which nothing is read.
#[verifier::external_type_specification]
#[verifier::external_body]
pub struct ExDecodeError(base64::DecodeError);

/// Decodes with `base64::Engine::decode` of the engine
/// `base64::prelude::BASE64_STANDARD`. The result depends on the text alone
/// and is only named.
#[verifier::external_body]
fn base64_decode(text: &str) -> (r: Result<Vec<u8>, base64::DecodeError>)
    ensures
        match r {
            Ok(bytes) => base64_decoded(text@) == Some(bytes@),
            Err(_) => base64_decoded(text@) is None,
        },
{
    base64::Engine::decode(&base64::prelude::BASE64_STANDARD, text.as_bytes())
}

/// Calls `String::from_utf8`, which takes the bytes as a text where they
/// are UTF-8 and fails where they are not.
#[verifier::external_body]
fn text_of_bytes(bytes: Vec<u8>) -> (r: Option<String>)
    ensures
        match r {
            Some(text) => valid_utf8(bytes@) && text@ == decode_utf8(bytes@),
            None => !valid_utf8(bytes@),
        },
{
    String::from_utf8(bytes).ok()
}

/// What `str::replace` makes of `text`: each match of `from`, found from
/// left to right and without overlap, gives way to `to`.
pub uninterp spec fn replaced(text: Seq<char>, from: Seq<char>, to: Seq<char>) -> Seq<char>;

/// Calls `str::replace`, whose result depends on its three texts alone and
/// is only named.
#[verifier::external_body]
fn replace(text: &str, from: &str, to: &str) -> (r: String)
    ensures
        r@ == replaced(text@, from@, to@),
{
    text.replace(from, to)
}

/// The timed lines that the `lrc` crate reads from a text, each with its
/// time in milliseconds, in the order in which the crate keeps them; none
/// where the crate refuses the text.
pub uninterp spec fn lrc_timed_lines(text: Seq<char>) -> Option<Seq<(i64, Seq<char>)>>;

/// The error of `lrc::Lyrics::from_str`, of which nothing is read.
#[verifier::external_type_specification]
#[verifier::external_body]
pub struct ExLyricsError(lrc::LyricsError);

/// Values of a sequence of timed texts, in order.
pub open spec fn timed_views(lines: Seq<(i64, String)>) -> Seq<(i64, Seq<char>)> {
    lines.map_values(|l: (i64, String)| (l.0, l.1@))
}

/// Parses with `lrc::Lyrics::from_str` and hands out what
/// `Lyrics::get_timed_lines` holds, each line with the milliseconds of
/// `TimeTag::get_timestamp`. The result depends on the text alone and is
/// only named.
#[verifier::external_body]
fn lrc_parse(text: &str) -> (r: Result<Vec<(i64, String)>, lrc::LyricsError>)
    ensures
        match r {
            Ok(lines) => lrc_timed_lines(text@) == Some(timed_views(lines@)),
            Err(_) => lrc_timed_lines(text@) is None,
        },
{
    let parsed = lrc::Lyrics::from_str(text)?;
    Ok(parsed.get_timed_lines().iter().map(|l| (l.0.get_timestamp(), l.1.to_string())).collect())
}

/// A text with the character entities of markup written out: the
/// apostrophe, the quotation mark, the ampersand, the two angle brackets,
/// and three kinds of space, in this order.
pub open spec fn unescaped(text: Seq<char>) -> Seq<char> {
    let a = replaced(text, "&apos;"@, "'"@);
    let b = replaced(a, "&quot;"@, "\""@);
    let c = replaced(b, "&amp;"@, "&"@);
    let d = replaced(c, "&lt;"@, "<"@);
    let e = replaced(d, "&gt;"@, ">"@);
    let f = replaced(e, "&nbsp;"@, " "@);
    let g = replaced(f, "&ensp;"@, " "@);
    replaced(g, "&emsp;"@, " "@)
}

/// Writes out the character entities of markup.
pub fn unescape(text: &str) -> (r: String)
    ensures
        r@ == unescaped(text@),
{
    let a = replace(text, "&apos;", "'");
    let b = replace(a.as_str(), "&quot;", "\"");
    let c = replace(b.as_str(), "&amp;", "&");
    let d = replace(c.as_str(), "&lt;", "<");
    let e = replace(d.as_str(), "&gt;", ">");
    let f = replace(e.as_str(), "&nbsp;", " ");
    let g = replace(f.as_str(), "&ensp;", " ");
    replace(g.as_str(), "&emsp;", " ")
}

/// The lyrics of timed texts.
pub open spec fn lines_of(timed: Seq<(i64, Seq<char>)>) -> Seq<LyricLineView> {
    timed.map_values(|l: (i64, Seq<char>)| LyricLineView { timestamp: l.0, text: l.1 })
}

/// Makes lyrics of timed texts, in their order.
pub fn lyrics_of(timed: Vec<(i64, String)>) -> (r: Lyrics)
    ensures
        r@ == lines_of(timed_views(timed@)),
{
    let ghost all = timed@;
    let mut stack = crate::vecs::reversed(timed);
    let mut lines: Vec<LyricLine> = Vec::new();
    while stack.len() > 0
        invariant
            stack@.len() + lines@.len() == all.len(),
            stack@ == all.reverse().take(stack@.len() as int),
            forall|j: int|
                0 <= j < lines@.len() ==> (#[trigger] lines@[j])@ == (LyricLineView {
                    timestamp: all[j].0,
                    text: all[j].1@,
                }),
        decreases stack.len(),
    {
        let (timestamp, text) = stack.pop().unwrap();
        lines.push(LyricLine { timestamp, text });
    }
    let r = Lyrics(lines);
    assert(r@ =~= lines_of(timed_views(all)));
    r
}

/// What a text in base64 yields: the lyrics in the text that its bytes
/// spell, with the character entities written out.
pub open spec fn decoded(payload: Seq<char>) -> Result<Seq<LyricLineView>, LyricError> {
    match base64_decoded(payload) {
        None => Err(LyricError::Base64),
        Some(bytes) => if !valid_utf8(bytes) {
            Err(LyricError::Encoding)
        } else {
            match lrc_timed_lines(unescaped(decode_utf8(bytes))) {
                None => Err(LyricError::Format),
                Some(timed) => Ok(lines_of(timed)),
            }
        },
    }
}

/// Value of a result that holds lyrics.
pub open spec fn viewed_lyrics(r: Result<Lyrics, LyricError>) -> Result<
    Seq<LyricLineView>,
    LyricError,
> {
    match r {
        Ok(l) => Ok(l@),
        Err(e) => Err(e),
    }
}

/// The lyrics that are kept with the library. None are kept so far.
#[derive(Debug, PartialEq, Eq, Structural, Clone, Copy)]
pub struct LocalLyricSource;

impl LocalLyricSource {
    /// The lyrics of a track by its artist and title: none.
    pub fn fetch_lyrics(artist: &str, title: &str) -> (r: Vec<Lyrics>)
        ensures
            r@.len() == 0,
    {
        Vec::new()
    }
}

/// The lyrics of a remote catalogue of songs.
#[derive(Debug, PartialEq, Eq, Structural, Clone, Copy)]
pub struct QQProvider;

impl QQProvider {
    /// The words to search the catalogue for a track: its title, a space,
    /// and its artist.
    pub fn search_key(artist: &str, title: &str) -> (r: String)
        ensures
            r@ == title@ + " "@ + artist@,
    {
        let mut key = String::from_str(title);
        key.append(" ");
        key.append(artist);
        key
    }

    /// Reads the lyrics that the catalogue sent for a song: text in base64,
    /// with character entities in it.
    pub fn decode(payload: &str) -> (r: Result<Lyrics, LyricError>)
        ensures
            viewed_lyrics(r) == decoded(payload@),
    {
        let bytes = match base64_decode(payload) {
            Ok(bytes) => bytes,
            Err(_) => {
                return Err(LyricError::Base64);
            },
        };
        let text = match text_of_bytes(bytes) {
            Some(text) => text,
            None => {
                return Err(LyricError::Encoding);
            },
        };
        let plain = unescape(text.as_str());
        match lrc_parse(plain.as_str()) {
            Ok(timed) => Ok(lyrics_of(timed)),
            Err(_) => Err(LyricError::Format),
        }
    }
}

} // verus!
