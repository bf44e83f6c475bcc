use vstd::prelude::*;

use crate::spotify_client_auth::SpotifyCurrentPlaying;

verus! {

/// The last now-playing line drawn and the terminal width it was drawn at,
/// kept so that an unchanged banner is not drawn again.
pub struct DisplayCache {
    pub last_track: Option<String>,
    pub last_width: u16,
}

/// What a `DisplayCache` remembers, as text.
pub struct CacheView {
    pub line: Option<Seq<char>>,
    pub width: u16,
}

impl View for DisplayCache {
    type V = CacheView;

    open spec fn view(&self) -> CacheView {
        CacheView {
            line: match self.last_track {
                Some(s) => Some(s@),
                None => None,
            },
            width: self.last_width,
        }
    }
}

/// Whether drawing `line` at `width` differs from what `c` remembers.
pub open spec fn needs_redraw(c: CacheView, line: Seq<char>, width: u16) -> bool {
    c.line != Some(line) || c.width != width
}

/// What the cache remembers once `line` at `width` is on screen.
pub open spec fn after_render(line: Seq<char>, width: u16) -> CacheView {
    CacheView { line: Some(line), width }
}

/// A render of the line and width drawn last draws nothing; a render with
/// another line or another width draws.
pub proof fn lemma_redraw_only_on_change(line: Seq<char>, width: u16, next_line: Seq<char>, next_width: u16)
    ensures
        !needs_redraw(after_render(line, width), line, width),
        (next_line != line || next_width != width) ==> needs_redraw(after_render(line, width), next_line, next_width),
{
}

impl DisplayCache {
    /// A cache that has drawn nothing yet.
    pub fn new() -> (r: DisplayCache)
        ensures
            r@ == (CacheView { line: None, width: 0 }),
    {
        DisplayCache { last_track: None, last_width: 0 }
    }

    /// Decides whether `line` at `width` has to be drawn, and remembers both
    /// when it does.
    pub fn observe(&mut self, line: &str, width: u16) -> (redraw: bool)
        ensures
            redraw == needs_redraw(old(self)@, line@, width),
            final(self)@ == after_render(line@, width),
    {
        let same_line = match &self.last_track {
            Some(last) => crate::text::same_text(last.as_str(), line),
            None => false,
        };
        if same_line && self.last_width == width {
            return false;
        }
        self.last_track = Some(String::from_str(line));
        self.last_width = width;
        true
    }

    /// Forgets the line drawn last, so that the next render draws.
    pub fn forget(&mut self)
        ensures
            final(self)@ == (CacheView { line: None, width: old(self)@.width }),
    {
        self.last_track = None;
    }
}

/// The now-playing line for `track`.
pub open spec fn track_line(track: Option<SpotifyCurrentPlaying>) -> Seq<char> {
    match track {
        Some(t) => t.song@ + " - "@ + t.artists@,
        None => "No song playing"@,
    }
}

/// The now-playing line: song and artist, or a placeholder when nothing plays.
pub fn now_playing_line(track: &Option<SpotifyCurrentPlaying>) -> (r: String)
    ensures
        r@ == track_line(*track),
{
    match track {
        Some(t) => {
            let mut s = t.song.clone();
            s.append(" - ");
            s.append(t.artists.as_str());
            s
        },
        None => String::from_str("No song playing"),
    }
}

/// The columns inside the banner's borders at terminal width `width`.
pub open spec fn interior(width: u16) -> int {
    if width >= 2 {
        width - 2
    } else {
        0
    }
}

/// `line` cut to `room` characters, ending in an ellipsis where it was cut.
pub open spec fn fitted(line: Seq<char>, room: int) -> Seq<char> {
    if line.len() <= room {
        line
    } else if room >= 3 {
        line.subrange(0, room - 3) + "..."@
    } else {
        "..."@.subrange(0, room)
    }
}

/// The banner text for `line` at terminal width `width`.
pub fn fit_to_width(line: &str, width: u16) -> (r: String)
    ensures
        r@ == fitted(line@, interior(width)),
        r@.len() <= interior(width) || r@ == line@,
{
    proof {
        reveal_strlit("...");
    }
    let room: usize = if width >= 2 { (width - 2) as usize } else { 0 };
    let n = line.unicode_len();
    if n <= room {
        String::from_str(line)
    } else if room >= 3 {
        let mut s = String::from_str(line.substring_char(0, room - 3));
        s.append("...");
        s
    } else {
        String::from_str("...".substring_char(0, room))
    }
}

/// The column at which a text of `len` characters stands centred inside the
/// banner's borders.
pub open spec fn centred_column(width: u16, len: int) -> int {
    if interior(width) > len {
        1 + (interior(width) - len) / 2
    } else {
        1
    }
}

/// The column at which the banner text starts.
pub fn banner_column(width: u16, len: usize) -> (r: u16)
    ensures
        r == centred_column(width, len as int),
{
    let room: u16 = if width >= 2 { width - 2 } else { 0 };
    if (room as usize) > len {
        1 + (room - len as u16) / 2
    } else {
        1
    }
}

/// A now-playing banner to draw: its text, the column it starts at, and the
/// terminal width its frame spans.
pub struct Banner {
    pub text: String,
    pub column: u16,
    pub width: u16,
}

} // verus!
