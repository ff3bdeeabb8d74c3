//! What the desktop presence shows of the song that plays.

use vstd::prelude::*;

verus! {

/// The activity that is shown while a song plays.
#[derive(Clone, Debug, PartialEq, Eq)]
pub struct Presence {
    /// The name of the picture.
    pub large_image: String,
    /// The text under the picture.
    pub large_text: String,
    /// The artist of the song.
    pub state: String,
    /// The title of the song.
    pub details: String,
    /// When the song started, in seconds since the Unix epoch.
    pub start: i64,
}

/// What a `Presence` holds, with each text as a sequence of characters.
pub struct PresenceView {
    pub large_image: Seq<char>,
    pub large_text: Seq<char>,
    pub state: Seq<char>,
    pub details: Seq<char>,
    pub start: i64,
}

impl View for Presence {
    type V = PresenceView;

    open spec fn view(&self) -> PresenceView {
        PresenceView {
            large_image: self.large_image@,
            large_text: self.large_text@,
            state: self.state@,
            details: self.details@,
            start: self.start,
        }
    }
}

/// A number of seconds as a signed number of the same 64 bits.
pub open spec fn wrapped(secs: u64) -> int {
    if secs <= i64::MAX {
        secs as int
    } else {
        secs - 0x1_0000_0000_0000_0000
    }
}

/// A text, or `fallback` in its absence.
pub open spec fn text_or(text: Option<Seq<char>>, fallback: Seq<char>) -> Seq<char> {
    match text {
        Some(t) => t,
        None => fallback,
    }
}

/// The activity to show for a song with this artist and title that starts
/// at `now_secs`.
pub open spec fn presence_of(
    artist: Option<Seq<char>>,
    title: Option<Seq<char>>,
    now_secs: u64,
) -> PresenceView {
    PresenceView {
        large_image: "termusic"@,
        large_text: "terminal music player written in Rust"@,
        state: text_or(artist, "Unknown Artist"@),
        details: text_or(title, "Unknown Title"@),
        start: wrapped(now_secs) as i64,
    }
}

/// Builds the activity to show for a song.
pub fn presence(artist: Option<&str>, title: Option<&str>, now_secs: u64) -> (shown: Presence)
    ensures
        shown@ == presence_of(artist.deep_view(), title.deep_view(), now_secs),
{
    let start: i64 = if now_secs <= 0x7fff_ffff_ffff_ffff {
        now_secs as i64
    } else {
        (now_secs - 0x8000_0000_0000_0000) as i64 + i64::MIN
    };
    Presence {
        large_image: "termusic".to_owned(),
        large_text: "terminal music player written in Rust".to_owned(),
        state: match artist {
            Some(a) => a.to_owned(),
            None => "Unknown Artist".to_owned(),
        },
        details: match title {
            Some(t) => t.to_owned(),
            None => "Unknown Title".to_owned(),
        },
        start,
    }
}

} // verus!
