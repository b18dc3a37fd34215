//! What the lyrics source posts to the overlay, and the events that carry it
//! on to the display surface.
use vstd::prelude::*;

verus! {

/// The track that is playing.
#[derive(Clone, Debug, PartialEq, Eq)]
pub struct TrackInfo {
    pub title: String,
    pub artist: String,
    pub album: String,
    pub album_art: Option<String>,
    pub duration: u64,
}

/// One line of lyrics, with its start and end in milliseconds.
#[derive(Clone, Debug, PartialEq, Eq)]
pub struct LyricLine {
    pub start_time: i64,
    pub end_time: Option<i64>,
    /// The lyric as written.
    pub text: String,
    /// Phonetic or romanized text.
    pub pron_text: Option<String>,
    /// The lyric in another language.
    pub trans_text: Option<String>,
}

/// A whole lyrics payload.
#[derive(Clone, Debug, PartialEq, Eq)]
pub struct LyricsData {
    pub track: TrackInfo,
    pub lyrics: Vec<LyricLine>,
    pub is_synced: bool,
}

/// The track that plays next, for a preview.
#[derive(Clone, Debug, PartialEq, Eq)]
pub struct NextTrackInfo {
    pub title: String,
    pub artist: String,
    pub album_art: Option<String>,
}

/// The event that hands a lyrics payload to the display surface.
#[derive(Clone, Debug, PartialEq, Eq)]
pub struct LyricsEvent {
    pub lyrics_data: LyricsData,
}

} // verus!
