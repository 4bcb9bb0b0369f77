//! What the station's "now playing" API tells.

use vstd::prelude::*;

verus! {

/// The address of the API.
pub const NOWPLAYING_URL: &'static str =
    "https://az.wreckersradio.uk/api/nowplaying/wreckersradio";

/// How often the API is asked, in seconds. It keeps an answer for as long.
pub const POLL_SECS: u64 = 15;

/// A track, with the address of its artwork.
#[derive(Debug, Clone)]
pub struct Song {
    pub artist: String,
    pub title: String,
    pub art: String,
}

/// What is on air.
#[derive(Debug, Clone)]
pub struct CurrentSong {
    pub song: Song,
}

/// How many listen.
#[derive(Debug, Clone)]
pub struct Listeners {
    pub current: u64,
}

/// An answer of the API.
#[derive(Debug, Clone)]
pub struct NowPlayingResponse {
    pub now_playing: CurrentSong,
    pub listeners: Listeners,
}

/// The model of a `NowPlayingResponse`.
#[verifier::ext_equal]
pub struct NowPlayingView {
    pub artist: Seq<char>,
    pub title: Seq<char>,
    pub art: Seq<char>,
    pub listeners: u64,
}

impl View for NowPlayingResponse {
    type V = NowPlayingView;

    open spec fn view(&self) -> NowPlayingView {
        NowPlayingView {
            artist: self.now_playing.song.artist@,
            title: self.now_playing.song.title@,
            art: self.now_playing.song.art@,
            listeners: self.listeners.current,
        }
    }
}

impl Default for Song {
    /// A track of which nothing is known.
    fn default() -> (r: Self)
        ensures
            r.artist@.len() == 0,
            r.title@.len() == 0,
            r.art@.len() == 0,
    {
        Song { artist: String::new(), title: String::new(), art: String::new() }
    }
}

impl Default for CurrentSong {
    /// A track of which nothing is known.
    fn default() -> (r: Self)
        ensures
            r.song.artist@.len() == 0,
            r.song.title@.len() == 0,
            r.song.art@.len() == 0,
    {
        CurrentSong { song: Song::default() }
    }
}

impl Default for Listeners {
    /// Nobody listens.
    fn default() -> (r: Self)
        ensures
            r.current == 0,
    {
        Listeners { current: 0 }
    }
}

impl Default for NowPlayingResponse {
    /// An answer that says nothing.
    fn default() -> (r: Self)
        ensures
            r@.artist.len() == 0,
            r@.title.len() == 0,
            r@.art.len() == 0,
            r@.listeners == 0,
    {
        NowPlayingResponse { now_playing: CurrentSong::default(), listeners: Listeners::default() }
    }
}

} // verus!
