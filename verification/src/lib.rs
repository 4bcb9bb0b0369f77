//! A player for Wreckers Radio, without its window: what it does on every
//! event, what it shows, and the files it keeps.

pub mod app;
pub mod blacklist;
pub mod file_laws;
pub mod likes;
pub mod mpv;
pub mod now_playing;
pub mod paths;
pub mod player_laws;
pub mod screen;
pub mod text;
