//! What the window shows.

use vstd::prelude::*;
use crate::app;
use crate::app::{App, Playback};
use crate::paths;
use crate::text;

verus! {

/// The label of the button that likes a track.
pub const LIKE_LABEL: &'static str = "👍 Like";

/// The label of the button that likes a track very much.
pub const REALLY_LIKE_LABEL: &'static str = "❤ Really Like";

/// The label of the file menu.
pub const FILE_LABEL: &'static str = "File";

/// The button that starts or ends the music.
#[derive(Debug, Clone, Copy, PartialEq, Eq, Structural)]
pub enum Transport {
    Play,
    Stop,
}

impl Transport {
    /// The label of the button.
    pub open spec fn label(self) -> Seq<char> {
        match self {
            Transport::Play => "▶  Play"@,
            Transport::Stop => "■  Stop"@,
        }
    }

    /// The label of the button.
    pub fn label_text(self) -> (r: &'static str)
        ensures
            r@ == self.label(),
    {
        match self {
            Transport::Play => "▶  Play",
            Transport::Stop => "■  Stop",
        }
    }

    /// The event that pressing the button gives.
    pub open spec fn pressed<A, C, P>(self) -> app::MessageView<A, C, P> {
        match self {
            Transport::Play => app::MessageView::PlayPressed,
            Transport::Stop => app::MessageView::StopPressed,
        }
    }

    /// The event that pressing the button gives.
    pub fn message<A, C, P>(self) -> (r: app::Message<A, C, P>)
        ensures
            r@ == self.pressed::<A, C, P>(),
    {
        match self {
            Transport::Play => app::Message::PlayPressed,
            Transport::Stop => app::Message::StopPressed,
        }
    }
}

/// An entry of the file menu.
#[derive(Debug, Clone, Copy, PartialEq, Eq, Structural)]
pub enum MenuItem {
    Open,
    New,
    Edit,
    Reload,
}

impl MenuItem {
    /// The label of the entry.
    pub open spec fn label(self) -> Seq<char> {
        match self {
            MenuItem::Open => "Open Blacklist File…"@,
            MenuItem::New => "New Blacklist File…"@,
            MenuItem::Edit => "Edit in Editor"@,
            MenuItem::Reload => "Reload Now"@,
        }
    }

    /// The label of the entry.
    pub fn label_text(self) -> (r: &'static str)
        ensures
            r@ == self.label(),
    {
        match self {
            MenuItem::Open => "Open Blacklist File…",
            MenuItem::New => "New Blacklist File…",
            MenuItem::Edit => "Edit in Editor",
            MenuItem::Reload => "Reload Now",
        }
    }

    /// The event that choosing the entry gives.
    pub open spec fn pressed<A, C, P>(self) -> app::MessageView<A, C, P> {
        match self {
            MenuItem::Open => app::MessageView::OpenBlacklistPressed,
            MenuItem::New => app::MessageView::NewBlacklistPressed,
            MenuItem::Edit => app::MessageView::EditBlacklistPressed,
            MenuItem::Reload => app::MessageView::ReloadBlacklistPressed,
        }
    }

    /// The event that choosing the entry gives.
    pub fn message<A, C, P>(self) -> (r: app::Message<A, C, P>)
        ensures
            r@ == self.pressed::<A, C, P>(),
    {
        match self {
            MenuItem::Open => app::Message::OpenBlacklistPressed,
            MenuItem::New => app::Message::NewBlacklistPressed,
            MenuItem::Edit => app::Message::EditBlacklistPressed,
            MenuItem::Reload => app::Message::ReloadBlacklistPressed,
        }
    }
}

/// The open file menu: a line on the tracked file, and the entries.
pub struct Menu {
    pub header: String,
    pub items: Vec<MenuItem>,
}

/// The model of a `Menu`.
#[verifier::ext_equal]
pub struct MenuView {
    pub header: Seq<char>,
    pub items: Seq<MenuItem>,
}

/// What the window shows, besides the artwork.
pub struct Screen {
    pub heading: String,
    pub now_playing: String,
    pub listeners: String,
    pub transport: Transport,
    pub mute_label: Option<String>,
    /// Whether the two like buttons can be pressed: once it is known what is
    /// playing.
    pub can_like: bool,
    pub like_status: Option<String>,
    pub menu: Option<Menu>,
    pub status: Option<String>,
}

/// The model of a `Screen`.
#[verifier::ext_equal]
pub struct ScreenView {
    pub heading: Seq<char>,
    pub now_playing: Seq<char>,
    pub listeners: Seq<char>,
    pub transport: Transport,
    pub mute_label: Option<Seq<char>>,
    pub can_like: bool,
    pub like_status: Option<Seq<char>>,
    pub menu: Option<MenuView>,
    pub status: Option<Seq<char>>,
}

impl View for Screen {
    type V = ScreenView;

    open spec fn view(&self) -> ScreenView {
        ScreenView {
            heading: self.heading@,
            now_playing: self.now_playing@,
            listeners: self.listeners@,
            transport: self.transport,
            mute_label: text::optional_text(self.mute_label),
            can_like: self.can_like,
            like_status: text::optional_text(self.like_status),
            menu: match self.menu {
                Some(menu) => Some(MenuView { header: menu.header@, items: menu.items@ }),
                None => None,
            },
            status: text::optional_text(self.status),
        }
    }
}

/// The track as it is shown: the title alone where no artist is known.
pub open spec fn now_playing_text(artist: Seq<char>, title: Seq<char>) -> Seq<char> {
    if artist.len() == 0 {
        title
    } else {
        app::track_text(artist, title)
    }
}

/// How many listen, where that is known.
pub open spec fn listeners_text(listeners: Option<u64>) -> Seq<char> {
    match listeners {
        Some(n) => text::decimal(n as nat) + " listening"@,
        None => Seq::empty(),
    }
}

/// The line of the file menu on a file with the given name.
pub open spec fn menu_header(name: Option<Seq<char>>, count: nat) -> Seq<char> {
    paths::name_or_default(name) + " · "@ + text::decimal(count) + " entries"@
}

/// What the window shows of a player whose blacklist file has the given name.
pub open spec fn screen_of<A, C, P>(app: app::AppView<A, C, P>, name: Option<Seq<char>>) -> ScreenView {
    ScreenView {
        heading: app::STATION@,
        now_playing: now_playing_text(app.artist, app.title),
        listeners: listeners_text(app.listeners),
        transport: match app.playback {
            Playback::Stopped => Transport::Play,
            Playback::Playing => Transport::Stop,
        },
        mute_label: if app.muted {
            Some("🔇 muted (blacklisted track)"@)
        } else {
            None
        },
        can_like: app.listeners is Some && (app.artist.len() > 0 || app.title.len() > 0),
        like_status: app.like_status,
        menu: if app.file_menu_open {
            Some(
                MenuView {
                    header: menu_header(name, app.blacklist.len()),
                    items: seq![MenuItem::Open, MenuItem::New, MenuItem::Edit, MenuItem::Reload],
                },
            )
        } else {
            None
        },
        status: app.status,
    }
}

/// The open file menu over a file with the given name and number of entries.
fn file_menu(name: Option<String>, count: usize) -> (r: Menu)
    ensures
        r.header@ == menu_header(text::optional_text(name), count as nat),
        r.items@ == seq![MenuItem::Open, MenuItem::New, MenuItem::Edit, MenuItem::Reload],
{
    let name: String = paths::file_name_or_default(name);
    let number: String = text::decimal_text(count as u64);
    let mut header: String = text::concat3(name.as_str(), " · ", number.as_str());
    header.append(" entries");
    let mut items: Vec<MenuItem> = Vec::new();
    items.push(MenuItem::Open);
    items.push(MenuItem::New);
    items.push(MenuItem::Edit);
    items.push(MenuItem::Reload);
    Menu { header, items }
}

impl<A, C, P> App<A, C, P> {
    /// What the window shows, given the name of the blacklist file.
    pub fn screen(&self, name: Option<String>) -> (r: Screen)
        ensures
            r@ == screen_of(self@, text::optional_text(name)),
    {
        let now_playing: String = if self.artist.as_str().is_empty() {
            self.title.clone()
        } else {
            app::track_label(self.artist.as_str(), self.title.as_str())
        };
        let listeners: String = match self.listeners {
            Some(n) => {
                let number: String = text::decimal_text(n);
                text::concat2(number.as_str(), " listening")
            },
            None => String::new(),
        };
        let transport: Transport = match self.playback {
            Playback::Stopped => Transport::Play,
            Playback::Playing => Transport::Stop,
        };
        let mute_label: Option<String> = if self.muted {
            Some("🔇 muted (blacklisted track)".to_owned())
        } else {
            None
        };
        let menu: Option<Menu> = if self.file_menu_open {
            Some(file_menu(name, self.blacklist.len()))
        } else {
            None
        };
        Screen {
            heading: app::STATION.to_owned(),
            now_playing,
            listeners,
            transport,
            mute_label,
            can_like: self.listeners.is_some() && (!self.artist.as_str().is_empty()
                || !self.title.as_str().is_empty()),
            like_status: self.like_status.clone(),
            menu,
            status: self.status.clone(),
        }
    }

    /// What the window shows.
    pub fn window(&self) -> (r: Screen)
        ensures
            exists|name: Option<Seq<char>>| #[trigger]
                paths::is_file_name(self@.blacklist_file.shown, name) && r@ == screen_of(
                    self@,
                    name,
                ),
            paths::is_slash_path(self@.blacklist_file.shown) ==> r@ == screen_of(
                self@,
                paths::final_name(self@.blacklist_file.shown),
            ),
    {
        let name: Option<String> = paths::file_name(self.blacklist_file.shown.as_str());
        assert(paths::is_file_name(self@.blacklist_file.shown, text::optional_text(name)));
        self.screen(name)
    }
}

} // verus!
