//! The player: its state, and what it does on every event.
//!
//! `App::update` takes one event and gives back what is to be done next. Where
//! that has an outcome the player goes on from, the outcome comes back as an
//! event of its own, before any other: reading the blacklist answers with
//! `BlacklistRead`, a message to mpv with `VolumeSent`, starting mpv with
//! `PlayerSpawned`, saving a like with `LikeSaved`.

use vstd::prelude::*;
use crate::blacklist;
use crate::likes::LikeKind;
use crate::mpv;
use crate::mpv::{IpcSend, PlayerCommand};
use crate::now_playing::NowPlayingResponse;
use crate::text;

verus! {

/// The name of the station, shown where a track has no title.
pub const STATION: &'static str = "Wreckers Radio";

/// Whether mpv runs.
#[derive(Debug, Clone, Copy, PartialEq, Eq, Structural)]
pub enum Playback {
    Stopped,
    Playing,
}

/// What the blacklist file is read for.
#[derive(Debug, Clone, Copy, PartialEq, Eq, Structural)]
pub enum ReadPurpose {
    /// The regular look at the file.
    Poll,
    /// Another file was chosen.
    Switch,
    /// The listener asked for it.
    Reload,
}

/// What is left to do of an event once the volume is as it should be.
pub enum Next {
    /// Ask the API.
    Poll,
    /// Take in the rest of an answer of the API.
    Fetched { art: String },
    /// Nothing: mpv was just started.
    Started,
    /// Say which file is used now.
    Switched,
    /// Say that the file was read again.
    Reloaded,
}

/// The model of a `Next`.
pub enum NextView {
    Poll,
    Fetched { art: Seq<char> },
    Started,
    Switched,
    Reloaded,
}

impl View for Next {
    type V = NextView;

    open spec fn view(&self) -> NextView {
        match *self {
            Next::Poll => NextView::Poll,
            Next::Fetched { art } => NextView::Fetched { art: art@ },
            Next::Started => NextView::Started,
            Next::Switched => NextView::Switched,
            Next::Reloaded => NextView::Reloaded,
        }
    }
}

/// The file tracked as the blacklist: its path, which is only passed on, and
/// the text by which it is shown.
pub struct BlacklistFile<P> {
    pub path: P,
    pub shown: String,
}

/// The model of a `BlacklistFile`.
#[verifier::ext_equal]
pub struct BlacklistFileView<P> {
    pub path: P,
    pub shown: Seq<char>,
}

impl<P> View for BlacklistFile<P> {
    type V = BlacklistFileView<P>;

    open spec fn view(&self) -> BlacklistFileView<P> {
        BlacklistFileView { path: self.path, shown: self.shown@ }
    }
}

/// The state of the player. Pictures (`A`), running processes (`C`) and paths
/// (`P`) are kept and handed on, never looked into.
pub struct App<A, C, P> {
    pub artist: String,
    pub title: String,
    /// The artwork on display.
    pub art: Option<A>,
    /// The address of the artwork on display or asked for last.
    pub art_url: String,
    pub listeners: Option<u64>,
    pub status: Option<String>,
    /// What came of the last like.
    pub like_status: Option<String>,
    pub playback: Playback,
    /// The running mpv.
    pub player: Option<C>,
    /// The path of mpv's IPC endpoint.
    pub ipc_path: String,
    /// The entries of the blacklist, in lower case.
    pub blacklist: Vec<String>,
    /// Whether mpv has been muted because the track is on the blacklist. It is
    /// so from when the message that mutes has reached mpv until one that
    /// unmutes has, or until mpv is ended.
    pub muted: bool,
    pub file_menu_open: bool,
    pub blacklist_file: BlacklistFile<P>,
}

/// The model of an `App`.
#[verifier::ext_equal]
pub struct AppView<A, C, P> {
    pub artist: Seq<char>,
    pub title: Seq<char>,
    pub art: Option<A>,
    pub art_url: Seq<char>,
    pub listeners: Option<u64>,
    pub status: Option<Seq<char>>,
    pub like_status: Option<Seq<char>>,
    pub playback: Playback,
    pub player: Option<C>,
    pub ipc_path: Seq<char>,
    pub blacklist: Seq<Seq<char>>,
    pub muted: bool,
    pub file_menu_open: bool,
    pub blacklist_file: BlacklistFileView<P>,
}

impl<A, C, P> View for App<A, C, P> {
    type V = AppView<A, C, P>;

    open spec fn view(&self) -> AppView<A, C, P> {
        AppView {
            artist: self.artist@,
            title: self.title@,
            art: self.art,
            art_url: self.art_url@,
            listeners: self.listeners,
            status: text::optional_text(self.status),
            like_status: text::optional_text(self.like_status),
            playback: self.playback,
            player: self.player,
            ipc_path: self.ipc_path@,
            blacklist: text::texts(self.blacklist@),
            muted: self.muted,
            file_menu_open: self.file_menu_open,
            blacklist_file: self.blacklist_file@,
        }
    }
}

/// An event.
pub enum Message<A, C, P> {
    /// It is time to look at the blacklist file and to ask the API.
    Tick,
    /// The API answered, or could not be reached.
    NowPlayingFetched(Result<NowPlayingResponse, String>),
    /// New artwork has come.
    ArtworkLoaded(A),
    /// New artwork could not be had.
    ArtworkFailed,
    PlayPressed,
    StopPressed,
    LikePressed,
    ReallyLikePressed,
    FileMenuToggle,
    FileMenuClose,
    OpenBlacklistPressed,
    NewBlacklistPressed,
    EditBlacklistPressed,
    ReloadBlacklistPressed,
    /// A file dialog was left with a file, or cancelled.
    BlacklistPicked(Option<BlacklistFile<P>>),
    /// The blacklist file was handed to the editor, or the reason why not.
    BlacklistEditorOpened(Result<(), String>),
    /// The blacklist file was read; no content where it could not be.
    BlacklistRead { content: Option<String>, purpose: ReadPurpose },
    /// A message that mutes or unmutes was sent to mpv, or could not be.
    VolumeSent { mute: bool, result: Result<(), String>, next: Next },
    /// mpv was started, or could not be.
    PlayerSpawned(Result<C, String>),
    /// A like was saved, or could not be.
    LikeSaved { kind: LikeKind, result: Result<(), String> },
}

/// The model of a `Message`.
pub enum MessageView<A, C, P> {
    Tick,
    NowPlayingFetched(Result<crate::now_playing::NowPlayingView, Seq<char>>),
    ArtworkLoaded(A),
    ArtworkFailed,
    PlayPressed,
    StopPressed,
    LikePressed,
    ReallyLikePressed,
    FileMenuToggle,
    FileMenuClose,
    OpenBlacklistPressed,
    NewBlacklistPressed,
    EditBlacklistPressed,
    ReloadBlacklistPressed,
    BlacklistPicked(Option<BlacklistFileView<P>>),
    BlacklistEditorOpened(Result<(), Seq<char>>),
    BlacklistRead { content: Option<Seq<char>>, purpose: ReadPurpose },
    VolumeSent { mute: bool, result: Result<(), Seq<char>>, next: NextView },
    PlayerSpawned(Result<C, Seq<char>>),
    LikeSaved { kind: LikeKind, result: Result<(), Seq<char>> },
}

/// A result with the text of its error.
pub open spec fn result_text<T>(r: Result<T, String>) -> Result<T, Seq<char>> {
    match r {
        Ok(t) => Ok(t),
        Err(e) => Err(e@),
    }
}

impl<A, C, P> View for Message<A, C, P> {
    type V = MessageView<A, C, P>;

    open spec fn view(&self) -> MessageView<A, C, P> {
        match *self {
            Message::Tick => MessageView::Tick,
            Message::NowPlayingFetched(r) => MessageView::NowPlayingFetched(
                match r {
                    Ok(resp) => Ok(resp@),
                    Err(e) => Err(e@),
                },
            ),
            Message::ArtworkLoaded(a) => MessageView::ArtworkLoaded(a),
            Message::ArtworkFailed => MessageView::ArtworkFailed,
            Message::PlayPressed => MessageView::PlayPressed,
            Message::StopPressed => MessageView::StopPressed,
            Message::LikePressed => MessageView::LikePressed,
            Message::ReallyLikePressed => MessageView::ReallyLikePressed,
            Message::FileMenuToggle => MessageView::FileMenuToggle,
            Message::FileMenuClose => MessageView::FileMenuClose,
            Message::OpenBlacklistPressed => MessageView::OpenBlacklistPressed,
            Message::NewBlacklistPressed => MessageView::NewBlacklistPressed,
            Message::EditBlacklistPressed => MessageView::EditBlacklistPressed,
            Message::ReloadBlacklistPressed => MessageView::ReloadBlacklistPressed,
            Message::BlacklistPicked(f) => MessageView::BlacklistPicked(
                match f {
                    Some(f) => Some(f@),
                    None => None,
                },
            ),
            Message::BlacklistEditorOpened(r) => MessageView::BlacklistEditorOpened(
                result_text(r),
            ),
            Message::BlacklistRead { content, purpose } => MessageView::BlacklistRead {
                content: text::optional_text(content),
                purpose,
            },
            Message::VolumeSent { mute, result, next } => MessageView::VolumeSent {
                mute,
                result: result_text(result),
                next: next@,
            },
            Message::PlayerSpawned(r) => MessageView::PlayerSpawned(result_text(r)),
            Message::LikeSaved { kind, result } => MessageView::LikeSaved {
                kind,
                result: result_text(result),
            },
        }
    }
}

/// What is to be done after an event.
pub enum Action<C> {
    Nothing,
    /// Ask the API; answered by `NowPlayingFetched`.
    FetchNowPlaying,
    /// Get artwork from an address; answered by `ArtworkLoaded` or
    /// `ArtworkFailed`.
    DownloadArt(String),
    /// Read the tracked file; answered by `BlacklistRead`.
    ReadBlacklist(ReadPurpose),
    /// Send a message to mpv that mutes or unmutes; answered by `VolumeSent`.
    SendVolume { mute: bool, send: IpcSend, next: Next },
    /// Start mpv and, where that works, wait until it has settled; answered by
    /// `PlayerSpawned`.
    SpawnPlayer(PlayerCommand),
    /// End this mpv.
    KillPlayer(C),
    /// Append a like to the file of liked tracks; answered by `LikeSaved`.
    SaveLike { kind: LikeKind, artist: String, title: String },
    /// Let the listener pick an existing file; answered by `BlacklistPicked`.
    OpenDialog,
    /// Let the listener choose where a new file is to be, and see to it that
    /// there is one; answered by `BlacklistPicked`.
    SaveDialog,
    /// See to it that the tracked file exists and hand it to the editor;
    /// answered by `BlacklistEditorOpened`.
    EditBlacklist,
}

/// The model of an `Action`.
pub enum ActionView<C> {
    Nothing,
    FetchNowPlaying,
    DownloadArt(Seq<char>),
    ReadBlacklist(ReadPurpose),
    SendVolume { mute: bool, send: mpv::IpcSendView, next: NextView },
    SpawnPlayer(mpv::PlayerCommandView),
    KillPlayer(C),
    SaveLike { kind: LikeKind, artist: Seq<char>, title: Seq<char> },
    OpenDialog,
    SaveDialog,
    EditBlacklist,
}

impl<C> View for Action<C> {
    type V = ActionView<C>;

    open spec fn view(&self) -> ActionView<C> {
        match *self {
            Action::Nothing => ActionView::Nothing,
            Action::FetchNowPlaying => ActionView::FetchNowPlaying,
            Action::DownloadArt(url) => ActionView::DownloadArt(url@),
            Action::ReadBlacklist(purpose) => ActionView::ReadBlacklist(purpose),
            Action::SendVolume { mute, send, next } => ActionView::SendVolume {
                mute,
                send: send@,
                next: next@,
            },
            Action::SpawnPlayer(command) => ActionView::SpawnPlayer(command@),
            Action::KillPlayer(c) => ActionView::KillPlayer(c),
            Action::SaveLike { kind, artist, title } => ActionView::SaveLike {
                kind,
                artist: artist@,
                title: title@,
            },
            Action::OpenDialog => ActionView::OpenDialog,
            Action::SaveDialog => ActionView::SaveDialog,
            Action::EditBlacklist => ActionView::EditBlacklist,
        }
    }
}

// ---------------------------------------------------------------- messages

/// A track as it is shown.
pub open spec fn track_text(artist: Seq<char>, title: Seq<char>) -> Seq<char> {
    artist + " — "@ + title
}

/// What is said of the blacklist file and the number of its entries.
pub open spec fn file_text(verb: Seq<char>, shown: Seq<char>, count: nat) -> Seq<char> {
    verb + shown + " ("@ + text::decimal(count) + " entries)."@
}

/// What is said when the file could not be handed to the editor.
pub open spec fn editor_error_text(shown: Seq<char>, error: Seq<char>) -> Seq<char> {
    "Couldn't open "@ + shown + ": "@ + error
}

/// What is said after a message to mpv that mutes or unmutes: nothing after
/// unmuting worked.
pub open spec fn volume_status(
    mute: bool,
    artist: Seq<char>,
    title: Seq<char>,
    result: Result<(), Seq<char>>,
) -> Option<Seq<char>> {
    match (mute, result) {
        (true, Ok(_)) => Some("Muted (blacklisted): "@ + track_text(artist, title)),
        (true, Err(e)) => Some("Couldn't mute via mpv IPC: "@ + e),
        (false, Ok(_)) => None,
        (false, Err(e)) => Some("Couldn't unmute via mpv IPC: "@ + e),
    }
}

/// What is said after a like.
pub open spec fn like_status_text(
    kind: LikeKind,
    artist: Seq<char>,
    title: Seq<char>,
    result: Result<(), Seq<char>>,
) -> Seq<char> {
    match result {
        Ok(_) => kind.label() + ": "@ + track_text(artist, title),
        Err(e) => "Couldn't save like: "@ + e,
    }
}

// ---------------------------------------------------------------- transitions

impl<A, C, P> AppView<A, C, P> {
    /// Whether the track on air is on the blacklist.
    pub open spec fn on_blacklist(self) -> bool {
        blacklist::blacklisted(self.artist, self.title, self.blacklist)
    }

    /// What holds of the player between any two events: mpv runs just while
    /// the player plays, only a running mpv is muted, and there is a title to
    /// show.
    pub open spec fn wf(self) -> bool {
        &&& self.player is Some <==> self.playback is Playing
        &&& self.muted ==> self.playback is Playing
        &&& self.title.len() > 0
    }

    /// Whether mpv is muted just where it should be: while it plays a track
    /// that is on the blacklist.
    pub open spec fn in_step(self) -> bool {
        self.muted <==> self.playback is Playing && self.on_blacklist()
    }

    /// The volume that goes with being muted or not.
    pub open spec fn level(muted: bool) -> u8 {
        if muted {
            mpv::VOLUME_MUTED
        } else {
            mpv::VOLUME_FULL
        }
    }

    /// The rest of an event.
    pub open spec fn finish(self, next: NextView) -> (Self, ActionView<C>) {
        match next {
            NextView::Poll => (self, ActionView::FetchNowPlaying),
            NextView::Fetched { art } => if art.len() > 0 && art != self.art_url {
                (
                    AppView { like_status: None, art_url: art, ..self },
                    ActionView::DownloadArt(art),
                )
            } else {
                (AppView { like_status: None, ..self }, ActionView::Nothing)
            },
            NextView::Started => (self, ActionView::Nothing),
            NextView::Switched => (
                AppView {
                    status: Some(
                        file_text("Using "@, self.blacklist_file.shown, self.blacklist.len()),
                    ),
                    ..self
                },
                ActionView::Nothing,
            ),
            NextView::Reloaded => (
                AppView {
                    status: Some(
                        file_text("Reloaded "@, self.blacklist_file.shown, self.blacklist.len()),
                    ),
                    ..self
                },
                ActionView::Nothing,
            ),
        }
    }

    /// Has mpv muted or unmuted, where it plays and its being muted is not what
    /// the blacklist says. The event goes on once the outcome is known, or at
    /// once where mpv need not be told.
    pub open spec fn apply_blacklist(self, next: NextView) -> (Self, ActionView<C>) {
        if self.playback is Playing && self.muted != self.on_blacklist() {
            (
                self,
                ActionView::SendVolume {
                    mute: self.on_blacklist(),
                    send: mpv::volume_message(self.ipc_path, Self::level(self.on_blacklist())),
                    next,
                },
            )
        } else {
            self.finish(next)
        }
    }

    /// Takes in what came of a message that mutes or unmutes: where it reached
    /// the running mpv, mpv is as the message asked; where not, it is as it
    /// was.
    pub open spec fn volume_sent(self, mute: bool, result: Result<(), Seq<char>>) -> Self {
        AppView {
            status: volume_status(mute, self.artist, self.title, result),
            muted: if result is Ok && self.playback is Playing {
                mute
            } else {
                self.muted
            },
            ..self
        }
    }

    /// Takes in what the API answered: an empty title stands for that of the
    /// station.
    pub open spec fn fetched(self, resp: crate::now_playing::NowPlayingView) -> (
        Self,
        ActionView<C>,
    ) {
        AppView {
            artist: resp.artist,
            title: if resp.title.len() == 0 {
                STATION@
            } else {
                resp.title
            },
            listeners: Some(resp.listeners),
            ..self
        }.apply_blacklist(NextView::Fetched { art: resp.art })
    }

    /// Takes in the entries of the blacklist file. The regular look at the
    /// file changes nothing where they are the ones it had.
    pub open spec fn blacklist_read(self, list: Seq<Seq<char>>, purpose: ReadPurpose) -> (
        Self,
        ActionView<C>,
    ) {
        let read = AppView { blacklist: list, ..self };
        match purpose {
            ReadPurpose::Poll => if list == self.blacklist {
                self.finish(NextView::Poll)
            } else {
                read.apply_blacklist(NextView::Poll)
            },
            ReadPurpose::Switch => read.apply_blacklist(NextView::Switched),
            ReadPurpose::Reload => read.apply_blacklist(NextView::Reloaded),
        }
    }

    /// Takes in what came of starting mpv.
    pub open spec fn player_spawned(self, result: Result<C, Seq<char>>) -> (Self, ActionView<C>) {
        match result {
            Ok(c) => AppView {
                player: Some(c),
                playback: Playback::Playing,
                muted: false,
                status: None,
                ..self
            }.apply_blacklist(NextView::Started),
            Err(e) => (
                AppView {
                    status: Some(
                        "Couldn't start mpv ("@ + e + "). Is mpv installed and on PATH?"@,
                    ),
                    ..self
                },
                ActionView::Nothing,
            ),
        }
    }

    /// Ends the music.
    pub open spec fn stopped(self) -> (Self, ActionView<C>) {
        (
            AppView { player: None, playback: Playback::Stopped, muted: false, ..self },
            match self.player {
                Some(c) => ActionView::KillPlayer(c),
                None => ActionView::Nothing,
            },
        )
    }

    /// Likes the track on air, if there is one.
    pub open spec fn record_like(self, kind: LikeKind) -> (Self, ActionView<C>) {
        if self.artist.len() == 0 && self.title.len() == 0 {
            (AppView { like_status: Some("Nothing playing yet."@), ..self }, ActionView::Nothing)
        } else {
            (self, ActionView::SaveLike { kind, artist: self.artist, title: self.title })
        }
    }

    /// The player after an event, and what is to be done next.
    pub open spec fn step(self, message: MessageView<A, C, P>) -> (Self, ActionView<C>) {
        match message {
            MessageView::Tick => (self, ActionView::ReadBlacklist(ReadPurpose::Poll)),
            MessageView::NowPlayingFetched(Ok(resp)) => self.fetched(resp),
            MessageView::NowPlayingFetched(Err(e)) => (
                AppView { status: Some("Couldn't reach now-playing API: "@ + e), ..self },
                ActionView::Nothing,
            ),
            MessageView::ArtworkLoaded(a) => (
                AppView { art: Some(a), ..self },
                ActionView::Nothing,
            ),
            MessageView::ArtworkFailed => (self, ActionView::Nothing),
            MessageView::PlayPressed => (
                self,
                if self.player is None {
                    ActionView::SpawnPlayer(mpv::player_command(mpv::STREAM_URL@, self.ipc_path))
                } else {
                    ActionView::Nothing
                },
            ),
            MessageView::StopPressed => self.stopped(),
            MessageView::LikePressed => self.record_like(LikeKind::Like),
            MessageView::ReallyLikePressed => self.record_like(LikeKind::ReallyLike),
            MessageView::FileMenuToggle => (
                AppView { file_menu_open: !self.file_menu_open, ..self },
                ActionView::Nothing,
            ),
            MessageView::FileMenuClose => (
                AppView { file_menu_open: false, ..self },
                ActionView::Nothing,
            ),
            MessageView::OpenBlacklistPressed => (
                AppView { file_menu_open: false, ..self },
                ActionView::OpenDialog,
            ),
            MessageView::NewBlacklistPressed => (
                AppView { file_menu_open: false, ..self },
                ActionView::SaveDialog,
            ),
            MessageView::EditBlacklistPressed => (
                AppView { file_menu_open: false, ..self },
                ActionView::EditBlacklist,
            ),
            MessageView::ReloadBlacklistPressed => (
                AppView { file_menu_open: false, ..self },
                ActionView::ReadBlacklist(ReadPurpose::Reload),
            ),
            MessageView::BlacklistPicked(Some(file)) => (
                AppView { blacklist_file: file, ..self },
                ActionView::ReadBlacklist(ReadPurpose::Switch),
            ),
            MessageView::BlacklistPicked(None) => (self, ActionView::Nothing),
            MessageView::BlacklistEditorOpened(result) => (
                AppView {
                    status: Some(
                        match result {
                            Ok(_) => "Opened "@ + self.blacklist_file.shown
                                + " in your editor. Changes are picked up automatically."@,
                            Err(e) => e,
                        },
                    ),
                    ..self
                },
                ActionView::Nothing,
            ),
            MessageView::BlacklistRead { content, purpose } => self.blacklist_read(
                blacklist::loaded(content),
                purpose,
            ),
            MessageView::VolumeSent { mute, result, next } => self.volume_sent(
                mute,
                result,
            ).finish(next),
            MessageView::PlayerSpawned(result) => self.player_spawned(result),
            MessageView::LikeSaved { kind, result } => (
                AppView {
                    like_status: Some(
                        like_status_text(kind, self.artist, self.title, result),
                    ),
                    ..self
                },
                ActionView::Nothing,
            ),
        }
    }
}

/// The player at the start, with the blacklist file it tracks, what that holds
/// and the path of mpv's IPC endpoint.
pub open spec fn initial<A, C, P>(
    file: BlacklistFileView<P>,
    content: Option<Seq<char>>,
    ipc_path: Seq<char>,
) -> AppView<A, C, P> {
    AppView {
        artist: Seq::empty(),
        title: "Loading…"@,
        art: None,
        art_url: Seq::empty(),
        listeners: None,
        status: None,
        like_status: None,
        playback: Playback::Stopped,
        player: None,
        ipc_path,
        blacklist: blacklist::loaded(content),
        muted: false,
        file_menu_open: false,
        blacklist_file: file,
    }
}

// ---------------------------------------------------------------- the player

/// A track as it is shown.
pub fn track_label(artist: &str, title: &str) -> (r: String)
    ensures
        r@ == track_text(artist@, title@),
{
    text::concat3(artist, " — ", title)
}

/// What is said of the blacklist file and the number of its entries.
fn file_status(verb: &str, shown: &str, count: usize) -> (r: String)
    ensures
        r@ == file_text(verb@, shown@, count as nat),
{
    let mut r: String = text::concat3(verb, shown, " (");
    let number: String = text::decimal_text(count as u64);
    r.append(number.as_str());
    r.append(" entries).");
    r
}

/// What is said when a file could not be handed to the editor.
pub fn editor_error(shown: &str, error: &str) -> (r: String)
    ensures
        r@ == editor_error_text(shown@, error@),
{
    let mut r: String = text::concat3("Couldn't open ", shown, ": ");
    r.append(error);
    r
}

impl<A, C, P> App<A, C, P> {
    /// The player at the start, and what it does first: ask the API.
    pub fn new(file: BlacklistFile<P>, content: Option<String>, ipc_path: String) -> (r: (
        Self,
        Action<C>,
    ))
        ensures
            r.0@ == initial::<A, C, P>(file@, text::optional_text(content), ipc_path@),
            r.0@.wf(),
            r.0@.in_step(),
            r.1@ == ActionView::<C>::FetchNowPlaying,
    {
        let blacklist: Vec<String> = blacklist::load_blacklist(content);
        proof {
            reveal_strlit("Loading…");
        }
        (
            App {
                artist: String::new(),
                title: "Loading…".to_owned(),
                art: None,
                art_url: String::new(),
                listeners: None,
                status: None,
                like_status: None,
                playback: Playback::Stopped,
                player: None,
                ipc_path,
                blacklist,
                muted: false,
                file_menu_open: false,
                blacklist_file: file,
            },
            Action::FetchNowPlaying,
        )
    }

    /// The title of the window.
    pub fn title(&self) -> (r: String)
        ensures
            r@ == STATION@,
    {
        STATION.to_owned()
    }

    /// The rest of an event, once the volume is as it should be.
    fn finish(&mut self, next: Next) -> (r: Action<C>)
        ensures
            (final(self)@, r@) == old(self)@.finish(next@),
    {
        match next {
            Next::Poll => Action::FetchNowPlaying,
            Next::Fetched { art } => {
                self.like_status = None;
                if !art.as_str().is_empty() && !(art == self.art_url) {
                    self.art_url = art.clone();
                    Action::DownloadArt(art)
                } else {
                    Action::Nothing
                }
            },
            Next::Started => Action::Nothing,
            Next::Switched => {
                self.status = Some(
                    file_status("Using ", self.blacklist_file.shown.as_str(), self.blacklist.len()),
                );
                Action::Nothing
            },
            Next::Reloaded => {
                self.status = Some(
                    file_status(
                        "Reloaded ",
                        self.blacklist_file.shown.as_str(),
                        self.blacklist.len(),
                    ),
                );
                Action::Nothing
            },
        }
    }

    /// Holds the track on air against the blacklist, and has mpv muted or
    /// unmuted where that is needed. Does so only while something is playing.
    pub fn apply_blacklist(&mut self, next: Next) -> (r: Action<C>)
        ensures
            (final(self)@, r@) == old(self)@.apply_blacklist(next@),
    {
        if self.playback != Playback::Playing {
            return self.finish(next);
        }
        let blacklisted: bool = blacklist::is_blacklisted(
            self.artist.as_str(),
            self.title.as_str(),
            self.blacklist.as_slice(),
        );
        if blacklisted && !self.muted {
            Action::SendVolume {
                mute: true,
                send: mpv::send_ipc_volume(self.ipc_path.as_str(), mpv::VOLUME_MUTED),
                next,
            }
        } else if !blacklisted && self.muted {
            Action::SendVolume {
                mute: false,
                send: mpv::send_ipc_volume(self.ipc_path.as_str(), mpv::VOLUME_FULL),
                next,
            }
        } else {
            self.finish(next)
        }
    }

    /// Takes in what came of a message to mpv that mutes or unmutes.
    fn volume_sent(&mut self, mute: bool, result: Result<(), String>)
        ensures
            final(self)@ == old(self)@.volume_sent(mute, result_text(result)),
    {
        self.status = match result {
            Ok(_) => {
                if self.playback == Playback::Playing {
                    self.muted = mute;
                }
                if mute {
                    let label: String = track_label(self.artist.as_str(), self.title.as_str());
                    Some(text::concat2("Muted (blacklisted): ", label.as_str()))
                } else {
                    None
                }
            },
            Err(e) => if mute {
                Some(text::concat2("Couldn't mute via mpv IPC: ", e.as_str()))
            } else {
                Some(text::concat2("Couldn't unmute via mpv IPC: ", e.as_str()))
            },
        };
    }

    /// Tracks another blacklist file, which is then to be read.
    pub fn use_blacklist_file(&mut self, file: BlacklistFile<P>) -> (r: Action<C>)
        ensures
            final(self)@ == (AppView { blacklist_file: file@, ..old(self)@ }),
            r@ == ActionView::<C>::ReadBlacklist(ReadPurpose::Switch),
    {
        self.blacklist_file = file;
        Action::ReadBlacklist(ReadPurpose::Switch)
    }

    /// Takes in what the blacklist file holds.
    fn blacklist_read(&mut self, content: Option<String>, purpose: ReadPurpose) -> (r: Action<C>)
        ensures
            (final(self)@, r@) == old(self)@.blacklist_read(
                blacklist::loaded(text::optional_text(content)),
                purpose,
            ),
    {
        let read: Vec<String> = blacklist::load_blacklist(content);
        match purpose {
            ReadPurpose::Poll => {
                if blacklist::same_entries(&read, &self.blacklist) {
                    self.finish(Next::Poll)
                } else {
                    self.blacklist = read;
                    self.apply_blacklist(Next::Poll)
                }
            },
            ReadPurpose::Switch => {
                self.blacklist = read;
                self.apply_blacklist(Next::Switched)
            },
            ReadPurpose::Reload => {
                self.blacklist = read;
                self.apply_blacklist(Next::Reloaded)
            },
        }
    }

    /// Takes in an answer of the API.
    fn fetched(&mut self, resp: NowPlayingResponse) -> (r: Action<C>)
        ensures
            (final(self)@, r@) == old(self)@.fetched(resp@),
    {
        let song = resp.now_playing.song;
        self.artist = song.artist;
        self.title = if song.title.as_str().is_empty() {
            STATION.to_owned()
        } else {
            song.title
        };
        self.listeners = Some(resp.listeners.current);
        self.apply_blacklist(Next::Fetched { art: song.art })
    }

    /// Takes in what came of starting mpv.
    fn player_spawned(&mut self, result: Result<C, String>) -> (r: Action<C>)
        ensures
            (final(self)@, r@) == old(self)@.player_spawned(result_text(result)),
    {
        match result {
            Ok(child) => {
                self.player = Some(child);
                self.playback = Playback::Playing;
                self.muted = false;
                self.status = None;
                self.apply_blacklist(Next::Started)
            },
            Err(e) => {
                self.status = Some(
                    text::concat3(
                        "Couldn't start mpv (",
                        e.as_str(),
                        "). Is mpv installed and on PATH?",
                    ),
                );
                Action::Nothing
            },
        }
    }

    /// Likes the track on air, if there is one.
    pub fn record_like(&mut self, kind: LikeKind) -> (r: Action<C>)
        ensures
            (final(self)@, r@) == old(self)@.record_like(kind),
    {
        if self.artist.as_str().is_empty() && self.title.as_str().is_empty() {
            self.like_status = Some("Nothing playing yet.".to_owned());
            return Action::Nothing;
        }
        Action::SaveLike { kind, artist: self.artist.clone(), title: self.title.clone() }
    }

    /// Says what came of saving a like.
    fn like_saved(&mut self, kind: LikeKind, result: Result<(), String>)
        ensures
            final(self)@ == (AppView {
                like_status: Some(
                    like_status_text(
                        kind,
                        old(self)@.artist,
                        old(self)@.title,
                        result_text(result),
                    ),
                ),
                ..old(self)@
            }),
    {
        let said: String = match result {
            Ok(_) => {
                let label: String = track_label(self.artist.as_str(), self.title.as_str());
                text::concat3(kind.label_text(), ": ", label.as_str())
            },
            Err(e) => text::concat2("Couldn't save like: ", e.as_str()),
        };
        self.like_status = Some(said);
    }

    /// Takes the running mpv, if any, out of the player, which is then to be
    /// ended. This is also what is done when the program closes.
    pub fn shutdown(&mut self) -> (r: Action<C>)
        ensures
            (final(self)@, r@) == old(self)@.stopped(),
            old(self)@.title.len() > 0 ==> final(self)@.wf(),
    {
        let child: Option<C> = self.player.take();
        self.playback = Playback::Stopped;
        self.muted = false;
        match child {
            Some(child) => Action::KillPlayer(child),
            None => Action::Nothing,
        }
    }

    /// Takes in an event, and says what is to be done next.
    pub fn update(&mut self, message: Message<A, C, P>) -> (r: Action<C>)
        ensures
            (final(self)@, r@) == old(self)@.step(message@),
            old(self)@.wf() ==> final(self)@.wf(),
    {
        proof {
            reveal_strlit("Wreckers Radio");
        }
        match message {
            Message::Tick => Action::ReadBlacklist(ReadPurpose::Poll),
            Message::NowPlayingFetched(result) => match result {
                Ok(resp) => self.fetched(resp),
                Err(e) => {
                    self.status = Some(
                        text::concat2("Couldn't reach now-playing API: ", e.as_str()),
                    );
                    Action::Nothing
                },
            },
            Message::ArtworkLoaded(art) => {
                self.art = Some(art);
                Action::Nothing
            },
            Message::ArtworkFailed => Action::Nothing,
            Message::PlayPressed => {
                if self.player.is_none() {
                    Action::SpawnPlayer(
                        mpv::spawn_player(mpv::STREAM_URL, self.ipc_path.as_str()),
                    )
                } else {
                    Action::Nothing
                }
            },
            Message::StopPressed => self.shutdown(),
            Message::LikePressed => self.record_like(LikeKind::Like),
            Message::ReallyLikePressed => self.record_like(LikeKind::ReallyLike),
            Message::FileMenuToggle => {
                self.file_menu_open = !self.file_menu_open;
                Action::Nothing
            },
            Message::FileMenuClose => {
                self.file_menu_open = false;
                Action::Nothing
            },
            Message::OpenBlacklistPressed => {
                self.file_menu_open = false;
                Action::OpenDialog
            },
            Message::NewBlacklistPressed => {
                self.file_menu_open = false;
                Action::SaveDialog
            },
            Message::EditBlacklistPressed => {
                self.file_menu_open = false;
                Action::EditBlacklist
            },
            Message::ReloadBlacklistPressed => {
                self.file_menu_open = false;
                Action::ReadBlacklist(ReadPurpose::Reload)
            },
            Message::BlacklistPicked(picked) => match picked {
                Some(file) => self.use_blacklist_file(file),
                None => Action::Nothing,
            },
            Message::BlacklistEditorOpened(result) => {
                self.status = Some(
                    match result {
                        Ok(_) => text::concat3(
                            "Opened ",
                            self.blacklist_file.shown.as_str(),
                            " in your editor. Changes are picked up automatically.",
                        ),
                        Err(e) => e,
                    },
                );
                Action::Nothing
            },
            Message::BlacklistRead { content, purpose } => self.blacklist_read(content, purpose),
            Message::VolumeSent { mute, result, next } => {
                self.volume_sent(mute, result);
                self.finish(next)
            },
            Message::PlayerSpawned(result) => self.player_spawned(result),
            Message::LikeSaved { kind, result } => {
                self.like_saved(kind, result);
                Action::Nothing
            },
        }
    }
}

} // verus!
