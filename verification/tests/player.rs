use wreckers_radio::app::{
    editor_error, track_label, Action, App, BlacklistFile, Message, Next, Playback, ReadPurpose,
};
use wreckers_radio::likes::LikeKind;
use wreckers_radio::mpv::{send_ipc_line, send_ipc_volume, spawn_player, SETTLE_MILLIS, STREAM_URL};
use wreckers_radio::now_playing::{
    CurrentSong, Listeners, NowPlayingResponse, Song, NOWPLAYING_URL, POLL_SECS,
};
use wreckers_radio::screen::{MenuItem, Screen, Transport};

type Player = App<u32, u32, u32>;

fn player(content: Option<&str>) -> Player {
    let file = BlacklistFile { path: 1, shown: "Blacklist.txt".to_string() };
    let (app, first) = Player::new(file, content.map(|s| s.to_string()), "/tmp/s".to_string());
    assert!(matches!(first, Action::FetchNowPlaying));
    app
}

fn answer(artist: &str, title: &str, art: &str, listeners: u64) -> Message<u32, u32, u32> {
    Message::NowPlayingFetched(Ok(NowPlayingResponse {
        now_playing: CurrentSong {
            song: Song {
                artist: artist.to_string(),
                title: title.to_string(),
                art: art.to_string(),
            },
        },
        listeners: Listeners { current: listeners },
    }))
}

fn read(content: Option<&str>, purpose: ReadPurpose) -> Message<u32, u32, u32> {
    Message::BlacklistRead { content: content.map(|s| s.to_string()), purpose }
}

/// What mpv is asked, and the rest of an event that waits for it.
fn sent(action: Action<u32>) -> (bool, String, Next) {
    match action {
        Action::SendVolume { mute, send, next } => {
            assert_eq!(send.endpoint, "/tmp/s");
            (mute, send.text, next)
        }
        _ => panic!("no message to mpv"),
    }
}

fn ok(mute: bool, next: Next) -> Message<u32, u32, u32> {
    Message::VolumeSent { mute, result: Ok(()), next }
}

fn failed(mute: bool, next: Next) -> Message<u32, u32, u32> {
    Message::VolumeSent { mute, result: Err("no socket".to_string()), next }
}

fn playing(content: &str, artist: &str, title: &str) -> Player {
    let mut app = player(Some(content));
    assert!(matches!(app.update(answer(artist, title, "", 3)), Action::Nothing));
    assert!(matches!(app.update(Message::PlayPressed), Action::SpawnPlayer(_)));
    match app.update(Message::PlayerSpawned(Ok(9))) {
        Action::SendVolume { mute, next, .. } => {
            assert!(mute && !app.muted);
            assert!(matches!(app.update(ok(true, next)), Action::Nothing));
            assert!(app.muted);
        }
        action => assert!(matches!(action, Action::Nothing)),
    }
    app
}

#[test]
fn addresses_and_times() {
    assert_eq!(NOWPLAYING_URL, "https://az.wreckersradio.uk/api/nowplaying/wreckersradio");
    assert_eq!(STREAM_URL, "https://az.wreckersradio.uk/listen/wreckersradio/radio.mp3");
    assert_eq!(POLL_SECS, 15);
    assert_eq!(SETTLE_MILLIS, 300);
}

#[test]
fn player_at_the_start() {
    let app = player(Some("ABBA\n#x"));
    assert_eq!(app.artist, "");
    assert_eq!(app.title, "Loading…");
    assert_eq!(app.blacklist, vec!["abba".to_string()]);
    assert_eq!(app.playback, Playback::Stopped);
    assert!(app.art.is_none() && app.player.is_none() && app.listeners.is_none());
    assert!(app.status.is_none() && app.like_status.is_none());
    assert!(!app.muted && !app.file_menu_open);
    assert_eq!(app.ipc_path, "/tmp/s");
    assert_eq!(app.title(), "Wreckers Radio");
    assert!(player(None).blacklist.is_empty());
}

#[test]
fn command_line_of_mpv() {
    let command = spawn_player("http://x", "/tmp/s");
    assert_eq!(command.program, "mpv");
    assert_eq!(
        command.args,
        vec![
            "--no-video",
            "--really-quiet",
            "--force-seekable=no",
            "--volume=100",
            "--input-ipc-server=/tmp/s",
            "http://x"
        ]
    );
}

#[test]
fn volume_message_is_json_on_a_line() {
    let send = send_ipc_volume("/tmp/s", 100);
    assert_eq!(send.endpoint, "/tmp/s");
    assert_eq!(send.text, "{\"command\": [\"set_property\", \"volume\", 100]}\n");
    assert_eq!(
        send_ipc_volume("p", 0).text,
        "{\"command\": [\"set_property\", \"volume\", 0]}\n"
    );
    assert_eq!(send_ipc_line("p", "x").text, "x\n");
    assert_eq!(send_ipc_line("p", "x").endpoint, "p");
}

#[test]
fn answer_is_taken_in() {
    let mut app = player(None);
    app.like_status = Some("old".to_string());
    let action = app.update(answer("ABBA", "SOS", "http://art", 12));
    assert!(matches!(action, Action::DownloadArt(url) if url == "http://art"));
    assert_eq!(app.artist, "ABBA");
    assert_eq!(app.title, "SOS");
    assert_eq!(app.listeners, Some(12));
    assert_eq!(app.art_url, "http://art");
    assert!(app.like_status.is_none());
}

#[test]
fn empty_title_is_that_of_the_station() {
    let mut app = player(None);
    let resp = NowPlayingResponse::default();
    assert!(matches!(app.update(Message::NowPlayingFetched(Ok(resp))), Action::Nothing));
    assert_eq!(app.title, "Wreckers Radio");
    assert_eq!(app.artist, "");
    assert_eq!(app.listeners, Some(0));
}

#[test]
fn artwork_is_asked_for_once() {
    let mut app = player(None);
    assert!(matches!(app.update(answer("a", "b", "u", 1)), Action::DownloadArt(_)));
    assert!(matches!(app.update(answer("a", "b", "u", 1)), Action::Nothing));
    assert!(matches!(app.update(Message::ArtworkLoaded(5)), Action::Nothing));
    assert_eq!(app.art, Some(5));
    assert!(matches!(app.update(answer("a", "c", "", 1)), Action::Nothing));
    assert_eq!(app.art_url, "u");
    assert!(matches!(app.update(answer("a", "d", "v", 1)), Action::DownloadArt(_)));
    assert!(matches!(app.update(Message::ArtworkFailed), Action::Nothing));
    assert_eq!(app.art, Some(5));
}

#[test]
fn unreachable_api_is_told() {
    let mut app = player(None);
    app.update(answer("ABBA", "SOS", "", 1));
    let action = app.update(Message::NowPlayingFetched(Err("timeout".to_string())));
    assert!(matches!(action, Action::Nothing));
    assert_eq!(app.status.as_deref(), Some("Couldn't reach now-playing API: timeout"));
    assert_eq!(app.artist, "ABBA");
}

#[test]
fn play_and_stop() {
    let mut app = player(None);
    match app.update(Message::PlayPressed) {
        Action::SpawnPlayer(command) => {
            assert_eq!(command.args[4], "--input-ipc-server=/tmp/s");
            assert_eq!(command.args[5], STREAM_URL);
        }
        _ => panic!("mpv is not started"),
    }
    assert_eq!(app.playback, Playback::Stopped);
    app.status = Some("old".to_string());
    assert!(matches!(app.update(Message::PlayerSpawned(Ok(9))), Action::Nothing));
    assert_eq!(app.playback, Playback::Playing);
    assert_eq!(app.player, Some(9));
    assert!(app.status.is_none());
    assert!(matches!(app.update(Message::PlayPressed), Action::Nothing));
    assert!(matches!(app.update(Message::StopPressed), Action::KillPlayer(9)));
    assert_eq!(app.playback, Playback::Stopped);
    assert!(app.player.is_none());
    assert!(matches!(app.update(Message::StopPressed), Action::Nothing));
}

#[test]
fn mpv_that_does_not_start_is_told() {
    let mut app = player(None);
    let action = app.update(Message::PlayerSpawned(Err("not found".to_string())));
    assert!(matches!(action, Action::Nothing));
    assert_eq!(
        app.status.as_deref(),
        Some("Couldn't start mpv (not found). Is mpv installed and on PATH?")
    );
    assert_eq!(app.playback, Playback::Stopped);
}

#[test]
fn blacklisted_track_is_muted_and_the_next_is_not() {
    let mut app = playing("abba", "The Kinks", "Lola");
    assert!(!app.muted);
    let (mute, text, next) = sent(app.update(answer("ABBA", "SOS", "art", 3)));
    assert!(mute);
    assert_eq!(text, "{\"command\": [\"set_property\", \"volume\", 0]}\n");
    assert!(!app.muted);
    assert!(matches!(app.update(ok(mute, next)), Action::DownloadArt(url) if url == "art"));
    assert!(app.muted);
    assert_eq!(app.status.as_deref(), Some("Muted (blacklisted): ABBA — SOS"));
    assert!(matches!(app.update(answer("ABBA", "Fernando", "art", 3)), Action::Nothing));
    assert!(app.muted);
    let (mute, text, next) = sent(app.update(answer("The Kinks", "Lola", "art", 3)));
    assert!(!mute);
    assert_eq!(text, "{\"command\": [\"set_property\", \"volume\", 100]}\n");
    assert!(app.muted);
    assert!(matches!(app.update(ok(mute, next)), Action::Nothing));
    assert!(!app.muted);
    assert!(app.status.is_none());
}

#[test]
fn message_that_fails_is_told_and_sent_again() {
    let mut app = playing("abba", "The Kinks", "Lola");
    let (mute, _, next) = sent(app.update(answer("ABBA", "SOS", "", 3)));
    app.update(failed(mute, next));
    assert_eq!(app.status.as_deref(), Some("Couldn't mute via mpv IPC: no socket"));
    assert!(!app.muted);
    assert!(app.window().mute_label.is_none());
    let (mute, _, next) = sent(app.update(answer("ABBA", "SOS", "", 3)));
    assert!(mute);
    app.update(ok(mute, next));
    assert!(app.muted);
    let (mute, _, next) = sent(app.update(answer("The Kinks", "Lola", "", 3)));
    assert!(!mute);
    app.update(failed(mute, next));
    assert_eq!(app.status.as_deref(), Some("Couldn't unmute via mpv IPC: no socket"));
    assert!(app.muted);
    let (mute, _, next) = sent(app.update(answer("The Kinks", "Lola", "", 3)));
    assert!(!mute);
    app.update(ok(mute, next));
    assert!(!app.muted && app.status.is_none());
}

#[test]
fn message_that_arrives_after_stop_mutes_nothing() {
    let mut app = playing("abba", "The Kinks", "Lola");
    let (mute, _, next) = sent(app.update(answer("ABBA", "SOS", "", 3)));
    app.update(Message::StopPressed);
    app.update(ok(mute, next));
    assert!(!app.muted);
}

#[test]
fn starting_on_a_blacklisted_track_mutes() {
    let mut app = playing("abba", "ABBA", "SOS");
    assert!(app.muted);
    assert_eq!(app.status.as_deref(), Some("Muted (blacklisted): ABBA — SOS"));
    assert!(matches!(app.update(Message::StopPressed), Action::KillPlayer(9)));
    assert!(!app.muted);
}

#[test]
fn nothing_is_muted_while_stopped() {
    let mut app = player(Some("abba"));
    assert!(matches!(app.update(answer("ABBA", "SOS", "", 1)), Action::Nothing));
    assert!(!app.muted);
    assert!(matches!(
        app.update(read(Some("sos"), ReadPurpose::Poll)),
        Action::FetchNowPlaying
    ));
}

#[test]
fn tick_reads_the_file_and_asks_the_api() {
    let mut app = playing("abba", "The Kinks", "Lola");
    assert!(matches!(
        app.update(Message::Tick),
        Action::ReadBlacklist(ReadPurpose::Poll)
    ));
    assert!(matches!(
        app.update(read(Some("ABBA\n"), ReadPurpose::Poll)),
        Action::FetchNowPlaying
    ));
    let (mute, _, next) = sent(app.update(read(Some("kinks"), ReadPurpose::Poll)));
    assert!(mute);
    assert!(matches!(app.update(ok(mute, next)), Action::FetchNowPlaying));
    assert_eq!(app.blacklist, vec!["kinks".to_string()]);
    let (mute, _, next) = sent(app.update(read(None, ReadPurpose::Poll)));
    assert!(!mute);
    assert!(matches!(app.update(failed(mute, next)), Action::FetchNowPlaying));
    assert!(app.blacklist.is_empty());
}

#[test]
fn another_file_is_used() {
    let mut app = playing("abba", "ABBA", "SOS");
    let file = BlacklistFile { path: 2, shown: "/home/me/mine.txt".to_string() };
    assert!(matches!(
        app.update(Message::BlacklistPicked(Some(file))),
        Action::ReadBlacklist(ReadPurpose::Switch)
    ));
    assert_eq!(app.blacklist_file.path, 2);
    let (mute, _, next) = sent(app.update(read(Some("kinks\nlola"), ReadPurpose::Switch)));
    assert!(!mute);
    assert!(matches!(app.update(failed(mute, next)), Action::Nothing));
    assert_eq!(app.status.as_deref(), Some("Using /home/me/mine.txt (2 entries)."));
    assert!(matches!(app.update(Message::BlacklistPicked(None)), Action::Nothing));
    assert_eq!(app.blacklist_file.path, 2);
}

#[test]
fn file_is_read_again() {
    let mut app = playing("abba", "The Kinks", "Lola");
    app.update(Message::FileMenuToggle);
    assert!(matches!(
        app.update(Message::ReloadBlacklistPressed),
        Action::ReadBlacklist(ReadPurpose::Reload)
    ));
    assert!(!app.file_menu_open);
    let (mute, _, next) = sent(app.update(read(Some("lola"), ReadPurpose::Reload)));
    assert!(mute);
    assert!(matches!(app.update(ok(mute, next)), Action::Nothing));
    assert!(app.muted);
    assert_eq!(app.status.as_deref(), Some("Reloaded Blacklist.txt (1 entries)."));
}

#[test]
fn likes_are_saved_and_told() {
    let mut app = player(None);
    app.update(answer("ABBA", "SOS", "", 1));
    match app.update(Message::LikePressed) {
        Action::SaveLike { kind, artist, title } => {
            assert_eq!(kind, LikeKind::Like);
            assert_eq!(artist, "ABBA");
            assert_eq!(title, "SOS");
        }
        _ => panic!("the like is not saved"),
    }
    app.update(Message::LikeSaved { kind: LikeKind::Like, result: Ok(()) });
    assert_eq!(app.like_status.as_deref(), Some("👍 Liked: ABBA — SOS"));
    assert!(matches!(
        app.update(Message::ReallyLikePressed),
        Action::SaveLike { kind: LikeKind::ReallyLike, .. }
    ));
    app.update(Message::LikeSaved { kind: LikeKind::ReallyLike, result: Ok(()) });
    assert_eq!(app.like_status.as_deref(), Some("❤ Really liked: ABBA — SOS"));
    app.update(Message::LikeSaved {
        kind: LikeKind::Like,
        result: Err("disk full".to_string()),
    });
    assert_eq!(app.like_status.as_deref(), Some("Couldn't save like: disk full"));
}

#[test]
fn nothing_to_like_yet() {
    let mut app = player(None);
    app.title = String::new();
    assert!(matches!(app.update(Message::LikePressed), Action::Nothing));
    assert_eq!(app.like_status.as_deref(), Some("Nothing playing yet."));
    assert!(!app.window().can_like);
}

#[test]
fn editor_is_opened() {
    let mut app = player(None);
    app.update(Message::FileMenuToggle);
    assert!(matches!(app.update(Message::EditBlacklistPressed), Action::EditBlacklist));
    assert!(!app.file_menu_open);
    app.update(Message::BlacklistEditorOpened(Ok(())));
    assert_eq!(
        app.status.as_deref(),
        Some("Opened Blacklist.txt in your editor. Changes are picked up automatically.")
    );
    let error = editor_error("Blacklist.txt", "no editor");
    assert_eq!(error, "Couldn't open Blacklist.txt: no editor");
    app.update(Message::BlacklistEditorOpened(Err(error)));
    assert_eq!(app.status.as_deref(), Some("Couldn't open Blacklist.txt: no editor"));
}

#[test]
fn file_menu_opens_and_closes() {
    let mut app = player(None);
    app.update(Message::FileMenuToggle);
    assert!(app.file_menu_open);
    app.update(Message::FileMenuToggle);
    assert!(!app.file_menu_open);
    app.update(Message::FileMenuToggle);
    app.update(Message::FileMenuClose);
    assert!(!app.file_menu_open);
    app.update(Message::FileMenuToggle);
    assert!(matches!(app.update(Message::OpenBlacklistPressed), Action::OpenDialog));
    assert!(!app.file_menu_open);
    app.update(Message::FileMenuToggle);
    assert!(matches!(app.update(Message::NewBlacklistPressed), Action::SaveDialog));
    assert!(!app.file_menu_open);
}

#[test]
fn window_of_a_stopped_player() {
    let app = player(None);
    let window: Screen = app.window();
    assert_eq!(window.heading, "Wreckers Radio");
    assert_eq!(window.now_playing, "Loading…");
    assert_eq!(window.listeners, "");
    assert_eq!(window.transport, Transport::Play);
    assert_eq!(window.transport.label_text(), "▶  Play");
    assert!(window.mute_label.is_none());
    assert!(!window.can_like);
    assert!(window.menu.is_none());
    assert!(window.status.is_none() && window.like_status.is_none());
}

#[test]
fn tracks_can_be_liked_once_the_api_has_answered() {
    let mut app = player(None);
    assert!(!app.window().can_like);
    app.update(Message::NowPlayingFetched(Err("timeout".to_string())));
    assert!(!app.window().can_like);
    app.update(answer("", "", "", 0));
    assert!(app.window().can_like);
}

#[test]
fn window_of_a_muted_track() {
    let mut app = playing("abba\nkinks", "ABBA", "SOS");
    app.update(Message::FileMenuToggle);
    let window = app.window();
    assert_eq!(window.now_playing, "ABBA — SOS");
    assert_eq!(window.listeners, "3 listening");
    assert_eq!(window.transport, Transport::Stop);
    assert_eq!(window.transport.label_text(), "■  Stop");
    assert_eq!(window.mute_label.as_deref(), Some("🔇 muted (blacklisted track)"));
    assert_eq!(window.status.as_deref(), Some("Muted (blacklisted): ABBA — SOS"));
    let menu = window.menu.expect("the menu is open");
    assert_eq!(menu.header, "Blacklist.txt · 2 entries");
    let labels: Vec<&str> = menu.items.iter().map(|i| i.label_text()).collect();
    assert_eq!(
        labels,
        vec!["Open Blacklist File…", "New Blacklist File…", "Edit in Editor", "Reload Now"]
    );
    let nameless = app.screen(None).menu.expect("the menu is open");
    assert_eq!(nameless.header, "Blacklist.txt · 2 entries");
    let other = app.screen(Some("x.txt".to_string())).menu.expect("the menu is open");
    assert_eq!(other.header, "x.txt · 2 entries");
}

#[test]
fn menu_shows_the_name_of_the_file_alone() {
    let mut app = player(Some("a"));
    app.blacklist_file.shown = "some/where/mine.txt".to_string();
    app.update(Message::FileMenuToggle);
    let menu = app.window().menu.expect("the menu is open");
    assert_eq!(menu.header, "mine.txt · 1 entries");
}

#[test]
fn what_can_be_pressed_gives_its_event() {
    let play: Message<u32, u32, u32> = Transport::Play.message();
    assert!(matches!(play, Message::PlayPressed));
    let stop: Message<u32, u32, u32> = Transport::Stop.message();
    assert!(matches!(stop, Message::StopPressed));
    let open: Message<u32, u32, u32> = MenuItem::Open.message();
    assert!(matches!(open, Message::OpenBlacklistPressed));
    let new: Message<u32, u32, u32> = MenuItem::New.message();
    assert!(matches!(new, Message::NewBlacklistPressed));
    let edit: Message<u32, u32, u32> = MenuItem::Edit.message();
    assert!(matches!(edit, Message::EditBlacklistPressed));
    let reload: Message<u32, u32, u32> = MenuItem::Reload.message();
    assert!(matches!(reload, Message::ReloadBlacklistPressed));
}

#[test]
fn closing_the_program_ends_mpv() {
    let mut app = playing("", "a", "b");
    assert!(matches!(app.shutdown(), Action::KillPlayer(9)));
    assert!(app.player.is_none());
    assert!(matches!(app.shutdown(), Action::Nothing));
}

#[test]
fn track_with_artist_and_title() {
    assert_eq!(track_label("ABBA", "SOS"), "ABBA — SOS");
}
