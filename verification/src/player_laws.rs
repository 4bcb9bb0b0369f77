//! What holds of the player as a whole.

use vstd::prelude::*;
use crate::app;
use crate::app::ReadPurpose;
use crate::blacklist;
use crate::likes::LikeKind;
use crate::mpv;
use crate::now_playing;
use crate::screen;
use crate::screen::MenuItem;
use crate::text;

verus! {

/// Where mpv was sent a message, what the event comes to once the outcome of
/// that is known.
pub open spec fn settled<A, C, P>(
    x: (app::AppView<A, C, P>, app::ActionView<C>),
    result: Result<(), Seq<char>>,
) -> (app::AppView<A, C, P>, app::ActionView<C>) {
    match x.1 {
        app::ActionView::SendVolume { mute, send, next } => x.0.step(
            app::MessageView::VolumeSent { mute, result, next },
        ),
        _ => x,
    }
}

/// The player after some events, each with the outcome of the message that mpv
/// is sent because of it, if any.
pub open spec fn run<A, C, P>(
    start: app::AppView<A, C, P>,
    events: Seq<(app::MessageView<A, C, P>, Result<(), Seq<char>>)>,
) -> app::AppView<A, C, P>
    decreases events.len(),
{
    if events.len() == 0 {
        start
    } else {
        let (event, result) = events.last();
        settled(run(start, events.drop_last()).step(event), result).0
    }
}

/// Whether none of the events is the outcome of a message to mpv: those belong
/// to the events that the messages were sent for.
pub open spec fn no_outcomes<A, C, P>(
    events: Seq<(app::MessageView<A, C, P>, Result<(), Seq<char>>)>,
) -> bool {
    forall|i: int| 0 <= i < events.len() ==> !((#[trigger] events[i]).0 is VolumeSent)
}

/// Whether every message to mpv arrived.
pub open spec fn all_arrived<A, C, P>(
    events: Seq<(app::MessageView<A, C, P>, Result<(), Seq<char>>)>,
) -> bool {
    forall|i: int| 0 <= i < events.len() ==> (#[trigger] events[i]).1 is Ok
}

/// The volume of the running mpv after an event, given what it was before: the
/// one that a message set, if it arrived. An mpv that was just started has the
/// volume of its command line.
pub open spec fn volume_after<A, C, P>(
    before: u8,
    player: app::AppView<A, C, P>,
    event: app::MessageView<A, C, P>,
    result: Result<(), Seq<char>>,
) -> u8 {
    let unless_set = match event {
        app::MessageView::PlayerSpawned(Ok(c)) => mpv::VOLUME_FULL,
        _ => before,
    };
    match player.step(event).1 {
        app::ActionView::SendVolume { mute, send, next } => if result is Ok {
            app::AppView::<A, C, P>::level(mute)
        } else {
            unless_set
        },
        _ => unless_set,
    }
}

/// The volume of the running mpv after some events.
pub open spec fn volume<A, C, P>(
    start: app::AppView<A, C, P>,
    events: Seq<(app::MessageView<A, C, P>, Result<(), Seq<char>>)>,
) -> u8
    decreases events.len(),
{
    if events.len() == 0 {
        mpv::VOLUME_FULL
    } else {
        let (event, result) = events.last();
        volume_after(
            volume(start, events.drop_last()),
            run(start, events.drop_last()),
            event,
            result,
        )
    }
}

// ---------------------------------------------------------------- what an event can change

/// The track, its artist and the number of listeners are those of the API's
/// last answer: an answer sets all three, and no other event touches them. A
/// track without a title goes by the name of the station.
pub proof fn law_track_comes_from_the_api<A, C, P>(
    player: app::AppView<A, C, P>,
    event: app::MessageView<A, C, P>,
)
    ensures
        ({
            let after = player.step(event).0;
            match event {
                app::MessageView::NowPlayingFetched(Ok(resp)) => {
                    &&& after.artist == resp.artist
                    &&& resp.title.len() > 0 ==> after.title == resp.title
                    &&& resp.title.len() == 0 ==> after.title == "Wreckers Radio"@
                    &&& after.listeners == Some(resp.listeners)
                },
                _ => {
                    &&& after.artist == player.artist
                    &&& after.title == player.title
                    &&& after.listeners == player.listeners
                },
            }
        }),
{
}

/// The blacklist is always the one that was read last: reading the file puts
/// its entries in place of the old ones, and no other event touches them. The
/// tracked file is always the one that was picked last.
pub proof fn law_blacklist_comes_from_the_file<A, C, P>(
    player: app::AppView<A, C, P>,
    event: app::MessageView<A, C, P>,
)
    ensures
        ({
            let after = player.step(event).0;
            &&& match event {
                app::MessageView::BlacklistRead { content: Some(content), purpose } =>
                    after.blacklist == blacklist::entries(content),
                app::MessageView::BlacklistRead { content: None, purpose } =>
                    after.blacklist.len() == 0,
                _ => after.blacklist == player.blacklist,
            }
            &&& match event {
                app::MessageView::BlacklistPicked(Some(file)) => after.blacklist_file == file,
                _ => after.blacklist_file == player.blacklist_file,
            }
        }),
{
}

/// Artwork that has come is on display, in place of any that was, and changes
/// nothing else; no other event touches the artwork.
pub proof fn law_artwork_is_displayed<A, C, P>(
    player: app::AppView<A, C, P>,
    event: app::MessageView<A, C, P>,
)
    ensures
        match event {
            app::MessageView::ArtworkLoaded(a) => {
                let (after, action) = player.step(event);
                &&& after.art == Some(a)
                &&& (app::AppView { art: player.art, ..after }) == player
                &&& action is Nothing
            },
            _ => player.step(event).0.art == player.art,
        },
{
}

/// The address of artwork that is asked for is remembered, is not empty and is
/// not the one that was remembered; where none is asked for, the address stays.
pub proof fn law_artwork_address<A, C, P>(
    player: app::AppView<A, C, P>,
    event: app::MessageView<A, C, P>,
)
    ensures
        match player.step(event).1 {
            app::ActionView::DownloadArt(url) => {
                &&& player.step(event).0.art_url == url
                &&& url.len() > 0
                &&& url != player.art_url
            },
            _ => player.step(event).0.art_url == player.art_url,
        },
{
}

/// The process that the player holds is the one started last, and the player
/// plays, until Stop; no other event touches either. The IPC endpoint is the
/// same for the whole run.
pub proof fn law_running_mpv<A, C, P>(
    player: app::AppView<A, C, P>,
    event: app::MessageView<A, C, P>,
)
    ensures
        ({
            let after = player.step(event).0;
            &&& after.ipc_path == player.ipc_path
            &&& match event {
                app::MessageView::PlayerSpawned(Ok(child)) => after.player == Some(child)
                    && after.playback is Playing,
                app::MessageView::StopPressed => after.player is None
                    && after.playback is Stopped,
                _ => after.player == player.player && after.playback == player.playback,
            }
        }),
{
}

/// mpv counts as muted from a message that reached it while it plays: as that
/// message asked. A new mpv and no mpv are not muted. No other event touches
/// this.
pub proof fn law_what_mutes<A, C, P>(
    player: app::AppView<A, C, P>,
    event: app::MessageView<A, C, P>,
)
    ensures
        player.step(event).0.muted == match event {
            app::MessageView::PlayerSpawned(Ok(child)) => false,
            app::MessageView::StopPressed => false,
            app::MessageView::VolumeSent { mute, result: Ok(_), next } => if player.playback
                is Playing {
                mute
            } else {
                player.muted
            },
            _ => player.muted,
        },
{
}

/// The file menu turns with its button, is shut by leaving it and by each of its
/// entries, and is touched by no other event.
pub proof fn law_what_opens_the_menu<A, C, P>(
    player: app::AppView<A, C, P>,
    event: app::MessageView<A, C, P>,
)
    ensures
        player.step(event).0.file_menu_open == match event {
            app::MessageView::FileMenuToggle => !player.file_menu_open,
            app::MessageView::FileMenuClose => false,
            app::MessageView::OpenBlacklistPressed => false,
            app::MessageView::NewBlacklistPressed => false,
            app::MessageView::EditBlacklistPressed => false,
            app::MessageView::ReloadBlacklistPressed => false,
            _ => player.file_menu_open,
        },
{
}

/// What the player tells changes only where there is something to tell: what
/// came of a message to mpv, which file is used and with how many entries, that
/// the file was opened in an editor, and what failed. Starting mpv takes back
/// what was told before.
pub proof fn law_what_is_told<A, C, P>(
    player: app::AppView<A, C, P>,
    event: app::MessageView<A, C, P>,
)
    ensures
        ({
            let (after, action) = player.step(event);
            let shown = player.blacklist_file.shown;
            let entries = text::decimal(after.blacklist.len());
            let using = Some("Using "@ + shown + " ("@ + entries + " entries)."@);
            let reloaded = Some("Reloaded "@ + shown + " ("@ + entries + " entries)."@);
            match event {
                app::MessageView::NowPlayingFetched(Err(e)) => after.status == Some(
                    "Couldn't reach now-playing API: "@ + e,
                ),
                app::MessageView::PlayerSpawned(Err(e)) => after.status == Some(
                    "Couldn't start mpv ("@ + e + "). Is mpv installed and on PATH?"@,
                ),
                app::MessageView::PlayerSpawned(Ok(child)) => after.status is None,
                app::MessageView::BlacklistEditorOpened(Ok(_)) => after.status == Some(
                    "Opened "@ + shown + " in your editor. Changes are picked up automatically."@,
                ),
                app::MessageView::BlacklistEditorOpened(Err(e)) => after.status == Some(e),
                app::MessageView::BlacklistRead { content, purpose } => {
                    if action is SendVolume || purpose is Poll {
                        after.status == player.status
                    } else if purpose is Switch {
                        after.status == using
                    } else {
                        after.status == reloaded
                    }
                },
                app::MessageView::VolumeSent { mute, result, next } => {
                    if next is Switched {
                        after.status == using
                    } else if next is Reloaded {
                        after.status == reloaded
                    } else {
                        match result {
                            Ok(_) => if mute {
                                after.status == Some(
                                    "Muted (blacklisted): "@ + player.artist + " — "@
                                        + player.title,
                                )
                            } else {
                                after.status is None
                            },
                            Err(e) => if mute {
                                after.status == Some("Couldn't mute via mpv IPC: "@ + e)
                            } else {
                                after.status == Some("Couldn't unmute via mpv IPC: "@ + e)
                            },
                        }
                    }
                },
                _ => after.status == player.status,
            }
        }),
{
    assert("Muted (blacklisted): "@ + (player.artist + " — "@ + player.title)
        == "Muted (blacklisted): "@ + player.artist + " — "@ + player.title);
}

/// What is told of a like changes with the outcome of a like, and is taken back
/// once an answer of the API has been taken in.
pub proof fn law_what_is_told_of_likes<A, C, P>(
    player: app::AppView<A, C, P>,
    event: app::MessageView<A, C, P>,
)
    ensures
        ({
            let (after, action) = player.step(event);
            let nothing_to_like = player.artist.len() == 0 && player.title.len() == 0;
            match event {
                app::MessageView::LikeSaved { kind: LikeKind::Like, result: Ok(_) } =>
                    after.like_status == Some(
                    "👍 Liked"@ + ": "@ + player.artist + " — "@ + player.title,
                ),
                app::MessageView::LikeSaved { kind: LikeKind::ReallyLike, result: Ok(_) } =>
                    after.like_status == Some(
                    "❤ Really liked"@ + ": "@ + player.artist + " — "@ + player.title,
                ),
                app::MessageView::LikeSaved { kind, result: Err(e) } => after.like_status == Some(
                    "Couldn't save like: "@ + e,
                ),
                app::MessageView::LikePressed | app::MessageView::ReallyLikePressed =>
                    after.like_status == (if nothing_to_like {
                    Some("Nothing playing yet."@)
                } else {
                    player.like_status
                }),
                app::MessageView::NowPlayingFetched(Ok(resp)) => after.like_status == (
                if action is SendVolume {
                    player.like_status
                } else {
                    None
                }),
                app::MessageView::VolumeSent { mute, result, next } => after.like_status == (
                if next is Fetched {
                    None
                } else {
                    player.like_status
                }),
                _ => after.like_status == player.like_status,
            }
        }),
{
    assert("👍 Liked"@ + ": "@ + (player.artist + " — "@ + player.title) == "👍 Liked"@ + ": "@
        + player.artist + " — "@ + player.title);
    assert("❤ Really liked"@ + ": "@ + (player.artist + " — "@ + player.title)
        == "❤ Really liked"@ + ": "@ + player.artist + " — "@ + player.title);
}

// ---------------------------------------------------------------- what an event asks for

/// The track is held against the blacklist when the API has answered, when mpv
/// was started, and when the file was read, save for a regular look that finds
/// the entries as they were. mpv is sent a message just where that was done,
/// something plays, and mpv is muted where the track is not on the blacklist or
/// the other way round. The message is a line of JSON to the endpoint of this
/// run, which sets the volume to nothing or to full. Once its outcome is known,
/// the event goes on as it would have gone on at once.
pub proof fn law_when_mpv_is_told<A, C, P>(
    player: app::AppView<A, C, P>,
    event: app::MessageView<A, C, P>,
)
    ensures
        ({
            let (after, action) = player.step(event);
            let listed = blacklist::blacklisted(after.artist, after.title, after.blacklist);
            let judged = match event {
                app::MessageView::NowPlayingFetched(Ok(resp)) => true,
                app::MessageView::PlayerSpawned(Ok(child)) => true,
                app::MessageView::BlacklistRead { content, purpose } => purpose !is Poll
                    || after.blacklist != player.blacklist,
                _ => false,
            };
            &&& action is SendVolume <==> judged && after.playback is Playing && after.muted
                != listed
            &&& action matches app::ActionView::SendVolume { mute, send, next } ==> {
                &&& mute == listed
                &&& send.endpoint == player.ipc_path
                &&& mute ==> send.text == "{\"command\": [\"set_property\", \"volume\", 0]}\n"@
                &&& !mute ==> send.text == "{\"command\": [\"set_property\", \"volume\", 100]}\n"@
                &&& match event {
                    app::MessageView::NowPlayingFetched(Ok(resp)) => next
                        == app::NextView::Fetched { art: resp.art },
                    app::MessageView::BlacklistRead { content, purpose: ReadPurpose::Poll } => next
                        is Poll,
                    app::MessageView::BlacklistRead {
                        content,
                        purpose: ReadPurpose::Switch,
                    } => next is Switched,
                    app::MessageView::BlacklistRead {
                        content,
                        purpose: ReadPurpose::Reload,
                    } => next is Reloaded,
                    _ => next is Started,
                }
            }
        }),
{
    lemma_volume_texts(player.ipc_path);
}

proof fn lemma_volume_texts(ipc_path: Seq<char>)
    ensures
        mpv::volume_message(ipc_path, 0).text
            == "{\"command\": [\"set_property\", \"volume\", 0]}\n"@,
        mpv::volume_message(ipc_path, 100).text
            == "{\"command\": [\"set_property\", \"volume\", 100]}\n"@,
{
    reveal_strlit("{\"command\": [\"set_property\", \"volume\", ");
    reveal_strlit("]}");
    reveal_strlit("\n");
    reveal_strlit("{\"command\": [\"set_property\", \"volume\", 0]}\n");
    reveal_strlit("{\"command\": [\"set_property\", \"volume\", 100]}\n");
    reveal_with_fuel(text::decimal, 3);
    assert(text::decimal(0) == seq!['0']);
    assert(text::decimal(100) == seq!['1', '0', '0']);
    assert(mpv::volume_message(ipc_path, 0).text
        == "{\"command\": [\"set_property\", \"volume\", 0]}\n"@);
    assert(mpv::volume_message(ipc_path, 100).text
        == "{\"command\": [\"set_property\", \"volume\", 100]}\n"@);
}

/// Everything else that an event asks for: each thing is asked for on its own
/// occasion and on no other.
pub proof fn law_what_is_asked_for<A, C, P>(
    player: app::AppView<A, C, P>,
    event: app::MessageView<A, C, P>,
)
    ensures
        ({
            let (after, action) = player.step(event);
            let likes = player.artist.len() > 0 || player.title.len() > 0;
            &&& action is SpawnPlayer <==> event is PlayPressed && player.player is None
            &&& action is KillPlayer <==> event is StopPressed && player.player is Some
            &&& action matches app::ActionView::KillPlayer(child) ==> player.player == Some(child)
            &&& action is SaveLike <==> (event is LikePressed || event is ReallyLikePressed)
                && likes
            &&& action matches app::ActionView::SaveLike { kind, artist, title } ==> {
                &&& kind is ReallyLike <==> event is ReallyLikePressed
                &&& artist == player.artist
                &&& title == player.title
            }
            &&& action is OpenDialog <==> event is OpenBlacklistPressed
            &&& action is SaveDialog <==> event is NewBlacklistPressed
            &&& action is EditBlacklist <==> event is EditBlacklistPressed
            &&& action is ReadBlacklist <==> {
                ||| event is Tick
                ||| event is ReloadBlacklistPressed
                ||| event is BlacklistPicked && event->BlacklistPicked_0 is Some
            }
            &&& action matches app::ActionView::ReadBlacklist(purpose) ==> {
                &&& purpose is Poll <==> event is Tick
                &&& purpose is Reload <==> event is ReloadBlacklistPressed
            }
            &&& action is FetchNowPlaying <==> match event {
                app::MessageView::BlacklistRead { content, purpose } => purpose is Poll && action
                    !is SendVolume,
                app::MessageView::VolumeSent { mute, result, next } => next is Poll,
                _ => false,
            }
            &&& action is DownloadArt <==> match event {
                app::MessageView::NowPlayingFetched(Ok(resp)) => action !is SendVolume
                    && resp.art.len() > 0 && resp.art != player.art_url,
                app::MessageView::VolumeSent {
                    mute,
                    result,
                    next: app::NextView::Fetched { art },
                } => art.len() > 0 && art != player.art_url,
                _ => false,
            }
            &&& action matches app::ActionView::DownloadArt(url) ==> match event {
                app::MessageView::NowPlayingFetched(Ok(resp)) => url == resp.art,
                app::MessageView::VolumeSent {
                    mute,
                    result,
                    next: app::NextView::Fetched { art },
                } => url == art,
                _ => false,
            }
        }),
{
}

/// mpv is started without a window and quietly, with full volume, with the IPC
/// endpoint of this run, on the stream of the station.
pub proof fn law_command_of_mpv<A, C, P>(player: app::AppView<A, C, P>)
    requires
        player.player is None,
    ensures
        player.step(app::MessageView::PlayPressed).1 matches app::ActionView::SpawnPlayer(command)
            && {
            &&& command.program == "mpv"@
            &&& command.args.len() == 6
            &&& command.args.contains("--no-video"@)
            &&& command.args.contains("--really-quiet"@)
            &&& command.args.contains("--force-seekable=no"@)
            &&& command.args.contains("--volume=100"@)
            &&& command.args.contains("--input-ipc-server="@ + player.ipc_path)
            &&& command.args.last()
                == "https://az.wreckersradio.uk/listen/wreckersradio/radio.mp3"@
        },
{
    let command = mpv::player_command(mpv::STREAM_URL@, player.ipc_path);
    assert(command.args[0] == "--no-video"@);
    assert(command.args[1] == "--really-quiet"@);
    assert(command.args[2] == "--force-seekable=no"@);
    assert(command.args[3] == "--volume=100"@);
    assert(command.args[4] == "--input-ipc-server="@ + player.ipc_path);
}

/// The command that starts mpv is this one, for every stream and endpoint.
pub proof fn law_command(url: Seq<char>, ipc_path: Seq<char>)
    ensures
        mpv::player_command(url, ipc_path).program == "mpv"@,
        mpv::player_command(url, ipc_path).args == seq![
            "--no-video"@,
            "--really-quiet"@,
            "--force-seekable=no"@,
            "--volume=100"@,
            "--input-ipc-server="@ + ipc_path,
            url,
        ],
{
}

/// A message to mpv goes to the given endpoint and is one line: the given text
/// with a newline behind it. The one that sets the volume names the level in
/// decimal.
pub proof fn law_message_text(ipc_path: Seq<char>, line: Seq<char>, level: u8)
    ensures
        mpv::ipc_line(ipc_path, line).endpoint == ipc_path,
        mpv::ipc_line(ipc_path, line).text == line.push('\n'),
        mpv::volume_message(ipc_path, level).endpoint == ipc_path,
        mpv::volume_message(ipc_path, level).text
            == "{\"command\": [\"set_property\", \"volume\", "@ + text::decimal(level as nat)
            + "]}"@.push('\n'),
{
    reveal_strlit("\n");
    assert("\n"@ == seq!['\n']);
    assert(mpv::ipc_line(ipc_path, line).text == line.push('\n'));
    let head = "{\"command\": [\"set_property\", \"volume\", "@ + text::decimal(level as nat);
    assert(head + "]}"@ + "\n"@ == head + "]}"@.push('\n'));
}

/// Stop and Play again is like Play: mpv is told, or not, just as it would have
/// been without the stop in between, and the player ends up the same.
pub proof fn law_play_after_stop<A, C, P>(player: app::AppView<A, C, P>, child: C)
    ensures
        ({
            let start = app::MessageView::PlayerSpawned(Ok(child));
            let stopped = player.step(app::MessageView::StopPressed).0;
            &&& stopped.step(start) == player.step(start)
            &&& stopped.step(app::MessageView::PlayPressed).1 is SpawnPlayer
            &&& (app::AppView {
                player: player.player,
                playback: player.playback,
                muted: player.muted,
                ..stopped
            }) == player
        }),
{
}

/// Holding the track against the blacklist either has mpv told, with the player
/// as it was and the rest of the event put off, or goes on with the rest at once;
/// that is as it would be after a message to mpv that succeeded, save for what
/// is muted and told.
pub proof fn law_rest_of_an_event<A, C, P>(
    player: app::AppView<A, C, P>,
    next: app::NextView,
    mute: bool,
    result: Result<(), Seq<char>>,
)
    ensures
        ({
            let (after, action) = player.apply_blacklist(next);
            let later = player.step(app::MessageView::VolumeSent { mute, result, next });
            let listed = blacklist::blacklisted(player.artist, player.title, player.blacklist);
            if player.playback is Playing && player.muted != listed {
                &&& after == player
                &&& action matches app::ActionView::SendVolume { mute: m, send, next: n } && m
                    == listed && n == next && send.endpoint == player.ipc_path && send.text == (
                if m {
                    "{\"command\": [\"set_property\", \"volume\", 0]}\n"@
                } else {
                    "{\"command\": [\"set_property\", \"volume\", 100]}\n"@
                })
            } else {
                &&& action == later.1
                &&& next is Switched || next is Reloaded ==> after.status == later.0.status
                &&& !(next is Switched || next is Reloaded) ==> after.status == player.status
                &&& after == (app::AppView {
                    status: after.status,
                    muted: player.muted,
                    ..later.0
                })
            }
        }),
{
    lemma_volume_texts(player.ipc_path);
}

/// What can be done to the player outside of events is what the events do.
pub proof fn law_methods_are_events<A, C, P>(player: app::AppView<A, C, P>)
    ensures
        player.stopped() == player.step(app::MessageView::StopPressed),
        player.record_like(LikeKind::Like) == player.step(app::MessageView::LikePressed),
        player.record_like(LikeKind::ReallyLike) == player.step(
            app::MessageView::ReallyLikePressed,
        ),
{
}

/// The player at the start: nothing is known of the track, nothing plays, and
/// the entries are those of the file.
pub proof fn law_start<A, C, P>(
    file: app::BlacklistFileView<P>,
    content: Option<Seq<char>>,
    ipc_path: Seq<char>,
)
    ensures
        ({
            let start = app::initial::<A, C, P>(file, content, ipc_path);
            &&& start.artist.len() == 0
            &&& start.title == "Loading…"@
            &&& start.art is None
            &&& start.art_url.len() == 0
            &&& start.listeners is None
            &&& start.status is None
            &&& start.like_status is None
            &&& start.playback is Stopped
            &&& start.player is None
            &&& start.ipc_path == ipc_path
            &&& content matches Some(content) ==> start.blacklist == blacklist::entries(content)
            &&& content is None ==> start.blacklist.len() == 0
            &&& !start.muted
            &&& !start.file_menu_open
            &&& start.blacklist_file == file
        }),
{
}

/// What is meant to hold between events: mpv runs just while the player plays,
/// only a running mpv is muted, and there is a title. mpv is as it should be
/// where it is muted just while it plays a track on the blacklist.
pub proof fn law_well_formed<A, C, P>(player: app::AppView<A, C, P>)
    ensures
        player.wf() <==> {
            &&& (player.playback is Playing) == (player.player is Some)
            &&& !(player.muted && player.playback is Stopped)
            &&& player.title.len() != 0
        },
        player.in_step() <==> player.muted == (player.playback is Playing
            && blacklist::blacklisted(player.artist, player.title, player.blacklist)),
        player.on_blacklist() == blacklist::blacklisted(
            player.artist,
            player.title,
            player.blacklist,
        ),
{
}

// ---------------------------------------------------------------- whole runs

/// What the blacklist file held when it was last read.
pub open spec fn last_read<A, C, P>(
    at_the_start: Option<Seq<char>>,
    events: Seq<(app::MessageView<A, C, P>, Result<(), Seq<char>>)>,
) -> Option<Seq<char>>
    decreases events.len(),
{
    if events.len() == 0 {
        at_the_start
    } else {
        match events.last().0 {
            app::MessageView::BlacklistRead { content, purpose } => content,
            _ => last_read(at_the_start, events.drop_last()),
        }
    }
}

/// The last answer of the API.
pub open spec fn last_answer<A, C, P>(
    events: Seq<(app::MessageView<A, C, P>, Result<(), Seq<char>>)>,
) -> Option<now_playing::NowPlayingView>
    decreases events.len(),
{
    if events.len() == 0 {
        None
    } else {
        match events.last().0 {
            app::MessageView::NowPlayingFetched(Ok(resp)) => Some(resp),
            _ => last_answer(events.drop_last()),
        }
    }
}

/// The file that was picked last.
pub open spec fn last_picked<A, C, P>(
    at_the_start: app::BlacklistFileView<P>,
    events: Seq<(app::MessageView<A, C, P>, Result<(), Seq<char>>)>,
) -> app::BlacklistFileView<P>
    decreases events.len(),
{
    if events.len() == 0 {
        at_the_start
    } else {
        match events.last().0 {
            app::MessageView::BlacklistPicked(Some(file)) => file,
            _ => last_picked(at_the_start, events.drop_last()),
        }
    }
}

/// The artwork that came last.
pub open spec fn last_artwork<A, C, P>(
    events: Seq<(app::MessageView<A, C, P>, Result<(), Seq<char>>)>,
) -> Option<A>
    decreases events.len(),
{
    if events.len() == 0 {
        None
    } else {
        match events.last().0 {
            app::MessageView::ArtworkLoaded(a) => Some(a),
            _ => last_artwork(events.drop_last()),
        }
    }
}

/// The mpv that was started last, unless it was stopped since.
pub open spec fn last_started<A, C, P>(
    events: Seq<(app::MessageView<A, C, P>, Result<(), Seq<char>>)>,
) -> Option<C>
    decreases events.len(),
{
    if events.len() == 0 {
        None
    } else {
        match events.last().0 {
            app::MessageView::PlayerSpawned(Ok(child)) => Some(child),
            app::MessageView::StopPressed => None,
            _ => last_started(events.drop_last()),
        }
    }
}

/// Whatever happened, the player goes by what it heard last: the last answer of
/// the API, the last reading of the blacklist file, the last file picked, the
/// last artwork and the last start or stop of mpv.
pub proof fn law_player_goes_by_the_last_word<A, C, P>(
    file: app::BlacklistFileView<P>,
    content: Option<Seq<char>>,
    ipc_path: Seq<char>,
    events: Seq<(app::MessageView<A, C, P>, Result<(), Seq<char>>)>,
)
    ensures
        ({
            let end = run(app::initial::<A, C, P>(file, content, ipc_path), events);
            &&& match last_answer(events) {
                Some(resp) => {
                    &&& end.artist == resp.artist
                    &&& resp.title.len() > 0 ==> end.title == resp.title
                    &&& resp.title.len() == 0 ==> end.title == "Wreckers Radio"@
                    &&& end.listeners == Some(resp.listeners)
                },
                None => {
                    &&& end.artist.len() == 0
                    &&& end.title == "Loading…"@
                    &&& end.listeners is None
                },
            }
            &&& match last_read(content, events) {
                Some(text) => end.blacklist == blacklist::entries(text),
                None => end.blacklist.len() == 0,
            }
            &&& end.blacklist_file == last_picked(file, events)
            &&& end.art == last_artwork(events)
            &&& end.player == last_started(events)
            &&& end.playback is Playing <==> last_started(events) is Some
            &&& end.ipc_path == ipc_path
        }),
    decreases events.len(),
{
    if events.len() > 0 {
        law_player_goes_by_the_last_word(file, content, ipc_path, events.drop_last());
        let before = run(
            app::initial::<A, C, P>(file, content, ipc_path),
            events.drop_last(),
        );
        let event = events.last().0;
        let after = before.step(event).0;
        law_track_comes_from_the_api(before, event);
        law_blacklist_comes_from_the_file(before, event);
        law_artwork_is_displayed(before, event);
        law_running_mpv(before, event);
        match before.step(event).1 {
            app::ActionView::SendVolume { mute, send, next } => {
                let outcome = app::MessageView::VolumeSent {
                    mute,
                    result: events.last().1,
                    next,
                };
                law_track_comes_from_the_api(after, outcome);
                law_blacklist_comes_from_the_file(after, outcome);
                law_artwork_is_displayed(after, outcome);
                law_running_mpv(after, outcome);
            },
            _ => {},
        }
    }
}

/// As long as the messages to mpv arrive, what is heard goes by the last words
/// of the API and of the blacklist file: while mpv runs, a track of the last
/// answer that an entry of the file as last read occurs in has no volume, and
/// any other has full volume. A track without a title goes by the name of the
/// station, and before the first answer what is shown in its place is taken for
/// the title.
pub proof fn law_what_is_heard<A, C, P>(
    file: app::BlacklistFileView<P>,
    content: Option<Seq<char>>,
    ipc_path: Seq<char>,
    events: Seq<(app::MessageView<A, C, P>, Result<(), Seq<char>>)>,
)
    requires
        no_outcomes(events),
        all_arrived(events),
        last_started(events) is Some,
    ensures
        ({
            let start = app::initial::<A, C, P>(file, content, ipc_path);
            let (artist, title) = match last_answer(events) {
                Some(resp) => (
                    resp.artist,
                    if resp.title.len() > 0 {
                        resp.title
                    } else {
                        "Wreckers Radio"@
                    },
                ),
                None => (Seq::empty(), "Loading…"@),
            };
            let low = text::lowercase(artist + seq![' '] + title);
            let read = last_read(content, events);
            let listed = read is Some && exists|i: int, a: Seq<char>, b: Seq<char>|
                0 <= i < blacklist::entries(read->0).len() && low == #[trigger] (a
                    + text::lowercase(blacklist::entries(read->0)[i]) + b);
            &&& listed ==> volume(start, events) == 0
            &&& !listed ==> volume(start, events) == 100
        }),
{
    let start = app::initial::<A, C, P>(file, content, ipc_path);
    law_volume_follows_blacklist(file, content, ipc_path, events);
    law_player_goes_by_the_last_word(file, content, ipc_path, events);
    let end = run(start, events);
    crate::file_laws::law_blacklisted(end.artist, end.title, end.blacklist);
    if last_answer(events) is None {
        assert(end.artist == Seq::<char>::empty());
    }
}

// ---------------------------------------------------------------- muting

/// What is meant to hold between events holds at the start.
pub proof fn law_start_is_well_formed<A, C, P>(
    file: app::BlacklistFileView<P>,
    content: Option<Seq<char>>,
    ipc_path: Seq<char>,
)
    ensures
        app::initial::<A, C, P>(file, content, ipc_path).wf(),
{
    reveal_strlit("Loading…");
}

/// What is meant to hold between events still holds after any event.
pub proof fn law_events_keep_well_formed<A, C, P>(
    player: app::AppView<A, C, P>,
    event: app::MessageView<A, C, P>,
)
    requires
        player.wf(),
    ensures
        player.step(event).0.wf(),
{
    reveal_strlit("Wreckers Radio");
}

/// The player always knows how loud mpv is: while a track plays, mpv has no
/// volume where the player takes it for muted, and full volume where it does
/// not. This holds after all events in every order, whether or not the messages
/// to mpv arrived.
pub proof fn law_muted_tells_the_volume<A, C, P>(
    file: app::BlacklistFileView<P>,
    content: Option<Seq<char>>,
    ipc_path: Seq<char>,
    events: Seq<(app::MessageView<A, C, P>, Result<(), Seq<char>>)>,
)
    requires
        no_outcomes(events),
    ensures
        ({
            let start = app::initial::<A, C, P>(file, content, ipc_path);
            let end = run(start, events);
            &&& end.wf()
            &&& end.playback is Playing ==> volume(start, events) == (if end.muted {
                0u8
            } else {
                100u8
            })
        }),
    decreases events.len(),
{
    let start = app::initial::<A, C, P>(file, content, ipc_path);
    if events.len() == 0 {
        law_start_is_well_formed::<A, C, P>(file, content, ipc_path);
    } else {
        let most = events.drop_last();
        assert forall|i: int| 0 <= i < most.len() implies !((#[trigger] most[i]).0 is VolumeSent) by {
            assert(most[i] == events[i]);
        }
        law_muted_tells_the_volume(file, content, ipc_path, most);
        let (event, result) = events.last();
        assert(events.last() == events[events.len() - 1]);
        let before = run(start, most);
        law_events_keep_well_formed(before, event);
        let (after, action) = before.step(event);
        match action {
            app::ActionView::SendVolume { mute, send, next } => {
                law_events_keep_well_formed(
                    after,
                    app::MessageView::VolumeSent { mute, result, next },
                );
            },
            _ => {},
        }
    }
}

/// As long as the messages to mpv arrive, a track on the blacklist plays with
/// no volume and any other with full volume, after all events in every order.
pub proof fn law_volume_follows_blacklist<A, C, P>(
    file: app::BlacklistFileView<P>,
    content: Option<Seq<char>>,
    ipc_path: Seq<char>,
    events: Seq<(app::MessageView<A, C, P>, Result<(), Seq<char>>)>,
)
    requires
        no_outcomes(events),
        all_arrived(events),
    ensures
        ({
            let start = app::initial::<A, C, P>(file, content, ipc_path);
            let end = run(start, events);
            &&& end.in_step()
            &&& end.playback is Playing ==> volume(start, events) == (if end.on_blacklist() {
                0u8
            } else {
                100u8
            })
        }),
    decreases events.len(),
{
    law_muted_tells_the_volume(file, content, ipc_path, events);
    if events.len() > 0 {
        let most = events.drop_last();
        assert forall|i: int| 0 <= i < most.len() implies !((#[trigger] most[i]).0 is VolumeSent)
            && most[i].1 is Ok by {
            assert(most[i] == events[i]);
        }
        law_volume_follows_blacklist(file, content, ipc_path, most);
        law_muted_tells_the_volume(file, content, ipc_path, most);
        assert(events.last() == events[events.len() - 1]);
        let start = app::initial::<A, C, P>(file, content, ipc_path);
        law_event_keeps_in_step(run(start, most), events.last().0);
    }
}

/// Where mpv is muted just as it should be, it still is after any event whose
/// message arrives.
pub proof fn law_event_keeps_in_step<A, C, P>(
    player: app::AppView<A, C, P>,
    event: app::MessageView<A, C, P>,
)
    requires
        player.wf(),
        player.in_step(),
        !(event is VolumeSent),
    ensures
        settled(player.step(event), Ok(())).0.in_step(),
{
}

/// mpv is sent a message just where it plays and is not muted as the blacklist
/// says; the message goes to the endpoint of this run and sets the volume that
/// the blacklist asks for. What the player takes for muted only changes when
/// such a message has arrived, or with mpv itself.
pub proof fn law_messages_to_mpv<A, C, P>(
    player: app::AppView<A, C, P>,
    event: app::MessageView<A, C, P>,
)
    ensures
        ({
            let (after, action) = player.step(event);
            &&& after.ipc_path == player.ipc_path
            &&& action matches app::ActionView::SendVolume { mute, send, next } ==> {
                &&& after.playback is Playing
                &&& mute == after.on_blacklist()
                &&& mute != after.muted
                &&& send == mpv::volume_message(
                    player.ipc_path,
                    if mute {
                        0u8
                    } else {
                        100u8
                    },
                )
            }
            &&& after.muted != player.muted ==> {
                ||| event is StopPressed
                ||| event is PlayerSpawned
                ||| event is VolumeSent && event->VolumeSent_result is Ok && after.muted
                    == event->mute
            }
        }),
{
}

/// A message that did not arrive leaves what is muted, what plays and the track
/// as they were; the next answer of the API has mpv sent a message where it is
/// still not muted as the blacklist says.
pub proof fn law_failed_message_is_sent_again<A, C, P>(
    player: app::AppView<A, C, P>,
    mute: bool,
    error: Seq<char>,
    next: app::NextView,
    resp: now_playing::NowPlayingView,
)
    ensures
        ({
            let failed = player.step(
                app::MessageView::VolumeSent { mute, result: Err(error), next },
            );
            let again = failed.0.step(app::MessageView::NowPlayingFetched(Ok(resp)));
            &&& failed.0.muted == player.muted
            &&& failed.0.playback == player.playback
            &&& failed.0.player == player.player
            &&& failed.0.artist == player.artist
            &&& failed.0.title == player.title
            &&& failed.0.blacklist == player.blacklist
            &&& again.1 is SendVolume <==> again.0.playback is Playing && !again.0.in_step()
        }),
{
}

/// Nothing is sent to mpv while nothing plays, and only starting mpv makes
/// something play.
pub proof fn law_silent_while_stopped<A, C, P>(
    player: app::AppView<A, C, P>,
    event: app::MessageView<A, C, P>,
)
    requires
        player.playback is Stopped,
        !(event is PlayerSpawned),
    ensures
        player.step(event).1 !is SendVolume,
        player.step(event).0.playback is Stopped,
{
}

// ---------------------------------------------------------------- whole events

/// The regular look at the blacklist file always ends with asking the API,
/// whatever the file holds and whatever mpv says. Entries that did not change
/// leave the player as it was.
pub proof fn law_tick<A, C, P>(
    player: app::AppView<A, C, P>,
    content: Option<Seq<char>>,
    result: Result<(), Seq<char>>,
)
    ensures
        player.step(app::MessageView::Tick) == (
            player,
            app::ActionView::<C>::ReadBlacklist(ReadPurpose::Poll),
        ),
        ({
            let end = settled(
                player.step(
                    app::MessageView::BlacklistRead { content, purpose: ReadPurpose::Poll },
                ),
                result,
            );
            &&& end.1 is FetchNowPlaying
            &&& end.0.blacklist == blacklist::loaded(content)
            &&& blacklist::loaded(content) == player.blacklist ==> end.0 == player
        }),
{
}

/// After another file was chosen, the player tracks that file, has its entries
/// and says so, whatever mpv says. Where mpv can be reached, a track that plays is
/// muted just where it is on the new blacklist.
pub proof fn law_switch<A, C, P>(
    player: app::AppView<A, C, P>,
    file: app::BlacklistFileView<P>,
    content: Option<Seq<char>>,
    result: Result<(), Seq<char>>,
)
    requires
        player.wf(),
    ensures
        ({
            let picked = player.step(app::MessageView::BlacklistPicked(Some(file)));
            let end = settled(
                picked.0.step(
                    app::MessageView::BlacklistRead { content, purpose: ReadPurpose::Switch },
                ),
                result,
            );
            &&& picked.1 == app::ActionView::<C>::ReadBlacklist(ReadPurpose::Switch)
            &&& end.0.blacklist_file == file
            &&& end.0.blacklist == blacklist::loaded(content)
            &&& end.0.status == Some(
                app::file_text("Using "@, file.shown, blacklist::loaded(content).len()),
            )
            &&& result is Ok ==> end.0.muted == (player.playback is Playing
                && blacklist::blacklisted(
                player.artist,
                player.title,
                blacklist::loaded(content),
            ))
            &&& result is Err ==> end.0.muted == player.muted
            &&& end.1 is Nothing
        }),
{
}

/// After the file was read again on request, the player has its entries and
/// says so, whatever mpv says. Where mpv can be reached, a track that plays is
/// muted just where it is on the blacklist.
pub proof fn law_reload<A, C, P>(
    player: app::AppView<A, C, P>,
    content: Option<Seq<char>>,
    result: Result<(), Seq<char>>,
)
    requires
        player.wf(),
    ensures
        ({
            let asked = player.step(app::MessageView::ReloadBlacklistPressed);
            let end = settled(
                asked.0.step(
                    app::MessageView::BlacklistRead { content, purpose: ReadPurpose::Reload },
                ),
                result,
            );
            &&& asked.1 == app::ActionView::<C>::ReadBlacklist(ReadPurpose::Reload)
            &&& end.0.blacklist_file == player.blacklist_file
            &&& end.0.blacklist == blacklist::loaded(content)
            &&& end.0.status == Some(
                app::file_text(
                    "Reloaded "@,
                    player.blacklist_file.shown,
                    blacklist::loaded(content).len(),
                ),
            )
            &&& result is Ok ==> end.0.muted == (player.playback is Playing
                && blacklist::blacklisted(
                player.artist,
                player.title,
                blacklist::loaded(content),
            ))
            &&& result is Err ==> end.0.muted == player.muted
            &&& !end.0.file_menu_open
            &&& end.1 is Nothing
        }),
{
}

/// After an answer of the API, the player shows its track and listeners and no
/// word on an earlier like, whatever mpv says. Artwork is asked for just where
/// its address is there and is not the one asked for last; so an answer that
/// comes again asks for none. Where mpv can be reached, it is then muted just
/// where the track is on the blacklist.
pub proof fn law_answer<A, C, P>(
    player: app::AppView<A, C, P>,
    resp: now_playing::NowPlayingView,
    result: Result<(), Seq<char>>,
)
    requires
        player.wf(),
    ensures
        ({
            let event = app::MessageView::NowPlayingFetched(Ok(resp));
            let end = settled(player.step(event), result);
            &&& end.0.artist == resp.artist
            &&& resp.title.len() > 0 ==> end.0.title == resp.title
            &&& resp.title.len() == 0 ==> end.0.title == app::STATION@
            &&& end.0.listeners == Some(resp.listeners)
            &&& end.0.like_status is None
            &&& result is Ok ==> end.0.in_step()
            &&& result is Err ==> end.0.muted == player.muted
            &&& end.0.art == player.art
            &&& end.1 == (if resp.art.len() > 0 && resp.art != player.art_url {
                app::ActionView::<C>::DownloadArt(resp.art)
            } else {
                app::ActionView::<C>::Nothing
            })
            &&& settled(end.0.step(event), result).1 is Nothing
        }),
{
    reveal_strlit("Wreckers Radio");
}

/// The artwork on display stays until other artwork has come.
pub proof fn law_artwork_stays<A, C, P>(
    player: app::AppView<A, C, P>,
    event: app::MessageView<A, C, P>,
)
    requires
        !(event is ArtworkLoaded),
    ensures
        player.step(event).0.art == player.art,
        event is ArtworkFailed ==> player.step(event).0 == player,
{
}

// ---------------------------------------------------------------- playing

/// Play starts mpv where none runs, and does nothing where one does.
pub proof fn law_play<A, C, P>(player: app::AppView<A, C, P>)
    ensures
        player.step(app::MessageView::PlayPressed).0 == player,
        player.player is None ==> player.step(app::MessageView::PlayPressed).1
            == app::ActionView::<C>::SpawnPlayer(
            mpv::player_command(mpv::STREAM_URL@, player.ipc_path),
        ),
        player.player is Some ==> player.step(app::MessageView::PlayPressed).1 is Nothing,
{
}

/// Once mpv has started, the player plays. Where mpv can be reached, the track is
/// muted from the outset where it is on the blacklist.
pub proof fn law_started<A, C, P>(
    player: app::AppView<A, C, P>,
    child: C,
    result: Result<(), Seq<char>>,
)
    ensures
        ({
            let end = settled(player.step(app::MessageView::PlayerSpawned(Ok(child))), result);
            &&& end.1 is Nothing
            &&& end.0.player == Some(child)
            &&& end.0.playback is Playing
            &&& end.0.muted == (result is Ok && player.on_blacklist())
            &&& end.0.status == (if player.on_blacklist() {
                app::volume_status(true, player.artist, player.title, result)
            } else {
                None
            })
        }),
{
}

/// The mpv that was started is kept until Stop, and it is the one that Stop
/// ends. Afterwards nothing plays and nothing is muted, and Stop does no more.
pub proof fn law_started_is_stopped<A, C, P>(
    player: app::AppView<A, C, P>,
    child: C,
    events: Seq<(app::MessageView<A, C, P>, Result<(), Seq<char>>)>,
)
    requires
        forall|i: int|
            0 <= i < events.len() ==> !((#[trigger] events[i]).0 is StopPressed) && !(
            events[i].0 is PlayerSpawned),
    ensures
        ({
            let started = player.step(app::MessageView::PlayerSpawned(Ok(child))).0;
            let later = run(started, events);
            let end = later.step(app::MessageView::StopPressed);
            &&& later.player == Some(child)
            &&& later.playback is Playing
            &&& end.1 == app::ActionView::<C>::KillPlayer(child)
            &&& end.0.player is None
            &&& end.0.playback is Stopped
            &&& !end.0.muted
            &&& end.0.step(app::MessageView::StopPressed) == (
                end.0,
                app::ActionView::<C>::Nothing,
            )
        }),
    decreases events.len(),
{
    let started = player.step(app::MessageView::PlayerSpawned(Ok(child))).0;
    if events.len() > 0 {
        let most = events.drop_last();
        assert forall|i: int| 0 <= i < most.len() implies !((#[trigger] most[i]).0 is StopPressed)
            && !(most[i].0 is PlayerSpawned) by {
            assert(most[i] == events[i]);
        }
        law_started_is_stopped(player, child, most);
        assert(events.last() == events[events.len() - 1]);
        assert(run(started, events) == settled(
            run(started, most).step(events.last().0),
            events.last().1,
        ).0);
    }
}

// ---------------------------------------------------------------- failures

/// What goes wrong outside is told, and changes neither the track nor the
/// blacklist nor what plays.
pub proof fn law_failures_are_only_told<A, C, P>(
    player: app::AppView<A, C, P>,
    kind: LikeKind,
    error: Seq<char>,
)
    ensures
        player.step(app::MessageView::NowPlayingFetched(Err(error))) == (
            app::AppView {
                status: Some("Couldn't reach now-playing API: "@ + error),
                ..player
            },
            app::ActionView::<C>::Nothing,
        ),
        player.step(app::MessageView::PlayerSpawned(Err(error))) == (
            app::AppView {
                status: Some(
                    "Couldn't start mpv ("@ + error + "). Is mpv installed and on PATH?"@,
                ),
                ..player
            },
            app::ActionView::<C>::Nothing,
        ),
        player.step(app::MessageView::BlacklistEditorOpened(Err(error))) == (
            app::AppView { status: Some(error), ..player },
            app::ActionView::<C>::Nothing,
        ),
        player.step(app::MessageView::LikeSaved { kind, result: Err(error) }) == (
            app::AppView { like_status: Some("Couldn't save like: "@ + error), ..player },
            app::ActionView::<C>::Nothing,
        ),
        player.step(app::MessageView::BlacklistPicked(None)) == (
            player,
            app::ActionView::<C>::Nothing,
        ),
{
}

// ---------------------------------------------------------------- the window

/// The file menu: pressed twice it is as before, closing closes it, and so does
/// every entry.
pub proof fn law_file_menu<A, C, P>(player: app::AppView<A, C, P>, item: MenuItem)
    ensures
        player.step(app::MessageView::FileMenuToggle).0.file_menu_open != player.file_menu_open,
        player.step(app::MessageView::FileMenuToggle).0.step(app::MessageView::FileMenuToggle).0
            == player,
        !player.step(app::MessageView::FileMenuClose).0.file_menu_open,
        !player.step(item.pressed()).0.file_menu_open,
{
}

/// What can be pressed does something: the button for the music starts mpv or
/// ends it, and the like buttons save the track on air; these can be pressed once
/// the API has answered, when it is known what is playing. The window says that
/// a track is muted just while mpv is.
pub proof fn law_buttons<A, C, P>(player: app::AppView<A, C, P>, name: Option<Seq<char>>)
    requires
        player.wf(),
    ensures
        ({
            let window = screen::screen_of(player, name);
            let pressed = player.step(window.transport.pressed()).1;
            let liked = player.step(app::MessageView::LikePressed);
            let really_liked = player.step(app::MessageView::ReallyLikePressed);
            &&& window.transport is Play ==> pressed is SpawnPlayer
            &&& window.transport is Stop ==> pressed is KillPlayer
            &&& window.can_like <==> player.listeners is Some
            &&& liked == (
                player,
                app::ActionView::<C>::SaveLike {
                    kind: LikeKind::Like,
                    artist: player.artist,
                    title: player.title,
                },
            )
            &&& really_liked == (
                player,
                app::ActionView::<C>::SaveLike {
                    kind: LikeKind::ReallyLike,
                    artist: player.artist,
                    title: player.title,
                },
            )
            &&& window.mute_label is Some <==> player.muted
            &&& window.menu is Some <==> player.file_menu_open
        }),
{
}

/// The like buttons can be pressed only where liking saves something, and not
/// before it is known what is playing.
pub proof fn law_like_buttons<A, C, P>(
    player: app::AppView<A, C, P>,
    name: Option<Seq<char>>,
    kind: LikeKind,
)
    ensures
        screen::screen_of(player, name).can_like ==> player.record_like(kind).1 is SaveLike,
        player.listeners is None ==> !screen::screen_of(player, name).can_like,
{
}

/// The window shows the track whether or not it plays: artist and title, or the
/// title alone where no artist is known; and how many listen, once that is
/// known. After an answer of the API it is the track of that answer.
pub proof fn law_window_shows_the_track<A, C, P>(
    player: app::AppView<A, C, P>,
    name: Option<Seq<char>>,
    resp: now_playing::NowPlayingView,
    result: Result<(), Seq<char>>,
)
    ensures
        ({
            let window = screen::screen_of(player, name);
            &&& window.heading == "Wreckers Radio"@
            &&& player.artist.len() > 0 ==> window.now_playing == player.artist + " — "@
                + player.title
            &&& player.artist.len() == 0 ==> window.now_playing == player.title
            &&& player.listeners matches Some(n) ==> window.listeners == text::decimal(n as nat)
                + " listening"@
            &&& player.listeners is None ==> window.listeners.len() == 0
        }),
        ({
            let event = app::MessageView::NowPlayingFetched(Ok(resp));
            let (after, action) = player.step(event);
            let at_once = screen::screen_of(after, name);
            let window = screen::screen_of(settled((after, action), result).0, name);
            &&& resp.artist.len() > 0 && resp.title.len() > 0 ==> window.now_playing == resp.artist
                + " — "@ + resp.title
            &&& resp.artist.len() == 0 && resp.title.len() > 0 ==> window.now_playing == resp.title
            &&& resp.artist.len() == 0 && resp.title.len() == 0 ==> window.now_playing
                == "Wreckers Radio"@
            &&& resp.artist.len() > 0 && resp.title.len() == 0 ==> window.now_playing == resp.artist
                + " — "@ + "Wreckers Radio"@
            &&& window.listeners == text::decimal(resp.listeners as nat) + " listening"@
            &&& at_once.now_playing == window.now_playing
            &&& at_once.listeners == window.listeners
            &&& window.like_status is None
        }),
{
}

/// The window shows what the player tells, as it is, and the state of the music:
/// a button to start it just while it is stopped, a word on a muted track just
/// while mpv is muted, and the file menu just while it is open.
pub proof fn law_window_shows_the_state<A, C, P>(
    player: app::AppView<A, C, P>,
    name: Option<Seq<char>>,
)
    ensures
        ({
            let window = screen::screen_of(player, name);
            &&& window.status == player.status
            &&& window.like_status == player.like_status
            &&& window.transport is Play <==> player.playback is Stopped
            &&& window.transport.label() == (if player.playback is Stopped {
                "▶  Play"@
            } else {
                "■  Stop"@
            })
            &&& window.mute_label == (if player.muted {
                Some("🔇 muted (blacklisted track)"@)
            } else {
                None
            })
            &&& window.can_like <==> player.listeners is Some && !(player.artist.len() == 0
                && player.title.len() == 0)
            &&& window.menu is Some <==> player.file_menu_open
            &&& window.menu matches Some(menu) ==> {
                &&& name matches Some(name) ==> menu.header == name + " · "@ + text::decimal(
                    player.blacklist.len(),
                ) + " entries"@
                &&& name is None ==> menu.header == "Blacklist.txt"@ + " · "@ + text::decimal(
                    player.blacklist.len(),
                ) + " entries"@
                &&& menu.items.map_values(|item: MenuItem| item.label()) == seq![
                    "Open Blacklist File…"@,
                    "New Blacklist File…"@,
                    "Edit in Editor"@,
                    "Reload Now"@,
                ]
                &&& menu.items.len() == 4
                &&& player.step(menu.items[0].pressed()).1 is OpenDialog
                &&& player.step(menu.items[1].pressed()).1 is SaveDialog
                &&& player.step(menu.items[2].pressed()).1 is EditBlacklist
                &&& player.step(menu.items[3].pressed()).1
                    == app::ActionView::<C>::ReadBlacklist(ReadPurpose::Reload)
            }
        }),
{
    if player.file_menu_open {
        let items = screen::screen_of(player, name).menu->0.items;
        assert(items.map_values(|item: MenuItem| item.label()) == seq![
            "Open Blacklist File…"@,
            "New Blacklist File…"@,
            "Edit in Editor"@,
            "Reload Now"@,
        ]);
    }
}

/// What can be pressed is what it says: each label goes with its event.
pub proof fn law_labels<A, C, P>()
    ensures
        screen::Transport::Play.label() == "▶  Play"@,
        screen::Transport::Stop.label() == "■  Stop"@,
        screen::Transport::Play.pressed::<A, C, P>() is PlayPressed,
        screen::Transport::Stop.pressed::<A, C, P>() is StopPressed,
        MenuItem::Open.label() == "Open Blacklist File…"@,
        MenuItem::New.label() == "New Blacklist File…"@,
        MenuItem::Edit.label() == "Edit in Editor"@,
        MenuItem::Reload.label() == "Reload Now"@,
        MenuItem::Open.pressed::<A, C, P>() is OpenBlacklistPressed,
        MenuItem::New.pressed::<A, C, P>() is NewBlacklistPressed,
        MenuItem::Edit.pressed::<A, C, P>() is EditBlacklistPressed,
        MenuItem::Reload.pressed::<A, C, P>() is ReloadBlacklistPressed,
        screen::LIKE_LABEL@ == "👍 Like"@,
        screen::REALLY_LIKE_LABEL@ == "❤ Really Like"@,
        screen::FILE_LABEL@ == "File"@,
        app::STATION@ == "Wreckers Radio"@,
{
}

/// The parts of what is told, for all values that go into them.
pub proof fn law_texts(
    artist: Seq<char>,
    title: Seq<char>,
    shown: Seq<char>,
    error: Seq<char>,
)
    ensures
        app::track_text(artist, title) == artist + " — "@ + title,
        app::editor_error_text(shown, error) == "Couldn't open "@ + shown + ": "@ + error,
        LikeKind::Like.label() == "👍 Liked"@,
        LikeKind::ReallyLike.label() == "❤ Really liked"@,
        LikeKind::Like.tag() == "LIKE"@,
        LikeKind::ReallyLike.tag() == "REALLY_LIKE"@,
{
}

// ---------------------------------------------------------------- models

/// The model of the player has each of its fields as it is.
pub proof fn law_model_of_the_player<A, C, P>(player: app::App<A, C, P>)
    ensures
        player@.artist == player.artist@,
        player@.title == player.title@,
        player@.art == player.art,
        player@.art_url == player.art_url@,
        player@.listeners == player.listeners,
        player.status matches Some(s) ==> player@.status == Some(s@),
        player.status is None ==> player@.status is None,
        player.like_status matches Some(s) ==> player@.like_status == Some(s@),
        player.like_status is None ==> player@.like_status is None,
        player@.playback == player.playback,
        player@.player == player.player,
        player@.ipc_path == player.ipc_path@,
        player@.blacklist.len() == player.blacklist@.len(),
        forall|i: int|
            0 <= i < player.blacklist@.len() ==> player@.blacklist[i] == (
            #[trigger] player.blacklist@[i])@,
        player@.muted == player.muted,
        player@.file_menu_open == player.file_menu_open,
        player@.blacklist_file.path == player.blacklist_file.path,
        player@.blacklist_file.shown == player.blacklist_file.shown@,
{
}

/// The model of an answer of the API has each of its parts as it is.
pub proof fn law_model_of_an_answer(resp: now_playing::NowPlayingResponse)
    ensures
        resp@.artist == resp.now_playing.song.artist@,
        resp@.title == resp.now_playing.song.title@,
        resp@.art == resp.now_playing.song.art@,
        resp@.listeners == resp.listeners.current,
{
}

/// The model of the rest of an event.
pub proof fn law_model_of_next(next: app::Next)
    ensures
        next is Poll <==> next@ is Poll,
        next is Started <==> next@ is Started,
        next is Switched <==> next@ is Switched,
        next is Reloaded <==> next@ is Reloaded,
        next matches app::Next::Fetched { art } ==> next@ == (app::NextView::Fetched {
            art: art@,
        }),
{
}

/// The model of an event is the same event, with the same contents.
pub proof fn law_model_of_an_event<A, C, P>(event: app::Message<A, C, P>)
    ensures
        event is Tick <==> event@ is Tick,
        event is ArtworkFailed <==> event@ is ArtworkFailed,
        event is PlayPressed <==> event@ is PlayPressed,
        event is StopPressed <==> event@ is StopPressed,
        event is LikePressed <==> event@ is LikePressed,
        event is ReallyLikePressed <==> event@ is ReallyLikePressed,
        event is FileMenuToggle <==> event@ is FileMenuToggle,
        event is FileMenuClose <==> event@ is FileMenuClose,
        event is OpenBlacklistPressed <==> event@ is OpenBlacklistPressed,
        event is NewBlacklistPressed <==> event@ is NewBlacklistPressed,
        event is EditBlacklistPressed <==> event@ is EditBlacklistPressed,
        event is ReloadBlacklistPressed <==> event@ is ReloadBlacklistPressed,
        match event {
            app::Message::NowPlayingFetched(Ok(resp)) => event@
                == app::MessageView::<A, C, P>::NowPlayingFetched(Ok(resp@)),
            app::Message::NowPlayingFetched(Err(e)) => event@
                == app::MessageView::<A, C, P>::NowPlayingFetched(Err(e@)),
            app::Message::ArtworkLoaded(a) => event@
                == app::MessageView::<A, C, P>::ArtworkLoaded(a),
            app::Message::BlacklistPicked(Some(file)) => event@
                == app::MessageView::<A, C, P>::BlacklistPicked(
                Some(app::BlacklistFileView { path: file.path, shown: file.shown@ }),
            ),
            app::Message::BlacklistPicked(None) => event@
                == app::MessageView::<A, C, P>::BlacklistPicked(None),
            app::Message::BlacklistEditorOpened(Ok(_)) => event@
                == app::MessageView::<A, C, P>::BlacklistEditorOpened(Ok(())),
            app::Message::BlacklistEditorOpened(Err(e)) => event@
                == app::MessageView::<A, C, P>::BlacklistEditorOpened(Err(e@)),
            app::Message::BlacklistRead { content: Some(content), purpose } => event@
                == (app::MessageView::<A, C, P>::BlacklistRead {
                content: Some(content@),
                purpose,
            }),
            app::Message::BlacklistRead { content: None, purpose } => event@
                == (app::MessageView::<A, C, P>::BlacklistRead { content: None, purpose }),
            app::Message::VolumeSent { mute, result: Ok(_), next } => event@
                == (app::MessageView::<A, C, P>::VolumeSent {
                mute,
                result: Ok(()),
                next: next@,
            }),
            app::Message::VolumeSent { mute, result: Err(e), next } => event@
                == (app::MessageView::<A, C, P>::VolumeSent {
                mute,
                result: Err(e@),
                next: next@,
            }),
            app::Message::PlayerSpawned(Ok(child)) => event@
                == app::MessageView::<A, C, P>::PlayerSpawned(Ok(child)),
            app::Message::PlayerSpawned(Err(e)) => event@
                == app::MessageView::<A, C, P>::PlayerSpawned(Err(e@)),
            app::Message::LikeSaved { kind, result: Ok(_) } => event@
                == (app::MessageView::<A, C, P>::LikeSaved { kind, result: Ok(()) }),
            app::Message::LikeSaved { kind, result: Err(e) } => event@
                == (app::MessageView::<A, C, P>::LikeSaved { kind, result: Err(e@) }),
            _ => true,
        },
{
}

/// The model of what is asked for is the same thing, with the same contents.
pub proof fn law_model_of_an_action<C>(action: app::Action<C>)
    ensures
        action is Nothing <==> action@ is Nothing,
        action is FetchNowPlaying <==> action@ is FetchNowPlaying,
        action is OpenDialog <==> action@ is OpenDialog,
        action is SaveDialog <==> action@ is SaveDialog,
        action is EditBlacklist <==> action@ is EditBlacklist,
        match action {
            app::Action::DownloadArt(url) => action@ == app::ActionView::<C>::DownloadArt(url@),
            app::Action::ReadBlacklist(purpose) => action@
                == app::ActionView::<C>::ReadBlacklist(purpose),
            app::Action::SendVolume { mute, send, next } => action@
                == (app::ActionView::<C>::SendVolume {
                mute,
                send: mpv::IpcSendView { endpoint: send.endpoint@, text: send.text@ },
                next: next@,
            }),
            app::Action::SpawnPlayer(command) => {
                &&& action@ is SpawnPlayer
                &&& action@->SpawnPlayer_0.program == command.program@
                &&& action@->SpawnPlayer_0.args.len() == command.args@.len()
                &&& forall|i: int|
                    0 <= i < command.args@.len() ==> action@->SpawnPlayer_0.args[i] == (
                    #[trigger] command.args@[i])@
            },
            app::Action::KillPlayer(child) => action@ == app::ActionView::<C>::KillPlayer(child),
            app::Action::SaveLike { kind, artist, title } => action@
                == (app::ActionView::<C>::SaveLike { kind, artist: artist@, title: title@ }),
            _ => true,
        },
{
}

/// The model of the window has each of its parts as it is.
pub proof fn law_model_of_the_window(window: screen::Screen)
    ensures
        window@.heading == window.heading@,
        window@.now_playing == window.now_playing@,
        window@.listeners == window.listeners@,
        window@.transport == window.transport,
        window.mute_label matches Some(s) ==> window@.mute_label == Some(s@),
        window.mute_label is None ==> window@.mute_label is None,
        window@.can_like == window.can_like,
        window.like_status matches Some(s) ==> window@.like_status == Some(s@),
        window.like_status is None ==> window@.like_status is None,
        window.menu matches Some(menu) ==> window@.menu == Some(
            screen::MenuView { header: menu.header@, items: menu.items@ },
        ),
        window.menu is None ==> window@.menu is None,
        window.status matches Some(s) ==> window@.status == Some(s@),
        window.status is None ==> window@.status is None,
{
}

} // verus!
