//! mpv: how it is started, and what is written to its IPC endpoint.

use vstd::prelude::*;
use crate::text;

verus! {

/// The MP3 stream of the station.
pub const STREAM_URL: &'static str =
    "https://az.wreckersradio.uk/listen/wreckersradio/radio.mp3";

/// How long to wait after mpv was started until its IPC endpoint can be
/// expected to be there, in milliseconds.
pub const SETTLE_MILLIS: u64 = 300;

/// The volume of a track that is not to be heard.
pub const VOLUME_MUTED: u8 = 0;

/// The volume of any other track, and the one that mpv starts with.
pub const VOLUME_FULL: u8 = 100;

/// A program to start, with its arguments.
pub struct PlayerCommand {
    pub program: String,
    pub args: Vec<String>,
}

/// The model of a `PlayerCommand`.
#[verifier::ext_equal]
pub struct PlayerCommandView {
    pub program: Seq<char>,
    pub args: Seq<Seq<char>>,
}

impl View for PlayerCommand {
    type V = PlayerCommandView;

    open spec fn view(&self) -> PlayerCommandView {
        PlayerCommandView { program: self.program@, args: text::texts(self.args@) }
    }
}

/// The command that plays `url` without a window, with full volume and an IPC
/// endpoint at `ipc_path`.
pub open spec fn player_command(url: Seq<char>, ipc_path: Seq<char>) -> PlayerCommandView {
    PlayerCommandView {
        program: "mpv"@,
        args: seq![
            "--no-video"@,
            "--really-quiet"@,
            "--force-seekable=no"@,
            "--volume=100"@,
            "--input-ipc-server="@ + ipc_path,
            url,
        ],
    }
}

/// The command that starts mpv on a stream.
pub fn spawn_player(url: &str, ipc_path: &str) -> (r: PlayerCommand)
    ensures
        r@ == player_command(url@, ipc_path@),
{
    let mut args: Vec<String> = Vec::new();
    args.push("--no-video".to_owned());
    args.push("--really-quiet".to_owned());
    args.push("--force-seekable=no".to_owned());
    args.push("--volume=100".to_owned());
    args.push(text::concat2("--input-ipc-server=", ipc_path));
    args.push(url.to_owned());
    let r: PlayerCommand = PlayerCommand { program: "mpv".to_owned(), args };
    assert(r@.args == player_command(url@, ipc_path@).args);
    r
}

/// A text to write to an IPC endpoint.
pub struct IpcSend {
    pub endpoint: String,
    pub text: String,
}

/// The model of an `IpcSend`.
#[verifier::ext_equal]
pub struct IpcSendView {
    pub endpoint: Seq<char>,
    pub text: Seq<char>,
}

impl View for IpcSend {
    type V = IpcSendView;

    open spec fn view(&self) -> IpcSendView {
        IpcSendView { endpoint: self.endpoint@, text: self.text@ }
    }
}

/// A line, with its end, for an IPC endpoint.
pub open spec fn ipc_line(ipc_path: Seq<char>, line: Seq<char>) -> IpcSendView {
    IpcSendView { endpoint: ipc_path, text: line + "\n"@ }
}

/// The JSON command that sets the volume.
pub open spec fn volume_command(level: u8) -> Seq<char> {
    "{\"command\": [\"set_property\", \"volume\", "@ + text::decimal(level as nat) + "]}"@
}

/// The message that sets the volume.
pub open spec fn volume_message(ipc_path: Seq<char>, level: u8) -> IpcSendView {
    ipc_line(ipc_path, volume_command(level))
}

/// The message that hands one line to mpv.
pub fn send_ipc_line(ipc_path: &str, line: &str) -> (r: IpcSend)
    ensures
        r@ == ipc_line(ipc_path@, line@),
{
    IpcSend { endpoint: ipc_path.to_owned(), text: text::concat2(line, "\n") }
}

/// The message that sets the volume of the running mpv.
pub fn send_ipc_volume(ipc_path: &str, level: u8) -> (r: IpcSend)
    ensures
        r@ == volume_message(ipc_path@, level),
{
    let number: String = text::decimal_text(level as u64);
    let line: String = text::concat3(
        "{\"command\": [\"set_property\", \"volume\", ",
        number.as_str(),
        "]}",
    );
    send_ipc_line(ipc_path, line.as_str())
}

} // verus!
