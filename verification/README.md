# Wreckers Radio

A desktop player for Wreckers Radio, in two parts.

`src/` is the player without its window. It is written in Verus: what the player
does on every event, what it shows, which tracks the blacklist keeps out, and
what it writes to mpv and to the file of liked tracks are stated as contracts and
proved.

- `app`: the state of the player and `App::update`, which takes one event and
  says what is to be done next.
- `screen`: what the window shows.
- `blacklist`: the blacklist file and the rule by which a track matches it.
- `likes`: the file of liked tracks.
- `mpv`: how mpv is started, and the messages that set its volume.
- `paths`: where the files and the IPC endpoint are.
- `now_playing`: the answers of the station's API.
- `text`: the string operations the rest is built from.
- `player_laws`, `file_laws`: what holds of the player and of its files as a
  whole.

`app/` is the program: the window, drawn with iced, and the work the player asks
for, which is to read and write files, to talk to the API and to mpv, and to show
file dialogs.

The player needs `mpv` on the `PATH`.
