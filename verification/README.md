# spotify-server

A Socket.IO server that sits between a Spotify client plugin and web pages
that control playback. The plugin reports the playing track; web pages send
playback commands (`PlayPause`, `Next`, `Prev`, `Shuffle`, `Repeat`,
`request`) and ask for the current track (`getdata`); the server forwards the
commands to the plugin and pushes `player_data` updates to web pages.

## Layout

- `src/` — the library, verified with Verus:
  - `models` — track data, player data and what a `command` event does to it;
  - `registry` — the connected clients and their kinds;
  - `server` — the server state, the events it receives, the messages it
    sends in answer (`ServerState::handle`), the listen address, and the
    laws that relate events;
  - `tray` — choosing and decoding the tray icon, menu events, failure texts;
  - `console` — console-window decisions and UTF-16 text for Windows calls;
  - `startup` — development mode and failure texts;
  - `number`, `text` — decimal numbers and string helpers.
- `app/` — the program: Socket.IO and HTTP serving, the tray icon, the
  console, start-up; it hands events to the library and carries out its
  answers.
- `tests/` — tests of the library.

## Configuration

- `IP`: server host (default `127.0.0.1`)
- `PORT`: server port (default `8443`)
- `-dev` / `--dev`: run with a console and log output.
