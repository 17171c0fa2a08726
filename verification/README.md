# discord-mute

A local web API for Discord's mute, and a listener that puts a DualSense
controller's mic button in charge of it. The logic is a Verus library whose
behaviour is stated in contracts and proved; the program around it does the
input and output.

## Layout

- `src/controller/`: what input reports say (`input`), what output reports are
  sent back (`output`), one controller connection (`session`), bringing the
  feedback back after a reconnect (`restore`), the listener that survives
  disconnects (`listener`), how its handler is asked (`handler`), the choice
  among HID devices (`device`), what is worth a line in the log (`notes`), and
  what holds of each step (`laws`) and of whole runs (`runs`).
- `src/discord_ipc/`: frames, requests, replies and the client that follows one
  request to its end.
- `src/discord_mute.rs`: the mute and deafen switches on a session that is made
  anew, once, when it turns out to be stale.
- `src/auth.rs`, `src/token.rs`, `src/config.rs`: how an authorization becomes a
  token, when a token can be used, and where things are kept.
- `src/api.rs`, `src/daemon.rs`, `src/keyboard.rs`, `src/cli.rs`: the state that
  the web API shows, the daemon's control API, the push-to-talk key and the
  command line.
- `src/json.rs`, `src/text.rs`, `src/wire.rs`, `src/paths.rs`: what the rest is
  built on.
- `app/`: the program: web server, HID device, sockets, files, environment.
- `tests/`: the library on concrete values.

## How the state machines are run

A machine says what is to be done next (`Listener::request`, the `task` of a
`DiscordMute`, what `DiscordIpc::receive` returns). The program does that and
hands back what came of it as an event. Times are nanoseconds on one steady
clock; paths are the bytes that they are on Unix.

## What is taken on trust

`serde_json` reads, writes and shows JSON values (`src/json.rs`), `time` reads
RFC 3339 times and the clock (`src/token.rs`), and `uuid` makes nonces
(`src/discord_ipc/request.rs`). What is claimed of each call stands above it.
