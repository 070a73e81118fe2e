# chrome-devtools

A command-line client for Chrome's DevTools protocol that keeps a background
daemon holding the browser connection. This crate is its verified core,
checked with Verus:

- `src/protocol.rs`: the daemon's idle timeout (`30m`, `1h`, `300s`, `never`):
  parsing, its text, and the proof that parsing the text gives the timeout
  back; requests and responses.
- `src/framing.rs`: length-prefixed messages on the daemon's socket.
- `src/json.rs`: JSON objects as the library reads and builds them.
- `src/dispatch.rs`: which browser action a request asks for.
- `src/cli.rs`: the request the client sends for a command line, the action
  it runs itself without the daemon (and the proof that both agree), the idle
  timeout it settles on, and its fallback steps.
- `src/daemon.rs`: the daemon's launch arguments, accept loop and retry after a
  lost browser connection.
- `src/record_video.rs`: the decisions of the video recorder.
- `src/text.rs`: character-level helpers (trimming, case folding, decimals).

`app/` holds the program around it: the command-line parser, sockets,
processes and the browser connection. `tests/` runs the library.
