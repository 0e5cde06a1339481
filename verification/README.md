# GhostView Pro host

The host side of GhostView: it captures a screen, encodes it and streams it
over WebRTC to a viewer in a browser, who finds the session by a PIN through a
signaling server.

* `src/` is the library `ghostview`, written in Verus. It holds every decision
  of the host, with its contract: the wire format, the signaling client, the
  background tasks, the encoder pipeline, how a session comes up and how it is
  taken down.
* `app/` is ordinary Rust around it: sockets, channels, threads, the peer
  connection, the screen. It asks the library what to do and does it.
* `tests/` runs the library on concrete values.

| module          | what it decides                                            |
|-----------------|------------------------------------------------------------|
| `messages`      | the messages of the signaling protocol                     |
| `wire`          | their JSON form, written and read                          |
| `signaling`     | the client handle, the wait for a PIN, the two pumps       |
| `tasks`         | signaling loop, candidate forwarder, joining of tasks      |
| `state_watcher` | when a disconnected peer is given up                       |
| `webrtc_host`   | the video track, samples, answers, candidates, states      |
| `capture`       | monitors, and what becomes of captured frames              |
| `codec`         | BGRA to 4:2:0, the pass-through encoder                    |
| `pipeline`      | encoder sizes, rebuilding, packet durations                |
| `session`       | start, stop, teardown, configuration                       |
| `text`          | joining, decimal numbers, comma-separated lists            |

Configuration: `GHOSTVIEW_SIGNALING_URL` is the address of the signaling
server, `GHOSTVIEW_ICE_SERVERS` a comma-separated list of ICE server addresses.

The application is built with `--cfg desktop_shell` for the desktop shell,
which needs the crate `tauri`, and with `--cfg vpx` for the libvpx encoder.
