# FlashCut

FlashCut is a privacy-first video trimmer: the video never leaves the
browser, and a small server lets several people follow and edit the same
cut together over WebSockets.

`src/` is the verified library (Verus):

- `protocol` — the messages and REST payloads shared by editor, server and
  peers;
- `session` — the server's session store (a `DashMap`) and the operations
  the handlers perform on it: create (answering `201`, with an id no other
  session has), look up (sessions expire two hours after creation, to the
  nanosecond of the system clock), join (or the `SESSION_NOT_FOUND` frame), relay a
  client message, leave, remove an empty session after the reconnect grace
  period, describe (or the `404` answer), count;
- `relay` — the per-session rules: what joining, leaving and each client
  message do to the state, what is broadcast in answer (updates re-sent
  under the sender's own id, `Pong` for `Ping`, nothing else), which
  broadcasts a participant receives, which frames end a connection;
- `timecode` — `mm:ss.fff` formatting, with the proof that the text reads
  back as the time;
- `media` — WebCodecs encoder/decoder configuration, how codec handles are
  called, and the steps of the trim export;
- `editor` — decisions and texts of the user interface (which files load,
  when an export may start, the panel labels);
- `outside` — the declarations through which the library uses `dashmap`,
  `tokio`'s broadcast channel, `uuid` and `String::push`.

`app/` is the program around it: built for the host it is the Axum
collaboration server; built for `wasm32` it is the browser media engine and
the Leptos editor. Times in milliseconds are `f64` in JSON and in the
browser; the library carries them as the `f64`'s bit pattern and never
computes with them, so the floating-point parts (trim range arithmetic,
timeline percentages, splitting a time into seconds and milliseconds) live
in `app/`.
