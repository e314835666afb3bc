# lynx_proxy

The verified core of the Lynx proxy, and the command-line program around it.

- `src/` is the library, verified with Verus: the message-events WebSocket protocol
  (operations, frames, the session that turns client frames into replies and service calls),
  focus/ignore capture rules, request-processing rules (stamping, ordering, project filtering,
  rule selection, request facts), project configuration export and import, settings and their
  caches, listen addresses and the update check.
- `tests/` runs the library on concrete values.
- `app/` is the program: command line, files under the data directory, the WebSocket server
  loop and the network calls. It hands the library plain values and carries out the steps the
  library decides.
