# eleven_barrage

A live-room comment service: it signs a room's URL in a browser, receives
the room's messages over a push websocket or by polling, decodes and
de-duplicates them, and serves them to downstream websocket clients as
JSON, with a small REST API to sign rooms and follow or drop them.

## Layout

- `src/` — the library, verified with Verus: the protobuf wire format and
  message decoding, gzip framing, routing of messages to events, the
  event filter and the per-method de-duplicator, the session fault
  detector, retry backoff, URL parsing, the room registry, and every
  decision the service takes on what it receives (signed requests, HTTP
  statuses, error answers, settings).
- `tests/` — tests of the library on concrete values.
- `app/` — the program around the library: browsers and the debugging
  protocol, websocket and HTTP I/O, the REST and websocket servers,
  settings files, logging and metrics, and the command line.
