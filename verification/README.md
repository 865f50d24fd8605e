# concord_client

A client for the Concord API, in two parts.

- `src/` is the library, written in Verus: the headers and requests of the
  REST client, the verdict on each response, the search for a free file name
  for a downloaded process state, the correlation ids of the websocket queue
  client, the matching of replies to waiting requests, the reader's and
  writer's decisions, and the websocket handshake. Each public function
  states what it returns; the laws of the library are proof functions
  beside the code they speak of. `src/bindings.rs` holds the calls into
  `http`, `url`, `uuid` and `tungstenite`, with the contracts the library
  relies on.
- `app/` is the I/O around it: the `reqwest` and `tokio-tungstenite` clients,
  the tasks of the queue client, and the JSON forms of the values.
- `tests/` runs the library on concrete values.
