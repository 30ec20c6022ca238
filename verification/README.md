# poem_api

The back end of a small chat service (sign-up, sign-in, contacts and live
websocket sessions), with its logic verified by Verus.

- `src/` is the verified library:
  - `connection_manager`: the table of live sockets per user (`connect`,
    `disconnect`) and the laws it keeps;
  - `functions/statics`: session tokens, token checks, subscriber lists and
    the session cookie;
  - `functions/routing`: each route as a state machine from request and
    outcomes of database and identity-provider calls to the next action and,
    finally, the reply;
  - `functions/store_model`: the Users and Sessions collections as maps and
    sequences, what each flow action does to them, and the laws over them;
  - `models`, `file_reader`, `text`: the records, the configuration and the
    text rendering they need.
- `app/` is the server: poem handlers that run the flows, MongoDB, Redis and
  Firebase calls, and serde copies of the records.
- `tests/` exercises the library on concrete values.
