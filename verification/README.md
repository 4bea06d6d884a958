# wmtp_server

A mail server that speaks a JSON command protocol over WebTransport, with
MongoDB as its store. The command logic is written in Verus and verified; the
program around it is ordinary Rust.

## Layout

- `src/` — the verified library.
  - `text`, `json`, `oid`, `timefmt`: strings, JSON values, object ids and
    RFC 3339 times, with the outside calls they need behind small trusted
    wrappers.
  - `comm`, `cmd`: requests, response envelopes and command names.
  - `session`, `connection`, `token`: the session store (tokens unique), the
    connection table, session tokens and signed JSON web tokens.
  - `mailbox`, `records`: the stored documents and what the store's
    operations compute (new messages, copies, filters, paging, summaries).
  - `commands/*`: every command, as a check of the request (`plan_*`) and an
    answer written from what the store reported (`*_reply`), plus the commands
    that need no store.
  - `router`, `stream`: which handler a command name reaches, and the framing
    rules of the control stream and of attachment streams.
- `app/` — the program: the WebTransport endpoint, the MongoDB repository,
  JSON text on the wire, and the loop that runs each command's plan, store
  work and answer.
- `tests/` — tests of the library on concrete values.
