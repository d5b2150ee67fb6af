# isuketch

The server side of the isuketch drawing service: a small JSON API over a MySQL
database of rooms and strokes.

- `src/` is the library, verified with Verus:
  - `query` — the SQL statements and their named parameters;
  - `model` — rooms, strokes and points, and how database rows become them
    (creation times are written with chrono);
  - `json` and `reply` — the JSON error and token bodies (string literals from
    serde_json) and the answers a handler ends with;
  - `config` — the database settings from the environment, with defaults, and
    port-number reading;
  - `handlers` — the CSRF token and room list handlers as state machines, one
    step per call, and the handlers that answer at once;
  - `runs` — whole runs of the handlers and the properties proved of them.
- `app/` is the server around it: nickel routing, the MySQL pool, serde
  encoding of room lists, and the loop that performs what each handler step
  asks for.
- `tests/` exercises the library with the real chrono and serde_json.
