# todomvc

A TodoMVC application whose logic is verified with Verus.

- `src/` — the library, verified: the todo model (`model`), text helpers
  (`text`: whitespace, trimming, decimal numerals), the client state and its
  laws (`state`), the REST server's decisions and replies (`server`), the
  client's request paths and delete outcomes (`client`), and the page's
  decisions (`view`).
- `app/` — ordinary Rust around it: the Axum server over SQLite (`backend`),
  the Leptos client (`frontend`), and the serde/sqlx forms of the types (`wire`).
- `tests/` — tests of the library on concrete values.
