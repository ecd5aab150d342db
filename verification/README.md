# go_getta

The core of Go Getta, a small social media server: users with single-use
account keys, posts and comments, ratings, bookmarks, follows with
notifications, public and private rooms, and uploaded media.

The crate is written in Verus. Every request handler is a state machine in
`src/`: it is started from the request's inputs, and each `step` takes what the
outside world reported (`flow::Event`) and returns the next state and what to do
next (`flow::Action`): read a row, run a listing, write a change, start a
background task, store a file, or finish with an answer. The contracts state
each step exactly (`next`), or, where a fresh id or a password hash is drawn,
as a relation (`steps_to`). The laws of the library are public proof functions
next to the machines they speak of (`law_...`).

Layout:

- `src/text.rs`: cookies, numbers and the other text rules, with their proofs.
- `src/models.rs`: the rows of the database.
- `src/flow.rs`: keys, listings, changes, actions and events.
- `src/session.rs`, `src/login.rs`, `src/create_account.rs`: who is asking.
- `src/api/`: one module per group of handlers.
- `src/bindings.rs`: the calls into `bcrypt`, `uuid`, `urlencoding` and std
  whose contracts are trusted.
- `app/`: the warp server and the diesel (SQLite) database that run the
  machines' actions; not verified.
