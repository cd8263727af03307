# bggcli

A command-line tool that adds board games from boardgamegeek.com pages
(a user's collection or a geeklist) to a local SQLite database and lists them.

- `src/` is the verified library: reading page addresses (`bgg_url`), the
  records of the API answers (`boardgame`, `collection`, `geeklist`), the
  statements that store a batch of games (`db`), grouping ids into requests and
  deciding when a request is tried again (`fetch`), and the listing statement
  (`query`).
- `app/` is the program around it: arguments, HTTP, XML reading, the database
  and the clock.
- `tests/` runs the library on concrete inputs.

The database schema is applied at start-up from the `migrations` directory
beside the package manifest (the working directory's when the manifest
directory is not known at build time).
