# native_core

The storage core of a local message archive. The library makes every statement that the archive
runs, decides what is done with what the database answers, and states in contracts what the
statements do to the rows of a table.

- `src/` is the library. `sql` and `relation` model statements and tables; `schema`, `tables`,
  `plan`, `index` and `database` make and migrate them; `message`, `contact`, `chatroom`, `session`,
  `favorite`, `payment`, `moment` and `catalog` hold the rows; `archive` and `throttle` keep and
  prune raw events; `search`, `thin`, `source` and `watermark` serve full-text search;
  `write_lease` coordinates writers; `meta`, `wal`, `lock` and `redact` do the rest.
- `app/` is the shell that opens databases and runs the statements.
- `tests/` runs the library against SQLite.
