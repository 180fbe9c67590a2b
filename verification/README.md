# connection_pool

How pools of connections to a PostgreSQL database are set up and used, as a library verified with
Verus. The library decides; it never talks to a database itself.

- `src/builder.rs`: the settings of a pool, and what has to be connected to get it.
- `src/pool.rs`: pools, access to the storage, and pools for tests.
- `src/retry.rs`: repeated attempts to open a connection or to take one out of a pool.
- `src/template.rs`: databases for tests, which are made by copying a template database.
- `src/config.rs`: thresholds that all pools share.
- `src/outputs.rs`: proofs of L1 batches, and the keys they are stored under.
- `src/duration.rs`, `src/text.rs`: spans of time, and the texts the rest is rendered into.
- `src/url_text.rs`: where the path stands in the text of a URL.
- `src/external.rs`: the calls into `sqlx`, `url`, `rand` and the formatting of the standard
  library, with what is assumed of each.
- `app/`: the same pools at work, with the database, the environment and the clock.

Where something takes several steps that talk to a database, each step is a value of the library.
It says what to do next, and the application tells it how that ended.
