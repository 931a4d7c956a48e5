# github_stars_server

A background server that finds the stargazers of the GitHub repositories its
users starred, and stores them in SurrealDB.

- `src/` is the verified library: request addresses and response
  handling of the GitHub client, the rate limit state read from response
  headers, the per-repository processing run as a state machine, the worker
  pool's sizing decisions, the health checks, API key authentication, the
  admin API's answers, and the conversion of database rows.
- `app/` is the executable around it: the actors, the database queries, the
  HTTP servers and `main`. It performs what the library decides.
- `tests/` runs the library on concrete values.
