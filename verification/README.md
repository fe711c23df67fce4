# my_file_cloud_server

A small personal file cloud: users register and log in, receive an access and
a refresh token in HTTP-only cookies, and browse, upload, download, create and
delete files and directories inside their own directory of the storage root.

## Layout

- `src/` — the verified library (Verus).
  - `path` — joining paths as a Unix `PathBuf` does, the `..` check, the final
    component of a path.
  - `storage` — the storage root, per-user paths, what browsing, deleting,
    creating and zipping touch, and how directory listings are filtered.
  - `database` — repository configuration and errors, and the in-memory
    repository (`MockDatabase`) over tables with unique keys.
  - `id`, `model` — identifiers, users and sessions.
  - `util` — Argon2 password hashing.
  - `jwt` — token claims and lifetimes.
  - `auth` — token cookies, classification of token failures, the
    authenticated user.
  - `routes` — the decisions each HTTP route takes between its waits.
  - `api` — error kinds, status codes and messages of failed requests.
  - `env` — the configuration from the environment variables.
- `app/` — the server itself: configuration loading, logging, the MySQL
  repository, file-system access, JWT signing and decoding, and the axum
  routes that run the library's decisions.
- `tests/` — tests of the library.
