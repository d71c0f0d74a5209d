# backup_pi

A backup client for mealpedant. It reads its configuration from the
environment, asks the backup server over a websocket for a new backup once a
day at a configured local time, and writes the backups that the server sends
to a local directory.

- `src/` is the library, verified with Verus: configuration parsing
  (`app_env`, `env_map`, `digits`), the daily schedule (`cron`, `tz`), the
  classification of incoming messages and the framing of outgoing ones
  (`ws_messages`, `ws`), and the errors (`app_error`).
- `app/` is the program around it: reading the environment and the clock,
  JSON (de)serialisation, the websocket connection, writing files, logging.
- `tests/` runs the library on concrete values.
