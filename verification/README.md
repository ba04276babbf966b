# twitch-extension-api

The logic of a Twitch extension's web API, verified with Verus.

- `src/config`: the configuration read from environment variables
  (decimal numbers, the TLS flag, the comma separated list of database
  nodes, the number of workers) and the throttling state.
- `src/http`: the answers of the service and the answer to a failed
  database call; `src/http/v1` holds the checks that guard the routes
  (platform secret, user access tokens) and, per route, the steps that the
  route takes between database calls, each a function with its contract.
- `src/models/v1`: the records that the routes read and write, as plain values.
- `app/`: the HTTP server (actix-web), the database calls (charybdis on
  ScyllaDB), the environment and the JSON bodies; each route runs the steps
  that the library chooses.
- `tests/`: tests of the library on concrete values.
