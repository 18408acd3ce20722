# chat_backend

The verified core of a small chat backend (HTTP API plus WebSocket rooms).

- `src/` is the library, checked by Verus:
  - `socket_server` — the registry of connected sessions and chat rooms, with
    its invariant (every room member is a connected session) and the laws of
    joining and leaving;
  - `session` — what a chat socket does for each event (heartbeat, frames,
    registration), and the bound on how long a silent client stays connected;
  - `models` — roles and their stored form;
  - `config::auth` — password encryption and reading the bearer token;
  - `config::jwt` — issuing and reading login tokens (JSON Web Tokens through
    `jsonwebtoken`), and the user a token's claims describe;
  - `config::middleware` — the route guards' decisions;
  - `controllers::*` — request validation and the answers of each endpoint;
  - `ids` — UUID text, parsing and generation.
- `app/` is the program: actix-web routes and actors, database access
  (diesel, tokio-postgres), the clock, and reading the environment.
- `tests/` runs the library on concrete values.
