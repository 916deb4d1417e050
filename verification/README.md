# rauth

The core of an authentication service — users, sessions, applications and
a TOTP second factor — written in Verus and verified.

- `src/` — the verified library:
  - `regex`: the email and URL formats;
  - `security`: password shadowing (SHA-256), TOTP checks, randomness, the clock;
  - `session`: session tokens; the login and logout use cases (`application`), with the
    login as a step function (`login_step`) driven by `login` over the user, secret and
    session stores, whose answers are described by relations the stores may define; the
    in-memory session store (`framework`); and the session service's login and logout
    handlers as step functions (`grpc`);
  - `user`, `secret`, `metadata`, `app`, `models`: the stored entities;
  - `mfa`: the authenticator-app second factor, as step functions from state and event to
    next state and action;
  - `grpc`, `user::grpc`: statuses, and the user service's signup, TOTP and delete handlers
    as step functions (`signup_step`, `totp_step`, `delete_step`); signing and decoding
    tokens, decryption and the transport are left to the process around them.
- `tests/` — tests of the library.
- `app/` — the process: environment set-up and the shared, locked session store that draws
  fresh tokens.
