# cloud-calc

A line-oriented calculator service with accounts. Clients connect over TCP,
register or log in, and then use a calculator whose usage and history are
kept per account; administrators list, create, re-role and delete accounts
and read everyone's usage.

- `src/` is the verified library (Verus):
  - `session.rs`: the session a client goes through, as a state machine from
    events (lines, end of input, replies to requests) to actions (text to
    send, requests to the user store or the calculator), with the laws it
    keeps: who may do what, whose data a session touches, when a session
    waits and when it ends.
  - `auth.rs`: the decisions of registering, logging in and creating
    accounts.
  - `password.rs`: Argon2 hashing and checking through the `argon2` crate.
  - `text.rs`: trimming lines, reading and writing integers.
  - `menu.rs`: the menus; `usage.rs`: measuring work.
- `app/` runs the service: the TCP server, the PostgreSQL user store
  (`sqlx`), expression evaluation (`meval`, floating point), timing and
  `/proc` memory readings, and the loop that feeds a `Session` its events
  and carries out its actions.
- `tests/` exercises the library on concrete values.
