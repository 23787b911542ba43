# signal_native

The verified core of a Node.js Signal client built on Presage.

- `src/` — the library, verified with Verus:
  - `hexcodec`: hex text of group master keys and its decoding, with the round trip proved;
  - `records`: contacts, groups and the profile as JavaScript receives them;
  - `message`: received contents turned into the messages handed to JavaScript;
  - `outgoing`: text and reaction messages, group keys given as hex;
  - `registry`, `session`: per-store managers, stop switches of receive loops and linking sessions;
  - `receive`: what the receive loop does on each event;
  - `clock`: the current time in milliseconds;
  - `errors`: why a request is refused.
- `app/` — the napi bindings: the async functions exported to JavaScript, the
  store and network work through Presage, and the receive loop itself.
  It needs `presage` and `presage-store-sqlite`, which the registry used here
  does not offer, so they are not named in Cargo.toml and app/ does not build
  without them.
- `tests/` — tests of the library on concrete values.
