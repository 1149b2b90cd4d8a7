# airlink

The core of an audio hub for a local network, written and verified in Verus.
Devices register with the hub, senders add streams, receivers listen to them, and a
player feeds background music into a stream of its own.

- `src/` is the library. Every decision is a function with a contract: the registry of
  devices and streams (`hub`), the player loop as a state machine (`player`,
  `player_api`), the control bus and the sound connections (`sockets`), accounts,
  logins and roles (`accounts`, `passwords`, `auth`), the choice of an input device
  (`capture`) and addresses (`web`). `hub_laws` and `auth_laws` hold what is true of
  several of these together. What is trusted about other crates stands in `tables`
  (dashmap), `json` (serde_json), `passwords` (bcrypt), `ids` (uuid) and, of the
  standard library, in `clock` and `capture`.
- `app/` is the program around it: the web server, the store, the decoder and the
  capture of sound. Pages are read from a folder `static` beside the program.
- `tests/` runs the library.

Volumes and times are floating-point numbers to the program; the library holds them by
their bits and compares them as integers (`level`).
