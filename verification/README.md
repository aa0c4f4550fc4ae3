# lineage_server

The logic of a game server for a classic online role playing game, verified with Verus.

- `src/` is the library: the packet format and its cipher (`packet`, `server_packet`,
  `client_packet`, `connection`), client ids (`clients`), accounts and password hashing
  (`user`), what the server answers each client packet (`session`), messages between the
  parts of the server (`messages`), characters (`character`), the world with its maps,
  objects, items, npcs, monsters and attacks, and what it does with each message (`world`), the update service (`update`), the
  configuration (`config`) and when the server stops (`lifecycle`).
- `app/` is the program around it: sockets, the database, the settings file, the tasks.
- `tests/` runs the library on concrete values.
