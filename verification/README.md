# ajuna_worker

Verified game logic of the Ajuna worker, written in Verus.

- `src/` is the library. Every executable function in it carries a contract that Verus proves:
  storage keys of the game pallets (`storage`, `pallet_ajuna_runner`, `pallet_game_registry`,
  `registry_storage`), lookups in the node metadata (`metadata`), the decisions of the game
  executor (`game_executor`), of the parentchain and sidechain block importers
  (`parentchain_import`, `sidechain_import`), the client's commands (`cli`) and its board view
  (`board_display`), and the components of the ocall bridge (`ocall_bridge`). Hashing and
  SCALE encoding are delegated to `sp-core-hashing` and `parity-scale-codec` through the
  wrappers in `hashing` and `bytes`, whose contracts are trusted.
- `app/` holds what talks to the outside world: the clap command line, the board's encoding
  as the worker sends it, and the loops that read the parentchain, the trusted state and the
  operation pool around the library's decisions.
- `tests/` runs the library on concrete values.
