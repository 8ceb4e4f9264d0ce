# rollup_game

The state logic of a room-based multiplayer game on Solana, verified with
Verus: the player-state accounts that the game server writes while they are
delegated to an ephemeral rollup, and the prize pool of each room, where
players deposit lamports, a fee stays in the escrow and the winner claims the
rest once.

- `src/prize_pool.rs`: deposits and the claim of a prize, with their
  contracts; `src/pool_laws.rs`: what holds over several requests (a prize is
  claimed once, the escrow covers an unclaimed prize, the prize is the sum of
  the deposits less their fees).
- `src/game_server.rs`, `src/game_server_v1.rs`: the two versions of the
  player state and their updates, and the event that declares a winner.
- `src/chain.rs`: the Solana address type, carried through unread.
- `app/`: the instruction handlers, with the accounts, the cross-program
  invocations, the clock, logging and events.
- `tests/`: tests of the library on concrete values.
