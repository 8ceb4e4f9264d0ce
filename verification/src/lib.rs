//! Verified state logic of a room-based multiplayer game on Solana: the
//! player-state accounts of the game server and the per-room prize pool.

pub mod chain;
pub mod prize_pool;
pub mod pool_laws;
pub mod game_server;
pub mod game_server_v1;
