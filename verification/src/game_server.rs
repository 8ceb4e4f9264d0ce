//! The player state of the game server, written while the account is
//! delegated to an ephemeral rollup, and the event that declares a winner.
//!
//! Coordinates are single-precision floats on chain. The library holds each
//! of them as its IEEE-754 bit pattern (`f32::to_bits`), which it stores and
//! hands back unchanged; it never computes with them.

use vstd::prelude::*;

use anchor_lang::prelude::Pubkey;

verus! {

/// A point in 3D space, each coordinate as the bit pattern of an `f32`.
#[derive(Debug, Clone, Copy, PartialEq, Eq, Structural)]
pub struct Position {
    pub x: u32,
    pub y: u32,
    pub z: u32,
}

/// A rotation as a quaternion, each component as the bit pattern of an `f32`.
#[derive(Debug, Clone, Copy, PartialEq, Eq, Structural)]
pub struct Rotation {
    pub x: u32,
    pub y: u32,
    pub z: u32,
    pub w: u32,
}

impl Default for Position {
    /// The origin: every coordinate `0.0`, whose bit pattern is zero.
    fn default() -> (position: Position)
        ensures
            position == (Position { x: 0, y: 0, z: 0 }),
    {
        Position { x: 0, y: 0, z: 0 }
    }
}

impl Default for Rotation {
    /// Every component `0.0`, whose bit pattern is zero.
    fn default() -> (rotation: Rotation)
        ensures
            rotation == (Rotation { x: 0, y: 0, z: 0, w: 0 }),
    {
        Rotation { x: 0, y: 0, z: 0, w: 0 }
    }
}

/// The state of one player, as the player-state account holds it.
#[derive(Debug)]
pub struct PlayerState {
    /// The player's address.
    pub player: Pubkey,
    pub game_mode: String,
    /// The room the player is in.
    pub room_id: String,
    pub position: Position,
    pub rotation: Rotation,
    /// Animation the player shows.
    pub animation: String,
    /// Model the player is drawn with.
    pub model: String,
    pub name: String,
    pub color: String,
    pub is_ready: String,
    pub is_host: String,
    pub is_finished: String,
}

/// The event that tells the prize pool who won a room, and when.
#[derive(Debug)]
pub struct WinnerDeclared {
    pub room_id: String,
    pub winner: Pubkey,
    /// Unix time at which the winner was declared.
    pub timestamp: i64,
}

/// Overwrites every field of the player state with the values given: after
/// the call the state is exactly what was written, whatever it held before.
pub fn update_player(
    player_state: &mut PlayerState,
    player: Pubkey,
    room_id: String,
    game_mode: String,
    animation: String,
    model: String,
    position: Position,
    rotation: Rotation,
    name: String,
    color: String,
    is_ready: String,
    is_host: String,
    is_finished: String,
)
    ensures
        *final(player_state) == (PlayerState {
            player,
            game_mode,
            room_id,
            position,
            rotation,
            animation,
            model,
            name,
            color,
            is_ready,
            is_host,
            is_finished,
        }),
{
    player_state.player = player;
    player_state.position = position;
    player_state.rotation = rotation;
    player_state.animation = animation;
    player_state.model = model;
    player_state.room_id = room_id;
    player_state.game_mode = game_mode;
    player_state.name = name;
    player_state.color = color;
    player_state.is_ready = is_ready;
    player_state.is_host = is_host;
    player_state.is_finished = is_finished;
}

/// The event that declares `winner` the winner of room `room_id` at
/// `timestamp`.
pub fn declare_winner(room_id: String, winner: Pubkey, timestamp: i64) -> (event: WinnerDeclared)
    ensures
        event == (WinnerDeclared { room_id, winner, timestamp }),
{
    WinnerDeclared { room_id, winner, timestamp }
}

} // verus!
