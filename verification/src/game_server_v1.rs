//! The first version of the player state: small numeric ids in place of
//! strings, and an owner that is set once, when the state is initialized.

use vstd::prelude::*;

use anchor_lang::prelude::Pubkey;

pub use crate::game_server::{Position, Rotation};

verus! {

/// The state of one player, as the player-state account holds it.
#[derive(Debug)]
pub struct PlayerState {
    pub position: Position,
    pub rotation: Rotation,
    /// Animation the player shows.
    pub animation_id: u8,
    /// Model the player is drawn with.
    pub model_id: u8,
    /// The room the player is in.
    pub room_id: u8,
    /// The player's address, set when the state is initialized.
    pub player: Pubkey,
}

/// The state of the player `user` right after initialization: at the origin,
/// unrotated, every id zero.
pub open spec fn initialized(user: Pubkey) -> PlayerState {
    PlayerState {
        position: Position { x: 0, y: 0, z: 0 },
        rotation: Rotation { x: 0, y: 0, z: 0, w: 0 },
        animation_id: 0,
        model_id: 0,
        room_id: 0,
        player: user,
    }
}

/// The state after an update: everything but the player is overwritten.
pub open spec fn updated(
    state: PlayerState,
    room_id: u8,
    animation_id: u8,
    model_id: u8,
    position: Position,
    rotation: Rotation,
) -> PlayerState {
    PlayerState { position, rotation, animation_id, model_id, room_id, ..state }
}

/// Puts the player state of `user` in its initial form.
pub fn initialize(player_state: &mut PlayerState, user: Pubkey)
    ensures
        *final(player_state) == initialized(user),
{
    player_state.position = Position::default();
    player_state.rotation = Rotation::default();
    player_state.animation_id = 0;
    player_state.model_id = 0;
    player_state.room_id = 0;
    player_state.player = user;
}

/// Writes the room, the ids, the position and the rotation of the player;
/// the player's address stays as it was.
pub fn update_player(
    player_state: &mut PlayerState,
    room_id: u8,
    animation_id: u8,
    model_id: u8,
    position: Position,
    rotation: Rotation,
)
    ensures
        *final(player_state) == updated(
            *old(player_state),
            room_id,
            animation_id,
            model_id,
            position,
            rotation,
        ),
{
    player_state.position = position;
    player_state.rotation = rotation;
    player_state.animation_id = animation_id;
    player_state.model_id = model_id;
    player_state.room_id = room_id;
}

/// The player set at initialization stays the player through any update,
/// and an update hands back exactly what it wrote, whatever was written
/// before.
pub proof fn lemma_owner_survives_updates(
    user: Pubkey,
    state: PlayerState,
    room_id: u8,
    animation_id: u8,
    model_id: u8,
    position: Position,
    rotation: Rotation,
    earlier_room_id: u8,
    earlier_animation_id: u8,
    earlier_model_id: u8,
    earlier_position: Position,
    earlier_rotation: Rotation,
)
    ensures
        updated(initialized(user), room_id, animation_id, model_id, position, rotation).player
            == user,
        updated(
            updated(
                state,
                earlier_room_id,
                earlier_animation_id,
                earlier_model_id,
                earlier_position,
                earlier_rotation,
            ),
            room_id,
            animation_id,
            model_id,
            position,
            rotation,
        ) == updated(state, room_id, animation_id, model_id, position, rotation),
{
}

/// An update stores exactly the room, ids, position and rotation it is given,
/// and keeps the player.
pub proof fn lemma_update_writes_arguments(
    state: PlayerState,
    room_id: u8,
    animation_id: u8,
    model_id: u8,
    position: Position,
    rotation: Rotation,
)
    ensures
        ({
            let after = updated(state, room_id, animation_id, model_id, position, rotation);
            &&& after.room_id == room_id
            &&& after.animation_id == animation_id
            &&& after.model_id == model_id
            &&& after.position.x == position.x
            &&& after.position.y == position.y
            &&& after.position.z == position.z
            &&& after.rotation.x == rotation.x
            &&& after.rotation.y == rotation.y
            &&& after.rotation.z == rotation.z
            &&& after.rotation.w == rotation.w
            &&& after.player == state.player
        }),
{
}

/// Initialization puts the player `user` at the origin (every coordinate and
/// rotation component the bit pattern of `0.0`, which is zero), with every id
/// zero.
pub proof fn lemma_initialize_values(user: Pubkey)
    ensures
        ({
            let s = initialized(user);
            &&& s.player == user
            &&& s.room_id == 0 && s.animation_id == 0 && s.model_id == 0
            &&& s.position.x == 0 && s.position.y == 0 && s.position.z == 0
            &&& s.rotation.x == 0 && s.rotation.y == 0 && s.rotation.z == 0 && s.rotation.w == 0
        }),
{
}

} // verus!
