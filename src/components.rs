//! Per-entity state of players and monsters.
use vstd::prelude::*;
use crate::action::MobAction;
use crate::math::Vector2;
use crate::registry::Handle;

verus! {

/// Where an entity stands in the world.
#[derive(Debug, Clone, Copy, PartialEq, Eq, Structural)]
pub struct WorldPosition {
    pub position: Vector2,
}

impl WorldPosition {
    pub fn new(position: Vector2) -> (r: WorldPosition)
        ensures
            r.position == position,
    {
        WorldPosition { position }
    }
}

/// Health a player starts with.
pub const PLAYER_BASE_HEALTH: u32 = 100;

/// Collision radius of a player.
pub const PLAYER_RADIUS: u32 = 20;

/// A player character.
#[derive(Debug, Clone, Copy, PartialEq, Eq, Structural)]
pub struct Player {
    pub health: u32,
    pub velocity: Vector2,
    pub walking_direction: Vector2,
    pub looking_direction: Vector2,
    pub radius: u32,
}

impl Player {
    /// A player at full health, standing still and facing up.
    pub fn new() -> (r: Player)
        ensures
            r.health == PLAYER_BASE_HEALTH,
            r.velocity == (Vector2 { x: 0, y: 0 }),
            r.walking_direction == (Vector2 { x: 0, y: 1 }),
            r.looking_direction == (Vector2 { x: 0, y: 1 }),
            r.radius == PLAYER_RADIUS,
    {
        Player {
            health: PLAYER_BASE_HEALTH,
            velocity: Vector2::zero(),
            walking_direction: Vector2::new(0, 1),
            looking_direction: Vector2::new(0, 1),
            radius: PLAYER_RADIUS,
        }
    }
}

impl Default for Player {
    fn default() -> (r: Player)
        ensures
            r == Player::new_spec(),
    {
        Player::new()
    }
}

impl Player {
    pub open spec fn new_spec() -> Player {
        Player {
            health: PLAYER_BASE_HEALTH,
            velocity: Vector2 { x: 0, y: 0 },
            walking_direction: Vector2 { x: 0, y: 1 },
            looking_direction: Vector2 { x: 0, y: 1 },
            radius: PLAYER_RADIUS,
        }
    }
}

/// Intent to walk in a direction.
#[derive(Debug, Clone, Copy, PartialEq, Eq, Structural, Default)]
pub struct PlayerWalkAction {
    pub direction: Vector2,
}

/// Intent to look in a direction.
#[derive(Debug, Clone, Copy, PartialEq, Eq, Structural, Default)]
pub struct PlayerLookAction {
    pub direction: Vector2,
}

/// Intent to cast a missile from one point toward another.
#[derive(Debug, Clone, Copy, PartialEq, Eq, Structural)]
pub struct PlayerCastAction {
    pub cast_position: Vector2,
    pub target_position: Vector2,
}

/// The intents of a player for the current frame, as the server applies
/// them.
#[derive(Debug, Clone, Copy, PartialEq, Eq, Structural)]
pub struct PlayerActions {
    pub walk_action: PlayerWalkAction,
    pub look_action: PlayerLookAction,
    pub cast_action: Option<PlayerCastAction>,
}

/// The intents of the local player as captured from input, before they are
/// applied and sent.
#[derive(Debug, Clone, Copy, PartialEq, Eq, Structural)]
pub struct ClientPlayerActions {
    pub walk_action: PlayerWalkAction,
    pub look_action: PlayerLookAction,
    pub cast_action: Option<PlayerCastAction>,
}

/// When (in milliseconds of simulated time) the player last cast a missile;
/// `None` before the first cast.
#[derive(Debug, Clone, Copy, PartialEq, Eq, Structural)]
pub struct PlayerLastCastedSpells {
    pub missile: Option<u64>,
}

/// A monster driven by a mob action.
#[derive(Debug, Clone)]
pub struct Monster {
    pub health: u32,
    pub attack_damage: u32,
    pub destination: Vector2,
    pub velocity: Vector2,
    pub action: MobAction<Handle>,
    pub name: String,
    pub radius: u32,
}

/// Marks an entity that died, with the frame of its death.
#[derive(Debug, Clone, Copy, PartialEq, Eq, Structural)]
pub struct Dead {
    pub frame: u64,
}

} // verus!
