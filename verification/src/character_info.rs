use vstd::prelude::*;

use crate::effects::Coords;

verus! {

/// What the handlers read of a character that a map or the world reports.
#[derive(Debug, Clone)]
pub struct CharacterInfo {
    pub name: String,
    pub admin_level: i32,
    /// The id of the player controlling the character, when online.
    pub player_id: Option<i32>,
    /// Whether the character has a player handle to send to.
    pub has_player: bool,
    pub map_id: i32,
    pub coords: Coords,
    pub guild_tag: Option<String>,
    pub guild_name: Option<String>,
    pub guild_rank: Option<i32>,
    pub guild_rank_string: Option<String>,
    /// The amount of gold (item 1) the character carries.
    pub gold: i32,
    pub is_guild_leader: bool,
}

} // verus!
