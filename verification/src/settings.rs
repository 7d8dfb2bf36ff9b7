use vstd::prelude::*;

verus! {

/// The server settings the player logic reads.
#[derive(Debug, Clone, Copy, PartialEq, Eq, Structural)]
pub struct Settings {
    /// Players online at most.
    pub max_players: i32,
    /// Failed logins before the connection is closed.
    pub max_login_attempts: i32,
    /// Ticks between pings.
    pub ping_rate: i32,
    /// Seconds a new connection has to start the handshake.
    pub hangup_delay: i32,
    /// Founding members a new guild needs.
    pub guild_min_players: usize,
    /// Gold it costs to found a guild.
    pub guild_create_cost: i32,
    /// Gold the guild bank pays for each recruit.
    pub guild_recruit_cost: i32,
    /// The least gold that may be deposited into a guild bank.
    pub guild_min_deposit: i32,
    pub max_hair_color: i32,
    pub max_hair_style: i32,
    pub max_skin: i32,
    pub max_name_length: i32,
    /// The longest title, in bytes.
    pub max_title_length: usize,
    /// Characters an account may have.
    pub max_characters: i32,
    pub account_recovery: bool,
    pub recovery_show_email: bool,
    pub recovery_mask_email: bool,
    pub account_delay_time: i32,
    pub email_validation: bool,
    /// Whether players may look up what npcs drop.
    pub info_reveals_drops: bool,
    pub auto_pickup_enabled: bool,
    /// Where players end up when the map they warp to is missing.
    pub rescue_map: i32,
    pub rescue_x: i32,
    pub rescue_y: i32,
}

} // verus!
