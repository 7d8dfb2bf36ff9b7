pub mod effects;
pub mod player;
pub mod rng;
pub mod state;
pub mod text;
pub mod player_commands;
pub mod character_info;
pub mod lookup;
pub mod admin_commands;
pub mod handle_player_command;
pub mod warp;
pub mod quest_action;
pub mod packets;
pub mod forwarding;
pub mod session;
pub mod settings;
pub mod dialogs;
pub mod dispatch;
pub mod guild;
pub mod talk;
pub mod drops;
pub mod login;
pub mod account;
pub mod character;
pub mod notices;
pub mod laws;
