use vstd::prelude::*;

use crate::admin_commands::{admin_command_aborts, admin_command_outcome, command_aborts, handle_command, AdminCommand, AdminOutcome};
use crate::character_info::CharacterInfo;
use crate::effects::{Effect, MapRequest, WorldRequest};
use crate::forwarding::{talk_open_effect, talk_tell_effect};
use crate::handle_player_command::{
    handle_player_command, player_command_aborts, player_command_line_aborts, player_command_outcome,
    PlayerCommandResult,
};
use crate::packets::{
    decode_talk_admin, decode_talk_announce, decode_talk_msg, decode_talk_open, decode_talk_report,
    decode_talk_request, decode_talk_tell, talk_admin_decoded, talk_announce_decoded, talk_msg_decoded,
    talk_open_decoded, talk_report_decoded, talk_request_decoded, talk_tell_decoded, PacketAction,
};
use crate::player::Player;
use crate::player_commands::PlayerCommands;
use crate::text::{split_words, views, whitespace_words};

verus! {

/// The admin level of guardians, the least that may speak to the staff or
/// announce.
pub const GUARDIAN: i32 = 3;

/// A chat message whose handling needs the speaker's character.
#[derive(Debug, Clone, PartialEq, Eq)]
pub enum TalkJob {
    /// A message to the staff.
    Admin(String),
    /// An announcement to everyone.
    Announce(String),
    /// A message to the global channel.
    Global(String),
    /// A message said aloud, which may be a command.
    Report(String),
    /// A message to the speaker's guild.
    Guild(String),
}

/// What a message said aloud comes to.
#[derive(Debug, Clone, PartialEq, Eq)]
pub enum TalkOutcome {
    /// Nothing happens.
    Nothing,
    /// An admin command line was handled.
    Admin(AdminOutcome),
    /// One effect.
    Do(Effect),
}

/// The job of a chat packet that needs the speaker's character: the speaker
/// must stand on a map.
pub open spec fn talk_job(player: Player, job: Option<TalkJob>) -> Option<TalkJob> {
    if player.map is Some {
        job
    } else {
        None
    }
}

/// What a message to the staff, an announcement, a global message or a guild
/// message comes to: staff messages and announcements need at least the
/// guardian level, guild messages a guild.
pub open spec fn talk_broadcast(job: TalkJob, ch: Option<CharacterInfo>) -> Option<Effect> {
    match ch {
        None => None,
        Some(c) => match job {
            TalkJob::Admin(message) => if c.admin_level >= GUARDIAN {
                Some(Effect::ToWorld(WorldRequest::BroadcastAdminMessage { name: c.name, message }))
            } else {
                None
            },
            TalkJob::Announce(message) => if c.admin_level >= GUARDIAN {
                Some(Effect::ToWorld(WorldRequest::BroadcastAnnouncement { name: c.name, message }))
            } else {
                None
            },
            TalkJob::Global(message) => Some(Effect::ToWorld(WorldRequest::BroadcastGlobalMessage { name: c.name, message })),
            TalkJob::Guild(message) => match c.guild_tag {
                Some(guild_tag) => Some(Effect::ToWorld(WorldRequest::BroadcastGuildMessage { guild_tag, name: c.name, message })),
                None => None,
            },
            TalkJob::Report(_) => None,
        },
    }
}

/// The words of a command line: what follows its first character, split at
/// white space.
pub open spec fn command_words(message: Seq<char>) -> Seq<Seq<char>> {
    whitespace_words(message.skip(1))
}

/// The message said aloud on the map.
pub open spec fn chat(message: String) -> TalkOutcome {
    TalkOutcome::Do(Effect::ToMap(MapRequest::SendChatMessage { message }))
}

/// What a message said aloud comes to. A message that starts with `$`, from a
/// character above the player level, with words after the `$`, is an admin
/// command line; one that starts with `#` with words after it is a player
/// command line, said aloud when no such command is found. Both need the
/// speaker online, and a line on which the command handler would abort comes
/// to nothing. Any other message is said aloud.
pub open spec fn talk_report_outcome(
    r: TalkOutcome,
    message: String,
    ch: Option<CharacterInfo>,
    player_online: bool,
    admin_commands: Seq<AdminCommand>,
    player_commands: PlayerCommands,
    items: Seq<Seq<char>>,
    npcs: Seq<Seq<char>>,
    auto_pickup_enabled: bool,
) -> bool {
    let m = message@;
    let words = command_words(m);
    match ch {
        None => r == TalkOutcome::Nothing,
        Some(c) => if m.len() > 0 && m[0] == '$' && c.admin_level != 0 && words.len() > 0 {
            if !player_online || admin_command_aborts(words, c, admin_commands, items, npcs) {
                r == TalkOutcome::Nothing
            } else {
                exists|w: Seq<String>| #[trigger] views(w) == words
                    && (r matches TalkOutcome::Admin(a) && admin_command_outcome(a, w, c, admin_commands, items, npcs))
            }
        } else if m.len() > 0 && m[0] == '#' && words.len() > 0 {
            if !player_online || player_command_aborts(words, player_commands.commands@, auto_pickup_enabled) {
                r == TalkOutcome::Nothing
            } else {
                exists|w: Seq<String>, p: (PlayerCommandResult, Option<Effect>)| views(w) == words
                    && #[trigger] player_command_outcome(p, w, player_commands.commands@, items, auto_pickup_enabled)
                    && r == if p.0 == PlayerCommandResult::NotFound {
                        chat(message)
                    } else {
                        match p.1 {
                            Some(e) => TalkOutcome::Do(e),
                            None => TalkOutcome::Nothing,
                        }
                    }
            }
        } else {
            r == chat(message)
        },
    }
}

/// Decides a message to the staff, an announcement, a global message or a
/// guild message (see [`talk_broadcast`]).
pub fn talk_broadcast_decision(job: TalkJob, ch: &Option<CharacterInfo>) -> (r: Option<Effect>)
    ensures
        r == talk_broadcast(job, *ch),
{
    let c = match ch {
        Some(c) => c,
        None => return None,
    };
    match job {
        TalkJob::Admin(message) => if c.admin_level >= GUARDIAN {
            Some(Effect::ToWorld(WorldRequest::BroadcastAdminMessage { name: c.name.clone(), message }))
        } else {
            None
        },
        TalkJob::Announce(message) => if c.admin_level >= GUARDIAN {
            Some(Effect::ToWorld(WorldRequest::BroadcastAnnouncement { name: c.name.clone(), message }))
        } else {
            None
        },
        TalkJob::Global(message) => Some(Effect::ToWorld(WorldRequest::BroadcastGlobalMessage { name: c.name.clone(), message })),
        TalkJob::Guild(message) => match &c.guild_tag {
            Some(guild_tag) => Some(Effect::ToWorld(WorldRequest::BroadcastGuildMessage {
                guild_tag: guild_tag.clone(),
                name: c.name.clone(),
                message,
            })),
            None => None,
        },
        TalkJob::Report(_) => None,
    }
}

/// The words after the first character of `message`.
fn words_after_first(message: &String) -> (r: Vec<String>)
    requires
        message@.len() > 0,
    ensures
        views(r@) == command_words(message@),
{
    let s = message.as_str();
    let rest = s.substring_char(1, s.unicode_len());
    assert(rest@ =~= message@.skip(1));
    split_words(rest)
}

/// Decides a message said aloud (see [`talk_report_outcome`]). `ch` is the
/// speaker's character and `player_online` whether the speaker is still
/// online; `items` and `npcs` are the item and npc names by id starting at 1.
pub fn talk_report_decision(
    message: String,
    ch: &Option<CharacterInfo>,
    player_online: bool,
    admin_commands: &Vec<AdminCommand>,
    player_commands: &PlayerCommands,
    items: &Vec<String>,
    npcs: &Vec<String>,
    auto_pickup_enabled: bool,
) -> (r: TalkOutcome)
    requires
        items@.len() < i32::MAX,
        npcs@.len() < i32::MAX,
        forall|k: int| 0 <= k < admin_commands@.len() ==> #[trigger] admin_commands@[k].args@.len() < usize::MAX,
        forall|k: int| 0 <= k < player_commands.commands@.len() ==> #[trigger] player_commands.commands@[k].args@.len() < usize::MAX,
    ensures
        talk_report_outcome(r, message, *ch, player_online, admin_commands@, *player_commands, views(items@), views(npcs@), auto_pickup_enabled),
{
    let c = match ch {
        Some(c) => c,
        None => return TalkOutcome::Nothing,
    };
    let n = message.as_str().unicode_len();
    if n > 0 && message.as_str().get_char(0) == '$' && c.admin_level != 0 {
        let words = words_after_first(&message);
        if words.len() > 0 {
            if !player_online {
                return TalkOutcome::Nothing;
            }
            if command_aborts(&words, c, admin_commands, items, npcs) {
                return TalkOutcome::Nothing;
            }
            let a = handle_command(&words, c, admin_commands, items, npcs);
            assert(views(words@) == command_words(message@));
            return TalkOutcome::Admin(a);
        }
    }
    if n > 0 && message.as_str().get_char(0) == '#' {
        let words = words_after_first(&message);
        if words.len() > 0 {
            if !player_online {
                return TalkOutcome::Nothing;
            }
            if player_command_line_aborts(&words, player_commands, auto_pickup_enabled) {
                return TalkOutcome::Nothing;
            }
            let p = handle_player_command(&words, player_commands, items, auto_pickup_enabled);
            assert(views(words@) == command_words(message@));
            return if p.0 == PlayerCommandResult::NotFound {
                TalkOutcome::Do(Effect::ToMap(MapRequest::SendChatMessage { message }))
            } else {
                match p.1 {
                    Some(e) => TalkOutcome::Do(e),
                    None => TalkOutcome::Nothing,
                }
            };
        }
    }
    TalkOutcome::Do(Effect::ToMap(MapRequest::SendChatMessage { message }))
}

impl Player {
    /// Handles a packet of the talk family. Tell and Open are decided at
    /// once; Admin, Announce, Msg, Report and Request start a job (see
    /// [`TalkJob`]) when the speaker stands on a map.
    pub fn handle_talk(&mut self, action: PacketAction, data: &[u8]) -> (r: (Option<Effect>, Option<TalkJob>))
        ensures
            *final(self) == *old(self),
            r == match action {
                PacketAction::Tell => (talk_tell_effect(*old(self), talk_tell_decoded(data@)), None),
                PacketAction::Open => (talk_open_effect(*old(self), talk_open_decoded(data@)), None),
                PacketAction::Admin => (None, talk_job(*old(self), match talk_admin_decoded(data@) {
                    Some(p) => Some(TalkJob::Admin(p.message)),
                    None => None,
                })),
                PacketAction::Announce => (None, talk_job(*old(self), match talk_announce_decoded(data@) {
                    Some(p) => Some(TalkJob::Announce(p.message)),
                    None => None,
                })),
                PacketAction::Msg => (None, talk_job(*old(self), match talk_msg_decoded(data@) {
                    Some(p) => Some(TalkJob::Global(p.message)),
                    None => None,
                })),
                PacketAction::Report => (None, talk_job(*old(self), match talk_report_decoded(data@) {
                    Some(p) => Some(TalkJob::Report(p.message)),
                    None => None,
                })),
                PacketAction::Request => (None, talk_job(*old(self), match talk_request_decoded(data@) {
                    Some(p) => Some(TalkJob::Guild(p.message)),
                    None => None,
                })),
                _ => (None::<Effect>, None::<TalkJob>),
            },
    {
        match action {
            PacketAction::Tell => (self.talk_tell(decode_talk_tell(data)), None),
            PacketAction::Open => (self.talk_open(decode_talk_open(data)), None),
            _ => {
                let job = match action {
                    PacketAction::Admin => match decode_talk_admin(data) {
                        Some(p) => Some(TalkJob::Admin(p.message)),
                        None => None,
                    },
                    PacketAction::Announce => match decode_talk_announce(data) {
                        Some(p) => Some(TalkJob::Announce(p.message)),
                        None => None,
                    },
                    PacketAction::Msg => match decode_talk_msg(data) {
                        Some(p) => Some(TalkJob::Global(p.message)),
                        None => None,
                    },
                    PacketAction::Report => match decode_talk_report(data) {
                        Some(p) => Some(TalkJob::Report(p.message)),
                        None => None,
                    },
                    PacketAction::Request => match decode_talk_request(data) {
                        Some(p) => Some(TalkJob::Guild(p.message)),
                        None => None,
                    },
                    _ => None,
                };
                if self.map.is_none() {
                    (None, None)
                } else {
                    (None, job)
                }
            },
        }
    }
}

} // verus!
