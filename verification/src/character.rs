use vstd::prelude::*;

use crate::effects::{CharacterReply, CloseReason, Effect, Reply};
use crate::packets::{
    character_create_decoded, character_remove_decoded, character_request_decoded, character_take_decoded,
    decode_character_create, decode_character_remove, decode_character_request, decode_character_take,
    CharacterCreatePacket, CharacterRemovePacket, CharacterRequestPacket, CharacterTakePacket, PacketAction,
};
use crate::player::{fresh_session, Player};
use crate::settings::Settings;
use crate::state::ClientState;
use crate::text::{is_text, lowercase, to_lowercase};

verus! {

/// A character to store for an account.
#[derive(Debug, Clone, PartialEq, Eq)]
pub struct NewCharacter {
    pub account_id: i32,
    pub name: String,
    pub gender: i32,
    pub hair_style: i32,
    pub hair_color: i32,
    pub skin: i32,
}

/// The next outside work of a character request, and what it is for.
#[derive(Debug, Clone, PartialEq, Eq)]
pub enum CharacterWork {
    /// Look up whether the new character's name is taken.
    CheckName(NewCharacter),
    /// Store a new character.
    Save(NewCharacter),
    /// Load a character that is to be deleted.
    LoadForDeletion { character_id: i32 },
    /// Delete a character.
    Delete { character_id: i32 },
    /// Read the account's character list, to send after a creation.
    ListCreated,
    /// Read the account's character list, to send after a deletion.
    ListDeleted,
    /// Count the account's characters.
    Count,
    /// Load a character that is to be played.
    LoadForPlay { character_id: i32 },
}

/// What the outside work of a character request gave.
#[derive(Debug, PartialEq, Eq)]
pub enum CharacterAnswer {
    /// Whether the name is taken.
    Taken(Result<bool, String>),
    /// Whether a write or a list read succeeded.
    Done(Result<(), String>),
    /// The loaded character.
    Loaded(Result<LoadedCharacter, String>),
    /// The number of the account's characters.
    Count(Result<i32, String>),
}

/// A character as loaded to be played or deleted: its name and the account
/// it belongs to.
#[derive(Debug, Clone, PartialEq, Eq)]
pub struct LoadedCharacter {
    pub name: String,
    pub account_id: i32,
}

/// The character answer as an effect.
pub open spec fn character_reply(code: CharacterReply) -> Effect {
    Effect::Reply(Reply::Character(code))
}

/// Whether a new character's hair is within the limits.
pub open spec fn hair_allowed(p: CharacterCreatePacket, settings: Settings) -> bool {
    0 <= p.hair_color <= settings.max_hair_color && 0 <= p.hair_style <= settings.max_hair_style
}

/// The effects and the next work of a character creation request. Only
/// logged in players create characters, with hair within the limits, in the
/// pending session (which stays pending); another session closes the
/// connection. A name the character name rules refuse (`name_valid`, on the
/// lower-cased name) is not approved; otherwise the name is looked up.
pub open spec fn character_create_outcome(
    player: Player,
    packet: Option<CharacterCreatePacket>,
    name_valid: bool,
    settings: Settings,
) -> (Seq<Effect>, Option<CharacterWork>) {
    match packet {
        Some(p) if player.state == ClientState::LoggedIn && hair_allowed(p, settings) && player.session_id is Some =>
            if player.session_id->0 != p.session_id {
                (seq![Effect::Close(CloseReason::WrongSessionId { expected: player.session_id->0, got: p.session_id })], None)
            } else if !name_valid {
                (seq![character_reply(CharacterReply::NotApproved)], None)
            } else {
                (seq![], Some(CharacterWork::CheckName(NewCharacter {
                    account_id: player.account_id,
                    name: p.name,
                    gender: p.gender,
                    hair_style: p.hair_style,
                    hair_color: p.hair_color,
                    skin: p.skin,
                })))
            },
        _ => (seq![], None),
    }
}

/// Whether a loaded character may be acted on: one that failed to load, or
/// that belongs to another account, closes the connection.
pub open spec fn ownership_failure(player: Player, loaded: Result<LoadedCharacter, String>) -> Option<Effect> {
    match loaded {
        Err(e) => Some(Effect::Close(CloseReason::Failed(e))),
        Ok(c) => if c.account_id != player.account_id {
            Some(Effect::Close(CloseReason::ForeignCharacter {
                account_id: player.account_id,
                character_name: c.name,
                owner_account_id: c.account_id,
            }))
        } else {
            None
        },
    }
}

/// Whether a step of character work starts a new session when its work
/// succeeds.
pub open spec fn starts_session(player: Player, work: CharacterWork, answer: CharacterAnswer, settings: Settings) -> bool {
    match (work, answer) {
        (CharacterWork::Count, CharacterAnswer::Count(Ok(n))) => n < settings.max_characters,
        (CharacterWork::LoadForPlay { .. }, CharacterAnswer::Loaded(loaded)) => ownership_failure(player, loaded) is None,
        _ => false,
    }
}

/// The effects and the next work after a step of character work, when a
/// session that starts is `session_id`. A taken name is refused (a failed
/// check closes the connection and counts as taken); a free one is stored.
/// A failed save or list read closes the connection, a failed delete ends
/// quietly; a read list is sent with the answer. A character that cannot be
/// acted on (see [`ownership_failure`]) closes the connection; otherwise it
/// is deleted, or a session starts to play it. An account with as many
/// characters as allowed is full; otherwise a session starts to create one.
/// An answer of another kind than the work asked for does nothing.
pub open spec fn character_step_outcome(
    player: Player,
    work: CharacterWork,
    answer: CharacterAnswer,
    settings: Settings,
    session_id: i32,
) -> (Seq<Effect>, Option<CharacterWork>) {
    match (work, answer) {
        (CharacterWork::CheckName(c), CharacterAnswer::Taken(taken)) => match taken {
            Err(e) => (seq![Effect::Close(CloseReason::Failed(e)), character_reply(CharacterReply::Exists)], None),
            Ok(true) => (seq![character_reply(CharacterReply::Exists)], None),
            Ok(false) => (seq![], Some(CharacterWork::Save(c))),
        },
        (CharacterWork::Save(_), CharacterAnswer::Done(Err(e))) => (seq![Effect::Close(CloseReason::Failed(e))], None),
        (CharacterWork::Save(_), CharacterAnswer::Done(Ok(()))) => (seq![], Some(CharacterWork::ListCreated)),
        (CharacterWork::LoadForDeletion { character_id }, CharacterAnswer::Loaded(loaded)) => match ownership_failure(player, loaded) {
            Some(e) => (seq![e], None),
            None => (seq![], Some(CharacterWork::Delete { character_id })),
        },
        (CharacterWork::Delete { .. }, CharacterAnswer::Done(Err(_))) => (seq![], None),
        (CharacterWork::Delete { .. }, CharacterAnswer::Done(Ok(()))) => (seq![], Some(CharacterWork::ListDeleted)),
        (CharacterWork::ListCreated, CharacterAnswer::Done(Err(e))) => (seq![Effect::Close(CloseReason::Failed(e))], None),
        (CharacterWork::ListCreated, CharacterAnswer::Done(Ok(()))) => (seq![character_reply(CharacterReply::Created)], None),
        (CharacterWork::ListDeleted, CharacterAnswer::Done(Err(e))) => (seq![Effect::Close(CloseReason::Failed(e))], None),
        (CharacterWork::ListDeleted, CharacterAnswer::Done(Ok(()))) => (seq![character_reply(CharacterReply::Deleted)], None),
        (CharacterWork::Count, CharacterAnswer::Count(count)) => match count {
            Err(e) => (seq![Effect::Close(CloseReason::Failed(e))], None),
            Ok(n) => if n >= settings.max_characters {
                (seq![character_reply(CharacterReply::Full)], None)
            } else {
                (seq![character_reply(CharacterReply::Continue { session_id })], None)
            },
        },
        (CharacterWork::LoadForPlay { character_id }, CharacterAnswer::Loaded(loaded)) => match ownership_failure(player, loaded) {
            Some(e) => (seq![e], None),
            None => (seq![character_reply(CharacterReply::Selected { session_id, character_id })], None),
        },
        _ => (seq![], None),
    }
}

/// Why a loaded character may not be acted on (see [`ownership_failure`]).
fn check_owner(player: &Player, loaded: Result<LoadedCharacter, String>) -> (r: Option<Effect>)
    ensures
        r == ownership_failure(*player, loaded),
{
    match loaded {
        Err(e) => Some(Effect::Close(CloseReason::Failed(e))),
        Ok(c) => if c.account_id != player.account_id {
            Some(Effect::Close(CloseReason::ForeignCharacter {
                account_id: player.account_id,
                character_name: c.name,
                owner_account_id: c.account_id,
            }))
        } else {
            None
        },
    }
}

impl Player {
    /// Handles a character creation request (see
    /// [`character_create_outcome`]).
    pub fn character_create(
        &self,
        packet: Option<CharacterCreatePacket>,
        name_valid: bool,
        settings: &Settings,
    ) -> (r: (Vec<Effect>, Option<CharacterWork>))
        ensures
            (r.0@, r.1) == character_create_outcome(*self, packet, name_valid, *settings),
    {
        let mut out: Vec<Effect> = Vec::new();
        let p = match packet {
            Some(p) => p,
            None => return (out, None),
        };
        if self.state != ClientState::LoggedIn {
            return (out, None);
        }
        if p.hair_color < 0 || p.hair_color > settings.max_hair_color || p.hair_style < 0
            || p.hair_style > settings.max_hair_style {
            return (out, None);
        }
        let session_id = match self.session_id {
            Some(session_id) => session_id,
            None => return (out, None),
        };
        if session_id != p.session_id {
            out.push(Effect::Close(CloseReason::WrongSessionId { expected: session_id, got: p.session_id }));
            return (out, None);
        }
        if !name_valid {
            out.push(Effect::Reply(Reply::Character(CharacterReply::NotApproved)));
            return (out, None);
        }
        (out, Some(CharacterWork::CheckName(NewCharacter {
            account_id: self.account_id,
            name: p.name,
            gender: p.gender,
            hair_style: p.hair_style,
            hair_color: p.hair_color,
            skin: p.skin,
        })))
    }

    /// Handles a character deletion request: only logged in players delete,
    /// in the pending session, which is used up; a missing or other session
    /// closes the connection. Otherwise the character is loaded.
    pub fn character_remove(&mut self, packet: Option<CharacterRemovePacket>) -> (r: (Vec<Effect>, Option<CharacterWork>))
        ensures
            match packet {
                Some(p) if old(self).state == ClientState::LoggedIn => {
                    &&& *final(self) == (Player { session_id: None, ..*old(self) })
                    &&& (r.0@, r.1) == match old(self).session_id {
                        None => (seq![Effect::Close(CloseReason::MissingSessionId)], None::<CharacterWork>),
                        Some(s) => if s != p.session_id {
                            (seq![Effect::Close(CloseReason::WrongSessionId { expected: s, got: p.session_id })], None)
                        } else {
                            (seq![], Some(CharacterWork::LoadForDeletion { character_id: p.character_id }))
                        },
                    }
                },
                _ => *final(self) == *old(self) && r.0@.len() == 0 && r.1 is None,
            },
    {
        let mut out: Vec<Effect> = Vec::new();
        let p = match packet {
            Some(p) => p,
            None => return (out, None),
        };
        if self.state != ClientState::LoggedIn {
            return (out, None);
        }
        let session_id = match self.take_session_id() {
            Ok(session_id) => session_id,
            Err(_) => {
                out.push(Effect::Close(CloseReason::MissingSessionId));
                return (out, None);
            },
        };
        if session_id != p.session_id {
            out.push(Effect::Close(CloseReason::WrongSessionId { expected: session_id, got: p.session_id }));
            return (out, None);
        }
        (out, Some(CharacterWork::LoadForDeletion { character_id: p.character_id }))
    }

    /// Handles a request to start a new character: only "NEW" from logged in
    /// players, which counts the account's characters.
    pub fn character_request(&self, packet: Option<CharacterRequestPacket>) -> (r: Option<CharacterWork>)
        ensures
            r == match packet {
                Some(p) if p.request_string@ == "NEW"@ && self.state == ClientState::LoggedIn => Some(CharacterWork::Count),
                _ => None,
            },
    {
        match packet {
            Some(p) => if is_text(&p.request_string, "NEW") && self.state == ClientState::LoggedIn {
                Some(CharacterWork::Count)
            } else {
                None
            },
            None => None,
        }
    }

    /// Handles the choice of a character to play: only logged in players
    /// choose, and the character is loaded.
    pub fn character_take(&self, packet: Option<CharacterTakePacket>) -> (r: Option<CharacterWork>)
        ensures
            r == match packet {
                Some(p) if self.state == ClientState::LoggedIn => Some(CharacterWork::LoadForPlay { character_id: p.character_id }),
                _ => None,
            },
    {
        match packet {
            Some(p) => if self.state == ClientState::LoggedIn {
                Some(CharacterWork::LoadForPlay { character_id: p.character_id })
            } else {
                None
            },
            None => None,
        }
    }

    /// Takes a step of character work (see [`character_step_outcome`]); a
    /// step that starts a session (see [`starts_session`]) starts a fresh one.
    pub fn character_step(&mut self, work: CharacterWork, answer: CharacterAnswer, settings: &Settings) -> (r: (Vec<Effect>, Option<CharacterWork>))
        ensures
            starts_session(*old(self), work, answer, *settings) ==> fresh_session(*old(self), *final(self)),
            !starts_session(*old(self), work, answer, *settings) ==> *final(self) == *old(self),
            (r.0@, r.1) == character_step_outcome(*old(self), work, answer, *settings, final(self).session_id->0),
    {
        let mut out: Vec<Effect> = Vec::new();
        match (work, answer) {
            (CharacterWork::CheckName(c), CharacterAnswer::Taken(taken)) => match taken {
                Err(e) => {
                    out.push(Effect::Close(CloseReason::Failed(e)));
                    out.push(Effect::Reply(Reply::Character(CharacterReply::Exists)));
                    (out, None)
                },
                Ok(true) => {
                    out.push(Effect::Reply(Reply::Character(CharacterReply::Exists)));
                    (out, None)
                },
                Ok(false) => (out, Some(CharacterWork::Save(c))),
            },
            (CharacterWork::Save(_), CharacterAnswer::Done(done)) => match done {
                Err(e) => {
                    out.push(Effect::Close(CloseReason::Failed(e)));
                    (out, None)
                },
                Ok(()) => (out, Some(CharacterWork::ListCreated)),
            },
            (CharacterWork::LoadForDeletion { character_id }, CharacterAnswer::Loaded(loaded)) => match check_owner(self, loaded) {
                Some(e) => {
                    out.push(e);
                    (out, None)
                },
                None => (out, Some(CharacterWork::Delete { character_id })),
            },
            (CharacterWork::Delete { .. }, CharacterAnswer::Done(done)) => match done {
                Err(_) => (out, None),
                Ok(()) => (out, Some(CharacterWork::ListDeleted)),
            },
            (CharacterWork::ListCreated, CharacterAnswer::Done(done)) => {
                match done {
                    Err(e) => out.push(Effect::Close(CloseReason::Failed(e))),
                    Ok(()) => out.push(Effect::Reply(Reply::Character(CharacterReply::Created))),
                }
                (out, None)
            },
            (CharacterWork::ListDeleted, CharacterAnswer::Done(done)) => {
                match done {
                    Err(e) => out.push(Effect::Close(CloseReason::Failed(e))),
                    Ok(()) => out.push(Effect::Reply(Reply::Character(CharacterReply::Deleted))),
                }
                (out, None)
            },
            (CharacterWork::Count, CharacterAnswer::Count(count)) => {
                match count {
                    Err(e) => out.push(Effect::Close(CloseReason::Failed(e))),
                    Ok(n) => if n >= settings.max_characters {
                        out.push(Effect::Reply(Reply::Character(CharacterReply::Full)));
                    } else {
                        let session_id = self.generate_session_id();
                        out.push(Effect::Reply(Reply::Character(CharacterReply::Continue { session_id })));
                    },
                }
                (out, None)
            },
            (CharacterWork::LoadForPlay { character_id }, CharacterAnswer::Loaded(loaded)) => {
                match check_owner(self, loaded) {
                    Some(e) => out.push(e),
                    None => {
                        let session_id = self.generate_session_id();
                        out.push(Effect::Reply(Reply::Character(CharacterReply::Selected { session_id, character_id })));
                    },
                }
                (out, None)
            },
            _ => (out, None),
        }
    }
}

/// The name a character creation request carries, in lower case, which the
/// character name rules judge and the name check looks up.
pub fn character_create_name(data: &[u8]) -> (r: Option<String>)
    ensures
        match character_create_decoded(data@) {
            Some(p) => r matches Some(n) && n@ == lowercase(p.name@),
            None => r is None,
        },
{
    match decode_character_create(data) {
        Some(p) => Some(to_lowercase(p.name.as_str())),
        None => None,
    }
}

/// What a character packet asks for, with its packet; the caller gathers
/// what the request needs and hands it to the handler of that request.
#[derive(Debug, Clone, PartialEq, Eq)]
pub enum CharacterJob {
    Create(Option<CharacterCreatePacket>),
    Remove(Option<CharacterRemovePacket>),
    Request(Option<CharacterRequestPacket>),
    Take(Option<CharacterTakePacket>),
}

/// Handles a packet of the character family: Create, Remove, Request, Take.
pub fn handle_character(action: PacketAction, data: &[u8]) -> (r: Option<CharacterJob>)
    ensures
        r == match action {
            PacketAction::Create => Some(CharacterJob::Create(character_create_decoded(data@))),
            PacketAction::Remove => Some(CharacterJob::Remove(character_remove_decoded(data@))),
            PacketAction::Request => Some(CharacterJob::Request(character_request_decoded(data@))),
            PacketAction::Take => Some(CharacterJob::Take(character_take_decoded(data@))),
            _ => None,
        },
{
    match action {
        PacketAction::Create => Some(CharacterJob::Create(decode_character_create(data))),
        PacketAction::Remove => Some(CharacterJob::Remove(decode_character_remove(data))),
        PacketAction::Request => Some(CharacterJob::Request(decode_character_request(data))),
        PacketAction::Take => Some(CharacterJob::Take(decode_character_take(data))),
        _ => None,
    }
}

} // verus!
