use vstd::prelude::*;

use crate::effects::{Coords, PartyRequest, WarpEffect};
use crate::rng::{random_session_id, SHORT_MAX};
use crate::state::ClientState;

verus! {

/// A pending anti-bot challenge: the player must type `challenge` back.
#[derive(Debug, Clone, PartialEq, Eq)]
pub struct Captcha {
    pub challenge: String,
    pub reward: i32,
    pub attempts: i32,
}

/// A warp the server has asked the client to accept.
#[derive(Debug, Clone, Copy, PartialEq, Eq, Structural)]
pub struct WarpSession {
    pub map_id: i32,
    pub coords: Coords,
    pub local: bool,
    pub animation: Option<WarpEffect>,
}

/// An action a player performed, recorded in the history table by its id.
#[derive(Debug, Clone, Copy, PartialEq, Eq, Structural)]
pub struct Action {
    pub id: i32,
}

/// A row of the history table.
#[derive(Debug, Clone, PartialEq, Eq)]
pub struct HistoryRecord {
    pub account_id: i32,
    pub character_id: i32,
    pub action_id: i32,
    pub ip: String,
    pub details: String,
}

/// Taking a session id when none is pending.
#[derive(Debug, Clone, Copy, PartialEq, Eq, Structural)]
pub struct MissingSessionIdError;

/// The per-connection state that the packet handlers decide on.
///
/// `map` is the id of the map the player's character stands on, when it is on
/// one; the handle to that map lives with the caller.
#[derive(Debug, Clone)]
pub struct Player {
    pub id: i32,
    pub ip: String,
    pub deep: bool,
    pub state: ClientState,
    pub account_id: i32,
    pub character_id: i32,
    pub map: Option<i32>,
    pub session_id: Option<i32>,
    pub interact_npc_index: Option<i32>,
    pub interact_player_id: Option<i32>,
    pub board_id: Option<i32>,
    pub chest_index: Option<usize>,
    pub sleep_cost: Option<i32>,
    pub party_request: PartyRequest,
    pub trading: bool,
    pub trade_accepted: bool,
    pub timestamp: i32,
    pub spell_id: Option<i32>,
    pub captcha: Option<Captcha>,
    pub guild_create_members: Vec<i32>,
    pub login_attempts: i32,
    pub email_pin: Option<String>,
    pub warp_session: Option<WarpSession>,
    pub ping_ticks: i32,
    pub need_pong: bool,
    pub sequence_start: i32,
    /// The encoding multiples agreed at the handshake.
    pub client_encryption_multiple: i32,
    pub server_encryption_multiple: i32,
    pub closed: bool,
}

/// `after` is `before` with a new session whose id is in `[10, SHORT_MAX)`.
pub open spec fn fresh_session(before: Player, after: Player) -> bool {
    &&& after.session_id is Some
    &&& 10 <= after.session_id->0 < SHORT_MAX
    &&& after == (Player { session_id: after.session_id, ..before })
}

/// The player and the result after the pending session id is taken: the id,
/// or an error when none is pending; no session is pending afterwards.
pub open spec fn session_taken(player: Player) -> (Player, Result<i32, MissingSessionIdError>) {
    (
        Player { session_id: None, ..player },
        match player.session_id {
            Some(id) => Ok(id),
            None => Err(MissingSessionIdError),
        },
    )
}

impl Player {
    /// The pending session has the given id.
    pub open spec fn session_is(self, session_id: i32) -> bool {
        self.session_id == Some(session_id)
    }

    /// A freshly connected player that has not started the handshake.
    pub fn new(id: i32, ip: String, deep: bool) -> (r: Player)
        ensures
            r.id == id,
            r.ip == ip,
            r.deep == deep,
            r.state == ClientState::Uninitialized,
            r.account_id == 0,
            r.character_id == 0,
            r.map is None,
            r.session_id is None,
            r.interact_npc_index is None,
            r.interact_player_id is None,
            r.board_id is None,
            r.chest_index is None,
            r.sleep_cost is None,
            r.party_request == PartyRequest::NoRequest,
            !r.trading,
            !r.trade_accepted,
            r.timestamp == 0,
            r.spell_id is None,
            r.captcha is None,
            r.guild_create_members@.len() == 0,
            r.login_attempts == 0,
            r.email_pin is None,
            r.warp_session is None,
            r.ping_ticks == 0,
            !r.need_pong,
            r.sequence_start == 0,
            r.client_encryption_multiple == 0,
            r.server_encryption_multiple == 0,
            !r.closed,
    {
        Player {
            id,
            ip,
            deep,
            state: ClientState::Uninitialized,
            account_id: 0,
            character_id: 0,
            map: None,
            session_id: None,
            interact_npc_index: None,
            interact_player_id: None,
            board_id: None,
            chest_index: None,
            sleep_cost: None,
            party_request: PartyRequest::NoRequest,
            trading: false,
            trade_accepted: false,
            timestamp: 0,
            spell_id: None,
            captcha: None,
            guild_create_members: Vec::new(),
            login_attempts: 0,
            email_pin: None,
            warp_session: None,
            ping_ticks: 0,
            need_pong: false,
            sequence_start: 0,
            client_encryption_multiple: 0,
            server_encryption_multiple: 0,
            closed: false,
        }
    }

    /// Hands out the pending session id and forgets it, so that it is used once.
    pub fn take_session_id(&mut self) -> (r: Result<i32, MissingSessionIdError>)
        ensures
            (*final(self), r) == session_taken(*old(self)),
    {
        if let Some(session_id) = self.session_id {
            self.session_id = None;
            Ok(session_id)
        } else {
            Err(MissingSessionIdError)
        }
    }

    /// Starts a new session with a random id in `[10, SHORT_MAX)` and returns it.
    pub fn generate_session_id(&mut self) -> (r: i32)
        ensures
            10 <= r < SHORT_MAX,
            *final(self) == (Player { session_id: Some(r), ..*old(self) }),
    {
        let session_id = random_session_id();
        self.session_id = Some(session_id);
        session_id
    }

    /// The history row for `action`, with no details.
    pub fn record_action(&self, action: Action) -> (r: HistoryRecord)
        ensures
            r.account_id == self.account_id,
            r.character_id == self.character_id,
            r.action_id == action.id,
            r.ip@ == self.ip@,
            r.details@ == Seq::<char>::empty(),
    {
        proof {
            reveal_strlit("");
        }
        self.record_action_with_details(action, "")
    }

    /// The history row for `action` with `details`: the account, character and
    /// address of this player, the action's id and the details.
    pub fn record_action_with_details(&self, action: Action, details: &str) -> (r: HistoryRecord)
        ensures
            r.account_id == self.account_id,
            r.character_id == self.character_id,
            r.action_id == action.id,
            r.ip@ == self.ip@,
            r.details@ == details@,
    {
        HistoryRecord {
            account_id: self.account_id,
            character_id: self.character_id,
            action_id: action.id,
            ip: self.ip.clone(),
            details: details.to_owned(),
        }
    }
}

} // verus!
