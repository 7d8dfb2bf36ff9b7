use vstd::prelude::*;

use crate::effects::{AccountReply, CloseReason, Effect, Reply};
use crate::login::{PasswordChange, RecoveryMail};
use crate::packets::{
    account_agree_decoded, account_create_decoded, account_request_decoded, decode_account_agree,
    decode_account_create, decode_account_request, AccountAgreePacket, AccountCreatePacket, AccountRequestPacket,
    PacketAction,
};
use crate::player::{fresh_session, Player};
use crate::settings::Settings;
use crate::state::ClientState;

verus! {

/// A new account to store.
#[derive(Debug, Clone, PartialEq, Eq)]
pub struct NewAccount {
    pub username: String,
    pub password: String,
    pub full_name: String,
    pub location: String,
    pub email: String,
    pub computer: String,
    pub hdid: String,
    /// The address the account was registered from.
    pub register_ip: String,
}

/// The account answer as an effect.
pub open spec fn account_reply(code: AccountReply) -> Effect {
    Effect::Reply(Reply::Account(code))
}

/// A request to change a logged in account's password, while its account is
/// checked.
#[derive(Debug, Clone, PartialEq, Eq)]
pub struct PasswordCheck {
    pub username: String,
    pub old_password: String,
    pub new_password: String,
}

/// The player, the effects and the account whose name is to be checked after
/// an account creation request. A client that was mailed a pin must send it
/// back. Only accepted connections create accounts, in the pending session,
/// which is used up; a missing or other session closes the connection.
pub open spec fn account_create_outcome(
    player: Player,
    packet: Option<AccountCreatePacket>,
) -> (Player, Seq<Effect>, Option<NewAccount>) {
    match packet {
        None => (player, seq![], None),
        Some(p) => if player.email_pin is Some && p.pin@ != player.email_pin->0@ {
            (player, seq![account_reply(AccountReply::WrongPin)], None)
        } else if player.state != ClientState::Accepted {
            (player, seq![], None)
        } else {
            let used = Player { session_id: None, ..player };
            match player.session_id {
                None => (used, seq![Effect::Close(CloseReason::MissingSessionId)], None),
                Some(s) => if s != p.session_id {
                    (used, seq![Effect::Close(CloseReason::WrongSessionId { expected: s, got: p.session_id })], None)
                } else {
                    (used, seq![], Some(NewAccount {
                        username: p.username,
                        password: p.password,
                        full_name: p.full_name,
                        location: p.location,
                        email: p.email,
                        computer: p.computer,
                        hdid: p.hdid,
                        register_ip: player.ip,
                    }))
                },
            }
        },
    }
}

/// The answer to a request for a free name: the account settings for
/// clients that speak the deep protocol, then the session to create the
/// account in, with the sequence start.
pub open spec fn name_free_answer(player: Player, session_id: i32, settings: Settings) -> Seq<Effect> {
    let answer = account_reply(AccountReply::Continue { session_id, sequence_start: player.sequence_start });
    if player.deep {
        seq![Effect::Reply(Reply::AccountConfig {
            delay_time: settings.account_delay_time,
            email_validation: settings.email_validation,
        }), answer]
    } else {
        seq![answer]
    }
}

/// Decides a new account once its name was looked up (`taken`): a taken
/// name is refused and a failed lookup closes the connection; otherwise the
/// account is stored.
pub fn account_name_checked(account: NewAccount, taken: Result<bool, String>) -> (r: (Vec<Effect>, Option<NewAccount>))
    ensures
        (r.0@, r.1) == match taken {
            Err(e) => (seq![Effect::Close(CloseReason::Failed(e))], None),
            Ok(true) => (seq![account_reply(AccountReply::Exists)], None),
            Ok(false) => (Seq::<Effect>::empty(), Some(account)),
        },
{
    let mut out: Vec<Effect> = Vec::new();
    match taken {
        Err(e) => {
            out.push(Effect::Close(CloseReason::Failed(e)));
            (out, None)
        },
        Ok(true) => {
            out.push(Effect::Reply(Reply::Account(AccountReply::Exists)));
            (out, None)
        },
        Ok(false) => (out, Some(account)),
    }
}

/// Decides a password change once it is known whether the account exists:
/// (`found`) a failed lookup closes the connection, a missing account is answered as
/// "exists" (the code the client shows for it); otherwise the account is
/// read.
pub fn password_account_exists(check: PasswordCheck, found: Result<bool, String>) -> (r: (Vec<Effect>, Option<PasswordCheck>))
    ensures
        (r.0@, r.1) == match found {
            Err(e) => (seq![Effect::Close(CloseReason::Failed(e))], None),
            Ok(false) => (seq![account_reply(AccountReply::Exists)], None),
            Ok(true) => (Seq::<Effect>::empty(), Some(check)),
        },
{
    let mut out: Vec<Effect> = Vec::new();
    match found {
        Err(e) => {
            out.push(Effect::Close(CloseReason::Failed(e)));
            (out, None)
        },
        Ok(false) => {
            out.push(Effect::Reply(Reply::Account(AccountReply::Exists)));
            (out, None)
        },
        Ok(true) => (out, Some(check)),
    }
}

/// Decides a password change once the account is read (`account`: its id and
/// name, with whether the old password matches its hash): a failed read or a
/// wrong old password fails the change; otherwise the new password is stored.
pub fn password_account_read(check: PasswordCheck, account: Result<Option<(i32, String, bool)>, String>) -> (r: (Vec<Effect>, Option<PasswordChange>))
    requires
        account != Ok::<Option<(i32, String, bool)>, String>(None),
    ensures
        (r.0@, r.1) == match account {
            Err(_) => (seq![account_reply(AccountReply::ChangeFailed)], None),
            Ok(None) => (Seq::<Effect>::empty(), None),
            Ok(Some((account_id, name, old_ok))) => if !old_ok {
                (seq![account_reply(AccountReply::ChangeFailed)], None)
            } else {
                (Seq::<Effect>::empty(), Some(PasswordChange { account_id, account_name: name, password: check.new_password }))
            },
        },
{
    let mut out: Vec<Effect> = Vec::new();
    match account {
        Err(_) => {
            out.push(Effect::Reply(Reply::Account(AccountReply::ChangeFailed)));
            (out, None)
        },
        Ok(None) => (out, None),
        Ok(Some((account_id, name, old_ok))) => if !old_ok {
            out.push(Effect::Reply(Reply::Account(AccountReply::ChangeFailed)));
            (out, None)
        } else {
            (out, Some(PasswordChange { account_id, account_name: name, password: check.new_password }))
        },
    }
}

impl Player {
    /// Handles an account creation request (see [`account_create_outcome`]).
    pub fn account_create(&mut self, packet: Option<AccountCreatePacket>) -> (r: (Vec<Effect>, Option<NewAccount>))
        ensures
            (*final(self), r.0@, r.1) == account_create_outcome(*old(self), packet),
    {
        let mut out: Vec<Effect> = Vec::new();
        let p = match packet {
            Some(p) => p,
            None => return (out, None),
        };
        match &self.email_pin {
            Some(pin) => if p.pin != *pin {
                out.push(Effect::Reply(Reply::Account(AccountReply::WrongPin)));
                return (out, None);
            },
            None => {},
        }
        if self.state != ClientState::Accepted {
            return (out, None);
        }
        let session_id = match self.take_session_id() {
            Ok(session_id) => session_id,
            Err(_) => {
                out.push(Effect::Close(CloseReason::MissingSessionId));
                return (out, None);
            },
        };
        if session_id != p.session_id {
            out.push(Effect::Close(CloseReason::WrongSessionId { expected: session_id, got: p.session_id }));
            return (out, None);
        }
        (out, Some(NewAccount {
            username: p.username,
            password: p.password,
            full_name: p.full_name,
            location: p.location,
            email: p.email,
            computer: p.computer,
            hdid: p.hdid,
            register_ip: self.ip.clone(),
        }))
    }

    /// Handles a request for a free account name: only accepted connections
    /// ask; the name to look up is returned.
    pub fn account_request(&self, packet: Option<AccountRequestPacket>) -> (r: Option<String>)
        ensures
            r == match packet {
                Some(p) if self.state == ClientState::Accepted => Some(p.username),
                _ => None,
            },
    {
        match packet {
            Some(p) => if self.state == ClientState::Accepted {
                Some(p.username)
            } else {
                None
            },
            None => None,
        }
    }

    /// Answers a request for a free account name once it was looked up
    /// (`taken`): a taken name is refused and a failed lookup closes the
    /// connection; a free one starts a new session for the creation (see
    /// [`name_free_answer`]).
    pub fn account_name_looked_up(&mut self, taken: Result<bool, String>, settings: &Settings) -> (r: Vec<Effect>)
        ensures
            match taken {
                Err(e) => *final(self) == *old(self) && r@ == seq![Effect::Close(CloseReason::Failed(e))],
                Ok(true) => *final(self) == *old(self) && r@ == seq![account_reply(AccountReply::Exists)],
                Ok(false) => fresh_session(*old(self), *final(self))
                    && r@ == name_free_answer(*old(self), final(self).session_id->0, *settings),
            },
    {
        let mut out: Vec<Effect> = Vec::new();
        match taken {
            Err(e) => {
                out.push(Effect::Close(CloseReason::Failed(e)));
                out
            },
            Ok(true) => {
                out.push(Effect::Reply(Reply::Account(AccountReply::Exists)));
                out
            },
            Ok(false) => {
                if self.deep {
                    out.push(Effect::Reply(Reply::AccountConfig {
                        delay_time: settings.account_delay_time,
                        email_validation: settings.email_validation,
                    }));
                }
                let session_id = self.generate_session_id();
                out.push(Effect::Reply(Reply::Account(AccountReply::Continue { session_id, sequence_start: self.sequence_start })));
                out
            },
        }
    }

    /// Handles a request to change the password: only logged in players
    /// change it; whether the account exists is looked up first.
    pub fn account_agree(&self, packet: Option<AccountAgreePacket>) -> (r: Option<PasswordCheck>)
        ensures
            r == match packet {
                Some(p) if self.state == ClientState::LoggedIn => Some(PasswordCheck {
                    username: p.username,
                    old_password: p.old_password,
                    new_password: p.new_password,
                }),
                _ => None,
            },
    {
        match packet {
            Some(p) => if self.state == ClientState::LoggedIn {
                Some(PasswordCheck { username: p.username, old_password: p.old_password, new_password: p.new_password })
            } else {
                None
            },
            None => None,
        }
    }

    /// Starts validating an address (`decoded`: the address and the account
    /// name): the address is mailed `pin`, which the player must send back.
    pub fn account_accept(&mut self, decoded: Option<(String, String)>, pin: String) -> (r: Option<RecoveryMail>)
        ensures
            match decoded {
                Some((email, account_name)) => *final(self) == (Player { email_pin: Some(pin), ..*old(self) })
                    && r == Some(RecoveryMail { email, account_name, pin }),
                None => *final(self) == *old(self) && r is None,
            },
    {
        match decoded {
            Some((email, account_name)) => {
                self.email_pin = Some(pin.clone());
                Some(RecoveryMail { email, account_name, pin })
            },
            None => None,
        }
    }
}

/// Answers the storing of a new account: a failure closes the connection.
pub fn account_stored(stored: Result<(), String>) -> (r: Effect)
    ensures
        r == match stored {
            Ok(()) => account_reply(AccountReply::Created),
            Err(e) => Effect::Close(CloseReason::Failed(e)),
        },
{
    match stored {
        Ok(()) => Effect::Reply(Reply::Account(AccountReply::Created)),
        Err(e) => Effect::Close(CloseReason::Failed(e)),
    }
}

/// Answers the storing of a changed password: a failure closes the
/// connection.
pub fn password_stored(stored: Result<(), String>) -> (r: Effect)
    ensures
        r == match stored {
            Ok(()) => account_reply(AccountReply::Changed),
            Err(e) => Effect::Close(CloseReason::Failed(e)),
        },
{
    match stored {
        Ok(()) => Effect::Reply(Reply::Account(AccountReply::Changed)),
        Err(e) => Effect::Close(CloseReason::Failed(e)),
    }
}

/// Answers the sending of an address validation mail: a failure closes the
/// connection.
pub fn validation_mail_sent(sent: Result<(), String>) -> (r: Effect)
    ensures
        r == match sent {
            Ok(()) => Effect::Reply(Reply::AccountValidated),
            Err(e) => Effect::Close(CloseReason::Failed(e)),
        },
{
    match sent {
        Ok(()) => Effect::Reply(Reply::AccountValidated),
        Err(e) => Effect::Close(CloseReason::Failed(e)),
    }
}

/// What an account packet asks for, with its packet; the caller gathers
/// what the request needs and hands it to the handler of that request.
#[derive(Debug, Clone, PartialEq, Eq)]
pub enum AccountJob {
    /// An address to validate (the packet, of the deep protocol, is read by
    /// the caller).
    Accept,
    Create(Option<AccountCreatePacket>),
    Request(Option<AccountRequestPacket>),
    Agree(Option<AccountAgreePacket>),
}

/// Handles a packet of the account family: Accept, Create, Request, Agree.
pub fn handle_account(action: PacketAction, data: &[u8]) -> (r: Option<AccountJob>)
    ensures
        r == match action {
            PacketAction::Accept => Some(AccountJob::Accept),
            PacketAction::Create => Some(AccountJob::Create(account_create_decoded(data@))),
            PacketAction::Request => Some(AccountJob::Request(account_request_decoded(data@))),
            PacketAction::Agree => Some(AccountJob::Agree(account_agree_decoded(data@))),
            _ => None,
        },
{
    match action {
        PacketAction::Accept => Some(AccountJob::Accept),
        PacketAction::Create => Some(AccountJob::Create(decode_account_create(data))),
        PacketAction::Request => Some(AccountJob::Request(decode_account_request(data))),
        PacketAction::Agree => Some(AccountJob::Agree(decode_account_agree(data))),
        _ => None,
    }
}

} // verus!
