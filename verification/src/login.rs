use vstd::prelude::*;

use crate::effects::{CloseReason, Effect, LoginReply, Reply, WorldRequest};
use crate::packets::{decode_login_request, login_request_decoded, read_string, string_read, LoginRequestPacket, PacketAction};
use crate::player::Player;
use crate::settings::Settings;
use crate::state::ClientState;

verus! {

/// The next thing a login asks of the world or the database.
#[derive(Debug, Clone, PartialEq, Eq)]
pub enum LoginCheck {
    /// The number of players online.
    CountPlayers { remember: bool },
    /// Whether the account exists.
    AccountExists { remember: bool },
    /// Whether the account is banned.
    AccountBanned { remember: bool },
    /// The account's id, with whether the password matches its hash.
    ReadAccount { remember: bool },
    /// Whether the account is logged in already.
    LoggedIn { remember: bool, account_id: i32, password_ok: bool },
    /// The account a remembered session token belongs to.
    LookUpToken,
    /// Whether the account of a remembered session is logged in already.
    TokenLoggedIn { account_id: i32 },
}

/// What the world or the database answered; a failed query carries its
/// error text.
#[derive(Debug, PartialEq, Eq)]
pub enum LoginAnswer {
    PlayerCount(i32),
    /// Whether the account exists, or is banned.
    Flag(Result<bool, String>),
    /// The account's id with whether the password matches, when found.
    Account(Result<Option<(i32, bool)>, String>),
    LoggedIn(bool),
    /// The account a session token belongs to, when any.
    Session(Result<Option<i32>, String>),
}

/// What finishing a login does next: make a session token, store the
/// address the login came from, or read the account's character list.
#[derive(Debug, Clone, PartialEq, Eq)]
pub enum FinishLogin {
    MakeToken { account_id: i32 },
    StoreAddress { account_id: i32, token: Option<String> },
    ListCharacters { account_id: i32, token: Option<String> },
}

/// How the last step of finishing a login went: done (with the token it
/// made, for the first step), or failed with an error text.
#[derive(Debug, Clone, PartialEq, Eq)]
pub enum StepResult {
    Done(Option<String>),
    Failed(String),
}

/// The login answer as an effect.
pub open spec fn login_reply(code: LoginReply) -> Effect {
    Effect::Reply(Reply::Login(code))
}

/// Whether the login asks to be remembered: a byte 1 follows the packet.
pub open spec fn remember_me(p: LoginRequestPacket) -> bool {
    p.remaining > 0 && p.next_char == 1
}

/// A refused login: too many attempts close the connection; otherwise the
/// client is told why.
pub open spec fn refused(attempts: i32, settings: Settings, code: LoginReply) -> Seq<Effect> {
    if attempts >= settings.max_login_attempts {
        seq![Effect::Close(CloseReason::TooManyLoginAttempts)]
    } else {
        seq![login_reply(code)]
    }
}

/// The first step of finishing a login.
pub open spec fn finish_start(account_id: i32, remember: bool) -> FinishLogin {
    if remember {
        FinishLogin::MakeToken { account_id }
    } else {
        FinishLogin::StoreAddress { account_id, token: None }
    }
}

/// The effects and the first check of a login request: a connection not yet
/// accepted is closed; otherwise the players online are counted.
pub open spec fn login_request_outcome(player: Player, packet: Option<LoginRequestPacket>) -> (Seq<Effect>, Option<LoginCheck>) {
    match packet {
        None => (seq![], None),
        Some(p) => if player.state != ClientState::Accepted {
            (seq![Effect::Close(CloseReason::LoggingInBeforeAccepted)], None)
        } else {
            (seq![], Some(LoginCheck::CountPlayers { remember: remember_me(p) }))
        },
    }
}

/// The player, the effects, the next check and the finishing of a login
/// after a check was answered. A full server and a banned account are
/// closed; an unknown account, a wrong password and an account logged in
/// already are refused (see [`refused`]); the attempt is counted once the
/// account check answers. The account is marked pending once it is known
/// whether it is logged in, and the mark is dropped when the login is
/// refused; otherwise the login finishes (see [`FinishLogin`]). A remembered
/// session finishes with a new token, unless its account is logged in
/// already; a token that belongs to no account is a wrong password. A failed
/// query closes the connection; an answer of another kind than the check
/// does nothing.
pub open spec fn login_check_outcome(player: Player, check: LoginCheck, answer: LoginAnswer, settings: Settings) -> (Player, Seq<Effect>, Option<LoginCheck>, Option<FinishLogin>) {
    match (check, answer) {
        (LoginCheck::CountPlayers { remember }, LoginAnswer::PlayerCount(n)) => if n >= settings.max_players {
            (player, seq![login_reply(LoginReply::Busy), Effect::Close(CloseReason::ServerBusy)], None, None)
        } else {
            (player, seq![], Some(LoginCheck::AccountExists { remember }), None)
        },
        (LoginCheck::AccountExists { remember }, LoginAnswer::Flag(exists)) => match exists {
            Err(e) => (player, seq![Effect::Close(CloseReason::Failed(e))], None, None),
            Ok(b) => {
                let counted = Player { login_attempts: (player.login_attempts + 1) as i32, ..player };
                if b {
                    (counted, seq![], Some(LoginCheck::AccountBanned { remember }), None)
                } else {
                    (counted, refused(counted.login_attempts, settings, LoginReply::WrongUser), None, None)
                }
            },
        },
        (LoginCheck::AccountBanned { remember }, LoginAnswer::Flag(banned)) => match banned {
            Err(e) => (player, seq![Effect::Close(CloseReason::Failed(e))], None, None),
            Ok(true) => (player, seq![login_reply(LoginReply::Banned), Effect::Close(CloseReason::AccountBanned)], None, None),
            Ok(false) => (player, seq![], Some(LoginCheck::ReadAccount { remember }), None),
        },
        (LoginCheck::ReadAccount { remember }, LoginAnswer::Account(account)) => match account {
            Err(e) => (player, seq![Effect::Close(CloseReason::Failed(e))], None, None),
            Ok(None) => (player, seq![], None, None),
            Ok(Some((account_id, password_ok))) =>
                (player, seq![], Some(LoginCheck::LoggedIn { remember, account_id, password_ok }), None),
        },
        (LoginCheck::LoggedIn { remember, account_id, password_ok }, LoginAnswer::LoggedIn(logged_in)) => {
            let pending = seq![Effect::ToWorld(WorldRequest::AddPendingLogin { account_id })];
            let dropped = pending.push(Effect::ToWorld(WorldRequest::RemovePendingLogin { account_id }));
            if !password_ok {
                (player, dropped + refused(player.login_attempts, settings, LoginReply::WrongUserPassword), None, None)
            } else if logged_in {
                (player, dropped + refused(player.login_attempts, settings, LoginReply::LoggedIn), None, None)
            } else {
                (player, pending, None, Some(finish_start(account_id, remember)))
            }
        },
        (LoginCheck::LookUpToken, LoginAnswer::Session(session)) => match session {
            Err(e) => (player, seq![Effect::Close(CloseReason::Failed(e))], None, None),
            Ok(None) => (player, seq![login_reply(LoginReply::WrongUserPassword)], None, None),
            Ok(Some(account_id)) => (player, seq![], Some(LoginCheck::TokenLoggedIn { account_id }), None),
        },
        (LoginCheck::TokenLoggedIn { account_id }, LoginAnswer::LoggedIn(logged_in)) => if logged_in {
            (player, seq![
                Effect::ToWorld(WorldRequest::RemovePendingLogin { account_id }),
                login_reply(LoginReply::LoggedIn),
            ], None, None)
        } else {
            (player, seq![], None, Some(FinishLogin::MakeToken { account_id }))
        },
        _ => (player, seq![], None, None),
    }
}

/// The player, the effects and what follows one step of finishing a login
/// (see [`FinishLogin`]). A failed step closes the connection (the pending
/// mark is dropped first, but for the character list). Once the characters
/// are read the player is logged in to the account; clients that speak the
/// deep protocol are told the character limits; and the login is accepted,
/// with the token when one was made.
pub open spec fn finish_login_outcome(player: Player, step: FinishLogin, result: StepResult, settings: Settings) -> (Player, Seq<Effect>, Option<FinishLogin>) {
    match step {
        FinishLogin::MakeToken { account_id } => match result {
            StepResult::Failed(e) => (player, seq![
                Effect::ToWorld(WorldRequest::RemovePendingLogin { account_id }),
                Effect::Close(CloseReason::Failed(e)),
            ], None),
            StepResult::Done(token) => (player, seq![], Some(FinishLogin::StoreAddress { account_id, token })),
        },
        FinishLogin::StoreAddress { account_id, token } => match result {
            StepResult::Failed(e) => (player, seq![
                Effect::ToWorld(WorldRequest::RemovePendingLogin { account_id }),
                Effect::Close(CloseReason::Failed(e)),
            ], None),
            StepResult::Done(_) => (player, seq![], Some(FinishLogin::ListCharacters { account_id, token })),
        },
        FinishLogin::ListCharacters { account_id, token } => match result {
            StepResult::Failed(e) => (player, seq![Effect::Close(CloseReason::Failed(e))], None),
            StepResult::Done(_) => {
                let after = Player { account_id, state: ClientState::LoggedIn, ..player };
                let logged = seq![Effect::ToWorld(WorldRequest::AddLoggedInAccount { account_id })];
                let config = if player.deep {
                    logged.push(Effect::Reply(Reply::LoginConfig {
                        max_skins: (settings.max_skin + 1) as i32,
                        max_hair_modals: settings.max_hair_style,
                        max_character_name: settings.max_name_length,
                    }))
                } else {
                    logged
                };
                (after, config.push(login_reply(LoginReply::Accepted { token })), None)
            },
        },
    }
}

/// The refusal of a login attempt (see [`refused`]).
fn refuse(attempts: i32, settings: &Settings, code: LoginReply, out: &mut Vec<Effect>)
    ensures
        final(out)@ == old(out)@ + refused(attempts, *settings, code),
{
    if attempts >= settings.max_login_attempts {
        out.push(Effect::Close(CloseReason::TooManyLoginAttempts));
    } else {
        out.push(Effect::Reply(Reply::Login(code)));
    }
}

impl Player {
    /// Handles a login request (see [`login_request_outcome`]).
    pub fn login_request(&self, packet: Option<LoginRequestPacket>) -> (r: (Vec<Effect>, Option<LoginCheck>))
        ensures
            (r.0@, r.1) == login_request_outcome(*self, packet),
    {
        let mut out: Vec<Effect> = Vec::new();
        let p = match packet {
            Some(p) => p,
            None => return (out, None),
        };
        if self.state != ClientState::Accepted {
            out.push(Effect::Close(CloseReason::LoggingInBeforeAccepted));
            return (out, None);
        }
        let remember = p.remaining > 0 && p.next_char == 1;
        (out, Some(LoginCheck::CountPlayers { remember }))
    }

    /// Takes the answer to a login check (see [`login_check_outcome`]).
    pub fn login_check(&mut self, check: LoginCheck, answer: LoginAnswer, settings: &Settings) -> (r: (Vec<Effect>, Option<LoginCheck>, Option<FinishLogin>))
        requires
            check is AccountExists ==> old(self).login_attempts < i32::MAX,
            check is ReadAccount ==> answer != LoginAnswer::Account(Ok(None)),
        ensures
            (*final(self), r.0@, r.1, r.2) == login_check_outcome(*old(self), check, answer, *settings),
    {
        let mut out: Vec<Effect> = Vec::new();
        match (check, answer) {
            (LoginCheck::CountPlayers { remember }, LoginAnswer::PlayerCount(n)) => if n >= settings.max_players {
                out.push(Effect::Reply(Reply::Login(LoginReply::Busy)));
                out.push(Effect::Close(CloseReason::ServerBusy));
                (out, None, None)
            } else {
                (out, Some(LoginCheck::AccountExists { remember }), None)
            },
            (LoginCheck::AccountExists { remember }, LoginAnswer::Flag(exists)) => match exists {
                Err(e) => {
                    out.push(Effect::Close(CloseReason::Failed(e)));
                    (out, None, None)
                },
                Ok(b) => {
                    self.login_attempts = self.login_attempts + 1;
                    if b {
                        (out, Some(LoginCheck::AccountBanned { remember }), None)
                    } else {
                        refuse(self.login_attempts, settings, LoginReply::WrongUser, &mut out);
                        (out, None, None)
                    }
                },
            },
            (LoginCheck::AccountBanned { remember }, LoginAnswer::Flag(banned)) => match banned {
                Err(e) => {
                    out.push(Effect::Close(CloseReason::Failed(e)));
                    (out, None, None)
                },
                Ok(true) => {
                    out.push(Effect::Reply(Reply::Login(LoginReply::Banned)));
                    out.push(Effect::Close(CloseReason::AccountBanned));
                    (out, None, None)
                },
                Ok(false) => (out, Some(LoginCheck::ReadAccount { remember }), None),
            },
            (LoginCheck::ReadAccount { remember }, LoginAnswer::Account(account)) => match account {
                Err(e) => {
                    out.push(Effect::Close(CloseReason::Failed(e)));
                    (out, None, None)
                },
                Ok(None) => (out, None, None),
                Ok(Some((account_id, password_ok))) => (out, Some(LoginCheck::LoggedIn { remember, account_id, password_ok }), None),
            },
            (LoginCheck::LoggedIn { remember, account_id, password_ok }, LoginAnswer::LoggedIn(logged_in)) => {
                out.push(Effect::ToWorld(WorldRequest::AddPendingLogin { account_id }));
                if !password_ok || logged_in {
                    out.push(Effect::ToWorld(WorldRequest::RemovePendingLogin { account_id }));
                    let code = if !password_ok {
                        LoginReply::WrongUserPassword
                    } else {
                        LoginReply::LoggedIn
                    };
                    refuse(self.login_attempts, settings, code, &mut out);
                    return (out, None, None);
                }
                let next = if remember {
                    FinishLogin::MakeToken { account_id }
                } else {
                    FinishLogin::StoreAddress { account_id, token: None }
                };
                (out, None, Some(next))
            },
            (LoginCheck::LookUpToken, LoginAnswer::Session(session)) => match session {
                Err(e) => {
                    out.push(Effect::Close(CloseReason::Failed(e)));
                    (out, None, None)
                },
                Ok(None) => {
                    out.push(Effect::Reply(Reply::Login(LoginReply::WrongUserPassword)));
                    (out, None, None)
                },
                Ok(Some(account_id)) => (out, Some(LoginCheck::TokenLoggedIn { account_id }), None),
            },
            (LoginCheck::TokenLoggedIn { account_id }, LoginAnswer::LoggedIn(logged_in)) => if logged_in {
                out.push(Effect::ToWorld(WorldRequest::RemovePendingLogin { account_id }));
                out.push(Effect::Reply(Reply::Login(LoginReply::LoggedIn)));
                (out, None, None)
            } else {
                (out, None, Some(FinishLogin::MakeToken { account_id }))
            },
            _ => (out, None, None),
        }
    }

    /// Takes one step of finishing a login (see [`finish_login_outcome`]).
    pub fn finish_login(&mut self, step: FinishLogin, result: StepResult, settings: &Settings) -> (r: (Vec<Effect>, Option<FinishLogin>))
        requires
            settings.max_skin < i32::MAX,
        ensures
            (*final(self), r.0@, r.1) == finish_login_outcome(*old(self), step, result, *settings),
    {
        let mut out: Vec<Effect> = Vec::new();
        match step {
            FinishLogin::MakeToken { account_id } => match result {
                StepResult::Failed(e) => {
                    out.push(Effect::ToWorld(WorldRequest::RemovePendingLogin { account_id }));
                    out.push(Effect::Close(CloseReason::Failed(e)));
                    (out, None)
                },
                StepResult::Done(token) => (out, Some(FinishLogin::StoreAddress { account_id, token })),
            },
            FinishLogin::StoreAddress { account_id, token } => match result {
                StepResult::Failed(e) => {
                    out.push(Effect::ToWorld(WorldRequest::RemovePendingLogin { account_id }));
                    out.push(Effect::Close(CloseReason::Failed(e)));
                    (out, None)
                },
                StepResult::Done(_) => (out, Some(FinishLogin::ListCharacters { account_id, token })),
            },
            FinishLogin::ListCharacters { account_id, token } => match result {
                StepResult::Failed(e) => {
                    out.push(Effect::Close(CloseReason::Failed(e)));
                    (out, None)
                },
                StepResult::Done(_) => {
                    self.account_id = account_id;
                    self.state = ClientState::LoggedIn;
                    out.push(Effect::ToWorld(WorldRequest::AddLoggedInAccount { account_id }));
                    if self.deep {
                        out.push(Effect::Reply(Reply::LoginConfig {
                            max_skins: settings.max_skin + 1,
                            max_hair_modals: settings.max_hair_style,
                            max_character_name: settings.max_name_length,
                        }));
                    }
                    out.push(Effect::Reply(Reply::Login(LoginReply::Accepted { token })));
                    (out, None)
                },
            },
        }
    }
}

/// Starts a login by a remembered session: a token that is not empty is
/// looked up.
pub fn login_use(token: &String) -> (r: Option<LoginCheck>)
    ensures
        r == if token@.len() == 0 {
            None
        } else {
            Some(LoginCheck::LookUpToken)
        },
{
    if token.as_str().unicode_len() == 0 {
        None
    } else {
        Some(LoginCheck::LookUpToken)
    }
}

/// What a login packet asks for; the caller gathers what the request needs
/// and hands it to the handler of that request. The recovery packets are of
/// the deep protocol and read by the caller.
#[derive(Debug, Clone, PartialEq, Eq)]
pub enum LoginJob {
    Request(Option<LoginRequestPacket>),
    /// Asks whether recovery is on.
    Take,
    /// Asks to recover an account.
    Create,
    /// Sends the recovery pin.
    Accept,
    /// Sends the new password.
    Agree,
    /// Logs in by a remembered session, with the token the packet holds.
    Use(String),
}

/// Handles a packet of the login family: Request, Take, Create, Accept,
/// Agree, Use.
pub fn handle_login(action: PacketAction, data: &[u8]) -> (r: Option<LoginJob>)
    ensures
        match action {
            PacketAction::Request => r == Some(LoginJob::Request(login_request_decoded(data@))),
            PacketAction::Take => r == Some(LoginJob::Take),
            PacketAction::Create => r == Some(LoginJob::Create),
            PacketAction::Accept => r == Some(LoginJob::Accept),
            PacketAction::Agree => r == Some(LoginJob::Agree),
            PacketAction::Use => r matches Some(LoginJob::Use(token)) && token@ == string_read(data@),
            _ => r is None,
        },
{
    match action {
        PacketAction::Request => Some(LoginJob::Request(decode_login_request(data))),
        PacketAction::Take => Some(LoginJob::Take),
        PacketAction::Create => Some(LoginJob::Create),
        PacketAction::Accept => Some(LoginJob::Accept),
        PacketAction::Agree => Some(LoginJob::Agree),
        PacketAction::Use => Some(LoginJob::Use(read_string(data))),
        _ => None,
    }
}

/// A recovery mail to send: the pin to the account's address.
#[derive(Debug, Clone, PartialEq, Eq)]
pub struct RecoveryMail {
    pub email: String,
    pub account_name: String,
    pub pin: String,
}

/// A new password to store for an account.
#[derive(Debug, Clone, PartialEq, Eq)]
pub struct PasswordChange {
    pub account_id: i32,
    pub account_name: String,
    pub password: String,
}

/// Answers whether account recovery is on, once the request decoded.
pub fn login_take(decoded: bool, settings: &Settings) -> (r: Option<Effect>)
    ensures
        r == if decoded {
            Some(Effect::Reply(Reply::RecoverTake { accepted: settings.account_recovery }))
        } else {
            None
        },
{
    if decoded {
        Some(Effect::Reply(Reply::RecoverTake { accepted: settings.account_recovery }))
    } else {
        None
    }
}

/// Answers the sending of a recovery mail: a failure closes the connection;
/// otherwise the request is accepted, showing the address (masked, when the
/// settings say so) when the settings say so.
pub fn recovery_mail_sent(mail: RecoveryMail, sent: Result<(), String>, settings: &Settings) -> (r: Effect)
    ensures
        r == match sent {
            Err(e) => Effect::Close(CloseReason::Failed(e)),
            Ok(()) => Effect::Reply(Reply::RecoverCreate {
                found: true,
                email: if settings.recovery_show_email { Some(mail.email) } else { None },
                masked: settings.recovery_show_email && settings.recovery_mask_email,
            }),
        },
{
    match sent {
        Err(e) => Effect::Close(CloseReason::Failed(e)),
        Ok(()) => Effect::Reply(Reply::RecoverCreate {
            found: true,
            email: if settings.recovery_show_email { Some(mail.email) } else { None },
            masked: settings.recovery_show_email && settings.recovery_mask_email,
        }),
    }
}

/// Answers a pin sent to recover an account, when a pin was mailed.
pub fn recovery_pin_checked(player: &Player, pin: Option<String>) -> (r: Option<Effect>)
    ensures
        r == match (pin, player.email_pin) {
            (Some(p), Some(e)) => Some(Effect::Reply(Reply::RecoverPin { ok: p@ == e@ })),
            _ => None,
        },
{
    match (pin, &player.email_pin) {
        (Some(p), Some(e)) => Some(Effect::Reply(Reply::RecoverPin { ok: p == *e })),
        _ => None,
    }
}

/// The new password to store for the account being recovered, or the answer
/// when there is none: the packet (`decoded`: the account name and the
/// password) must decode and an account must be under recovery.
pub fn recovery_password(player: &Player, decoded: Option<(String, String)>) -> (r: Result<PasswordChange, Effect>)
    ensures
        r == match decoded {
            Some((account_name, password)) if player.account_id != 0 =>
                Ok::<PasswordChange, Effect>(PasswordChange { account_id: player.account_id, account_name, password }),
            _ => Err::<PasswordChange, Effect>(Effect::Reply(Reply::RecoverUpdate { ok: false })),
        },
{
    match decoded {
        Some((account_name, password)) => if player.account_id != 0 {
            Ok(PasswordChange { account_id: player.account_id, account_name, password })
        } else {
            Err(Effect::Reply(Reply::RecoverUpdate { ok: false }))
        },
        None => Err(Effect::Reply(Reply::RecoverUpdate { ok: false })),
    }
}

/// Answers the storing of a recovered account's new password.
pub fn recovery_password_stored(stored: Result<(), String>) -> (r: Effect)
    ensures
        r == Effect::Reply(Reply::RecoverUpdate { ok: stored is Ok }),
{
    Effect::Reply(Reply::RecoverUpdate { ok: stored.is_ok() })
}

impl Player {
    /// Starts recovering account `account_name`: `row` is the account's id
    /// and address, as read. An unknown account is answered at once; a row
    /// that lacks the id or the address stops the recovery (an id is still
    /// taken). With both, the account is under recovery with `pin`, which is
    /// mailed to its address.
    pub fn recover_account(
        &mut self,
        account_name: String,
        row: Result<Option<(Option<i32>, Option<String>)>, String>,
        pin: String,
    ) -> (r: (Option<Effect>, Option<RecoveryMail>))
        ensures
            match row {
                Ok(None) => *final(self) == *old(self)
                    && r == (Some(Effect::Reply(Reply::RecoverCreate { found: false, email: None, masked: false })), None::<RecoveryMail>),
                Ok(Some((Some(id), Some(email)))) => *final(self) == (Player { account_id: id, email_pin: Some(pin), ..*old(self) })
                    && r == (None::<Effect>, Some(RecoveryMail { email, account_name, pin })),
                Ok(Some((Some(id), None))) => *final(self) == (Player { account_id: id, ..*old(self) })
                    && r == (None::<Effect>, None::<RecoveryMail>),
                _ => *final(self) == *old(self) && r == (None::<Effect>, None::<RecoveryMail>),
            },
    {
        match row {
            Ok(None) => (Some(Effect::Reply(Reply::RecoverCreate { found: false, email: None, masked: false })), None),
            Ok(Some((Some(id), email))) => {
                self.account_id = id;
                match email {
                    Some(email) => {
                        self.email_pin = Some(pin.clone());
                        (None, Some(RecoveryMail { email, account_name, pin }))
                    },
                    None => (None, None),
                }
            },
            _ => (None, None),
        }
    }
}

} // verus!
