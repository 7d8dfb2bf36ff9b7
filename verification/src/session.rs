use vstd::prelude::*;

use crate::effects::{CloseReason, Effect, MapRequest, Reply, SpellTarget};
use crate::packets::{
    AttackUsePacket, ConnectionAcceptPacket, SpellRequestPacket, SpellTargetGroupPacket,
    SpellTargetOtherPacket, SpellTargetSelfPacket, SpellTargetType, WalkPlayerPacket,
};
use crate::player::{Captcha, Player};
use crate::rng::{ping_sequence_bytes, random_sequence_start, random_upper_case_letter};
use crate::state::ClientState;

verus! {

/// The fields of the captcha reply packet.
#[derive(Debug, Clone, PartialEq, Eq)]
pub struct CaptchaReplyPacket {
    pub captcha: String,
}

/// How far a client timestamp lies after the one before it.
pub open spec fn timestamp_diff(timestamp: i32, before: i32) -> int {
    timestamp - before
}

/// A spell cast `diff` after its chant started fits a spell whose cast time is
/// `cast_time`: it took at least `(cast_time - 1) * 47 + 35` and less than
/// `max(cast_time, 1) * 50`.
pub open spec fn cast_in_time(diff: int, cast_time: i32) -> bool {
    &&& diff >= (cast_time - 1) * 47 + 35
    &&& diff < (if cast_time > 1 {
        cast_time as int
    } else {
        1
    }) * 50
}

/// The cast time of spell `spell_id`, entry `spell_id - 1` of `cast_times`.
pub open spec fn cast_time_of(cast_times: Seq<i32>, spell_id: i32) -> Option<i32> {
    if 1 <= spell_id && spell_id - 1 < cast_times.len() {
        Some(cast_times[spell_id - 1])
    } else {
        None
    }
}

/// A captcha challenge as the server draws them: five letters from A to Z.
pub open spec fn is_challenge(s: Seq<char>) -> bool {
    s.len() == 5 && forall|i: int| 0 <= i < 5 ==> 'A' <= #[trigger] s[i] <= 'Z'
}

/// Draws a captcha challenge.
fn new_challenge() -> (r: String)
    ensures
        is_challenge(r@),
{
    let mut out = String::new();
    let mut i: usize = 0;
    while i < 5
        invariant
            i <= 5,
            out@.len() == i,
            forall|j: int| 0 <= j < i ==> 'A' <= #[trigger] out@[j] <= 'Z',
        decreases 5 - i,
    {
        let letter = random_upper_case_letter();
        let ghost before = out@;
        out.append(letter.as_str());
        assert(out@ == before + letter@);
        assert(out@[i as int] == letter@[0]);
        i = i + 1;
    }
    out
}

/// The effect of a spell request: a positive spell id starts a chant.
pub open spec fn spell_request_effect(player: Player, packet: Option<SpellRequestPacket>) -> Option<
    Effect,
> {
    if player.map is Some && packet is Some && packet->0.spell_id > 0 {
        Some(Effect::ToMap(MapRequest::StartSpellChant { spell_id: packet->0.spell_id }))
    } else {
        None
    }
}

/// Whether a spell target packet for `spell_id` at `timestamp` is accepted:
/// it is the spell being chanted and it comes in time.
pub open spec fn cast_accepted(player: Player, spell_id: i32, timestamp: i32, cast_times: Seq<
    i32,
>) -> bool {
    &&& player.spell_id == Some(spell_id)
    &&& cast_time_of(cast_times, spell_id) matches Some(ct)
    &&& cast_in_time(timestamp_diff(timestamp, player.timestamp), ct)
}

/// The player after an accepted cast: the chant is over and the timestamp
/// moves on.
pub open spec fn after_cast(player: Player, timestamp: i32) -> Player {
    Player { timestamp, spell_id: None, ..player }
}

/// The target of a spell aimed at another player or an npc.
pub open spec fn other_target(packet: SpellTargetOtherPacket) -> Option<SpellTarget> {
    match packet.target_type {
        SpellTargetType::Player => Some(SpellTarget::OtherPlayer(packet.victim_id)),
        SpellTargetType::Npc => Some(SpellTarget::Npc(packet.victim_id)),
        SpellTargetType::Unrecognized(_) => None,
    }
}

/// The result of the captcha reply `answer` for a player with a captcha.
pub open spec fn captcha_answered(player: Player, answer: Seq<char>) -> (Player, Option<Effect>) {
    let c = player.captcha->0;
    if c.attempts + 1 > 5 {
        (player, None)
    } else if answer != c.challenge@ {
        (Player { captcha: Some(Captcha { attempts: (c.attempts + 1) as i32, ..c }), ..player }, None)
    } else {
        (
            Player { captcha: None, ..player },
            Some(Effect::ToMap(MapRequest::CloseCaptcha { reward: c.reward })),
        )
    }
}

/// The player and the effect after a spell request (see
/// [`spell_request_effect`]): an accepted request remembers the spell and the
/// timestamp.
pub open spec fn spell_request_outcome(player: Player, packet: Option<SpellRequestPacket>) -> (Player, Option<Effect>) {
    match spell_request_effect(player, packet) {
        Some(e) => (Player { timestamp: packet->0.timestamp, spell_id: Some(packet->0.spell_id), ..player }, Some(e)),
        None => (player, None),
    }
}

/// The player and the effect after a spell aimed at `target`, for a spell
/// target packet of `spell_id` at `timestamp`: a cast that is not accepted
/// changes nothing; an accepted one ends the chant, and reaches the map when
/// the player is on one and the target is known.
pub open spec fn spell_cast_outcome(player: Player, spell_id: i32, timestamp: i32, target: Option<SpellTarget>, cast_times: Seq<i32>) -> (Player, Option<Effect>) {
    if cast_accepted(player, spell_id, timestamp, cast_times) {
        (
            after_cast(player, timestamp),
            if player.map is Some && target is Some {
                Some(Effect::ToMap(MapRequest::CastSpell { spell_id, target: target->0 }))
            } else {
                None
            },
        )
    } else {
        (player, None)
    }
}

/// The outcome of a spell aimed at the caster.
pub open spec fn spell_target_self_outcome(player: Player, packet: Option<SpellTargetSelfPacket>, cast_times: Seq<i32>) -> (Player, Option<Effect>) {
    match packet {
        Some(p) => spell_cast_outcome(player, p.spell_id, p.timestamp, Some(SpellTarget::Player), cast_times),
        None => (player, None),
    }
}

/// The outcome of a spell aimed at another player or an npc.
pub open spec fn spell_target_other_outcome(player: Player, packet: Option<SpellTargetOtherPacket>, cast_times: Seq<i32>) -> (Player, Option<Effect>) {
    match packet {
        Some(p) => spell_cast_outcome(player, p.spell_id, p.timestamp, other_target(p), cast_times),
        None => (player, None),
    }
}

/// The outcome of a spell aimed at the caster's party.
pub open spec fn spell_target_group_outcome(player: Player, packet: Option<SpellTargetGroupPacket>, cast_times: Seq<i32>) -> (Player, Option<Effect>) {
    match packet {
        Some(p) => spell_cast_outcome(player, p.spell_id, p.timestamp, Some(SpellTarget::Group), cast_times),
        None => (player, None),
    }
}

/// The outcome of a walk packet: a step is taken unless a captcha is pending,
/// the player is on no map, or the step comes less than 36 after the last
/// timed action.
pub open spec fn walk_outcome(player: Player, packet: Option<WalkPlayerPacket>) -> (Player, Option<Effect>) {
    match packet {
        Some(p) if player.captcha is None && player.map is Some
            && timestamp_diff(p.timestamp, player.timestamp) >= 36 => (
            Player { timestamp: p.timestamp, ..player },
            Some(Effect::ToMap(MapRequest::Walk { direction: p.direction, coords: p.coords })),
        ),
        _ => (player, None),
    }
}

/// The outcome of an attack packet: the attack is made unless the player is
/// on no map or it comes less than 48 after the last timed action.
pub open spec fn attack_outcome(player: Player, packet: Option<AttackUsePacket>) -> (Player, Option<Effect>) {
    match packet {
        Some(p) if player.map is Some && timestamp_diff(p.timestamp, player.timestamp) >= 48 => (
            Player { timestamp: p.timestamp, ..player },
            Some(Effect::ToMap(MapRequest::Attack { direction: p.direction })),
        ),
        _ => (player, None),
    }
}

/// The player and the effect after the connection accept packet: the
/// connection is accepted when the client confirms its player id and the
/// encoding multiples it was given, and closed otherwise.
pub open spec fn connection_accept_outcome(player: Player, packet: Option<ConnectionAcceptPacket>) -> (Player, Option<Effect>) {
    match packet {
        None => (player, Some(Effect::Close(CloseReason::UndecodableConnectionAccept))),
        Some(p) => if p.player_id != player.id {
            (player, Some(Effect::Close(CloseReason::WrongConnectionId { got: p.player_id, expected: player.id })))
        } else if player.client_encryption_multiple != p.client_encryption_multiple
            || player.server_encryption_multiple != p.server_encryption_multiple {
            (player, Some(Effect::Close(CloseReason::WrongEncodingMultiples {
                got_server: p.server_encryption_multiple,
                got_client: p.client_encryption_multiple,
                expected_server: player.server_encryption_multiple,
                expected_client: player.client_encryption_multiple,
            })))
        } else {
            (Player { state: ClientState::Accepted, ..player }, None)
        },
    }
}

/// A ping from `before` to `after` with result `r`: nothing happens before
/// the handshake; a client that has not answered the last ping is
/// disconnected; otherwise a new sequence start in `[0, 243]` is drawn and
/// sent in two numbers, and an answer is awaited.
pub open spec fn pinged(before: Player, after: Player, r: Option<Effect>) -> bool {
    if before.state == ClientState::Uninitialized {
        after == before && r is None
    } else if before.need_pong {
        after == before && r == Some(Effect::Close(CloseReason::PingTimeout))
    } else {
        &&& 0 <= after.sequence_start <= 243
        &&& after == (Player { need_pong: true, sequence_start: after.sequence_start, ..before })
        &&& r matches Some(Effect::Reply(Reply::ConnectionPlayer { seq1, seq2 }))
        &&& after.sequence_start <= seq1 <= after.sequence_start + 252
        &&& seq2 == seq1 - after.sequence_start
    }
}

impl Player {
    /// Starts chanting a spell (see [`spell_request_effect`]); an accepted
    /// request also remembers the spell and the timestamp.
    pub fn spell_request(&mut self, packet: Option<SpellRequestPacket>) -> (r: Option<Effect>)
        ensures
            (*final(self), r) == spell_request_outcome(*old(self), packet),
    {
        if self.map.is_none() {
            return None;
        }
        match packet {
            Some(p) => {
                if p.spell_id <= 0 {
                    return None;
                }
                self.timestamp = p.timestamp;
                self.spell_id = Some(p.spell_id);
                Some(Effect::ToMap(MapRequest::StartSpellChant { spell_id: p.spell_id }))
            },
            None => None,
        }
    }

    /// Whether the cast of `spell_id` at `timestamp` comes in time (see
    /// [`cast_in_time`]); a spell missing from `cast_times` never does.
    pub fn check_timestamp(&self, spell_id: i32, timestamp: i32, cast_times: &Vec<i32>) -> (r: bool)
        ensures
            r == match cast_time_of(cast_times@, spell_id) {
                Some(ct) => cast_in_time(timestamp_diff(timestamp, self.timestamp), ct),
                None => false,
            },
    {
        if spell_id < 1 || (spell_id - 1) as usize >= cast_times.len() {
            return false;
        }
        let cast_time = cast_times[(spell_id - 1) as usize] as i64;
        let diff = timestamp as i64 - self.timestamp as i64;
        let most = if cast_time > 1 {
            cast_time
        } else {
            1
        };
        diff >= (cast_time - 1) * 47 + 35 && diff < most * 50
    }

    /// Accepts a spell target packet for `spell_id` at `timestamp`, ending the
    /// chant (see [`cast_accepted`]).
    fn accept_cast(&mut self, spell_id: i32, timestamp: i32, cast_times: &Vec<i32>) -> (r: bool)
        ensures
            r == cast_accepted(*old(self), spell_id, timestamp, cast_times@),
            r ==> *final(self) == after_cast(*old(self), timestamp),
            !r ==> *final(self) == *old(self),
    {
        if self.spell_id != Some(spell_id) {
            return false;
        }
        if !self.check_timestamp(spell_id, timestamp, cast_times) {
            return false;
        }
        self.timestamp = timestamp;
        self.spell_id = None;
        true
    }

    /// Casts the chanted spell on the caster.
    pub fn spell_target_self(&mut self, packet: Option<SpellTargetSelfPacket>, cast_times: &Vec<i32>) -> (r: Option<Effect>)
        ensures
            (*final(self), r) == spell_target_self_outcome(*old(self), packet, cast_times@),
    {
        match packet {
            Some(p) => {
                if !self.accept_cast(p.spell_id, p.timestamp, cast_times) {
                    return None;
                }
                if self.map.is_none() {
                    return None;
                }
                Some(Effect::ToMap(MapRequest::CastSpell { spell_id: p.spell_id, target: SpellTarget::Player }))
            },
            None => None,
        }
    }

    /// Casts the chanted spell on another player or an npc.
    pub fn spell_target_other(&mut self, packet: Option<SpellTargetOtherPacket>, cast_times: &Vec<i32>) -> (r: Option<Effect>)
        ensures
            (*final(self), r) == spell_target_other_outcome(*old(self), packet, cast_times@),
    {
        match packet {
            Some(p) => {
                if !self.accept_cast(p.spell_id, p.timestamp, cast_times) {
                    return None;
                }
                if self.map.is_none() {
                    return None;
                }
                match p.target_type {
                    SpellTargetType::Player => Some(Effect::ToMap(MapRequest::CastSpell { spell_id: p.spell_id, target: SpellTarget::OtherPlayer(p.victim_id) })),
                    SpellTargetType::Npc => Some(Effect::ToMap(MapRequest::CastSpell { spell_id: p.spell_id, target: SpellTarget::Npc(p.victim_id) })),
                    SpellTargetType::Unrecognized(_) => None,
                }
            },
            None => None,
        }
    }

    /// Casts the chanted spell on the caster's party.
    pub fn spell_target_group(&mut self, packet: Option<SpellTargetGroupPacket>, cast_times: &Vec<i32>) -> (r: Option<Effect>)
        ensures
            (*final(self), r) == spell_target_group_outcome(*old(self), packet, cast_times@),
    {
        match packet {
            Some(p) => {
                if !self.accept_cast(p.spell_id, p.timestamp, cast_times) {
                    return None;
                }
                if self.map.is_none() {
                    return None;
                }
                Some(Effect::ToMap(MapRequest::CastSpell { spell_id: p.spell_id, target: SpellTarget::Group }))
            },
            None => None,
        }
    }

    /// Walks one step, unless a captcha is pending or the step comes less than
    /// 36 after the last timed action.
    pub fn handle_walk_packet(&mut self, packet: Option<WalkPlayerPacket>) -> (r: Option<Effect>)
        ensures
            (*final(self), r) == walk_outcome(*old(self), packet),
    {
        if self.captcha.is_some() || self.map.is_none() {
            return None;
        }
        match packet {
            Some(p) => {
                if (p.timestamp as i64) - (self.timestamp as i64) < 36 {
                    return None;
                }
                self.timestamp = p.timestamp;
                Some(Effect::ToMap(MapRequest::Walk { direction: p.direction, coords: p.coords }))
            },
            None => None,
        }
    }

    /// Attacks, unless the attack comes less than 48 after the last timed
    /// action.
    pub fn attack_use(&mut self, packet: Option<AttackUsePacket>) -> (r: Option<Effect>)
        ensures
            (*final(self), r) == attack_outcome(*old(self), packet),
    {
        if self.map.is_none() {
            return None;
        }
        match packet {
            Some(p) => {
                if (p.timestamp as i64) - (self.timestamp as i64) < 48 {
                    return None;
                }
                self.timestamp = p.timestamp;
                Some(Effect::ToMap(MapRequest::Attack { direction: p.direction }))
            },
            None => None,
        }
    }

    /// Shows a captcha worth `experience` to a client that speaks the deep
    /// protocol: draws a challenge, remembers it with no attempts made, tells
    /// the map, and opens the dialog.
    pub fn show_captcha(&mut self, experience: i32) -> (r: Vec<Effect>)
        ensures
            !old(self).deep ==> *final(self) == *old(self) && r@.len() == 0,
            old(self).deep ==> {
                &&& final(self).captcha matches Some(c)
                &&& is_challenge(c.challenge@)
                &&& c.reward == experience
                &&& c.attempts == 0
                &&& *final(self) == (Player { captcha: final(self).captcha, ..*old(self) })
                &&& r@ == if old(self).map is Some {
                    seq![
                        Effect::ToMap(MapRequest::OpenCaptcha),
                        Effect::Reply(Reply::CaptchaOpen { reward_exp: experience, captcha: c.challenge }),
                    ]
                } else {
                    seq![Effect::Reply(Reply::CaptchaOpen { reward_exp: experience, captcha: c.challenge })]
                }
            },
    {
        let mut effects: Vec<Effect> = Vec::new();
        if !self.deep {
            return effects;
        }
        let challenge = new_challenge();
        self.captcha = Some(Captcha { challenge: challenge.clone(), reward: experience, attempts: 0 });
        if self.map.is_some() {
            effects.push(Effect::ToMap(MapRequest::OpenCaptcha));
        }
        effects.push(Effect::Reply(Reply::CaptchaOpen { reward_exp: experience, captcha: challenge }));
        effects
    }

    /// Draws a new challenge for the pending captcha and shows it, with the
    /// attempts counted anew.
    pub fn update_captcha(&mut self) -> (r: Option<Effect>)
        ensures
            old(self).captcha is None ==> *final(self) == *old(self) && r is None,
            old(self).captcha matches Some(c0) ==> {
                &&& final(self).captcha matches Some(c)
                &&& is_challenge(c.challenge@)
                &&& c.reward == c0.reward
                &&& c.attempts == 0
                &&& *final(self) == (Player { captcha: final(self).captcha, ..*old(self) })
                &&& r == Some(Effect::Reply(Reply::CaptchaAgree { captcha: c.challenge }))
            },
    {
        match &self.captcha {
            None => None,
            Some(c) => {
                let reward = c.reward;
                let challenge = new_challenge();
                self.captcha = Some(Captcha { challenge: challenge.clone(), reward, attempts: 0 });
                Some(Effect::Reply(Reply::CaptchaAgree { captcha: challenge }))
            },
        }
    }

    /// Checks an answer to the pending captcha (see [`captcha_answered`]).
    pub fn captcha_reply(&mut self, packet: Option<CaptchaReplyPacket>) -> (r: Option<Effect>)
        ensures
            match packet {
                Some(p) if old(self).map is Some && old(self).captcha is Some => {
                    (*final(self), r) == captcha_answered(*old(self), p.captcha@)
                },
                _ => *final(self) == *old(self) && r is None,
            },
    {
        if self.map.is_none() {
            return None;
        }
        match packet {
            Some(p) => {
                let (attempts, reward, matches) = match &self.captcha {
                    Some(c) => (c.attempts as i64 + 1, c.reward, p.captcha == c.challenge),
                    None => return None,
                };
                if attempts > 5 {
                    return None;
                }
                if !matches {
                    match &mut self.captcha {
                        Some(c) => {
                            c.attempts = c.attempts + 1;
                        },
                        None => {},
                    }
                    return None;
                }
                self.captcha = None;
                Some(Effect::ToMap(MapRequest::CloseCaptcha { reward }))
            },
            None => None,
        }
    }

    /// Asks for a new captcha challenge: `decoded` tells whether the request
    /// packet decoded.
    pub fn captcha_request(&mut self, decoded: bool) -> (r: Option<Effect>)
        ensures
            !decoded || old(self).captcha is None ==> *final(self) == *old(self) && r is None,
            decoded && old(self).captcha is Some ==> {
                &&& final(self).captcha matches Some(c)
                &&& is_challenge(c.challenge@)
                &&& c.reward == old(self).captcha->0.reward
                &&& c.attempts == 0
                &&& *final(self) == (Player { captcha: final(self).captcha, ..*old(self) })
                &&& r == Some(Effect::Reply(Reply::CaptchaAgree { captcha: c.challenge }))
            },
    {
        if !decoded {
            return None;
        }
        if self.captcha.is_none() {
            return None;
        }
        self.update_captcha()
    }

    /// Accepts the connection once the client confirms its player id and the
    /// encoding multiples it was given; otherwise closes it.
    pub fn connection_accept(&mut self, packet: Option<ConnectionAcceptPacket>) -> (r: Option<Effect>)
        ensures
            (*final(self), r) == connection_accept_outcome(*old(self), packet),
    {
        match packet {
            None => Some(Effect::Close(CloseReason::UndecodableConnectionAccept)),
            Some(p) => {
                if p.player_id != self.id {
                    return Some(Effect::Close(CloseReason::WrongConnectionId { got: p.player_id, expected: self.id }));
                }
                if self.client_encryption_multiple != p.client_encryption_multiple
                    || self.server_encryption_multiple != p.server_encryption_multiple {
                    return Some(Effect::Close(CloseReason::WrongEncodingMultiples {
                        got_server: p.server_encryption_multiple,
                        got_client: p.client_encryption_multiple,
                        expected_server: self.server_encryption_multiple,
                        expected_client: self.client_encryption_multiple,
                    }));
                }
                self.state = ClientState::Accepted;
                None
            },
        }
    }

    /// Pings the client: a client that has not answered the last ping is
    /// disconnected; otherwise a new sequence start is drawn and sent.
    /// Nothing happens before the handshake.
    pub fn ping(&mut self) -> (r: Option<Effect>)
        ensures
            pinged(*old(self), *final(self), r),
    {
        if self.state == ClientState::Uninitialized {
            return None;
        }
        if self.need_pong {
            return Some(Effect::Close(CloseReason::PingTimeout));
        }
        let start = random_sequence_start();
        self.sequence_start = start;
        let (seq1, seq2) = ping_sequence_bytes(start);
        self.need_pong = true;
        Some(Effect::Reply(Reply::ConnectionPlayer { seq1, seq2 }))
    }

    /// One server tick: counts toward the next ping and pings every
    /// `ping_rate` ticks; closes a connection that has not started the
    /// handshake `hangup_delay` seconds after it was made. Returns whether the
    /// connection stays open, with what was done.
    pub fn tick(&mut self, ping_rate: i32, hangup_delay: i32, seconds_connected: i64) -> (r: (bool, Option<Effect>))
        requires
            old(self).ping_ticks < i32::MAX,
        ensures
            ({
                let counted = Player { ping_ticks: (old(self).ping_ticks + 1) as i32, ..*old(self) };
                if counted.ping_ticks >= ping_rate && counted.state != ClientState::Uninitialized && counted.need_pong {
                    *final(self) == counted && r == (false, Some(Effect::Close(CloseReason::PingTimeout)))
                } else if counted.ping_ticks >= ping_rate && counted.state != ClientState::Uninitialized {
                    &&& 0 <= final(self).sequence_start <= 243
                    &&& *final(self) == (Player { ping_ticks: 0, need_pong: true, sequence_start: final(self).sequence_start, ..counted })
                    &&& r.0
                    &&& r.1 matches Some(Effect::Reply(Reply::ConnectionPlayer { seq1, seq2 }))
                    &&& final(self).sequence_start <= seq1 <= final(self).sequence_start + 252
                    &&& seq2 == seq1 - final(self).sequence_start
                } else {
                    let after = if counted.ping_ticks >= ping_rate {
                        Player { ping_ticks: 0, ..counted }
                    } else {
                        counted
                    };
                    &&& *final(self) == after
                    &&& r == if counted.state == ClientState::Uninitialized && seconds_connected > hangup_delay {
                        (false, Some(Effect::Close(CloseReason::HandshakeTimeout(hangup_delay))))
                    } else {
                        (true, None::<Effect>)
                    }
                }
            }),
    {
        self.ping_ticks = self.ping_ticks + 1;
        if self.ping_ticks >= ping_rate {
            let pinged = self.ping();
            match pinged {
                Some(Effect::Close(reason)) => {
                    return (false, Some(Effect::Close(reason)));
                },
                _ => {},
            }
            self.ping_ticks = 0;
            if pinged.is_some() {
                return (true, pinged);
            }
        }
        if self.state == ClientState::Uninitialized && seconds_connected > hangup_delay as i64 {
            return (false, Some(Effect::Close(CloseReason::HandshakeTimeout(hangup_delay))));
        }
        (true, None)
    }

    /// Sends the contents of a chest to a player who has that chest open; an
    /// empty chest is sent as the single byte 255.
    pub fn update_chest_content(&self, chest_index: usize, buf: Vec<u8>) -> (r: Option<Effect>)
        ensures
            self.chest_index == Some(chest_index) ==> (r matches Some(Effect::Reply(Reply::ChestAgree { data }))
                && data@ == if buf@.len() == 0 { seq![255u8] } else { buf@ }),
            self.chest_index != Some(chest_index) ==> r is None,
    {
        let data = if buf.len() == 0 {
            vec![255u8]
        } else {
            buf
        };
        if self.chest_index == Some(chest_index) {
            Some(Effect::Reply(Reply::ChestAgree { data }))
        } else {
            None
        }
    }

    /// A server message to this player.
    pub fn send_server_message(&self, message: &str) -> (r: Effect)
        ensures
            r matches Effect::Reply(Reply::TalkServer { message: m }) && m@ == message@,
    {
        Effect::Reply(Reply::TalkServer { message: message.to_owned() })
    }
}

} // verus!
