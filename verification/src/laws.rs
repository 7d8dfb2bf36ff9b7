use vstd::prelude::*;

use crate::effects::{CloseReason, Effect, MapRequest};
use crate::guild::{padded, rank_changes, wealth_class};
use crate::packets::{AttackUsePacket, WalkPlayerPacket};
use crate::player::{fresh_session, session_taken, Captcha, MissingSessionIdError, Player};
use crate::session::{after_cast, attack_outcome, captcha_answered, cast_accepted, pinged, walk_outcome};
use crate::state::ClientState;
use crate::text::{all_digits, decimal, digit_char, digit_value, digits_value, u32_of};
use crate::login::{login_check_outcome, LoginAnswer, LoginCheck};
use crate::settings::Settings;
use crate::account::account_create_outcome;
use crate::character::{character_create_outcome, character_step_outcome, CharacterAnswer, CharacterWork};
use crate::character_info::CharacterInfo;
use crate::effects::{SpellTarget, WorldRequest};
use crate::handle_player_command::{player_args_for, player_command_outcome, player_command_position, player_outcome_for, PlayerCommandResult};
use crate::lookup::resolved_id;
use crate::packets::{AccountCreatePacket, CharacterCreatePacket, SpellTargetOtherPacket, SpellTargetType};
use crate::player_commands::{validation, Command};
use crate::session::spell_target_other_outcome;
use crate::talk::{talk_broadcast, TalkJob};
use crate::text::{joined, views};

verus! {

/// A session id is handed out once: taking it a second time fails.
pub proof fn law_session_used_once(player: Player)
    ensures
        session_taken(session_taken(player).0).1 == Err::<i32, MissingSessionIdError>(MissingSessionIdError),
{
}

/// The id of a session that was just started is the one taken next.
pub proof fn law_new_session_taken(before: Player, after: Player)
    requires
        fresh_session(before, after),
    ensures
        session_taken(after).1 == Ok::<i32, MissingSessionIdError>(after.session_id->0),
        10 <= after.session_id->0,
{
}

/// The right answer to a captcha, within five attempts, closes it and pays
/// its reward.
pub proof fn law_captcha_right_answer(player: Player)
    requires
        player.captcha is Some,
        player.captcha->0.attempts < 5,
    ensures
        captcha_answered(player, player.captcha->0.challenge@).0.captcha is None,
        captcha_answered(player, player.captcha->0.challenge@).1
            == Some(Effect::ToMap(MapRequest::CloseCaptcha { reward: player.captcha->0.reward })),
{
}

/// A wrong answer to a captcha counts one more attempt and keeps it open;
/// after five attempts answers are no longer looked at.
pub proof fn law_captcha_wrong_answer(player: Player, answer: Seq<char>)
    requires
        player.captcha is Some,
        answer != player.captcha->0.challenge@,
        player.captcha->0.attempts < i32::MAX,
    ensures
        player.captcha->0.attempts < 5 ==> captcha_answered(player, answer).0.captcha == Some(Captcha {
            attempts: (player.captcha->0.attempts + 1) as i32,
            ..player.captcha->0
        }),
        player.captcha->0.attempts >= 5 ==> captcha_answered(player, answer).0 == player,
        captcha_answered(player, answer).1 is None,
{
}

/// Once a spell is cast its chant is over: the same cast is not accepted
/// again.
pub proof fn law_spell_cast_once(player: Player, spell_id: i32, timestamp: i32, later: i32, cast_times: Seq<i32>)
    requires
        cast_accepted(player, spell_id, timestamp, cast_times),
    ensures
        !cast_accepted(after_cast(player, timestamp), spell_id, later, cast_times),
{
}

/// An accepted step moves the player's timestamp on by at least 36.
pub proof fn law_walk_moves_time_on(player: Player, packet: Option<WalkPlayerPacket>)
    requires
        walk_outcome(player, packet).1 is Some,
    ensures
        walk_outcome(player, packet).0.timestamp >= player.timestamp + 36,
{
}

/// An accepted attack moves the player's timestamp on by at least 48.
pub proof fn law_attack_moves_time_on(player: Player, packet: Option<AttackUsePacket>)
    requires
        attack_outcome(player, packet).1 is Some,
    ensures
        attack_outcome(player, packet).0.timestamp >= player.timestamp + 48,
{
}

/// A client that does not answer a ping is disconnected at the next one.
pub proof fn law_unanswered_ping_closes(
    first: Player,
    second: Player,
    third: Player,
    r1: Option<Effect>,
    r2: Option<Effect>,
)
    requires
        first.state != ClientState::Uninitialized,
        pinged(first, second, r1),
        pinged(second, third, r2),
    ensures
        r2 == Some(Effect::Close(CloseReason::PingTimeout)),
        third == second,
{
}

/// The order of the guild classes by wealth.
pub open spec fn wealth_rank(class: Seq<char>) -> int {
    if class == "bankrupt"@ {
        0
    } else if class == "poor"@ {
        1
    } else if class == "normal"@ {
        2
    } else if class == "wealthy"@ {
        3
    } else {
        4
    }
}

/// A richer guild is never in a poorer class.
pub proof fn law_wealth_monotone(a: i32, b: i32)
    requires
        a <= b,
    ensures
        wealth_rank(wealth_class(a)) <= wealth_rank(wealth_class(b)),
{
    reveal_strlit("bankrupt");
    reveal_strlit("poor");
    reveal_strlit("normal");
    reveal_strlit("wealthy");
    reveal_strlit("very wealthy");
    assert("bankrupt"@.len() == 8);
    assert("poor"@.len() == 4);
    assert("normal"@.len() == 6);
    assert("wealthy"@.len() == 7);
    assert("very wealthy"@.len() == 12);
}

/// A padded rank name is at least four characters long and starts with the
/// name.
pub proof fn law_padded(s: Seq<char>)
    ensures
        padded(s).len() >= 4,
        padded(s).take(s.len() as int) == s,
        s.len() >= 4 ==> padded(s) == s,
{
    if s.len() < 4 {
        assert(padded(s).take(s.len() as int) =~= s);
    }
}

/// Only the ranks that changed are written: every change names an index
/// below the number of ranks whose rank differs from the stored one, with the
/// new name, and every such index has a change.
pub proof fn law_rank_changes(existing: Seq<Seq<char>>, ranks: Seq<Seq<char>>)
    requires
        existing.len() >= ranks.len(),
        ranks.len() <= usize::MAX,
    ensures
        forall|i: int| 0 <= i < rank_changes(existing, ranks).len() ==> {
            let c = #[trigger] rank_changes(existing, ranks)[i];
            &&& c.0 < ranks.len()
            &&& existing[c.0 as int] != ranks[c.0 as int]
            &&& c.1 == ranks[c.0 as int]
        },
        forall|k: int| 0 <= k < ranks.len() && existing[k] != ranks[k] ==> exists|i: int|
            0 <= i < rank_changes(existing, ranks).len() && (#[trigger] rank_changes(existing, ranks)[i]).0 == k,
    decreases ranks.len(),
{
    if ranks.len() > 0 {
        let n = ranks.len() - 1;
        let shorter = ranks.take(n);
        law_rank_changes(existing, shorter);
        let rest = rank_changes(existing, shorter);
        assert forall|k: int| 0 <= k < n implies shorter[k] == ranks[k] by {}
        if existing[n] != ranks[n] {
            assert(rank_changes(existing, ranks)[rest.len() as int].0 == n);
        }
        assert forall|k: int| 0 <= k < ranks.len() && existing[k] != ranks[k] implies exists|i: int|
            0 <= i < rank_changes(existing, ranks).len() && (#[trigger] rank_changes(existing, ranks)[i]).0 == k by {
            if k < n {
                assert(existing[k] != shorter[k]);
                let i = choose|i: int| 0 <= i < rest.len() && (#[trigger] rest[i]).0 == k;
                assert(rank_changes(existing, ranks)[i] == rest[i]);
            } else {
                assert(rank_changes(existing, ranks)[rest.len() as int].0 == n);
            }
        }
    }
}

proof fn lemma_digit(k: nat)
    requires
        k < 10,
    ensures
        digit_value(digit_char(k)) == k,
        '0' <= digit_char(k) <= '9',
{
    let c = digit_char(k);
    assert(c as int == '0' as int + k);
}

proof fn lemma_decimal_digits(n: nat)
    ensures
        decimal(n).len() > 0,
        all_digits(decimal(n)),
        digits_value(decimal(n)) == n,
    decreases n,
{
    if n < 10 {
        lemma_digit(n);
        let d = decimal(n);
        assert(d.drop_last() =~= Seq::<char>::empty());
        assert(digits_value(d.drop_last()) == 0);
        assert(d.last() == digit_char(n));
        assert(digits_value(d) == digits_value(d.drop_last()) * 10 + digit_value(d.last()));
    } else {
        lemma_decimal_digits(n / 10);
        lemma_digit(n % 10);
        let d = decimal(n);
        assert(n == (n / 10) * 10 + n % 10);
        assert(d.drop_last() =~= decimal(n / 10));
        assert(d.last() == digit_char(n % 10));
        assert(digits_value(d) == digits_value(d.drop_last()) * 10 + digit_value(d.last()));
        assert(d.drop_last() =~= decimal(n / 10));
        assert(forall|i: int| 0 <= i < d.len() - 1 ==> d[i] == decimal(n / 10)[i]);
    }
}

/// A number written in decimal reads back as the same number.
pub proof fn law_decimal_reads_back(n: u32)
    ensures
        u32_of(decimal(n as nat)) == Some(n),
{
    lemma_decimal_digits(n as nat);
    assert(decimal(n as nat)[0] != '+');
}

/// Each login whose account check answers counts one attempt, whether the
/// account exists or not.
pub proof fn law_login_attempt_counted(player: Player, remember: bool, exists: bool, settings: Settings)
    requires
        player.login_attempts < i32::MAX,
    ensures
        login_check_outcome(player, LoginCheck::AccountExists { remember }, LoginAnswer::Flag(Ok(exists)), settings).0.login_attempts
            == player.login_attempts + 1,
{
}

/// `#autopickup add <item>` and `#autopickup remove <item>`, with auto
/// pickup enabled and an item that resolves to `item_id`, ask the map to add
/// that item to the player's list and to remove it from the list: `add` never
/// removes and `remove` never adds. The item is named by the words after the
/// sub command, joined by spaces.
pub proof fn law_autopickup_add_and_remove(
    r: (PlayerCommandResult, Option<Effect>),
    words: Seq<String>,
    commands: Seq<Command>,
    items: Seq<Seq<char>>,
    k: int,
    item_id: i32,
)
    requires
        words.len() >= 3,
        player_command_position(commands, words[0]@) == Some(k),
        commands[k].name@ == "autopickup"@,
        words[1]@ == "add"@ || words[1]@ == "remove"@,
        resolved_id(joined(views(words).subrange(2, words.len() as int), " "@), items) == Some(item_id),
        validation(
            seq![words[1]@, joined(views(words).subrange(2, words.len() as int), " "@)],
            commands[k].args@,
            commands[k].usage@,
        ) is Ok,
        player_command_outcome(r, words, commands, items, true),
    ensures
        r.0 == PlayerCommandResult::Handled,
        words[1]@ == "add"@ ==> r.1 == Some(Effect::ToMap(MapRequest::AddAutoPickupItem { item_id })),
        words[1]@ == "remove"@ ==> r.1 == Some(Effect::ToMap(MapRequest::RemoveAutoPickupItem { item_id })),
{
    reveal_strlit("add");
    reveal_strlit("remove");
    reveal_strlit("list");
    reveal_strlit("clear");
    reveal_strlit("autopickup");
    let c = commands[k];
    let rest = views(words.drop_first());
    assert(rest =~= views(words).drop_first());
    assert(rest.drop_first() =~= views(words).subrange(2, words.len() as int));
    let args = choose|args: Seq<String>| #[trigger] player_args_for(c, words, args) && player_outcome_for(r, c, args, items, true);
    assert(player_args_for(c, words, args));
    assert(views(args) =~= seq![words[1]@, joined(views(words).subrange(2, words.len() as int), " "@)]);
    assert(views(args)[0] == words[1]@);
}

/// A message to the global channel is sent on, under the speaker's name,
/// whatever the speaker's admin level.
pub proof fn law_global_messages_for_everyone(message: String, c: CharacterInfo, admin_level: i32)
    ensures
        talk_broadcast(TalkJob::Global(message), Some(c))
            == Some(Effect::ToWorld(WorldRequest::BroadcastGlobalMessage { name: c.name, message })),
        talk_broadcast(TalkJob::Global(message), Some(CharacterInfo { admin_level, ..c }))
            == talk_broadcast(TalkJob::Global(message), Some(c)),
{
}

/// The character that an accepted creation request asks to store is the one
/// the packet describes, for the player's account; and the character saved
/// once its name is free is the one whose name was checked.
pub proof fn law_new_character_from_packet(
    player: Player,
    p: CharacterCreatePacket,
    settings: Settings,
    taken_session: i32,
)
    requires
        player.state == ClientState::LoggedIn,
        player.session_id == Some(p.session_id),
        0 <= p.hair_color <= settings.max_hair_color,
        0 <= p.hair_style <= settings.max_hair_style,
    ensures
        character_create_outcome(player, Some(p), true, settings).1 matches Some(CharacterWork::CheckName(c)) && {
            &&& c.account_id == player.account_id
            &&& c.name == p.name
            &&& c.gender == p.gender
            &&& c.hair_style == p.hair_style
            &&& c.hair_color == p.hair_color
            &&& c.skin == p.skin
            &&& character_step_outcome(player, CharacterWork::CheckName(c), CharacterAnswer::Taken(Ok(false)), settings, taken_session).1
                == Some(CharacterWork::Save(c))
        },
{
}

/// The account that an accepted creation request asks to store is the one
/// the packet describes, registered from the player's address.
pub proof fn law_new_account_from_packet(player: Player, p: AccountCreatePacket)
    requires
        player.state == ClientState::Accepted,
        player.session_id == Some(p.session_id),
        player.email_pin is None || player.email_pin->0@ == p.pin@,
    ensures
        account_create_outcome(player, Some(p)).2 matches Some(a) && {
            &&& a.username == p.username
            &&& a.password == p.password
            &&& a.full_name == p.full_name
            &&& a.location == p.location
            &&& a.email == p.email
            &&& a.computer == p.computer
            &&& a.hdid == p.hdid
            &&& a.register_ip == player.ip
        },
{
}

/// An accepted cast on another player or an npc, by a player on a map, is
/// aimed at the packet's victim: a player target at that player, an npc
/// target at that npc; an unknown target type casts nothing.
pub proof fn law_cast_hits_the_named_target(player: Player, p: SpellTargetOtherPacket, cast_times: Seq<i32>)
    requires
        cast_accepted(player, p.spell_id, p.timestamp, cast_times),
        player.map is Some,
    ensures
        p.target_type is Player ==> spell_target_other_outcome(player, Some(p), cast_times).1
            == Some(Effect::ToMap(MapRequest::CastSpell { spell_id: p.spell_id, target: SpellTarget::OtherPlayer(p.victim_id) })),
        p.target_type is Npc ==> spell_target_other_outcome(player, Some(p), cast_times).1
            == Some(Effect::ToMap(MapRequest::CastSpell { spell_id: p.spell_id, target: SpellTarget::Npc(p.victim_id) })),
        p.target_type is Unrecognized ==> spell_target_other_outcome(player, Some(p), cast_times).1 is None,
{
}

} // verus!
