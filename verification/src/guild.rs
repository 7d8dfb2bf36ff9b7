use vstd::prelude::*;

use crate::character_info::CharacterInfo;
use crate::effects::{Effect, GuildReply, MapRequest, Notice, Reply, WorldRequest};
use crate::packets::{
    GuildAgreeInfo, GuildAgreePacket, GuildCreatePacket, GuildInfoType, GuildJunkPacket,
    GuildKickPacket, GuildRankPacket, GuildRemovePacket, GuildReportPacket, GuildRequestPacket,
    GuildTakePacket, GuildTellPacket, GuildUsePacket,
};
use crate::dialogs::{guild_buy_effect, guild_player_effect};
use crate::forwarding::{guild_accept_effect, guild_open_effect};
use crate::packets::{
    decode_guild_accept, decode_guild_agree, decode_guild_buy, decode_guild_create, decode_guild_junk,
    decode_guild_kick, decode_guild_open, decode_guild_player, decode_guild_rank, decode_guild_remove,
    decode_guild_report, decode_guild_request, decode_guild_take, decode_guild_tell, decode_guild_use,
    guild_accept_decoded, guild_agree_decoded, guild_buy_decoded, guild_create_decoded, guild_junk_decoded,
    guild_kick_decoded, guild_open_decoded, guild_player_decoded, guild_rank_decoded, guild_remove_decoded,
    guild_report_decoded, guild_request_decoded, guild_take_decoded, guild_tell_decoded, guild_use_decoded,
    PacketAction,
};
use crate::player::Player;
use crate::settings::Settings;
use crate::text::{lowercase, to_lowercase, to_uppercase, uppercase, views};

verus! {

/// The part of a guild packet that is handled after the map, the world or the
/// database have been asked; the session checks have passed.
#[derive(Debug, Clone, PartialEq, Eq)]
pub enum GuildJob {
    /// Asks to found a guild.
    Request { npc_index: i32, guild_tag: String, guild_name: String },
    /// Founds a guild with the members who accepted.
    Create { guild_tag: String, guild_name: String, description: String, members: Vec<i32> },
    /// Takes a player into the recruiter's guild.
    Recruit { player_id: i32 },
    /// Kicks a member.
    Kick { member_name: String },
    /// Shows the description, the ranks or the bank of the guild.
    Take { npc_index: i32, info_type: GuildInfoType },
    /// Changes the description or the ranks.
    Agree { npc_index: i32, info: GuildAgreeInfo },
    /// Gives a member a rank, from 1 to 9.
    Rank { npc_index: i32, rank: i32, member_name: String },
    /// Shows the details of a guild.
    Report { npc_index: i32, guild_identity: String },
    /// Lists the members of a guild.
    Tell { npc_index: i32, guild_identity: String },
    /// Leaves the guild.
    Leave,
    /// Disbands the guild.
    Disband { npc_index: i32 },
}

/// A database write that a guild decision asks for; what follows it depends on
/// whether it succeeded.
#[derive(Debug, Clone, PartialEq, Eq)]
pub enum GuildWrite {
    /// Sets the gold in the guild bank.
    SetBank { guild_tag: String, bank: i32 },
    /// Creates the guild with its default ranks.
    CreateGuild { guild_tag: String, guild_name: String, description: String },
    /// Sets the guild description.
    SetDescription { guild_tag: String, description: String },
    /// Sets the rank names at the given indexes, in order.
    SetRanks { guild_tag: String, changes: Vec<(usize, String)> },
}

/// What a guild decision does.
#[derive(Debug, Clone, PartialEq, Eq)]
pub enum GuildStep {
    /// The effects, in order; nothing more follows.
    Done(Vec<Effect>),
    /// The write; when it succeeds, the effects `then`, in order. Rank
    /// changes are written one by one (see [`rank_progress`]), and `then`
    /// follows only when every one of them succeeded.
    Write { write: GuildWrite, then: Vec<Effect> },
}

/// Where writing the changed ranks of a guild (`GuildWrite::SetRanks`)
/// stands: each change is written in order, and the writing stops at the
/// first one that fails.
#[derive(Debug, Clone, PartialEq, Eq)]
pub enum RankProgress {
    /// Write the rank at this index with this name next.
    Next(usize, String),
    /// Every change was written: the step's `then` effects follow.
    AllWritten,
    /// A write failed: nothing more is written and nothing follows.
    Stopped,
}

/// Decides what follows once the first `written` of `changes` were written,
/// the last of them with the outcome `last` (`Ok(())` before the first).
pub fn rank_progress(changes: &Vec<(usize, String)>, written: usize, last: Result<(), String>) -> (r: RankProgress)
    requires
        written <= changes@.len(),
    ensures
        r == match last {
            Err(_) => RankProgress::Stopped,
            Ok(()) => if written < changes@.len() {
                RankProgress::Next(changes@[written as int].0, changes@[written as int].1)
            } else {
                RankProgress::AllWritten
            },
        },
{
    match last {
        Err(_) => RankProgress::Stopped,
        Ok(()) => if written < changes.len() {
            let (index, rank) = &changes[written];
            RankProgress::Next(*index, rank.clone())
        } else {
            RankProgress::AllWritten
        },
    }
}

/// `step` gives exactly `effects` and asks for no write.
pub open spec fn is_done(step: GuildStep, effects: Seq<Effect>) -> bool {
    step matches GuildStep::Done(v) && v@ == effects
}

/// A member in a guild's member list.
#[derive(Debug, Clone, PartialEq, Eq)]
pub struct GuildMember {
    pub rank: i32,
    pub name: String,
    pub rank_name: String,
}

/// The details of a guild as the guild master reports them.
#[derive(Debug, Clone, PartialEq, Eq)]
pub struct GuildDetails {
    pub tag: String,
    pub name: String,
    pub description: String,
    pub create_date: String,
    pub wealth: String,
    /// The nine rank names, each padded to four characters.
    pub ranks: Vec<String>,
    /// The leaders and recruiters, by rank and name.
    pub staff: Vec<(i32, String)>,
}

/// A guild master reply.
pub open spec fn reply(code: GuildReply) -> Effect {
    Effect::Reply(Reply::Guild(code))
}

/// `s` with its first character upper-cased.
pub open spec fn capitalized(s: Seq<char>) -> Seq<char> {
    if s.len() == 0 {
        s
    } else {
        uppercase(s.take(1)) + s.skip(1)
    }
}

/// The text of the requests to join a new guild: the founder's name in lower
/// case with its first letter upper-cased, and the tag in upper case in
/// brackets.
pub open spec fn creation_request_text(name: Seq<char>, tag: Seq<char>) -> Seq<char> {
    capitalized(lowercase(name)) + " ("@ + uppercase(tag) + ")"@
}

/// Whether npc `npc_id` is a guild master; `guild_masters[i]` tells it of the
/// npc with id `i + 1`. An id with no npc is none.
pub open spec fn is_guild_master(npc_id: Option<i32>, guild_masters: Seq<bool>) -> bool {
    match npc_id {
        Some(id) => 1 <= id <= guild_masters.len() && guild_masters[id - 1],
        None => false,
    }
}

/// The guild class of a bank balance.
pub open spec fn wealth_class(bank: i32) -> Seq<char> {
    if bank < 2000 {
        "bankrupt"@
    } else if bank < 10_000 {
        "poor"@
    } else if bank < 50_000 {
        "normal"@
    } else if bank < 100_000 {
        "wealthy"@
    } else {
        "very wealthy"@
    }
}

/// `s` padded with spaces on the right to four characters.
pub open spec fn padded(s: Seq<char>) -> Seq<char> {
    if s.len() >= 4 {
        s
    } else {
        s + Seq::new((4 - s.len()) as nat, |i: int| ' ')
    }
}

/// The description a guild shows: a missing or empty one shows as one space.
pub open spec fn shown_description(stored: Option<Seq<char>>) -> Seq<char> {
    match stored {
        Some(d) if d.len() > 0 => d,
        _ => " "@,
    }
}

/// The indexes at which `ranks` differ from `existing`, with the new names.
pub open spec fn rank_changes(existing: Seq<Seq<char>>, ranks: Seq<Seq<char>>) -> Seq<(usize, Seq<char>)>
    decreases ranks.len(),
{
    if ranks.len() == 0 {
        Seq::empty()
    } else {
        let k = ranks.len() - 1;
        let rest = rank_changes(existing, ranks.take(k));
        if existing[k] == ranks[k] {
            rest
        } else {
            rest.push((k as usize, ranks[k]))
        }
    }
}

/// The view of a list of rank changes.
pub open spec fn changes_view(changes: Seq<(usize, String)>) -> Seq<(usize, Seq<char>)> {
    changes.map_values(|c: (usize, String)| (c.0, c.1@))
}

/// A character that can act on guild business: it has a player to answer.
pub open spec fn acting(ch: Option<CharacterInfo>) -> bool {
    ch is Some && ch->0.has_player
}

/// What the guild master answers to a request to found a guild.
pub open spec fn guild_request_outcome(
    ch: Option<CharacterInfo>,
    names_valid: bool,
    npc_is_guild_master: bool,
    exists: bool,
    candidates: usize,
    settings: Settings,
) -> Seq<Effect> {
    if !acting(ch) {
        seq![]
    } else if !names_valid {
        seq![reply(GuildReply::NotApproved)]
    } else if !npc_is_guild_master {
        seq![]
    } else if ch->0.guild_tag is Some || ch->0.gold < settings.guild_create_cost {
        seq![]
    } else if exists {
        seq![reply(GuildReply::Exists)]
    } else if settings.guild_min_players == 1 {
        seq![reply(GuildReply::CreateAddConfirm)]
    } else if candidates < settings.guild_min_players {
        seq![reply(GuildReply::NoCandidates)]
    } else {
        seq![reply(GuildReply::CreateBegin)]
    }
}

/// `str::to_uppercase` on the first character of `s`, followed by the rest.
pub fn capitalize(s: &str) -> (r: String)
    ensures
        r@ == capitalized(s@),
{
    let n = s.unicode_len();
    if n == 0 {
        return String::new();
    }
    let first = to_uppercase(s.substring_char(0, 1));
    let rest = s.substring_char(1, n);
    assert(s@.subrange(0, 1) =~= s@.take(1));
    assert(s@.subrange(1, n as int) =~= s@.skip(1));
    first.concat(rest)
}

/// The text of the requests to join a new guild (see
/// [`creation_request_text`]).
pub fn creation_request(name: &str, tag: &str) -> (r: String)
    ensures
        r@ == creation_request_text(name@, tag@),
{
    let lower = to_lowercase(name);
    let text = capitalize(lower.as_str());
    let upper = to_uppercase(tag);
    proof {
        reveal_strlit(" (");
        reveal_strlit(")");
    }
    let text = text.concat(" (");
    let text = text.concat(upper.as_str());
    text.concat(")")
}

/// Whether npc `npc_id` is a guild master (see [`is_guild_master`]).
pub fn guild_master(npc_id: Option<i32>, guild_masters: &Vec<bool>) -> (r: bool)
    ensures
        r == is_guild_master(npc_id, guild_masters@),
{
    match npc_id {
        Some(id) => if 1 <= id && ((id - 1) as usize) < guild_masters.len() {
            guild_masters[(id - 1) as usize]
        } else {
            false
        },
        None => false,
    }
}

/// The guild class of a bank balance (see [`wealth_class`]).
pub fn wealth(bank: i32) -> (r: String)
    ensures
        r@ == wealth_class(bank),
{
    let text = if bank < 2000 {
        "bankrupt"
    } else if bank < 10_000 {
        "poor"
    } else if bank < 50_000 {
        "normal"
    } else if bank < 100_000 {
        "wealthy"
    } else {
        "very wealthy"
    };
    text.to_owned()
}

/// `s` padded to four characters (see [`padded`]).
pub fn pad_rank(s: &String) -> (r: String)
    ensures
        r@ == padded(s@),
{
    let n = s.as_str().unicode_len();
    let mut out = s.clone();
    let mut i = n;
    proof {
        reveal_strlit(" ");
    }
    while i < 4
        invariant
            n == s@.len(),
            n <= i <= 4 || (i == n && n >= 4),
            out@ == s@ + Seq::new((i - n) as nat, |j: int| ' '),
        decreases 4 - i,
    {
        let ghost before = out@;
        out.append(" ");
        proof {
            reveal_strlit(" ");
        }
        assert(" "@ =~= seq![' ']);
        assert(out@ == before + " "@);
        assert(out@ =~= s@ + Seq::new((i + 1 - n) as nat, |j: int| ' '));
        i = i + 1;
    }
    assert(n >= 4 ==> out@ =~= s@);
    out
}

/// The description a guild shows (see [`shown_description`]).
pub fn guild_description(stored: Option<String>) -> (r: String)
    ensures
        r@ == shown_description(
            match stored {
                Some(d) => Some(d@),
                None => None,
            },
        ),
{
    proof {
        reveal_strlit(" ");
    }
    match stored {
        Some(d) => if d.as_str().unicode_len() > 0 {
            d
        } else {
            " ".to_owned()
        },
        None => " ".to_owned(),
    }
}

/// What a database lookup gave: the query failed, found nothing, or found a
/// value.
#[derive(Debug, Clone, PartialEq, Eq)]
pub enum Lookup<T> {
    Failed,
    Missing,
    Found(T),
}

/// A row of the guild table.
#[derive(Debug, Clone, PartialEq, Eq)]
pub struct GuildRow {
    pub tag: String,
    pub name: String,
    pub description: String,
    pub bank: i32,
    /// The day the guild was founded, written as year-month-day.
    pub create_date: String,
}

/// What was read for a request to see the guild's description, ranks or bank.
#[derive(Debug, Clone, PartialEq, Eq)]
pub enum GuildInfo {
    /// The stored description, when there is one.
    Description(Option<String>),
    /// The rank names.
    Ranks(Vec<String>),
    /// The gold in the guild bank.
    Bank(i32),
    /// Nothing: the request asked for something else.
    Other,
}

/// The gold in a guild bank as read: a failed or empty read counts as none.
pub fn guild_bank_balance(read: Lookup<i32>) -> (r: i32)
    ensures
        r == match read {
            Lookup::Found(amount) => amount,
            _ => 0,
        },
{
    match read {
        Lookup::Found(amount) => amount,
        _ => 0,
    }
}

/// The verdict on a request to found a guild: no answer, or the reply code
/// (`CreateBegin` also sends the requests to join to the players around).
pub open spec fn guild_request_verdict(
    ch: Option<CharacterInfo>,
    names_valid: bool,
    npc_is_guild_master: bool,
    exists: bool,
    candidates: usize,
    settings: Settings,
) -> Option<GuildReply> {
    if !acting(ch) {
        None
    } else if !names_valid {
        Some(GuildReply::NotApproved)
    } else if !npc_is_guild_master {
        None
    } else if ch->0.guild_tag is Some || ch->0.gold < settings.guild_create_cost {
        None
    } else if exists {
        Some(GuildReply::Exists)
    } else if settings.guild_min_players == 1 {
        Some(GuildReply::CreateAddConfirm)
    } else if candidates < settings.guild_min_players {
        Some(GuildReply::NoCandidates)
    } else {
        Some(GuildReply::CreateBegin)
    }
}

/// Decides a request to found a guild with tag `guild_tag` (see
/// [`guild_request_verdict`]). `ch` is the founder, `names_valid` the verdict
/// of the guild tag and name rules, `exists` whether a guild has that tag or
/// name, and `candidates` the number of players on the map without a guild.
pub fn guild_request_decision(
    ch: &Option<CharacterInfo>,
    guild_tag: &String,
    names_valid: bool,
    npc_is_guild_master: bool,
    exists: bool,
    candidates: usize,
    settings: &Settings,
) -> (r: Vec<Effect>)
    ensures
        match guild_request_verdict(*ch, names_valid, npc_is_guild_master, exists, candidates, *settings) {
            None => r@ == Seq::<Effect>::empty(),
            Some(GuildReply::CreateBegin) => {
                &&& r@.len() == 2
                &&& r@[0] == reply(GuildReply::CreateBegin)
                &&& r@[1] matches Effect::ToMap(MapRequest::SendGuildCreateRequests { description })
                &&& description@ == creation_request_text(ch->0.name@, guild_tag@)
            },
            Some(code) => r@ == seq![reply(code)],
        },
{
    let mut out: Vec<Effect> = Vec::new();
    let c = match ch {
        Some(c) => c,
        None => return out,
    };
    if !c.has_player {
        return out;
    }
    if !names_valid {
        out.push(Effect::Reply(Reply::Guild(GuildReply::NotApproved)));
        return out;
    }
    if !npc_is_guild_master || c.guild_tag.is_some() || c.gold < settings.guild_create_cost {
        return out;
    }
    if exists {
        out.push(Effect::Reply(Reply::Guild(GuildReply::Exists)));
    } else if settings.guild_min_players == 1 {
        out.push(Effect::Reply(Reply::Guild(GuildReply::CreateAddConfirm)));
    } else if candidates < settings.guild_min_players {
        out.push(Effect::Reply(Reply::Guild(GuildReply::NoCandidates)));
    } else {
        out.push(Effect::Reply(Reply::Guild(GuildReply::CreateBegin)));
        let description = creation_request(c.name.as_str(), guild_tag.as_str());
        out.push(Effect::ToMap(MapRequest::SendGuildCreateRequests { description }));
    }
    out
}

/// Decides the founding of a guild: `texts_valid` is the verdict of the
/// rules on the tag, the name and the description, `exists` whether a guild
/// has that tag or name. The guild is created with the tag in upper case and,
/// once created, the founders join it.
pub fn guild_create_decision(
    ch: &Option<CharacterInfo>,
    guild_tag: &String,
    guild_name: &String,
    description: &String,
    members: Vec<i32>,
    texts_valid: bool,
    exists: bool,
    settings: &Settings,
) -> (r: GuildStep)
    ensures
        !acting(*ch) ==> is_done(r, seq![]),
        acting(*ch) && !texts_valid ==> is_done(r, seq![reply(GuildReply::NotApproved)]),
        acting(*ch) && texts_valid && (ch->0.guild_tag is Some || ch->0.gold < settings.guild_create_cost)
            ==> is_done(r, seq![]),
        acting(*ch) && texts_valid && ch->0.guild_tag is None && ch->0.gold >= settings.guild_create_cost && exists
            ==> is_done(r, seq![reply(GuildReply::Exists)]),
        acting(*ch) && texts_valid && ch->0.guild_tag is None && ch->0.gold >= settings.guild_create_cost && !exists
            ==> (r matches GuildStep::Write { write: GuildWrite::CreateGuild { guild_tag: t, guild_name: n, description: d }, then }
                && t@ == uppercase(guild_tag@) && n == *guild_name && d == *description
                && then@ == seq![Effect::ToMap(MapRequest::FinishGuildCreation { members, guild_tag: t, guild_name: n })]),
{
    let mut out: Vec<Effect> = Vec::new();
    let c = match ch {
        Some(c) => c,
        None => return GuildStep::Done(out),
    };
    if !c.has_player {
        return GuildStep::Done(out);
    }
    if !texts_valid {
        out.push(Effect::Reply(Reply::Guild(GuildReply::NotApproved)));
        return GuildStep::Done(out);
    }
    if c.guild_tag.is_some() || c.gold < settings.guild_create_cost {
        return GuildStep::Done(out);
    }
    if exists {
        out.push(Effect::Reply(Reply::Guild(GuildReply::Exists)));
        return GuildStep::Done(out);
    }
    let tag = to_uppercase(guild_tag.as_str());
    let mut then: Vec<Effect> = Vec::new();
    then.push(Effect::ToMap(MapRequest::FinishGuildCreation { members, guild_tag: tag.clone(), guild_name: guild_name.clone() }));
    GuildStep::Write {
        write: GuildWrite::CreateGuild { guild_tag: tag, guild_name: guild_name.clone(), description: description.clone() },
        then,
    }
}

/// Decides taking player `player_id` into the recruiter's guild: only leaders
/// and recruiters (rank 1 or better) recruit, and the guild bank pays the
/// recruit cost. `bank` is the gold in the guild bank; `guild_name` and
/// `rank_name` are the guild's name and the rank of new members, when found.
pub fn guild_recruit_decision(
    ch: &Option<CharacterInfo>,
    player_id: i32,
    bank: i32,
    guild_name: Option<String>,
    rank_name: Option<String>,
    settings: &Settings,
) -> (r: GuildStep)
    requires
        *ch matches Some(c) ==> (c.guild_tag is Some ==> c.guild_rank is Some),
        bank >= settings.guild_recruit_cost ==> bank - settings.guild_recruit_cost <= i32::MAX,
    ensures
        match *ch {
            Some(c) if c.guild_tag is Some && c.guild_rank->0 <= 1 && c.has_player => if bank < settings.guild_recruit_cost {
                is_done(r, seq![reply(GuildReply::AccountLow)])
            } else {
                r matches GuildStep::Write { write: GuildWrite::SetBank { guild_tag, bank: b }, then }
                    && guild_tag == c.guild_tag->0 && b == bank - settings.guild_recruit_cost
                    && then@ == match (guild_name, rank_name) {
                        (Some(n), Some(k)) => seq![Effect::ToMap(MapRequest::JoinGuild {
                            player_id,
                            guild_tag: c.guild_tag->0,
                            guild_name: n,
                            rank_string: k,
                        })],
                        _ => seq![],
                    }
            },
            _ => is_done(r, seq![]),
        },
{
    let c = match ch {
        Some(c) => c,
        None => return GuildStep::Done(Vec::new()),
    };
    let tag = match &c.guild_tag {
        Some(tag) => tag,
        None => return GuildStep::Done(Vec::new()),
    };
    let rank = match c.guild_rank {
        Some(rank) => rank,
        None => return GuildStep::Done(Vec::new()),
    };
    if rank > 1 || !c.has_player {
        return GuildStep::Done(Vec::new());
    }
    if bank < settings.guild_recruit_cost {
        let mut out: Vec<Effect> = Vec::new();
        out.push(Effect::Reply(Reply::Guild(GuildReply::AccountLow)));
        return GuildStep::Done(out);
    }
    let mut then: Vec<Effect> = Vec::new();
    match (guild_name, rank_name) {
        (Some(n), Some(k)) => {
            then.push(Effect::ToMap(MapRequest::JoinGuild { player_id, guild_tag: tag.clone(), guild_name: n, rank_string: k }));
        },
        _ => {},
    }
    GuildStep::Write { write: GuildWrite::SetBank { guild_tag: tag.clone(), bank: bank - settings.guild_recruit_cost }, then }
}

/// Decides kicking a member: only leaders kick; `member` is the member when
/// online, and `member_map_exists` whether the member's map was found.
pub fn guild_kick_decision(ch: &Option<CharacterInfo>, member: &Option<CharacterInfo>, member_map_exists: bool) -> (r: Vec<Effect>)
    requires
        *member matches Some(m) ==> m.player_id is Some,
    ensures
        r@ == if !acting(*ch) || !ch->0.is_guild_leader {
            seq![]
        } else {
            match *member {
                None => seq![Effect::Notice(Notice::OfflineKickUnsupported)],
                Some(m) => if tag_text(m.guild_tag) != tag_text(ch->0.guild_tag) {
                    seq![reply(GuildReply::RemoveNotMember)]
                } else if m.is_guild_leader {
                    seq![reply(GuildReply::RemoveLeader)]
                } else if !member_map_exists {
                    seq![]
                } else {
                    seq![
                        Effect::ToMapOf { map_id: m.map_id, request: MapRequest::KickFromGuild { player_id: m.player_id->0 } },
                        reply(GuildReply::Removed),
                    ]
                },
            }
        },
{
    let mut out: Vec<Effect> = Vec::new();
    let c = match ch {
        Some(c) => c,
        None => return out,
    };
    if !c.has_player || !c.is_guild_leader {
        return out;
    }
    match member {
        None => {
            out.push(Effect::Notice(Notice::OfflineKickUnsupported));
        },
        Some(m) => {
            if !same_tag(&m.guild_tag, &c.guild_tag) {
                out.push(Effect::Reply(Reply::Guild(GuildReply::RemoveNotMember)));
            } else if m.is_guild_leader {
                out.push(Effect::Reply(Reply::Guild(GuildReply::RemoveLeader)));
            } else if member_map_exists {
                let player_id = match m.player_id {
                    Some(id) => id,
                    None => return out,
                };
                out.push(Effect::ToMapOf { map_id: m.map_id, request: MapRequest::KickFromGuild { player_id } });
                out.push(Effect::Reply(Reply::Guild(GuildReply::Removed)));
            }
        },
    }
    out
}

/// The text of a guild tag, when there is one.
pub open spec fn tag_text(tag: Option<String>) -> Option<Seq<char>> {
    match tag {
        Some(t) => Some(t@),
        None => None,
    }
}

/// Whether two guild tags read the same, both missing counting as the same.
pub fn same_tag(a: &Option<String>, b: &Option<String>) -> (r: bool)
    ensures
        r == (tag_text(*a) == tag_text(*b)),
{
    match (a, b) {
        (Some(x), Some(y)) => *x == *y,
        (None, None) => true,
        _ => false,
    }
}

/// Answers a request to see the guild's description, ranks or bank, asked of
/// a guild master by a member of a guild. `info` is what was read for it.
pub fn guild_take_decision(npc_is_guild_master: bool, ch: &Option<CharacterInfo>, info: GuildInfo) -> (r: Option<Effect>)
    requires
        info matches GuildInfo::Ranks(ranks) ==> ranks@.len() >= 9,
    ensures
        !npc_is_guild_master || !acting(*ch) || ch->0.guild_tag is None ==> r is None,
        npc_is_guild_master && acting(*ch) && ch->0.guild_tag is Some ==> match info {
            GuildInfo::Description(stored) => r matches Some(Effect::Reply(Reply::GuildTake { description }))
                && description@ == shown_description(tag_text(stored)),
            GuildInfo::Ranks(ranks) => r matches Some(Effect::Reply(Reply::GuildRank { ranks: shown }))
                && shown@ == ranks@.take(9),
            GuildInfo::Bank(gold_amount) => r == Some(Effect::Reply(Reply::GuildSell { gold_amount })),
            GuildInfo::Other => r is None,
        },
{
    if !npc_is_guild_master {
        return None;
    }
    match ch {
        Some(c) => if c.guild_tag.is_none() || !c.has_player {
            return None;
        },
        None => return None,
    }
    match info {
        GuildInfo::Description(stored) => Some(Effect::Reply(Reply::GuildTake { description: guild_description(stored) })),
        GuildInfo::Ranks(ranks) => {
            let mut shown: Vec<String> = Vec::new();
            let mut i: usize = 0;
            while i < 9
                invariant
                    i <= 9,
                    ranks@.len() >= 9,
                    shown@ == ranks@.take(i as int),
                decreases 9 - i,
            {
                shown.push(ranks[i].clone());
                assert(ranks@.take(i + 1) =~= ranks@.take(i as int).push(ranks@[i as int]));
                i = i + 1;
            }
            Some(Effect::Reply(Reply::GuildRank { ranks: shown }))
        },
        GuildInfo::Bank(gold_amount) => Some(Effect::Reply(Reply::GuildSell { gold_amount })),
        GuildInfo::Other => None,
    }
}

/// The indexes at which `ranks` differ from `existing` (see [`rank_changes`]).
pub fn changed_ranks(existing: &Vec<String>, ranks: &Vec<String>) -> (r: Vec<(usize, String)>)
    requires
        existing@.len() >= ranks@.len(),
    ensures
        changes_view(r@) == rank_changes(views(existing@), views(ranks@)),
{
    let mut out: Vec<(usize, String)> = Vec::new();
    let mut i: usize = 0;
    while i < ranks.len()
        invariant
            i <= ranks@.len(),
            existing@.len() >= ranks@.len(),
            changes_view(out@) == rank_changes(views(existing@), views(ranks@).take(i as int)),
        decreases ranks@.len() - i,
    {
        let ghost before = out@;
        assert(views(ranks@).take(i + 1).take(i as int) =~= views(ranks@).take(i as int));
        if existing[i] != ranks[i] {
            out.push((i, ranks[i].clone()));
            assert(changes_view(out@) =~= changes_view(before).push((i, ranks@[i as int]@)));
        }
        i = i + 1;
    }
    assert(views(ranks@).take(ranks@.len() as int) =~= views(ranks@));
    out
}

/// Decides a change of the guild's description or ranks: only leaders and
/// recruiters (rank 1 or better) change them, when the new texts pass the
/// rules (`texts_valid`). `existing` holds the rank names before the change.
pub fn guild_agree_decision(
    npc_is_guild_master: bool,
    ch: &Option<CharacterInfo>,
    info: GuildAgreeInfo,
    texts_valid: bool,
    existing: &Vec<String>,
) -> (r: GuildStep)
    requires
        *ch matches Some(c) ==> (c.guild_rank is Some ==> c.guild_tag is Some),
        info matches GuildAgreeInfo::Ranks(ranks) ==> existing@.len() >= ranks@.len(),
    ensures
        match *ch {
            Some(c) if npc_is_guild_master && c.has_player && c.guild_rank is Some && c.guild_rank->0 <= 1
                && texts_valid => match info {
                GuildAgreeInfo::Description(description) => r matches GuildStep::Write { write: GuildWrite::SetDescription { guild_tag, description: d }, then }
                    && guild_tag == c.guild_tag->0 && d == description && then@ == seq![reply(GuildReply::Updated)],
                GuildAgreeInfo::Ranks(ranks) => r matches GuildStep::Write { write: GuildWrite::SetRanks { guild_tag, changes }, then }
                    && guild_tag == c.guild_tag->0
                    && changes_view(changes@) == rank_changes(views(existing@), views(ranks@))
                    && then@ == seq![reply(GuildReply::RanksUpdated)],
            },
            _ => is_done(r, seq![]),
        },
{
    if !npc_is_guild_master {
        return GuildStep::Done(Vec::new());
    }
    let c = match ch {
        Some(c) => c,
        None => return GuildStep::Done(Vec::new()),
    };
    if !c.has_player {
        return GuildStep::Done(Vec::new());
    }
    match c.guild_rank {
        Some(rank) => if rank > 1 {
            return GuildStep::Done(Vec::new());
        },
        None => return GuildStep::Done(Vec::new()),
    }
    if !texts_valid {
        return GuildStep::Done(Vec::new());
    }
    let tag = match &c.guild_tag {
        Some(tag) => tag.clone(),
        None => return GuildStep::Done(Vec::new()),
    };
    let mut then: Vec<Effect> = Vec::new();
    match info {
        GuildAgreeInfo::Description(description) => {
            then.push(Effect::Reply(Reply::Guild(GuildReply::Updated)));
            GuildStep::Write { write: GuildWrite::SetDescription { guild_tag: tag, description }, then }
        },
        GuildAgreeInfo::Ranks(ranks) => {
            let changes = changed_ranks(existing, &ranks);
            then.push(Effect::Reply(Reply::Guild(GuildReply::RanksUpdated)));
            GuildStep::Write { write: GuildWrite::SetRanks { guild_tag: tag, changes }, then }
        },
    }
}

/// Decides giving a member rank `rank` (from 1 to 9): only leaders rank,
/// members of their own guild who are not leaders. `ranks` holds the guild's
/// rank names, `member` the member when online, and `member_map_exists`
/// whether the member's map was found.
pub fn guild_rank_decision(
    npc_is_guild_master: bool,
    ch: &Option<CharacterInfo>,
    rank: i32,
    ranks: &Vec<String>,
    member: &Option<CharacterInfo>,
    member_map_exists: bool,
) -> (r: Vec<Effect>)
    requires
        1 <= rank <= 9,
        *member matches Some(m) ==> m.player_id is Some,
    ensures
        r@ == if !npc_is_guild_master || !acting(*ch) || !ch->0.is_guild_leader || ch->0.guild_tag is None
            || rank > ranks@.len() {
            seq![]
        } else {
            match *member {
                None => seq![Effect::Notice(Notice::OfflineRankUnsupported)],
                Some(m) => if m.guild_tag is None {
                    seq![]
                } else if tag_text(m.guild_tag) != tag_text(ch->0.guild_tag) {
                    seq![reply(GuildReply::RankingNotMember)]
                } else if m.is_guild_leader {
                    seq![reply(GuildReply::RankingLeader)]
                } else if !member_map_exists {
                    seq![]
                } else {
                    seq![
                        Effect::ToMapOf {
                            map_id: m.map_id,
                            request: MapRequest::UpdateGuildRank { player_id: m.player_id->0, rank, rank_string: ranks@[rank - 1] },
                        },
                        reply(GuildReply::Updated),
                    ]
                },
            }
        },
{
    let mut out: Vec<Effect> = Vec::new();
    if !npc_is_guild_master {
        return out;
    }
    let c = match ch {
        Some(c) => c,
        None => return out,
    };
    if !c.has_player || !c.is_guild_leader || c.guild_tag.is_none() {
        return out;
    }
    if (rank - 1) as usize >= ranks.len() {
        return out;
    }
    let rank_string = ranks[(rank - 1) as usize].clone();
    match member {
        None => {
            out.push(Effect::Notice(Notice::OfflineRankUnsupported));
        },
        Some(m) => {
            if m.guild_tag.is_none() {
                return out;
            }
            if !same_tag(&m.guild_tag, &c.guild_tag) {
                out.push(Effect::Reply(Reply::Guild(GuildReply::RankingNotMember)));
            } else if m.is_guild_leader {
                out.push(Effect::Reply(Reply::Guild(GuildReply::RankingLeader)));
            } else if member_map_exists {
                let player_id = match m.player_id {
                    Some(id) => id,
                    None => return out,
                };
                out.push(Effect::ToMapOf { map_id: m.map_id, request: MapRequest::UpdateGuildRank { player_id, rank, rank_string } });
                out.push(Effect::Reply(Reply::Guild(GuildReply::Updated)));
            }
        },
    }
    out
}

/// The nine rank names of a guild report: entry `i` of `ranks` padded to
/// four characters, or four spaces where there is none.
pub open spec fn report_ranks(ranks: Seq<Seq<char>>) -> Seq<Seq<char>> {
    Seq::new(9, |i: int| padded(if i < ranks.len() { ranks[i] } else { Seq::empty() }))
}

/// Answers a request for a guild's details (`row`, found by tag or name),
/// with its staff (`staff`, `None` when that query failed) and rank names.
pub fn guild_report_decision(
    ch: &Option<CharacterInfo>,
    npc_is_guild_master: bool,
    row: Lookup<GuildRow>,
    staff: Option<Vec<(i32, String)>>,
    ranks: &Vec<String>,
) -> (r: Option<Effect>)
    ensures
        !acting(*ch) || !npc_is_guild_master ==> r is None,
        acting(*ch) && npc_is_guild_master ==> match row {
            Lookup::Failed => r is None,
            Lookup::Missing => r == Some(reply(GuildReply::NotFound)),
            Lookup::Found(g) => match staff {
                None => r is None,
                Some(members) => r matches Some(Effect::Reply(Reply::GuildReport(d)))
                    && d.tag == g.tag && d.name == g.name && d.description == g.description
                    && d.create_date == g.create_date && d.wealth@ == wealth_class(g.bank)
                    && views(d.ranks@) == report_ranks(views(ranks@)) && d.staff == members,
            },
        },
{
    match ch {
        Some(c) => if !c.has_player {
            return None;
        },
        None => return None,
    }
    if !npc_is_guild_master {
        return None;
    }
    let g = match row {
        Lookup::Failed => return None,
        Lookup::Missing => return Some(Effect::Reply(Reply::Guild(GuildReply::NotFound))),
        Lookup::Found(g) => g,
    };
    let members = match staff {
        Some(members) => members,
        None => return None,
    };
    let mut shown: Vec<String> = Vec::new();
    let mut i: usize = 0;
    while i < 9
        invariant
            i <= 9,
            views(shown@) == report_ranks(views(ranks@)).take(i as int),
        decreases 9 - i,
    {
        let ghost want = report_ranks(views(ranks@))[i as int];
        let text = if i < ranks.len() {
            assert(views(ranks@)[i as int] == ranks@[i as int]@);
            pad_rank(&ranks[i])
        } else {
            pad_rank(&String::new())
        };
        assert(text@ == want);
        let ghost before = shown@;
        shown.push(text);
        assert(views(shown@) =~= views(before).push(text@));
        assert(views(shown@) =~= report_ranks(views(ranks@)).take(i + 1));
        i = i + 1;
    }
    assert(report_ranks(views(ranks@)).take(9) =~= report_ranks(views(ranks@)));
    let wealth = wealth(g.bank);
    Some(Effect::Reply(Reply::GuildReport(GuildDetails {
        tag: g.tag,
        name: g.name,
        description: g.description,
        create_date: g.create_date,
        wealth,
        ranks: shown,
        staff: members,
    })))
}

/// Answers a request for a guild's member list (`members`, `None` when the
/// query failed).
pub fn guild_tell_decision(ch: &Option<CharacterInfo>, npc_is_guild_master: bool, members: Option<Vec<GuildMember>>) -> (r: Option<Effect>)
    ensures
        r == if !acting(*ch) || !npc_is_guild_master {
            None
        } else {
            match members {
                None => None,
                Some(m) => if m@.len() == 0 {
                    Some(reply(GuildReply::NotFound))
                } else {
                    Some(Effect::Reply(Reply::GuildTell { members: m }))
                },
            }
        },
{
    match ch {
        Some(c) => if !c.has_player {
            return None;
        },
        None => return None,
    }
    if !npc_is_guild_master {
        return None;
    }
    match members {
        None => None,
        Some(m) => if m.len() == 0 {
            Some(Effect::Reply(Reply::Guild(GuildReply::NotFound)))
        } else {
            Some(Effect::Reply(Reply::GuildTell { members: m }))
        },
    }
}

/// Decides leaving the guild: the last leader cannot leave, and is kept in
/// the guild with a notice; `leaders` is the number of leaders of the guild
/// (missing counts as one). `player_id` is the leaving player's id.
pub fn guild_leave_decision(ch: &Option<CharacterInfo>, player_id: i32, leaders: Lookup<i32>) -> (r: Vec<Effect>)
    requires
        *ch matches Some(c) ==> (c.guild_tag is Some ==> c.guild_name is Some && c.guild_rank_string is Some),
    ensures
        r@ == match *ch {
            Some(c) if c.has_player && c.guild_tag is Some => if c.guild_rank == Some(1i32) {
                match leaders {
                    Lookup::Failed => seq![],
                    Lookup::Missing => last_leader_kept(c, player_id),
                    Lookup::Found(n) => if n == 1 {
                        last_leader_kept(c, player_id)
                    } else {
                        seq![Effect::ToMap(MapRequest::LeaveGuild)]
                    },
                }
            } else {
                seq![Effect::ToMap(MapRequest::LeaveGuild)]
            },
            _ => seq![],
        },
{
    let mut out: Vec<Effect> = Vec::new();
    let c = match ch {
        Some(c) => c,
        None => return out,
    };
    if !c.has_player {
        return out;
    }
    let tag = match &c.guild_tag {
        Some(tag) => tag,
        None => return out,
    };
    if c.guild_rank == Some(1i32) {
        let count = match leaders {
            Lookup::Failed => return out,
            Lookup::Missing => 1,
            Lookup::Found(n) => n,
        };
        if count == 1 {
            let guild_name = match &c.guild_name {
                Some(n) => n.clone(),
                None => return out,
            };
            let rank_name = match &c.guild_rank_string {
                Some(n) => n.clone(),
                None => return out,
            };
            out.push(Effect::Notice(Notice::LastGuildLeader));
            out.push(Effect::Reply(Reply::GuildAgree { recruiter_id: player_id, guild_tag: tag.clone(), guild_name, rank_name }));
            out.push(Effect::Reply(Reply::GuildAccept { rank: 1 }));
            return out;
        }
    }
    out.push(Effect::ToMap(MapRequest::LeaveGuild));
    out
}

/// What keeps the last leader in the guild: a notice, and the guild and rank
/// sent again as if the player had just joined as leader.
pub open spec fn last_leader_kept(c: CharacterInfo, player_id: i32) -> Seq<Effect> {
    seq![
        Effect::Notice(Notice::LastGuildLeader),
        Effect::Reply(Reply::GuildAgree {
            recruiter_id: player_id,
            guild_tag: c.guild_tag->0,
            guild_name: c.guild_name->0,
            rank_name: c.guild_rank_string->0,
        }),
        Effect::Reply(Reply::GuildAccept { rank: 1 }),
    ]
}

/// Decides disbanding the guild: only leaders disband it.
pub fn guild_disband_decision(npc_is_guild_master: bool, ch: &Option<CharacterInfo>) -> (r: Option<Effect>)
    ensures
        r == match *ch {
            Some(c) if npc_is_guild_master && c.is_guild_leader && c.guild_tag is Some =>
                Some(Effect::ToWorld(WorldRequest::DisbandGuild { guild_tag: c.guild_tag->0 })),
            _ => None,
        },
{
    if !npc_is_guild_master {
        return None;
    }
    match ch {
        Some(c) => if !c.is_guild_leader {
            None
        } else {
            match &c.guild_tag {
                Some(tag) => Some(Effect::ToWorld(WorldRequest::DisbandGuild { guild_tag: tag.clone() })),
                None => None,
            }
        },
        None => None,
    }
}

/// The job of a kick packet: the player must answer its session and stand on
/// a map.
pub open spec fn guild_kick_job(player: Player, packet: Option<GuildKickPacket>) -> Option<GuildJob> {
    match packet {
        Some(p) if player.session_is(p.session_id) && player.map is Some => Some(GuildJob::Kick { member_name: p.member_name }),
        _ => None,
    }
}

/// The job of a request for the guild's description, ranks or bank.
pub open spec fn guild_take_job(player: Player, packet: Option<GuildTakePacket>) -> Option<GuildJob> {
    match packet {
        Some(p) if player.interact_npc_index is Some && player.session_is(p.session_id) && player.map is Some =>
            Some(GuildJob::Take { npc_index: player.interact_npc_index->0, info_type: p.info_type }),
        _ => None,
    }
}

/// The job of a change of the guild's description or ranks.
pub open spec fn guild_agree_job(player: Player, packet: Option<GuildAgreePacket>) -> Option<GuildJob> {
    match packet {
        Some(p) if p.info is Some && player.session_is(p.session_id) && player.interact_npc_index is Some
            && player.map is Some => Some(GuildJob::Agree { npc_index: player.interact_npc_index->0, info: p.info->0 }),
        _ => None,
    }
}

/// The job of a rank packet: ranks go from 1 to 9.
pub open spec fn guild_rank_job(player: Player, packet: Option<GuildRankPacket>) -> Option<GuildJob> {
    match packet {
        Some(p) if 1 <= p.rank <= 9 && player.session_is(p.session_id) && player.interact_npc_index is Some
            && player.map is Some => Some(GuildJob::Rank {
            npc_index: player.interact_npc_index->0,
            rank: p.rank,
            member_name: p.member_name,
        }),
        _ => None,
    }
}

/// The job of a request for a guild's details.
pub open spec fn guild_report_job(player: Player, packet: Option<GuildReportPacket>) -> Option<GuildJob> {
    match packet {
        Some(p) if player.interact_npc_index is Some && player.session_is(p.session_id) && player.map is Some =>
            Some(GuildJob::Report { npc_index: player.interact_npc_index->0, guild_identity: p.guild_identity }),
        _ => None,
    }
}

/// The job of a request for a guild's member list.
pub open spec fn guild_tell_job(player: Player, packet: Option<GuildTellPacket>) -> Option<GuildJob> {
    match packet {
        Some(p) if player.interact_npc_index is Some && player.session_is(p.session_id) && player.map is Some =>
            Some(GuildJob::Tell { npc_index: player.interact_npc_index->0, guild_identity: p.guild_identity }),
        _ => None,
    }
}

/// The job of a packet to leave the guild.
pub open spec fn guild_remove_job(player: Player, packet: Option<GuildRemovePacket>) -> Option<GuildJob> {
    match packet {
        Some(p) if player.session_is(p.session_id) && player.map is Some => Some(GuildJob::Leave),
        _ => None,
    }
}

/// The job of a packet to disband the guild.
pub open spec fn guild_junk_job(player: Player, packet: Option<GuildJunkPacket>) -> Option<GuildJob> {
    match packet {
        Some(p) if player.session_is(p.session_id) && player.interact_npc_index is Some && player.map is Some =>
            Some(GuildJob::Disband { npc_index: player.interact_npc_index->0 }),
        _ => None,
    }
}

/// The player and the job after a request to found a guild: an accepted
/// request starts with no founding members.
pub open spec fn guild_request_gate(before: Player, after: Player, packet: Option<GuildRequestPacket>, job: Option<GuildJob>) -> bool {
    match packet {
        Some(p) if before.interact_npc_index is Some && before.session_is(p.session_id) && before.map is Some => {
            &&& after.guild_create_members@.len() == 0
            &&& after == (Player { guild_create_members: after.guild_create_members, ..before })
            &&& job == Some(GuildJob::Request {
                npc_index: before.interact_npc_index->0,
                guild_tag: p.guild_tag,
                guild_name: p.guild_name,
            })
        },
        _ => after == before && job is None,
    }
}

/// The player and the job after a packet to found the guild: it needs enough
/// founding members, counting the founder; the members are handed to the job.
pub open spec fn guild_create_gate(before: Player, after: Player, packet: Option<GuildCreatePacket>, settings: Settings, job: Option<GuildJob>) -> bool {
    match packet {
        Some(p) if before.guild_create_members@.len() + 1 >= settings.guild_min_players
            && before.session_is(p.session_id) && before.map is Some => {
            &&& after.guild_create_members@.len() == 0
            &&& after == (Player { guild_create_members: after.guild_create_members, ..before })
            &&& job == Some(GuildJob::Create {
                guild_tag: p.guild_tag,
                guild_name: p.guild_name,
                description: p.description,
                members: before.guild_create_members,
            })
        },
        _ => after == before && job is None,
    }
}

/// The player and the job after a packet to recruit a player: the player
/// must be the one being interacted with, who is then forgotten.
pub open spec fn guild_use_gate(before: Player, packet: Option<GuildUsePacket>) -> (Player, Option<GuildJob>) {
    match packet {
        Some(p) if before.interact_player_id == Some(p.player_id) => (
            Player { interact_player_id: None, ..before },
            if before.map is Some {
                Some(GuildJob::Recruit { player_id: p.player_id })
            } else {
                None
            },
        ),
        _ => (before, None),
    }
}

impl Player {
    /// Starts a request to found a guild (see [`guild_request_gate`]).
    pub fn guild_request(&mut self, packet: Option<GuildRequestPacket>) -> (r: Option<GuildJob>)
        ensures
            guild_request_gate(*old(self), *final(self), packet, r),
    {
        let p = match packet {
            Some(p) => p,
            None => return None,
        };
        let npc_index = match self.interact_npc_index {
            Some(npc_index) => npc_index,
            None => return None,
        };
        if self.session_id != Some(p.session_id) || self.map.is_none() {
            return None;
        }
        self.guild_create_members = Vec::new();
        Some(GuildJob::Request { npc_index, guild_tag: p.guild_tag, guild_name: p.guild_name })
    }

    /// Starts founding the guild (see [`guild_create_gate`]).
    pub fn guild_create(&mut self, packet: Option<GuildCreatePacket>, settings: &Settings) -> (r: Option<GuildJob>)
        ensures
            guild_create_gate(*old(self), *final(self), packet, *settings, r),
    {
        let p = match packet {
            Some(p) => p,
            None => return None,
        };
        if self.guild_create_members.len() < settings.guild_min_players
            && settings.guild_min_players - self.guild_create_members.len() > 1 {
            return None;
        }
        if self.session_id != Some(p.session_id) || self.map.is_none() {
            return None;
        }
        let mut members: Vec<i32> = Vec::new();
        std::mem::swap(&mut members, &mut self.guild_create_members);
        Some(GuildJob::Create { guild_tag: p.guild_tag, guild_name: p.guild_name, description: p.description, members })
    }

    /// Starts recruiting a player (see [`guild_use_gate`]).
    pub fn guild_use(&mut self, packet: Option<GuildUsePacket>) -> (r: Option<GuildJob>)
        ensures
            (*final(self), r) == guild_use_gate(*old(self), packet),
    {
        let p = match packet {
            Some(p) => p,
            None => return None,
        };
        if self.interact_player_id != Some(p.player_id) {
            return None;
        }
        self.interact_player_id = None;
        if self.map.is_none() {
            return None;
        }
        Some(GuildJob::Recruit { player_id: p.player_id })
    }

    /// Starts kicking a member (see [`guild_kick_job`]).
    pub fn guild_kick(&self, packet: Option<GuildKickPacket>) -> (r: Option<GuildJob>)
        ensures
            r == guild_kick_job(*self, packet),
    {
        match packet {
            Some(p) if self.session_id == Some(p.session_id) && self.map.is_some() => Some(GuildJob::Kick { member_name: p.member_name }),
            _ => None,
        }
    }

    /// Starts showing the guild's description, ranks or bank (see
    /// [`guild_take_job`]).
    pub fn guild_take(&self, packet: Option<GuildTakePacket>) -> (r: Option<GuildJob>)
        ensures
            r == guild_take_job(*self, packet),
    {
        let p = match packet {
            Some(p) => p,
            None => return None,
        };
        match self.interact_npc_index {
            Some(npc_index) if self.session_id == Some(p.session_id) && self.map.is_some() =>
                Some(GuildJob::Take { npc_index, info_type: p.info_type }),
            _ => None,
        }
    }

    /// Starts changing the guild's description or ranks (see
    /// [`guild_agree_job`]).
    pub fn guild_agree(&self, packet: Option<GuildAgreePacket>) -> (r: Option<GuildJob>)
        ensures
            r == guild_agree_job(*self, packet),
    {
        let p = match packet {
            Some(p) => p,
            None => return None,
        };
        let info = match p.info {
            Some(info) => info,
            None => return None,
        };
        match self.interact_npc_index {
            Some(npc_index) if self.session_id == Some(p.session_id) && self.map.is_some() =>
                Some(GuildJob::Agree { npc_index, info }),
            _ => None,
        }
    }

    /// Starts ranking a member (see [`guild_rank_job`]).
    pub fn guild_rank(&self, packet: Option<GuildRankPacket>) -> (r: Option<GuildJob>)
        ensures
            r == guild_rank_job(*self, packet),
    {
        let p = match packet {
            Some(p) => p,
            None => return None,
        };
        if p.rank < 1 || p.rank > 9 {
            return None;
        }
        match self.interact_npc_index {
            Some(npc_index) if self.session_id == Some(p.session_id) && self.map.is_some() =>
                Some(GuildJob::Rank { npc_index, rank: p.rank, member_name: p.member_name }),
            _ => None,
        }
    }

    /// Starts showing a guild's details (see [`guild_report_job`]).
    pub fn guild_report(&self, packet: Option<GuildReportPacket>) -> (r: Option<GuildJob>)
        ensures
            r == guild_report_job(*self, packet),
    {
        let p = match packet {
            Some(p) => p,
            None => return None,
        };
        match self.interact_npc_index {
            Some(npc_index) if self.session_id == Some(p.session_id) && self.map.is_some() =>
                Some(GuildJob::Report { npc_index, guild_identity: p.guild_identity }),
            _ => None,
        }
    }

    /// Starts listing a guild's members (see [`guild_tell_job`]).
    pub fn guild_tell(&self, packet: Option<GuildTellPacket>) -> (r: Option<GuildJob>)
        ensures
            r == guild_tell_job(*self, packet),
    {
        let p = match packet {
            Some(p) => p,
            None => return None,
        };
        match self.interact_npc_index {
            Some(npc_index) if self.session_id == Some(p.session_id) && self.map.is_some() =>
                Some(GuildJob::Tell { npc_index, guild_identity: p.guild_identity }),
            _ => None,
        }
    }

    /// Starts leaving the guild (see [`guild_remove_job`]).
    pub fn guild_remove(&self, packet: Option<GuildRemovePacket>) -> (r: Option<GuildJob>)
        ensures
            r == guild_remove_job(*self, packet),
    {
        match packet {
            Some(p) if self.session_id == Some(p.session_id) && self.map.is_some() => Some(GuildJob::Leave),
            _ => None,
        }
    }

    /// Starts disbanding the guild (see [`guild_junk_job`]).
    pub fn guild_junk(&self, packet: Option<GuildJunkPacket>) -> (r: Option<GuildJob>)
        ensures
            r == guild_junk_job(*self, packet),
    {
        let p = match packet {
            Some(p) => p,
            None => return None,
        };
        match self.interact_npc_index {
            Some(npc_index) if self.session_id == Some(p.session_id) && self.map.is_some() =>
                Some(GuildJob::Disband { npc_index }),
            _ => None,
        }
    }

    /// Asks the players around to join a guild about to be founded, when the
    /// request answers the pending session at a guild master, and the founder
    /// has no guild and the gold to found one. `exists` is whether a guild has
    /// that tag or name. An accepted request starts with no founding members.
    pub fn request_guild_creation(
        &mut self,
        session_id: i32,
        guild_name: &String,
        guild_tag: &String,
        npc_is_guild_master: bool,
        ch: &Option<CharacterInfo>,
        exists: bool,
        settings: &Settings,
    ) -> (r: Vec<Effect>)
        ensures
            match *ch {
                Some(c) if old(self).interact_npc_index is Some && old(self).session_is(session_id)
                    && old(self).map is Some && npc_is_guild_master && c.guild_tag is None
                    && c.gold >= settings.guild_create_cost => if exists {
                    *final(self) == *old(self) && r@ == seq![reply(GuildReply::Exists)]
                } else {
                    &&& final(self).guild_create_members@.len() == 0
                    &&& *final(self) == (Player { guild_create_members: final(self).guild_create_members, ..*old(self) })
                    &&& r@.len() == 2
                    &&& r@[0] == reply(GuildReply::CreateBegin)
                    &&& r@[1] matches Effect::ToMap(MapRequest::SendGuildCreateRequests { description })
                    &&& description@ == creation_request_text(c.name@, guild_tag@)
                },
                _ => *final(self) == *old(self) && r@.len() == 0,
            },
    {
        let mut out: Vec<Effect> = Vec::new();
        if self.interact_npc_index.is_none() || self.session_id != Some(session_id) || self.map.is_none() {
            return out;
        }
        if !npc_is_guild_master {
            return out;
        }
        let c = match ch {
            Some(c) => c,
            None => return out,
        };
        if c.guild_tag.is_some() || c.gold < settings.guild_create_cost {
            return out;
        }
        if exists {
            out.push(Effect::Reply(Reply::Guild(GuildReply::Exists)));
            return out;
        }
        self.guild_create_members = Vec::new();
        out.push(Effect::Reply(Reply::Guild(GuildReply::CreateBegin)));
        let description = creation_request(c.name.as_str(), guild_tag.as_str());
        out.push(Effect::ToMap(MapRequest::SendGuildCreateRequests { description }));
        out
    }
}

impl Player {
    /// Handles a packet of the guild family. Open, Accept, Player and Buy are
    /// decided at once; the others start a job (see [`GuildJob`]).
    pub fn handle_guild(&mut self, action: PacketAction, data: &[u8], settings: &Settings) -> (r: (Option<Effect>, Option<GuildJob>))
        ensures
            match action {
                PacketAction::Open => *final(self) == *old(self) && r == (guild_open_effect(*old(self), guild_open_decoded(data@)), None::<GuildJob>),
                PacketAction::Request => r.0 is None && guild_request_gate(*old(self), *final(self), guild_request_decoded(data@), r.1),
                PacketAction::Accept => *final(self) == *old(self) && r == (guild_accept_effect(*old(self), guild_accept_decoded(data@)), None::<GuildJob>),
                PacketAction::Create => r.0 is None && guild_create_gate(*old(self), *final(self), guild_create_decoded(data@), *settings, r.1),
                PacketAction::Player => *final(self) == *old(self) && r == (guild_player_effect(*old(self), guild_player_decoded(data@)), None::<GuildJob>),
                PacketAction::Use => r.0 is None && (*final(self), r.1) == guild_use_gate(*old(self), guild_use_decoded(data@)),
                PacketAction::Kick => *final(self) == *old(self) && r == (None::<Effect>, guild_kick_job(*old(self), guild_kick_decoded(data@))),
                PacketAction::Take => *final(self) == *old(self) && r == (None::<Effect>, guild_take_job(*old(self), guild_take_decoded(data@))),
                PacketAction::Buy => *final(self) == *old(self) && r == (guild_buy_effect(*old(self), guild_buy_decoded(data@), *settings), None::<GuildJob>),
                PacketAction::Agree => *final(self) == *old(self) && r == (None::<Effect>, guild_agree_job(*old(self), guild_agree_decoded(data@))),
                PacketAction::Rank => *final(self) == *old(self) && r == (None::<Effect>, guild_rank_job(*old(self), guild_rank_decoded(data@))),
                PacketAction::Report => *final(self) == *old(self) && r == (None::<Effect>, guild_report_job(*old(self), guild_report_decoded(data@))),
                PacketAction::Tell => *final(self) == *old(self) && r == (None::<Effect>, guild_tell_job(*old(self), guild_tell_decoded(data@))),
                PacketAction::Remove => *final(self) == *old(self) && r == (None::<Effect>, guild_remove_job(*old(self), guild_remove_decoded(data@))),
                PacketAction::Junk => *final(self) == *old(self) && r == (None::<Effect>, guild_junk_job(*old(self), guild_junk_decoded(data@))),
                _ => *final(self) == *old(self) && r == (None::<Effect>, None::<GuildJob>),
            },
    {
        match action {
            PacketAction::Open => (self.guild_open(decode_guild_open(data)), None),
            PacketAction::Request => (None, self.guild_request(decode_guild_request(data))),
            PacketAction::Accept => (self.guild_accept(decode_guild_accept(data)), None),
            PacketAction::Create => (None, self.guild_create(decode_guild_create(data), settings)),
            PacketAction::Player => (self.guild_player(decode_guild_player(data)), None),
            PacketAction::Use => (None, self.guild_use(decode_guild_use(data))),
            PacketAction::Kick => (None, self.guild_kick(decode_guild_kick(data))),
            PacketAction::Take => (None, self.guild_take(decode_guild_take(data))),
            PacketAction::Buy => (self.guild_buy(decode_guild_buy(data), settings), None),
            PacketAction::Agree => (None, self.guild_agree(decode_guild_agree(data))),
            PacketAction::Rank => (None, self.guild_rank(decode_guild_rank(data))),
            PacketAction::Report => (None, self.guild_report(decode_guild_report(data))),
            PacketAction::Tell => (None, self.guild_tell(decode_guild_tell(data))),
            PacketAction::Remove => (None, self.guild_remove(decode_guild_remove(data))),
            PacketAction::Junk => (None, self.guild_junk(decode_guild_junk(data))),
            _ => (None, None),
        }
    }
}

} // verus!
