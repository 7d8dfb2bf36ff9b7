use reoserv::character_info::CharacterInfo;
use reoserv::effects::{Coords, Effect, GuildReply, MapRequest, Notice, Reply, WorldRequest};
use reoserv::guild::{
    capitalize, changed_ranks, creation_request, guild_agree_decision, guild_create_decision, guild_description, guild_disband_decision, guild_kick_decision,
    guild_leave_decision, guild_master, guild_rank_decision, guild_recruit_decision, guild_report_decision,
    guild_request_decision, guild_take_decision, guild_tell_decision, pad_rank, wealth, GuildInfo, GuildMember,
    rank_progress, GuildRow, GuildStep, GuildWrite, Lookup, RankProgress,
};
use reoserv::notices::{arg_error_text, notice_text};
use reoserv::player_commands::{validate_args, Arg, ArgError, ArgType, Command};
use reoserv::packets::GuildAgreeInfo;
use reoserv::player::Player;
use reoserv::settings::Settings;
use reoserv::text::{count_text, signed_text, decimal_text, join_first, parse_bool, parse_i32, parse_u32, split_words, to_lowercase, to_uppercase};

fn settings() -> Settings {
    Settings {
        max_players: 100,
        max_login_attempts: 3,
        ping_rate: 2,
        hangup_delay: 10,
        guild_min_players: 3,
        guild_create_cost: 50000,
        guild_recruit_cost: 1000,
        guild_min_deposit: 1000,
        max_hair_color: 9,
        max_hair_style: 20,
        max_skin: 6,
        max_name_length: 12,
        max_title_length: 8,
        max_characters: 3,
        account_recovery: true,
        recovery_show_email: true,
        recovery_mask_email: false,
        account_delay_time: 27,
        email_validation: false,
        info_reveals_drops: true,
        auto_pickup_enabled: true,
        rescue_map: 1,
        rescue_x: 3,
        rescue_y: 4,
    }
}

fn ch(name: &str, tag: Option<&str>, rank: Option<i32>, leader: bool) -> CharacterInfo {
    CharacterInfo {
        name: name.to_string(),
        admin_level: 0,
        player_id: Some(1),
        has_player: true,
        map_id: 4,
        coords: Coords { x: 1, y: 1 },
        guild_tag: tag.map(|t| t.to_string()),
        guild_name: tag.map(|_| "Guild".to_string()),
        guild_rank: rank,
        guild_rank_string: rank.map(|_| "Rank".to_string()),
        gold: 60000,
        is_guild_leader: leader,
    }
}

fn reply(code: GuildReply) -> Effect {
    Effect::Reply(Reply::Guild(code))
}

#[test]
fn numbers_parse_like_std() {
    assert_eq!(parse_u32("0"), Some(0));
    assert_eq!(parse_u32("+12"), Some(12));
    assert_eq!(parse_u32("4294967295"), Some(u32::MAX));
    assert_eq!(parse_u32("4294967296"), None);
    assert_eq!(parse_u32("-1"), None);
    assert_eq!(parse_u32(""), None);
    assert_eq!(parse_u32("1a"), None);
    assert_eq!(parse_i32("-2147483648"), Some(i32::MIN));
    assert_eq!(parse_i32("2147483648"), None);
    assert_eq!(parse_i32("-"), None);
    assert_eq!(parse_bool("true"), Some(true));
    assert_eq!(parse_bool("false"), Some(false));
    assert_eq!(parse_bool("True"), None);
}

#[test]
fn decimal_text_round_trips() {
    for n in [0u32, 7, 10, 99, 12345, u32::MAX] {
        assert_eq!(decimal_text(n), n.to_string());
        assert_eq!(parse_u32(&decimal_text(n)), Some(n));
    }
}

#[test]
fn words_and_joins() {
    let words = split_words("  spawn  item\tname ");
    assert_eq!(words, vec!["spawn".to_string(), "item".to_string(), "name".to_string()]);
    assert_eq!(join_first(&words, 2, " "), "spawn item");
    assert_eq!(join_first(&words, 0, " "), "");
    assert_eq!(to_lowercase("AbC"), "abc");
    assert_eq!(to_uppercase("abC"), "ABC");
}

#[test]
fn capitalize_first_letter() {
    assert_eq!(capitalize("alice"), "Alice");
    assert_eq!(capitalize(""), "");
    assert_eq!(capitalize("élan"), "Élan");
    assert_eq!(creation_request("ALICE", "abc"), "Alice (ABC)");
}

#[test]
fn wealth_classes() {
    assert_eq!(wealth(-5), "bankrupt");
    assert_eq!(wealth(1999), "bankrupt");
    assert_eq!(wealth(2000), "poor");
    assert_eq!(wealth(9999), "poor");
    assert_eq!(wealth(10000), "normal");
    assert_eq!(wealth(49999), "normal");
    assert_eq!(wealth(50000), "wealthy");
    assert_eq!(wealth(99999), "wealthy");
    assert_eq!(wealth(100000), "very wealthy");
}

#[test]
fn rank_names_are_padded() {
    assert_eq!(pad_rank(&"ab".to_string()), "ab  ");
    assert_eq!(pad_rank(&"".to_string()), "    ");
    assert_eq!(pad_rank(&"leader".to_string()), "leader");
}

#[test]
fn empty_descriptions_show_a_space() {
    assert_eq!(guild_description(None), " ");
    assert_eq!(guild_description(Some(String::new())), " ");
    assert_eq!(guild_description(Some("hi".to_string())), "hi");
}

#[test]
fn guild_master_by_npc_id() {
    let masters = vec![false, true];
    assert!(guild_master(Some(2), &masters));
    assert!(!guild_master(Some(1), &masters));
    assert!(!guild_master(Some(0), &masters));
    assert!(!guild_master(Some(3), &masters));
    assert!(!guild_master(None, &masters));
}

#[test]
fn only_changed_ranks_are_written() {
    let existing: Vec<String> = ["a", "b", "c"].iter().map(|s| s.to_string()).collect();
    let ranks: Vec<String> = ["a", "x", "c"].iter().map(|s| s.to_string()).collect();
    assert_eq!(changed_ranks(&existing, &ranks), vec![(1usize, "x".to_string())]);
    assert!(changed_ranks(&existing, &existing).is_empty());
}

#[test]
fn guild_request_needs_candidates() {
    let s = settings();
    let founder = Some(ch("alice", None, None, false));
    let tag = "abc".to_string();
    assert_eq!(guild_request_decision(&founder, &tag, false, true, false, 5, &s), vec![reply(GuildReply::NotApproved)]);
    assert_eq!(guild_request_decision(&founder, &tag, true, true, true, 5, &s), vec![reply(GuildReply::Exists)]);
    assert_eq!(guild_request_decision(&founder, &tag, true, true, false, 2, &s), vec![reply(GuildReply::NoCandidates)]);
    assert_eq!(
        guild_request_decision(&founder, &tag, true, true, false, 3, &s),
        vec![
            reply(GuildReply::CreateBegin),
            Effect::ToMap(MapRequest::SendGuildCreateRequests { description: "Alice (ABC)".to_string() }),
        ]
    );
    let mut poor = ch("alice", None, None, false);
    poor.gold = 10;
    assert!(guild_request_decision(&Some(poor), &tag, true, true, false, 3, &s).is_empty());
    assert!(guild_request_decision(&None, &tag, true, true, false, 3, &s).is_empty());
}

#[test]
fn recruiting_charges_the_guild_bank() {
    let s = settings();
    let recruiter = Some(ch("bob", Some("ABC"), Some(1), false));
    match guild_recruit_decision(&recruiter, 9, 5000, Some("Guild".to_string()), Some("New".to_string()), &s) {
        GuildStep::Write { write: GuildWrite::SetBank { guild_tag, bank }, then } => {
            assert_eq!(guild_tag, "ABC");
            assert_eq!(bank, 4000);
            assert_eq!(then, vec![Effect::ToMap(MapRequest::JoinGuild {
                player_id: 9,
                guild_tag: "ABC".to_string(),
                guild_name: "Guild".to_string(),
                rank_string: "New".to_string(),
            })]);
        }
        other => panic!("unexpected {:?}", other),
    }
    assert_eq!(guild_recruit_decision(&recruiter, 9, 999, None, None, &s), GuildStep::Done(vec![reply(GuildReply::AccountLow)]));
    let member = Some(ch("bob", Some("ABC"), Some(5), false));
    assert_eq!(guild_recruit_decision(&member, 9, 5000, None, None, &s), GuildStep::Done(vec![]));
}

#[test]
fn kicking_members() {
    let leader = Some(ch("bob", Some("ABC"), Some(1), true));
    let mut member = ch("carl", Some("ABC"), Some(5), false);
    member.player_id = Some(33);
    member.map_id = 8;
    assert_eq!(
        guild_kick_decision(&leader, &Some(member.clone()), true),
        vec![
            Effect::ToMapOf { map_id: 8, request: MapRequest::KickFromGuild { player_id: 33 } },
            reply(GuildReply::Removed),
        ]
    );
    assert_eq!(guild_kick_decision(&leader, &None, true), vec![Effect::Notice(Notice::OfflineKickUnsupported)]);
    let stranger = ch("dan", Some("XYZ"), Some(5), false);
    assert_eq!(guild_kick_decision(&leader, &Some(stranger), true), vec![reply(GuildReply::RemoveNotMember)]);
    let other_leader = ch("eve", Some("ABC"), Some(1), true);
    assert_eq!(guild_kick_decision(&leader, &Some(other_leader), true), vec![reply(GuildReply::RemoveLeader)]);
    assert!(guild_kick_decision(&Some(member), &None, true).is_empty());
}

#[test]
fn ranking_members() {
    let leader = Some(ch("bob", Some("ABC"), Some(1), true));
    let ranks: Vec<String> = (1..=9).map(|i| format!("r{}", i)).collect();
    let mut member = ch("carl", Some("ABC"), Some(5), false);
    member.player_id = Some(33);
    assert_eq!(
        guild_rank_decision(true, &leader, 3, &ranks, &Some(member), true),
        vec![
            Effect::ToMapOf { map_id: 4, request: MapRequest::UpdateGuildRank { player_id: 33, rank: 3, rank_string: "r3".to_string() } },
            reply(GuildReply::Updated),
        ]
    );
    assert_eq!(guild_rank_decision(true, &leader, 3, &ranks, &None, true), vec![Effect::Notice(Notice::OfflineRankUnsupported)]);
    assert!(guild_rank_decision(false, &leader, 3, &ranks, &None, true).is_empty());
}

#[test]
fn guild_info_answers() {
    let member = Some(ch("bob", Some("ABC"), Some(5), false));
    assert_eq!(guild_take_decision(true, &member, GuildInfo::Bank(70)), Some(Effect::Reply(Reply::GuildSell { gold_amount: 70 })));
    assert_eq!(
        guild_take_decision(true, &member, GuildInfo::Description(Some(String::new()))),
        Some(Effect::Reply(Reply::GuildTake { description: " ".to_string() }))
    );
    let ranks: Vec<String> = (1..=10).map(|i| format!("r{}", i)).collect();
    match guild_take_decision(true, &member, GuildInfo::Ranks(ranks)) {
        Some(Effect::Reply(Reply::GuildRank { ranks })) => assert_eq!(ranks.len(), 9),
        other => panic!("unexpected {:?}", other),
    }
    let loner = Some(ch("bob", None, None, false));
    assert_eq!(guild_take_decision(true, &loner, GuildInfo::Bank(70)), None);
}

#[test]
fn guild_report_details() {
    let asker = Some(ch("bob", None, None, false));
    let row = GuildRow {
        tag: "ABC".to_string(),
        name: "Alphabet".to_string(),
        description: "d".to_string(),
        bank: 12000,
        create_date: "2024-01-02".to_string(),
    };
    let ranks = vec!["Leader".to_string(), "R".to_string()];
    match guild_report_decision(&asker, true, Lookup::Found(row), Some(vec![(1, "amy".to_string())]), &ranks) {
        Some(Effect::Reply(Reply::GuildReport(d))) => {
            assert_eq!(d.wealth, "normal");
            assert_eq!(d.ranks.len(), 9);
            assert_eq!(d.ranks[0], "Leader");
            assert_eq!(d.ranks[1], "R   ");
            assert_eq!(d.ranks[8], "    ");
            assert_eq!(d.staff, vec![(1, "amy".to_string())]);
        }
        other => panic!("unexpected {:?}", other),
    }
    assert_eq!(guild_report_decision(&asker, true, Lookup::Missing, None, &ranks), Some(reply(GuildReply::NotFound)));
    assert_eq!(guild_report_decision(&asker, true, Lookup::Failed, None, &ranks), None);
}

#[test]
fn guild_member_lists() {
    let asker = Some(ch("bob", None, None, false));
    assert_eq!(guild_tell_decision(&asker, true, Some(vec![])), Some(reply(GuildReply::NotFound)));
    let m = vec![GuildMember { rank: 1, name: "amy".to_string(), rank_name: "Leader".to_string() }];
    assert_eq!(guild_tell_decision(&asker, true, Some(m.clone())), Some(Effect::Reply(Reply::GuildTell { members: m })));
}

#[test]
fn the_last_leader_stays() {
    let leader = Some(ch("bob", Some("ABC"), Some(1), true));
    let kept = guild_leave_decision(&leader, 5, Lookup::Found(1));
    assert_eq!(kept.len(), 3);
    assert_eq!(kept[0], Effect::Notice(Notice::LastGuildLeader));
    assert_eq!(kept[2], Effect::Reply(Reply::GuildAccept { rank: 1 }));
    assert_eq!(guild_leave_decision(&leader, 5, Lookup::Found(2)), vec![Effect::ToMap(MapRequest::LeaveGuild)]);
    assert_eq!(guild_leave_decision(&leader, 5, Lookup::Missing).len(), 3);
    assert!(guild_leave_decision(&leader, 5, Lookup::Failed).is_empty());
    let member = Some(ch("bob", Some("ABC"), Some(4), false));
    assert_eq!(guild_leave_decision(&member, 5, Lookup::Failed), vec![Effect::ToMap(MapRequest::LeaveGuild)]);
}

#[test]
fn only_leaders_disband() {
    let leader = Some(ch("bob", Some("ABC"), Some(1), true));
    assert_eq!(guild_disband_decision(true, &leader), Some(Effect::ToWorld(WorldRequest::DisbandGuild { guild_tag: "ABC".to_string() })));
    let member = Some(ch("bob", Some("ABC"), Some(4), false));
    assert_eq!(guild_disband_decision(true, &member), None);
    assert_eq!(guild_disband_decision(false, &leader), None);
}

#[test]
fn founding_a_guild_writes_first() {
    let s = settings();
    let founder = Some(ch("alice", None, None, false));
    let step = guild_create_decision(&founder, &"abc".to_string(), &"Alphabet".to_string(), &"desc".to_string(), vec![4, 5], true, false, &s);
    match step {
        GuildStep::Write { write: GuildWrite::CreateGuild { guild_tag, guild_name, description }, then } => {
            assert_eq!(guild_tag, "ABC");
            assert_eq!(guild_name, "Alphabet");
            assert_eq!(description, "desc");
            assert_eq!(then, vec![Effect::ToMap(MapRequest::FinishGuildCreation {
                members: vec![4, 5],
                guild_tag: "ABC".to_string(),
                guild_name: "Alphabet".to_string(),
            })]);
        }
        other => panic!("unexpected {:?}", other),
    }
    assert_eq!(
        guild_create_decision(&founder, &"abc".to_string(), &"A".to_string(), &"d".to_string(), vec![], false, false, &s),
        GuildStep::Done(vec![reply(GuildReply::NotApproved)])
    );
    assert_eq!(
        guild_create_decision(&founder, &"abc".to_string(), &"A".to_string(), &"d".to_string(), vec![], true, true, &s),
        GuildStep::Done(vec![reply(GuildReply::Exists)])
    );
}

#[test]
fn changing_ranks_writes_the_changes() {
    let recruiter = Some(ch("bob", Some("ABC"), Some(1), false));
    let existing: Vec<String> = ["a", "b", "c"].iter().map(|s| s.to_string()).collect();
    let ranks: Vec<String> = ["a", "b", "z"].iter().map(|s| s.to_string()).collect();
    match guild_agree_decision(true, &recruiter, GuildAgreeInfo::Ranks(ranks), true, &existing) {
        GuildStep::Write { write: GuildWrite::SetRanks { guild_tag, changes }, then } => {
            assert_eq!(guild_tag, "ABC");
            assert_eq!(changes, vec![(2usize, "z".to_string())]);
            assert_eq!(then, vec![reply(GuildReply::RanksUpdated)]);
        }
        other => panic!("unexpected {:?}", other),
    }
    match guild_agree_decision(true, &recruiter, GuildAgreeInfo::Description("new".to_string()), true, &existing) {
        GuildStep::Write { write: GuildWrite::SetDescription { guild_tag, description }, then } => {
            assert_eq!(guild_tag, "ABC");
            assert_eq!(description, "new");
            assert_eq!(then, vec![reply(GuildReply::Updated)]);
        }
        other => panic!("unexpected {:?}", other),
    }
    let member = Some(ch("bob", Some("ABC"), Some(4), false));
    assert_eq!(guild_agree_decision(true, &member, GuildAgreeInfo::Description("x".to_string()), true, &existing), GuildStep::Done(vec![]));
    assert_eq!(guild_agree_decision(true, &recruiter, GuildAgreeInfo::Description("x".to_string()), false, &existing), GuildStep::Done(vec![]));
}

#[test]
fn guild_creation_requests_go_out() {
    let s = settings();
    let mut p = Player::new(1, "ip".to_string(), false);
    p.map = Some(2);
    p.session_id = Some(60);
    p.interact_npc_index = Some(1);
    p.guild_create_members = vec![9];
    let founder = Some(ch("ALICE", None, None, false));
    let r = p.request_guild_creation(60, &"Alphabet".to_string(), &"abc".to_string(), true, &founder, false, &s);
    assert_eq!(r, vec![
        reply(GuildReply::CreateBegin),
        Effect::ToMap(MapRequest::SendGuildCreateRequests { description: "Alice (ABC)".to_string() }),
    ]);
    assert!(p.guild_create_members.is_empty());
    p.guild_create_members = vec![9];
    assert_eq!(p.request_guild_creation(60, &"A".to_string(), &"abc".to_string(), true, &founder, true, &s), vec![reply(GuildReply::Exists)]);
    assert_eq!(p.guild_create_members, vec![9]);
    assert!(p.request_guild_creation(61, &"A".to_string(), &"abc".to_string(), true, &founder, false, &s).is_empty());
}

#[test]
fn unreadable_banks_are_empty() {
    assert_eq!(reoserv::guild::guild_bank_balance(Lookup::Found(250)), 250);
    assert_eq!(reoserv::guild::guild_bank_balance(Lookup::Missing), 0);
    assert_eq!(reoserv::guild::guild_bank_balance(Lookup::Failed), 0);
}

fn usage_command() -> Command {
    Command {
        name: "t".to_string(),
        usage: "u".to_string(),
        alias: "".to_string(),
        args: vec![Arg { arg_type: ArgType::UInt, required: true }, Arg { arg_type: ArgType::Bool, required: false }],
    }
}

#[test]
fn refused_arguments_are_explained() {
    let cmd = usage_command();
    let none: Vec<String> = vec![];
    let e = validate_args(&none, &cmd).unwrap_err();
    assert_eq!(arg_error_text(&e), "Wrong number of args. Got 0, expected: 1. (usage: \"u\")");
    let many = vec!["5".to_string(), "true".to_string(), "x".to_string()];
    let e = validate_args(&many, &cmd).unwrap_err();
    assert_eq!(arg_error_text(&e), "Too many args. Got 3, expected: 2. (usage: \"u\")");
    let negative = vec!["-1".to_string()];
    let e = validate_args(&negative, &cmd).unwrap_err();
    assert_eq!(notice_text(&Notice::BadArgs(e)), "Invalid arg type. Got -1, expected: UInt. (usage: \"u\")");
    let flag = vec!["5".to_string(), "yes".to_string()];
    let e = validate_args(&flag, &cmd).unwrap_err();
    assert_eq!(arg_error_text(&e), "Invalid arg type. Got yes, expected: Bool. (usage: \"u\")");
    let e = ArgError::InvalidType { got: "x".to_string(), expected: ArgType::String, usage: "v".to_string() };
    assert_eq!(arg_error_text(&e), "Invalid arg type. Got x, expected: String. (usage: \"v\")");
}

#[test]
fn notices_read_as_sent() {
    assert_eq!(notice_text(&Notice::UnknownCommand("x".to_string())), "Unknown command: x");
    assert_eq!(notice_text(&Notice::Unimplemented("jail".to_string())), "Unimplemented command: jail");
    assert_eq!(notice_text(&Notice::NoItemNamed("eon".to_string())), "No item found with name \"eon\".");
    assert_eq!(notice_text(&Notice::NoNpcNamed("crow".to_string())), "No npc found with name \"crow\".");
    assert_eq!(notice_text(&Notice::NoSuchMap(282)), "Map 282 does not exist.");
    assert_eq!(notice_text(&Notice::NoSuchMap(-7)), "Map -7 does not exist.");
    assert_eq!(notice_text(&Notice::InvalidAutopickupArgument), "Invalid argument. Must be \"list\", \"add\", or \"remove\".");
    assert_eq!(notice_text(&Notice::OfflineKickUnsupported), "Offline kicking not currently supported");
    assert_eq!(notice_text(&Notice::OfflineRankUnsupported), "Offline rank updating not currently supported");
    assert_eq!(
        notice_text(&Notice::LastGuildLeader),
        "You are the last leader and cannot leave the guild. You must promote someone else to leader first."
    );
}

#[test]
fn numbers_read_as_to_string() {
    assert_eq!(count_text(0), "0");
    assert_eq!(count_text(1907), "1907");
    assert_eq!(signed_text(i32::MIN), i32::MIN.to_string());
    assert_eq!(signed_text(-40), "-40");
    assert_eq!(signed_text(i32::MAX), i32::MAX.to_string());
}

#[test]
fn rank_writes_stop_at_the_first_failure() {
    let changes = vec![(1usize, "Lord".to_string()), (4usize, "Page".to_string())];
    assert_eq!(rank_progress(&changes, 0, Ok(())), RankProgress::Next(1, "Lord".to_string()));
    assert_eq!(rank_progress(&changes, 1, Ok(())), RankProgress::Next(4, "Page".to_string()));
    assert_eq!(rank_progress(&changes, 2, Ok(())), RankProgress::AllWritten);
    assert_eq!(rank_progress(&changes, 1, Err("db".to_string())), RankProgress::Stopped);
}

#[test]
fn words_split_as_split_whitespace() {
    let samples = [
        "",
        "   ",
        "one",
        " one two ",
        "a\u{3000}b\u{a0}c\u{2009}d\u{85}e\u{1680}f",
        "\t\n\u{b}\u{c}\rx\u{2028}y\u{2029}z\u{202f}w\u{205f}v",
        "no\u{200b}break",
    ];
    for s in samples {
        let expected: Vec<String> = s.split_whitespace().map(|w| w.to_string()).collect();
        assert_eq!(split_words(s), expected);
    }
    assert_eq!(split_words("a\u{3000}b"), vec!["a".to_string(), "b".to_string()]);
    assert_eq!(split_words("no\u{200b}break"), vec!["no\u{200b}break".to_string()]);
}
