use reoserv::character::{handle_character, CharacterJob};
use eolib::data::EoWriter;
use reoserv::account::{account_name_checked, account_stored, password_account_exists, password_account_read, password_stored, validation_mail_sent, NewAccount, PasswordCheck};
use reoserv::admin_commands::{AdminCommand, AdminOutcome};
use reoserv::character::{CharacterAnswer, CharacterWork, LoadedCharacter};
use reoserv::character_info::CharacterInfo;
use reoserv::drops::{DropInfo, DropLine, LookupType, AdminInteractTakePacket, NpcDrops, item_drop_lines, npc_drop_lines};
use reoserv::effects::{AccountReply, CharacterReply, CloseReason, Coords, Effect, LoginReply, MapRequest, Notice, Reply, WorldRequest};
use reoserv::login::{handle_login, login_take, login_use, LoginAnswer, LoginCheck, LoginJob, PasswordChange, recovery_mail_sent, FinishLogin, RecoveryMail, StepResult};
use reoserv::packets::{AccountAgreePacket, AccountCreatePacket, CharacterCreatePacket, CharacterRemovePacket, LoginRequestPacket, PacketAction};
use reoserv::player::Player;
use reoserv::player_commands::{Arg, ArgType, Command, PlayerCommands};
use reoserv::settings::Settings;
use reoserv::state::ClientState;
use reoserv::talk::{talk_broadcast_decision, talk_report_decision, TalkJob, TalkOutcome};

fn settings() -> Settings {
    Settings {
        max_players: 100,
        max_login_attempts: 3,
        ping_rate: 2,
        hangup_delay: 10,
        guild_min_players: 3,
        guild_create_cost: 50000,
        guild_recruit_cost: 1000,
        guild_min_deposit: 1000,
        max_hair_color: 9,
        max_hair_style: 20,
        max_skin: 6,
        max_name_length: 12,
        max_title_length: 8,
        max_characters: 3,
        account_recovery: true,
        recovery_show_email: true,
        recovery_mask_email: false,
        account_delay_time: 27,
        email_validation: false,
        info_reveals_drops: true,
        auto_pickup_enabled: true,
        rescue_map: 1,
        rescue_x: 3,
        rescue_y: 4,
    }
}

fn speaker(admin_level: i32) -> CharacterInfo {
    CharacterInfo {
        name: "alice".to_string(),
        admin_level,
        player_id: Some(1),
        has_player: true,
        map_id: 4,
        coords: Coords { x: 1, y: 1 },
        guild_tag: Some("ABC".to_string()),
        guild_name: Some("Alphabet".to_string()),
        guild_rank: Some(9),
        guild_rank_string: Some("New".to_string()),
        gold: 0,
        is_guild_leader: false,
    }
}

fn accepted() -> Player {
    let mut p = Player::new(3, "10.0.0.1".to_string(), false);
    p.state = ClientState::Accepted;
    p
}

fn login(remember: bool) -> Option<LoginRequestPacket> {
    Some(LoginRequestPacket {
        username: "alice".to_string(),
        password: "pw".to_string(),
        remaining: if remember { 1 } else { 0 },
        next_char: if remember { 1 } else { 0 },
    })
}

#[test]
fn plain_talk_is_said_aloud() {
    let cmds = PlayerCommands::default();
    let r = talk_report_decision("hello".to_string(), &Some(speaker(0)), true, &vec![], &cmds, &vec![], &vec![], true);
    assert_eq!(r, TalkOutcome::Do(Effect::ToMap(MapRequest::SendChatMessage { message: "hello".to_string() })));
    let r = talk_report_decision("$kick bob".to_string(), &Some(speaker(0)), true, &vec![], &cmds, &vec![], &vec![], true);
    assert_eq!(r, TalkOutcome::Do(Effect::ToMap(MapRequest::SendChatMessage { message: "$kick bob".to_string() })));
    let r = talk_report_decision("#nothing".to_string(), &Some(speaker(0)), true, &vec![], &cmds, &vec![], &vec![], true);
    assert_eq!(r, TalkOutcome::Do(Effect::ToMap(MapRequest::SendChatMessage { message: "#nothing".to_string() })));
    let r = talk_report_decision("hi".to_string(), &None, true, &vec![], &cmds, &vec![], &vec![], true);
    assert_eq!(r, TalkOutcome::Nothing);
}

#[test]
fn admin_lines_run_commands() {
    let cmds = PlayerCommands::default();
    let admin = vec![AdminCommand {
        name: "global".to_string(),
        usage: "$global".to_string(),
        alias: "g".to_string(),
        args: vec![],
        admin_level: 2,
    }];
    let r = talk_report_decision("$g".to_string(), &Some(speaker(3)), true, &admin, &cmds, &vec![], &vec![], true);
    assert_eq!(r, TalkOutcome::Admin(AdminOutcome::Do(Effect::ToWorld(WorldRequest::ToggleGlobal { admin: "alice".to_string() }))));
    let r = talk_report_decision("$nope".to_string(), &Some(speaker(3)), true, &admin, &cmds, &vec![], &vec![], true);
    assert_eq!(r, TalkOutcome::Admin(AdminOutcome::Do(Effect::Notice(Notice::UnknownCommand("nope".to_string())))));
    let r = talk_report_decision("$g".to_string(), &Some(speaker(1)), true, &admin, &cmds, &vec![], &vec![], true);
    assert_eq!(r, TalkOutcome::Admin(AdminOutcome::Nothing));
    let r = talk_report_decision("$g".to_string(), &Some(speaker(3)), false, &admin, &cmds, &vec![], &vec![], true);
    assert_eq!(r, TalkOutcome::Nothing);
}

#[test]
fn player_lines_run_commands() {
    let cmds = PlayerCommands {
        commands: vec![Command {
            name: "autopickup".to_string(),
            usage: "#autopickup <list|add|remove> [item]".to_string(),
            alias: "ap".to_string(),
            args: vec![Arg { arg_type: ArgType::String, required: true }, Arg { arg_type: ArgType::String, required: false }],
        }],
    };
    let items = vec!["Gold".to_string(), "Eon".to_string()];
    let r = talk_report_decision("#ap add eon".to_string(), &Some(speaker(0)), true, &vec![], &cmds, &items, &vec![], true);
    assert_eq!(r, TalkOutcome::Do(Effect::ToMap(MapRequest::AddAutoPickupItem { item_id: 2 })));
    let r = talk_report_decision("#ap list".to_string(), &Some(speaker(0)), true, &vec![], &cmds, &items, &vec![], true);
    assert_eq!(r, TalkOutcome::Do(Effect::ToMap(MapRequest::ListAutoPickupItems)));
}

#[test]
fn broadcasts_need_rank() {
    assert_eq!(talk_broadcast_decision(TalkJob::Admin("x".to_string()), &Some(speaker(2))), None);
    assert_eq!(
        talk_broadcast_decision(TalkJob::Announce("x".to_string()), &Some(speaker(3))),
        Some(Effect::ToWorld(WorldRequest::BroadcastAnnouncement { name: "alice".to_string(), message: "x".to_string() }))
    );
    assert_eq!(
        talk_broadcast_decision(TalkJob::Guild("x".to_string()), &Some(speaker(0))),
        Some(Effect::ToWorld(WorldRequest::BroadcastGuildMessage {
            guild_tag: "ABC".to_string(),
            name: "alice".to_string(),
            message: "x".to_string(),
        }))
    );
}

#[test]
fn talk_jobs_need_a_map() {
    let mut p = Player::new(1, "ip".to_string(), false);
    let mut w = EoWriter::new();
    w.add_string("hey");
    let data = w.to_byte_array().to_vec();
    assert_eq!(p.handle_talk(PacketAction::Report, &data), (None, None));
    p.map = Some(3);
    assert_eq!(p.handle_talk(PacketAction::Report, &data), (None, Some(TalkJob::Report("hey".to_string()))));
}

#[test]
fn failed_login_step_closes() {
    let mut p = accepted();
    let (r, next) = p.finish_login(FinishLogin::StoreAddress { account_id: 5, token: None }, StepResult::Failed("db".to_string()), &settings());
    assert_eq!(r, vec![
        Effect::ToWorld(WorldRequest::RemovePendingLogin { account_id: 5 }),
        Effect::Close(CloseReason::Failed("db".to_string())),
    ]);
    assert_eq!(next, None);
    assert_eq!(p.state, ClientState::Accepted);
}

#[test]
fn recovery_answers() {
    assert_eq!(login_take(true, &settings()), Some(Effect::Reply(Reply::RecoverTake { accepted: true })));
    assert_eq!(login_take(false, &settings()), None);
    let mail = RecoveryMail { email: "a@b.c".to_string(), account_name: "alice".to_string(), pin: "123".to_string() };
    assert_eq!(
        recovery_mail_sent(mail, Ok(()), &settings()),
        Effect::Reply(Reply::RecoverCreate { found: true, email: Some("a@b.c".to_string()), masked: false })
    );
    let mut p = accepted();
    let (r, mail) = p.recover_account("alice".to_string(), Ok(Some((Some(9), Some("a@b.c".to_string())))), "4321".to_string());
    assert_eq!(r, None);
    assert_eq!(mail.unwrap().pin, "4321");
    assert_eq!(p.account_id, 9);
    assert_eq!(reoserv::login::recovery_pin_checked(&p, Some("4321".to_string())), Some(Effect::Reply(Reply::RecoverPin { ok: true })));
    assert_eq!(reoserv::login::recovery_pin_checked(&p, Some("0000".to_string())), Some(Effect::Reply(Reply::RecoverPin { ok: false })));
}

fn create(session_id: i32, pin: &str) -> Option<AccountCreatePacket> {
    Some(AccountCreatePacket {
        session_id,
        username: "alice".to_string(),
        password: "pw".to_string(),
        full_name: "Alice".to_string(),
        location: "here".to_string(),
        email: "a@b.c".to_string(),
        computer: "pc".to_string(),
        hdid: "1".to_string(),
        pin: pin.to_string(),
    })
}

fn table() -> Vec<NpcDrops> {
    vec![
        NpcDrops { npc_id: 1, drops: vec![
            DropInfo { item_id: 5, min_amount: 0, max_amount: 1, rate: 100 },
            DropInfo { item_id: 5, min_amount: 1, max_amount: 1, rate: 640 },
            DropInfo { item_id: 2, min_amount: 1, max_amount: 3, rate: 32000 },
        ] },
        NpcDrops { npc_id: 2, drops: vec![DropInfo { item_id: 5, min_amount: 2, max_amount: 2, rate: 64000 }] },
        NpcDrops { npc_id: 9, drops: vec![DropInfo { item_id: 5, min_amount: 1, max_amount: 1, rate: 1 }] },
    ]
}

fn line(name: &str, rate: Option<i32>) -> DropLine {
    DropLine { name: name.to_string(), rate }
}

#[test]
fn item_drop_dialog() {
    let npc_names = vec!["Crow".to_string(), "Rat".to_string()];
    assert_eq!(item_drop_lines(5, &table(), &npc_names), vec![
        line(" ", None),
        line("Drops:", None),
        line("Crow", Some(640)),
        line("Rat", Some(64000)),
    ]);
    assert!(item_drop_lines(7, &table(), &npc_names).is_empty());
}

#[test]
fn npc_drop_dialog() {
    let item_names = vec!["Gold".to_string(), "Bread".to_string(), "a".to_string(), "b".to_string(), "Eon".to_string()];
    assert_eq!(npc_drop_lines(1, &table(), &item_names), vec![
        line(" ", None),
        line("Drops:", None),
        line("Eon", Some(640)),
        line("Bread", Some(32000)),
    ]);
    assert!(npc_drop_lines(4, &table(), &item_names).is_empty());
    let mut p = Player::new(1, "ip".to_string(), false);
    p.map = Some(1);
    let take = Some(AdminInteractTakePacket { lookup_type: LookupType::Npc, id: 2 });
    assert_eq!(
        p.admin_interact_take(take, true, &table(), &vec![], &item_names, true),
        Some(Effect::Reply(Reply::AdminInteractAdd { lines: vec![line(" ", None), line("Drops:", None), line("Eon", Some(64000))] }))
    );
    assert_eq!(p.admin_interact_take(take, false, &table(), &vec![], &item_names, true), None);
}

#[test]
fn login_request_packets_decode() {
    let mut w = EoWriter::new();
    w.add_string("alice");
    w.add_byte(0xFF);
    w.add_string("secret");
    w.add_byte(0xFF);
    w.add_char(1).unwrap();
    let data = w.to_byte_array().to_vec();
    match handle_login(PacketAction::Request, &data) {
        Some(LoginJob::Request(Some(p))) => {
            assert_eq!(p.username, "alice");
            assert_eq!(p.password, "secret");
            assert_eq!(p.next_char, 1);
            assert!(p.remaining > 0);
        }
        other => panic!("unexpected {:?}", other),
    }
    assert_eq!(handle_login(PacketAction::Take, &data), Some(LoginJob::Take));
    assert_eq!(handle_login(PacketAction::Kick, &data), None);
}

#[test]
fn character_packets_decode() {
    let mut w = EoWriter::new();
    w.add_short(40).unwrap();
    w.add_int(12).unwrap();
    match handle_character(PacketAction::Remove, &w.to_byte_array()) {
        Some(CharacterJob::Remove(Some(p))) => {
            assert_eq!(p.session_id, 40);
            assert_eq!(p.character_id, 12);
        }
        other => panic!("unexpected {:?}", other),
    }
}

fn run_login(p: &mut Player, first: Option<LoginCheck>, answers: Vec<LoginAnswer>) -> (Vec<Effect>, Option<FinishLogin>) {
    let mut check = first;
    let mut all = vec![];
    let mut finish = None;
    for a in answers {
        let c = check.take().expect("a check is asked for");
        let (r, next, f) = p.login_check(c, a, &settings());
        all.extend(r);
        check = next;
        finish = f;
    }
    assert_eq!(check, None);
    (all, finish)
}

fn full_login(password_ok: bool, logged_in: bool) -> Vec<LoginAnswer> {
    vec![
        LoginAnswer::PlayerCount(1),
        LoginAnswer::Flag(Ok(true)),
        LoginAnswer::Flag(Ok(false)),
        LoginAnswer::Account(Ok(Some((5, password_ok)))),
        LoginAnswer::LoggedIn(logged_in),
    ]
}

#[test]
fn login_before_accept_closes() {
    let p = Player::new(3, "ip".to_string(), false);
    let (r, next) = p.login_request(login(false));
    assert_eq!(r, vec![Effect::Close(CloseReason::LoggingInBeforeAccepted)]);
    assert_eq!(next, None);
}

#[test]
fn wrong_passwords_close_after_the_limit() {
    let mut p = accepted();
    for i in 1..3 {
        let (r, first) = p.login_request(login(false));
        assert!(r.is_empty());
        assert_eq!(first, Some(LoginCheck::CountPlayers { remember: false }));
        let (r, finish) = run_login(&mut p, first, full_login(false, false));
        assert_eq!(r, vec![
            Effect::ToWorld(WorldRequest::AddPendingLogin { account_id: 5 }),
            Effect::ToWorld(WorldRequest::RemovePendingLogin { account_id: 5 }),
            Effect::Reply(Reply::Login(LoginReply::WrongUserPassword)),
        ]);
        assert_eq!(finish, None);
        assert_eq!(p.login_attempts, i);
    }
    let (_, first) = p.login_request(login(false));
    let (r, _) = run_login(&mut p, first, vec![LoginAnswer::PlayerCount(1), LoginAnswer::Flag(Ok(false))]);
    assert_eq!(r, vec![Effect::Close(CloseReason::TooManyLoginAttempts)]);
}

#[test]
fn busy_and_banned_logins() {
    let mut p = accepted();
    let (_, first) = p.login_request(login(false));
    let (r, _) = run_login(&mut p, first, vec![LoginAnswer::PlayerCount(100)]);
    assert_eq!(r, vec![Effect::Reply(Reply::Login(LoginReply::Busy)), Effect::Close(CloseReason::ServerBusy)]);
    assert_eq!(p.login_attempts, 0);
    let (_, first) = p.login_request(login(false));
    let answers = vec![LoginAnswer::PlayerCount(1), LoginAnswer::Flag(Ok(true)), LoginAnswer::Flag(Ok(true))];
    let (r, _) = run_login(&mut p, first, answers);
    assert_eq!(r, vec![Effect::Reply(Reply::Login(LoginReply::Banned)), Effect::Close(CloseReason::AccountBanned)]);
    let (_, first) = p.login_request(login(false));
    let (r, _) = run_login(&mut p, first, vec![LoginAnswer::PlayerCount(1), LoginAnswer::Flag(Err("db".to_string()))]);
    assert_eq!(r, vec![Effect::Close(CloseReason::Failed("db".to_string()))]);
}

#[test]
fn remembered_login_finishes_with_a_token() {
    let mut p = accepted();
    p.deep = true;
    let s = settings();
    let (_, first) = p.login_request(login(true));
    assert_eq!(first, Some(LoginCheck::CountPlayers { remember: true }));
    let (r, next) = run_login(&mut p, first, full_login(true, false));
    assert_eq!(r, vec![Effect::ToWorld(WorldRequest::AddPendingLogin { account_id: 5 })]);
    assert_eq!(next, Some(FinishLogin::MakeToken { account_id: 5 }));
    let (r, next) = p.finish_login(next.unwrap(), StepResult::Done(Some("tok".to_string())), &s);
    assert!(r.is_empty());
    let (r, next) = p.finish_login(next.unwrap(), StepResult::Done(None), &s);
    assert!(r.is_empty());
    assert_eq!(next, Some(FinishLogin::ListCharacters { account_id: 5, token: Some("tok".to_string()) }));
    let (r, next) = p.finish_login(next.unwrap(), StepResult::Done(None), &s);
    assert_eq!(next, None);
    assert_eq!(r, vec![
        Effect::ToWorld(WorldRequest::AddLoggedInAccount { account_id: 5 }),
        Effect::Reply(Reply::LoginConfig { max_skins: 7, max_hair_modals: 20, max_character_name: 12 }),
        Effect::Reply(Reply::Login(LoginReply::Accepted { token: Some("tok".to_string()) })),
    ]);
    assert_eq!(p.state, ClientState::LoggedIn);
    assert_eq!(p.account_id, 5);
}

#[test]
fn logged_in_accounts_are_refused() {
    let mut p = accepted();
    let (_, first) = p.login_request(login(false));
    let (r, next) = run_login(&mut p, first, full_login(true, true));
    assert_eq!(r, vec![
        Effect::ToWorld(WorldRequest::AddPendingLogin { account_id: 5 }),
        Effect::ToWorld(WorldRequest::RemovePendingLogin { account_id: 5 }),
        Effect::Reply(Reply::Login(LoginReply::LoggedIn)),
    ]);
    assert_eq!(next, None);
}

#[test]
fn session_token_logins() {
    let mut w = EoWriter::new();
    w.add_string("abc");
    let data = w.to_byte_array().to_vec();
    let token = match handle_login(PacketAction::Use, &data) {
        Some(LoginJob::Use(token)) => token,
        other => panic!("unexpected {:?}", other),
    };
    assert_eq!(token, "abc");
    assert_eq!(login_use(&token), Some(LoginCheck::LookUpToken));
    assert_eq!(login_use(&String::new()), None);
    let mut p = accepted();
    let s = settings();
    assert_eq!(
        p.login_check(LoginCheck::LookUpToken, LoginAnswer::Session(Ok(Some(4))), &s),
        (vec![], Some(LoginCheck::TokenLoggedIn { account_id: 4 }), None)
    );
    assert_eq!(
        p.login_check(LoginCheck::TokenLoggedIn { account_id: 4 }, LoginAnswer::LoggedIn(false), &s),
        (vec![], None, Some(FinishLogin::MakeToken { account_id: 4 }))
    );
    assert_eq!(
        p.login_check(LoginCheck::LookUpToken, LoginAnswer::Session(Ok(None)), &s),
        (vec![Effect::Reply(Reply::Login(LoginReply::WrongUserPassword))], None, None)
    );
    assert_eq!(
        p.login_check(LoginCheck::TokenLoggedIn { account_id: 4 }, LoginAnswer::LoggedIn(true), &s),
        (vec![Effect::ToWorld(WorldRequest::RemovePendingLogin { account_id: 4 }), Effect::Reply(Reply::Login(LoginReply::LoggedIn))], None, None)
    );
}

#[test]
fn accounts_are_created_in_session() {
    let mut p = accepted();
    p.session_id = Some(50);
    let (r, new) = p.account_create(create(50, ""));
    assert!(r.is_empty());
    let new: NewAccount = new.unwrap();
    assert_eq!(new.register_ip, "10.0.0.1");
    assert_eq!(p.session_id, None);
    assert_eq!(account_name_checked(new.clone(), Ok(false)), (vec![], Some(new.clone())));
    assert_eq!(account_name_checked(new.clone(), Ok(true)), (vec![Effect::Reply(Reply::Account(AccountReply::Exists))], None));
    assert_eq!(account_name_checked(new, Err("db".to_string())), (vec![Effect::Close(CloseReason::Failed("db".to_string()))], None));
    let (r, _) = p.account_create(create(50, ""));
    assert_eq!(r, vec![Effect::Close(CloseReason::MissingSessionId)]);
    p.session_id = Some(50);
    let (r, _) = p.account_create(create(51, ""));
    assert_eq!(r, vec![Effect::Close(CloseReason::WrongSessionId { expected: 50, got: 51 })]);
    p.session_id = Some(50);
    p.email_pin = Some("77".to_string());
    let (r, _) = p.account_create(create(50, "78"));
    assert_eq!(r, vec![Effect::Reply(Reply::Account(AccountReply::WrongPin))]);
    assert_eq!(p.session_id, Some(50));
    assert_eq!(account_stored(Ok(())), Effect::Reply(Reply::Account(AccountReply::Created)));
    assert_eq!(password_stored(Err("x".to_string())), Effect::Close(CloseReason::Failed("x".to_string())));
    assert_eq!(validation_mail_sent(Ok(())), Effect::Reply(Reply::AccountValidated));
}

#[test]
fn free_names_open_a_session() {
    let mut p = accepted();
    p.sequence_start = 12;
    let name = p.account_request(Some(reoserv::packets::AccountRequestPacket { username: "bob".to_string() }));
    assert_eq!(name, Some("bob".to_string()));
    let r = p.account_name_looked_up(Ok(false), &settings());
    let sid = p.session_id.unwrap();
    assert_eq!(r, vec![Effect::Reply(Reply::Account(AccountReply::Continue { session_id: sid, sequence_start: 12 }))]);
    let mut q = Player::new(4, "ip".to_string(), false);
    assert_eq!(q.account_request(Some(reoserv::packets::AccountRequestPacket { username: "bob".to_string() })), None);
    assert_eq!(q.account_name_looked_up(Ok(true), &settings()), vec![Effect::Reply(Reply::Account(AccountReply::Exists))]);
}

#[test]
fn passwords_change_for_logged_in_players() {
    let agree = Some(AccountAgreePacket { username: "alice".to_string(), old_password: "a".to_string(), new_password: "b".to_string() });
    assert_eq!(accepted().account_agree(agree.clone()), None);
    let check = logged_in().account_agree(agree).unwrap();
    assert_eq!(check, PasswordCheck { username: "alice".to_string(), old_password: "a".to_string(), new_password: "b".to_string() });
    assert_eq!(password_account_exists(check.clone(), Ok(true)), (vec![], Some(check.clone())));
    assert_eq!(password_account_exists(check.clone(), Ok(false)), (vec![Effect::Reply(Reply::Account(AccountReply::Exists))], None));
    assert_eq!(
        password_account_read(check.clone(), Ok(Some((8, "alice".to_string(), true)))),
        (vec![], Some(PasswordChange { account_id: 8, account_name: "alice".to_string(), password: "b".to_string() }))
    );
    assert_eq!(
        password_account_read(check, Ok(Some((8, "alice".to_string(), false)))),
        (vec![Effect::Reply(Reply::Account(AccountReply::ChangeFailed))], None)
    );
}

fn logged_in() -> Player {
    let mut p = Player::new(3, "ip".to_string(), false);
    p.state = ClientState::LoggedIn;
    p.account_id = 8;
    p
}

#[test]
fn characters_are_created_in_session() {
    let mut p = logged_in();
    p.session_id = Some(40);
    let s = settings();
    let packet = Some(CharacterCreatePacket { session_id: 40, gender: 0, hair_style: 3, hair_color: 2, skin: 1, name: "alice".to_string() });
    let (r, work) = p.character_create(packet.clone(), true, &s);
    assert!(r.is_empty());
    let work = work.unwrap();
    assert!(matches!(work, CharacterWork::CheckName(ref c) if c.account_id == 8 && c.name == "alice"));
    let (r, next) = p.character_step(work.clone(), CharacterAnswer::Taken(Ok(false)), &s);
    assert!(r.is_empty());
    assert!(matches!(next, Some(CharacterWork::Save(ref c)) if c.name == "alice"));
    assert_eq!(p.session_id, Some(40));
    let (r, _) = p.character_create(packet.clone(), false, &s);
    assert_eq!(r, vec![Effect::Reply(Reply::Character(CharacterReply::NotApproved))]);
    let (r, next) = p.character_step(work, CharacterAnswer::Taken(Err("db".to_string())), &s);
    assert_eq!(r, vec![Effect::Close(CloseReason::Failed("db".to_string())), Effect::Reply(Reply::Character(CharacterReply::Exists))]);
    assert_eq!(next, None);
    let bad_hair = Some(CharacterCreatePacket { session_id: 40, gender: 0, hair_style: 3, hair_color: 10, skin: 1, name: "alice".to_string() });
    assert_eq!(p.character_create(bad_hair, true, &s), (vec![], None));
    assert_eq!(
        p.character_step(CharacterWork::ListCreated, CharacterAnswer::Done(Ok(())), &s),
        (vec![Effect::Reply(Reply::Character(CharacterReply::Created))], None)
    );
    assert_eq!(p.character_step(CharacterWork::Delete { character_id: 1 }, CharacterAnswer::Done(Err("x".to_string())), &s), (vec![], None));
}

#[test]
fn foreign_characters_close_the_connection() {
    let mut p = logged_in();
    let s = settings();
    p.session_id = Some(40);
    let (r, work) = p.character_remove(Some(CharacterRemovePacket { session_id: 40, character_id: 2 }));
    assert!(r.is_empty());
    assert_eq!(work, Some(CharacterWork::LoadForDeletion { character_id: 2 }));
    assert_eq!(p.session_id, None);
    let loaded = CharacterAnswer::Loaded(Ok(LoadedCharacter { name: "eve".to_string(), account_id: 9 }));
    let (r, next) = p.character_step(work.clone().unwrap(), loaded, &s);
    assert_eq!(r, vec![Effect::Close(CloseReason::ForeignCharacter { account_id: 8, character_name: "eve".to_string(), owner_account_id: 9 })]);
    assert_eq!(next, None);
    let mine = CharacterAnswer::Loaded(Ok(LoadedCharacter { name: "ann".to_string(), account_id: 8 }));
    let (r, next) = p.character_step(work.unwrap(), mine, &s);
    assert!(r.is_empty());
    assert_eq!(next, Some(CharacterWork::Delete { character_id: 2 }));
    assert_eq!(
        p.character_step(CharacterWork::Delete { character_id: 2 }, CharacterAnswer::Done(Ok(())), &s),
        (vec![], Some(CharacterWork::ListDeleted))
    );
}

#[test]
fn deleting_without_a_session_closes() {
    let mut p = logged_in();
    let (r, work) = p.character_remove(Some(CharacterRemovePacket { session_id: 40, character_id: 2 }));
    assert_eq!(r, vec![Effect::Close(CloseReason::MissingSessionId)]);
    assert_eq!(work, None);
    p.session_id = Some(41);
    let (r, work) = p.character_remove(Some(CharacterRemovePacket { session_id: 40, character_id: 2 }));
    assert_eq!(r, vec![Effect::Close(CloseReason::WrongSessionId { expected: 41, got: 40 })]);
    assert_eq!(work, None);
}

#[test]
fn full_accounts_make_no_characters() {
    let mut p = logged_in();
    let s = settings();
    let new = Some(reoserv::packets::CharacterRequestPacket { request_string: "NEW".to_string() });
    assert_eq!(p.character_request(new), Some(CharacterWork::Count));
    assert_eq!(
        p.character_step(CharacterWork::Count, CharacterAnswer::Count(Ok(3)), &s),
        (vec![Effect::Reply(Reply::Character(CharacterReply::Full))], None)
    );
    assert_eq!(p.session_id, None);
    let (r, _) = p.character_step(CharacterWork::Count, CharacterAnswer::Count(Ok(2)), &s);
    let sid = p.session_id.unwrap();
    assert_eq!(r, vec![Effect::Reply(Reply::Character(CharacterReply::Continue { session_id: sid }))]);
    let other = Some(reoserv::packets::CharacterRequestPacket { request_string: "OLD".to_string() });
    assert_eq!(p.character_request(other), None);
}
