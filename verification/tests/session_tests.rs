use eolib::data::EoWriter;
use reoserv::effects::{CloseReason, Coords, Effect, MapRequest, Reply, SpellTarget, WarpAgree, WarpAnnouncement, WarpEffect, WorldRequest};
use reoserv::packets::PacketAction;
use reoserv::quest_action::QuestArg;
use reoserv::player::{Action, Captcha, MissingSessionIdError, Player};
use reoserv::settings::Settings;
use reoserv::state::ClientState;

fn on_map() -> Player {
    let mut p = Player::new(7, "127.0.0.1".to_string(), false);
    p.map = Some(5);
    p.state = ClientState::InGame;
    p
}

fn settings() -> Settings {
    Settings {
        max_players: 100,
        max_login_attempts: 3,
        ping_rate: 2,
        hangup_delay: 10,
        guild_min_players: 3,
        guild_create_cost: 50000,
        guild_recruit_cost: 1000,
        guild_min_deposit: 1000,
        max_hair_color: 9,
        max_hair_style: 20,
        max_skin: 6,
        max_name_length: 12,
        max_title_length: 8,
        max_characters: 3,
        account_recovery: true,
        recovery_show_email: true,
        recovery_mask_email: false,
        account_delay_time: 27,
        email_validation: false,
        info_reveals_drops: true,
        auto_pickup_enabled: true,
        rescue_map: 1,
        rescue_x: 3,
        rescue_y: 4,
    }
}

fn bytes(w: EoWriter) -> Vec<u8> {
    w.to_byte_array().to_vec()
}

#[test]
fn new_player_starts_uninitialized() {
    let p = Player::new(3, "1.2.3.4".to_string(), true);
    assert_eq!(p.id, 3);
    assert_eq!(p.state, ClientState::Uninitialized);
    assert!(p.deep);
    assert_eq!(p.session_id, None);
    assert!(!p.need_pong);
}

#[test]
fn session_id_is_used_once() {
    let mut p = on_map();
    p.session_id = Some(42);
    assert_eq!(p.take_session_id(), Ok(42));
    assert_eq!(p.take_session_id(), Err(MissingSessionIdError));
    assert_eq!(p.session_id, None);
}

#[test]
fn generated_session_is_taken_next() {
    let mut p = on_map();
    for _ in 0..50 {
        let id = p.generate_session_id();
        assert!((10..64009).contains(&id));
        assert_eq!(p.take_session_id(), Ok(id));
    }
}

#[test]
fn record_action_copies_the_player() {
    let mut p = on_map();
    p.account_id = 11;
    p.character_id = 12;
    let r = p.record_action_with_details(Action { id: 4 }, "gave 3 gold");
    assert_eq!(r.account_id, 11);
    assert_eq!(r.character_id, 12);
    assert_eq!(r.action_id, 4);
    assert_eq!(r.ip, "127.0.0.1");
    assert_eq!(r.details, "gave 3 gold");
    assert_eq!(p.record_action(Action { id: 9 }).details, "");
}

#[test]
fn request_warp_announces_and_remembers() {
    let mut p = on_map();
    let local = p.request_warp(5, Coords { x: 1, y: 2 }, true, None);
    let sid = p.session_id.unwrap();
    assert!((10..64009).contains(&sid));
    assert_eq!(local, WarpAnnouncement::Local { map_id: 5, session_id: sid });
    let switch = p.request_warp(9, Coords { x: 3, y: 4 }, false, Some(WarpEffect::Scroll));
    let sid = p.session_id.unwrap();
    assert_eq!(switch, WarpAnnouncement::MapSwitch { map_id: 9, session_id: sid });
    assert_eq!(p.warp_session.unwrap().map_id, 9);
}

#[test]
fn warp_accept_switches_map() {
    let mut p = on_map();
    p.trading = true;
    p.interact_npc_index = Some(2);
    p.request_warp(9, Coords { x: 3, y: 4 }, false, None);
    let sid = p.session_id.unwrap();
    let mut w = EoWriter::new();
    w.add_short(9).unwrap();
    w.add_short(sid).unwrap();
    let data = bytes(w);
    assert_eq!(reoserv::warp::warp_accept_map_id(&data), Some(9));
    let r = p.handle_warp(PacketAction::Accept, &data, true, true, false, &settings());
    assert_eq!(r.len(), 2);
    assert_eq!(r[0], Effect::ToMap(MapRequest::LeaveMap { animation: None, interact_player_id: None }));
    assert_eq!(
        r[1],
        Effect::Arrive {
            map_id: 9,
            character_map_id: 9,
            coords: Coords { x: 3, y: 4 },
            animation: None,
            agree: WarpAgree::MapSwitch { map_id: 9, effect: WarpEffect::NoEffect },
        }
    );
    assert_eq!(p.map, Some(9));
    assert!(!p.trading);
    assert_eq!(p.interact_npc_index, None);
}

#[test]
fn warp_accept_falls_back_to_rescue_map() {
    let mut p = on_map();
    p.request_warp(9, Coords { x: 3, y: 4 }, false, Some(WarpEffect::Scroll));
    let sid = p.session_id.unwrap();
    let mut w = EoWriter::new();
    w.add_short(9).unwrap();
    w.add_short(sid).unwrap();
    let r = p.handle_warp(PacketAction::Accept, &bytes(w), false, true, false, &settings());
    assert_eq!(
        r[1],
        Effect::Arrive {
            map_id: 1,
            character_map_id: 1,
            coords: Coords { x: 3, y: 4 },
            animation: Some(WarpEffect::Scroll),
            agree: WarpAgree::MapSwitch { map_id: 1, effect: WarpEffect::Scroll },
        }
    );
    assert_eq!(p.map, Some(1));
}

#[test]
fn warp_accept_needs_the_session() {
    let mut p = on_map();
    p.request_warp(9, Coords { x: 3, y: 4 }, true, None);
    let mut w = EoWriter::new();
    w.add_short(9).unwrap();
    w.add_short(3).unwrap();
    let before = p.clone();
    let r = p.handle_warp(PacketAction::Accept, &bytes(w), true, true, false, &settings());
    assert!(r.is_empty());
    assert_eq!(p.map, before.map);
    assert_eq!(p.session_id, before.session_id);
}

#[test]
fn connection_accept_checks_the_handshake() {
    let mut p = Player::new(7, "ip".to_string(), false);
    p.client_encryption_multiple = 6;
    p.server_encryption_multiple = 9;
    let mut w = EoWriter::new();
    w.add_short(6).unwrap();
    w.add_short(9).unwrap();
    w.add_short(7).unwrap();
    assert_eq!(p.handle_connection(PacketAction::Accept, &bytes(w)), None);
    assert_eq!(p.state, ClientState::Accepted);

    let mut q = Player::new(7, "ip".to_string(), false);
    let mut w = EoWriter::new();
    w.add_short(0).unwrap();
    w.add_short(0).unwrap();
    w.add_short(8).unwrap();
    assert_eq!(
        q.handle_connection(PacketAction::Accept, &bytes(w)),
        Some(Effect::Close(CloseReason::WrongConnectionId { got: 8, expected: 7 }))
    );
    assert_eq!(q.state, ClientState::Uninitialized);
    // reading past the end of a packet gives zeros
    assert_eq!(
        q.handle_connection(PacketAction::Accept, &[]),
        Some(Effect::Close(CloseReason::WrongConnectionId { got: 0, expected: 7 }))
    );
}

#[test]
fn connection_accept_checks_multiples() {
    let mut p = Player::new(7, "ip".to_string(), false);
    p.client_encryption_multiple = 6;
    p.server_encryption_multiple = 9;
    let mut w = EoWriter::new();
    w.add_short(5).unwrap();
    w.add_short(9).unwrap();
    w.add_short(7).unwrap();
    assert_eq!(
        p.handle_connection(PacketAction::Accept, &bytes(w)),
        Some(Effect::Close(CloseReason::WrongEncodingMultiples {
            got_server: 9,
            got_client: 5,
            expected_server: 9,
            expected_client: 6,
        }))
    );
}

#[test]
fn unanswered_ping_closes() {
    let mut p = on_map();
    match p.ping() {
        Some(Effect::Reply(Reply::ConnectionPlayer { seq1, seq2 })) => {
            assert!((0..=243).contains(&p.sequence_start));
            assert_eq!(seq2, seq1 - p.sequence_start);
            assert!(seq1 >= p.sequence_start && seq1 <= p.sequence_start + 252);
        }
        other => panic!("unexpected {:?}", other),
    }
    assert!(p.need_pong);
    assert_eq!(p.ping(), Some(Effect::Close(CloseReason::PingTimeout)));
}

#[test]
fn answered_ping_pings_again() {
    let mut p = on_map();
    p.ping();
    assert_eq!(p.handle_connection(PacketAction::Ping, &[]), None);
    assert!(!p.need_pong);
    assert!(matches!(p.ping(), Some(Effect::Reply(Reply::ConnectionPlayer { .. }))));
}

#[test]
fn no_ping_before_handshake() {
    let mut p = Player::new(1, "ip".to_string(), false);
    assert_eq!(p.ping(), None);
    assert!(!p.need_pong);
}

#[test]
fn tick_pings_at_the_rate() {
    let mut p = on_map();
    assert_eq!(p.tick(2, 10, 0), (true, None));
    assert_eq!(p.ping_ticks, 1);
    let (open, e) = p.tick(2, 10, 0);
    assert!(open);
    assert!(matches!(e, Some(Effect::Reply(Reply::ConnectionPlayer { .. }))));
    assert_eq!(p.ping_ticks, 0);
    p.tick(2, 10, 0);
    assert_eq!(p.tick(2, 10, 0), (false, Some(Effect::Close(CloseReason::PingTimeout))));
}

#[test]
fn tick_hangs_up_on_silent_connections() {
    let mut p = Player::new(1, "ip".to_string(), false);
    assert_eq!(p.tick(100, 10, 11), (false, Some(Effect::Close(CloseReason::HandshakeTimeout(10)))));
    let mut q = Player::new(1, "ip".to_string(), false);
    assert_eq!(q.tick(100, 10, 10), (true, None));
}

#[test]
fn message_ping_gets_pong() {
    let mut p = on_map();
    assert_eq!(p.handle_message(PacketAction::Ping), Some(Effect::Reply(Reply::MessagePong)));
    assert_eq!(p.handle_message(PacketAction::Request), None);
}

#[test]
fn walk_needs_time_between_steps() {
    let mut p = on_map();
    p.timestamp = 100;
    let mut w = EoWriter::new();
    w.add_char(2).unwrap();
    w.add_three(136).unwrap();
    w.add_char(4).unwrap();
    w.add_char(5).unwrap();
    assert_eq!(
        p.handle_walk(&bytes(w)),
        Some(Effect::ToMap(MapRequest::Walk { direction: 2, coords: Coords { x: 4, y: 5 } }))
    );
    assert_eq!(p.timestamp, 136);
    let mut w = EoWriter::new();
    w.add_char(2).unwrap();
    w.add_three(171).unwrap();
    w.add_char(4).unwrap();
    w.add_char(6).unwrap();
    assert_eq!(p.handle_walk(&bytes(w)), None);
    assert_eq!(p.timestamp, 136);
}

#[test]
fn no_walking_with_a_captcha() {
    let mut p = on_map();
    p.captcha = Some(Captcha { challenge: "ABCDE".to_string(), reward: 5, attempts: 0 });
    let mut w = EoWriter::new();
    w.add_char(2).unwrap();
    w.add_three(1000).unwrap();
    w.add_char(4).unwrap();
    w.add_char(5).unwrap();
    assert_eq!(p.handle_walk(&bytes(w)), None);
    let mut w = EoWriter::new();
    w.add_char(1).unwrap();
    w.add_three(1000).unwrap();
    assert_eq!(p.handle_attack(PacketAction::Use, &bytes(w)), None);
}

#[test]
fn attack_needs_time_between_blows() {
    let mut p = on_map();
    p.timestamp = 10;
    let mut w = EoWriter::new();
    w.add_char(1).unwrap();
    w.add_three(58).unwrap();
    assert_eq!(p.handle_attack(PacketAction::Use, &bytes(w)), Some(Effect::ToMap(MapRequest::Attack { direction: 1 })));
    let mut w = EoWriter::new();
    w.add_char(1).unwrap();
    w.add_three(105).unwrap();
    assert_eq!(p.handle_attack(PacketAction::Use, &bytes(w)), None);
}

#[test]
fn spell_is_cast_once_in_time() {
    let mut p = on_map();
    let cast_times = vec![2, 1];
    let mut w = EoWriter::new();
    w.add_short(1).unwrap();
    w.add_three(1000).unwrap();
    assert_eq!(
        p.handle_spell(PacketAction::Request, &bytes(w), &cast_times),
        Some(Effect::ToMap(MapRequest::StartSpellChant { spell_id: 1 }))
    );
    assert_eq!(p.spell_id, Some(1));
    // cast time 2: at least (2 - 1) * 47 + 35 = 82 and below 100 after the chant
    let mut w = EoWriter::new();
    w.add_char(0).unwrap();
    w.add_short(1).unwrap();
    w.add_three(1082).unwrap();
    let data = bytes(w);
    assert_eq!(
        p.handle_spell(PacketAction::TargetSelf, &data, &cast_times),
        Some(Effect::ToMap(MapRequest::CastSpell { spell_id: 1, target: SpellTarget::Player }))
    );
    assert_eq!(p.spell_id, None);
    assert_eq!(p.timestamp, 1082);
    assert_eq!(p.handle_spell(PacketAction::TargetSelf, &data, &cast_times), None);
}

#[test]
fn spell_cast_too_soon_is_refused() {
    let mut p = on_map();
    p.spell_id = Some(1);
    p.timestamp = 1000;
    let cast_times = vec![2];
    assert!(!p.check_timestamp(1, 1081, &cast_times));
    assert!(p.check_timestamp(1, 1082, &cast_times));
    assert!(p.check_timestamp(1, 1099, &cast_times));
    assert!(!p.check_timestamp(1, 1100, &cast_times));
    assert!(!p.check_timestamp(2, 1090, &cast_times));
    assert!(!p.check_timestamp(0, 1090, &cast_times));
}

#[test]
fn captcha_is_shown_to_deep_clients() {
    let mut p = Player::new(1, "ip".to_string(), true);
    p.map = Some(2);
    let r = p.show_captcha(40);
    let c = p.captcha.clone().unwrap();
    assert_eq!(c.challenge.len(), 5);
    assert!(c.challenge.chars().all(|ch| ch.is_ascii_uppercase()));
    assert_eq!(c.reward, 40);
    assert_eq!(r, vec![
        Effect::ToMap(MapRequest::OpenCaptcha),
        Effect::Reply(Reply::CaptchaOpen { reward_exp: 40, captcha: c.challenge.clone() }),
    ]);
    let mut q = Player::new(1, "ip".to_string(), false);
    assert!(q.show_captcha(40).is_empty());
    assert!(q.captcha.is_none());
}

#[test]
fn captcha_right_answer_pays() {
    let mut p = Player::new(1, "ip".to_string(), true);
    p.map = Some(2);
    p.captcha = Some(Captcha { challenge: "QWERT".to_string(), reward: 30, attempts: 4 });
    let r = p.handle_captcha(
        PacketAction::Reply,
        Some(reoserv::session::CaptchaReplyPacket { captcha: "QWERT".to_string() }),
        false,
    );
    assert_eq!(r, Some(Effect::ToMap(MapRequest::CloseCaptcha { reward: 30 })));
    assert!(p.captcha.is_none());
}

#[test]
fn captcha_wrong_answers_are_counted() {
    let mut p = Player::new(1, "ip".to_string(), true);
    p.map = Some(2);
    p.captcha = Some(Captcha { challenge: "QWERT".to_string(), reward: 30, attempts: 4 });
    let wrong = Some(reoserv::session::CaptchaReplyPacket { captcha: "QWERX".to_string() });
    assert_eq!(p.captcha_reply(wrong.clone()), None);
    assert_eq!(p.captcha.as_ref().unwrap().attempts, 5);
    let right = Some(reoserv::session::CaptchaReplyPacket { captcha: "QWERT".to_string() });
    assert_eq!(p.captcha_reply(right), None);
    assert_eq!(p.captcha.as_ref().unwrap().attempts, 5);
}

#[test]
fn captcha_request_draws_anew() {
    let mut p = Player::new(1, "ip".to_string(), true);
    p.captcha = Some(Captcha { challenge: "QWERT".to_string(), reward: 30, attempts: 3 });
    match p.handle_captcha(PacketAction::Request, None, true) {
        Some(Effect::Reply(Reply::CaptchaAgree { captcha })) => {
            assert_eq!(captcha, p.captcha.as_ref().unwrap().challenge);
            assert_eq!(captcha.len(), 5);
        }
        other => panic!("unexpected {:?}", other),
    }
    assert_eq!(p.captcha.as_ref().unwrap().attempts, 0);
    assert_eq!(p.captcha.as_ref().unwrap().reward, 30);
    assert_eq!(p.handle_captcha(PacketAction::Request, None, false), None);
}

#[test]
fn captcha_family_needs_deep_clients() {
    let mut p = Player::new(1, "ip".to_string(), false);
    p.captcha = Some(Captcha { challenge: "QWERT".to_string(), reward: 30, attempts: 0 });
    assert_eq!(p.handle_captcha(PacketAction::Request, None, true), None);
    assert_eq!(p.captcha.as_ref().unwrap().challenge, "QWERT");
}

#[test]
fn chest_content_goes_to_its_viewer() {
    let mut p = on_map();
    p.chest_index = Some(3);
    assert_eq!(p.update_chest_content(3, vec![]), Some(Effect::Reply(Reply::ChestAgree { data: vec![255] })));
    assert_eq!(p.update_chest_content(3, vec![1, 2]), Some(Effect::Reply(Reply::ChestAgree { data: vec![1, 2] })));
    assert_eq!(p.update_chest_content(4, vec![1]), None);
}

#[test]
fn server_message_is_wrapped() {
    let p = on_map();
    assert_eq!(p.send_server_message("hi"), Effect::Reply(Reply::TalkServer { message: "hi".to_string() }));
}

#[test]
fn quest_actions_become_effects() {
    let mut p = on_map();
    assert_eq!(
        p.quest_action(&"GiveItem".to_string(), &vec![QuestArg::Int(8)]),
        Some(Effect::ToMap(MapRequest::GiveItem { item_id: 8, amount: 1 }))
    );
    assert_eq!(
        p.quest_action(&"RemoveItem".to_string(), &vec![QuestArg::Int(8), QuestArg::Int(3)]),
        Some(Effect::ToMap(MapRequest::LoseItem { item_id: 8, amount: 3 }))
    );
    assert_eq!(p.quest_action(&"GiveItem".to_string(), &vec![]), None);
    assert_eq!(p.quest_action(&"Unknown".to_string(), &vec![QuestArg::Int(1)]), None);
    let _ = WorldRequest::RequestPartyList;
}
