use reoserv::guild::GuildJob;
use reoserv::packets::GuildInfoType;
use eolib::data::EoWriter;
use reoserv::dialogs::ItemReportPacket;
use reoserv::dispatch::marriage_request_name;
use reoserv::effects::{Coords, Effect, MapRequest, PartyRequest, WorldRequest};
use reoserv::packets::PacketAction;
use reoserv::player::Player;
use reoserv::settings::Settings;
use reoserv::state::ClientState;

fn on_map() -> Player {
    let mut p = Player::new(7, "127.0.0.1".to_string(), false);
    p.map = Some(5);
    p.state = ClientState::InGame;
    p
}

fn settings() -> Settings {
    Settings {
        max_players: 100,
        max_login_attempts: 3,
        ping_rate: 2,
        hangup_delay: 10,
        guild_min_players: 3,
        guild_create_cost: 50000,
        guild_recruit_cost: 1000,
        guild_min_deposit: 1000,
        max_hair_color: 9,
        max_hair_style: 20,
        max_skin: 6,
        max_name_length: 12,
        max_title_length: 8,
        max_characters: 3,
        account_recovery: true,
        recovery_show_email: true,
        recovery_mask_email: false,
        account_delay_time: 27,
        email_validation: false,
        info_reveals_drops: true,
        auto_pickup_enabled: true,
        rescue_map: 1,
        rescue_x: 3,
        rescue_y: 4,
    }
}

fn bank_add(amount: i32, session_id: i32) -> Vec<u8> {
    let mut w = EoWriter::new();
    w.add_int(amount).unwrap();
    w.add_three(session_id).unwrap();
    w.to_byte_array().to_vec()
}

#[test]
fn bank_deposit_in_session() {
    let mut p = on_map();
    p.session_id = Some(77);
    p.interact_npc_index = Some(4);
    assert_eq!(
        p.handle_bank(PacketAction::Add, &bank_add(500, 77)),
        Some(Effect::ToMap(MapRequest::DepositGold { npc_index: 4, amount: 500 }))
    );
    assert_eq!(p.handle_bank(PacketAction::Add, &bank_add(500, 78)), None);
    assert_eq!(p.handle_bank(PacketAction::Take, &bank_add(20, 77)), Some(Effect::ToMap(MapRequest::WithdrawGold { npc_index: 4, amount: 20 })));
    assert_eq!(p.session_id, Some(77));
}

#[test]
fn bank_open_starts_a_session() {
    let mut p = on_map();
    let mut w = EoWriter::new();
    w.add_short(6).unwrap();
    let r = p.handle_bank(PacketAction::Open, &w.to_byte_array());
    let sid = p.session_id.unwrap();
    assert!((10..64009).contains(&sid));
    assert_eq!(r, Some(Effect::ToMap(MapRequest::OpenBank { npc_index: 6, session_id: sid })));
}

#[test]
fn nothing_is_bought_or_banked_while_trading() {
    let mut p = on_map();
    p.trading = true;
    p.session_id = Some(77);
    p.interact_npc_index = Some(4);
    assert_eq!(p.handle_bank(PacketAction::Add, &bank_add(500, 77)), None);
    assert_eq!(p.handle_bank(PacketAction::Open, &bank_add(500, 77)), None);
    assert_eq!(p.session_id, Some(77));
    assert_eq!(p.handle_shop(PacketAction::Open, &bank_add(500, 77)), None);
    assert_eq!(p.handle_locker(PacketAction::Open, &[]), None);
    assert_eq!(p.handle_citizen(PacketAction::Remove, &[]), None);
    assert_eq!(p.handle_barber(PacketAction::Open, &[]), None);
    assert_eq!(p.session_id, Some(77));
    let report = Some(ItemReportPacket { item_id: 1, title: "x".to_string() });
    assert_eq!(p.handle_item(PacketAction::Report, &[], report, &settings()), None);
}

#[test]
fn locker_and_jukebox_without_packets() {
    let mut p = on_map();
    assert_eq!(p.handle_locker(PacketAction::Open, &[]), Some(Effect::ToMap(MapRequest::OpenLocker)));
    assert_eq!(p.handle_jukebox(PacketAction::Open, &[]), Some(Effect::ToMap(MapRequest::OpenJukebox)));
    p.map = None;
    assert_eq!(p.handle_locker(PacketAction::Open, &[]), None);
}

#[test]
fn chest_open_at_coords() {
    let mut p = on_map();
    let mut w = EoWriter::new();
    w.add_char(3).unwrap();
    w.add_char(8).unwrap();
    assert_eq!(
        p.handle_chest(PacketAction::Open, &w.to_byte_array()),
        Some(Effect::ToMap(MapRequest::OpenChest { coords: Coords { x: 3, y: 8 } }))
    );
}

#[test]
fn board_open_names_the_next_board() {
    let mut p = on_map();
    let mut w = EoWriter::new();
    w.add_short(3).unwrap();
    assert_eq!(p.handle_board(PacketAction::Open, &w.to_byte_array()), Some(Effect::ToMap(MapRequest::OpenBoard { board_id: 4 })));
}

#[test]
fn title_length_is_counted_in_bytes() {
    let mut p = on_map();
    let s = settings();
    let ok = Some(ItemReportPacket { item_id: 2, title: "12345678".to_string() });
    assert_eq!(
        p.handle_item(PacketAction::Report, &[], ok, &s),
        Some(Effect::ToMap(MapRequest::UseTitleItem { item_id: 2, title: "12345678".to_string() }))
    );
    let long = Some(ItemReportPacket { item_id: 2, title: "123456789".to_string() });
    assert_eq!(p.handle_item(PacketAction::Report, &[], long, &s), None);
    // five characters, ten bytes
    let wide = Some(ItemReportPacket { item_id: 2, title: "ééééé".to_string() });
    assert_eq!(p.handle_item(PacketAction::Report, &[], wide, &s), None);
}

#[test]
fn party_request_carries_the_sender() {
    let mut p = on_map();
    let mut w = EoWriter::new();
    w.add_char(0).unwrap();
    w.add_short(12).unwrap();
    assert_eq!(
        p.handle_party(PacketAction::Request, &w.to_byte_array()),
        Some(Effect::ToMap(MapRequest::PartyRequest { target_player_id: 12, request: PartyRequest::Join(7) }))
    );
    assert_eq!(p.handle_party(PacketAction::Take, &[]), Some(Effect::ToWorld(WorldRequest::RequestPartyList)));
}

#[test]
fn trade_close_cancels_with_the_partner() {
    let mut p = on_map();
    assert_eq!(p.handle_trade(PacketAction::Close, &[]), None);
    p.interact_player_id = Some(9);
    assert_eq!(p.handle_trade(PacketAction::Close, &[]), Some(Effect::ToMap(MapRequest::CancelTrade { player_id: 9 })));
}

fn marriage(request_type: i32, session_id: i32, name: &str) -> Vec<u8> {
    let mut w = EoWriter::new();
    w.add_char(request_type).unwrap();
    w.add_int(session_id).unwrap();
    w.add_byte(0xFF);
    w.add_string(name);
    w.to_byte_array().to_vec()
}

#[test]
fn marriage_request_lower_cases_the_name() {
    let mut p = on_map();
    p.session_id = Some(300);
    p.interact_npc_index = Some(2);
    let data = marriage(1, 300, "Alice");
    assert_eq!(marriage_request_name(&data), Some("alice".to_string()));
    assert_eq!(
        p.handle_marriage(PacketAction::Request, &data, true),
        Some(Effect::ToMap(MapRequest::RequestMarriageApproval { npc_index: 2, name: "alice".to_string() }))
    );
    assert_eq!(p.handle_marriage(PacketAction::Request, &data, false), None);
    let divorce = marriage(2, 300, "Bob");
    assert_eq!(
        p.handle_marriage(PacketAction::Request, &divorce, true),
        Some(Effect::ToMap(MapRequest::RequestDivorce { npc_index: 2, name: "bob".to_string() }))
    );
}

#[test]
fn welcome_msg_enters_the_game() {
    let mut p = on_map();
    let mut w = EoWriter::new();
    w.add_three(555).unwrap();
    w.add_int(3).unwrap();
    let r = p.handle_welcome(PacketAction::Msg, &w.to_byte_array());
    assert_eq!(r, Some(Effect::EnterGame { session_id: 555 }));
}

#[test]
fn unknown_actions_do_nothing() {
    let mut p = on_map();
    assert_eq!(p.handle_book(PacketAction::Remove, &[]), None);
    assert_eq!(p.handle_refresh(PacketAction::Remove), None);
    assert_eq!(p.handle_refresh(PacketAction::Request), Some(Effect::ToMap(MapRequest::RequestRefresh)));
}

#[test]
fn guild_take_starts_a_job() {
    let mut p = on_map();
    p.session_id = Some(900);
    p.interact_npc_index = Some(3);
    let mut w = EoWriter::new();
    w.add_int(900).unwrap();
    w.add_short(3).unwrap();
    w.add_string("ABC");
    let (e, job) = p.handle_guild(PacketAction::Take, &w.to_byte_array(), &settings());
    assert_eq!(e, None);
    assert_eq!(job, Some(GuildJob::Take { npc_index: 3, info_type: GuildInfoType::Bank }));
    p.session_id = Some(901);
    let mut w = EoWriter::new();
    w.add_int(900).unwrap();
    w.add_short(3).unwrap();
    w.add_string("ABC");
    assert_eq!(p.handle_guild(PacketAction::Take, &w.to_byte_array(), &settings()), (None, None));
}

#[test]
fn guild_request_clears_the_founders() {
    let mut p = on_map();
    p.session_id = Some(900);
    p.interact_npc_index = Some(3);
    p.guild_create_members = vec![4, 5];
    let mut w = EoWriter::new();
    w.add_int(900).unwrap();
    w.add_byte(0xFF);
    w.add_string("abc");
    w.add_byte(0xFF);
    w.add_string("Alphabet");
    w.add_byte(0xFF);
    let (_, job) = p.handle_guild(PacketAction::Request, &w.to_byte_array(), &settings());
    assert_eq!(job, Some(GuildJob::Request { npc_index: 3, guild_tag: "abc".to_string(), guild_name: "Alphabet".to_string() }));
    assert!(p.guild_create_members.is_empty());
}

#[test]
fn npc_range_requests_with_a_zero_length_are_ignored() {
    let mut p = Player::new(1, "ip".to_string(), false);
    p.map = Some(2);
    assert_eq!(p.handle_npc_range(PacketAction::Request, &[0, 255, 3]), None);
    let mut w = EoWriter::new();
    w.add_char(2).unwrap();
    w.add_byte(255);
    w.add_char(4).unwrap();
    w.add_char(7).unwrap();
    let data = w.to_byte_array().to_vec();
    assert_eq!(
        p.handle_npc_range(PacketAction::Request, &data),
        Some(Effect::ToMap(MapRequest::RequestNpcs { npc_indexes: vec![4, 7] }))
    );
}
