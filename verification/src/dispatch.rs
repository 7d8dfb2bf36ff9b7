use vstd::prelude::*;

use crate::dialogs::{
    board_create_effect, board_remove_effect, board_take_effect, chair_request_effect, citizen_accept_effect, locker_add_effect, party_request_effect, quest_list_effect, sit_request_effect, stat_skill_add_effect, stat_skill_take_effect, trade_agree_effect, trade_close_effect, welcome_agree_effect, item_report_effect,
    ItemReportPacket,
};
use crate::effects::{Effect, Reply};
use crate::forwarding::{
    bank_add_effect, bank_open_effect, bank_take_effect, barber_buy_effect, barber_open_effect, board_open_effect, book_request_effect, chest_add_effect, chest_open_effect, chest_take_effect, citizen_open_effect, citizen_remove_effect, citizen_reply_effect, citizen_request_effect, door_open_effect, emote_report_effect, face_player_effect, item_drop_effect, item_get_effect, item_junk_effect, item_use_effect, jukebox_msg_effect, jukebox_open_effect, jukebox_use_effect, locker_buy_effect, locker_open_effect, locker_take_effect, marriage_open_effect, npc_range_request_effect, paperdoll_add_effect, paperdoll_remove_effect, paperdoll_request_effect, party_accept_effect, party_remove_effect, party_take_effect, player_range_request_effect, players_accept_effect, players_list_effect, players_request_effect, priest_accept_effect, priest_open_effect, priest_request_effect, priest_use_effect, quest_use_effect, range_request_effect, refresh_request_effect, shop_buy_effect, shop_create_effect, shop_open_effect, shop_sell_effect, stat_skill_junk_effect, stat_skill_open_effect, stat_skill_remove_effect, trade_accept_effect, trade_add_effect, trade_remove_effect, trade_request_effect,
};
use crate::packets::{
    decode_attack_use, attack_use_decoded, decode_bank_add, bank_add_decoded, decode_bank_open, bank_open_decoded, decode_bank_take, bank_take_decoded, decode_barber_buy, barber_buy_decoded, decode_barber_open, barber_open_decoded, decode_board_create, board_create_decoded, decode_board_open, board_open_decoded, decode_board_remove, board_remove_decoded, decode_board_take, board_take_decoded, decode_book_request, book_request_decoded, decode_chair_request, chair_request_decoded, decode_chest_add, chest_add_decoded, decode_chest_open, chest_open_decoded, decode_chest_take, chest_take_decoded, decode_citizen_accept, citizen_accept_decoded, decode_citizen_open, citizen_open_decoded, decode_citizen_reply, citizen_reply_decoded, decode_citizen_request, citizen_request_decoded, decode_connection_accept, connection_accept_decoded, decode_door_open, door_open_decoded, decode_emote_report, emote_report_decoded, decode_face_player, face_player_decoded, decode_item_drop, item_drop_decoded, decode_item_get, item_get_decoded, decode_item_junk, item_junk_decoded, decode_item_use, item_use_decoded, decode_jukebox_msg, jukebox_msg_decoded, decode_jukebox_use, jukebox_use_decoded, decode_locker_add, locker_add_decoded, decode_locker_take, locker_take_decoded, decode_marriage_open, marriage_open_decoded, decode_marriage_request, marriage_request_decoded, decode_npc_range_request, npc_range_request_decoded, decode_paperdoll_add, paperdoll_add_decoded, decode_paperdoll_remove, paperdoll_remove_decoded, decode_paperdoll_request, paperdoll_request_decoded, decode_party_accept, party_accept_decoded, decode_party_remove, party_remove_decoded, decode_party_request, party_request_decoded, decode_player_range_request, player_range_request_decoded, decode_players_accept, players_accept_decoded, decode_priest_accept, priest_accept_decoded, decode_priest_open, priest_open_decoded, decode_priest_request, priest_request_decoded, decode_priest_use, priest_use_decoded, decode_quest_accept, quest_accept_decoded, decode_quest_list, quest_list_decoded, decode_quest_use, quest_use_decoded, decode_range_request, range_request_decoded, decode_shop_buy, shop_buy_decoded, decode_shop_create, shop_create_decoded, decode_shop_open, shop_open_decoded, decode_shop_sell, shop_sell_decoded, decode_sit_request, sit_request_decoded, decode_spell_request, spell_request_decoded, decode_spell_target_group, spell_target_group_decoded, decode_spell_target_other, spell_target_other_decoded, decode_spell_target_self, spell_target_self_decoded, decode_stat_skill_add, stat_skill_add_decoded, decode_stat_skill_junk, stat_skill_junk_decoded, decode_stat_skill_open, stat_skill_open_decoded, decode_stat_skill_remove, stat_skill_remove_decoded, decode_stat_skill_take, stat_skill_take_decoded, decode_trade_accept, trade_accept_decoded, decode_trade_add, trade_add_decoded, decode_trade_agree, trade_agree_decoded, decode_trade_remove, trade_remove_decoded, decode_trade_request, trade_request_decoded, decode_walk_player, walk_player_decoded, decode_welcome_agree, welcome_agree_decoded, decode_welcome_msg, welcome_msg_decoded, decode_welcome_request, welcome_request_decoded,
    PacketAction,
};
use crate::dialogs::quest_accept_effect;
use crate::effects::MapRequest;
use crate::packets::MarriageRequestType;
use crate::player::{fresh_session, Player};
use crate::session::{
    attack_outcome, captcha_answered, connection_accept_outcome, is_challenge, spell_request_outcome,
    spell_target_group_outcome, spell_target_other_outcome, spell_target_self_outcome, walk_outcome,
    CaptchaReplyPacket,
};
use crate::settings::Settings;
use crate::text::{lowercase, to_lowercase};

verus! {

impl Player {
    /// Handles a packet of the banker family: Add, Open, Take.
    /// Nothing is done while trading.
    pub fn handle_bank(&mut self, action: PacketAction, data: &[u8]) -> (r: Option<Effect>)
        ensures
            old(self).trading ==> *final(self) == *old(self) && r is None,
            !old(self).trading ==> match action {
                PacketAction::Add => *final(self) == *old(self) && r == bank_add_effect(*old(self), bank_add_decoded(data@)),
                PacketAction::Open => fresh_session(*old(self), *final(self))
                    && r == bank_open_effect(*old(self), bank_open_decoded(data@), final(self).session_id->0),
                PacketAction::Take => *final(self) == *old(self) && r == bank_take_effect(*old(self), bank_take_decoded(data@)),
                _ => *final(self) == *old(self) && r is None,
            },
    {
        if self.trading {
            return None;
        }
        match action {
            PacketAction::Add => self.bank_add(decode_bank_add(data)),
            PacketAction::Open => self.bank_open(decode_bank_open(data)),
            PacketAction::Take => self.bank_take(decode_bank_take(data)),
            _ => None,
        }
    }

    /// Handles a packet of the barber family: Open, Buy.
    /// Nothing is done while trading.
    pub fn handle_barber(&mut self, action: PacketAction, data: &[u8]) -> (r: Option<Effect>)
        ensures
            old(self).trading ==> *final(self) == *old(self) && r is None,
            !old(self).trading ==> match action {
                PacketAction::Open => fresh_session(*old(self), *final(self))
                    && r == barber_open_effect(*old(self), barber_open_decoded(data@), final(self).session_id->0),
                PacketAction::Buy => *final(self) == *old(self) && r == barber_buy_effect(*old(self), barber_buy_decoded(data@)),
                _ => *final(self) == *old(self) && r is None,
            },
    {
        if self.trading {
            return None;
        }
        match action {
            PacketAction::Open => self.barber_open(decode_barber_open(data)),
            PacketAction::Buy => self.barber_buy(decode_barber_buy(data)),
            _ => None,
        }
    }

    /// Handles a packet of the town board family: Create, Open, Remove, Take.
    pub fn handle_board(&mut self, action: PacketAction, data: &[u8]) -> (r: Option<Effect>)
        ensures
            match action {
                PacketAction::Create => *final(self) == *old(self) && r == board_create_effect(*old(self), board_create_decoded(data@)),
                PacketAction::Open => *final(self) == *old(self) && r == board_open_effect(*old(self), board_open_decoded(data@)),
                PacketAction::Remove => *final(self) == *old(self) && r == board_remove_effect(*old(self), board_remove_decoded(data@)),
                PacketAction::Take => *final(self) == *old(self) && r == board_take_effect(*old(self), board_take_decoded(data@)),
                _ => *final(self) == *old(self) && r is None,
            },
    {
        match action {
            PacketAction::Create => self.board_create(decode_board_create(data)),
            PacketAction::Open => self.board_open(decode_board_open(data)),
            PacketAction::Remove => self.board_remove(decode_board_remove(data)),
            PacketAction::Take => self.board_take(decode_board_take(data)),
            _ => None,
        }
    }

    /// Handles a packet of the book of a player family: Request.
    pub fn handle_book(&mut self, action: PacketAction, data: &[u8]) -> (r: Option<Effect>)
        ensures
            match action {
                PacketAction::Request => *final(self) == *old(self) && r == book_request_effect(*old(self), book_request_decoded(data@)),
                _ => *final(self) == *old(self) && r is None,
            },
    {
        match action {
            PacketAction::Request => self.book_request(decode_book_request(data)),
            _ => None,
        }
    }

    /// Handles a packet of the chair family: Request.
    pub fn handle_chair(&mut self, action: PacketAction, data: &[u8]) -> (r: Option<Effect>)
        ensures
            match action {
                PacketAction::Request => *final(self) == *old(self) && r == chair_request_effect(*old(self), chair_request_decoded(data@)),
                _ => *final(self) == *old(self) && r is None,
            },
    {
        match action {
            PacketAction::Request => self.chair_request(decode_chair_request(data)),
            _ => None,
        }
    }

    /// Handles a packet of the chest family: Add, Open, Take.
    pub fn handle_chest(&mut self, action: PacketAction, data: &[u8]) -> (r: Option<Effect>)
        ensures
            match action {
                PacketAction::Add => *final(self) == *old(self) && r == chest_add_effect(*old(self), chest_add_decoded(data@)),
                PacketAction::Open => *final(self) == *old(self) && r == chest_open_effect(*old(self), chest_open_decoded(data@)),
                PacketAction::Take => *final(self) == *old(self) && r == chest_take_effect(*old(self), chest_take_decoded(data@)),
                _ => *final(self) == *old(self) && r is None,
            },
    {
        match action {
            PacketAction::Add => self.chest_add(decode_chest_add(data)),
            PacketAction::Open => self.chest_open(decode_chest_open(data)),
            PacketAction::Take => self.chest_take(decode_chest_take(data)),
            _ => None,
        }
    }

    /// Handles a packet of the innkeeper family: Open, Reply, Remove, Request, Accept.
    /// Nothing is done while trading.
    pub fn handle_citizen(&mut self, action: PacketAction, data: &[u8]) -> (r: Option<Effect>)
        ensures
            old(self).trading ==> *final(self) == *old(self) && r is None,
            !old(self).trading ==> match action {
                PacketAction::Open => fresh_session(*old(self), *final(self))
                    && r == citizen_open_effect(*old(self), citizen_open_decoded(data@), final(self).session_id->0),
                PacketAction::Reply => *final(self) == *old(self) && r == citizen_reply_effect(*old(self), citizen_reply_decoded(data@)),
                PacketAction::Remove => *final(self) == *old(self) && r == citizen_remove_effect(*old(self)),
                PacketAction::Request => *final(self) == *old(self) && r == citizen_request_effect(*old(self), citizen_request_decoded(data@)),
                PacketAction::Accept => *final(self) == *old(self) && r == citizen_accept_effect(*old(self), citizen_accept_decoded(data@)),
                _ => *final(self) == *old(self) && r is None,
            },
    {
        if self.trading {
            return None;
        }
        match action {
            PacketAction::Open => self.citizen_open(decode_citizen_open(data)),
            PacketAction::Reply => self.citizen_reply(decode_citizen_reply(data)),
            PacketAction::Remove => self.citizen_remove(),
            PacketAction::Request => self.citizen_request(decode_citizen_request(data)),
            PacketAction::Accept => self.citizen_accept(decode_citizen_accept(data)),
            _ => None,
        }
    }

    /// Handles a packet of the door family: Open.
    pub fn handle_door(&mut self, action: PacketAction, data: &[u8]) -> (r: Option<Effect>)
        ensures
            match action {
                PacketAction::Open => *final(self) == *old(self) && r == door_open_effect(*old(self), door_open_decoded(data@)),
                _ => *final(self) == *old(self) && r is None,
            },
    {
        match action {
            PacketAction::Open => self.door_open(decode_door_open(data)),
            _ => None,
        }
    }

    /// Handles a packet of the emote family: Report.
    pub fn handle_emote(&mut self, action: PacketAction, data: &[u8]) -> (r: Option<Effect>)
        ensures
            match action {
                PacketAction::Report => *final(self) == *old(self) && r == emote_report_effect(*old(self), emote_report_decoded(data@)),
                _ => *final(self) == *old(self) && r is None,
            },
    {
        match action {
            PacketAction::Report => self.emote_report(decode_emote_report(data)),
            _ => None,
        }
    }

    /// Handles a packet of the facing family: Player.
    pub fn handle_face(&mut self, action: PacketAction, data: &[u8]) -> (r: Option<Effect>)
        ensures
            match action {
                PacketAction::Player => *final(self) == *old(self) && r == face_player_effect(*old(self), face_player_decoded(data@)),
                _ => *final(self) == *old(self) && r is None,
            },
    {
        match action {
            PacketAction::Player => self.face_player(decode_face_player(data)),
            _ => None,
        }
    }

    /// Handles a packet of the jukebox family: Open, Msg, Use.
    pub fn handle_jukebox(&mut self, action: PacketAction, data: &[u8]) -> (r: Option<Effect>)
        ensures
            match action {
                PacketAction::Open => *final(self) == *old(self) && r == jukebox_open_effect(*old(self)),
                PacketAction::Msg => *final(self) == *old(self) && r == jukebox_msg_effect(*old(self), jukebox_msg_decoded(data@)),
                PacketAction::Use => *final(self) == *old(self) && r == jukebox_use_effect(*old(self), jukebox_use_decoded(data@)),
                _ => *final(self) == *old(self) && r is None,
            },
    {
        match action {
            PacketAction::Open => self.jukebox_open(),
            PacketAction::Msg => self.jukebox_msg(decode_jukebox_msg(data)),
            PacketAction::Use => self.jukebox_use(decode_jukebox_use(data)),
            _ => None,
        }
    }

    /// Handles a packet of the locker family: Add, Buy, Open, Take.
    /// Nothing is done while trading.
    pub fn handle_locker(&mut self, action: PacketAction, data: &[u8]) -> (r: Option<Effect>)
        ensures
            old(self).trading ==> *final(self) == *old(self) && r is None,
            !old(self).trading ==> match action {
                PacketAction::Add => *final(self) == *old(self) && r == locker_add_effect(*old(self), locker_add_decoded(data@)),
                PacketAction::Buy => *final(self) == *old(self) && r == locker_buy_effect(*old(self)),
                PacketAction::Open => *final(self) == *old(self) && r == locker_open_effect(*old(self)),
                PacketAction::Take => *final(self) == *old(self) && r == locker_take_effect(*old(self), locker_take_decoded(data@)),
                _ => *final(self) == *old(self) && r is None,
            },
    {
        if self.trading {
            return None;
        }
        match action {
            PacketAction::Add => self.locker_add(decode_locker_add(data)),
            PacketAction::Buy => self.locker_buy(),
            PacketAction::Open => self.locker_open(),
            PacketAction::Take => self.locker_take(decode_locker_take(data)),
            _ => None,
        }
    }

    /// Handles a packet of the npcs in range family: Request. A request whose
    /// length byte is 0 (a length of -1) is ignored.
    pub fn handle_npc_range(&mut self, action: PacketAction, data: &[u8]) -> (r: Option<Effect>)
        ensures
            *final(self) == *old(self),
            r == match action {
                PacketAction::Request => if data@.len() > 0 && data@[0] == 0 {
                    None
                } else {
                    npc_range_request_effect(*old(self), npc_range_request_decoded(data@))
                },
                _ => None,
            },
    {
        match action {
            PacketAction::Request => if data.len() > 0 && data[0] == 0 {
                None
            } else {
                self.npc_range_request(decode_npc_range_request(data))
            },
            _ => None,
        }
    }

    /// Handles a packet of the paperdoll family: Add, Remove, Request.
    pub fn handle_paperdoll(&mut self, action: PacketAction, data: &[u8]) -> (r: Option<Effect>)
        ensures
            match action {
                PacketAction::Add => *final(self) == *old(self) && r == paperdoll_add_effect(*old(self), paperdoll_add_decoded(data@)),
                PacketAction::Remove => *final(self) == *old(self) && r == paperdoll_remove_effect(*old(self), paperdoll_remove_decoded(data@)),
                PacketAction::Request => *final(self) == *old(self) && r == paperdoll_request_effect(*old(self), paperdoll_request_decoded(data@)),
                _ => *final(self) == *old(self) && r is None,
            },
    {
        match action {
            PacketAction::Add => self.paperdoll_add(decode_paperdoll_add(data)),
            PacketAction::Remove => self.paperdoll_remove(decode_paperdoll_remove(data)),
            PacketAction::Request => self.paperdoll_request(decode_paperdoll_request(data)),
            _ => None,
        }
    }

    /// Handles a packet of the party family: Request, Accept, Remove, Take.
    pub fn handle_party(&mut self, action: PacketAction, data: &[u8]) -> (r: Option<Effect>)
        ensures
            match action {
                PacketAction::Request => *final(self) == *old(self) && r == party_request_effect(*old(self), party_request_decoded(data@)),
                PacketAction::Accept => *final(self) == *old(self) && r == party_accept_effect(*old(self), party_accept_decoded(data@)),
                PacketAction::Remove => *final(self) == *old(self) && r == party_remove_effect(*old(self), party_remove_decoded(data@)),
                PacketAction::Take => *final(self) == *old(self) && r == party_take_effect(*old(self)),
                _ => *final(self) == *old(self) && r is None,
            },
    {
        match action {
            PacketAction::Request => self.party_request(decode_party_request(data)),
            PacketAction::Accept => self.party_accept(decode_party_accept(data)),
            PacketAction::Remove => self.party_remove(decode_party_remove(data)),
            PacketAction::Take => self.party_take(),
            _ => None,
        }
    }

    /// Handles a packet of the players in range family: Request.
    pub fn handle_player_range(&mut self, action: PacketAction, data: &[u8]) -> (r: Option<Effect>)
        ensures
            match action {
                PacketAction::Request => *final(self) == *old(self) && r == player_range_request_effect(*old(self), player_range_request_decoded(data@)),
                _ => *final(self) == *old(self) && r is None,
            },
    {
        match action {
            PacketAction::Request => self.player_range_request(decode_player_range_request(data)),
            _ => None,
        }
    }

    /// Handles a packet of the players online family: Accept, List, Request.
    pub fn handle_players(&mut self, action: PacketAction, data: &[u8]) -> (r: Option<Effect>)
        ensures
            match action {
                PacketAction::Accept => *final(self) == *old(self) && r == players_accept_effect(*old(self), players_accept_decoded(data@)),
                PacketAction::List => *final(self) == *old(self) && r == players_list_effect(*old(self)),
                PacketAction::Request => *final(self) == *old(self) && r == players_request_effect(*old(self)),
                _ => *final(self) == *old(self) && r is None,
            },
    {
        match action {
            PacketAction::Accept => self.players_accept(decode_players_accept(data)),
            PacketAction::List => self.players_list(),
            PacketAction::Request => self.players_request(),
            _ => None,
        }
    }

    /// Handles a packet of the priest family: Open, Request, Accept, Use.
    pub fn handle_priest(&mut self, action: PacketAction, data: &[u8]) -> (r: Option<Effect>)
        ensures
            match action {
                PacketAction::Open => fresh_session(*old(self), *final(self))
                    && r == priest_open_effect(*old(self), priest_open_decoded(data@), final(self).session_id->0),
                PacketAction::Request => *final(self) == *old(self) && r == priest_request_effect(*old(self), priest_request_decoded(data@)),
                PacketAction::Accept => *final(self) == *old(self) && r == priest_accept_effect(*old(self), priest_accept_decoded(data@)),
                PacketAction::Use => *final(self) == *old(self) && r == priest_use_effect(*old(self), priest_use_decoded(data@)),
                _ => *final(self) == *old(self) && r is None,
            },
    {
        match action {
            PacketAction::Open => self.priest_open(decode_priest_open(data)),
            PacketAction::Request => self.priest_request(decode_priest_request(data)),
            PacketAction::Accept => self.priest_accept(decode_priest_accept(data)),
            PacketAction::Use => self.priest_use(decode_priest_use(data)),
            _ => None,
        }
    }

    /// Handles a packet of the everything in range family: Request.
    pub fn handle_range(&mut self, action: PacketAction, data: &[u8]) -> (r: Option<Effect>)
        ensures
            match action {
                PacketAction::Request => *final(self) == *old(self) && r == range_request_effect(*old(self), range_request_decoded(data@)),
                _ => *final(self) == *old(self) && r is None,
            },
    {
        match action {
            PacketAction::Request => self.range_request(decode_range_request(data)),
            _ => None,
        }
    }

    /// Handles a packet of the shopkeeper family: Buy, Create, Open, Sell.
    /// Nothing is done while trading.
    pub fn handle_shop(&mut self, action: PacketAction, data: &[u8]) -> (r: Option<Effect>)
        ensures
            old(self).trading ==> *final(self) == *old(self) && r is None,
            !old(self).trading ==> match action {
                PacketAction::Buy => *final(self) == *old(self) && r == shop_buy_effect(*old(self), shop_buy_decoded(data@)),
                PacketAction::Create => *final(self) == *old(self) && r == shop_create_effect(*old(self), shop_create_decoded(data@)),
                PacketAction::Open => fresh_session(*old(self), *final(self))
                    && r == shop_open_effect(*old(self), shop_open_decoded(data@), final(self).session_id->0),
                PacketAction::Sell => *final(self) == *old(self) && r == shop_sell_effect(*old(self), shop_sell_decoded(data@)),
                _ => *final(self) == *old(self) && r is None,
            },
    {
        if self.trading {
            return None;
        }
        match action {
            PacketAction::Buy => self.shop_buy(decode_shop_buy(data)),
            PacketAction::Create => self.shop_create(decode_shop_create(data)),
            PacketAction::Open => self.shop_open(decode_shop_open(data)),
            PacketAction::Sell => self.shop_sell(decode_shop_sell(data)),
            _ => None,
        }
    }

    /// Handles a packet of the sitting family: Request.
    pub fn handle_sit(&mut self, action: PacketAction, data: &[u8]) -> (r: Option<Effect>)
        ensures
            match action {
                PacketAction::Request => *final(self) == *old(self) && r == sit_request_effect(*old(self), sit_request_decoded(data@)),
                _ => *final(self) == *old(self) && r is None,
            },
    {
        match action {
            PacketAction::Request => self.sit_request(decode_sit_request(data)),
            _ => None,
        }
    }

    /// Handles a packet of the trade family: Request, Accept, Close, Add, Remove, Agree.
    pub fn handle_trade(&mut self, action: PacketAction, data: &[u8]) -> (r: Option<Effect>)
        ensures
            match action {
                PacketAction::Request => *final(self) == *old(self) && r == trade_request_effect(*old(self), trade_request_decoded(data@)),
                PacketAction::Accept => *final(self) == *old(self) && r == trade_accept_effect(*old(self), trade_accept_decoded(data@)),
                PacketAction::Close => *final(self) == *old(self) && r == trade_close_effect(*old(self)),
                PacketAction::Add => *final(self) == *old(self) && r == trade_add_effect(*old(self), trade_add_decoded(data@)),
                PacketAction::Remove => *final(self) == *old(self) && r == trade_remove_effect(*old(self), trade_remove_decoded(data@)),
                PacketAction::Agree => *final(self) == *old(self) && r == trade_agree_effect(*old(self), trade_agree_decoded(data@)),
                _ => *final(self) == *old(self) && r is None,
            },
    {
        match action {
            PacketAction::Request => self.trade_request(decode_trade_request(data)),
            PacketAction::Accept => self.trade_accept(decode_trade_accept(data)),
            PacketAction::Close => self.trade_close(),
            PacketAction::Add => self.trade_add(decode_trade_add(data)),
            PacketAction::Remove => self.trade_remove(decode_trade_remove(data)),
            PacketAction::Agree => self.trade_agree(decode_trade_agree(data)),
            _ => None,
        }
    }

    /// Handles a packet of the item family: Drop, Get, Junk, Use, Report.
    /// Nothing is done while trading. `report` is the title item packet, which
    /// the caller decodes.
    pub fn handle_item(&mut self, action: PacketAction, data: &[u8], report: Option<ItemReportPacket>, settings: &Settings) -> (r: Option<Effect>)
        ensures
            old(self).trading ==> *final(self) == *old(self) && r is None,
            !old(self).trading ==> match action {
                PacketAction::Drop => *final(self) == *old(self) && r == item_drop_effect(*old(self), item_drop_decoded(data@)),
                PacketAction::Get => *final(self) == *old(self) && r == item_get_effect(*old(self), item_get_decoded(data@)),
                PacketAction::Junk => *final(self) == *old(self) && r == item_junk_effect(*old(self), item_junk_decoded(data@)),
                PacketAction::Use => *final(self) == *old(self) && r == item_use_effect(*old(self), item_use_decoded(data@)),
                PacketAction::Report => *final(self) == *old(self) && r == item_report_effect(*old(self), report, *settings),
                _ => *final(self) == *old(self) && r is None,
            },
    {
        if self.trading {
            return None;
        }
        match action {
            PacketAction::Drop => self.item_drop(decode_item_drop(data)),
            PacketAction::Get => self.item_get(decode_item_get(data)),
            PacketAction::Junk => self.item_junk(decode_item_junk(data)),
            PacketAction::Use => self.item_use(decode_item_use(data)),
            PacketAction::Report => self.item_report(report, settings),
            _ => None,
        }
    }

    /// Handles a packet of the law office family: Open, Request.
    /// `name_valid` is the verdict of the character name rules on the name
    /// that [`marriage_request_name`] reads from `data`.
    pub fn handle_marriage(&mut self, action: PacketAction, data: &[u8], name_valid: bool) -> (r: Option<Effect>)
        ensures
            match action {
                PacketAction::Open => fresh_session(*old(self), *final(self))
                    && r == marriage_open_effect(*old(self), marriage_open_decoded(data@), final(self).session_id->0),
                PacketAction::Request => *final(self) == *old(self) && match marriage_request_decoded(data@) {
                    Some(p) if old(self).map is Some && name_valid && old(self).session_is(p.session_id)
                        && old(self).interact_npc_index is Some => match p.request_type {
                        MarriageRequestType::MarriageApproval => r matches Some(Effect::ToMap(MapRequest::RequestMarriageApproval { npc_index, name }))
                            && npc_index == old(self).interact_npc_index->0 && name@ == lowercase(p.name@),
                        MarriageRequestType::Divorce => r matches Some(Effect::ToMap(MapRequest::RequestDivorce { npc_index, name }))
                            && npc_index == old(self).interact_npc_index->0 && name@ == lowercase(p.name@),
                        MarriageRequestType::Unrecognized(_) => r is None,
                    },
                    _ => r is None,
                },
                _ => *final(self) == *old(self) && r is None,
            },
    {
        match action {
            PacketAction::Open => self.marriage_open(decode_marriage_open(data)),
            PacketAction::Request => self.marriage_request(decode_marriage_request(data), name_valid),
            _ => None,
        }
    }

    /// Handles a packet of the quest family: Use, Accept, List.
    pub fn handle_quest(&mut self, action: PacketAction, data: &[u8]) -> (r: Option<Effect>)
        ensures
            match action {
                PacketAction::Use => fresh_session(*old(self), *final(self))
                    && r == quest_use_effect(*old(self), quest_use_decoded(data@), final(self).session_id->0),
                PacketAction::Accept => if old(self).session_id is None {
                    *final(self) == *old(self) && r is None
                } else {
                    fresh_session(*old(self), *final(self))
                        && r == quest_accept_effect(*old(self), quest_accept_decoded(data@), old(self).session_id->0, final(self).session_id->0)
                },
                PacketAction::List => *final(self) == *old(self) && r == quest_list_effect(*old(self), quest_list_decoded(data@)),
                _ => *final(self) == *old(self) && r is None,
            },
    {
        match action {
            PacketAction::Use => self.quest_use(decode_quest_use(data)),
            PacketAction::Accept => self.quest_accept(decode_quest_accept(data)),
            PacketAction::List => self.quest_list(decode_quest_list(data)),
            _ => None,
        }
    }

    /// Handles a packet of the spell family: Request, TargetSelf, TargetOther,
    /// TargetGroup. `cast_times` holds the cast time of each spell, by id
    /// starting at 1.
    pub fn handle_spell(&mut self, action: PacketAction, data: &[u8], cast_times: &Vec<i32>) -> (r: Option<Effect>)
        ensures
            (*final(self), r) == match action {
                PacketAction::Request => spell_request_outcome(*old(self), spell_request_decoded(data@)),
                PacketAction::TargetSelf => spell_target_self_outcome(*old(self), spell_target_self_decoded(data@), cast_times@),
                PacketAction::TargetOther => spell_target_other_outcome(*old(self), spell_target_other_decoded(data@), cast_times@),
                PacketAction::TargetGroup => spell_target_group_outcome(*old(self), spell_target_group_decoded(data@), cast_times@),
                _ => (*old(self), None),
            },
    {
        match action {
            PacketAction::Request => self.spell_request(decode_spell_request(data)),
            PacketAction::TargetSelf => self.spell_target_self(decode_spell_target_self(data), cast_times),
            PacketAction::TargetOther => self.spell_target_other(decode_spell_target_other(data), cast_times),
            PacketAction::TargetGroup => self.spell_target_group(decode_spell_target_group(data), cast_times),
            _ => None,
        }
    }

    /// Handles a packet of the stat skill family: Add, Junk, Open, Remove,
    /// Take.
    pub fn handle_stat_skill(&mut self, action: PacketAction, data: &[u8]) -> (r: Option<Effect>)
        ensures
            match action {
                PacketAction::Add => *final(self) == *old(self) && r == stat_skill_add_effect(*old(self), stat_skill_add_decoded(data@)),
                PacketAction::Junk => *final(self) == *old(self) && r == stat_skill_junk_effect(*old(self), stat_skill_junk_decoded(data@)),
                PacketAction::Open => fresh_session(*old(self), *final(self))
                    && r == stat_skill_open_effect(*old(self), stat_skill_open_decoded(data@), final(self).session_id->0),
                PacketAction::Remove => *final(self) == *old(self) && r == stat_skill_remove_effect(*old(self), stat_skill_remove_decoded(data@)),
                PacketAction::Take => *final(self) == *old(self) && r == stat_skill_take_effect(*old(self), stat_skill_take_decoded(data@)),
                _ => *final(self) == *old(self) && r is None,
            },
    {
        match action {
            PacketAction::Add => self.stat_skill_add(decode_stat_skill_add(data)),
            PacketAction::Junk => self.stat_skill_junk(decode_stat_skill_junk(data)),
            PacketAction::Open => self.stat_skill_open(decode_stat_skill_open(data)),
            PacketAction::Remove => self.stat_skill_remove(decode_stat_skill_remove(data)),
            PacketAction::Take => self.stat_skill_take(decode_stat_skill_take(data)),
            _ => None,
        }
    }

    /// Handles a packet of the refresh family: Request asks for everything in
    /// range again.
    pub fn handle_refresh(&mut self, action: PacketAction) -> (r: Option<Effect>)
        ensures
            *final(self) == *old(self),
            r == if action == PacketAction::Request {
                refresh_request_effect(*old(self))
            } else {
                None
            },
    {
        match action {
            PacketAction::Request => self.refresh_request(),
            _ => None,
        }
    }

    /// Handles a walk packet (see [`walk_outcome`]).
    pub fn handle_walk(&mut self, data: &[u8]) -> (r: Option<Effect>)
        ensures
            (*final(self), r) == walk_outcome(*old(self), walk_player_decoded(data@)),
    {
        self.handle_walk_packet(decode_walk_player(data))
    }

    /// Handles a packet of the attack family: Use. Nothing is done while a
    /// captcha is pending.
    pub fn handle_attack(&mut self, action: PacketAction, data: &[u8]) -> (r: Option<Effect>)
        ensures
            (*final(self), r) == if old(self).captcha is None && action == PacketAction::Use {
                attack_outcome(*old(self), attack_use_decoded(data@))
            } else {
                (*old(self), None)
            },
    {
        if self.captcha.is_some() {
            return None;
        }
        match action {
            PacketAction::Use => self.attack_use(decode_attack_use(data)),
            _ => None,
        }
    }

    /// Handles a packet of the message family: a Ping is answered with a pong.
    pub fn handle_message(&mut self, action: PacketAction) -> (r: Option<Effect>)
        ensures
            *final(self) == *old(self),
            r == if action == PacketAction::Ping {
                Some(Effect::Reply(Reply::MessagePong))
            } else {
                None
            },
    {
        match action {
            PacketAction::Ping => Some(Effect::Reply(Reply::MessagePong)),
            _ => None,
        }
    }

    /// Handles a packet of the connection family: Accept checks the handshake
    /// (see [`Player::connection_accept`]); Ping answers the server's ping.
    pub fn handle_connection(&mut self, action: PacketAction, data: &[u8]) -> (r: Option<Effect>)
        ensures
            match action {
                PacketAction::Accept => (*final(self), r) == connection_accept_outcome(*old(self), connection_accept_decoded(data@)),
                PacketAction::Ping => *final(self) == (Player { need_pong: false, ..*old(self) }) && r is None,
                _ => *final(self) == *old(self) && r is None,
            },
    {
        match action {
            PacketAction::Accept => self.connection_accept(decode_connection_accept(data)),
            PacketAction::Ping => {
                self.need_pong = false;
                None
            },
            _ => None,
        }
    }

    /// Handles a packet of the welcome family: Agree asks for a file, Msg
    /// enters the game, Request selects a character.
    pub fn handle_welcome(&mut self, action: PacketAction, data: &[u8]) -> (r: Option<Effect>)
        ensures
            *final(self) == *old(self),
            r == match action {
                PacketAction::Agree => welcome_agree_effect(welcome_agree_decoded(data@)),
                PacketAction::Msg => match welcome_msg_decoded(data@) {
                    Some(p) => Some(Effect::EnterGame { session_id: p.session_id }),
                    None => None,
                },
                PacketAction::Request => match welcome_request_decoded(data@) {
                    Some(p) => Some(Effect::SelectCharacter { character_id: p.character_id }),
                    None => None,
                },
                _ => None,
            },
    {
        match action {
            PacketAction::Agree => self.welcome_agree(decode_welcome_agree(data)),
            PacketAction::Msg => self.welcome_msg(decode_welcome_msg(data)),
            PacketAction::Request => self.welcome_request(decode_welcome_request(data)),
            _ => None,
        }
    }

    /// Handles a packet of the captcha family, which only clients that speak
    /// the deep protocol send: Reply answers the captcha, Request asks for a
    /// new one. `reply` is the reply packet and `request_decoded` tells
    /// whether the request packet decoded; the caller decodes both.
    pub fn handle_captcha(&mut self, action: PacketAction, reply: Option<CaptchaReplyPacket>, request_decoded: bool) -> (r: Option<Effect>)
        ensures
            !old(self).deep ==> *final(self) == *old(self) && r is None,
            old(self).deep && action == PacketAction::Reply ==> match reply {
                Some(p) if old(self).map is Some && old(self).captcha is Some => {
                    (*final(self), r) == captcha_answered(*old(self), p.captcha@)
                },
                _ => *final(self) == *old(self) && r is None,
            },
            old(self).deep && action == PacketAction::Request ==> {
                &&& !request_decoded || old(self).captcha is None ==> *final(self) == *old(self) && r is None
                &&& request_decoded && old(self).captcha is Some ==> {
                    &&& final(self).captcha matches Some(c)
                    &&& is_challenge(c.challenge@)
                    &&& c.reward == old(self).captcha->0.reward
                    &&& c.attempts == 0
                    &&& *final(self) == (Player { captcha: final(self).captcha, ..*old(self) })
                    &&& r == Some(Effect::Reply(Reply::CaptchaAgree { captcha: c.challenge }))
                }
            },
            old(self).deep && action != PacketAction::Reply && action != PacketAction::Request ==> *final(self) == *old(self) && r is None,
    {
        if !self.deep {
            return None;
        }
        match action {
            PacketAction::Reply => self.captcha_reply(reply),
            PacketAction::Request => self.captcha_request(request_decoded),
            _ => None,
        }
    }
}

/// The lower-cased name that a law office request carries, which the
/// character name rules judge before the request is handled.
pub fn marriage_request_name(data: &[u8]) -> (r: Option<String>)
    ensures
        match marriage_request_decoded(data@) {
            Some(p) => r matches Some(name) && name@ == lowercase(p.name@),
            None => r is None,
        },
{
    match decode_marriage_request(data) {
        Some(p) => Some(to_lowercase(p.name.as_str())),
        None => None,
    }
}

} // verus!
