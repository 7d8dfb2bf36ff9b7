use vstd::prelude::*;

use crate::effects::{Effect, MapRequest, WorldRequest};
use crate::packets::{
    AdminInteractReportPacket, AdminInteractTellPacket, BankAddPacket, BankOpenPacket, BankTakePacket, BarberBuyPacket, BarberOpenPacket, BoardOpenPacket, BookRequestPacket, ChestAddPacket, ChestOpenPacket, ChestTakePacket, CitizenOpenPacket, CitizenReplyPacket, CitizenRequestPacket, DoorOpenPacket, EmoteReportPacket, FacePlayerPacket, GuildAcceptPacket, GuildOpenPacket, ItemDropPacket, ItemGetPacket, ItemJunkPacket, ItemUsePacket, JukeboxMsgPacket, JukeboxUsePacket, LockerTakePacket, MarriageOpenPacket, NpcRangeRequestPacket, PaperdollAddPacket, PaperdollRemovePacket, PaperdollRequestPacket, PartyAcceptPacket, PartyRemovePacket, PlayerRangeRequestPacket, PlayersAcceptPacket, PriestAcceptPacket, PriestOpenPacket, PriestRequestPacket, PriestUsePacket, QuestUsePacket, RangeRequestPacket, ShopBuyPacket, ShopCreatePacket, ShopOpenPacket, ShopSellPacket, StatSkillJunkPacket, StatSkillOpenPacket, StatSkillRemovePacket, TalkOpenPacket, TalkTellPacket, TradeAcceptPacket, TradeAddPacket, TradeRemovePacket, TradeRequestPacket,
};
use crate::player::{fresh_session, Player};

verus! {

/// Opens board `board_id + 1`.
pub open spec fn board_open_effect(player: Player, packet: Option<BoardOpenPacket>) -> Option<Effect> {
    if player.map is Some && packet is Some {
        Some(Effect::ToMap(MapRequest::OpenBoard { board_id: (packet->0.board_id + 1) as i32 }))
    } else {
        None
    }
}

/// Asks for a player's book.
pub open spec fn book_request_effect(player: Player, packet: Option<BookRequestPacket>) -> Option<Effect> {
    if player.map is Some && packet is Some {
        Some(Effect::ToMap(MapRequest::RequestBook { player_id: packet->0.player_id }))
    } else {
        None
    }
}

/// Puts an item into the open chest.
pub open spec fn chest_add_effect(player: Player, packet: Option<ChestAddPacket>) -> Option<Effect> {
    if player.map is Some && packet is Some {
        Some(Effect::ToMap(MapRequest::AddChestItem { item_id: packet->0.item_id, amount: packet->0.amount }))
    } else {
        None
    }
}

/// Opens the chest at the given place.
pub open spec fn chest_open_effect(player: Player, packet: Option<ChestOpenPacket>) -> Option<Effect> {
    if player.map is Some && packet is Some {
        Some(Effect::ToMap(MapRequest::OpenChest { coords: packet->0.coords }))
    } else {
        None
    }
}

/// Takes an item out of the open chest.
pub open spec fn chest_take_effect(player: Player, packet: Option<ChestTakePacket>) -> Option<Effect> {
    if player.map is Some && packet is Some {
        Some(Effect::ToMap(MapRequest::TakeChestItem { item_id: packet->0.take_item_id }))
    } else {
        None
    }
}

/// Opens the door at the given place.
pub open spec fn door_open_effect(player: Player, packet: Option<DoorOpenPacket>) -> Option<Effect> {
    if player.map is Some && packet is Some {
        Some(Effect::ToMap(MapRequest::OpenDoor { coords: packet->0.coords }))
    } else {
        None
    }
}

/// Plays an emote.
pub open spec fn emote_report_effect(player: Player, packet: Option<EmoteReportPacket>) -> Option<Effect> {
    if player.map is Some && packet is Some {
        Some(Effect::ToMap(MapRequest::Emote { emote: packet->0.emote }))
    } else {
        None
    }
}

/// Turns the character.
pub open spec fn face_player_effect(player: Player, packet: Option<FacePlayerPacket>) -> Option<Effect> {
    if player.map is Some && packet is Some {
        Some(Effect::ToMap(MapRequest::Face { direction: packet->0.direction }))
    } else {
        None
    }
}

/// Opens the guild master's dialog.
pub open spec fn guild_open_effect(player: Player, packet: Option<GuildOpenPacket>) -> Option<Effect> {
    if player.map is Some && packet is Some {
        Some(Effect::ToMap(MapRequest::OpenGuildMaster { npc_index: packet->0.npc_index }))
    } else {
        None
    }
}

/// Accepts an invitation to found a guild.
pub open spec fn guild_accept_effect(player: Player, packet: Option<GuildAcceptPacket>) -> Option<Effect> {
    if player.map is Some && packet is Some {
        Some(Effect::ToMap(MapRequest::AcceptGuildCreationRequest { inviter_player_id: packet->0.inviter_player_id }))
    } else {
        None
    }
}

/// Drops an item.
pub open spec fn item_drop_effect(player: Player, packet: Option<ItemDropPacket>) -> Option<Effect> {
    if player.map is Some && packet is Some {
        Some(Effect::ToMap(MapRequest::DropItem { item_id: packet->0.item_id, amount: packet->0.amount, x: packet->0.x, y: packet->0.y }))
    } else {
        None
    }
}

/// Picks an item up.
pub open spec fn item_get_effect(player: Player, packet: Option<ItemGetPacket>) -> Option<Effect> {
    if player.map is Some && packet is Some {
        Some(Effect::ToMap(MapRequest::GetItem { item_index: packet->0.item_index }))
    } else {
        None
    }
}

/// Destroys an item.
pub open spec fn item_junk_effect(player: Player, packet: Option<ItemJunkPacket>) -> Option<Effect> {
    if player.map is Some && packet is Some {
        Some(Effect::ToMap(MapRequest::JunkItem { item_id: packet->0.item_id, amount: packet->0.amount }))
    } else {
        None
    }
}

/// Uses an item.
pub open spec fn item_use_effect(player: Player, packet: Option<ItemUsePacket>) -> Option<Effect> {
    if player.map is Some && packet is Some {
        Some(Effect::ToMap(MapRequest::UseItem { item_id: packet->0.item_id }))
    } else {
        None
    }
}

/// Plays track `track_id + 1` on the jukebox.
pub open spec fn jukebox_msg_effect(player: Player, packet: Option<JukeboxMsgPacket>) -> Option<Effect> {
    if player.map is Some && packet is Some {
        Some(Effect::ToMap(MapRequest::PlayJukeboxTrack { track_id: (packet->0.track_id + 1) as i32 }))
    } else {
        None
    }
}

/// Plays a note on an instrument.
pub open spec fn jukebox_use_effect(player: Player, packet: Option<JukeboxUsePacket>) -> Option<Effect> {
    if player.map is Some && packet is Some {
        Some(Effect::ToMap(MapRequest::PlayInstrument { instrument_id: packet->0.instrument_id, note_id: packet->0.note_id }))
    } else {
        None
    }
}

/// Takes an item out of the locker.
pub open spec fn locker_take_effect(player: Player, packet: Option<LockerTakePacket>) -> Option<Effect> {
    if player.map is Some && packet is Some {
        Some(Effect::ToMap(MapRequest::TakeLockerItem { item_id: packet->0.take_item_id }))
    } else {
        None
    }
}

/// Asks for the npcs in range.
pub open spec fn npc_range_request_effect(player: Player, packet: Option<NpcRangeRequestPacket>) -> Option<Effect> {
    if player.map is Some && packet is Some {
        Some(Effect::ToMap(MapRequest::RequestNpcs { npc_indexes: packet->0.npc_indexes }))
    } else {
        None
    }
}

/// Equips an item.
pub open spec fn paperdoll_add_effect(player: Player, packet: Option<PaperdollAddPacket>) -> Option<Effect> {
    if player.map is Some && packet is Some {
        Some(Effect::ToMap(MapRequest::Equip { item_id: packet->0.item_id, sub_loc: packet->0.sub_loc }))
    } else {
        None
    }
}

/// Unequips an item.
pub open spec fn paperdoll_remove_effect(player: Player, packet: Option<PaperdollRemovePacket>) -> Option<Effect> {
    if player.map is Some && packet is Some {
        Some(Effect::ToMap(MapRequest::Unequip { item_id: packet->0.item_id, sub_loc: packet->0.sub_loc }))
    } else {
        None
    }
}

/// Asks for a player's paperdoll.
pub open spec fn paperdoll_request_effect(player: Player, packet: Option<PaperdollRequestPacket>) -> Option<Effect> {
    if player.map is Some && packet is Some {
        Some(Effect::ToMap(MapRequest::RequestPaperdoll { player_id: packet->0.player_id }))
    } else {
        None
    }
}

/// Asks for the players in range.
pub open spec fn player_range_request_effect(player: Player, packet: Option<PlayerRangeRequestPacket>) -> Option<Effect> {
    if player.map is Some && packet is Some {
        Some(Effect::ToMap(MapRequest::RequestPlayers { player_ids: packet->0.player_ids }))
    } else {
        None
    }
}

/// Looks for a player by name.
pub open spec fn players_accept_effect(player: Player, packet: Option<PlayersAcceptPacket>) -> Option<Effect> {
    if player.map is Some && packet is Some {
        Some(Effect::ToMap(MapRequest::FindPlayer { name: packet->0.name }))
    } else {
        None
    }
}

/// Asks for the players and npcs in range.
pub open spec fn range_request_effect(player: Player, packet: Option<RangeRequestPacket>) -> Option<Effect> {
    if player.map is Some && packet is Some {
        Some(Effect::ToMap(MapRequest::RequestPlayersAndNpcs { player_ids: packet->0.player_ids, npc_indexes: packet->0.npc_indexes }))
    } else {
        None
    }
}

/// Asks a player to trade.
pub open spec fn trade_request_effect(player: Player, packet: Option<TradeRequestPacket>) -> Option<Effect> {
    if player.map is Some && packet is Some {
        Some(Effect::ToMap(MapRequest::RequestTrade { player_id: packet->0.player_id }))
    } else {
        None
    }
}

/// Accepts a trade request.
pub open spec fn trade_accept_effect(player: Player, packet: Option<TradeAcceptPacket>) -> Option<Effect> {
    if player.map is Some && packet is Some {
        Some(Effect::ToMap(MapRequest::AcceptTradeRequest { player_id: packet->0.player_id }))
    } else {
        None
    }
}

/// Offers an item in the trade.
pub open spec fn trade_add_effect(player: Player, packet: Option<TradeAddPacket>) -> Option<Effect> {
    if player.map is Some && packet is Some {
        Some(Effect::ToMap(MapRequest::AddTradeItem { item_id: packet->0.item_id, amount: packet->0.amount }))
    } else {
        None
    }
}

/// Withdraws an item from the trade.
pub open spec fn trade_remove_effect(player: Player, packet: Option<TradeRemovePacket>) -> Option<Effect> {
    if player.map is Some && packet is Some {
        Some(Effect::ToMap(MapRequest::RemoveTradeItem { item_id: packet->0.item_id }))
    } else {
        None
    }
}

/// Deposits gold at the banker.
pub open spec fn bank_add_effect(player: Player, packet: Option<BankAddPacket>) -> Option<Effect> {
    if player.map is Some && packet is Some && player.session_is(packet->0.session_id) && player.interact_npc_index is Some {
        Some(Effect::ToMap(MapRequest::DepositGold { npc_index: player.interact_npc_index->0, amount: packet->0.amount }))
    } else {
        None
    }
}

/// Withdraws gold at the banker.
pub open spec fn bank_take_effect(player: Player, packet: Option<BankTakePacket>) -> Option<Effect> {
    if player.map is Some && packet is Some && player.session_is(packet->0.session_id) && player.interact_npc_index is Some {
        Some(Effect::ToMap(MapRequest::WithdrawGold { npc_index: player.interact_npc_index->0, amount: packet->0.amount }))
    } else {
        None
    }
}

/// Buys a haircut.
pub open spec fn barber_buy_effect(player: Player, packet: Option<BarberBuyPacket>) -> Option<Effect> {
    if player.map is Some && packet is Some && player.session_is(packet->0.session_id) && player.interact_npc_index is Some {
        Some(Effect::ToMap(MapRequest::BuyHaircut { npc_index: player.interact_npc_index->0, hair_style: packet->0.hair_style, hair_color: packet->0.hair_color }))
    } else {
        None
    }
}

/// Answers the innkeeper's questions.
pub open spec fn citizen_reply_effect(player: Player, packet: Option<CitizenReplyPacket>) -> Option<Effect> {
    if player.map is Some && packet is Some && player.session_is(packet->0.session_id) && player.interact_npc_index is Some {
        Some(Effect::ToMap(MapRequest::RequestCitizenship { npc_index: player.interact_npc_index->0, answers: packet->0.answers }))
    } else {
        None
    }
}

/// Asks the innkeeper for a bed.
pub open spec fn citizen_request_effect(player: Player, packet: Option<CitizenRequestPacket>) -> Option<Effect> {
    if player.map is Some && packet is Some && player.session_is(packet->0.session_id) && player.interact_npc_index is Some {
        Some(Effect::ToMap(MapRequest::RequestSleep { npc_index: player.interact_npc_index->0 }))
    } else {
        None
    }
}

/// Buys an item from the shop.
pub open spec fn shop_buy_effect(player: Player, packet: Option<ShopBuyPacket>) -> Option<Effect> {
    if player.map is Some && packet is Some && player.session_is(packet->0.session_id) && player.interact_npc_index is Some {
        Some(Effect::ToMap(MapRequest::BuyItem { npc_index: player.interact_npc_index->0, item_id: packet->0.item_id, amount: packet->0.amount }))
    } else {
        None
    }
}

/// Crafts an item at the shop.
pub open spec fn shop_create_effect(player: Player, packet: Option<ShopCreatePacket>) -> Option<Effect> {
    if player.map is Some && packet is Some && player.session_is(packet->0.session_id) && player.interact_npc_index is Some {
        Some(Effect::ToMap(MapRequest::CraftItem { npc_index: player.interact_npc_index->0, item_id: packet->0.craft_item_id }))
    } else {
        None
    }
}

/// Sells an item to the shop.
pub open spec fn shop_sell_effect(player: Player, packet: Option<ShopSellPacket>) -> Option<Effect> {
    if player.map is Some && packet is Some && player.session_is(packet->0.session_id) && player.interact_npc_index is Some {
        Some(Effect::ToMap(MapRequest::SellItem { npc_index: player.interact_npc_index->0, item_id: packet->0.item_id, amount: packet->0.amount }))
    } else {
        None
    }
}

/// Resets the character at the skill master.
pub open spec fn stat_skill_junk_effect(player: Player, packet: Option<StatSkillJunkPacket>) -> Option<Effect> {
    if player.map is Some && packet is Some && player.session_is(packet->0.session_id) && player.interact_npc_index is Some {
        Some(Effect::ToMap(MapRequest::ResetCharacter { npc_index: player.interact_npc_index->0 }))
    } else {
        None
    }
}

/// Forgets a skill at the skill master.
pub open spec fn stat_skill_remove_effect(player: Player, packet: Option<StatSkillRemovePacket>) -> Option<Effect> {
    if player.map is Some && packet is Some && player.session_is(packet->0.session_id) && player.interact_npc_index is Some {
        Some(Effect::ToMap(MapRequest::ForgetSkill { npc_index: player.interact_npc_index->0, spell_id: packet->0.spell_id }))
    } else {
        None
    }
}

/// Asks the priest for a wedding.
pub open spec fn priest_request_effect(player: Player, packet: Option<PriestRequestPacket>) -> Option<Effect> {
    if player.map is Some && packet is Some && player.session_is(packet->0.session_id) && player.interact_npc_index is Some {
        Some(Effect::ToMap(MapRequest::RequestWedding { npc_index: player.interact_npc_index->0, name: packet->0.name }))
    } else {
        None
    }
}

/// Opens the banker's dialog in a new session.
pub open spec fn bank_open_effect(player: Player, packet: Option<BankOpenPacket>, session_id: i32) -> Option<Effect> {
    if player.map is Some && packet is Some {
        Some(Effect::ToMap(MapRequest::OpenBank { npc_index: packet->0.npc_index, session_id: session_id }))
    } else {
        None
    }
}

/// Opens the barber's dialog in a new session.
pub open spec fn barber_open_effect(player: Player, packet: Option<BarberOpenPacket>, session_id: i32) -> Option<Effect> {
    if player.map is Some && packet is Some {
        Some(Effect::ToMap(MapRequest::OpenBarber { npc_index: packet->0.npc_index, session_id: session_id }))
    } else {
        None
    }
}

/// Opens the innkeeper's dialog in a new session.
pub open spec fn citizen_open_effect(player: Player, packet: Option<CitizenOpenPacket>, session_id: i32) -> Option<Effect> {
    if player.map is Some && packet is Some {
        Some(Effect::ToMap(MapRequest::OpenInn { npc_index: packet->0.npc_index, session_id: session_id }))
    } else {
        None
    }
}

/// Opens the shop in a new session.
pub open spec fn shop_open_effect(player: Player, packet: Option<ShopOpenPacket>, session_id: i32) -> Option<Effect> {
    if player.map is Some && packet is Some {
        Some(Effect::ToMap(MapRequest::OpenShop { npc_index: packet->0.npc_index, session_id: session_id }))
    } else {
        None
    }
}

/// Opens the skill master's dialog in a new session.
pub open spec fn stat_skill_open_effect(player: Player, packet: Option<StatSkillOpenPacket>, session_id: i32) -> Option<Effect> {
    if player.map is Some && packet is Some {
        Some(Effect::ToMap(MapRequest::OpenSkillMaster { npc_index: packet->0.npc_index, session_id: session_id }))
    } else {
        None
    }
}

/// Opens the priest's dialog in a new session.
pub open spec fn priest_open_effect(player: Player, packet: Option<PriestOpenPacket>, session_id: i32) -> Option<Effect> {
    if player.map is Some && packet is Some {
        Some(Effect::ToMap(MapRequest::OpenPriest { npc_index: packet->0.npc_index, session_id: session_id }))
    } else {
        None
    }
}

/// Opens the law office's dialog in a new session.
pub open spec fn marriage_open_effect(player: Player, packet: Option<MarriageOpenPacket>, session_id: i32) -> Option<Effect> {
    if player.map is Some && packet is Some {
        Some(Effect::ToMap(MapRequest::OpenLaw { npc_index: packet->0.npc_index, session_id: session_id }))
    } else {
        None
    }
}

/// Talks to a quest npc in a new session.
pub open spec fn quest_use_effect(player: Player, packet: Option<QuestUsePacket>, session_id: i32) -> Option<Effect> {
    if player.map is Some && packet is Some {
        Some(Effect::ToMap(MapRequest::TalkToQuestNpc { npc_index: packet->0.npc_index, quest_id: packet->0.quest_id, session_id: session_id }))
    } else {
        None
    }
}

/// Accepts a wedding request.
pub open spec fn priest_accept_effect(player: Player, packet: Option<PriestAcceptPacket>) -> Option<Effect> {
    if player.map is Some && packet is Some && player.session_is(packet->0.session_id) {
        Some(Effect::ToMap(MapRequest::AcceptWeddingRequest))
    } else {
        None
    }
}

/// Says "I do".
pub open spec fn priest_use_effect(player: Player, packet: Option<PriestUsePacket>) -> Option<Effect> {
    if player.map is Some && packet is Some && player.session_is(packet->0.session_id) {
        Some(Effect::ToMap(MapRequest::SayIDo))
    } else {
        None
    }
}

/// Gives up citizenship at the innkeeper.
pub open spec fn citizen_remove_effect(player: Player) -> Option<Effect> {
    if player.map is Some && player.interact_npc_index is Some {
        Some(Effect::ToMap(MapRequest::RemoveCitizenship { npc_index: player.interact_npc_index->0 }))
    } else {
        None
    }
}

/// Upgrades the locker.
pub open spec fn locker_buy_effect(player: Player) -> Option<Effect> {
    if player.map is Some && player.interact_npc_index is Some {
        Some(Effect::ToMap(MapRequest::UpgradeLocker { npc_index: player.interact_npc_index->0 }))
    } else {
        None
    }
}

/// Opens the jukebox.
pub open spec fn jukebox_open_effect(player: Player) -> Option<Effect> {
    if player.map is Some {
        Some(Effect::ToMap(MapRequest::OpenJukebox))
    } else {
        None
    }
}

/// Opens the locker.
pub open spec fn locker_open_effect(player: Player) -> Option<Effect> {
    if player.map is Some {
        Some(Effect::ToMap(MapRequest::OpenLocker))
    } else {
        None
    }
}

/// Asks for everything in range again.
pub open spec fn refresh_request_effect(player: Player) -> Option<Effect> {
    if player.map is Some {
        Some(Effect::ToMap(MapRequest::RequestRefresh))
    } else {
        None
    }
}

/// Accepts a party request.
pub open spec fn party_accept_effect(player: Player, packet: Option<PartyAcceptPacket>) -> Option<Effect> {
    if packet is Some {
        Some(Effect::ToWorld(WorldRequest::AcceptPartyRequest { inviter_player_id: packet->0.inviter_player_id, request_type: packet->0.request_type }))
    } else {
        None
    }
}

/// Removes a member from the party.
pub open spec fn party_remove_effect(player: Player, packet: Option<PartyRemovePacket>) -> Option<Effect> {
    if packet is Some {
        Some(Effect::ToWorld(WorldRequest::RemovePartyMember { player_id: packet->0.player_id }))
    } else {
        None
    }
}

/// Sends a private message.
pub open spec fn talk_tell_effect(player: Player, packet: Option<TalkTellPacket>) -> Option<Effect> {
    if packet is Some {
        Some(Effect::ToWorld(WorldRequest::SendPrivateMessage { name: packet->0.name, message: packet->0.message }))
    } else {
        None
    }
}

/// Sends a message to the party.
pub open spec fn talk_open_effect(player: Player, packet: Option<TalkOpenPacket>) -> Option<Effect> {
    if packet is Some {
        Some(Effect::ToWorld(WorldRequest::BroadcastPartyMessage { message: packet->0.message }))
    } else {
        None
    }
}

/// Reports a player to the staff.
pub open spec fn admin_interact_report_effect(player: Player, packet: Option<AdminInteractReportPacket>) -> Option<Effect> {
    if packet is Some {
        Some(Effect::ToWorld(WorldRequest::ReportPlayer { reportee: packet->0.reportee, message: packet->0.message }))
    } else {
        None
    }
}

/// Sends a message to the staff.
pub open spec fn admin_interact_tell_effect(player: Player, packet: Option<AdminInteractTellPacket>) -> Option<Effect> {
    if packet is Some {
        Some(Effect::ToWorld(WorldRequest::SendAdminMessage { message: packet->0.message }))
    } else {
        None
    }
}

/// Asks for the party's members.
pub open spec fn party_take_effect(player: Player) -> Option<Effect> {
    if true {
        Some(Effect::ToWorld(WorldRequest::RequestPartyList))
    } else {
        None
    }
}

/// Asks for the names of the players online.
pub open spec fn players_list_effect(player: Player) -> Option<Effect> {
    if true {
        Some(Effect::ToWorld(WorldRequest::RequestPlayerNameList))
    } else {
        None
    }
}

/// Asks for the players online.
pub open spec fn players_request_effect(player: Player) -> Option<Effect> {
    if true {
        Some(Effect::ToWorld(WorldRequest::RequestPlayerList))
    } else {
        None
    }
}

impl Player {
    /// Opens board `board_id + 1`; see [`board_open_effect`].
    pub fn board_open(&mut self, packet: Option<BoardOpenPacket>) -> (r: Option<Effect>)
        requires
            packet matches Some(p) ==> p.board_id < i32::MAX,
        ensures
            *final(self) == *old(self),
            r == board_open_effect(*old(self), packet),
    {
        if self.map.is_none() {
            return None;
        }
        match packet {
            Some(p) => Some(Effect::ToMap(MapRequest::OpenBoard { board_id: p.board_id + 1 })),
            None => None,
        }
    }

    /// Asks for a player's book; see [`book_request_effect`].
    pub fn book_request(&mut self, packet: Option<BookRequestPacket>) -> (r: Option<Effect>)
        ensures
            *final(self) == *old(self),
            r == book_request_effect(*old(self), packet),
    {
        if self.map.is_none() {
            return None;
        }
        match packet {
            Some(p) => Some(Effect::ToMap(MapRequest::RequestBook { player_id: p.player_id })),
            None => None,
        }
    }

    /// Puts an item into the open chest; see [`chest_add_effect`].
    pub fn chest_add(&mut self, packet: Option<ChestAddPacket>) -> (r: Option<Effect>)
        ensures
            *final(self) == *old(self),
            r == chest_add_effect(*old(self), packet),
    {
        if self.map.is_none() {
            return None;
        }
        match packet {
            Some(p) => Some(Effect::ToMap(MapRequest::AddChestItem { item_id: p.item_id, amount: p.amount })),
            None => None,
        }
    }

    /// Opens the chest at the given place; see [`chest_open_effect`].
    pub fn chest_open(&mut self, packet: Option<ChestOpenPacket>) -> (r: Option<Effect>)
        ensures
            *final(self) == *old(self),
            r == chest_open_effect(*old(self), packet),
    {
        if self.map.is_none() {
            return None;
        }
        match packet {
            Some(p) => Some(Effect::ToMap(MapRequest::OpenChest { coords: p.coords })),
            None => None,
        }
    }

    /// Takes an item out of the open chest; see [`chest_take_effect`].
    pub fn chest_take(&mut self, packet: Option<ChestTakePacket>) -> (r: Option<Effect>)
        ensures
            *final(self) == *old(self),
            r == chest_take_effect(*old(self), packet),
    {
        if self.map.is_none() {
            return None;
        }
        match packet {
            Some(p) => Some(Effect::ToMap(MapRequest::TakeChestItem { item_id: p.take_item_id })),
            None => None,
        }
    }

    /// Opens the door at the given place; see [`door_open_effect`].
    pub fn door_open(&mut self, packet: Option<DoorOpenPacket>) -> (r: Option<Effect>)
        ensures
            *final(self) == *old(self),
            r == door_open_effect(*old(self), packet),
    {
        if self.map.is_none() {
            return None;
        }
        match packet {
            Some(p) => Some(Effect::ToMap(MapRequest::OpenDoor { coords: p.coords })),
            None => None,
        }
    }

    /// Plays an emote; see [`emote_report_effect`].
    pub fn emote_report(&mut self, packet: Option<EmoteReportPacket>) -> (r: Option<Effect>)
        ensures
            *final(self) == *old(self),
            r == emote_report_effect(*old(self), packet),
    {
        if self.map.is_none() {
            return None;
        }
        match packet {
            Some(p) => Some(Effect::ToMap(MapRequest::Emote { emote: p.emote })),
            None => None,
        }
    }

    /// Turns the character; see [`face_player_effect`].
    pub fn face_player(&mut self, packet: Option<FacePlayerPacket>) -> (r: Option<Effect>)
        ensures
            *final(self) == *old(self),
            r == face_player_effect(*old(self), packet),
    {
        if self.map.is_none() {
            return None;
        }
        match packet {
            Some(p) => Some(Effect::ToMap(MapRequest::Face { direction: p.direction })),
            None => None,
        }
    }

    /// Opens the guild master's dialog; see [`guild_open_effect`].
    pub fn guild_open(&mut self, packet: Option<GuildOpenPacket>) -> (r: Option<Effect>)
        ensures
            *final(self) == *old(self),
            r == guild_open_effect(*old(self), packet),
    {
        if self.map.is_none() {
            return None;
        }
        match packet {
            Some(p) => Some(Effect::ToMap(MapRequest::OpenGuildMaster { npc_index: p.npc_index })),
            None => None,
        }
    }

    /// Accepts an invitation to found a guild; see [`guild_accept_effect`].
    pub fn guild_accept(&mut self, packet: Option<GuildAcceptPacket>) -> (r: Option<Effect>)
        ensures
            *final(self) == *old(self),
            r == guild_accept_effect(*old(self), packet),
    {
        if self.map.is_none() {
            return None;
        }
        match packet {
            Some(p) => Some(Effect::ToMap(MapRequest::AcceptGuildCreationRequest { inviter_player_id: p.inviter_player_id })),
            None => None,
        }
    }

    /// Drops an item; see [`item_drop_effect`].
    pub fn item_drop(&mut self, packet: Option<ItemDropPacket>) -> (r: Option<Effect>)
        ensures
            *final(self) == *old(self),
            r == item_drop_effect(*old(self), packet),
    {
        if self.map.is_none() {
            return None;
        }
        match packet {
            Some(p) => Some(Effect::ToMap(MapRequest::DropItem { item_id: p.item_id, amount: p.amount, x: p.x, y: p.y })),
            None => None,
        }
    }

    /// Picks an item up; see [`item_get_effect`].
    pub fn item_get(&mut self, packet: Option<ItemGetPacket>) -> (r: Option<Effect>)
        ensures
            *final(self) == *old(self),
            r == item_get_effect(*old(self), packet),
    {
        if self.map.is_none() {
            return None;
        }
        match packet {
            Some(p) => Some(Effect::ToMap(MapRequest::GetItem { item_index: p.item_index })),
            None => None,
        }
    }

    /// Destroys an item; see [`item_junk_effect`].
    pub fn item_junk(&mut self, packet: Option<ItemJunkPacket>) -> (r: Option<Effect>)
        ensures
            *final(self) == *old(self),
            r == item_junk_effect(*old(self), packet),
    {
        if self.map.is_none() {
            return None;
        }
        match packet {
            Some(p) => Some(Effect::ToMap(MapRequest::JunkItem { item_id: p.item_id, amount: p.amount })),
            None => None,
        }
    }

    /// Uses an item; see [`item_use_effect`].
    pub fn item_use(&mut self, packet: Option<ItemUsePacket>) -> (r: Option<Effect>)
        ensures
            *final(self) == *old(self),
            r == item_use_effect(*old(self), packet),
    {
        if self.map.is_none() {
            return None;
        }
        match packet {
            Some(p) => Some(Effect::ToMap(MapRequest::UseItem { item_id: p.item_id })),
            None => None,
        }
    }

    /// Plays track `track_id + 1` on the jukebox; see [`jukebox_msg_effect`].
    pub fn jukebox_msg(&mut self, packet: Option<JukeboxMsgPacket>) -> (r: Option<Effect>)
        requires
            packet matches Some(p) ==> p.track_id < i32::MAX,
        ensures
            *final(self) == *old(self),
            r == jukebox_msg_effect(*old(self), packet),
    {
        if self.map.is_none() {
            return None;
        }
        match packet {
            Some(p) => Some(Effect::ToMap(MapRequest::PlayJukeboxTrack { track_id: p.track_id + 1 })),
            None => None,
        }
    }

    /// Plays a note on an instrument; see [`jukebox_use_effect`].
    pub fn jukebox_use(&mut self, packet: Option<JukeboxUsePacket>) -> (r: Option<Effect>)
        ensures
            *final(self) == *old(self),
            r == jukebox_use_effect(*old(self), packet),
    {
        if self.map.is_none() {
            return None;
        }
        match packet {
            Some(p) => Some(Effect::ToMap(MapRequest::PlayInstrument { instrument_id: p.instrument_id, note_id: p.note_id })),
            None => None,
        }
    }

    /// Takes an item out of the locker; see [`locker_take_effect`].
    pub fn locker_take(&mut self, packet: Option<LockerTakePacket>) -> (r: Option<Effect>)
        ensures
            *final(self) == *old(self),
            r == locker_take_effect(*old(self), packet),
    {
        if self.map.is_none() {
            return None;
        }
        match packet {
            Some(p) => Some(Effect::ToMap(MapRequest::TakeLockerItem { item_id: p.take_item_id })),
            None => None,
        }
    }

    /// Asks for the npcs in range; see [`npc_range_request_effect`].
    pub fn npc_range_request(&mut self, packet: Option<NpcRangeRequestPacket>) -> (r: Option<Effect>)
        ensures
            *final(self) == *old(self),
            r == npc_range_request_effect(*old(self), packet),
    {
        if self.map.is_none() {
            return None;
        }
        match packet {
            Some(p) => Some(Effect::ToMap(MapRequest::RequestNpcs { npc_indexes: p.npc_indexes })),
            None => None,
        }
    }

    /// Equips an item; see [`paperdoll_add_effect`].
    pub fn paperdoll_add(&mut self, packet: Option<PaperdollAddPacket>) -> (r: Option<Effect>)
        ensures
            *final(self) == *old(self),
            r == paperdoll_add_effect(*old(self), packet),
    {
        if self.map.is_none() {
            return None;
        }
        match packet {
            Some(p) => Some(Effect::ToMap(MapRequest::Equip { item_id: p.item_id, sub_loc: p.sub_loc })),
            None => None,
        }
    }

    /// Unequips an item; see [`paperdoll_remove_effect`].
    pub fn paperdoll_remove(&mut self, packet: Option<PaperdollRemovePacket>) -> (r: Option<Effect>)
        ensures
            *final(self) == *old(self),
            r == paperdoll_remove_effect(*old(self), packet),
    {
        if self.map.is_none() {
            return None;
        }
        match packet {
            Some(p) => Some(Effect::ToMap(MapRequest::Unequip { item_id: p.item_id, sub_loc: p.sub_loc })),
            None => None,
        }
    }

    /// Asks for a player's paperdoll; see [`paperdoll_request_effect`].
    pub fn paperdoll_request(&mut self, packet: Option<PaperdollRequestPacket>) -> (r: Option<Effect>)
        ensures
            *final(self) == *old(self),
            r == paperdoll_request_effect(*old(self), packet),
    {
        if self.map.is_none() {
            return None;
        }
        match packet {
            Some(p) => Some(Effect::ToMap(MapRequest::RequestPaperdoll { player_id: p.player_id })),
            None => None,
        }
    }

    /// Asks for the players in range; see [`player_range_request_effect`].
    pub fn player_range_request(&mut self, packet: Option<PlayerRangeRequestPacket>) -> (r: Option<Effect>)
        ensures
            *final(self) == *old(self),
            r == player_range_request_effect(*old(self), packet),
    {
        if self.map.is_none() {
            return None;
        }
        match packet {
            Some(p) => Some(Effect::ToMap(MapRequest::RequestPlayers { player_ids: p.player_ids })),
            None => None,
        }
    }

    /// Looks for a player by name; see [`players_accept_effect`].
    pub fn players_accept(&mut self, packet: Option<PlayersAcceptPacket>) -> (r: Option<Effect>)
        ensures
            *final(self) == *old(self),
            r == players_accept_effect(*old(self), packet),
    {
        if self.map.is_none() {
            return None;
        }
        match packet {
            Some(p) => Some(Effect::ToMap(MapRequest::FindPlayer { name: p.name })),
            None => None,
        }
    }

    /// Asks for the players and npcs in range; see [`range_request_effect`].
    pub fn range_request(&mut self, packet: Option<RangeRequestPacket>) -> (r: Option<Effect>)
        ensures
            *final(self) == *old(self),
            r == range_request_effect(*old(self), packet),
    {
        if self.map.is_none() {
            return None;
        }
        match packet {
            Some(p) => Some(Effect::ToMap(MapRequest::RequestPlayersAndNpcs { player_ids: p.player_ids, npc_indexes: p.npc_indexes })),
            None => None,
        }
    }

    /// Asks a player to trade; see [`trade_request_effect`].
    pub fn trade_request(&mut self, packet: Option<TradeRequestPacket>) -> (r: Option<Effect>)
        ensures
            *final(self) == *old(self),
            r == trade_request_effect(*old(self), packet),
    {
        if self.map.is_none() {
            return None;
        }
        match packet {
            Some(p) => Some(Effect::ToMap(MapRequest::RequestTrade { player_id: p.player_id })),
            None => None,
        }
    }

    /// Accepts a trade request; see [`trade_accept_effect`].
    pub fn trade_accept(&mut self, packet: Option<TradeAcceptPacket>) -> (r: Option<Effect>)
        ensures
            *final(self) == *old(self),
            r == trade_accept_effect(*old(self), packet),
    {
        if self.map.is_none() {
            return None;
        }
        match packet {
            Some(p) => Some(Effect::ToMap(MapRequest::AcceptTradeRequest { player_id: p.player_id })),
            None => None,
        }
    }

    /// Offers an item in the trade; see [`trade_add_effect`].
    pub fn trade_add(&mut self, packet: Option<TradeAddPacket>) -> (r: Option<Effect>)
        ensures
            *final(self) == *old(self),
            r == trade_add_effect(*old(self), packet),
    {
        if self.map.is_none() {
            return None;
        }
        match packet {
            Some(p) => Some(Effect::ToMap(MapRequest::AddTradeItem { item_id: p.item_id, amount: p.amount })),
            None => None,
        }
    }

    /// Withdraws an item from the trade; see [`trade_remove_effect`].
    pub fn trade_remove(&mut self, packet: Option<TradeRemovePacket>) -> (r: Option<Effect>)
        ensures
            *final(self) == *old(self),
            r == trade_remove_effect(*old(self), packet),
    {
        if self.map.is_none() {
            return None;
        }
        match packet {
            Some(p) => Some(Effect::ToMap(MapRequest::RemoveTradeItem { item_id: p.item_id })),
            None => None,
        }
    }

    /// Deposits gold at the banker; see [`bank_add_effect`].
    pub fn bank_add(&mut self, packet: Option<BankAddPacket>) -> (r: Option<Effect>)
        ensures
            *final(self) == *old(self),
            r == bank_add_effect(*old(self), packet),
    {
        if self.map.is_none() {
            return None;
        }
        match packet {
            Some(p) => {
                if self.session_id != Some(p.session_id) {
                    return None;
                }
                match self.interact_npc_index {
                    Some(npc_index) => Some(Effect::ToMap(MapRequest::DepositGold { npc_index: npc_index, amount: p.amount })),
                    None => None,
                }
            },
            None => None,
        }
    }

    /// Withdraws gold at the banker; see [`bank_take_effect`].
    pub fn bank_take(&mut self, packet: Option<BankTakePacket>) -> (r: Option<Effect>)
        ensures
            *final(self) == *old(self),
            r == bank_take_effect(*old(self), packet),
    {
        if self.map.is_none() {
            return None;
        }
        match packet {
            Some(p) => {
                if self.session_id != Some(p.session_id) {
                    return None;
                }
                match self.interact_npc_index {
                    Some(npc_index) => Some(Effect::ToMap(MapRequest::WithdrawGold { npc_index: npc_index, amount: p.amount })),
                    None => None,
                }
            },
            None => None,
        }
    }

    /// Buys a haircut; see [`barber_buy_effect`].
    pub fn barber_buy(&mut self, packet: Option<BarberBuyPacket>) -> (r: Option<Effect>)
        ensures
            *final(self) == *old(self),
            r == barber_buy_effect(*old(self), packet),
    {
        if self.map.is_none() {
            return None;
        }
        match packet {
            Some(p) => {
                if self.session_id != Some(p.session_id) {
                    return None;
                }
                match self.interact_npc_index {
                    Some(npc_index) => Some(Effect::ToMap(MapRequest::BuyHaircut { npc_index: npc_index, hair_style: p.hair_style, hair_color: p.hair_color })),
                    None => None,
                }
            },
            None => None,
        }
    }

    /// Answers the innkeeper's questions; see [`citizen_reply_effect`].
    pub fn citizen_reply(&mut self, packet: Option<CitizenReplyPacket>) -> (r: Option<Effect>)
        ensures
            *final(self) == *old(self),
            r == citizen_reply_effect(*old(self), packet),
    {
        if self.map.is_none() {
            return None;
        }
        match packet {
            Some(p) => {
                if self.session_id != Some(p.session_id) {
                    return None;
                }
                match self.interact_npc_index {
                    Some(npc_index) => Some(Effect::ToMap(MapRequest::RequestCitizenship { npc_index: npc_index, answers: p.answers })),
                    None => None,
                }
            },
            None => None,
        }
    }

    /// Asks the innkeeper for a bed; see [`citizen_request_effect`].
    pub fn citizen_request(&mut self, packet: Option<CitizenRequestPacket>) -> (r: Option<Effect>)
        ensures
            *final(self) == *old(self),
            r == citizen_request_effect(*old(self), packet),
    {
        if self.map.is_none() {
            return None;
        }
        match packet {
            Some(p) => {
                if self.session_id != Some(p.session_id) {
                    return None;
                }
                match self.interact_npc_index {
                    Some(npc_index) => Some(Effect::ToMap(MapRequest::RequestSleep { npc_index: npc_index })),
                    None => None,
                }
            },
            None => None,
        }
    }

    /// Buys an item from the shop; see [`shop_buy_effect`].
    pub fn shop_buy(&mut self, packet: Option<ShopBuyPacket>) -> (r: Option<Effect>)
        ensures
            *final(self) == *old(self),
            r == shop_buy_effect(*old(self), packet),
    {
        if self.map.is_none() {
            return None;
        }
        match packet {
            Some(p) => {
                if self.session_id != Some(p.session_id) {
                    return None;
                }
                match self.interact_npc_index {
                    Some(npc_index) => Some(Effect::ToMap(MapRequest::BuyItem { npc_index: npc_index, item_id: p.item_id, amount: p.amount })),
                    None => None,
                }
            },
            None => None,
        }
    }

    /// Crafts an item at the shop; see [`shop_create_effect`].
    pub fn shop_create(&mut self, packet: Option<ShopCreatePacket>) -> (r: Option<Effect>)
        ensures
            *final(self) == *old(self),
            r == shop_create_effect(*old(self), packet),
    {
        if self.map.is_none() {
            return None;
        }
        match packet {
            Some(p) => {
                if self.session_id != Some(p.session_id) {
                    return None;
                }
                match self.interact_npc_index {
                    Some(npc_index) => Some(Effect::ToMap(MapRequest::CraftItem { npc_index: npc_index, item_id: p.craft_item_id })),
                    None => None,
                }
            },
            None => None,
        }
    }

    /// Sells an item to the shop; see [`shop_sell_effect`].
    pub fn shop_sell(&mut self, packet: Option<ShopSellPacket>) -> (r: Option<Effect>)
        ensures
            *final(self) == *old(self),
            r == shop_sell_effect(*old(self), packet),
    {
        if self.map.is_none() {
            return None;
        }
        match packet {
            Some(p) => {
                if self.session_id != Some(p.session_id) {
                    return None;
                }
                match self.interact_npc_index {
                    Some(npc_index) => Some(Effect::ToMap(MapRequest::SellItem { npc_index: npc_index, item_id: p.item_id, amount: p.amount })),
                    None => None,
                }
            },
            None => None,
        }
    }

    /// Resets the character at the skill master; see [`stat_skill_junk_effect`].
    pub fn stat_skill_junk(&mut self, packet: Option<StatSkillJunkPacket>) -> (r: Option<Effect>)
        ensures
            *final(self) == *old(self),
            r == stat_skill_junk_effect(*old(self), packet),
    {
        if self.map.is_none() {
            return None;
        }
        match packet {
            Some(p) => {
                if self.session_id != Some(p.session_id) {
                    return None;
                }
                match self.interact_npc_index {
                    Some(npc_index) => Some(Effect::ToMap(MapRequest::ResetCharacter { npc_index: npc_index })),
                    None => None,
                }
            },
            None => None,
        }
    }

    /// Forgets a skill at the skill master; see [`stat_skill_remove_effect`].
    pub fn stat_skill_remove(&mut self, packet: Option<StatSkillRemovePacket>) -> (r: Option<Effect>)
        ensures
            *final(self) == *old(self),
            r == stat_skill_remove_effect(*old(self), packet),
    {
        if self.map.is_none() {
            return None;
        }
        match packet {
            Some(p) => {
                if self.session_id != Some(p.session_id) {
                    return None;
                }
                match self.interact_npc_index {
                    Some(npc_index) => Some(Effect::ToMap(MapRequest::ForgetSkill { npc_index: npc_index, spell_id: p.spell_id })),
                    None => None,
                }
            },
            None => None,
        }
    }

    /// Asks the priest for a wedding; see [`priest_request_effect`].
    pub fn priest_request(&mut self, packet: Option<PriestRequestPacket>) -> (r: Option<Effect>)
        ensures
            *final(self) == *old(self),
            r == priest_request_effect(*old(self), packet),
    {
        if self.map.is_none() {
            return None;
        }
        match packet {
            Some(p) => {
                if self.session_id != Some(p.session_id) {
                    return None;
                }
                match self.interact_npc_index {
                    Some(npc_index) => Some(Effect::ToMap(MapRequest::RequestWedding { npc_index: npc_index, name: p.name })),
                    None => None,
                }
            },
            None => None,
        }
    }

    /// Opens the banker's dialog in a new session; see [`bank_open_effect`].
    pub fn bank_open(&mut self, packet: Option<BankOpenPacket>) -> (r: Option<Effect>)
        ensures
            fresh_session(*old(self), *final(self)),
            r == bank_open_effect(*old(self), packet, final(self).session_id->0),
    {
        let session_id = self.generate_session_id();
        if self.map.is_none() {
            return None;
        }
        match packet {
            Some(p) => Some(Effect::ToMap(MapRequest::OpenBank { npc_index: p.npc_index, session_id: session_id })),
            None => None,
        }
    }

    /// Opens the barber's dialog in a new session; see [`barber_open_effect`].
    pub fn barber_open(&mut self, packet: Option<BarberOpenPacket>) -> (r: Option<Effect>)
        ensures
            fresh_session(*old(self), *final(self)),
            r == barber_open_effect(*old(self), packet, final(self).session_id->0),
    {
        let session_id = self.generate_session_id();
        if self.map.is_none() {
            return None;
        }
        match packet {
            Some(p) => Some(Effect::ToMap(MapRequest::OpenBarber { npc_index: p.npc_index, session_id: session_id })),
            None => None,
        }
    }

    /// Opens the innkeeper's dialog in a new session; see [`citizen_open_effect`].
    pub fn citizen_open(&mut self, packet: Option<CitizenOpenPacket>) -> (r: Option<Effect>)
        ensures
            fresh_session(*old(self), *final(self)),
            r == citizen_open_effect(*old(self), packet, final(self).session_id->0),
    {
        let session_id = self.generate_session_id();
        if self.map.is_none() {
            return None;
        }
        match packet {
            Some(p) => Some(Effect::ToMap(MapRequest::OpenInn { npc_index: p.npc_index, session_id: session_id })),
            None => None,
        }
    }

    /// Opens the shop in a new session; see [`shop_open_effect`].
    pub fn shop_open(&mut self, packet: Option<ShopOpenPacket>) -> (r: Option<Effect>)
        ensures
            fresh_session(*old(self), *final(self)),
            r == shop_open_effect(*old(self), packet, final(self).session_id->0),
    {
        let session_id = self.generate_session_id();
        if self.map.is_none() {
            return None;
        }
        match packet {
            Some(p) => Some(Effect::ToMap(MapRequest::OpenShop { npc_index: p.npc_index, session_id: session_id })),
            None => None,
        }
    }

    /// Opens the skill master's dialog in a new session; see [`stat_skill_open_effect`].
    pub fn stat_skill_open(&mut self, packet: Option<StatSkillOpenPacket>) -> (r: Option<Effect>)
        ensures
            fresh_session(*old(self), *final(self)),
            r == stat_skill_open_effect(*old(self), packet, final(self).session_id->0),
    {
        let session_id = self.generate_session_id();
        if self.map.is_none() {
            return None;
        }
        match packet {
            Some(p) => Some(Effect::ToMap(MapRequest::OpenSkillMaster { npc_index: p.npc_index, session_id: session_id })),
            None => None,
        }
    }

    /// Opens the priest's dialog in a new session; see [`priest_open_effect`].
    pub fn priest_open(&mut self, packet: Option<PriestOpenPacket>) -> (r: Option<Effect>)
        ensures
            fresh_session(*old(self), *final(self)),
            r == priest_open_effect(*old(self), packet, final(self).session_id->0),
    {
        let session_id = self.generate_session_id();
        if self.map.is_none() {
            return None;
        }
        match packet {
            Some(p) => Some(Effect::ToMap(MapRequest::OpenPriest { npc_index: p.npc_index, session_id: session_id })),
            None => None,
        }
    }

    /// Opens the law office's dialog in a new session; see [`marriage_open_effect`].
    pub fn marriage_open(&mut self, packet: Option<MarriageOpenPacket>) -> (r: Option<Effect>)
        ensures
            fresh_session(*old(self), *final(self)),
            r == marriage_open_effect(*old(self), packet, final(self).session_id->0),
    {
        let session_id = self.generate_session_id();
        if self.map.is_none() {
            return None;
        }
        match packet {
            Some(p) => Some(Effect::ToMap(MapRequest::OpenLaw { npc_index: p.npc_index, session_id: session_id })),
            None => None,
        }
    }

    /// Talks to a quest npc in a new session; see [`quest_use_effect`].
    pub fn quest_use(&mut self, packet: Option<QuestUsePacket>) -> (r: Option<Effect>)
        ensures
            fresh_session(*old(self), *final(self)),
            r == quest_use_effect(*old(self), packet, final(self).session_id->0),
    {
        let session_id = self.generate_session_id();
        if self.map.is_none() {
            return None;
        }
        match packet {
            Some(p) => Some(Effect::ToMap(MapRequest::TalkToQuestNpc { npc_index: p.npc_index, quest_id: p.quest_id, session_id: session_id })),
            None => None,
        }
    }

    /// Accepts a wedding request; see [`priest_accept_effect`].
    pub fn priest_accept(&mut self, packet: Option<PriestAcceptPacket>) -> (r: Option<Effect>)
        ensures
            *final(self) == *old(self),
            r == priest_accept_effect(*old(self), packet),
    {
        if self.map.is_none() {
            return None;
        }
        match packet {
            Some(p) => if self.session_id == Some(p.session_id) {
                Some(Effect::ToMap(MapRequest::AcceptWeddingRequest))
            } else {
                None
            },
            None => None,
        }
    }

    /// Says "I do"; see [`priest_use_effect`].
    pub fn priest_use(&mut self, packet: Option<PriestUsePacket>) -> (r: Option<Effect>)
        ensures
            *final(self) == *old(self),
            r == priest_use_effect(*old(self), packet),
    {
        if self.map.is_none() {
            return None;
        }
        match packet {
            Some(p) => if self.session_id == Some(p.session_id) {
                Some(Effect::ToMap(MapRequest::SayIDo))
            } else {
                None
            },
            None => None,
        }
    }

    /// Gives up citizenship at the innkeeper; see [`citizen_remove_effect`].
    pub fn citizen_remove(&mut self) -> (r: Option<Effect>)
        ensures
            *final(self) == *old(self),
            r == citizen_remove_effect(*old(self)),
    {
        if self.map.is_none() {
            return None;
        }
        match self.interact_npc_index {
            Some(npc_index) => Some(Effect::ToMap(MapRequest::RemoveCitizenship { npc_index: npc_index })),
            None => None,
        }
    }

    /// Upgrades the locker; see [`locker_buy_effect`].
    pub fn locker_buy(&mut self) -> (r: Option<Effect>)
        ensures
            *final(self) == *old(self),
            r == locker_buy_effect(*old(self)),
    {
        if self.map.is_none() {
            return None;
        }
        match self.interact_npc_index {
            Some(npc_index) => Some(Effect::ToMap(MapRequest::UpgradeLocker { npc_index: npc_index })),
            None => None,
        }
    }

    /// Opens the jukebox; see [`jukebox_open_effect`].
    pub fn jukebox_open(&mut self) -> (r: Option<Effect>)
        ensures
            *final(self) == *old(self),
            r == jukebox_open_effect(*old(self)),
    {
        if self.map.is_none() {
            return None;
        }
        Some(Effect::ToMap(MapRequest::OpenJukebox))
    }

    /// Opens the locker; see [`locker_open_effect`].
    pub fn locker_open(&mut self) -> (r: Option<Effect>)
        ensures
            *final(self) == *old(self),
            r == locker_open_effect(*old(self)),
    {
        if self.map.is_none() {
            return None;
        }
        Some(Effect::ToMap(MapRequest::OpenLocker))
    }

    /// Asks for everything in range again; see [`refresh_request_effect`].
    pub fn refresh_request(&mut self) -> (r: Option<Effect>)
        ensures
            *final(self) == *old(self),
            r == refresh_request_effect(*old(self)),
    {
        if self.map.is_none() {
            return None;
        }
        Some(Effect::ToMap(MapRequest::RequestRefresh))
    }

    /// Accepts a party request; see [`party_accept_effect`].
    pub fn party_accept(&mut self, packet: Option<PartyAcceptPacket>) -> (r: Option<Effect>)
        ensures
            *final(self) == *old(self),
            r == party_accept_effect(*old(self), packet),
    {
        match packet {
            Some(p) => Some(Effect::ToWorld(WorldRequest::AcceptPartyRequest { inviter_player_id: p.inviter_player_id, request_type: p.request_type })),
            None => None,
        }
    }

    /// Removes a member from the party; see [`party_remove_effect`].
    pub fn party_remove(&mut self, packet: Option<PartyRemovePacket>) -> (r: Option<Effect>)
        ensures
            *final(self) == *old(self),
            r == party_remove_effect(*old(self), packet),
    {
        match packet {
            Some(p) => Some(Effect::ToWorld(WorldRequest::RemovePartyMember { player_id: p.player_id })),
            None => None,
        }
    }

    /// Sends a private message; see [`talk_tell_effect`].
    pub fn talk_tell(&mut self, packet: Option<TalkTellPacket>) -> (r: Option<Effect>)
        ensures
            *final(self) == *old(self),
            r == talk_tell_effect(*old(self), packet),
    {
        match packet {
            Some(p) => Some(Effect::ToWorld(WorldRequest::SendPrivateMessage { name: p.name, message: p.message })),
            None => None,
        }
    }

    /// Sends a message to the party; see [`talk_open_effect`].
    pub fn talk_open(&mut self, packet: Option<TalkOpenPacket>) -> (r: Option<Effect>)
        ensures
            *final(self) == *old(self),
            r == talk_open_effect(*old(self), packet),
    {
        match packet {
            Some(p) => Some(Effect::ToWorld(WorldRequest::BroadcastPartyMessage { message: p.message })),
            None => None,
        }
    }

    /// Reports a player to the staff; see [`admin_interact_report_effect`].
    pub fn admin_interact_report(&mut self, packet: Option<AdminInteractReportPacket>) -> (r: Option<Effect>)
        ensures
            *final(self) == *old(self),
            r == admin_interact_report_effect(*old(self), packet),
    {
        match packet {
            Some(p) => Some(Effect::ToWorld(WorldRequest::ReportPlayer { reportee: p.reportee, message: p.message })),
            None => None,
        }
    }

    /// Sends a message to the staff; see [`admin_interact_tell_effect`].
    pub fn admin_interact_tell(&mut self, packet: Option<AdminInteractTellPacket>) -> (r: Option<Effect>)
        ensures
            *final(self) == *old(self),
            r == admin_interact_tell_effect(*old(self), packet),
    {
        match packet {
            Some(p) => Some(Effect::ToWorld(WorldRequest::SendAdminMessage { message: p.message })),
            None => None,
        }
    }

    /// Asks for the party's members; see [`party_take_effect`].
    pub fn party_take(&mut self) -> (r: Option<Effect>)
        ensures
            *final(self) == *old(self),
            r == party_take_effect(*old(self)),
    {
        Some(Effect::ToWorld(WorldRequest::RequestPartyList))
    }

    /// Asks for the names of the players online; see [`players_list_effect`].
    pub fn players_list(&mut self) -> (r: Option<Effect>)
        ensures
            *final(self) == *old(self),
            r == players_list_effect(*old(self)),
    {
        Some(Effect::ToWorld(WorldRequest::RequestPlayerNameList))
    }

    /// Asks for the players online; see [`players_request_effect`].
    pub fn players_request(&mut self) -> (r: Option<Effect>)
        ensures
            *final(self) == *old(self),
            r == players_request_effect(*old(self)),
    {
        Some(Effect::ToWorld(WorldRequest::RequestPlayerList))
    }
}

} // verus!
