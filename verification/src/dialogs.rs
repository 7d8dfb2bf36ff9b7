use vstd::prelude::*;

use crate::effects::{Effect, MapRequest, PartyRequest};
use crate::packets::{
    BoardCreatePacket, BoardRemovePacket, BoardTakePacket, ChairRequestPacket, CitizenAcceptPacket,
    FileRequest, GuildBuyPacket, GuildPlayerPacket, LockerAddPacket, MarriageRequestPacket,
    MarriageRequestType, PartyRequestPacket, PartyRequestType, QuestAcceptPacket, QuestListPacket,
    QuestPage, SitAction, SitRequestPacket, StatSkillAddPacket, StatSkillTakePacket, Train,
    TradeAgreePacket, WarpTakePacket, WelcomeAgreePacket, WelcomeMsgPacket, WelcomeRequestPacket,
};
use crate::player::{fresh_session, Player};
use crate::settings::Settings;
use crate::text::{lowercase, to_lowercase};

verus! {

/// The fields of the title item packet.
#[derive(Debug, Clone, PartialEq, Eq)]
pub struct ItemReportPacket {
    pub item_id: i32,
    pub title: String,
}

pub open spec fn trade_agree_effect(player: Player, packet: Option<TradeAgreePacket>) -> Option<Effect> {
    if player.map is Some && packet is Some {
        if packet->0.agree {
            Some(Effect::ToMap(MapRequest::AgreeTrade))
        } else {
            Some(Effect::ToMap(MapRequest::DisagreeTrade))
        }
    } else {
        None
    }
}

pub open spec fn trade_close_effect(player: Player) -> Option<Effect> {
    if player.map is Some && player.interact_player_id is Some {
        Some(Effect::ToMap(MapRequest::CancelTrade { player_id: player.interact_player_id->0 }))
    } else {
        None
    }
}

pub open spec fn sit_request_effect(player: Player, packet: Option<SitRequestPacket>) -> Option<Effect> {
    if player.map is Some && packet is Some {
        match packet->0.sit_action {
            SitAction::Sit => Some(Effect::ToMap(MapRequest::Sit)),
            SitAction::Stand => Some(Effect::ToMap(MapRequest::Stand)),
            SitAction::Unrecognized(_) => None,
        }
    } else {
        None
    }
}

/// Sitting on a chair needs the chair's place.
pub open spec fn chair_request_effect(player: Player, packet: Option<ChairRequestPacket>) -> Option<Effect> {
    if player.map is Some && packet is Some {
        match packet->0.sit_action {
            SitAction::Sit => match packet->0.coords {
                Some(coords) => Some(Effect::ToMap(MapRequest::SitChair { coords })),
                None => None,
            },
            SitAction::Stand => Some(Effect::ToMap(MapRequest::Stand)),
            SitAction::Unrecognized(_) => None,
        }
    } else {
        None
    }
}

/// A party request goes to the player named in the packet, carrying the
/// sender's id.
pub open spec fn party_request_effect(player: Player, packet: Option<PartyRequestPacket>) -> Option<Effect> {
    if player.map is Some && packet is Some {
        match packet->0.request_type {
            PartyRequestType::Join => Some(Effect::ToMap(MapRequest::PartyRequest {
                target_player_id: packet->0.player_id,
                request: PartyRequest::Join(player.id),
            })),
            PartyRequestType::Invite => Some(Effect::ToMap(MapRequest::PartyRequest {
                target_player_id: packet->0.player_id,
                request: PartyRequest::Invite(player.id),
            })),
            PartyRequestType::Unrecognized(_) => None,
        }
    } else {
        None
    }
}

pub open spec fn quest_list_effect(player: Player, packet: Option<QuestListPacket>) -> Option<Effect> {
    if player.map is Some && packet is Some {
        match packet->0.page {
            QuestPage::Progress => Some(Effect::ToMap(MapRequest::ViewQuestProgress)),
            QuestPage::History => Some(Effect::ToMap(MapRequest::ViewQuestHistory)),
            QuestPage::Unrecognized(_) => None,
        }
    } else {
        None
    }
}

pub open spec fn stat_skill_add_effect(player: Player, packet: Option<StatSkillAddPacket>) -> Option<Effect> {
    if player.map is Some && packet is Some {
        match packet->0.train {
            Train::Stat(stat_id) => Some(Effect::ToMap(MapRequest::LevelStat { stat_id })),
            Train::Skill(spell_id) => Some(Effect::ToMap(MapRequest::LevelSkill { spell_id })),
            Train::Neither => None,
        }
    } else {
        None
    }
}

/// Nothing is put into the locker while trading.
pub open spec fn locker_add_effect(player: Player, packet: Option<LockerAddPacket>) -> Option<Effect> {
    if player.map is Some && packet is Some && !player.trading {
        Some(Effect::ToMap(MapRequest::AddLockerItem { item_id: packet->0.item_id, amount: packet->0.amount }))
    } else {
        None
    }
}

/// Sleeping at the inn costs the price the innkeeper named.
pub open spec fn citizen_accept_effect(player: Player, packet: Option<CitizenAcceptPacket>) -> Option<Effect> {
    if player.map is Some && packet is Some && player.session_is(packet->0.session_id)
        && player.interact_npc_index is Some && player.sleep_cost is Some {
        Some(Effect::ToMap(MapRequest::Sleep {
            npc_index: player.interact_npc_index->0,
            cost: player.sleep_cost->0,
        }))
    } else {
        None
    }
}

/// No skill is learnt while trading.
pub open spec fn stat_skill_take_effect(player: Player, packet: Option<StatSkillTakePacket>) -> Option<Effect> {
    if player.map is Some && packet is Some && !player.trading && player.session_is(packet->0.session_id)
        && player.interact_npc_index is Some {
        Some(Effect::ToMap(MapRequest::LearnSkill {
            npc_index: player.interact_npc_index->0,
            spell_id: packet->0.spell_id,
        }))
    } else {
        None
    }
}

/// Deposits into the guild bank below the least deposit are ignored.
pub open spec fn guild_buy_effect(player: Player, packet: Option<GuildBuyPacket>, settings: Settings) -> Option<Effect> {
    if packet is Some && packet->0.gold_amount >= settings.guild_min_deposit
        && player.session_is(packet->0.session_id) && player.interact_npc_index is Some
        && player.map is Some {
        Some(Effect::ToMap(MapRequest::DepositGuildGold {
            npc_index: player.interact_npc_index->0,
            amount: packet->0.gold_amount,
        }))
    } else {
        None
    }
}

pub open spec fn guild_player_effect(player: Player, packet: Option<GuildPlayerPacket>) -> Option<Effect> {
    if packet is Some && player.session_is(packet->0.session_id) && player.map is Some {
        Some(Effect::ToMap(MapRequest::RequestToJoinGuild {
            guild_tag: packet->0.guild_tag,
            recruiter_name: packet->0.recruiter_name,
        }))
    } else {
        None
    }
}

/// Replies to a quest npc in the session that was pending, under the id of
/// the new session.
pub open spec fn quest_accept_effect(player: Player, packet: Option<QuestAcceptPacket>, old_session: i32, session_id: i32) -> Option<Effect> {
    if player.map is Some && packet is Some && packet->0.session_id == old_session
        && player.interact_npc_index is Some {
        Some(Effect::ToMap(MapRequest::ReplyToQuestNpc {
            npc_index: player.interact_npc_index->0,
            quest_id: packet->0.quest_id,
            session_id,
            action_id: packet->0.action_id,
        }))
    } else {
        None
    }
}

pub open spec fn board_create_effect(player: Player, packet: Option<BoardCreatePacket>) -> Option<Effect> {
    if player.map is Some && packet is Some && player.board_id is Some {
        Some(Effect::ToMap(MapRequest::CreateBoardPost {
            board_id: player.board_id->0,
            subject: packet->0.post_subject,
            body: packet->0.post_body,
        }))
    } else {
        None
    }
}

pub open spec fn board_remove_effect(player: Player, packet: Option<BoardRemovePacket>) -> Option<Effect> {
    if player.map is Some && packet is Some && player.board_id is Some {
        Some(Effect::ToMap(MapRequest::RemoveBoardPost { board_id: player.board_id->0, post_id: packet->0.post_id }))
    } else {
        None
    }
}

pub open spec fn board_take_effect(player: Player, packet: Option<BoardTakePacket>) -> Option<Effect> {
    if player.map is Some && packet is Some && player.board_id is Some {
        Some(Effect::ToMap(MapRequest::ViewBoardPost { board_id: player.board_id->0, post_id: packet->0.post_id }))
    } else {
        None
    }
}

/// A file request names the map file or a pub file by id.
pub open spec fn welcome_agree_effect(packet: Option<WelcomeAgreePacket>) -> Option<Effect> {
    match packet {
        Some(p) => match p.file {
            Some(FileRequest::MapFile) => Some(Effect::GetFile { file_type: p.file_type, session_id: p.session_id, file_id: None, warp: false }),
            Some(FileRequest::Pub(id)) => Some(Effect::GetFile { file_type: p.file_type, session_id: p.session_id, file_id: Some(id), warp: false }),
            None => None,
        },
        None => None,
    }
}

/// A title is given only when its UTF-8 encoding is no longer than the
/// longest title, in bytes.
pub open spec fn item_report_effect(player: Player, packet: Option<ItemReportPacket>, settings: Settings) -> Option<Effect> {
    if player.map is Some && packet is Some && (vstd::utf8::encode_utf8(packet->0.title@).len() as usize) <= settings.max_title_length {
        Some(Effect::ToMap(MapRequest::UseTitleItem { item_id: packet->0.item_id, title: packet->0.title }))
    } else {
        None
    }
}

impl Player {
    /// Agrees to the trade, or takes the agreement back.
    pub fn trade_agree(&mut self, packet: Option<TradeAgreePacket>) -> (r: Option<Effect>)
        ensures *final(self) == *old(self), r == trade_agree_effect(*old(self), packet),
    {
        if self.map.is_none() {
            return None;
        }
        match packet {
            Some(p) => if p.agree {
                Some(Effect::ToMap(MapRequest::AgreeTrade))
            } else {
                Some(Effect::ToMap(MapRequest::DisagreeTrade))
            },
            None => None,
        }
    }

    /// Cancels the trade with the player being interacted with.
    pub fn trade_close(&mut self) -> (r: Option<Effect>)
        ensures *final(self) == *old(self), r == trade_close_effect(*old(self)),
    {
        if self.map.is_none() {
            return None;
        }
        match self.interact_player_id {
            Some(player_id) => Some(Effect::ToMap(MapRequest::CancelTrade { player_id })),
            None => None,
        }
    }

    /// Sits down on the floor or stands up.
    pub fn sit_request(&mut self, packet: Option<SitRequestPacket>) -> (r: Option<Effect>)
        ensures *final(self) == *old(self), r == sit_request_effect(*old(self), packet),
    {
        if self.map.is_none() {
            return None;
        }
        match packet {
            Some(p) => match p.sit_action {
                SitAction::Sit => Some(Effect::ToMap(MapRequest::Sit)),
                SitAction::Stand => Some(Effect::ToMap(MapRequest::Stand)),
                SitAction::Unrecognized(_) => None,
            },
            None => None,
        }
    }

    /// Sits down on a chair or stands up.
    pub fn chair_request(&mut self, packet: Option<ChairRequestPacket>) -> (r: Option<Effect>)
        ensures *final(self) == *old(self), r == chair_request_effect(*old(self), packet),
    {
        if self.map.is_none() {
            return None;
        }
        match packet {
            Some(p) => match p.sit_action {
                SitAction::Sit => match p.coords {
                    Some(coords) => Some(Effect::ToMap(MapRequest::SitChair { coords })),
                    None => None,
                },
                SitAction::Stand => Some(Effect::ToMap(MapRequest::Stand)),
                SitAction::Unrecognized(_) => None,
            },
            None => None,
        }
    }

    /// Asks to join a player's party or invites a player into one's own.
    pub fn party_request(&mut self, packet: Option<PartyRequestPacket>) -> (r: Option<Effect>)
        ensures *final(self) == *old(self), r == party_request_effect(*old(self), packet),
    {
        if self.map.is_none() {
            return None;
        }
        match packet {
            Some(p) => match p.request_type {
                PartyRequestType::Join => Some(Effect::ToMap(MapRequest::PartyRequest {
                    target_player_id: p.player_id,
                    request: PartyRequest::Join(self.id),
                })),
                PartyRequestType::Invite => Some(Effect::ToMap(MapRequest::PartyRequest {
                    target_player_id: p.player_id,
                    request: PartyRequest::Invite(self.id),
                })),
                PartyRequestType::Unrecognized(_) => None,
            },
            None => None,
        }
    }

    /// Shows the quests in progress or the quest history.
    pub fn quest_list(&mut self, packet: Option<QuestListPacket>) -> (r: Option<Effect>)
        ensures *final(self) == *old(self), r == quest_list_effect(*old(self), packet),
    {
        if self.map.is_none() {
            return None;
        }
        match packet {
            Some(p) => match p.page {
                QuestPage::Progress => Some(Effect::ToMap(MapRequest::ViewQuestProgress)),
                QuestPage::History => Some(Effect::ToMap(MapRequest::ViewQuestHistory)),
                QuestPage::Unrecognized(_) => None,
            },
            None => None,
        }
    }

    /// Spends a stat point or a skill point.
    pub fn stat_skill_add(&mut self, packet: Option<StatSkillAddPacket>) -> (r: Option<Effect>)
        ensures *final(self) == *old(self), r == stat_skill_add_effect(*old(self), packet),
    {
        if self.map.is_none() {
            return None;
        }
        match packet {
            Some(p) => match p.train {
                Train::Stat(stat_id) => Some(Effect::ToMap(MapRequest::LevelStat { stat_id })),
                Train::Skill(spell_id) => Some(Effect::ToMap(MapRequest::LevelSkill { spell_id })),
                Train::Neither => None,
            },
            None => None,
        }
    }

    /// Puts an item into the locker.
    pub fn locker_add(&mut self, packet: Option<LockerAddPacket>) -> (r: Option<Effect>)
        ensures *final(self) == *old(self), r == locker_add_effect(*old(self), packet),
    {
        if self.map.is_none() {
            return None;
        }
        match packet {
            Some(p) => {
                if self.trading {
                    return None;
                }
                Some(Effect::ToMap(MapRequest::AddLockerItem { item_id: p.item_id, amount: p.amount }))
            },
            None => None,
        }
    }

    /// Sleeps at the inn.
    pub fn citizen_accept(&mut self, packet: Option<CitizenAcceptPacket>) -> (r: Option<Effect>)
        ensures *final(self) == *old(self), r == citizen_accept_effect(*old(self), packet),
    {
        if self.map.is_none() {
            return None;
        }
        match packet {
            Some(p) => {
                if self.session_id != Some(p.session_id) {
                    return None;
                }
                let npc_index = match self.interact_npc_index {
                    Some(npc_index) => npc_index,
                    None => return None,
                };
                match self.sleep_cost {
                    Some(cost) => Some(Effect::ToMap(MapRequest::Sleep { npc_index, cost })),
                    None => None,
                }
            },
            None => None,
        }
    }

    /// Learns a skill at the skill master.
    pub fn stat_skill_take(&mut self, packet: Option<StatSkillTakePacket>) -> (r: Option<Effect>)
        ensures *final(self) == *old(self), r == stat_skill_take_effect(*old(self), packet),
    {
        if self.map.is_none() {
            return None;
        }
        match packet {
            Some(p) => {
                if self.trading || self.session_id != Some(p.session_id) {
                    return None;
                }
                match self.interact_npc_index {
                    Some(npc_index) => Some(Effect::ToMap(MapRequest::LearnSkill { npc_index, spell_id: p.spell_id })),
                    None => None,
                }
            },
            None => None,
        }
    }

    /// Asks the law office for a marriage approval or a divorce. The name is
    /// taken in lower case; `name_valid` is the verdict of the character name
    /// rules on that lower case name.
    pub fn marriage_request(&mut self, packet: Option<MarriageRequestPacket>, name_valid: bool) -> (r: Option<Effect>)
        ensures
            *final(self) == *old(self),
            match packet {
                Some(p) if old(self).map is Some && name_valid && old(self).session_is(p.session_id)
                    && old(self).interact_npc_index is Some => match p.request_type {
                    MarriageRequestType::MarriageApproval => r matches Some(Effect::ToMap(MapRequest::RequestMarriageApproval { npc_index, name }))
                        && npc_index == old(self).interact_npc_index->0 && name@ == lowercase(p.name@),
                    MarriageRequestType::Divorce => r matches Some(Effect::ToMap(MapRequest::RequestDivorce { npc_index, name }))
                        && npc_index == old(self).interact_npc_index->0 && name@ == lowercase(p.name@),
                    MarriageRequestType::Unrecognized(_) => r is None,
                },
                _ => r is None,
            },
    {
        if self.map.is_none() {
            return None;
        }
        match packet {
            Some(p) => {
                let name = to_lowercase(p.name.as_str());
                if !name_valid || self.session_id != Some(p.session_id) {
                    return None;
                }
                let npc_index = match self.interact_npc_index {
                    Some(npc_index) => npc_index,
                    None => return None,
                };
                match p.request_type {
                    MarriageRequestType::MarriageApproval => Some(Effect::ToMap(MapRequest::RequestMarriageApproval { npc_index, name })),
                    MarriageRequestType::Divorce => Some(Effect::ToMap(MapRequest::RequestDivorce { npc_index, name })),
                    MarriageRequestType::Unrecognized(_) => None,
                }
            },
            None => None,
        }
    }

    /// Deposits gold into the guild bank.
    pub fn guild_buy(&mut self, packet: Option<GuildBuyPacket>, settings: &Settings) -> (r: Option<Effect>)
        ensures *final(self) == *old(self), r == guild_buy_effect(*old(self), packet, *settings),
    {
        match packet {
            Some(p) => {
                if p.gold_amount < settings.guild_min_deposit || self.session_id != Some(p.session_id) {
                    return None;
                }
                let npc_index = match self.interact_npc_index {
                    Some(npc_index) => npc_index,
                    None => return None,
                };
                if self.map.is_none() {
                    return None;
                }
                Some(Effect::ToMap(MapRequest::DepositGuildGold { npc_index, amount: p.gold_amount }))
            },
            None => None,
        }
    }

    /// Asks a guild's recruiter to be taken in.
    pub fn guild_player(&mut self, packet: Option<GuildPlayerPacket>) -> (r: Option<Effect>)
        ensures *final(self) == *old(self), r == guild_player_effect(*old(self), packet),
    {
        match packet {
            Some(p) => {
                if self.session_id != Some(p.session_id) || self.map.is_none() {
                    return None;
                }
                Some(Effect::ToMap(MapRequest::RequestToJoinGuild { guild_tag: p.guild_tag, recruiter_name: p.recruiter_name }))
            },
            None => None,
        }
    }

    /// Replies to a quest npc. Without a pending session nothing happens;
    /// otherwise a new session starts and the reply is made when it answers
    /// the session that was pending (see [`quest_accept_effect`]).
    pub fn quest_accept(&mut self, packet: Option<QuestAcceptPacket>) -> (r: Option<Effect>)
        ensures
            old(self).session_id is None ==> *final(self) == *old(self) && r is None,
            old(self).session_id is Some ==> fresh_session(*old(self), *final(self))
                && r == quest_accept_effect(*old(self), packet, old(self).session_id->0, final(self).session_id->0),
    {
        let old_session_id = match self.session_id {
            Some(session_id) => session_id,
            None => return None,
        };
        let session_id = self.generate_session_id();
        if self.map.is_none() {
            return None;
        }
        match packet {
            Some(p) => {
                if old_session_id != p.session_id {
                    return None;
                }
                match self.interact_npc_index {
                    Some(npc_index) => Some(Effect::ToMap(MapRequest::ReplyToQuestNpc {
                        npc_index,
                        quest_id: p.quest_id,
                        session_id,
                        action_id: p.action_id,
                    })),
                    None => None,
                }
            },
            None => None,
        }
    }

    /// Posts on the open board.
    pub fn board_create(&mut self, packet: Option<BoardCreatePacket>) -> (r: Option<Effect>)
        ensures *final(self) == *old(self), r == board_create_effect(*old(self), packet),
    {
        if self.map.is_none() {
            return None;
        }
        match packet {
            Some(p) => match self.board_id {
                Some(board_id) => Some(Effect::ToMap(MapRequest::CreateBoardPost { board_id, subject: p.post_subject, body: p.post_body })),
                None => None,
            },
            None => None,
        }
    }

    /// Removes a post from the open board.
    pub fn board_remove(&mut self, packet: Option<BoardRemovePacket>) -> (r: Option<Effect>)
        ensures *final(self) == *old(self), r == board_remove_effect(*old(self), packet),
    {
        if self.map.is_none() {
            return None;
        }
        match packet {
            Some(p) => match self.board_id {
                Some(board_id) => Some(Effect::ToMap(MapRequest::RemoveBoardPost { board_id, post_id: p.post_id })),
                None => None,
            },
            None => None,
        }
    }

    /// Reads a post of the open board.
    pub fn board_take(&mut self, packet: Option<BoardTakePacket>) -> (r: Option<Effect>)
        ensures *final(self) == *old(self), r == board_take_effect(*old(self), packet),
    {
        if self.map.is_none() {
            return None;
        }
        match packet {
            Some(p) => match self.board_id {
                Some(board_id) => Some(Effect::ToMap(MapRequest::ViewBoardPost { board_id, post_id: p.post_id })),
                None => None,
            },
            None => None,
        }
    }

    /// Asks for a file while entering the game.
    pub fn welcome_agree(&mut self, packet: Option<WelcomeAgreePacket>) -> (r: Option<Effect>)
        ensures *final(self) == *old(self), r == welcome_agree_effect(packet),
    {
        match packet {
            Some(p) => match p.file {
                Some(FileRequest::MapFile) => Some(Effect::GetFile { file_type: p.file_type, session_id: p.session_id, file_id: None, warp: false }),
                Some(FileRequest::Pub(id)) => Some(Effect::GetFile { file_type: p.file_type, session_id: p.session_id, file_id: Some(id), warp: false }),
                None => None,
            },
            None => None,
        }
    }

    /// Enters the game.
    pub fn welcome_msg(&mut self, packet: Option<WelcomeMsgPacket>) -> (r: Option<Effect>)
        ensures
            *final(self) == *old(self),
            r == match packet {
                Some(p) => Some(Effect::EnterGame { session_id: p.session_id }),
                None => None,
            },
    {
        match packet {
            Some(p) => Some(Effect::EnterGame { session_id: p.session_id }),
            None => None,
        }
    }

    /// Selects a character.
    pub fn welcome_request(&mut self, packet: Option<WelcomeRequestPacket>) -> (r: Option<Effect>)
        ensures
            *final(self) == *old(self),
            r == match packet {
                Some(p) => Some(Effect::SelectCharacter { character_id: p.character_id }),
                None => None,
            },
    {
        match packet {
            Some(p) => Some(Effect::SelectCharacter { character_id: p.character_id }),
            None => None,
        }
    }

    /// Asks for the map file of the map a warp leads to.
    pub fn warp_take(&mut self, packet: Option<WarpTakePacket>) -> (r: Option<Effect>)
        ensures
            *final(self) == *old(self),
            r == match packet {
                Some(p) => Some(Effect::GetWarpMapFile { session_id: p.session_id }),
                None => None,
            },
    {
        match packet {
            Some(p) => Some(Effect::GetWarpMapFile { session_id: p.session_id }),
            None => None,
        }
    }

    /// Gives the character a title with a title item.
    pub fn item_report(&mut self, packet: Option<ItemReportPacket>, settings: &Settings) -> (r: Option<Effect>)
        ensures *final(self) == *old(self), r == item_report_effect(*old(self), packet, *settings),
    {
        if self.map.is_none() {
            return None;
        }
        match packet {
            Some(p) => {
                if p.title.as_str().len() > settings.max_title_length {
                    return None;
                }
                Some(Effect::ToMap(MapRequest::UseTitleItem { item_id: p.item_id, title: p.title }))
            },
            None => None,
        }
    }
}

} // verus!
