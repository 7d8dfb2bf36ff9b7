use vstd::prelude::*;

use bytes::Bytes;
use eolib::data::{EoReader, EoSerialize};
use eolib::protocol::net;

use crate::effects::Coords;

verus! {

/// The action of a client packet, within its family.
#[derive(Debug, Clone, Copy, PartialEq, Eq, Structural)]
pub enum PacketAction {
    Request,
    Accept,
    Reply,
    Remove,
    Agree,
    Create,
    Add,
    Player,
    Take,
    Use,
    Buy,
    Sell,
    Open,
    Close,
    Msg,
    Admin,
    List,
    Tell,
    Report,
    Announce,
    Drop,
    Junk,
    Get,
    Kick,
    Rank,
    TargetSelf,
    TargetOther,
    TargetGroup,
    Ping,
    /// Any other action.
    Other,
}

/// The protocol's `SitAction`.
#[derive(Debug, Clone, Copy, PartialEq, Eq, Structural)]
pub enum SitAction {
    Sit,
    Stand,
    Unrecognized(i32),
}

/// The protocol's `PartyRequestType`.
#[derive(Debug, Clone, Copy, PartialEq, Eq, Structural)]
pub enum PartyRequestType {
    Join,
    Invite,
    Unrecognized(i32),
}

/// The protocol's `GuildInfoType`.
#[derive(Debug, Clone, Copy, PartialEq, Eq, Structural)]
pub enum GuildInfoType {
    Description,
    Ranks,
    Bank,
    Unrecognized(i32),
}

/// The protocol's `SpellTargetType`.
#[derive(Debug, Clone, Copy, PartialEq, Eq, Structural)]
pub enum SpellTargetType {
    Player,
    Npc,
    Unrecognized(i32),
}

/// The protocol's `QuestPage`.
#[derive(Debug, Clone, Copy, PartialEq, Eq, Structural)]
pub enum QuestPage {
    Progress,
    History,
    Unrecognized(i32),
}

/// The protocol's `MarriageRequestType`.
#[derive(Debug, Clone, Copy, PartialEq, Eq, Structural)]
pub enum MarriageRequestType {
    MarriageApproval,
    Divorce,
    Unrecognized(i32),
}

/// The fields of `ConnectionAcceptClientPacket` that the handlers read.
#[derive(Debug, Clone, PartialEq, Eq)]
pub struct ConnectionAcceptPacket {
    pub client_encryption_multiple: i32,
    pub server_encryption_multiple: i32,
    pub player_id: i32,
}

/// The fields of `AccountRequestClientPacket` that the handlers read.
#[derive(Debug, Clone, PartialEq, Eq)]
pub struct AccountRequestPacket {
    pub username: String,
}

/// The fields of `AccountAgreeClientPacket` that the handlers read.
#[derive(Debug, Clone, PartialEq, Eq)]
pub struct AccountAgreePacket {
    pub username: String,
    pub old_password: String,
    pub new_password: String,
}

/// The fields of `CharacterRequestClientPacket` that the handlers read.
#[derive(Debug, Clone, PartialEq, Eq)]
pub struct CharacterRequestPacket {
    pub request_string: String,
}

/// The fields of `CharacterCreateClientPacket` that the handlers read.
#[derive(Debug, Clone, PartialEq, Eq)]
pub struct CharacterCreatePacket {
    pub session_id: i32,
    pub gender: i32,
    pub hair_style: i32,
    pub hair_color: i32,
    pub skin: i32,
    pub name: String,
}

/// The fields of `CharacterTakeClientPacket` that the handlers read.
#[derive(Debug, Clone, PartialEq, Eq)]
pub struct CharacterTakePacket {
    pub character_id: i32,
}

/// The fields of `CharacterRemoveClientPacket` that the handlers read.
#[derive(Debug, Clone, PartialEq, Eq)]
pub struct CharacterRemovePacket {
    pub session_id: i32,
    pub character_id: i32,
}

/// The fields of `WelcomeRequestClientPacket` that the handlers read.
#[derive(Debug, Clone, PartialEq, Eq)]
pub struct WelcomeRequestPacket {
    pub character_id: i32,
}

/// The fields of `WelcomeMsgClientPacket` that the handlers read.
#[derive(Debug, Clone, PartialEq, Eq)]
pub struct WelcomeMsgPacket {
    pub session_id: i32,
    pub character_id: i32,
}

/// The fields of `AdminInteractTellClientPacket` that the handlers read.
#[derive(Debug, Clone, PartialEq, Eq)]
pub struct AdminInteractTellPacket {
    pub message: String,
}

/// The fields of `AdminInteractReportClientPacket` that the handlers read.
#[derive(Debug, Clone, PartialEq, Eq)]
pub struct AdminInteractReportPacket {
    pub reportee: String,
    pub message: String,
}

/// The fields of `TalkRequestClientPacket` that the handlers read.
#[derive(Debug, Clone, PartialEq, Eq)]
pub struct TalkRequestPacket {
    pub message: String,
}

/// The fields of `TalkOpenClientPacket` that the handlers read.
#[derive(Debug, Clone, PartialEq, Eq)]
pub struct TalkOpenPacket {
    pub message: String,
}

/// The fields of `TalkMsgClientPacket` that the handlers read.
#[derive(Debug, Clone, PartialEq, Eq)]
pub struct TalkMsgPacket {
    pub message: String,
}

/// The fields of `TalkTellClientPacket` that the handlers read.
#[derive(Debug, Clone, PartialEq, Eq)]
pub struct TalkTellPacket {
    pub name: String,
    pub message: String,
}

/// The fields of `TalkReportClientPacket` that the handlers read.
#[derive(Debug, Clone, PartialEq, Eq)]
pub struct TalkReportPacket {
    pub message: String,
}

/// The fields of `TalkAdminClientPacket` that the handlers read.
#[derive(Debug, Clone, PartialEq, Eq)]
pub struct TalkAdminPacket {
    pub message: String,
}

/// The fields of `TalkAnnounceClientPacket` that the handlers read.
#[derive(Debug, Clone, PartialEq, Eq)]
pub struct TalkAnnouncePacket {
    pub message: String,
}

/// The fields of `AttackUseClientPacket` that the handlers read.
#[derive(Debug, Clone, PartialEq, Eq)]
pub struct AttackUsePacket {
    pub direction: i32,
    pub timestamp: i32,
}

/// The fields of `SitRequestClientPacket` that the handlers read.
#[derive(Debug, Clone, PartialEq, Eq)]
pub struct SitRequestPacket {
    pub sit_action: SitAction,
}

/// The fields of `EmoteReportClientPacket` that the handlers read.
#[derive(Debug, Clone, PartialEq, Eq)]
pub struct EmoteReportPacket {
    pub emote: i32,
}

/// The fields of `FacePlayerClientPacket` that the handlers read.
#[derive(Debug, Clone, PartialEq, Eq)]
pub struct FacePlayerPacket {
    pub direction: i32,
}

/// The fields of `WalkPlayerClientPacket` that the handlers read.
#[derive(Debug, Clone, PartialEq, Eq)]
pub struct WalkPlayerPacket {
    pub direction: i32,
    pub timestamp: i32,
    pub coords: Coords,
}

/// The fields of `BankOpenClientPacket` that the handlers read.
#[derive(Debug, Clone, PartialEq, Eq)]
pub struct BankOpenPacket {
    pub npc_index: i32,
}

/// The fields of `BankAddClientPacket` that the handlers read.
#[derive(Debug, Clone, PartialEq, Eq)]
pub struct BankAddPacket {
    pub amount: i32,
    pub session_id: i32,
}

/// The fields of `BankTakeClientPacket` that the handlers read.
#[derive(Debug, Clone, PartialEq, Eq)]
pub struct BankTakePacket {
    pub amount: i32,
    pub session_id: i32,
}

/// The fields of `BarberBuyClientPacket` that the handlers read.
#[derive(Debug, Clone, PartialEq, Eq)]
pub struct BarberBuyPacket {
    pub hair_style: i32,
    pub hair_color: i32,
    pub session_id: i32,
}

/// The fields of `BarberOpenClientPacket` that the handlers read.
#[derive(Debug, Clone, PartialEq, Eq)]
pub struct BarberOpenPacket {
    pub npc_index: i32,
}

/// The fields of `LockerAddClientPacket` that the handlers read.
#[derive(Debug, Clone, PartialEq, Eq)]
pub struct LockerAddPacket {
    pub item_id: i32,
    pub amount: i32,
}

/// The fields of `LockerTakeClientPacket` that the handlers read.
#[derive(Debug, Clone, PartialEq, Eq)]
pub struct LockerTakePacket {
    pub take_item_id: i32,
}

/// The fields of `CitizenRequestClientPacket` that the handlers read.
#[derive(Debug, Clone, PartialEq, Eq)]
pub struct CitizenRequestPacket {
    pub session_id: i32,
}

/// The fields of `CitizenAcceptClientPacket` that the handlers read.
#[derive(Debug, Clone, PartialEq, Eq)]
pub struct CitizenAcceptPacket {
    pub session_id: i32,
}

/// The fields of `CitizenReplyClientPacket` that the handlers read.
#[derive(Debug, Clone, PartialEq, Eq)]
pub struct CitizenReplyPacket {
    pub session_id: i32,
    pub answers: Vec<String>,
}

/// The fields of `CitizenOpenClientPacket` that the handlers read.
#[derive(Debug, Clone, PartialEq, Eq)]
pub struct CitizenOpenPacket {
    pub npc_index: i32,
}

/// The fields of `ShopCreateClientPacket` that the handlers read.
#[derive(Debug, Clone, PartialEq, Eq)]
pub struct ShopCreatePacket {
    pub craft_item_id: i32,
    pub session_id: i32,
}

/// The fields of `ShopBuyClientPacket` that the handlers read.
#[derive(Debug, Clone, PartialEq, Eq)]
pub struct ShopBuyPacket {
    pub item_id: i32,
    pub amount: i32,
    pub session_id: i32,
}

/// The fields of `ShopSellClientPacket` that the handlers read.
#[derive(Debug, Clone, PartialEq, Eq)]
pub struct ShopSellPacket {
    pub item_id: i32,
    pub amount: i32,
    pub session_id: i32,
}

/// The fields of `ShopOpenClientPacket` that the handlers read.
#[derive(Debug, Clone, PartialEq, Eq)]
pub struct ShopOpenPacket {
    pub npc_index: i32,
}

/// The fields of `StatSkillOpenClientPacket` that the handlers read.
#[derive(Debug, Clone, PartialEq, Eq)]
pub struct StatSkillOpenPacket {
    pub npc_index: i32,
}

/// The fields of `StatSkillTakeClientPacket` that the handlers read.
#[derive(Debug, Clone, PartialEq, Eq)]
pub struct StatSkillTakePacket {
    pub session_id: i32,
    pub spell_id: i32,
}

/// The fields of `StatSkillRemoveClientPacket` that the handlers read.
#[derive(Debug, Clone, PartialEq, Eq)]
pub struct StatSkillRemovePacket {
    pub session_id: i32,
    pub spell_id: i32,
}

/// The fields of `StatSkillJunkClientPacket` that the handlers read.
#[derive(Debug, Clone, PartialEq, Eq)]
pub struct StatSkillJunkPacket {
    pub session_id: i32,
}

/// The fields of `ItemUseClientPacket` that the handlers read.
#[derive(Debug, Clone, PartialEq, Eq)]
pub struct ItemUsePacket {
    pub item_id: i32,
}

/// The fields of `ItemDropClientPacket` that the handlers read.
#[derive(Debug, Clone, PartialEq, Eq)]
pub struct ItemDropPacket {
    pub item_id: i32,
    pub amount: i32,
    pub x: u8,
    pub y: u8,
}

/// The fields of `ItemJunkClientPacket` that the handlers read.
#[derive(Debug, Clone, PartialEq, Eq)]
pub struct ItemJunkPacket {
    pub item_id: i32,
    pub amount: i32,
}

/// The fields of `ItemGetClientPacket` that the handlers read.
#[derive(Debug, Clone, PartialEq, Eq)]
pub struct ItemGetPacket {
    pub item_index: i32,
}

/// The fields of `BoardRemoveClientPacket` that the handlers read.
#[derive(Debug, Clone, PartialEq, Eq)]
pub struct BoardRemovePacket {
    pub post_id: i32,
}

/// The fields of `BoardCreateClientPacket` that the handlers read.
#[derive(Debug, Clone, PartialEq, Eq)]
pub struct BoardCreatePacket {
    pub post_subject: String,
    pub post_body: String,
}

/// The fields of `BoardTakeClientPacket` that the handlers read.
#[derive(Debug, Clone, PartialEq, Eq)]
pub struct BoardTakePacket {
    pub post_id: i32,
}

/// The fields of `BoardOpenClientPacket` that the handlers read.
#[derive(Debug, Clone, PartialEq, Eq)]
pub struct BoardOpenPacket {
    pub board_id: i32,
}

/// The fields of `JukeboxMsgClientPacket` that the handlers read.
#[derive(Debug, Clone, PartialEq, Eq)]
pub struct JukeboxMsgPacket {
    pub track_id: i32,
}

/// The fields of `JukeboxUseClientPacket` that the handlers read.
#[derive(Debug, Clone, PartialEq, Eq)]
pub struct JukeboxUsePacket {
    pub instrument_id: i32,
    pub note_id: i32,
}

/// The fields of `WarpAcceptClientPacket` that the handlers read.
#[derive(Debug, Clone, PartialEq, Eq)]
pub struct WarpAcceptPacket {
    pub map_id: i32,
    pub session_id: i32,
}

/// The fields of `WarpTakeClientPacket` that the handlers read.
#[derive(Debug, Clone, PartialEq, Eq)]
pub struct WarpTakePacket {
    pub session_id: i32,
}

/// The fields of `PaperdollRequestClientPacket` that the handlers read.
#[derive(Debug, Clone, PartialEq, Eq)]
pub struct PaperdollRequestPacket {
    pub player_id: i32,
}

/// The fields of `PaperdollRemoveClientPacket` that the handlers read.
#[derive(Debug, Clone, PartialEq, Eq)]
pub struct PaperdollRemovePacket {
    pub item_id: i32,
    pub sub_loc: i32,
}

/// The fields of `PaperdollAddClientPacket` that the handlers read.
#[derive(Debug, Clone, PartialEq, Eq)]
pub struct PaperdollAddPacket {
    pub item_id: i32,
    pub sub_loc: i32,
}

/// The fields of `BookRequestClientPacket` that the handlers read.
#[derive(Debug, Clone, PartialEq, Eq)]
pub struct BookRequestPacket {
    pub player_id: i32,
}

/// The fields of `PlayersAcceptClientPacket` that the handlers read.
#[derive(Debug, Clone, PartialEq, Eq)]
pub struct PlayersAcceptPacket {
    pub name: String,
}

/// The fields of `DoorOpenClientPacket` that the handlers read.
#[derive(Debug, Clone, PartialEq, Eq)]
pub struct DoorOpenPacket {
    pub coords: Coords,
}

/// The fields of `ChestOpenClientPacket` that the handlers read.
#[derive(Debug, Clone, PartialEq, Eq)]
pub struct ChestOpenPacket {
    pub coords: Coords,
}

/// The fields of `ChestAddClientPacket` that the handlers read.
#[derive(Debug, Clone, PartialEq, Eq)]
pub struct ChestAddPacket {
    pub item_id: i32,
    pub amount: i32,
}

/// The fields of `ChestTakeClientPacket` that the handlers read.
#[derive(Debug, Clone, PartialEq, Eq)]
pub struct ChestTakePacket {
    pub take_item_id: i32,
}

/// The fields of `RangeRequestClientPacket` that the handlers read.
#[derive(Debug, Clone, PartialEq, Eq)]
pub struct RangeRequestPacket {
    pub player_ids: Vec<i32>,
    pub npc_indexes: Vec<i32>,
}

/// The fields of `PlayerRangeRequestClientPacket` that the handlers read.
#[derive(Debug, Clone, PartialEq, Eq)]
pub struct PlayerRangeRequestPacket {
    pub player_ids: Vec<i32>,
}

/// The fields of `NpcRangeRequestClientPacket` that the handlers read.
#[derive(Debug, Clone, PartialEq, Eq)]
pub struct NpcRangeRequestPacket {
    pub npc_indexes: Vec<i32>,
}

/// The fields of `PartyRequestClientPacket` that the handlers read.
#[derive(Debug, Clone, PartialEq, Eq)]
pub struct PartyRequestPacket {
    pub request_type: PartyRequestType,
    pub player_id: i32,
}

/// The fields of `PartyAcceptClientPacket` that the handlers read.
#[derive(Debug, Clone, PartialEq, Eq)]
pub struct PartyAcceptPacket {
    pub request_type: i32,
    pub inviter_player_id: i32,
}

/// The fields of `PartyRemoveClientPacket` that the handlers read.
#[derive(Debug, Clone, PartialEq, Eq)]
pub struct PartyRemovePacket {
    pub player_id: i32,
}

/// The fields of `GuildRequestClientPacket` that the handlers read.
#[derive(Debug, Clone, PartialEq, Eq)]
pub struct GuildRequestPacket {
    pub session_id: i32,
    pub guild_tag: String,
    pub guild_name: String,
}

/// The fields of `GuildAcceptClientPacket` that the handlers read.
#[derive(Debug, Clone, PartialEq, Eq)]
pub struct GuildAcceptPacket {
    pub inviter_player_id: i32,
}

/// The fields of `GuildRemoveClientPacket` that the handlers read.
#[derive(Debug, Clone, PartialEq, Eq)]
pub struct GuildRemovePacket {
    pub session_id: i32,
}

/// The fields of `GuildCreateClientPacket` that the handlers read.
#[derive(Debug, Clone, PartialEq, Eq)]
pub struct GuildCreatePacket {
    pub session_id: i32,
    pub guild_tag: String,
    pub guild_name: String,
    pub description: String,
}

/// The fields of `GuildPlayerClientPacket` that the handlers read.
#[derive(Debug, Clone, PartialEq, Eq)]
pub struct GuildPlayerPacket {
    pub session_id: i32,
    pub guild_tag: String,
    pub recruiter_name: String,
}

/// The fields of `GuildTakeClientPacket` that the handlers read.
#[derive(Debug, Clone, PartialEq, Eq)]
pub struct GuildTakePacket {
    pub session_id: i32,
    pub info_type: GuildInfoType,
}

/// The fields of `GuildUseClientPacket` that the handlers read.
#[derive(Debug, Clone, PartialEq, Eq)]
pub struct GuildUsePacket {
    pub player_id: i32,
}

/// The fields of `GuildBuyClientPacket` that the handlers read.
#[derive(Debug, Clone, PartialEq, Eq)]
pub struct GuildBuyPacket {
    pub session_id: i32,
    pub gold_amount: i32,
}

/// The fields of `GuildOpenClientPacket` that the handlers read.
#[derive(Debug, Clone, PartialEq, Eq)]
pub struct GuildOpenPacket {
    pub npc_index: i32,
}

/// The fields of `GuildTellClientPacket` that the handlers read.
#[derive(Debug, Clone, PartialEq, Eq)]
pub struct GuildTellPacket {
    pub session_id: i32,
    pub guild_identity: String,
}

/// The fields of `GuildReportClientPacket` that the handlers read.
#[derive(Debug, Clone, PartialEq, Eq)]
pub struct GuildReportPacket {
    pub session_id: i32,
    pub guild_identity: String,
}

/// The fields of `GuildJunkClientPacket` that the handlers read.
#[derive(Debug, Clone, PartialEq, Eq)]
pub struct GuildJunkPacket {
    pub session_id: i32,
}

/// The fields of `GuildKickClientPacket` that the handlers read.
#[derive(Debug, Clone, PartialEq, Eq)]
pub struct GuildKickPacket {
    pub session_id: i32,
    pub member_name: String,
}

/// The fields of `GuildRankClientPacket` that the handlers read.
#[derive(Debug, Clone, PartialEq, Eq)]
pub struct GuildRankPacket {
    pub session_id: i32,
    pub rank: i32,
    pub member_name: String,
}

/// The fields of `SpellRequestClientPacket` that the handlers read.
#[derive(Debug, Clone, PartialEq, Eq)]
pub struct SpellRequestPacket {
    pub spell_id: i32,
    pub timestamp: i32,
}

/// The fields of `SpellTargetSelfClientPacket` that the handlers read.
#[derive(Debug, Clone, PartialEq, Eq)]
pub struct SpellTargetSelfPacket {
    pub spell_id: i32,
    pub timestamp: i32,
}

/// The fields of `SpellTargetOtherClientPacket` that the handlers read.
#[derive(Debug, Clone, PartialEq, Eq)]
pub struct SpellTargetOtherPacket {
    pub target_type: SpellTargetType,
    pub spell_id: i32,
    pub victim_id: i32,
    pub timestamp: i32,
}

/// The fields of `SpellTargetGroupClientPacket` that the handlers read.
#[derive(Debug, Clone, PartialEq, Eq)]
pub struct SpellTargetGroupPacket {
    pub spell_id: i32,
    pub timestamp: i32,
}

/// The fields of `TradeRequestClientPacket` that the handlers read.
#[derive(Debug, Clone, PartialEq, Eq)]
pub struct TradeRequestPacket {
    pub player_id: i32,
}

/// The fields of `TradeAcceptClientPacket` that the handlers read.
#[derive(Debug, Clone, PartialEq, Eq)]
pub struct TradeAcceptPacket {
    pub player_id: i32,
}

/// The fields of `TradeRemoveClientPacket` that the handlers read.
#[derive(Debug, Clone, PartialEq, Eq)]
pub struct TradeRemovePacket {
    pub item_id: i32,
}

/// The fields of `TradeAgreeClientPacket` that the handlers read.
#[derive(Debug, Clone, PartialEq, Eq)]
pub struct TradeAgreePacket {
    pub agree: bool,
}

/// The fields of `TradeAddClientPacket` that the handlers read.
#[derive(Debug, Clone, PartialEq, Eq)]
pub struct TradeAddPacket {
    pub item_id: i32,
    pub amount: i32,
}

/// The fields of `QuestUseClientPacket` that the handlers read.
#[derive(Debug, Clone, PartialEq, Eq)]
pub struct QuestUsePacket {
    pub npc_index: i32,
    pub quest_id: i32,
}

/// The fields of `QuestListClientPacket` that the handlers read.
#[derive(Debug, Clone, PartialEq, Eq)]
pub struct QuestListPacket {
    pub page: QuestPage,
}

/// The fields of `MarriageOpenClientPacket` that the handlers read.
#[derive(Debug, Clone, PartialEq, Eq)]
pub struct MarriageOpenPacket {
    pub npc_index: i32,
}

/// The fields of `MarriageRequestClientPacket` that the handlers read.
#[derive(Debug, Clone, PartialEq, Eq)]
pub struct MarriageRequestPacket {
    pub request_type: MarriageRequestType,
    pub session_id: i32,
    pub name: String,
}

/// The fields of `PriestAcceptClientPacket` that the handlers read.
#[derive(Debug, Clone, PartialEq, Eq)]
pub struct PriestAcceptPacket {
    pub session_id: i32,
}

/// The fields of `PriestOpenClientPacket` that the handlers read.
#[derive(Debug, Clone, PartialEq, Eq)]
pub struct PriestOpenPacket {
    pub npc_index: i32,
}

/// The fields of `PriestRequestClientPacket` that the handlers read.
#[derive(Debug, Clone, PartialEq, Eq)]
pub struct PriestRequestPacket {
    pub session_id: i32,
    pub name: String,
}

/// The fields of `PriestUseClientPacket` that the handlers read.
#[derive(Debug, Clone, PartialEq, Eq)]
pub struct PriestUsePacket {
    pub session_id: i32,
}

/// What a stat or skill point is spent on.
#[derive(Debug, Clone, Copy, PartialEq, Eq, Structural)]
pub enum Train {
    Stat(i32),
    Skill(i32),
    Neither,
}

/// The file a client asks for while entering the game.
#[derive(Debug, Clone, Copy, PartialEq, Eq, Structural)]
pub enum FileRequest {
    /// The map file.
    MapFile,
    /// A pub file, by id.
    Pub(i32),
}

/// What a guild leader changes.
#[derive(Debug, Clone, PartialEq, Eq)]
pub enum GuildAgreeInfo {
    Description(String),
    Ranks(Vec<String>),
}

/// The fields of `ChairRequestClientPacket` that the handlers read.
#[derive(Debug, Clone, PartialEq, Eq)]
pub struct ChairRequestPacket {
    pub sit_action: SitAction,
    pub coords: Option<Coords>,
}

/// The fields of `StatSkillAddClientPacket` that the handlers read.
#[derive(Debug, Clone, PartialEq, Eq)]
pub struct StatSkillAddPacket {
    pub train: Train,
}

/// The fields of `WelcomeAgreeClientPacket` that the handlers read.
#[derive(Debug, Clone, PartialEq, Eq)]
pub struct WelcomeAgreePacket {
    pub file_type: i32,
    pub session_id: i32,
    pub file: Option<FileRequest>,
}

/// The fields of `GuildAgreeClientPacket` that the handlers read.
#[derive(Debug, Clone, PartialEq, Eq)]
pub struct GuildAgreePacket {
    pub session_id: i32,
    pub info: Option<GuildAgreeInfo>,
}

/// The fields of `QuestAcceptClientPacket` that the handlers read.
#[derive(Debug, Clone, PartialEq, Eq)]
pub struct QuestAcceptPacket {
    pub session_id: i32,
    pub quest_id: i32,
    /// The dialog link the player followed, when the reply was a link.
    pub action_id: Option<i32>,
}

/// The fields of `LoginRequestClientPacket`, with what follows them.
#[derive(Debug, Clone, PartialEq, Eq)]
pub struct LoginRequestPacket {
    pub username: String,
    pub password: String,
    /// How many bytes follow the packet.
    pub remaining: usize,
    /// The next byte read as a number (0 when there is none).
    pub next_char: i32,
}

/// The fields of `AccountCreateClientPacket`, with the chunk that follows.
#[derive(Debug, Clone, PartialEq, Eq)]
pub struct AccountCreatePacket {
    pub session_id: i32,
    pub username: String,
    pub password: String,
    pub full_name: String,
    pub location: String,
    pub email: String,
    pub computer: String,
    pub hdid: String,
    /// The string after the packet, read in chunked mode (an email pin).
    pub pin: String,
}

/// What `ConnectionAcceptClientPacket::deserialize` reads from `data`, or `None` when it fails.
pub uninterp spec fn connection_accept_decoded(data: Seq<u8>) -> Option<ConnectionAcceptPacket>;

/// `ConnectionAcceptClientPacket::deserialize` on a reader over `data`; the fields are copied.
#[verifier::external_body]
pub(crate) fn decode_connection_accept(data: &[u8]) -> (r: Option<ConnectionAcceptPacket>)
    ensures
        r == connection_accept_decoded(data@),
{
    match net::client::ConnectionAcceptClientPacket::deserialize(&EoReader::new(Bytes::copy_from_slice(data))) {
        Ok(p) => Some(ConnectionAcceptPacket {
            client_encryption_multiple: p.client_encryption_multiple,
            server_encryption_multiple: p.server_encryption_multiple,
            player_id: p.player_id,
        }),
        Err(_) => None,
    }
}

/// What `AccountRequestClientPacket::deserialize` reads from `data`, or `None` when it fails.
pub uninterp spec fn account_request_decoded(data: Seq<u8>) -> Option<AccountRequestPacket>;

/// `AccountRequestClientPacket::deserialize` on a reader over `data`; the fields are copied.
#[verifier::external_body]
pub(crate) fn decode_account_request(data: &[u8]) -> (r: Option<AccountRequestPacket>)
    ensures
        r == account_request_decoded(data@),
{
    match net::client::AccountRequestClientPacket::deserialize(&EoReader::new(Bytes::copy_from_slice(data))) {
        Ok(p) => Some(AccountRequestPacket {
            username: p.username,
        }),
        Err(_) => None,
    }
}

/// What `AccountAgreeClientPacket::deserialize` reads from `data`, or `None` when it fails.
pub uninterp spec fn account_agree_decoded(data: Seq<u8>) -> Option<AccountAgreePacket>;

/// `AccountAgreeClientPacket::deserialize` on a reader over `data`; the fields are copied.
#[verifier::external_body]
pub(crate) fn decode_account_agree(data: &[u8]) -> (r: Option<AccountAgreePacket>)
    ensures
        r == account_agree_decoded(data@),
{
    match net::client::AccountAgreeClientPacket::deserialize(&EoReader::new(Bytes::copy_from_slice(data))) {
        Ok(p) => Some(AccountAgreePacket {
            username: p.username,
            old_password: p.old_password,
            new_password: p.new_password,
        }),
        Err(_) => None,
    }
}

/// What `CharacterRequestClientPacket::deserialize` reads from `data`, or `None` when it fails.
pub uninterp spec fn character_request_decoded(data: Seq<u8>) -> Option<CharacterRequestPacket>;

/// `CharacterRequestClientPacket::deserialize` on a reader over `data`; the fields are copied.
#[verifier::external_body]
pub(crate) fn decode_character_request(data: &[u8]) -> (r: Option<CharacterRequestPacket>)
    ensures
        r == character_request_decoded(data@),
{
    match net::client::CharacterRequestClientPacket::deserialize(&EoReader::new(Bytes::copy_from_slice(data))) {
        Ok(p) => Some(CharacterRequestPacket {
            request_string: p.request_string,
        }),
        Err(_) => None,
    }
}

/// What `CharacterCreateClientPacket::deserialize` reads from `data`, or `None` when it fails.
pub uninterp spec fn character_create_decoded(data: Seq<u8>) -> Option<CharacterCreatePacket>;

/// `CharacterCreateClientPacket::deserialize` on a reader over `data`; the fields are copied.
#[verifier::external_body]
pub(crate) fn decode_character_create(data: &[u8]) -> (r: Option<CharacterCreatePacket>)
    ensures
        r == character_create_decoded(data@),
{
    match net::client::CharacterCreateClientPacket::deserialize(&EoReader::new(Bytes::copy_from_slice(data))) {
        Ok(p) => Some(CharacterCreatePacket {
            session_id: p.session_id,
            gender: i32::from(p.gender),
            hair_style: p.hair_style,
            hair_color: p.hair_color,
            skin: p.skin,
            name: p.name,
        }),
        Err(_) => None,
    }
}

/// What `CharacterTakeClientPacket::deserialize` reads from `data`, or `None` when it fails.
pub uninterp spec fn character_take_decoded(data: Seq<u8>) -> Option<CharacterTakePacket>;

/// `CharacterTakeClientPacket::deserialize` on a reader over `data`; the fields are copied.
#[verifier::external_body]
pub(crate) fn decode_character_take(data: &[u8]) -> (r: Option<CharacterTakePacket>)
    ensures
        r == character_take_decoded(data@),
{
    match net::client::CharacterTakeClientPacket::deserialize(&EoReader::new(Bytes::copy_from_slice(data))) {
        Ok(p) => Some(CharacterTakePacket {
            character_id: p.character_id,
        }),
        Err(_) => None,
    }
}

/// What `CharacterRemoveClientPacket::deserialize` reads from `data`, or `None` when it fails.
pub uninterp spec fn character_remove_decoded(data: Seq<u8>) -> Option<CharacterRemovePacket>;

/// `CharacterRemoveClientPacket::deserialize` on a reader over `data`; the fields are copied.
#[verifier::external_body]
pub(crate) fn decode_character_remove(data: &[u8]) -> (r: Option<CharacterRemovePacket>)
    ensures
        r == character_remove_decoded(data@),
{
    match net::client::CharacterRemoveClientPacket::deserialize(&EoReader::new(Bytes::copy_from_slice(data))) {
        Ok(p) => Some(CharacterRemovePacket {
            session_id: p.session_id,
            character_id: p.character_id,
        }),
        Err(_) => None,
    }
}

/// What `WelcomeRequestClientPacket::deserialize` reads from `data`, or `None` when it fails.
pub uninterp spec fn welcome_request_decoded(data: Seq<u8>) -> Option<WelcomeRequestPacket>;

/// `WelcomeRequestClientPacket::deserialize` on a reader over `data`; the fields are copied.
#[verifier::external_body]
pub(crate) fn decode_welcome_request(data: &[u8]) -> (r: Option<WelcomeRequestPacket>)
    ensures
        r == welcome_request_decoded(data@),
{
    match net::client::WelcomeRequestClientPacket::deserialize(&EoReader::new(Bytes::copy_from_slice(data))) {
        Ok(p) => Some(WelcomeRequestPacket {
            character_id: p.character_id,
        }),
        Err(_) => None,
    }
}

/// What `WelcomeMsgClientPacket::deserialize` reads from `data`, or `None` when it fails.
pub uninterp spec fn welcome_msg_decoded(data: Seq<u8>) -> Option<WelcomeMsgPacket>;

/// `WelcomeMsgClientPacket::deserialize` on a reader over `data`; the fields are copied.
#[verifier::external_body]
pub(crate) fn decode_welcome_msg(data: &[u8]) -> (r: Option<WelcomeMsgPacket>)
    ensures
        r == welcome_msg_decoded(data@),
{
    match net::client::WelcomeMsgClientPacket::deserialize(&EoReader::new(Bytes::copy_from_slice(data))) {
        Ok(p) => Some(WelcomeMsgPacket {
            session_id: p.session_id,
            character_id: p.character_id,
        }),
        Err(_) => None,
    }
}

/// What `AdminInteractTellClientPacket::deserialize` reads from `data`, or `None` when it fails.
pub uninterp spec fn admin_interact_tell_decoded(data: Seq<u8>) -> Option<AdminInteractTellPacket>;

/// `AdminInteractTellClientPacket::deserialize` on a reader over `data`; the fields are copied.
#[verifier::external_body]
pub(crate) fn decode_admin_interact_tell(data: &[u8]) -> (r: Option<AdminInteractTellPacket>)
    ensures
        r == admin_interact_tell_decoded(data@),
{
    match net::client::AdminInteractTellClientPacket::deserialize(&EoReader::new(Bytes::copy_from_slice(data))) {
        Ok(p) => Some(AdminInteractTellPacket {
            message: p.message,
        }),
        Err(_) => None,
    }
}

/// What `AdminInteractReportClientPacket::deserialize` reads from `data`, or `None` when it fails.
pub uninterp spec fn admin_interact_report_decoded(data: Seq<u8>) -> Option<AdminInteractReportPacket>;

/// `AdminInteractReportClientPacket::deserialize` on a reader over `data`; the fields are copied.
#[verifier::external_body]
pub(crate) fn decode_admin_interact_report(data: &[u8]) -> (r: Option<AdminInteractReportPacket>)
    ensures
        r == admin_interact_report_decoded(data@),
{
    match net::client::AdminInteractReportClientPacket::deserialize(&EoReader::new(Bytes::copy_from_slice(data))) {
        Ok(p) => Some(AdminInteractReportPacket {
            reportee: p.reportee,
            message: p.message,
        }),
        Err(_) => None,
    }
}

/// What `TalkRequestClientPacket::deserialize` reads from `data`, or `None` when it fails.
pub uninterp spec fn talk_request_decoded(data: Seq<u8>) -> Option<TalkRequestPacket>;

/// `TalkRequestClientPacket::deserialize` on a reader over `data`; the fields are copied.
#[verifier::external_body]
pub(crate) fn decode_talk_request(data: &[u8]) -> (r: Option<TalkRequestPacket>)
    ensures
        r == talk_request_decoded(data@),
{
    match net::client::TalkRequestClientPacket::deserialize(&EoReader::new(Bytes::copy_from_slice(data))) {
        Ok(p) => Some(TalkRequestPacket {
            message: p.message,
        }),
        Err(_) => None,
    }
}

/// What `TalkOpenClientPacket::deserialize` reads from `data`, or `None` when it fails.
pub uninterp spec fn talk_open_decoded(data: Seq<u8>) -> Option<TalkOpenPacket>;

/// `TalkOpenClientPacket::deserialize` on a reader over `data`; the fields are copied.
#[verifier::external_body]
pub(crate) fn decode_talk_open(data: &[u8]) -> (r: Option<TalkOpenPacket>)
    ensures
        r == talk_open_decoded(data@),
{
    match net::client::TalkOpenClientPacket::deserialize(&EoReader::new(Bytes::copy_from_slice(data))) {
        Ok(p) => Some(TalkOpenPacket {
            message: p.message,
        }),
        Err(_) => None,
    }
}

/// What `TalkMsgClientPacket::deserialize` reads from `data`, or `None` when it fails.
pub uninterp spec fn talk_msg_decoded(data: Seq<u8>) -> Option<TalkMsgPacket>;

/// `TalkMsgClientPacket::deserialize` on a reader over `data`; the fields are copied.
#[verifier::external_body]
pub(crate) fn decode_talk_msg(data: &[u8]) -> (r: Option<TalkMsgPacket>)
    ensures
        r == talk_msg_decoded(data@),
{
    match net::client::TalkMsgClientPacket::deserialize(&EoReader::new(Bytes::copy_from_slice(data))) {
        Ok(p) => Some(TalkMsgPacket {
            message: p.message,
        }),
        Err(_) => None,
    }
}

/// What `TalkTellClientPacket::deserialize` reads from `data`, or `None` when it fails.
pub uninterp spec fn talk_tell_decoded(data: Seq<u8>) -> Option<TalkTellPacket>;

/// `TalkTellClientPacket::deserialize` on a reader over `data`; the fields are copied.
#[verifier::external_body]
pub(crate) fn decode_talk_tell(data: &[u8]) -> (r: Option<TalkTellPacket>)
    ensures
        r == talk_tell_decoded(data@),
{
    match net::client::TalkTellClientPacket::deserialize(&EoReader::new(Bytes::copy_from_slice(data))) {
        Ok(p) => Some(TalkTellPacket {
            name: p.name,
            message: p.message,
        }),
        Err(_) => None,
    }
}

/// What `TalkReportClientPacket::deserialize` reads from `data`, or `None` when it fails.
pub uninterp spec fn talk_report_decoded(data: Seq<u8>) -> Option<TalkReportPacket>;

/// `TalkReportClientPacket::deserialize` on a reader over `data`; the fields are copied.
#[verifier::external_body]
pub(crate) fn decode_talk_report(data: &[u8]) -> (r: Option<TalkReportPacket>)
    ensures
        r == talk_report_decoded(data@),
{
    match net::client::TalkReportClientPacket::deserialize(&EoReader::new(Bytes::copy_from_slice(data))) {
        Ok(p) => Some(TalkReportPacket {
            message: p.message,
        }),
        Err(_) => None,
    }
}

/// What `TalkAdminClientPacket::deserialize` reads from `data`, or `None` when it fails.
pub uninterp spec fn talk_admin_decoded(data: Seq<u8>) -> Option<TalkAdminPacket>;

/// `TalkAdminClientPacket::deserialize` on a reader over `data`; the fields are copied.
#[verifier::external_body]
pub(crate) fn decode_talk_admin(data: &[u8]) -> (r: Option<TalkAdminPacket>)
    ensures
        r == talk_admin_decoded(data@),
{
    match net::client::TalkAdminClientPacket::deserialize(&EoReader::new(Bytes::copy_from_slice(data))) {
        Ok(p) => Some(TalkAdminPacket {
            message: p.message,
        }),
        Err(_) => None,
    }
}

/// What `TalkAnnounceClientPacket::deserialize` reads from `data`, or `None` when it fails.
pub uninterp spec fn talk_announce_decoded(data: Seq<u8>) -> Option<TalkAnnouncePacket>;

/// `TalkAnnounceClientPacket::deserialize` on a reader over `data`; the fields are copied.
#[verifier::external_body]
pub(crate) fn decode_talk_announce(data: &[u8]) -> (r: Option<TalkAnnouncePacket>)
    ensures
        r == talk_announce_decoded(data@),
{
    match net::client::TalkAnnounceClientPacket::deserialize(&EoReader::new(Bytes::copy_from_slice(data))) {
        Ok(p) => Some(TalkAnnouncePacket {
            message: p.message,
        }),
        Err(_) => None,
    }
}

/// What `AttackUseClientPacket::deserialize` reads from `data`, or `None` when it fails.
pub uninterp spec fn attack_use_decoded(data: Seq<u8>) -> Option<AttackUsePacket>;

/// `AttackUseClientPacket::deserialize` on a reader over `data`; the fields are copied.
#[verifier::external_body]
pub(crate) fn decode_attack_use(data: &[u8]) -> (r: Option<AttackUsePacket>)
    ensures
        r == attack_use_decoded(data@),
{
    match net::client::AttackUseClientPacket::deserialize(&EoReader::new(Bytes::copy_from_slice(data))) {
        Ok(p) => Some(AttackUsePacket {
            direction: i32::from(p.direction),
            timestamp: p.timestamp,
        }),
        Err(_) => None,
    }
}

/// What `SitRequestClientPacket::deserialize` reads from `data`, or `None` when it fails.
pub uninterp spec fn sit_request_decoded(data: Seq<u8>) -> Option<SitRequestPacket>;

/// `SitRequestClientPacket::deserialize` on a reader over `data`; the fields are copied.
#[verifier::external_body]
pub(crate) fn decode_sit_request(data: &[u8]) -> (r: Option<SitRequestPacket>)
    ensures
        r == sit_request_decoded(data@),
{
    match net::client::SitRequestClientPacket::deserialize(&EoReader::new(Bytes::copy_from_slice(data))) {
        Ok(p) => Some(SitRequestPacket {
            sit_action: match p.sit_action { net::client::SitAction::Sit => SitAction::Sit, net::client::SitAction::Stand => SitAction::Stand, net::client::SitAction::Unrecognized(v) => SitAction::Unrecognized(v) },
        }),
        Err(_) => None,
    }
}

/// What `EmoteReportClientPacket::deserialize` reads from `data`, or `None` when it fails.
pub uninterp spec fn emote_report_decoded(data: Seq<u8>) -> Option<EmoteReportPacket>;

/// `EmoteReportClientPacket::deserialize` on a reader over `data`; the fields are copied.
#[verifier::external_body]
pub(crate) fn decode_emote_report(data: &[u8]) -> (r: Option<EmoteReportPacket>)
    ensures
        r == emote_report_decoded(data@),
{
    match net::client::EmoteReportClientPacket::deserialize(&EoReader::new(Bytes::copy_from_slice(data))) {
        Ok(p) => Some(EmoteReportPacket {
            emote: i32::from(p.emote),
        }),
        Err(_) => None,
    }
}

/// What `FacePlayerClientPacket::deserialize` reads from `data`, or `None` when it fails.
pub uninterp spec fn face_player_decoded(data: Seq<u8>) -> Option<FacePlayerPacket>;

/// `FacePlayerClientPacket::deserialize` on a reader over `data`; the fields are copied.
#[verifier::external_body]
pub(crate) fn decode_face_player(data: &[u8]) -> (r: Option<FacePlayerPacket>)
    ensures
        r == face_player_decoded(data@),
{
    match net::client::FacePlayerClientPacket::deserialize(&EoReader::new(Bytes::copy_from_slice(data))) {
        Ok(p) => Some(FacePlayerPacket {
            direction: i32::from(p.direction),
        }),
        Err(_) => None,
    }
}

/// What `WalkPlayerClientPacket::deserialize` reads from `data`, or `None` when it fails.
pub uninterp spec fn walk_player_decoded(data: Seq<u8>) -> Option<WalkPlayerPacket>;

/// `WalkPlayerClientPacket::deserialize` on a reader over `data`; the fields are copied.
#[verifier::external_body]
pub(crate) fn decode_walk_player(data: &[u8]) -> (r: Option<WalkPlayerPacket>)
    ensures
        r == walk_player_decoded(data@),
{
    match net::client::WalkPlayerClientPacket::deserialize(&EoReader::new(Bytes::copy_from_slice(data))) {
        Ok(p) => Some(WalkPlayerPacket {
            direction: i32::from(p.walk_action.direction),
            timestamp: p.walk_action.timestamp,
            coords: Coords { x: p.walk_action.coords.x, y: p.walk_action.coords.y },
        }),
        Err(_) => None,
    }
}

/// What `BankOpenClientPacket::deserialize` reads from `data`, or `None` when it fails.
pub uninterp spec fn bank_open_decoded(data: Seq<u8>) -> Option<BankOpenPacket>;

/// `BankOpenClientPacket::deserialize` on a reader over `data`; the fields are copied.
#[verifier::external_body]
pub(crate) fn decode_bank_open(data: &[u8]) -> (r: Option<BankOpenPacket>)
    ensures
        r == bank_open_decoded(data@),
{
    match net::client::BankOpenClientPacket::deserialize(&EoReader::new(Bytes::copy_from_slice(data))) {
        Ok(p) => Some(BankOpenPacket {
            npc_index: p.npc_index,
        }),
        Err(_) => None,
    }
}

/// What `BankAddClientPacket::deserialize` reads from `data`, or `None` when it fails.
pub uninterp spec fn bank_add_decoded(data: Seq<u8>) -> Option<BankAddPacket>;

/// `BankAddClientPacket::deserialize` on a reader over `data`; the fields are copied.
#[verifier::external_body]
pub(crate) fn decode_bank_add(data: &[u8]) -> (r: Option<BankAddPacket>)
    ensures
        r == bank_add_decoded(data@),
{
    match net::client::BankAddClientPacket::deserialize(&EoReader::new(Bytes::copy_from_slice(data))) {
        Ok(p) => Some(BankAddPacket {
            amount: p.amount,
            session_id: p.session_id,
        }),
        Err(_) => None,
    }
}

/// What `BankTakeClientPacket::deserialize` reads from `data`, or `None` when it fails.
pub uninterp spec fn bank_take_decoded(data: Seq<u8>) -> Option<BankTakePacket>;

/// `BankTakeClientPacket::deserialize` on a reader over `data`; the fields are copied.
#[verifier::external_body]
pub(crate) fn decode_bank_take(data: &[u8]) -> (r: Option<BankTakePacket>)
    ensures
        r == bank_take_decoded(data@),
{
    match net::client::BankTakeClientPacket::deserialize(&EoReader::new(Bytes::copy_from_slice(data))) {
        Ok(p) => Some(BankTakePacket {
            amount: p.amount,
            session_id: p.session_id,
        }),
        Err(_) => None,
    }
}

/// What `BarberBuyClientPacket::deserialize` reads from `data`, or `None` when it fails.
pub uninterp spec fn barber_buy_decoded(data: Seq<u8>) -> Option<BarberBuyPacket>;

/// `BarberBuyClientPacket::deserialize` on a reader over `data`; the fields are copied.
#[verifier::external_body]
pub(crate) fn decode_barber_buy(data: &[u8]) -> (r: Option<BarberBuyPacket>)
    ensures
        r == barber_buy_decoded(data@),
{
    match net::client::BarberBuyClientPacket::deserialize(&EoReader::new(Bytes::copy_from_slice(data))) {
        Ok(p) => Some(BarberBuyPacket {
            hair_style: p.hair_style,
            hair_color: p.hair_color,
            session_id: p.session_id,
        }),
        Err(_) => None,
    }
}

/// What `BarberOpenClientPacket::deserialize` reads from `data`, or `None` when it fails.
pub uninterp spec fn barber_open_decoded(data: Seq<u8>) -> Option<BarberOpenPacket>;

/// `BarberOpenClientPacket::deserialize` on a reader over `data`; the fields are copied.
#[verifier::external_body]
pub(crate) fn decode_barber_open(data: &[u8]) -> (r: Option<BarberOpenPacket>)
    ensures
        r == barber_open_decoded(data@),
{
    match net::client::BarberOpenClientPacket::deserialize(&EoReader::new(Bytes::copy_from_slice(data))) {
        Ok(p) => Some(BarberOpenPacket {
            npc_index: p.npc_index,
        }),
        Err(_) => None,
    }
}

/// What `LockerAddClientPacket::deserialize` reads from `data`, or `None` when it fails.
pub uninterp spec fn locker_add_decoded(data: Seq<u8>) -> Option<LockerAddPacket>;

/// `LockerAddClientPacket::deserialize` on a reader over `data`; the fields are copied.
#[verifier::external_body]
pub(crate) fn decode_locker_add(data: &[u8]) -> (r: Option<LockerAddPacket>)
    ensures
        r == locker_add_decoded(data@),
{
    match net::client::LockerAddClientPacket::deserialize(&EoReader::new(Bytes::copy_from_slice(data))) {
        Ok(p) => Some(LockerAddPacket {
            item_id: p.deposit_item.id,
            amount: p.deposit_item.amount,
        }),
        Err(_) => None,
    }
}

/// What `LockerTakeClientPacket::deserialize` reads from `data`, or `None` when it fails.
pub uninterp spec fn locker_take_decoded(data: Seq<u8>) -> Option<LockerTakePacket>;

/// `LockerTakeClientPacket::deserialize` on a reader over `data`; the fields are copied.
#[verifier::external_body]
pub(crate) fn decode_locker_take(data: &[u8]) -> (r: Option<LockerTakePacket>)
    ensures
        r == locker_take_decoded(data@),
{
    match net::client::LockerTakeClientPacket::deserialize(&EoReader::new(Bytes::copy_from_slice(data))) {
        Ok(p) => Some(LockerTakePacket {
            take_item_id: p.take_item_id,
        }),
        Err(_) => None,
    }
}

/// What `CitizenRequestClientPacket::deserialize` reads from `data`, or `None` when it fails.
pub uninterp spec fn citizen_request_decoded(data: Seq<u8>) -> Option<CitizenRequestPacket>;

/// `CitizenRequestClientPacket::deserialize` on a reader over `data`; the fields are copied.
#[verifier::external_body]
pub(crate) fn decode_citizen_request(data: &[u8]) -> (r: Option<CitizenRequestPacket>)
    ensures
        r == citizen_request_decoded(data@),
{
    match net::client::CitizenRequestClientPacket::deserialize(&EoReader::new(Bytes::copy_from_slice(data))) {
        Ok(p) => Some(CitizenRequestPacket {
            session_id: p.session_id,
        }),
        Err(_) => None,
    }
}

/// What `CitizenAcceptClientPacket::deserialize` reads from `data`, or `None` when it fails.
pub uninterp spec fn citizen_accept_decoded(data: Seq<u8>) -> Option<CitizenAcceptPacket>;

/// `CitizenAcceptClientPacket::deserialize` on a reader over `data`; the fields are copied.
#[verifier::external_body]
pub(crate) fn decode_citizen_accept(data: &[u8]) -> (r: Option<CitizenAcceptPacket>)
    ensures
        r == citizen_accept_decoded(data@),
{
    match net::client::CitizenAcceptClientPacket::deserialize(&EoReader::new(Bytes::copy_from_slice(data))) {
        Ok(p) => Some(CitizenAcceptPacket {
            session_id: p.session_id,
        }),
        Err(_) => None,
    }
}

/// What `CitizenReplyClientPacket::deserialize` reads from `data`, or `None` when it fails.
pub uninterp spec fn citizen_reply_decoded(data: Seq<u8>) -> Option<CitizenReplyPacket>;

/// `CitizenReplyClientPacket::deserialize` on a reader over `data`; the fields are copied.
#[verifier::external_body]
pub(crate) fn decode_citizen_reply(data: &[u8]) -> (r: Option<CitizenReplyPacket>)
    ensures
        r == citizen_reply_decoded(data@),
{
    match net::client::CitizenReplyClientPacket::deserialize(&EoReader::new(Bytes::copy_from_slice(data))) {
        Ok(p) => Some(CitizenReplyPacket {
            session_id: p.session_id,
            answers: p.answers.to_vec(),
        }),
        Err(_) => None,
    }
}

/// What `CitizenOpenClientPacket::deserialize` reads from `data`, or `None` when it fails.
pub uninterp spec fn citizen_open_decoded(data: Seq<u8>) -> Option<CitizenOpenPacket>;

/// `CitizenOpenClientPacket::deserialize` on a reader over `data`; the fields are copied.
#[verifier::external_body]
pub(crate) fn decode_citizen_open(data: &[u8]) -> (r: Option<CitizenOpenPacket>)
    ensures
        r == citizen_open_decoded(data@),
{
    match net::client::CitizenOpenClientPacket::deserialize(&EoReader::new(Bytes::copy_from_slice(data))) {
        Ok(p) => Some(CitizenOpenPacket {
            npc_index: p.npc_index,
        }),
        Err(_) => None,
    }
}

/// What `ShopCreateClientPacket::deserialize` reads from `data`, or `None` when it fails.
pub uninterp spec fn shop_create_decoded(data: Seq<u8>) -> Option<ShopCreatePacket>;

/// `ShopCreateClientPacket::deserialize` on a reader over `data`; the fields are copied.
#[verifier::external_body]
pub(crate) fn decode_shop_create(data: &[u8]) -> (r: Option<ShopCreatePacket>)
    ensures
        r == shop_create_decoded(data@),
{
    match net::client::ShopCreateClientPacket::deserialize(&EoReader::new(Bytes::copy_from_slice(data))) {
        Ok(p) => Some(ShopCreatePacket {
            craft_item_id: p.craft_item_id,
            session_id: p.session_id,
        }),
        Err(_) => None,
    }
}

/// What `ShopBuyClientPacket::deserialize` reads from `data`, or `None` when it fails.
pub uninterp spec fn shop_buy_decoded(data: Seq<u8>) -> Option<ShopBuyPacket>;

/// `ShopBuyClientPacket::deserialize` on a reader over `data`; the fields are copied.
#[verifier::external_body]
pub(crate) fn decode_shop_buy(data: &[u8]) -> (r: Option<ShopBuyPacket>)
    ensures
        r == shop_buy_decoded(data@),
{
    match net::client::ShopBuyClientPacket::deserialize(&EoReader::new(Bytes::copy_from_slice(data))) {
        Ok(p) => Some(ShopBuyPacket {
            item_id: p.buy_item.id,
            amount: p.buy_item.amount,
            session_id: p.session_id,
        }),
        Err(_) => None,
    }
}

/// What `ShopSellClientPacket::deserialize` reads from `data`, or `None` when it fails.
pub uninterp spec fn shop_sell_decoded(data: Seq<u8>) -> Option<ShopSellPacket>;

/// `ShopSellClientPacket::deserialize` on a reader over `data`; the fields are copied.
#[verifier::external_body]
pub(crate) fn decode_shop_sell(data: &[u8]) -> (r: Option<ShopSellPacket>)
    ensures
        r == shop_sell_decoded(data@),
{
    match net::client::ShopSellClientPacket::deserialize(&EoReader::new(Bytes::copy_from_slice(data))) {
        Ok(p) => Some(ShopSellPacket {
            item_id: p.sell_item.id,
            amount: p.sell_item.amount,
            session_id: p.session_id,
        }),
        Err(_) => None,
    }
}

/// What `ShopOpenClientPacket::deserialize` reads from `data`, or `None` when it fails.
pub uninterp spec fn shop_open_decoded(data: Seq<u8>) -> Option<ShopOpenPacket>;

/// `ShopOpenClientPacket::deserialize` on a reader over `data`; the fields are copied.
#[verifier::external_body]
pub(crate) fn decode_shop_open(data: &[u8]) -> (r: Option<ShopOpenPacket>)
    ensures
        r == shop_open_decoded(data@),
{
    match net::client::ShopOpenClientPacket::deserialize(&EoReader::new(Bytes::copy_from_slice(data))) {
        Ok(p) => Some(ShopOpenPacket {
            npc_index: p.npc_index,
        }),
        Err(_) => None,
    }
}

/// What `StatSkillOpenClientPacket::deserialize` reads from `data`, or `None` when it fails.
pub uninterp spec fn stat_skill_open_decoded(data: Seq<u8>) -> Option<StatSkillOpenPacket>;

/// `StatSkillOpenClientPacket::deserialize` on a reader over `data`; the fields are copied.
#[verifier::external_body]
pub(crate) fn decode_stat_skill_open(data: &[u8]) -> (r: Option<StatSkillOpenPacket>)
    ensures
        r == stat_skill_open_decoded(data@),
{
    match net::client::StatSkillOpenClientPacket::deserialize(&EoReader::new(Bytes::copy_from_slice(data))) {
        Ok(p) => Some(StatSkillOpenPacket {
            npc_index: p.npc_index,
        }),
        Err(_) => None,
    }
}

/// What `StatSkillTakeClientPacket::deserialize` reads from `data`, or `None` when it fails.
pub uninterp spec fn stat_skill_take_decoded(data: Seq<u8>) -> Option<StatSkillTakePacket>;

/// `StatSkillTakeClientPacket::deserialize` on a reader over `data`; the fields are copied.
#[verifier::external_body]
pub(crate) fn decode_stat_skill_take(data: &[u8]) -> (r: Option<StatSkillTakePacket>)
    ensures
        r == stat_skill_take_decoded(data@),
{
    match net::client::StatSkillTakeClientPacket::deserialize(&EoReader::new(Bytes::copy_from_slice(data))) {
        Ok(p) => Some(StatSkillTakePacket {
            session_id: p.session_id,
            spell_id: p.spell_id,
        }),
        Err(_) => None,
    }
}

/// What `StatSkillRemoveClientPacket::deserialize` reads from `data`, or `None` when it fails.
pub uninterp spec fn stat_skill_remove_decoded(data: Seq<u8>) -> Option<StatSkillRemovePacket>;

/// `StatSkillRemoveClientPacket::deserialize` on a reader over `data`; the fields are copied.
#[verifier::external_body]
pub(crate) fn decode_stat_skill_remove(data: &[u8]) -> (r: Option<StatSkillRemovePacket>)
    ensures
        r == stat_skill_remove_decoded(data@),
{
    match net::client::StatSkillRemoveClientPacket::deserialize(&EoReader::new(Bytes::copy_from_slice(data))) {
        Ok(p) => Some(StatSkillRemovePacket {
            session_id: p.session_id,
            spell_id: p.spell_id,
        }),
        Err(_) => None,
    }
}

/// What `StatSkillJunkClientPacket::deserialize` reads from `data`, or `None` when it fails.
pub uninterp spec fn stat_skill_junk_decoded(data: Seq<u8>) -> Option<StatSkillJunkPacket>;

/// `StatSkillJunkClientPacket::deserialize` on a reader over `data`; the fields are copied.
#[verifier::external_body]
pub(crate) fn decode_stat_skill_junk(data: &[u8]) -> (r: Option<StatSkillJunkPacket>)
    ensures
        r == stat_skill_junk_decoded(data@),
{
    match net::client::StatSkillJunkClientPacket::deserialize(&EoReader::new(Bytes::copy_from_slice(data))) {
        Ok(p) => Some(StatSkillJunkPacket {
            session_id: p.session_id,
        }),
        Err(_) => None,
    }
}

/// What `ItemUseClientPacket::deserialize` reads from `data`, or `None` when it fails.
pub uninterp spec fn item_use_decoded(data: Seq<u8>) -> Option<ItemUsePacket>;

/// `ItemUseClientPacket::deserialize` on a reader over `data`; the fields are copied.
#[verifier::external_body]
pub(crate) fn decode_item_use(data: &[u8]) -> (r: Option<ItemUsePacket>)
    ensures
        r == item_use_decoded(data@),
{
    match net::client::ItemUseClientPacket::deserialize(&EoReader::new(Bytes::copy_from_slice(data))) {
        Ok(p) => Some(ItemUsePacket {
            item_id: p.item_id,
        }),
        Err(_) => None,
    }
}

/// What `ItemDropClientPacket::deserialize` reads from `data`, or `None` when it fails.
pub uninterp spec fn item_drop_decoded(data: Seq<u8>) -> Option<ItemDropPacket>;

/// `ItemDropClientPacket::deserialize` on a reader over `data`; the fields are copied.
#[verifier::external_body]
pub(crate) fn decode_item_drop(data: &[u8]) -> (r: Option<ItemDropPacket>)
    ensures
        r == item_drop_decoded(data@),
{
    match net::client::ItemDropClientPacket::deserialize(&EoReader::new(Bytes::copy_from_slice(data))) {
        Ok(p) => Some(ItemDropPacket {
            item_id: p.item.id,
            amount: p.item.amount,
            x: p.coords.x,
            y: p.coords.y,
        }),
        Err(_) => None,
    }
}

/// What `ItemJunkClientPacket::deserialize` reads from `data`, or `None` when it fails.
pub uninterp spec fn item_junk_decoded(data: Seq<u8>) -> Option<ItemJunkPacket>;

/// `ItemJunkClientPacket::deserialize` on a reader over `data`; the fields are copied.
#[verifier::external_body]
pub(crate) fn decode_item_junk(data: &[u8]) -> (r: Option<ItemJunkPacket>)
    ensures
        r == item_junk_decoded(data@),
{
    match net::client::ItemJunkClientPacket::deserialize(&EoReader::new(Bytes::copy_from_slice(data))) {
        Ok(p) => Some(ItemJunkPacket {
            item_id: p.item.id,
            amount: p.item.amount,
        }),
        Err(_) => None,
    }
}

/// What `ItemGetClientPacket::deserialize` reads from `data`, or `None` when it fails.
pub uninterp spec fn item_get_decoded(data: Seq<u8>) -> Option<ItemGetPacket>;

/// `ItemGetClientPacket::deserialize` on a reader over `data`; the fields are copied.
#[verifier::external_body]
pub(crate) fn decode_item_get(data: &[u8]) -> (r: Option<ItemGetPacket>)
    ensures
        r == item_get_decoded(data@),
{
    match net::client::ItemGetClientPacket::deserialize(&EoReader::new(Bytes::copy_from_slice(data))) {
        Ok(p) => Some(ItemGetPacket {
            item_index: p.item_index,
        }),
        Err(_) => None,
    }
}

/// What `BoardRemoveClientPacket::deserialize` reads from `data`, or `None` when it fails.
pub uninterp spec fn board_remove_decoded(data: Seq<u8>) -> Option<BoardRemovePacket>;

/// `BoardRemoveClientPacket::deserialize` on a reader over `data`; the fields are copied.
#[verifier::external_body]
pub(crate) fn decode_board_remove(data: &[u8]) -> (r: Option<BoardRemovePacket>)
    ensures
        r == board_remove_decoded(data@),
{
    match net::client::BoardRemoveClientPacket::deserialize(&EoReader::new(Bytes::copy_from_slice(data))) {
        Ok(p) => Some(BoardRemovePacket {
            post_id: p.post_id,
        }),
        Err(_) => None,
    }
}

/// What `BoardCreateClientPacket::deserialize` reads from `data`, or `None` when it fails.
pub uninterp spec fn board_create_decoded(data: Seq<u8>) -> Option<BoardCreatePacket>;

/// `BoardCreateClientPacket::deserialize` on a reader over `data`; the fields are copied.
#[verifier::external_body]
pub(crate) fn decode_board_create(data: &[u8]) -> (r: Option<BoardCreatePacket>)
    ensures
        r == board_create_decoded(data@),
{
    match net::client::BoardCreateClientPacket::deserialize(&EoReader::new(Bytes::copy_from_slice(data))) {
        Ok(p) => Some(BoardCreatePacket {
            post_subject: p.post_subject,
            post_body: p.post_body,
        }),
        Err(_) => None,
    }
}

/// What `BoardTakeClientPacket::deserialize` reads from `data`, or `None` when it fails.
pub uninterp spec fn board_take_decoded(data: Seq<u8>) -> Option<BoardTakePacket>;

/// `BoardTakeClientPacket::deserialize` on a reader over `data`; the fields are copied.
#[verifier::external_body]
pub(crate) fn decode_board_take(data: &[u8]) -> (r: Option<BoardTakePacket>)
    ensures
        r == board_take_decoded(data@),
{
    match net::client::BoardTakeClientPacket::deserialize(&EoReader::new(Bytes::copy_from_slice(data))) {
        Ok(p) => Some(BoardTakePacket {
            post_id: p.post_id,
        }),
        Err(_) => None,
    }
}

/// What `BoardOpenClientPacket::deserialize` reads from `data`, or `None` when it fails.
pub uninterp spec fn board_open_decoded(data: Seq<u8>) -> Option<BoardOpenPacket>;

/// `BoardOpenClientPacket::deserialize` on a reader over `data`; the fields are copied.
/// The field is a two-byte number, which `eolib::data::decode_number` reads
/// as a value between -254 and 64516.
#[verifier::external_body]
pub(crate) fn decode_board_open(data: &[u8]) -> (r: Option<BoardOpenPacket>)
    ensures
        r == board_open_decoded(data@),
        r matches Some(p) ==> -254 <= p.board_id <= 64516,
{
    match net::client::BoardOpenClientPacket::deserialize(&EoReader::new(Bytes::copy_from_slice(data))) {
        Ok(p) => Some(BoardOpenPacket {
            board_id: p.board_id,
        }),
        Err(_) => None,
    }
}

/// What `JukeboxMsgClientPacket::deserialize` reads from `data`, or `None` when it fails.
pub uninterp spec fn jukebox_msg_decoded(data: Seq<u8>) -> Option<JukeboxMsgPacket>;

/// `JukeboxMsgClientPacket::deserialize` on a reader over `data`; the fields are copied.
/// The field is a two-byte number, which `eolib::data::decode_number` reads
/// as a value between -254 and 64516.
#[verifier::external_body]
pub(crate) fn decode_jukebox_msg(data: &[u8]) -> (r: Option<JukeboxMsgPacket>)
    ensures
        r == jukebox_msg_decoded(data@),
        r matches Some(p) ==> -254 <= p.track_id <= 64516,
{
    match net::client::JukeboxMsgClientPacket::deserialize(&EoReader::new(Bytes::copy_from_slice(data))) {
        Ok(p) => Some(JukeboxMsgPacket {
            track_id: p.track_id,
        }),
        Err(_) => None,
    }
}

/// What `JukeboxUseClientPacket::deserialize` reads from `data`, or `None` when it fails.
pub uninterp spec fn jukebox_use_decoded(data: Seq<u8>) -> Option<JukeboxUsePacket>;

/// `JukeboxUseClientPacket::deserialize` on a reader over `data`; the fields are copied.
#[verifier::external_body]
pub(crate) fn decode_jukebox_use(data: &[u8]) -> (r: Option<JukeboxUsePacket>)
    ensures
        r == jukebox_use_decoded(data@),
{
    match net::client::JukeboxUseClientPacket::deserialize(&EoReader::new(Bytes::copy_from_slice(data))) {
        Ok(p) => Some(JukeboxUsePacket {
            instrument_id: p.instrument_id,
            note_id: p.note_id,
        }),
        Err(_) => None,
    }
}

/// What `WarpAcceptClientPacket::deserialize` reads from `data`, or `None` when it fails.
pub uninterp spec fn warp_accept_decoded(data: Seq<u8>) -> Option<WarpAcceptPacket>;

/// `WarpAcceptClientPacket::deserialize` on a reader over `data`; the fields are copied.
#[verifier::external_body]
pub(crate) fn decode_warp_accept(data: &[u8]) -> (r: Option<WarpAcceptPacket>)
    ensures
        r == warp_accept_decoded(data@),
{
    match net::client::WarpAcceptClientPacket::deserialize(&EoReader::new(Bytes::copy_from_slice(data))) {
        Ok(p) => Some(WarpAcceptPacket {
            map_id: p.map_id,
            session_id: p.session_id,
        }),
        Err(_) => None,
    }
}

/// What `WarpTakeClientPacket::deserialize` reads from `data`, or `None` when it fails.
pub uninterp spec fn warp_take_decoded(data: Seq<u8>) -> Option<WarpTakePacket>;

/// `WarpTakeClientPacket::deserialize` on a reader over `data`; the fields are copied.
#[verifier::external_body]
pub(crate) fn decode_warp_take(data: &[u8]) -> (r: Option<WarpTakePacket>)
    ensures
        r == warp_take_decoded(data@),
{
    match net::client::WarpTakeClientPacket::deserialize(&EoReader::new(Bytes::copy_from_slice(data))) {
        Ok(p) => Some(WarpTakePacket {
            session_id: p.session_id,
        }),
        Err(_) => None,
    }
}

/// What `PaperdollRequestClientPacket::deserialize` reads from `data`, or `None` when it fails.
pub uninterp spec fn paperdoll_request_decoded(data: Seq<u8>) -> Option<PaperdollRequestPacket>;

/// `PaperdollRequestClientPacket::deserialize` on a reader over `data`; the fields are copied.
#[verifier::external_body]
pub(crate) fn decode_paperdoll_request(data: &[u8]) -> (r: Option<PaperdollRequestPacket>)
    ensures
        r == paperdoll_request_decoded(data@),
{
    match net::client::PaperdollRequestClientPacket::deserialize(&EoReader::new(Bytes::copy_from_slice(data))) {
        Ok(p) => Some(PaperdollRequestPacket {
            player_id: p.player_id,
        }),
        Err(_) => None,
    }
}

/// What `PaperdollRemoveClientPacket::deserialize` reads from `data`, or `None` when it fails.
pub uninterp spec fn paperdoll_remove_decoded(data: Seq<u8>) -> Option<PaperdollRemovePacket>;

/// `PaperdollRemoveClientPacket::deserialize` on a reader over `data`; the fields are copied.
#[verifier::external_body]
pub(crate) fn decode_paperdoll_remove(data: &[u8]) -> (r: Option<PaperdollRemovePacket>)
    ensures
        r == paperdoll_remove_decoded(data@),
{
    match net::client::PaperdollRemoveClientPacket::deserialize(&EoReader::new(Bytes::copy_from_slice(data))) {
        Ok(p) => Some(PaperdollRemovePacket {
            item_id: p.item_id,
            sub_loc: p.sub_loc,
        }),
        Err(_) => None,
    }
}

/// What `PaperdollAddClientPacket::deserialize` reads from `data`, or `None` when it fails.
pub uninterp spec fn paperdoll_add_decoded(data: Seq<u8>) -> Option<PaperdollAddPacket>;

/// `PaperdollAddClientPacket::deserialize` on a reader over `data`; the fields are copied.
#[verifier::external_body]
pub(crate) fn decode_paperdoll_add(data: &[u8]) -> (r: Option<PaperdollAddPacket>)
    ensures
        r == paperdoll_add_decoded(data@),
{
    match net::client::PaperdollAddClientPacket::deserialize(&EoReader::new(Bytes::copy_from_slice(data))) {
        Ok(p) => Some(PaperdollAddPacket {
            item_id: p.item_id,
            sub_loc: p.sub_loc,
        }),
        Err(_) => None,
    }
}

/// What `BookRequestClientPacket::deserialize` reads from `data`, or `None` when it fails.
pub uninterp spec fn book_request_decoded(data: Seq<u8>) -> Option<BookRequestPacket>;

/// `BookRequestClientPacket::deserialize` on a reader over `data`; the fields are copied.
#[verifier::external_body]
pub(crate) fn decode_book_request(data: &[u8]) -> (r: Option<BookRequestPacket>)
    ensures
        r == book_request_decoded(data@),
{
    match net::client::BookRequestClientPacket::deserialize(&EoReader::new(Bytes::copy_from_slice(data))) {
        Ok(p) => Some(BookRequestPacket {
            player_id: p.player_id,
        }),
        Err(_) => None,
    }
}

/// What `PlayersAcceptClientPacket::deserialize` reads from `data`, or `None` when it fails.
pub uninterp spec fn players_accept_decoded(data: Seq<u8>) -> Option<PlayersAcceptPacket>;

/// `PlayersAcceptClientPacket::deserialize` on a reader over `data`; the fields are copied.
#[verifier::external_body]
pub(crate) fn decode_players_accept(data: &[u8]) -> (r: Option<PlayersAcceptPacket>)
    ensures
        r == players_accept_decoded(data@),
{
    match net::client::PlayersAcceptClientPacket::deserialize(&EoReader::new(Bytes::copy_from_slice(data))) {
        Ok(p) => Some(PlayersAcceptPacket {
            name: p.name,
        }),
        Err(_) => None,
    }
}

/// What `DoorOpenClientPacket::deserialize` reads from `data`, or `None` when it fails.
pub uninterp spec fn door_open_decoded(data: Seq<u8>) -> Option<DoorOpenPacket>;

/// `DoorOpenClientPacket::deserialize` on a reader over `data`; the fields are copied.
#[verifier::external_body]
pub(crate) fn decode_door_open(data: &[u8]) -> (r: Option<DoorOpenPacket>)
    ensures
        r == door_open_decoded(data@),
{
    match net::client::DoorOpenClientPacket::deserialize(&EoReader::new(Bytes::copy_from_slice(data))) {
        Ok(p) => Some(DoorOpenPacket {
            coords: Coords { x: p.coords.x, y: p.coords.y },
        }),
        Err(_) => None,
    }
}

/// What `ChestOpenClientPacket::deserialize` reads from `data`, or `None` when it fails.
pub uninterp spec fn chest_open_decoded(data: Seq<u8>) -> Option<ChestOpenPacket>;

/// `ChestOpenClientPacket::deserialize` on a reader over `data`; the fields are copied.
#[verifier::external_body]
pub(crate) fn decode_chest_open(data: &[u8]) -> (r: Option<ChestOpenPacket>)
    ensures
        r == chest_open_decoded(data@),
{
    match net::client::ChestOpenClientPacket::deserialize(&EoReader::new(Bytes::copy_from_slice(data))) {
        Ok(p) => Some(ChestOpenPacket {
            coords: Coords { x: p.coords.x, y: p.coords.y },
        }),
        Err(_) => None,
    }
}

/// What `ChestAddClientPacket::deserialize` reads from `data`, or `None` when it fails.
pub uninterp spec fn chest_add_decoded(data: Seq<u8>) -> Option<ChestAddPacket>;

/// `ChestAddClientPacket::deserialize` on a reader over `data`; the fields are copied.
#[verifier::external_body]
pub(crate) fn decode_chest_add(data: &[u8]) -> (r: Option<ChestAddPacket>)
    ensures
        r == chest_add_decoded(data@),
{
    match net::client::ChestAddClientPacket::deserialize(&EoReader::new(Bytes::copy_from_slice(data))) {
        Ok(p) => Some(ChestAddPacket {
            item_id: p.add_item.id,
            amount: p.add_item.amount,
        }),
        Err(_) => None,
    }
}

/// What `ChestTakeClientPacket::deserialize` reads from `data`, or `None` when it fails.
pub uninterp spec fn chest_take_decoded(data: Seq<u8>) -> Option<ChestTakePacket>;

/// `ChestTakeClientPacket::deserialize` on a reader over `data`; the fields are copied.
#[verifier::external_body]
pub(crate) fn decode_chest_take(data: &[u8]) -> (r: Option<ChestTakePacket>)
    ensures
        r == chest_take_decoded(data@),
{
    match net::client::ChestTakeClientPacket::deserialize(&EoReader::new(Bytes::copy_from_slice(data))) {
        Ok(p) => Some(ChestTakePacket {
            take_item_id: p.take_item_id,
        }),
        Err(_) => None,
    }
}

/// What `RangeRequestClientPacket::deserialize` reads from `data`, or `None` when it fails.
pub uninterp spec fn range_request_decoded(data: Seq<u8>) -> Option<RangeRequestPacket>;

/// `RangeRequestClientPacket::deserialize` on a reader over `data`; the fields are copied.
#[verifier::external_body]
pub(crate) fn decode_range_request(data: &[u8]) -> (r: Option<RangeRequestPacket>)
    ensures
        r == range_request_decoded(data@),
{
    match net::client::RangeRequestClientPacket::deserialize(&EoReader::new(Bytes::copy_from_slice(data))) {
        Ok(p) => Some(RangeRequestPacket {
            player_ids: p.player_ids,
            npc_indexes: p.npc_indexes,
        }),
        Err(_) => None,
    }
}

/// What `PlayerRangeRequestClientPacket::deserialize` reads from `data`, or `None` when it fails.
pub uninterp spec fn player_range_request_decoded(data: Seq<u8>) -> Option<PlayerRangeRequestPacket>;

/// `PlayerRangeRequestClientPacket::deserialize` on a reader over `data`; the fields are copied.
#[verifier::external_body]
pub(crate) fn decode_player_range_request(data: &[u8]) -> (r: Option<PlayerRangeRequestPacket>)
    ensures
        r == player_range_request_decoded(data@),
{
    match net::client::PlayerRangeRequestClientPacket::deserialize(&EoReader::new(Bytes::copy_from_slice(data))) {
        Ok(p) => Some(PlayerRangeRequestPacket {
            player_ids: p.player_ids,
        }),
        Err(_) => None,
    }
}

/// What `NpcRangeRequestClientPacket::deserialize` reads from `data`, or `None` when it fails.
pub uninterp spec fn npc_range_request_decoded(data: Seq<u8>) -> Option<NpcRangeRequestPacket>;

/// `NpcRangeRequestClientPacket::deserialize` on a reader over `data`; the fields are copied.
/// A first byte of 0 is left out: it reads as a length of -1, which the
/// deserializer takes as `usize::MAX` items and never stops reading.
#[verifier::external_body]
pub(crate) fn decode_npc_range_request(data: &[u8]) -> (r: Option<NpcRangeRequestPacket>)
    requires
        data@.len() == 0 || data@[0] != 0,
    ensures
        r == npc_range_request_decoded(data@),
{
    match net::client::NpcRangeRequestClientPacket::deserialize(&EoReader::new(Bytes::copy_from_slice(data))) {
        Ok(p) => Some(NpcRangeRequestPacket {
            npc_indexes: p.npc_indexes,
        }),
        Err(_) => None,
    }
}

/// What `PartyRequestClientPacket::deserialize` reads from `data`, or `None` when it fails.
pub uninterp spec fn party_request_decoded(data: Seq<u8>) -> Option<PartyRequestPacket>;

/// `PartyRequestClientPacket::deserialize` on a reader over `data`; the fields are copied.
#[verifier::external_body]
pub(crate) fn decode_party_request(data: &[u8]) -> (r: Option<PartyRequestPacket>)
    ensures
        r == party_request_decoded(data@),
{
    match net::client::PartyRequestClientPacket::deserialize(&EoReader::new(Bytes::copy_from_slice(data))) {
        Ok(p) => Some(PartyRequestPacket {
            request_type: match p.request_type { net::PartyRequestType::Join => PartyRequestType::Join, net::PartyRequestType::Invite => PartyRequestType::Invite, net::PartyRequestType::Unrecognized(v) => PartyRequestType::Unrecognized(v) },
            player_id: p.player_id,
        }),
        Err(_) => None,
    }
}

/// What `PartyAcceptClientPacket::deserialize` reads from `data`, or `None` when it fails.
pub uninterp spec fn party_accept_decoded(data: Seq<u8>) -> Option<PartyAcceptPacket>;

/// `PartyAcceptClientPacket::deserialize` on a reader over `data`; the fields are copied.
#[verifier::external_body]
pub(crate) fn decode_party_accept(data: &[u8]) -> (r: Option<PartyAcceptPacket>)
    ensures
        r == party_accept_decoded(data@),
{
    match net::client::PartyAcceptClientPacket::deserialize(&EoReader::new(Bytes::copy_from_slice(data))) {
        Ok(p) => Some(PartyAcceptPacket {
            request_type: i32::from(p.request_type),
            inviter_player_id: p.inviter_player_id,
        }),
        Err(_) => None,
    }
}

/// What `PartyRemoveClientPacket::deserialize` reads from `data`, or `None` when it fails.
pub uninterp spec fn party_remove_decoded(data: Seq<u8>) -> Option<PartyRemovePacket>;

/// `PartyRemoveClientPacket::deserialize` on a reader over `data`; the fields are copied.
#[verifier::external_body]
pub(crate) fn decode_party_remove(data: &[u8]) -> (r: Option<PartyRemovePacket>)
    ensures
        r == party_remove_decoded(data@),
{
    match net::client::PartyRemoveClientPacket::deserialize(&EoReader::new(Bytes::copy_from_slice(data))) {
        Ok(p) => Some(PartyRemovePacket {
            player_id: p.player_id,
        }),
        Err(_) => None,
    }
}

/// What `GuildRequestClientPacket::deserialize` reads from `data`, or `None` when it fails.
pub uninterp spec fn guild_request_decoded(data: Seq<u8>) -> Option<GuildRequestPacket>;

/// `GuildRequestClientPacket::deserialize` on a reader over `data`; the fields are copied.
#[verifier::external_body]
pub(crate) fn decode_guild_request(data: &[u8]) -> (r: Option<GuildRequestPacket>)
    ensures
        r == guild_request_decoded(data@),
{
    match net::client::GuildRequestClientPacket::deserialize(&EoReader::new(Bytes::copy_from_slice(data))) {
        Ok(p) => Some(GuildRequestPacket {
            session_id: p.session_id,
            guild_tag: p.guild_tag,
            guild_name: p.guild_name,
        }),
        Err(_) => None,
    }
}

/// What `GuildAcceptClientPacket::deserialize` reads from `data`, or `None` when it fails.
pub uninterp spec fn guild_accept_decoded(data: Seq<u8>) -> Option<GuildAcceptPacket>;

/// `GuildAcceptClientPacket::deserialize` on a reader over `data`; the fields are copied.
#[verifier::external_body]
pub(crate) fn decode_guild_accept(data: &[u8]) -> (r: Option<GuildAcceptPacket>)
    ensures
        r == guild_accept_decoded(data@),
{
    match net::client::GuildAcceptClientPacket::deserialize(&EoReader::new(Bytes::copy_from_slice(data))) {
        Ok(p) => Some(GuildAcceptPacket {
            inviter_player_id: p.inviter_player_id,
        }),
        Err(_) => None,
    }
}

/// What `GuildRemoveClientPacket::deserialize` reads from `data`, or `None` when it fails.
pub uninterp spec fn guild_remove_decoded(data: Seq<u8>) -> Option<GuildRemovePacket>;

/// `GuildRemoveClientPacket::deserialize` on a reader over `data`; the fields are copied.
#[verifier::external_body]
pub(crate) fn decode_guild_remove(data: &[u8]) -> (r: Option<GuildRemovePacket>)
    ensures
        r == guild_remove_decoded(data@),
{
    match net::client::GuildRemoveClientPacket::deserialize(&EoReader::new(Bytes::copy_from_slice(data))) {
        Ok(p) => Some(GuildRemovePacket {
            session_id: p.session_id,
        }),
        Err(_) => None,
    }
}

/// What `GuildCreateClientPacket::deserialize` reads from `data`, or `None` when it fails.
pub uninterp spec fn guild_create_decoded(data: Seq<u8>) -> Option<GuildCreatePacket>;

/// `GuildCreateClientPacket::deserialize` on a reader over `data`; the fields are copied.
#[verifier::external_body]
pub(crate) fn decode_guild_create(data: &[u8]) -> (r: Option<GuildCreatePacket>)
    ensures
        r == guild_create_decoded(data@),
{
    match net::client::GuildCreateClientPacket::deserialize(&EoReader::new(Bytes::copy_from_slice(data))) {
        Ok(p) => Some(GuildCreatePacket {
            session_id: p.session_id,
            guild_tag: p.guild_tag,
            guild_name: p.guild_name,
            description: p.description,
        }),
        Err(_) => None,
    }
}

/// What `GuildPlayerClientPacket::deserialize` reads from `data`, or `None` when it fails.
pub uninterp spec fn guild_player_decoded(data: Seq<u8>) -> Option<GuildPlayerPacket>;

/// `GuildPlayerClientPacket::deserialize` on a reader over `data`; the fields are copied.
#[verifier::external_body]
pub(crate) fn decode_guild_player(data: &[u8]) -> (r: Option<GuildPlayerPacket>)
    ensures
        r == guild_player_decoded(data@),
{
    match net::client::GuildPlayerClientPacket::deserialize(&EoReader::new(Bytes::copy_from_slice(data))) {
        Ok(p) => Some(GuildPlayerPacket {
            session_id: p.session_id,
            guild_tag: p.guild_tag,
            recruiter_name: p.recruiter_name,
        }),
        Err(_) => None,
    }
}

/// What `GuildTakeClientPacket::deserialize` reads from `data`, or `None` when it fails.
pub uninterp spec fn guild_take_decoded(data: Seq<u8>) -> Option<GuildTakePacket>;

/// `GuildTakeClientPacket::deserialize` on a reader over `data`; the fields are copied.
#[verifier::external_body]
pub(crate) fn decode_guild_take(data: &[u8]) -> (r: Option<GuildTakePacket>)
    ensures
        r == guild_take_decoded(data@),
{
    match net::client::GuildTakeClientPacket::deserialize(&EoReader::new(Bytes::copy_from_slice(data))) {
        Ok(p) => Some(GuildTakePacket {
            session_id: p.session_id,
            info_type: match p.info_type { net::client::GuildInfoType::Description => GuildInfoType::Description, net::client::GuildInfoType::Ranks => GuildInfoType::Ranks, net::client::GuildInfoType::Bank => GuildInfoType::Bank, net::client::GuildInfoType::Unrecognized(v) => GuildInfoType::Unrecognized(v) },
        }),
        Err(_) => None,
    }
}

/// What `GuildUseClientPacket::deserialize` reads from `data`, or `None` when it fails.
pub uninterp spec fn guild_use_decoded(data: Seq<u8>) -> Option<GuildUsePacket>;

/// `GuildUseClientPacket::deserialize` on a reader over `data`; the fields are copied.
#[verifier::external_body]
pub(crate) fn decode_guild_use(data: &[u8]) -> (r: Option<GuildUsePacket>)
    ensures
        r == guild_use_decoded(data@),
{
    match net::client::GuildUseClientPacket::deserialize(&EoReader::new(Bytes::copy_from_slice(data))) {
        Ok(p) => Some(GuildUsePacket {
            player_id: p.player_id,
        }),
        Err(_) => None,
    }
}

/// What `GuildBuyClientPacket::deserialize` reads from `data`, or `None` when it fails.
pub uninterp spec fn guild_buy_decoded(data: Seq<u8>) -> Option<GuildBuyPacket>;

/// `GuildBuyClientPacket::deserialize` on a reader over `data`; the fields are copied.
#[verifier::external_body]
pub(crate) fn decode_guild_buy(data: &[u8]) -> (r: Option<GuildBuyPacket>)
    ensures
        r == guild_buy_decoded(data@),
{
    match net::client::GuildBuyClientPacket::deserialize(&EoReader::new(Bytes::copy_from_slice(data))) {
        Ok(p) => Some(GuildBuyPacket {
            session_id: p.session_id,
            gold_amount: p.gold_amount,
        }),
        Err(_) => None,
    }
}

/// What `GuildOpenClientPacket::deserialize` reads from `data`, or `None` when it fails.
pub uninterp spec fn guild_open_decoded(data: Seq<u8>) -> Option<GuildOpenPacket>;

/// `GuildOpenClientPacket::deserialize` on a reader over `data`; the fields are copied.
#[verifier::external_body]
pub(crate) fn decode_guild_open(data: &[u8]) -> (r: Option<GuildOpenPacket>)
    ensures
        r == guild_open_decoded(data@),
{
    match net::client::GuildOpenClientPacket::deserialize(&EoReader::new(Bytes::copy_from_slice(data))) {
        Ok(p) => Some(GuildOpenPacket {
            npc_index: p.npc_index,
        }),
        Err(_) => None,
    }
}

/// What `GuildTellClientPacket::deserialize` reads from `data`, or `None` when it fails.
pub uninterp spec fn guild_tell_decoded(data: Seq<u8>) -> Option<GuildTellPacket>;

/// `GuildTellClientPacket::deserialize` on a reader over `data`; the fields are copied.
#[verifier::external_body]
pub(crate) fn decode_guild_tell(data: &[u8]) -> (r: Option<GuildTellPacket>)
    ensures
        r == guild_tell_decoded(data@),
{
    match net::client::GuildTellClientPacket::deserialize(&EoReader::new(Bytes::copy_from_slice(data))) {
        Ok(p) => Some(GuildTellPacket {
            session_id: p.session_id,
            guild_identity: p.guild_identity,
        }),
        Err(_) => None,
    }
}

/// What `GuildReportClientPacket::deserialize` reads from `data`, or `None` when it fails.
pub uninterp spec fn guild_report_decoded(data: Seq<u8>) -> Option<GuildReportPacket>;

/// `GuildReportClientPacket::deserialize` on a reader over `data`; the fields are copied.
#[verifier::external_body]
pub(crate) fn decode_guild_report(data: &[u8]) -> (r: Option<GuildReportPacket>)
    ensures
        r == guild_report_decoded(data@),
{
    match net::client::GuildReportClientPacket::deserialize(&EoReader::new(Bytes::copy_from_slice(data))) {
        Ok(p) => Some(GuildReportPacket {
            session_id: p.session_id,
            guild_identity: p.guild_identity,
        }),
        Err(_) => None,
    }
}

/// What `GuildJunkClientPacket::deserialize` reads from `data`, or `None` when it fails.
pub uninterp spec fn guild_junk_decoded(data: Seq<u8>) -> Option<GuildJunkPacket>;

/// `GuildJunkClientPacket::deserialize` on a reader over `data`; the fields are copied.
#[verifier::external_body]
pub(crate) fn decode_guild_junk(data: &[u8]) -> (r: Option<GuildJunkPacket>)
    ensures
        r == guild_junk_decoded(data@),
{
    match net::client::GuildJunkClientPacket::deserialize(&EoReader::new(Bytes::copy_from_slice(data))) {
        Ok(p) => Some(GuildJunkPacket {
            session_id: p.session_id,
        }),
        Err(_) => None,
    }
}

/// What `GuildKickClientPacket::deserialize` reads from `data`, or `None` when it fails.
pub uninterp spec fn guild_kick_decoded(data: Seq<u8>) -> Option<GuildKickPacket>;

/// `GuildKickClientPacket::deserialize` on a reader over `data`; the fields are copied.
#[verifier::external_body]
pub(crate) fn decode_guild_kick(data: &[u8]) -> (r: Option<GuildKickPacket>)
    ensures
        r == guild_kick_decoded(data@),
{
    match net::client::GuildKickClientPacket::deserialize(&EoReader::new(Bytes::copy_from_slice(data))) {
        Ok(p) => Some(GuildKickPacket {
            session_id: p.session_id,
            member_name: p.member_name,
        }),
        Err(_) => None,
    }
}

/// What `GuildRankClientPacket::deserialize` reads from `data`, or `None` when it fails.
pub uninterp spec fn guild_rank_decoded(data: Seq<u8>) -> Option<GuildRankPacket>;

/// `GuildRankClientPacket::deserialize` on a reader over `data`; the fields are copied.
#[verifier::external_body]
pub(crate) fn decode_guild_rank(data: &[u8]) -> (r: Option<GuildRankPacket>)
    ensures
        r == guild_rank_decoded(data@),
{
    match net::client::GuildRankClientPacket::deserialize(&EoReader::new(Bytes::copy_from_slice(data))) {
        Ok(p) => Some(GuildRankPacket {
            session_id: p.session_id,
            rank: p.rank,
            member_name: p.member_name,
        }),
        Err(_) => None,
    }
}

/// What `SpellRequestClientPacket::deserialize` reads from `data`, or `None` when it fails.
pub uninterp spec fn spell_request_decoded(data: Seq<u8>) -> Option<SpellRequestPacket>;

/// `SpellRequestClientPacket::deserialize` on a reader over `data`; the fields are copied.
#[verifier::external_body]
pub(crate) fn decode_spell_request(data: &[u8]) -> (r: Option<SpellRequestPacket>)
    ensures
        r == spell_request_decoded(data@),
{
    match net::client::SpellRequestClientPacket::deserialize(&EoReader::new(Bytes::copy_from_slice(data))) {
        Ok(p) => Some(SpellRequestPacket {
            spell_id: p.spell_id,
            timestamp: p.timestamp,
        }),
        Err(_) => None,
    }
}

/// What `SpellTargetSelfClientPacket::deserialize` reads from `data`, or `None` when it fails.
pub uninterp spec fn spell_target_self_decoded(data: Seq<u8>) -> Option<SpellTargetSelfPacket>;

/// `SpellTargetSelfClientPacket::deserialize` on a reader over `data`; the fields are copied.
#[verifier::external_body]
pub(crate) fn decode_spell_target_self(data: &[u8]) -> (r: Option<SpellTargetSelfPacket>)
    ensures
        r == spell_target_self_decoded(data@),
{
    match net::client::SpellTargetSelfClientPacket::deserialize(&EoReader::new(Bytes::copy_from_slice(data))) {
        Ok(p) => Some(SpellTargetSelfPacket {
            spell_id: p.spell_id,
            timestamp: p.timestamp,
        }),
        Err(_) => None,
    }
}

/// What `SpellTargetOtherClientPacket::deserialize` reads from `data`, or `None` when it fails.
pub uninterp spec fn spell_target_other_decoded(data: Seq<u8>) -> Option<SpellTargetOtherPacket>;

/// `SpellTargetOtherClientPacket::deserialize` on a reader over `data`; the fields are copied.
#[verifier::external_body]
pub(crate) fn decode_spell_target_other(data: &[u8]) -> (r: Option<SpellTargetOtherPacket>)
    ensures
        r == spell_target_other_decoded(data@),
{
    match net::client::SpellTargetOtherClientPacket::deserialize(&EoReader::new(Bytes::copy_from_slice(data))) {
        Ok(p) => Some(SpellTargetOtherPacket {
            target_type: match p.target_type { net::client::SpellTargetType::Player => SpellTargetType::Player, net::client::SpellTargetType::Npc => SpellTargetType::Npc, net::client::SpellTargetType::Unrecognized(v) => SpellTargetType::Unrecognized(v) },
            spell_id: p.spell_id,
            victim_id: p.victim_id,
            timestamp: p.timestamp,
        }),
        Err(_) => None,
    }
}

/// What `SpellTargetGroupClientPacket::deserialize` reads from `data`, or `None` when it fails.
pub uninterp spec fn spell_target_group_decoded(data: Seq<u8>) -> Option<SpellTargetGroupPacket>;

/// `SpellTargetGroupClientPacket::deserialize` on a reader over `data`; the fields are copied.
#[verifier::external_body]
pub(crate) fn decode_spell_target_group(data: &[u8]) -> (r: Option<SpellTargetGroupPacket>)
    ensures
        r == spell_target_group_decoded(data@),
{
    match net::client::SpellTargetGroupClientPacket::deserialize(&EoReader::new(Bytes::copy_from_slice(data))) {
        Ok(p) => Some(SpellTargetGroupPacket {
            spell_id: p.spell_id,
            timestamp: p.timestamp,
        }),
        Err(_) => None,
    }
}

/// What `TradeRequestClientPacket::deserialize` reads from `data`, or `None` when it fails.
pub uninterp spec fn trade_request_decoded(data: Seq<u8>) -> Option<TradeRequestPacket>;

/// `TradeRequestClientPacket::deserialize` on a reader over `data`; the fields are copied.
#[verifier::external_body]
pub(crate) fn decode_trade_request(data: &[u8]) -> (r: Option<TradeRequestPacket>)
    ensures
        r == trade_request_decoded(data@),
{
    match net::client::TradeRequestClientPacket::deserialize(&EoReader::new(Bytes::copy_from_slice(data))) {
        Ok(p) => Some(TradeRequestPacket {
            player_id: p.player_id,
        }),
        Err(_) => None,
    }
}

/// What `TradeAcceptClientPacket::deserialize` reads from `data`, or `None` when it fails.
pub uninterp spec fn trade_accept_decoded(data: Seq<u8>) -> Option<TradeAcceptPacket>;

/// `TradeAcceptClientPacket::deserialize` on a reader over `data`; the fields are copied.
#[verifier::external_body]
pub(crate) fn decode_trade_accept(data: &[u8]) -> (r: Option<TradeAcceptPacket>)
    ensures
        r == trade_accept_decoded(data@),
{
    match net::client::TradeAcceptClientPacket::deserialize(&EoReader::new(Bytes::copy_from_slice(data))) {
        Ok(p) => Some(TradeAcceptPacket {
            player_id: p.player_id,
        }),
        Err(_) => None,
    }
}

/// What `TradeRemoveClientPacket::deserialize` reads from `data`, or `None` when it fails.
pub uninterp spec fn trade_remove_decoded(data: Seq<u8>) -> Option<TradeRemovePacket>;

/// `TradeRemoveClientPacket::deserialize` on a reader over `data`; the fields are copied.
#[verifier::external_body]
pub(crate) fn decode_trade_remove(data: &[u8]) -> (r: Option<TradeRemovePacket>)
    ensures
        r == trade_remove_decoded(data@),
{
    match net::client::TradeRemoveClientPacket::deserialize(&EoReader::new(Bytes::copy_from_slice(data))) {
        Ok(p) => Some(TradeRemovePacket {
            item_id: p.item_id,
        }),
        Err(_) => None,
    }
}

/// What `TradeAgreeClientPacket::deserialize` reads from `data`, or `None` when it fails.
pub uninterp spec fn trade_agree_decoded(data: Seq<u8>) -> Option<TradeAgreePacket>;

/// `TradeAgreeClientPacket::deserialize` on a reader over `data`; the fields are copied.
#[verifier::external_body]
pub(crate) fn decode_trade_agree(data: &[u8]) -> (r: Option<TradeAgreePacket>)
    ensures
        r == trade_agree_decoded(data@),
{
    match net::client::TradeAgreeClientPacket::deserialize(&EoReader::new(Bytes::copy_from_slice(data))) {
        Ok(p) => Some(TradeAgreePacket {
            agree: p.agree,
        }),
        Err(_) => None,
    }
}

/// What `TradeAddClientPacket::deserialize` reads from `data`, or `None` when it fails.
pub uninterp spec fn trade_add_decoded(data: Seq<u8>) -> Option<TradeAddPacket>;

/// `TradeAddClientPacket::deserialize` on a reader over `data`; the fields are copied.
#[verifier::external_body]
pub(crate) fn decode_trade_add(data: &[u8]) -> (r: Option<TradeAddPacket>)
    ensures
        r == trade_add_decoded(data@),
{
    match net::client::TradeAddClientPacket::deserialize(&EoReader::new(Bytes::copy_from_slice(data))) {
        Ok(p) => Some(TradeAddPacket {
            item_id: p.add_item.id,
            amount: p.add_item.amount,
        }),
        Err(_) => None,
    }
}

/// What `QuestUseClientPacket::deserialize` reads from `data`, or `None` when it fails.
pub uninterp spec fn quest_use_decoded(data: Seq<u8>) -> Option<QuestUsePacket>;

/// `QuestUseClientPacket::deserialize` on a reader over `data`; the fields are copied.
#[verifier::external_body]
pub(crate) fn decode_quest_use(data: &[u8]) -> (r: Option<QuestUsePacket>)
    ensures
        r == quest_use_decoded(data@),
{
    match net::client::QuestUseClientPacket::deserialize(&EoReader::new(Bytes::copy_from_slice(data))) {
        Ok(p) => Some(QuestUsePacket {
            npc_index: p.npc_index,
            quest_id: p.quest_id,
        }),
        Err(_) => None,
    }
}

/// What `QuestListClientPacket::deserialize` reads from `data`, or `None` when it fails.
pub uninterp spec fn quest_list_decoded(data: Seq<u8>) -> Option<QuestListPacket>;

/// `QuestListClientPacket::deserialize` on a reader over `data`; the fields are copied.
#[verifier::external_body]
pub(crate) fn decode_quest_list(data: &[u8]) -> (r: Option<QuestListPacket>)
    ensures
        r == quest_list_decoded(data@),
{
    match net::client::QuestListClientPacket::deserialize(&EoReader::new(Bytes::copy_from_slice(data))) {
        Ok(p) => Some(QuestListPacket {
            page: match p.page { net::QuestPage::Progress => QuestPage::Progress, net::QuestPage::History => QuestPage::History, net::QuestPage::Unrecognized(v) => QuestPage::Unrecognized(v) },
        }),
        Err(_) => None,
    }
}

/// What `MarriageOpenClientPacket::deserialize` reads from `data`, or `None` when it fails.
pub uninterp spec fn marriage_open_decoded(data: Seq<u8>) -> Option<MarriageOpenPacket>;

/// `MarriageOpenClientPacket::deserialize` on a reader over `data`; the fields are copied.
#[verifier::external_body]
pub(crate) fn decode_marriage_open(data: &[u8]) -> (r: Option<MarriageOpenPacket>)
    ensures
        r == marriage_open_decoded(data@),
{
    match net::client::MarriageOpenClientPacket::deserialize(&EoReader::new(Bytes::copy_from_slice(data))) {
        Ok(p) => Some(MarriageOpenPacket {
            npc_index: p.npc_index,
        }),
        Err(_) => None,
    }
}

/// What `MarriageRequestClientPacket::deserialize` reads from `data`, or `None` when it fails.
pub uninterp spec fn marriage_request_decoded(data: Seq<u8>) -> Option<MarriageRequestPacket>;

/// `MarriageRequestClientPacket::deserialize` on a reader over `data`; the fields are copied.
#[verifier::external_body]
pub(crate) fn decode_marriage_request(data: &[u8]) -> (r: Option<MarriageRequestPacket>)
    ensures
        r == marriage_request_decoded(data@),
{
    match net::client::MarriageRequestClientPacket::deserialize(&EoReader::new(Bytes::copy_from_slice(data))) {
        Ok(p) => Some(MarriageRequestPacket {
            request_type: match p.request_type { net::client::MarriageRequestType::MarriageApproval => MarriageRequestType::MarriageApproval, net::client::MarriageRequestType::Divorce => MarriageRequestType::Divorce, net::client::MarriageRequestType::Unrecognized(v) => MarriageRequestType::Unrecognized(v) },
            session_id: p.session_id,
            name: p.name,
        }),
        Err(_) => None,
    }
}

/// What `PriestAcceptClientPacket::deserialize` reads from `data`, or `None` when it fails.
pub uninterp spec fn priest_accept_decoded(data: Seq<u8>) -> Option<PriestAcceptPacket>;

/// `PriestAcceptClientPacket::deserialize` on a reader over `data`; the fields are copied.
#[verifier::external_body]
pub(crate) fn decode_priest_accept(data: &[u8]) -> (r: Option<PriestAcceptPacket>)
    ensures
        r == priest_accept_decoded(data@),
{
    match net::client::PriestAcceptClientPacket::deserialize(&EoReader::new(Bytes::copy_from_slice(data))) {
        Ok(p) => Some(PriestAcceptPacket {
            session_id: p.session_id,
        }),
        Err(_) => None,
    }
}

/// What `PriestOpenClientPacket::deserialize` reads from `data`, or `None` when it fails.
pub uninterp spec fn priest_open_decoded(data: Seq<u8>) -> Option<PriestOpenPacket>;

/// `PriestOpenClientPacket::deserialize` on a reader over `data`; the fields are copied.
#[verifier::external_body]
pub(crate) fn decode_priest_open(data: &[u8]) -> (r: Option<PriestOpenPacket>)
    ensures
        r == priest_open_decoded(data@),
{
    match net::client::PriestOpenClientPacket::deserialize(&EoReader::new(Bytes::copy_from_slice(data))) {
        Ok(p) => Some(PriestOpenPacket {
            npc_index: p.npc_index,
        }),
        Err(_) => None,
    }
}

/// What `PriestRequestClientPacket::deserialize` reads from `data`, or `None` when it fails.
pub uninterp spec fn priest_request_decoded(data: Seq<u8>) -> Option<PriestRequestPacket>;

/// `PriestRequestClientPacket::deserialize` on a reader over `data`; the fields are copied.
#[verifier::external_body]
pub(crate) fn decode_priest_request(data: &[u8]) -> (r: Option<PriestRequestPacket>)
    ensures
        r == priest_request_decoded(data@),
{
    match net::client::PriestRequestClientPacket::deserialize(&EoReader::new(Bytes::copy_from_slice(data))) {
        Ok(p) => Some(PriestRequestPacket {
            session_id: p.session_id,
            name: p.name,
        }),
        Err(_) => None,
    }
}

/// What `PriestUseClientPacket::deserialize` reads from `data`, or `None` when it fails.
pub uninterp spec fn priest_use_decoded(data: Seq<u8>) -> Option<PriestUsePacket>;

/// `PriestUseClientPacket::deserialize` on a reader over `data`; the fields are copied.
#[verifier::external_body]
pub(crate) fn decode_priest_use(data: &[u8]) -> (r: Option<PriestUsePacket>)
    ensures
        r == priest_use_decoded(data@),
{
    match net::client::PriestUseClientPacket::deserialize(&EoReader::new(Bytes::copy_from_slice(data))) {
        Ok(p) => Some(PriestUsePacket {
            session_id: p.session_id,
        }),
        Err(_) => None,
    }
}

/// What `ChairRequestClientPacket::deserialize` reads from `data`.
pub uninterp spec fn chair_request_decoded(data: Seq<u8>) -> Option<ChairRequestPacket>;

/// `ChairRequestClientPacket::deserialize` on a reader over `data`; the sit
/// coordinates are those of the `Sit` case.
#[verifier::external_body]
pub(crate) fn decode_chair_request(data: &[u8]) -> (r: Option<ChairRequestPacket>)
    ensures
        r == chair_request_decoded(data@),
{
    match net::client::ChairRequestClientPacket::deserialize(&EoReader::new(Bytes::copy_from_slice(data))) {
        Ok(p) => Some(ChairRequestPacket {
            sit_action: match p.sit_action { net::client::SitAction::Sit => SitAction::Sit, net::client::SitAction::Stand => SitAction::Stand, net::client::SitAction::Unrecognized(v) => SitAction::Unrecognized(v) },
            coords: match p.sit_action_data {
                Some(net::client::ChairRequestClientPacketSitActionData::Sit(s)) => Some(Coords { x: s.coords.x, y: s.coords.y }),
                None => None,
            },
        }),
        Err(_) => None,
    }
}

/// What `StatSkillAddClientPacket::deserialize` reads from `data`.
pub uninterp spec fn stat_skill_add_decoded(data: Seq<u8>) -> Option<StatSkillAddPacket>;

/// `StatSkillAddClientPacket::deserialize` on a reader over `data`.
#[verifier::external_body]
pub(crate) fn decode_stat_skill_add(data: &[u8]) -> (r: Option<StatSkillAddPacket>)
    ensures
        r == stat_skill_add_decoded(data@),
{
    match net::client::StatSkillAddClientPacket::deserialize(&EoReader::new(Bytes::copy_from_slice(data))) {
        Ok(p) => Some(StatSkillAddPacket { train: match p.action_type_data {
            Some(net::client::StatSkillAddClientPacketActionTypeData::Stat(s)) => Train::Stat(i32::from(s.stat_id)),
            Some(net::client::StatSkillAddClientPacketActionTypeData::Skill(s)) => Train::Skill(s.spell_id),
            None => Train::Neither,
        } }),
        Err(_) => None,
    }
}

/// What `WelcomeAgreeClientPacket::deserialize` reads from `data`.
pub uninterp spec fn welcome_agree_decoded(data: Seq<u8>) -> Option<WelcomeAgreePacket>;

/// `WelcomeAgreeClientPacket::deserialize` on a reader over `data`; the map
/// case carries no id, the pub file cases their file id.
#[verifier::external_body]
pub(crate) fn decode_welcome_agree(data: &[u8]) -> (r: Option<WelcomeAgreePacket>)
    ensures
        r == welcome_agree_decoded(data@),
{
    match net::client::WelcomeAgreeClientPacket::deserialize(&EoReader::new(Bytes::copy_from_slice(data))) {
        Ok(p) => Some(WelcomeAgreePacket { file_type: i32::from(p.file_type), session_id: p.session_id, file: match p.file_type_data {
            Some(net::client::WelcomeAgreeClientPacketFileTypeData::Emf(_)) => Some(FileRequest::MapFile),
            Some(net::client::WelcomeAgreeClientPacketFileTypeData::Eif(f)) => Some(FileRequest::Pub(f.file_id)),
            Some(net::client::WelcomeAgreeClientPacketFileTypeData::Enf(f)) => Some(FileRequest::Pub(f.file_id)),
            Some(net::client::WelcomeAgreeClientPacketFileTypeData::Esf(f)) => Some(FileRequest::Pub(f.file_id)),
            Some(net::client::WelcomeAgreeClientPacketFileTypeData::Ecf(f)) => Some(FileRequest::Pub(f.file_id)),
            None => None,
        } }),
        Err(_) => None,
    }
}

/// What `GuildAgreeClientPacket::deserialize` reads from `data`.
pub uninterp spec fn guild_agree_decoded(data: Seq<u8>) -> Option<GuildAgreePacket>;

/// `GuildAgreeClientPacket::deserialize` on a reader over `data`.
#[verifier::external_body]
pub(crate) fn decode_guild_agree(data: &[u8]) -> (r: Option<GuildAgreePacket>)
    ensures
        r == guild_agree_decoded(data@),
{
    match net::client::GuildAgreeClientPacket::deserialize(&EoReader::new(Bytes::copy_from_slice(data))) {
        Ok(p) => Some(GuildAgreePacket { session_id: p.session_id, info: match p.info_type_data {
            Some(net::client::GuildAgreeClientPacketInfoTypeData::Description(d)) => Some(GuildAgreeInfo::Description(d.description)),
            Some(net::client::GuildAgreeClientPacketInfoTypeData::Ranks(d)) => Some(GuildAgreeInfo::Ranks(d.ranks.to_vec())),
            None => None,
        } }),
        Err(_) => None,
    }
}

/// What `QuestAcceptClientPacket::deserialize` reads from `data`.
pub uninterp spec fn quest_accept_decoded(data: Seq<u8>) -> Option<QuestAcceptPacket>;

/// `QuestAcceptClientPacket::deserialize` on a reader over `data`; the link's
/// action when the reply is a link.
#[verifier::external_body]
pub(crate) fn decode_quest_accept(data: &[u8]) -> (r: Option<QuestAcceptPacket>)
    ensures
        r == quest_accept_decoded(data@),
{
    match net::client::QuestAcceptClientPacket::deserialize(&EoReader::new(Bytes::copy_from_slice(data))) {
        Ok(p) => Some(QuestAcceptPacket { session_id: p.session_id, quest_id: p.quest_id, action_id: match p.reply_type_data {
            Some(net::client::QuestAcceptClientPacketReplyTypeData::Link(d)) => Some(d.action),
            _ => None,
        } }),
        Err(_) => None,
    }
}

/// What `LoginRequestClientPacket::deserialize` reads from `data`, with the
/// reader's `remaining` and `get_char` after it.
pub uninterp spec fn login_request_decoded(data: Seq<u8>) -> Option<LoginRequestPacket>;

/// `LoginRequestClientPacket::deserialize` on a reader over `data`, then the
/// reader's `remaining()` and `get_char()`.
#[verifier::external_body]
pub(crate) fn decode_login_request(data: &[u8]) -> (r: Option<LoginRequestPacket>)
    ensures
        r == login_request_decoded(data@),
{
    let reader = EoReader::new(Bytes::copy_from_slice(data));
    match net::client::LoginRequestClientPacket::deserialize(&reader) {
        Ok(p) => Some(LoginRequestPacket { username: p.username, password: p.password, remaining: reader.remaining(), next_char: reader.get_char() }),
        Err(_) => None,
    }
}

/// What `AccountCreateClientPacket::deserialize` reads from `data`, with the
/// string the reader reads next in chunked mode.
pub uninterp spec fn account_create_decoded(data: Seq<u8>) -> Option<AccountCreatePacket>;

/// `AccountCreateClientPacket::deserialize` on a reader over `data`, then
/// `set_chunked_reading_mode(true)` and `get_string()` on the reader.
#[verifier::external_body]
pub(crate) fn decode_account_create(data: &[u8]) -> (r: Option<AccountCreatePacket>)
    ensures
        r == account_create_decoded(data@),
{
    let reader = EoReader::new(Bytes::copy_from_slice(data));
    match net::client::AccountCreateClientPacket::deserialize(&reader) {
        Ok(p) => {
            reader.set_chunked_reading_mode(true);
            Some(AccountCreatePacket { session_id: p.session_id, username: p.username, password: p.password, full_name: p.full_name, location: p.location, email: p.email, computer: p.computer, hdid: p.hdid, pin: reader.get_string() })
        },
        Err(_) => None,
    }
}

/// What `EoReader::get_string` reads from the start of `data`.
pub uninterp spec fn string_read(data: Seq<u8>) -> Seq<char>;

/// `EoReader::get_string` on a reader over `data`.
#[verifier::external_body]
pub(crate) fn read_string(data: &[u8]) -> (r: String)
    ensures
        r@ == string_read(data@),
{
    EoReader::new(Bytes::copy_from_slice(data)).get_string()
}

} // verus!
