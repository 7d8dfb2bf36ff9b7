use vstd::prelude::*;

use crate::drops::DropLine;
use crate::guild::{GuildDetails, GuildMember};
use crate::player_commands::ArgError;

verus! {

/// A tile position on a map.
#[derive(Debug, Copy, Clone, PartialEq, Eq, Structural)]
pub struct Coords {
    pub x: i32,
    pub y: i32,
}

/// What a party request asks of the player it is sent to.
#[derive(Debug, Copy, Clone, PartialEq, Eq, Structural)]
pub enum PartyRequest {
    /// No request is pending.
    NoRequest,
    /// The given player wants to join this player's party.
    Join(i32),
    /// The given player invites this player into their party.
    Invite(i32),
}

/// The target of a spell that is being cast.
#[derive(Debug, Copy, Clone, PartialEq, Eq, Structural)]
pub enum SpellTarget {
    /// The caster itself.
    Player,
    /// Another player, by player id.
    OtherPlayer(i32),
    /// An npc, by its index on the map.
    Npc(i32),
    /// The caster's party.
    Group,
}

/// The visual effect that accompanies a warp.
#[derive(Debug, Copy, Clone, PartialEq, Eq, Structural)]
pub enum WarpEffect {
    NoEffect,
    Scroll,
    Admin,
}

/// A request that the acting player sends to the map it stands on.
///
/// Unless a variant says otherwise, the acting player is the subject of the
/// request (its player id is the first argument of the map call).
#[derive(Debug, Clone, PartialEq, Eq)]
pub enum MapRequest {
    OpenBank { npc_index: i32, session_id: i32 },
    DepositGold { npc_index: i32, amount: i32 },
    WithdrawGold { npc_index: i32, amount: i32 },
    OpenBarber { npc_index: i32, session_id: i32 },
    BuyHaircut { npc_index: i32, hair_style: i32, hair_color: i32 },
    CreateBoardPost { board_id: i32, subject: String, body: String },
    OpenBoard { board_id: i32 },
    RemoveBoardPost { board_id: i32, post_id: i32 },
    ViewBoardPost { board_id: i32, post_id: i32 },
    RequestBook { player_id: i32 },
    OpenCaptcha,
    CloseCaptcha { reward: i32 },
    SitChair { coords: Coords },
    Sit,
    Stand,
    AddChestItem { item_id: i32, amount: i32 },
    OpenChest { coords: Coords },
    TakeChestItem { item_id: i32 },
    OpenInn { npc_index: i32, session_id: i32 },
    RequestCitizenship { npc_index: i32, answers: Vec<String> },
    RemoveCitizenship { npc_index: i32 },
    RequestSleep { npc_index: i32 },
    Sleep { npc_index: i32, cost: i32 },
    OpenDoor { coords: Coords },
    Emote { emote: i32 },
    Face { direction: i32 },
    OpenGuildMaster { npc_index: i32 },
    AcceptGuildCreationRequest { inviter_player_id: i32 },
    RequestToJoinGuild { guild_tag: String, recruiter_name: String },
    DepositGuildGold { npc_index: i32, amount: i32 },
    SendGuildCreateRequests { description: String },
    FinishGuildCreation { members: Vec<i32>, guild_tag: String, guild_name: String },
    /// The new member is `player_id`; the acting player is the recruiter.
    JoinGuild { player_id: i32, guild_tag: String, guild_name: String, rank_string: String },
    /// Sent to the map of the kicked member, who is `player_id`.
    KickFromGuild { player_id: i32 },
    /// Sent to the map of the ranked member, who is `player_id`.
    UpdateGuildRank { player_id: i32, rank: i32, rank_string: String },
    LeaveGuild,
    DropItem { item_id: i32, amount: i32, x: u8, y: u8 },
    GetItem { item_index: i32 },
    JunkItem { item_id: i32, amount: i32 },
    UseItem { item_id: i32 },
    UseTitleItem { item_id: i32, title: String },
    OpenJukebox,
    PlayJukeboxTrack { track_id: i32 },
    PlayInstrument { instrument_id: i32, note_id: i32 },
    AddLockerItem { item_id: i32, amount: i32 },
    UpgradeLocker { npc_index: i32 },
    OpenLocker,
    TakeLockerItem { item_id: i32 },
    OpenLaw { npc_index: i32, session_id: i32 },
    RequestMarriageApproval { npc_index: i32, name: String },
    RequestDivorce { npc_index: i32, name: String },
    RequestNpcs { npc_indexes: Vec<i32> },
    Equip { item_id: i32, sub_loc: i32 },
    Unequip { item_id: i32, sub_loc: i32 },
    RequestPaperdoll { player_id: i32 },
    /// Delivers `request` to the player `target_player_id`.
    PartyRequest { target_player_id: i32, request: PartyRequest },
    RequestPlayers { player_ids: Vec<i32> },
    FindPlayer { name: String },
    OpenPriest { npc_index: i32, session_id: i32 },
    RequestWedding { npc_index: i32, name: String },
    AcceptWeddingRequest,
    SayIDo,
    TalkToQuestNpc { npc_index: i32, quest_id: i32, session_id: i32 },
    ReplyToQuestNpc { npc_index: i32, quest_id: i32, session_id: i32, action_id: Option<i32> },
    ViewQuestProgress,
    ViewQuestHistory,
    RequestPlayersAndNpcs { player_ids: Vec<i32>, npc_indexes: Vec<i32> },
    RequestRefresh,
    BuyItem { npc_index: i32, item_id: i32, amount: i32 },
    CraftItem { npc_index: i32, item_id: i32 },
    OpenShop { npc_index: i32, session_id: i32 },
    SellItem { npc_index: i32, item_id: i32, amount: i32 },
    StartSpellChant { spell_id: i32 },
    CastSpell { spell_id: i32, target: SpellTarget },
    LevelStat { stat_id: i32 },
    LevelSkill { spell_id: i32 },
    ResetCharacter { npc_index: i32 },
    OpenSkillMaster { npc_index: i32, session_id: i32 },
    ForgetSkill { npc_index: i32, spell_id: i32 },
    LearnSkill { npc_index: i32, spell_id: i32 },
    RequestTrade { player_id: i32 },
    AcceptTradeRequest { player_id: i32 },
    CancelTrade { player_id: i32 },
    AddTradeItem { item_id: i32, amount: i32 },
    RemoveTradeItem { item_id: i32 },
    AgreeTrade,
    DisagreeTrade,
    Walk { direction: i32, coords: Coords },
    Attack { direction: i32 },
    GiveItem { item_id: i32, amount: i32 },
    LoseItem { item_id: i32, amount: i32 },
    SetClass { class_id: i32 },
    AwardExperience { amount: i32 },
    GiveKarma { amount: i32 },
    RemoveKarma { amount: i32 },
    Quake { magnitude: i32 },
    EffectOnPlayer { effect_id: i32 },
    EffectOnCoord { coords: Coords, effect_id: i32 },
    ListAutoPickupItems,
    ClearAutoPickupItems,
    AddAutoPickupItem { item_id: i32 },
    RemoveAutoPickupItem { item_id: i32 },
    SpawnNpc { npc_id: i32, amount: i32, speed: i32 },
    ToggleHidden,
    StartEvacuate,
    SendChatMessage { message: String },
    /// Takes the acting player's character off the map, with the warp's
    /// animation; a trade with `interact_player_id` ends.
    LeaveMap { animation: Option<WarpEffect>, interact_player_id: Option<i32> },
}

/// A request that the acting player sends to the world.
#[derive(Debug, Clone, PartialEq, Eq)]
pub enum WorldRequest {
    ReportPlayer { reportee: String, message: String },
    SendAdminMessage { message: String },
    AcceptPartyRequest { inviter_player_id: i32, request_type: i32 },
    RemovePartyMember { player_id: i32 },
    RequestPartyList,
    RequestPlayerNameList,
    RequestPlayerList,
    SendPrivateMessage { name: String, message: String },
    BroadcastPartyMessage { message: String },
    BroadcastAdminMessage { name: String, message: String },
    BroadcastAnnouncement { name: String, message: String },
    BroadcastGlobalMessage { name: String, message: String },
    BroadcastGuildMessage { guild_tag: String, name: String, message: String },
    DisbandGuild { guild_tag: String },
    Quake { magnitude: i32 },
    JailPlayer { target: String, admin: String },
    FreePlayer { target: String },
    KickPlayer { target: String, admin: String, silent: bool },
    /// `duration` is the second argument typed, when there is one.
    BanPlayer { target: String, duration: Option<String>, admin: String, silent: bool },
    MutePlayer { target: String, admin: String },
    RequestPlayerInfo { target: String },
    RequestPlayerInventory { target: String },
    FreezePlayer { target: String, admin: String },
    UnfreezePlayer { target: String, admin: String },
    ToggleGlobal { admin: String },
    ReloadMap { map_id: i32 },
    ShowCaptcha { target: String, experience: i32 },
    AddPendingLogin { account_id: i32 },
    RemovePendingLogin { account_id: i32 },
    AddLoggedInAccount { account_id: i32 },
    /// Warps `target` to the given place.
    WarpPlayer { target: String, map_id: i32, coords: Coords },
}

/// A warp of the acting player that the server asks the client to accept.
#[derive(Debug, Clone, Copy, PartialEq, Eq, Structural)]
pub struct WarpRequest {
    pub map_id: i32,
    pub coords: Coords,
    pub local: bool,
    pub animation: Option<WarpEffect>,
}

/// A server message shown to the acting player; its text is
/// [`crate::notices::notice_text`].
#[derive(Debug, Clone, PartialEq, Eq)]
pub enum Notice {
    /// The typed arguments of a command were refused.
    BadArgs(ArgError),
    /// No item has the given name.
    NoItemNamed(String),
    /// No npc has the given name.
    NoNpcNamed(String),
    /// The autopickup sub command is not one of list, add, remove.
    InvalidAutopickupArgument,
    /// No admin command has the given name or alias.
    UnknownCommand(String),
    /// The admin command is configured but does nothing here.
    Unimplemented(String),
    /// The map does not exist.
    NoSuchMap(i32),
    /// Kicking members who are offline is not supported.
    OfflineKickUnsupported,
    /// Ranking members who are offline is not supported.
    OfflineRankUnsupported,
    /// The last leader of a guild cannot leave it.
    LastGuildLeader,
}

/// How the server announces a warp to the client.
#[derive(Debug, Clone, Copy, PartialEq, Eq, Structural)]
pub enum WarpAnnouncement {
    /// A warp within the current map.
    Local { map_id: i32, session_id: i32 },
    /// A warp to another map: the caller looks the map up and, when it exists,
    /// announces it with the map's revision id and file size; when it does
    /// not, nothing is announced.
    MapSwitch { map_id: i32, session_id: i32 },
}

/// How the client is told that a warp is done.
#[derive(Debug, Clone, Copy, PartialEq, Eq, Structural)]
pub enum WarpAgree {
    /// The player stays on its map.
    Local,
    /// The player is now on map `map_id`, shown with `effect`.
    MapSwitch { map_id: i32, effect: WarpEffect },
}

/// The answer to a login.
#[derive(Debug, Clone, PartialEq, Eq)]
pub enum LoginReply {
    Busy,
    WrongUser,
    Banned,
    WrongUserPassword,
    LoggedIn,
    /// Logged in: the account's character list follows, then the session
    /// token to remember the login by, when one was made.
    Accepted { token: Option<String> },
}

/// The answer to an account request.
#[derive(Debug, Clone, PartialEq, Eq)]
pub enum AccountReply {
    Exists,
    Created,
    ChangeFailed,
    Changed,
    WrongPin,
    /// The name is free: the session id to create the account in, and the
    /// sequence start.
    Continue { session_id: i32, sequence_start: i32 },
}

/// The answer to a character request.
#[derive(Debug, Clone, PartialEq, Eq)]
pub enum CharacterReply {
    Exists,
    Full,
    NotApproved,
    /// Created: the account's character list follows.
    Created,
    /// Deleted: the account's character list follows.
    Deleted,
    /// The request may go on: the session id to continue in.
    Continue { session_id: i32 },
    /// The character may be played: the session id to enter the game in.
    Selected { session_id: i32, character_id: i32 },
}

/// A reply code of the guild master.
#[derive(Debug, Clone, Copy, PartialEq, Eq, Structural)]
pub enum GuildReply {
    NotApproved,
    NoCandidates,
    Exists,
    CreateBegin,
    CreateAddConfirm,
    AccountLow,
    RemoveNotMember,
    RemoveLeader,
    Removed,
    RankingNotMember,
    RankingLeader,
    Updated,
    RanksUpdated,
    NotFound,
}

/// A packet sent to the acting player's client.
#[derive(Debug, Clone, PartialEq, Eq)]
pub enum Reply {
    /// Plays a sound or a song.
    MusicPlayer { sound_id: i32 },
    /// Shows a hint message box.
    MessageOpen { message: String },
    /// A server message in the chat.
    TalkServer { message: String },
    /// Answers a client ping.
    MessagePong,
    /// Pings the client with the next sequence bytes.
    ConnectionPlayer { seq1: i32, seq2: i32 },
    /// Opens the captcha dialog.
    CaptchaOpen { reward_exp: i32, captcha: String },
    /// Shows a new captcha challenge.
    CaptchaAgree { captcha: String },
    /// The contents of the open chest, as already encoded bytes.
    ChestAgree { data: Vec<u8> },
    /// A guild master reply code.
    Guild(GuildReply),
    /// The description of the player's guild.
    GuildTake { description: String },
    /// The rank names of the player's guild.
    GuildRank { ranks: Vec<String> },
    /// The gold in the player's guild bank.
    GuildSell { gold_amount: i32 },
    /// Keeps the client in its guild after it tried to leave as last leader.
    GuildAgree { recruiter_id: i32, guild_tag: String, guild_name: String, rank_name: String },
    /// Tells the client its guild rank.
    GuildAccept { rank: i32 },
    /// The members of a guild.
    GuildTell { members: Vec<GuildMember> },
    /// The details of a guild.
    GuildReport(GuildDetails),
    /// Answers a login.
    Login(LoginReply),
    /// The limits of new characters, for clients that speak the deep
    /// protocol.
    LoginConfig { max_skins: i32, max_hair_modals: i32, max_character_name: i32 },
    /// Answers an account request.
    Account(AccountReply),
    /// The account settings, for clients that speak the deep protocol.
    AccountConfig { delay_time: i32, email_validation: bool },
    /// Answers a character request.
    Character(CharacterReply),
    /// Whether account recovery is on.
    RecoverTake { accepted: bool },
    /// Answers a recovery request: `found` is false for an unknown account;
    /// `email` is the address shown, and `masked` whether to mask it.
    RecoverCreate { found: bool, email: Option<String>, masked: bool },
    /// Whether the recovery pin was right.
    RecoverPin { ok: bool },
    /// Whether the new password was stored.
    RecoverUpdate { ok: bool },
    /// The mail to validate an address was sent.
    AccountValidated,
    /// The lines of the drop dialog.
    AdminInteractAdd { lines: Vec<DropLine> },
}

/// Why the server closes the connection.
#[derive(Debug, Clone, PartialEq, Eq)]
pub enum CloseReason {
    /// The connection accept packet did not decode.
    UndecodableConnectionAccept,
    /// The client sent another player id than the one it was given.
    WrongConnectionId { got: i32, expected: i32 },
    /// The client sent other encoding multiples than the ones it was given.
    WrongEncodingMultiples {
        got_server: i32,
        got_client: i32,
        expected_server: i32,
        expected_client: i32,
    },
    /// The client did not answer a ping.
    PingTimeout,
    /// The client did not start the handshake in time; carries the delay.
    HandshakeTimeout(i32),
    /// The client tried to log in before its connection was accepted.
    LoggingInBeforeAccepted,
    /// The server is full.
    ServerBusy,
    /// Too many failed logins.
    TooManyLoginAttempts,
    /// The account is banned.
    AccountBanned,
    /// The client sent another session id than the pending one.
    WrongSessionId { expected: i32, got: i32 },
    /// The client sent a session id when none was pending.
    MissingSessionId,
    /// The client asked for a character of another account.
    ForeignCharacter { account_id: i32, character_name: String, owner_account_id: i32 },
    /// A query or a write the handler needed failed; carries its error text.
    Failed(String),
}

/// Something the acting player's session does as the outcome of a decision.
#[derive(Debug, Clone, PartialEq, Eq)]
pub enum Effect {
    /// A request to the map the player stands on.
    ToMap(MapRequest),
    /// A request to the map with the given id, on behalf of the acting player.
    ToMapOf { map_id: i32, request: MapRequest },
    /// A request to the world.
    ToWorld(WorldRequest),
    /// A server message to the player.
    Notice(Notice),
    /// A warp of the player, which the server asks the client to accept.
    Warp(WarpRequest),
    /// A packet to the player's client.
    Reply(Reply),
    /// The announcement of a warp the player has been asked to accept.
    Announce(WarpAnnouncement),
    /// Closes the connection.
    Close(CloseReason),
    /// Sends the client a file it asked for.
    GetFile { file_type: i32, session_id: i32, file_id: Option<i32>, warp: bool },
    /// Puts the acting player's character, standing at `coords` on map
    /// `character_map_id`, onto map `map_id` with `animation`, and tells the
    /// client with `agree` and what is nearby.
    Arrive { map_id: i32, character_map_id: i32, coords: Coords, animation: Option<WarpEffect>, agree: WarpAgree },
    /// Sends the client the file of the map it is being warped to.
    GetWarpMapFile { session_id: i32 },
    /// Enters the game with the selected character.
    EnterGame { session_id: i32 },
    /// Selects a character to play.
    SelectCharacter { character_id: i32 },
}

} // verus!
