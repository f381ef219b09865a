//! The decoded records that the analyser is fed: messages, game events, chat
//! and entries of the player directory.

use crate::state::ServerInfo;
use crate::types::{ChatMessageKind, HudTextLocation};
use vstd::prelude::*;

verus! {

/// Category of a decoded message.
#[derive(Clone, Copy, Debug, PartialEq, Eq, Structural)]
pub enum MessageType {
    Empty,
    File,
    NetTick,
    StringCmd,
    SetConVar,
    SignOnState,
    Print,
    ServerInfo,
    ClassInfo,
    SetPause,
    CreateStringTable,
    UpdateStringTable,
    VoiceInit,
    VoiceData,
    ParseSounds,
    SetView,
    FixAngle,
    BspDecal,
    UserMessage,
    EntityMessage,
    GameEvent,
    PacketEntities,
    TempEntities,
    PreFetch,
    Menu,
    GameEventList,
    GetCvarValue,
    CmdKeyValues,
}

/// A participant died.
#[derive(Clone, Debug, PartialEq)]
pub struct PlayerDeathEvent {
    /// Slot of the victim.
    pub user_id: u16,
    /// Slot of the killer; 0 where the world or the victim did it.
    pub attacker: u16,
    /// Slot of the assister; a value of 16384 or more where there is none.
    pub assister: u16,
    pub weapon: String,
    pub crit_type: u16,
    pub death_flags: u16,
}

/// A round was won.
#[derive(Clone, Copy, Debug, PartialEq, Eq, Structural)]
pub struct TeamPlayRoundWinEvent {
    pub team: u8,
    pub win_reason: u8,
    /// Bit pattern of the round's length in seconds, a 32-bit float.
    pub round_time: u32,
}

/// A participant spawned.
#[derive(Clone, Copy, Debug, PartialEq, Eq, Structural)]
pub struct PlayerSpawnEvent {
    pub user_id: u16,
    pub team: u16,
    pub class: u16,
}

/// A ballot was cast in a poll.
#[derive(Clone, Copy, Debug, PartialEq, Eq, Structural)]
pub struct VoteCastEvent {
    pub vote_option: u8,
    pub team: u16,
    pub entity_id: u32,
    pub voteidx: u32,
}

/// The options of a poll were announced. Unused options are empty.
#[derive(Clone, Debug, PartialEq)]
pub struct VoteOptionsEvent {
    pub option_1: String,
    pub option_2: String,
    pub option_3: String,
    pub option_4: String,
    pub option_5: String,
    pub voteidx: u32,
}

/// A participant connected.
#[derive(Clone, Debug, PartialEq)]
pub struct PlayerConnectClientEvent {
    pub name: String,
    pub user_id: u16,
    pub network_id: String,
}

/// A participant disconnected.
#[derive(Clone, Debug, PartialEq)]
pub struct PlayerDisconnectEvent {
    pub user_id: u16,
    pub reason: String,
    pub name: String,
    pub network_id: String,
}

/// A participant changed class without spawning.
#[derive(Clone, Copy, Debug, PartialEq, Eq, Structural)]
pub struct PlayerChangeClassEvent {
    pub user_id: u16,
    pub class: u16,
}

/// The game events that the analyser reads; every other one is `Other`.
#[derive(Clone, Debug, PartialEq)]
pub enum GameEvent {
    PlayerDeath(PlayerDeathEvent),
    TeamPlayRoundWin(TeamPlayRoundWinEvent),
    PlayerSpawn(PlayerSpawnEvent),
    VoteCast(VoteCastEvent),
    VoteOptions(VoteOptionsEvent),
    PlayerConnectClient(PlayerConnectClientEvent),
    PlayerDisconnect(PlayerDisconnectEvent),
    PlayerChangeClass(PlayerChangeClassEvent),
    Other,
}

/// A chat line, or the notice of a changed name.
#[derive(Clone, Debug, PartialEq)]
pub struct SayText2Message {
    /// Entity handle of the speaker.
    pub client: u32,
    pub kind: ChatMessageKind,
    pub from: Option<String>,
    /// The text as sent, colour codes included.
    pub text: String,
}

/// A text message of the server, with up to four values to fill in.
#[derive(Clone, Debug, PartialEq)]
pub struct TextMessage {
    pub location: HudTextLocation,
    pub text: String,
    pub substitute: [String; 4],
}

/// The user messages that the analyser reads; every other one is `Other`.
#[derive(Clone, Debug, PartialEq)]
pub enum UserMessage {
    SayText2(SayText2Message),
    Text(TextMessage),
    Other,
}

/// The messages that the analyser reads; every other one is `Other`.
#[derive(Clone, Debug, PartialEq)]
pub enum Message {
    /// A tick marker with the server's tick.
    NetTick(u32),
    ServerInfo(ServerInfo),
    GameEvent(GameEvent),
    UserMessage(UserMessage),
    Other,
}

/// What an entry of the player directory says of one participant.
#[derive(Clone, Debug, PartialEq)]
pub struct PlayerEntry {
    pub name: String,
    pub user_id: u16,
    pub steam_id: String,
    pub entity_id: u32,
}

/// An entry of the player directory as the contracts see it.
pub struct PlayerEntryView {
    pub name: Seq<char>,
    pub user_id: u16,
    pub steam_id: Seq<char>,
    pub entity_id: u32,
}

impl View for PlayerEntry {
    type V = PlayerEntryView;

    open spec fn view(&self) -> PlayerEntryView {
        PlayerEntryView {
            name: self.name@,
            user_id: self.user_id,
            steam_id: self.steam_id@,
            entity_id: self.entity_id,
        }
    }
}

} // verus!
