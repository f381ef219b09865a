//! The reconstructed match: participants, events and polls, each with the
//! mathematical view that the contracts speak of.

use crate::records::{
    PlayerConnectClientEvent, PlayerDisconnectEvent, PlayerEntry, PlayerEntryView,
    TeamPlayRoundWinEvent,
};
use crate::types::{ChatMessageKind, Class, CritType, StableUserId, Team};
use vstd::prelude::*;

verus! {

/// View of an optional text.
pub open spec fn opt_text(o: Option<String>) -> Option<Seq<char>> {
    match o {
        Some(s) => Some(s@),
        None => None,
    }
}

/// Views of a sequence of texts.
pub open spec fn texts(v: Seq<String>) -> Seq<Seq<char>> {
    v.map_values(|s: String| s@)
}

/// Whether a participant joined or left, and why they left.
#[derive(Debug, PartialEq)]
pub enum ConnectionEventType {
    Join,
    Leave(String),
}

/// A join or a leave as the contracts see it.
pub enum ConnectionEventTypeView {
    Join,
    Leave(Seq<char>),
}

impl View for ConnectionEventType {
    type V = ConnectionEventTypeView;

    open spec fn view(&self) -> ConnectionEventTypeView {
        match self {
            ConnectionEventType::Join => ConnectionEventTypeView::Join,
            ConnectionEventType::Leave(reason) => ConnectionEventTypeView::Leave(reason@),
        }
    }
}

impl Clone for ConnectionEventType {
    fn clone(&self) -> (r: Self)
        ensures
            r@ == self@,
    {
        match self {
            ConnectionEventType::Join => ConnectionEventType::Join,
            ConnectionEventType::Leave(reason) => ConnectionEventType::Leave(reason.clone()),
        }
    }
}

/// Views of a connection history.
pub open spec fn connection_history(v: Seq<(u32, ConnectionEventType)>) -> Seq<
    (u32, ConnectionEventTypeView),
> {
    v.map_values(|e: (u32, ConnectionEventType)| (e.0, e.1@))
}

/// One participant of the match.
#[derive(Clone, Debug, PartialEq)]
pub struct UserInfo {
    pub last_class: Option<Class>,
    pub name: Option<String>,
    /// Slot number.
    pub user_id: u16,
    /// Account identifier; `BOT` for a bot.
    pub steam_id: Option<String>,
    pub entity_id: Option<u32>,
    pub last_team: Option<Team>,
    pub connection_events: Vec<(u32, ConnectionEventType)>,
    pub class_switches: Vec<(u32, Class)>,
    pub team_switches: Vec<(u32, Team)>,
}

/// A participant as the contracts see it: texts are sequences of
/// characters, histories are sequences.
pub struct UserInfoView {
    pub last_class: Option<Class>,
    pub name: Option<Seq<char>>,
    pub user_id: u16,
    pub steam_id: Option<Seq<char>>,
    pub entity_id: Option<u32>,
    pub last_team: Option<Team>,
    pub connection_events: Seq<(u32, ConnectionEventTypeView)>,
    pub class_switches: Seq<(u32, Class)>,
    pub team_switches: Seq<(u32, Team)>,
}

impl View for UserInfo {
    type V = UserInfoView;

    open spec fn view(&self) -> UserInfoView {
        UserInfoView {
            last_class: self.last_class,
            name: opt_text(self.name),
            user_id: self.user_id,
            steam_id: opt_text(self.steam_id),
            entity_id: self.entity_id,
            last_team: self.last_team,
            connection_events: connection_history(self.connection_events@),
            class_switches: self.class_switches@,
            team_switches: self.team_switches@,
        }
    }
}

impl UserInfoView {
    /// A participant of whom only the slot is known.
    pub open spec fn blank(user_id: u16) -> UserInfoView {
        UserInfoView {
            last_class: None,
            name: None,
            user_id,
            steam_id: None,
            entity_id: None,
            last_team: None,
            connection_events: Seq::empty(),
            class_switches: Seq::empty(),
            team_switches: Seq::empty(),
        }
    }

    /// A participant as a connection record introduces them.
    pub open spec fn named(user_id: u16, steam_id: Seq<char>, name: Seq<char>) -> UserInfoView {
        UserInfoView { name: Some(name), steam_id: Some(steam_id), ..Self::blank(user_id) }
    }

    /// A participant as an entry of the player directory introduces them.
    pub open spec fn of_entry(entry: PlayerEntryView) -> UserInfoView {
        UserInfoView {
            entity_id: Some(entry.entity_id),
            ..Self::named(entry.user_id, entry.steam_id, entry.name)
        }
    }
}

impl UserInfo {
    /// A participant of whom only the slot is known.
    pub fn with_slot(user_id: u16) -> (r: UserInfo)
        ensures
            r@ == UserInfoView::blank(user_id),
    {
        let r = UserInfo {
            last_class: None,
            name: None,
            user_id,
            steam_id: None,
            entity_id: None,
            last_team: None,
            connection_events: Vec::new(),
            class_switches: Vec::new(),
            team_switches: Vec::new(),
        };
        assert(r@.connection_events =~= Seq::empty());
        r
    }

    /// A participant as a connection record introduces them.
    pub fn with_identity(user_id: u16, steam_id: &String, name: &String) -> (r: UserInfo)
        ensures
            r@ == UserInfoView::named(user_id, steam_id@, name@),
    {
        let mut r = UserInfo::with_slot(user_id);
        r.steam_id = Some(steam_id.clone());
        r.name = Some(name.clone());
        r
    }
}

impl UserInfo {
    /// A participant as an entry of the player directory introduces them.
    pub fn from_entry(info: &PlayerEntry) -> (r: UserInfo)
        ensures
            r@ == UserInfoView::of_entry(info@),
    {
        let mut r = UserInfo::with_identity(info.user_id, &info.steam_id, &info.name);
        r.entity_id = Some(info.entity_id);
        r
    }
}

impl Default for UserInfo {
    fn default() -> (r: UserInfo)
        ensures
            r@ == UserInfoView::blank(0),
    {
        UserInfo::with_slot(0)
    }
}


/// Views of a user collection.
pub open spec fn user_views(users: Seq<UserInfo>) -> Seq<UserInfoView> {
    users.map_values(|u: UserInfo| u@)
}

/// Which teams the ballots of a poll came from.
#[derive(Clone, Copy, Debug, PartialEq, Eq, Structural)]
pub enum VoteTeam {
    Unknown,
    One(Team),
    Both,
}

impl Default for VoteTeam {
    fn default() -> (r: VoteTeam)
        ensures
            r == VoteTeam::Unknown,
    {
        VoteTeam::Unknown
    }
}

/// One poll: its options and the ballots cast so far.
#[derive(Clone, Debug, PartialEq)]
pub struct Vote {
    pub start_tick: u32,
    pub end_tick: u32,
    pub team: VoteTeam,
    pub initator: Option<String>,
    pub issue: Option<String>,
    pub options: Vec<String>,
    /// Tick, voter and index of the chosen option of each ballot.
    pub votes: Vec<(u32, String, usize)>,
}

/// A poll as the contracts see it.
pub struct VoteView {
    pub start_tick: u32,
    pub end_tick: u32,
    pub team: VoteTeam,
    pub initator: Option<Seq<char>>,
    pub issue: Option<Seq<char>>,
    pub options: Seq<Seq<char>>,
    pub votes: Seq<(u32, Seq<char>, usize)>,
}

/// Views of a list of ballots.
pub open spec fn ballots(v: Seq<(u32, String, usize)>) -> Seq<(u32, Seq<char>, usize)> {
    v.map_values(|b: (u32, String, usize)| (b.0, b.1@, b.2))
}

impl View for Vote {
    type V = VoteView;

    open spec fn view(&self) -> VoteView {
        VoteView {
            start_tick: self.start_tick,
            end_tick: self.end_tick,
            team: self.team,
            initator: opt_text(self.initator),
            issue: opt_text(self.issue),
            options: texts(self.options@),
            votes: ballots(self.votes@),
        }
    }
}

impl VoteView {
    /// A poll announced at `tick` with the given options and no ballot yet.
    pub open spec fn announced(tick: u32, options: Seq<Seq<char>>) -> VoteView {
        VoteView {
            start_tick: tick,
            end_tick: tick,
            team: VoteTeam::Unknown,
            initator: None,
            issue: None,
            options,
            votes: Seq::empty(),
        }
    }

    /// Every ballot chooses one of the announced options.
    pub open spec fn wf(self) -> bool {
        forall|i: int|
            0 <= i < self.votes.len() ==> (#[trigger] self.votes[i]).2 < self.options.len()
    }
}

impl Default for Vote {
    fn default() -> (r: Vote)
        ensures
            r@ == VoteView::announced(0, Seq::empty()),
    {
        let r = Vote {
            start_tick: 0,
            end_tick: 0,
            team: VoteTeam::Unknown,
            initator: None,
            issue: None,
            options: Vec::new(),
            votes: Vec::new(),
        };
        assert(r@.options =~= Seq::empty());
        assert(r@.votes =~= Seq::empty());
        r
    }
}

/// A kill.
#[derive(Clone, Debug, PartialEq)]
pub struct Death {
    pub weapon: String,
    pub victim: StableUserId,
    pub assister: Option<StableUserId>,
    pub killer: Option<StableUserId>,
    pub crit_type: CritType,
    pub domination: bool,
    pub revenge: bool,
    pub assist_dom: bool,
    pub assist_revg: bool,
    pub deadringer: bool,
}

/// A kill as the contracts see it.
pub struct DeathView {
    pub weapon: Seq<char>,
    pub victim: StableUserId,
    pub assister: Option<StableUserId>,
    pub killer: Option<StableUserId>,
    pub crit_type: CritType,
    pub domination: bool,
    pub revenge: bool,
    pub assist_dom: bool,
    pub assist_revg: bool,
    pub deadringer: bool,
}

impl View for Death {
    type V = DeathView;

    open spec fn view(&self) -> DeathView {
        DeathView {
            weapon: self.weapon@,
            victim: self.victim,
            assister: self.assister,
            killer: self.killer,
            crit_type: self.crit_type,
            domination: self.domination,
            revenge: self.revenge,
            assist_dom: self.assist_dom,
            assist_revg: self.assist_revg,
            deadringer: self.deadringer,
        }
    }
}

/// The outcome of a round.
#[derive(Clone, Copy, Debug, PartialEq, Eq, Structural)]
pub struct Round {
    pub winner: Team,
    /// Bit pattern of the round's length in seconds, a 32-bit float.
    pub length: u32,
}

impl Round {
    /// The outcome that a round-win record reports.
    pub open spec fn of_event(event: TeamPlayRoundWinEvent) -> Round {
        Round { winner: crate::types::team_of(event.team as u16), length: event.round_time }
    }
}

impl From<&TeamPlayRoundWinEvent> for Round {
    fn from(event: &TeamPlayRoundWinEvent) -> (r: Round)
        ensures
            r == Round::of_event(*event),
    {
        Round { winner: Team::from_raw(event.team as u16), length: event.round_time }
    }
}

impl vstd::std_specs::convert::FromSpecImpl<&TeamPlayRoundWinEvent> for Round {
    open spec fn obeys_from_spec() -> bool {
        true
    }

    open spec fn from_spec(event: &TeamPlayRoundWinEvent) -> Round {
        Round::of_event(*event)
    }
}

/// What the server says of itself.
#[derive(Debug, PartialEq)]
pub struct ServerInfo {
    pub name: String,
    pub maxplayers: u8,
    /// Bit pattern of the seconds per tick, a 32-bit float.
    pub interval_per_tick: u32,
    pub platform: String,
    pub is_stv: bool,
}

/// The server's metadata as the contracts see it.
pub struct ServerInfoView {
    pub name: Seq<char>,
    pub maxplayers: u8,
    pub interval_per_tick: u32,
    pub platform: Seq<char>,
    pub is_stv: bool,
}

impl View for ServerInfo {
    type V = ServerInfoView;

    open spec fn view(&self) -> ServerInfoView {
        ServerInfoView {
            name: self.name@,
            maxplayers: self.maxplayers,
            interval_per_tick: self.interval_per_tick,
            platform: self.platform@,
            is_stv: self.is_stv,
        }
    }
}

impl ServerInfoView {
    /// The snapshot before any server metadata was seen.
    pub open spec fn empty() -> ServerInfoView {
        ServerInfoView {
            name: Seq::empty(),
            maxplayers: 0,
            interval_per_tick: 0,
            platform: Seq::empty(),
            is_stv: false,
        }
    }
}

impl Clone for ServerInfo {
    fn clone(&self) -> (r: Self)
        ensures
            r@ == self@,
    {
        ServerInfo {
            name: self.name.clone(),
            maxplayers: self.maxplayers,
            interval_per_tick: self.interval_per_tick,
            platform: self.platform.clone(),
            is_stv: self.is_stv,
        }
    }
}

impl Default for ServerInfo {
    fn default() -> (r: ServerInfo)
        ensures
            r@ == ServerInfoView::empty(),
    {
        ServerInfo {
            name: String::new(),
            maxplayers: 0,
            interval_per_tick: 0,
            platform: String::new(),
            is_stv: false,
        }
    }
}

/// A participant joined or left.
#[derive(Clone, Debug, PartialEq)]
pub struct ConnectionEvent {
    pub user: StableUserId,
    pub name: String,
    pub steamid: String,
    pub value: ConnectionEventType,
}

/// A connection event as the contracts see it.
pub struct ConnectionEventView {
    pub user: StableUserId,
    pub name: Seq<char>,
    pub steamid: Seq<char>,
    pub value: ConnectionEventTypeView,
}

impl View for ConnectionEvent {
    type V = ConnectionEventView;

    open spec fn view(&self) -> ConnectionEventView {
        ConnectionEventView {
            user: self.user,
            name: self.name@,
            steamid: self.steamid@,
            value: self.value@,
        }
    }
}

impl ConnectionEventView {
    /// The event that a connect record of `user` gives.
    pub open spec fn of_conn(value: PlayerConnectClientEvent, user: StableUserId) -> Self {
        ConnectionEventView {
            user,
            name: value.name@,
            steamid: value.network_id@,
            value: ConnectionEventTypeView::Join,
        }
    }

    /// The event that a disconnect record of `user` gives.
    pub open spec fn of_dc(value: PlayerDisconnectEvent, user: StableUserId) -> Self {
        ConnectionEventView {
            user,
            name: value.name@,
            steamid: value.network_id@,
            value: ConnectionEventTypeView::Leave(value.reason@),
        }
    }
}

impl ConnectionEvent {
    /// The event that a connect record of `user` gives.
    pub fn from_conn(value: &PlayerConnectClientEvent, user: StableUserId) -> (r: Self)
        ensures
            r@ == ConnectionEventView::of_conn(*value, user),
    {
        ConnectionEvent {
            name: value.name.clone(),
            steamid: value.network_id.clone(),
            value: ConnectionEventType::Join,
            user,
        }
    }

    /// The event that a disconnect record of `user` gives.
    pub fn from_dc(value: &PlayerDisconnectEvent, user: StableUserId) -> (r: Self)
        ensures
            r@ == ConnectionEventView::of_dc(*value, user),
    {
        ConnectionEvent {
            name: value.name.clone(),
            steamid: value.network_id.clone(),
            value: ConnectionEventType::Leave(value.reason.clone()),
            user,
        }
    }
}

/// A line of chat, or a text that the server printed to the chat.
#[derive(Clone, Debug, PartialEq)]
pub struct ChatMessage {
    pub kind: ChatMessageKind,
    pub from: String,
    pub text: String,
    pub team: Option<Team>,
}

/// A chat event as the contracts see it.
pub struct ChatMessageView {
    pub kind: ChatMessageKind,
    pub from: Seq<char>,
    pub text: Seq<char>,
    pub team: Option<Team>,
}

impl View for ChatMessage {
    type V = ChatMessageView;

    open spec fn view(&self) -> ChatMessageView {
        ChatMessageView { kind: self.kind, from: self.from@, text: self.text@, team: self.team }
    }
}

/// What happened at one tick of the match.
#[derive(Clone, Debug, PartialEq)]
pub enum MatchEventType {
    Kill(Death),
    RoundEnd(Round),
    Chat(ChatMessage),
    Connection(ConnectionEvent),
    VoteStarted(Vote),
    TeamSwitch(StableUserId, Team),
    ClassSwitch(StableUserId, Class),
}

/// What happened at one tick, as the contracts see it.
pub enum MatchEventTypeView {
    Kill(DeathView),
    RoundEnd(Round),
    Chat(ChatMessageView),
    Connection(ConnectionEventView),
    VoteStarted(VoteView),
    TeamSwitch(StableUserId, Team),
    ClassSwitch(StableUserId, Class),
}

impl View for MatchEventType {
    type V = MatchEventTypeView;

    open spec fn view(&self) -> MatchEventTypeView {
        match self {
            MatchEventType::Kill(d) => MatchEventTypeView::Kill(d@),
            MatchEventType::RoundEnd(r) => MatchEventTypeView::RoundEnd(*r),
            MatchEventType::Chat(c) => MatchEventTypeView::Chat(c@),
            MatchEventType::Connection(c) => MatchEventTypeView::Connection(c@),
            MatchEventType::VoteStarted(v) => MatchEventTypeView::VoteStarted(v@),
            MatchEventType::TeamSwitch(u, t) => MatchEventTypeView::TeamSwitch(*u, *t),
            MatchEventType::ClassSwitch(u, c) => MatchEventTypeView::ClassSwitch(*u, *c),
        }
    }
}

/// One entry of the event log.
#[derive(Clone, Debug, PartialEq)]
pub struct MatchEvent {
    pub tick: u32,
    pub value: MatchEventType,
}

/// An entry of the event log as the contracts see it.
pub struct MatchEventView {
    pub tick: u32,
    pub value: MatchEventTypeView,
}

impl View for MatchEvent {
    type V = MatchEventView;

    open spec fn view(&self) -> MatchEventView {
        MatchEventView { tick: self.tick, value: self.value@ }
    }
}

/// Views of an event log.
pub open spec fn event_views(events: Seq<MatchEvent>) -> Seq<MatchEventView> {
    events.map_values(|e: MatchEvent| e@)
}

/// The whole reconstructed match.
#[derive(Clone, Debug, PartialEq)]
pub struct MatchState {
    pub users: Vec<UserInfo>,
    pub server_info: ServerInfo,
    /// Server tick of the first tick marker; 0 until one was seen.
    pub start_tick: u32,
    /// Tick of the last record handled.
    pub end_tick: u32,
    pub events: Vec<MatchEvent>,
}

/// The reconstructed match as the contracts see it.
pub struct MatchStateView {
    pub users: Seq<UserInfoView>,
    pub server_info: ServerInfoView,
    pub start_tick: u32,
    pub end_tick: u32,
    pub events: Seq<MatchEventView>,
}

impl View for MatchState {
    type V = MatchStateView;

    open spec fn view(&self) -> MatchStateView {
        MatchStateView {
            users: user_views(self.users@),
            server_info: self.server_info@,
            start_tick: self.start_tick,
            end_tick: self.end_tick,
            events: event_views(self.events@),
        }
    }
}

impl MatchStateView {
    /// The state before any record was handled.
    pub open spec fn empty() -> MatchStateView {
        MatchStateView {
            users: Seq::empty(),
            server_info: ServerInfoView::empty(),
            start_tick: 0,
            end_tick: 0,
            events: Seq::empty(),
        }
    }
}

impl Default for MatchState {
    fn default() -> (r: MatchState)
        ensures
            r@ == MatchStateView::empty(),
    {
        let r = MatchState {
            users: Vec::new(),
            server_info: ServerInfo::default(),
            start_tick: 0,
            end_tick: 0,
            events: Vec::new(),
        };
        assert(r@.users =~= Seq::empty());
        assert(r@.events =~= Seq::empty());
        r
    }
}

} // verus!
