//! The mathematical model of the analyser: what each record does to the
//! views of the match state and of the polls.

use crate::chat::plain_text_of;
use crate::directory::{entry_outcome, UserInfoError};
use crate::identity::{first_meeting, identity_key, resolved, with_user, Criterion, UserKeyView};
use crate::records::{
    GameEvent, Message, PlayerChangeClassEvent, PlayerConnectClientEvent, PlayerDeathEvent,
    PlayerDisconnectEvent, PlayerEntryView, PlayerSpawnEvent, SayText2Message,
    TeamPlayRoundWinEvent, TextMessage, UserMessage, VoteCastEvent,
};
use crate::state::{
    opt_text, ChatMessageView, ConnectionEventTypeView, ConnectionEventView, DeathView,
    MatchEventTypeView, MatchEventView, MatchStateView, Round, UserInfoView, Vote, VoteView,
};
use crate::types::{
    class_of, crit_type_of, team_of, ChatMessageKind, Class, HudTextLocation, StableUserId, Team,
};
use crate::votes::after_vote_options;
use vstd::prelude::*;

verus! {

/// The killer dominates the victim.
pub const TF_DEATH_DOMINATION: u16 = 0x0001;

/// The assister dominates the victim.
pub const TF_DEATH_ASSISTER_DOMINATION: u16 = 0x0002;

/// The killer got revenge on the victim.
pub const TF_DEATH_REVENGE: u16 = 0x0004;

/// The assister got revenge on the victim.
pub const TF_DEATH_ASSISTER_REVENGE: u16 = 0x0008;

/// The victim feigned death.
pub const TF_DEATH_FEIGN_DEATH: u16 = 0x0020;

/// Assister slots from this value on stand for "no assister".
pub const NO_ASSISTER: u16 = 16384;

/// The win reason of a round that ran into the time limit.
pub const WIN_REASON_TIME_LIMIT: u8 = 6;

/// Views of the polls.
pub open spec fn vote_views(votes: Map<u32, Vote>) -> Map<u32, VoteView> {
    votes.map_values(|v: Vote| v@)
}

/// What an analyser holds: the match so far and the polls waiting to be
/// spliced into its log.
pub struct AnalyserView {
    pub state: MatchStateView,
    pub votes: Map<u32, VoteView>,
    /// Whether a tick marker was seen.
    pub started: bool,
}

impl UserInfoView {
    /// The participant after a class transition at `tick`.
    pub open spec fn with_class(self, tick: u32, class: Class) -> UserInfoView {
        UserInfoView {
            last_class: Some(class),
            class_switches: self.class_switches.push((tick, class)),
            ..self
        }
    }

    /// The participant after a team transition at `tick`.
    pub open spec fn with_team(self, tick: u32, team: Team) -> UserInfoView {
        UserInfoView {
            last_team: Some(team),
            team_switches: self.team_switches.push((tick, team)),
            ..self
        }
    }

    /// The participant after joining or leaving at `tick`.
    pub open spec fn with_connection(
        self,
        tick: u32,
        kind: ConnectionEventTypeView,
    ) -> UserInfoView {
        UserInfoView { connection_events: self.connection_events.push((tick, kind)), ..self }
    }

    /// The participant seen in the slot `user_id` under the handle
    /// `entity_id`.
    pub open spec fn located(self, user_id: u16, entity_id: u32) -> UserInfoView {
        UserInfoView { user_id, entity_id: Some(entity_id), ..self }
    }

    /// The participant under a new display name.
    pub open spec fn renamed(self, name: Seq<char>) -> UserInfoView {
        UserInfoView { name: Some(name), ..self }
    }
}

impl MatchStateView {
    /// The state with one more event at the end of the log.
    pub open spec fn logged(self, tick: u32, value: MatchEventTypeView) -> MatchStateView {
        MatchStateView { events: self.events.push(MatchEventView { tick, value }), ..self }
    }

    /// The state with another user collection.
    pub open spec fn with_users(self, users: Seq<UserInfoView>) -> MatchStateView {
        MatchStateView { users, ..self }
    }

    /// The state after `key` was resolved, `fallback` being the participant
    /// to create where none is found.
    pub open spec fn resolving(self, key: UserKeyView, fallback: UserInfoView) -> MatchStateView {
        self.with_users(with_user(self.users, key, fallback))
    }

    /// The state with the participant at `id` replaced by `user`.
    pub open spec fn touching(self, id: int, user: UserInfoView) -> MatchStateView {
        self.with_users(self.users.update(id, user))
    }
}

impl AnalyserView {
    /// The analyser before any record.
    pub open spec fn empty() -> AnalyserView {
        AnalyserView { state: MatchStateView::empty(), votes: Map::empty(), started: false }
    }

    /// The analyser with another match state.
    pub open spec fn with_state(self, state: MatchStateView) -> AnalyserView {
        AnalyserView { state, ..self }
    }
}

/// The stable identifier for the index `i`.
pub open spec fn user_ref(i: int) -> StableUserId {
    StableUserId(i as usize)
}

/// One participant of a kill, resolved by slot: the user collection
/// afterwards and the participant's identifier.
pub open spec fn slot_resolved(users: Seq<UserInfoView>, user_id: u16) -> (
    Seq<UserInfoView>,
    StableUserId,
) {
    (
        with_user(users, UserKeyView::Slot(user_id), UserInfoView::blank(user_id)),
        user_ref(resolved(users, UserKeyView::Slot(user_id))),
    )
}

/// The kill that a death record reports, and the user collection after its
/// participants were resolved: first the assister, then the killer, then the
/// victim. An assister slot from [`NO_ASSISTER`] on means that nobody
/// assisted, the killer slot 0 that the world or the victim did it.
pub open spec fn death_of(users: Seq<UserInfoView>, ev: PlayerDeathEvent) -> (
    Seq<UserInfoView>,
    DeathView,
) {
    let (u1, assister) = if ev.assister < NO_ASSISTER {
        (slot_resolved(users, ev.assister).0, Some(slot_resolved(users, ev.assister).1))
    } else {
        (users, None)
    };
    let (u2, killer) = if ev.attacker == 0 {
        (u1, None)
    } else {
        (slot_resolved(u1, ev.attacker).0, Some(slot_resolved(u1, ev.attacker).1))
    };
    let (u3, victim) = slot_resolved(u2, ev.user_id);
    (
        u3,
        DeathView {
            weapon: ev.weapon@,
            victim,
            assister,
            killer,
            crit_type: crit_type_of(ev.crit_type),
            domination: ev.death_flags & TF_DEATH_DOMINATION != 0,
            revenge: ev.death_flags & TF_DEATH_REVENGE != 0,
            assist_dom: ev.death_flags & TF_DEATH_ASSISTER_DOMINATION != 0,
            assist_revg: ev.death_flags & TF_DEATH_ASSISTER_REVENGE != 0,
            deadringer: ev.death_flags & TF_DEATH_FEIGN_DEATH != 0,
        },
    )
}

/// The team that a chat line is attributed to: that of the participant with
/// the speaker's entity handle, `Other` where that participant has no team
/// yet, and none where nobody has the handle.
pub open spec fn speaker_team(users: Seq<UserInfoView>, client: u32) -> Option<Team> {
    match first_meeting(users, Criterion::Entity(client)) {
        Some(i) => Some(
            match users[i].last_team {
                Some(team) => team,
                None => Team::Other,
            },
        ),
        None => None,
    }
}

/// The name that a ballot is recorded under: that of the participant with
/// the voter's entity handle, empty where that participant has no name, and
/// none where nobody has the handle.
pub open spec fn voter_name(users: Seq<UserInfoView>, entity_id: u32) -> Option<Seq<char>> {
    match first_meeting(users, Criterion::Entity(entity_id)) {
        Some(i) => Some(
            match users[i].name {
                Some(name) => name,
                None => Seq::empty(),
            },
        ),
        None => None,
    }
}

/// The polls after a ballot. A ballot for a poll that was never announced
/// is dropped, and so is one for an option that the poll does not have.
pub open spec fn after_vote_cast(
    votes: Map<u32, VoteView>,
    users: Seq<UserInfoView>,
    ev: VoteCastEvent,
    tick: u32,
) -> Map<u32, VoteView> {
    if votes.contains_key(ev.voteidx) && ev.vote_option < votes[ev.voteidx].options.len() {
        votes.insert(
            ev.voteidx,
            votes[ev.voteidx].cast(
                voter_name(users, ev.entity_id),
                team_of(ev.team),
                ev.vote_option as usize,
                tick,
            ),
        )
    } else {
        votes
    }
}

impl MatchStateView {
    /// The state after a death record: its participants are resolved and the
    /// kill is logged.
    pub open spec fn after_death(self, ev: PlayerDeathEvent, tick: u32) -> MatchStateView {
        self.with_users(death_of(self.users, ev).0).logged(
            tick,
            MatchEventTypeView::Kill(death_of(self.users, ev).1),
        )
    }

    /// The state after a round-win record: the round's outcome is logged,
    /// unless the round only ran into the time limit.
    pub open spec fn after_round_win(self, ev: TeamPlayRoundWinEvent, tick: u32) -> MatchStateView {
        if ev.win_reason != WIN_REASON_TIME_LIMIT {
            self.logged(tick, MatchEventTypeView::RoundEnd(Round::of_event(ev)))
        } else {
            self
        }
    }

    /// The state after a spawn record. The spawning participant is resolved
    /// by slot. A class other than the one on record is a class transition,
    /// a team other than the one on record a team transition: each is
    /// recorded with the participant and logged, the class first.
    pub open spec fn after_spawn(self, ev: PlayerSpawnEvent, tick: u32) -> MatchStateView {
        let key = UserKeyView::Slot(ev.user_id);
        let id = resolved(self.users, key);
        let class = class_of(ev.class);
        let team = team_of(ev.team);
        let s1 = self.resolving(key, UserInfoView::blank(ev.user_id));
        let s2 = if s1.users[id].last_class != Some(class) {
            s1.touching(id, s1.users[id].with_class(tick, class)).logged(
                tick,
                MatchEventTypeView::ClassSwitch(user_ref(id), class),
            )
        } else {
            s1
        };
        if s2.users[id].last_team != Some(team) {
            s2.touching(id, s2.users[id].with_team(tick, team)).logged(
                tick,
                MatchEventTypeView::TeamSwitch(user_ref(id), team),
            )
        } else {
            s2
        }
    }

    /// The state after a class-change record: the transition is recorded
    /// with the participant whatever class was on record, and nothing is
    /// logged.
    pub open spec fn after_change_class(
        self,
        ev: PlayerChangeClassEvent,
        tick: u32,
    ) -> MatchStateView {
        let key = UserKeyView::Slot(ev.user_id);
        let id = resolved(self.users, key);
        let s1 = self.resolving(key, UserInfoView::blank(ev.user_id));
        s1.touching(id, s1.users[id].with_class(tick, class_of(ev.class)))
    }

    /// The state after a connect record: the participant is resolved under
    /// the key of the record's identifiers, and the join is recorded with
    /// the participant and logged.
    pub open spec fn after_connect(
        self,
        ev: PlayerConnectClientEvent,
        tick: u32,
    ) -> MatchStateView {
        let key = identity_key(ev.network_id@, ev.name@, ev.user_id);
        let id = resolved(self.users, key);
        let s1 = self.resolving(key, UserInfoView::named(ev.user_id, ev.network_id@, ev.name@));
        s1.touching(id, s1.users[id].with_connection(tick, ConnectionEventTypeView::Join)).logged(
            tick,
            MatchEventTypeView::Connection(ConnectionEventView::of_conn(ev, user_ref(id))),
        )
    }

    /// The state after a disconnect record: as for a connect record, with
    /// the reason for leaving.
    pub open spec fn after_disconnect(
        self,
        ev: PlayerDisconnectEvent,
        tick: u32,
    ) -> MatchStateView {
        let key = identity_key(ev.network_id@, ev.name@, ev.user_id);
        let id = resolved(self.users, key);
        let s1 = self.resolving(key, UserInfoView::named(ev.user_id, ev.network_id@, ev.name@));
        s1.touching(
            id,
            s1.users[id].with_connection(tick, ConnectionEventTypeView::Leave(ev.reason@)),
        ).logged(tick, MatchEventTypeView::Connection(ConnectionEventView::of_dc(ev, user_ref(id))))
    }

    /// The state after a change of name: the first participant called
    /// `from` is called `to` from now on.
    pub open spec fn after_rename(self, from: Seq<char>, to: Seq<char>) -> MatchStateView {
        match first_meeting(self.users, Criterion::Name(from)) {
            Some(i) => self.touching(i, self.users[i].renamed(to)),
            None => self,
        }
    }

    /// The state after a chat line whose text without colour codes is
    /// `plain`. The notice of a changed name renames the participant to
    /// `plain` and is not logged; every other line is logged with its
    /// resolved text.
    pub open spec fn after_say_text(
        self,
        message: SayText2Message,
        plain: Seq<char>,
        tick: u32,
    ) -> MatchStateView {
        if message.kind == ChatMessageKind::NameChange {
            match message.from {
                Some(from) => self.after_rename(from@, plain),
                None => self,
            }
        } else {
            self.logged(
                tick,
                MatchEventTypeView::Chat(
                    ChatMessageView::said(
                        message.kind,
                        opt_text(message.from),
                        plain,
                        speaker_team(self.users, message.client),
                    ),
                ),
            )
        }
    }

    /// The state after a text message of the server: what is printed to the
    /// chat is logged, what goes elsewhere is not.
    pub open spec fn after_text(self, message: TextMessage, tick: u32) -> MatchStateView {
        if message.location == HudTextLocation::PrintTalk {
            self.logged(tick, MatchEventTypeView::Chat(ChatMessageView::printed(message)))
        } else {
            self
        }
    }

    /// The state after a user message.
    pub open spec fn after_user_message(self, message: UserMessage, tick: u32) -> MatchStateView {
        match message {
            UserMessage::SayText2(m) => self.after_say_text(m, plain_text_of(m.text@), tick),
            UserMessage::Text(m) => self.after_text(m, tick),
            UserMessage::Other => self,
        }
    }

    /// The state after an entry of the player directory. The participant is
    /// resolved under the key of the entry's identifiers and then carries the
    /// entry's slot and entity handle, so that somebody who came back in
    /// another slot is the same participant.
    pub open spec fn after_user_entry(self, entry: PlayerEntryView) -> MatchStateView {
        let key = identity_key(entry.steam_id, entry.name, entry.user_id);
        let id = resolved(self.users, key);
        let s1 = self.resolving(key, UserInfoView::of_entry(entry));
        s1.touching(id, s1.users[id].located(entry.user_id, entry.entity_id))
    }
}

impl AnalyserView {
    /// The analyser after a game event.
    pub open spec fn after_event(self, event: GameEvent, tick: u32) -> AnalyserView {
        match event {
            GameEvent::PlayerDeath(ev) => self.with_state(self.state.after_death(ev, tick)),
            GameEvent::TeamPlayRoundWin(ev) => self.with_state(
                self.state.after_round_win(ev, tick),
            ),
            GameEvent::PlayerSpawn(ev) => self.with_state(self.state.after_spawn(ev, tick)),
            GameEvent::VoteCast(ev) => AnalyserView {
                votes: after_vote_cast(self.votes, self.state.users, ev, tick),
                ..self
            },
            GameEvent::VoteOptions(ev) => AnalyserView {
                votes: after_vote_options(self.votes, ev, tick),
                ..self
            },
            GameEvent::PlayerConnectClient(ev) => self.with_state(
                self.state.after_connect(ev, tick),
            ),
            GameEvent::PlayerDisconnect(ev) => self.with_state(
                self.state.after_disconnect(ev, tick),
            ),
            GameEvent::PlayerChangeClass(ev) => self.with_state(
                self.state.after_change_class(ev, tick),
            ),
            GameEvent::Other => self,
        }
    }

    /// The analyser after a message that came at `tick`. The tick is noted
    /// as the last one handled. The first tick marker, and no later one, sets
    /// the start tick; server metadata replaces the snapshot; game events and
    /// user messages go their own ways.
    pub open spec fn after_message(self, message: Message, tick: u32) -> AnalyserView {
        let a = self.with_state(MatchStateView { end_tick: tick, ..self.state });
        match message {
            Message::NetTick(server_tick) => if a.started {
                a
            } else {
                AnalyserView {
                    state: MatchStateView { start_tick: server_tick, ..a.state },
                    started: true,
                    ..a
                }
            },
            Message::ServerInfo(info) => a.with_state(
                MatchStateView { server_info: info@, ..a.state },
            ),
            Message::GameEvent(event) => a.after_event(event, tick),
            Message::UserMessage(m) => a.with_state(a.state.after_user_message(m, tick)),
            Message::Other => a,
        }
    }
}

/// `k` is the least of `keys`.
pub open spec fn is_least(keys: Set<u32>, k: u32) -> bool {
    keys.contains(k) && forall|j: u32| keys.contains(j) ==> k <= j
}

/// The least of `keys`, where there is one.
pub open spec fn least(keys: Set<u32>) -> u32 {
    choose|k: u32| is_least(keys, k)
}

/// A set of poll indices that holds `k` has a least element.
pub proof fn lemma_least(keys: Set<u32>, k: u32)
    requires
        keys.contains(k),
    ensures
        is_least(keys, least(keys)),
    decreases k,
{
    if !is_least(keys, k) {
        let j = choose|j: u32| keys.contains(j) && j < k;
        lemma_least(keys, j);
    }
}

/// Index of the first event later than `tick`, if there is one.
pub open spec fn first_after(events: Seq<MatchEventView>, tick: u32) -> Option<int>
    decreases events.len(),
{
    if events.len() == 0 {
        None
    } else {
        match first_after(events.drop_last(), tick) {
            Some(i) => Some(i),
            None => if events.last().tick > tick {
                Some(events.len() - 1)
            } else {
                None
            },
        }
    }
}

/// `first_after` gives the least index of an event later than `tick`, and
/// nothing exactly when no event is later.
pub proof fn lemma_first_after(events: Seq<MatchEventView>, tick: u32)
    ensures
        match first_after(events, tick) {
            Some(i) => {
                &&& 0 <= i < events.len()
                &&& events[i].tick > tick
                &&& forall|j: int| 0 <= j < i ==> (#[trigger] events[j]).tick <= tick
            },
            None => forall|j: int| 0 <= j < events.len() ==> (#[trigger] events[j]).tick <= tick,
        },
    decreases events.len(),
{
    if events.len() > 0 {
        let front = events.drop_last();
        lemma_first_after(front, tick);
        assert(forall|j: int| 0 <= j < front.len() ==> front[j] == events[j]);
    }
}

/// Where a poll that started at `tick` goes into the log: before the first
/// event later than `tick`, and at the end where no event is later. In a log
/// in the order of time that is behind every event up to `tick` and in front
/// of every later one.
pub open spec fn insertion_point(events: Seq<MatchEventView>, tick: u32) -> int {
    match first_after(events, tick) {
        Some(i) => i,
        None => events.len() as int,
    }
}

/// The event that a poll becomes.
pub open spec fn vote_started(vote: VoteView) -> MatchEventView {
    MatchEventView { tick: vote.start_tick, value: MatchEventTypeView::VoteStarted(vote) }
}

/// The log with the poll `vote` spliced in at its start tick.
pub open spec fn with_vote(events: Seq<MatchEventView>, vote: VoteView) -> Seq<MatchEventView> {
    events.insert(insertion_point(events, vote.start_tick), vote_started(vote))
}

/// The log with all of `votes` spliced in, one after the other from the
/// least poll index to the greatest.
pub open spec fn spliced(events: Seq<MatchEventView>, votes: Map<u32, VoteView>) -> Seq<
    MatchEventView,
>
    decreases votes.dom().len(),
    when votes.dom().finite()
    via spliced_decreases
{
    if votes.dom().len() == 0 {
        events
    } else {
        let k = least(votes.dom());
        spliced(with_vote(events, votes[k]), votes.remove(k))
    }
}

#[via_fn]
proof fn spliced_decreases(events: Seq<MatchEventView>, votes: Map<u32, VoteView>) {
    if votes.dom().len() != 0 {
        lemma_least(votes.dom(), votes.dom().choose());
    }
}

/// The slot that the index of a directory entry stands for: its low 16 bits.
pub open spec fn entry_slot(index: usize) -> u16 {
    (index % 65536) as u16
}

/// The name of the table that holds the player directory.
pub open spec fn directory_table() -> Seq<char> {
    "userinfo"@
}

impl AnalyserView {
    /// The analyser after what reading a directory entry gave: a participant
    /// is folded in, and anything else changes nothing.
    pub open spec fn after_entry_outcome(
        self,
        outcome: Result<Option<PlayerEntryView>, UserInfoError>,
    ) -> AnalyserView {
        match outcome {
            Ok(Some(entry)) => self.with_state(self.state.after_user_entry(entry)),
            _ => self,
        }
    }

    /// The analyser after an entry of the table `table`: only the player
    /// directory is read.
    pub open spec fn after_string_entry(
        self,
        table: Seq<char>,
        index: usize,
        text: Option<Seq<char>>,
        data: Option<Seq<u8>>,
    ) -> AnalyserView {
        if table == directory_table() {
            self.after_entry_outcome(entry_outcome(entry_slot(index), text, data))
        } else {
            self
        }
    }

    /// The finished match: the state with every poll spliced into its log.
    pub open spec fn finalized(self) -> MatchStateView {
        MatchStateView { events: spliced(self.state.events, self.votes), ..self.state }
    }
}

/// One thing that the analyser is fed.
pub enum Input {
    /// A message that came at `tick`.
    Message { message: Message, tick: u32 },
    /// An entry of a string table.
    StringEntry { table: Seq<char>, index: usize, text: Option<Seq<char>>, data: Option<Seq<u8>> },
}

impl AnalyserView {
    /// The analyser after one input.
    pub open spec fn fed(self, input: Input) -> AnalyserView {
        match input {
            Input::Message { message, tick } => self.after_message(message, tick),
            Input::StringEntry { table, index, text, data } => self.after_string_entry(
                table,
                index,
                text,
                data,
            ),
        }
    }
}

impl AnalyserView {
    /// The analyser after `inputs`, fed in order.
    pub open spec fn fed_all(self, inputs: Seq<Input>) -> AnalyserView
        decreases inputs.len(),
    {
        if inputs.len() == 0 {
            self
        } else {
            self.fed_all(inputs.drop_last()).fed(inputs.last())
        }
    }
}

/// The analyser after `inputs`, fed in order to one that had seen nothing.
pub open spec fn replayed(inputs: Seq<Input>) -> AnalyserView {
    AnalyserView::empty().fed_all(inputs)
}

} // verus!
