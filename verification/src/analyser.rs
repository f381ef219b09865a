//! The match analyser: a fold over the decoded records of a replay that
//! resolves each record's participants and builds the event log.

use crate::chat::stripped_text;
use crate::directory::{entry_outcome, opt_bytes, opt_str, read_entry, UserInfoError};
use crate::identity::{find_user, lookup_user, resolved, UserCriterion, UserKey};
use crate::model::{
    after_vote_cast, death_of, entry_slot, insertion_point, lemma_first_after, lemma_least,
    spliced, user_ref, vote_views, with_vote, AnalyserView, NO_ASSISTER,
    TF_DEATH_ASSISTER_DOMINATION, TF_DEATH_ASSISTER_REVENGE, TF_DEATH_DOMINATION,
    TF_DEATH_FEIGN_DEATH, TF_DEATH_REVENGE, WIN_REASON_TIME_LIMIT,
};
use crate::records::{
    GameEvent, Message, MessageType, PlayerChangeClassEvent, PlayerConnectClientEvent,
    PlayerDeathEvent, PlayerDisconnectEvent, PlayerEntry, PlayerSpawnEvent, SayText2Message,
    UserMessage, VoteCastEvent, VoteOptionsEvent,
};
use crate::state::{
    event_views, ChatMessage, ConnectionEvent, ConnectionEventType, Death, MatchEvent,
    MatchEventType, MatchState, Round, UserInfo, Vote,
};
use crate::types::{ChatMessageKind, Class, CritType, HudTextLocation, StableUserId, Team};
use crate::votes::{after_vote_options, announced_options};
use std::collections::BTreeMap;
use vstd::prelude::*;

verus! {

/// Folds the records of a replay into a [`MatchState`].
#[derive(Debug)]
pub struct Analyser {
    state: MatchState,
    /// The polls seen so far, by poll index.
    pub votes: BTreeMap<u32, Vote>,
    /// Whether a tick marker was seen.
    started: bool,
}

impl View for Analyser {
    type V = AnalyserView;

    closed spec fn view(&self) -> AnalyserView {
        AnalyserView { state: self.state@, votes: vote_views(self.votes@), started: self.started }
    }
}

impl Analyser {
    /// The polls of an analyser are finitely many.
    pub proof fn lemma_polls_finite(&self)
        ensures
            self@.votes.dom().finite(),
    {
        broadcast use vstd::std_specs::btree::group_btree_axioms;

        assert(vote_views(self.votes@).dom() =~= self.votes@.dom());
    }
}

impl Default for Analyser {
    fn default() -> (r: Self)
        ensures
            r@ == AnalyserView::empty(),
    {
        Analyser::new()
    }
}

impl Analyser {
    /// An analyser that has seen no record.
    pub fn new() -> (r: Self)
        ensures
            r@ == AnalyserView::empty(),
    {
        let r = Analyser { state: MatchState::default(), votes: BTreeMap::new(), started: false };
        assert(r@.votes =~= Map::empty());
        r
    }

    /// The match as reconstructed so far; polls are not yet in its log.
    pub fn borrow_output(&self) -> (r: &MatchState)
        ensures
            r@ == self@.state,
    {
        &self.state
    }

    /// Resolves `key` to a stable user identifier. Where no participant is
    /// found, `ins` becomes a new participant at the end of the collection;
    /// where one is found, nothing changes.
    pub fn stable_user(&mut self, key: &UserKey, ins: UserInfo) -> (id: StableUserId)
        ensures
            id == user_ref(resolved(old(self)@.state.users, key@)),
            id.0 as int == resolved(old(self)@.state.users, key@),
            id.0 < final(self)@.state.users.len(),
            final(self)@ == old(self)@.with_state(old(self)@.state.resolving(key@, ins@)),
    {
        match lookup_user(&self.state.users, key) {
            Some(i) => StableUserId(i),
            None => {
                let idx = self.state.users.len();
                self.state.users.push(ins);
                assert(self@.state.users =~= old(self)@.state.users.push(ins@));
                StableUserId(idx)
            },
        }
    }

    /// Appends an event to the log.
    fn log(&mut self, tick: u32, value: MatchEventType)
        ensures
            final(self)@ == old(self)@.with_state(old(self)@.state.logged(tick, value@)),
    {
        let event = MatchEvent { tick, value };
        self.state.events.push(event);
        assert(self@.state.events =~= old(self)@.state.events.push(event@));
    }

    /// Records a class transition of the participant `id`.
    fn record_class(&mut self, id: StableUserId, tick: u32, class: Class)
        requires
            id.0 < old(self)@.state.users.len(),
        ensures
            final(self)@ == old(self)@.with_state(
                old(self)@.state.touching(
                    id.0 as int,
                    old(self)@.state.users[id.0 as int].with_class(tick, class),
                ),
            ),
    {
        self.state.users[id.0].last_class = Some(class);
        self.state.users[id.0].class_switches.push((tick, class));
        assert(self@.state.users =~= old(self)@.state.users.update(
            id.0 as int,
            old(self)@.state.users[id.0 as int].with_class(tick, class),
        ));
    }

    /// Records a team transition of the participant `id`.
    fn record_team(&mut self, id: StableUserId, tick: u32, team: Team)
        requires
            id.0 < old(self)@.state.users.len(),
        ensures
            final(self)@ == old(self)@.with_state(
                old(self)@.state.touching(
                    id.0 as int,
                    old(self)@.state.users[id.0 as int].with_team(tick, team),
                ),
            ),
    {
        self.state.users[id.0].last_team = Some(team);
        self.state.users[id.0].team_switches.push((tick, team));
        assert(self@.state.users =~= old(self)@.state.users.update(
            id.0 as int,
            old(self)@.state.users[id.0 as int].with_team(tick, team),
        ));
    }

    /// Records that the participant `id` joined or left.
    fn record_connection(&mut self, id: StableUserId, tick: u32, kind: ConnectionEventType)
        requires
            id.0 < old(self)@.state.users.len(),
        ensures
            final(self)@ == old(self)@.with_state(
                old(self)@.state.touching(
                    id.0 as int,
                    old(self)@.state.users[id.0 as int].with_connection(tick, kind@),
                ),
            ),
    {
        let ghost before = self.state.users@[id.0 as int]@;
        self.state.users[id.0].connection_events.push((tick, kind));
        assert(self.state.users@[id.0 as int]@.connection_events =~= before.connection_events.push(
            (tick, kind@),
        ));
        assert(self@.state.users =~= old(self)@.state.users.update(
            id.0 as int,
            old(self)@.state.users[id.0 as int].with_connection(tick, kind@),
        ));
    }

    /// Records the slot and the entity handle that the participant `id` was
    /// seen with.
    fn locate(&mut self, id: StableUserId, user_id: u16, entity_id: u32)
        requires
            id.0 < old(self)@.state.users.len(),
        ensures
            final(self)@ == old(self)@.with_state(
                old(self)@.state.touching(
                    id.0 as int,
                    old(self)@.state.users[id.0 as int].located(user_id, entity_id),
                ),
            ),
    {
        self.state.users[id.0].entity_id = Some(entity_id);
        self.state.users[id.0].user_id = user_id;
        assert(self@.state.users =~= old(self)@.state.users.update(
            id.0 as int,
            old(self)@.state.users[id.0 as int].located(user_id, entity_id),
        ));
    }
}

impl Analyser {
    /// Whether the analyser reads messages of this type at all.
    pub fn does_handle(message_type: MessageType) -> (r: bool)
        ensures
            r == (message_type == MessageType::GameEvent || message_type
                == MessageType::UserMessage || message_type == MessageType::ServerInfo
                || message_type == MessageType::NetTick),
    {
        match message_type {
            MessageType::GameEvent
            | MessageType::UserMessage
            | MessageType::ServerInfo
            | MessageType::NetTick => true,
            _ => false,
        }
    }

    /// Folds one message, which came at `tick`, into the match.
    pub fn handle_message(&mut self, message: &Message, tick: u32)
        ensures
            final(self)@ == old(self)@.after_message(*message, tick),
    {
        self.state.end_tick = tick;
        match message {
            Message::NetTick(server_tick) => {
                if !self.started {
                    self.state.start_tick = *server_tick;
                    self.started = true;
                }
            },
            Message::ServerInfo(info) => {
                self.state.server_info = info.clone();
            },
            Message::GameEvent(event) => self.handle_event(event, tick),
            Message::UserMessage(m) => self.handle_user_message(m, tick),
            Message::Other => {},
        }
    }

    /// Folds one user message into the match.
    pub fn handle_user_message(&mut self, message: &UserMessage, tick: u32)
        ensures
            final(self)@ == old(self)@.with_state(
                old(self)@.state.after_user_message(*message, tick),
            ),
    {
        match message {
            UserMessage::SayText2(text_message) => {
                let plain = stripped_text(text_message);
                self.handle_say_text(text_message, plain, tick);
            },
            UserMessage::Text(text_message) => {
                if text_message.location == HudTextLocation::PrintTalk {
                    self.log(tick, MatchEventType::Chat(ChatMessage::from_text(text_message)));
                }
            },
            UserMessage::Other => {},
        }
    }

    /// Folds one chat line into the match, `plain` being its text without
    /// colour codes.
    pub fn handle_say_text(&mut self, message: &SayText2Message, plain: String, tick: u32)
        ensures
            final(self)@ == old(self)@.with_state(
                old(self)@.state.after_say_text(*message, plain@, tick),
            ),
    {
        let team = match find_user(&self.state.users, &UserCriterion::Entity(message.client)) {
            Some(i) => Some(
                match self.state.users[i].last_team {
                    Some(team) => team,
                    None => Team::Other,
                },
            ),
            None => None,
        };
        if message.kind == ChatMessageKind::NameChange {
            match &message.from {
                Some(from) => self.change_name(from.clone(), plain),
                None => {},
            }
        } else {
            self.log(
                tick,
                MatchEventType::Chat(ChatMessage::said(message.kind, &message.from, plain, team)),
            );
        }
    }

    /// Gives the first participant called `from` the name `to`.
    pub fn change_name(&mut self, from: String, to: String)
        ensures
            final(self)@ == old(self)@.with_state(old(self)@.state.after_rename(from@, to@)),
    {
        match find_user(&self.state.users, &UserCriterion::Name(from)) {
            Some(i) => {
                self.state.users[i].name = Some(to);
                assert(self@.state.users =~= old(self)@.state.users.update(
                    i as int,
                    old(self)@.state.users[i as int].renamed(to@),
                ));
            },
            None => {},
        }
    }

    /// Folds one game event into the match.
    pub fn handle_event(&mut self, event: &GameEvent, tick: u32)
        ensures
            final(self)@ == old(self)@.after_event(*event, tick),
    {
        match event {
            GameEvent::PlayerDeath(event) => {
                let value = MatchEventType::Kill(Death::from_event(event, self));
                self.log(tick, value);
            },
            GameEvent::TeamPlayRoundWin(event) => {
                if event.win_reason != WIN_REASON_TIME_LIMIT {
                    self.log(tick, MatchEventType::RoundEnd(Round::from(event)));
                }
            },
            GameEvent::PlayerSpawn(spawn) => self.handle_spawn(spawn, tick),
            GameEvent::VoteCast(cast) => self.handle_vote_cast(cast, tick),
            GameEvent::VoteOptions(options) => self.handle_vote_options(options, tick),
            GameEvent::PlayerConnectClient(conn) => self.handle_connect(conn, tick),
            GameEvent::PlayerDisconnect(discon) => self.handle_disconnect(discon, tick),
            GameEvent::PlayerChangeClass(c) => self.handle_change_class(c, tick),
            GameEvent::Other => {},
        }
    }

    /// Folds one spawn record into the match.
    fn handle_spawn(&mut self, spawn: &PlayerSpawnEvent, tick: u32)
        ensures
            final(self)@ == old(self)@.with_state(old(self)@.state.after_spawn(*spawn, tick)),
    {
        let class = Class::from_raw(spawn.class);
        let team = Team::from_raw(spawn.team);
        let suid = self.stable_user(
            &UserKey::Slot(spawn.user_id),
            UserInfo::with_slot(spawn.user_id),
        );
        let new_class = match self.state.users[suid.0].last_class {
            Some(c) => c != class,
            None => true,
        };
        if new_class {
            self.record_class(suid, tick, class);
            self.log(tick, MatchEventType::ClassSwitch(suid, class));
        }
        assert(self@.state.users.len() == self.state.users@.len());
        let new_team = match self.state.users[suid.0].last_team {
            Some(t) => t != team,
            None => true,
        };
        if new_team {
            self.record_team(suid, tick, team);
            self.log(tick, MatchEventType::TeamSwitch(suid, team));
        }
    }

    /// Folds one class-change record into the match.
    fn handle_change_class(&mut self, c: &PlayerChangeClassEvent, tick: u32)
        ensures
            final(self)@ == old(self)@.with_state(old(self)@.state.after_change_class(*c, tick)),
    {
        let class = Class::from_raw(c.class);
        let suid = self.stable_user(&UserKey::Slot(c.user_id), UserInfo::with_slot(c.user_id));
        self.record_class(suid, tick, class);
    }

    /// Folds one connect record into the match.
    fn handle_connect(&mut self, conn: &PlayerConnectClientEvent, tick: u32)
        ensures
            final(self)@ == old(self)@.with_state(old(self)@.state.after_connect(*conn, tick)),
    {
        let key = UserKey::of_identity(&conn.network_id, &conn.name, conn.user_id);
        let suid = self.stable_user(
            &key,
            UserInfo::with_identity(conn.user_id, &conn.network_id, &conn.name),
        );
        let c = ConnectionEvent::from_conn(conn, suid);
        self.record_connection(suid, tick, c.value.clone());
        self.log(tick, MatchEventType::Connection(c));
    }

    /// Folds one disconnect record into the match.
    fn handle_disconnect(&mut self, discon: &PlayerDisconnectEvent, tick: u32)
        ensures
            final(self)@ == old(self)@.with_state(
                old(self)@.state.after_disconnect(*discon, tick),
            ),
    {
        let key = UserKey::of_identity(&discon.network_id, &discon.name, discon.user_id);
        let suid = self.stable_user(
            &key,
            UserInfo::with_identity(discon.user_id, &discon.network_id, &discon.name),
        );
        let c = ConnectionEvent::from_dc(discon, suid);
        self.record_connection(suid, tick, c.value.clone());
        self.log(tick, MatchEventType::Connection(c));
    }

    /// Folds the announcement of a poll's options into the match.
    fn handle_vote_options(&mut self, options: &VoteOptionsEvent, tick: u32)
        ensures
            final(self)@ == (AnalyserView {
                votes: after_vote_options(old(self)@.votes, *options, tick),
                ..old(self)@
            }),
    {
        if !self.votes.contains_key(&options.voteidx) {
            let vote = Vote::announced(tick, announced_options(options));
            self.votes.insert(options.voteidx, vote);
            assert(self@.votes =~= old(self)@.votes.insert(options.voteidx, vote@));
        }
    }

    /// Folds one ballot into the match.
    fn handle_vote_cast(&mut self, cast: &VoteCastEvent, tick: u32)
        ensures
            final(self)@ == (AnalyserView {
                votes: after_vote_cast(old(self)@.votes, old(self)@.state.users, *cast, tick),
                ..old(self)@
            }),
    {
        let voter = match find_user(&self.state.users, &UserCriterion::Entity(cast.entity_id)) {
            Some(i) => Some(
                match &self.state.users[i].name {
                    Some(name) => name.clone(),
                    None => String::new(),
                },
            ),
            None => None,
        };
        match self.votes.remove(&cast.voteidx) {
            Some(mut vote) => {
                let ghost before = vote@;
                if (cast.vote_option as usize) < vote.options.len() {
                    vote.cast(voter, Team::from_raw(cast.team), cast.vote_option as usize, tick);
                }
                self.votes.insert(cast.voteidx, vote);
                assert(self@.votes =~= old(self)@.votes.insert(cast.voteidx, vote@));
                assert(old(self)@.votes.insert(cast.voteidx, before) =~= old(self)@.votes);
            },
            None => {
                assert(self@.votes =~= old(self)@.votes);
            },
        }
    }

    /// Reads an entry of the player directory and folds the participant
    /// that it describes into the match. An entry that cannot be read, or
    /// that describes nobody, changes nothing.
    pub fn parse_user_info(
        &mut self,
        index: usize,
        text: Option<&str>,
        data: Option<&Vec<u8>>,
    ) -> (r: Result<(), UserInfoError>)
        ensures
            r == match entry_outcome(entry_slot(index), opt_str(text), opt_bytes(data)) {
                Ok(_) => Ok::<(), UserInfoError>(()),
                Err(e) => Err::<(), UserInfoError>(e),
            },
            final(self)@ == old(self)@.after_entry_outcome(
                entry_outcome(entry_slot(index), opt_str(text), opt_bytes(data)),
            ),
    {
        match read_entry((index % 65536) as u16, text, data) {
            Ok(Some(user_info)) => {
                self.apply_user_entry(&user_info);
                Ok(())
            },
            Ok(None) => Ok(()),
            Err(e) => Err(e),
        }
    }

    /// Folds one entry of a string table into the match: an entry of the
    /// player directory is read, and every other one is passed over.
    pub fn handle_string_entry(
        &mut self,
        table: &str,
        index: usize,
        text: Option<&str>,
        data: Option<&Vec<u8>>,
    )
        ensures
            final(self)@ == old(self)@.after_string_entry(
                table@,
                index,
                opt_str(text),
                opt_bytes(data),
            ),
    {
        if table.to_string() == "userinfo".to_string() {
            let _ = self.parse_user_info(index, text, data);
        }
    }

    /// Finishes the match: every poll is spliced into the log at its start
    /// tick, behind the events up to that tick, from the least poll index to
    /// the greatest.
    pub fn into_output(self) -> (r: MatchState)
        ensures
            self@.votes.dom().finite(),
            r@ == self@.finalized(),
    {
        proof {
            self.lemma_polls_finite();
        }
        let mut state = self.state;
        let mut votes = self.votes;
        loop
            invariant
                state@.users == self@.state.users,
                state@.server_info == self@.state.server_info,
                state@.start_tick == self@.state.start_tick,
                state@.end_tick == self@.state.end_tick,
                spliced(state@.events, vote_views(votes@)) == spliced(
                    self@.state.events,
                    self@.votes,
                ),
            ensures
                state@ == self@.finalized(),
            decreases votes@.dom().len(),
        {
            let ghost pending = vote_views(votes@);
            let ghost log = state@.events;
            match pop_first(&mut votes) {
                Some((k, vote)) => {
                    proof {
                        assert(pending.dom() =~= votes@.dom().insert(k));
                        lemma_least(pending.dom(), k);
                        assert(vote_views(votes@) =~= pending.remove(k));
                    }
                    let at = insertion_index(&state.events, vote.start_tick);
                    let event = MatchEvent {
                        tick: vote.start_tick,
                        value: MatchEventType::VoteStarted(vote),
                    };
                    state.events.insert(at, event);
                    assert(state@.events =~= with_vote(log, pending[k]));
                },
                None => {
                    assert(pending.dom() =~= Set::empty());
                    break ;
                },
            }
        }
        state
    }

    /// Folds one entry of the player directory into the match.
    pub fn apply_user_entry(&mut self, entry: &PlayerEntry)
        ensures
            final(self)@ == old(self)@.with_state(old(self)@.state.after_user_entry(entry@)),
    {
        let key = UserKey::of_identity(&entry.steam_id, &entry.name, entry.user_id);
        let suid = self.stable_user(&key, UserInfo::from_entry(entry));
        self.locate(suid, entry.user_id, entry.entity_id);
    }
}

/// Takes the poll with the least index out of `votes`, with
/// `BTreeMap::pop_first`: nothing where there is no poll, else the least
/// index with its poll, which the map then no longer holds.
#[verifier::external_body]
fn pop_first(votes: &mut BTreeMap<u32, Vote>) -> (r: Option<(u32, Vote)>)
    ensures
        match r {
            Some((k, vote)) => {
                &&& old(votes)@.contains_key(k)
                &&& old(votes)@[k] == vote
                &&& forall|j: u32| old(votes)@.contains_key(j) ==> k <= j
                &&& final(votes)@ == old(votes)@.remove(k)
            },
            None => old(votes)@.dom() == Set::<u32>::empty() && final(votes)@ == old(votes)@,
        },
{
    votes.pop_first()
}

/// Where a poll that started at `tick` goes into the log: the index of the
/// first event later than `tick`, and the length of the log where no event
/// is later.
pub fn insertion_index(events: &Vec<MatchEvent>, tick: u32) -> (r: usize)
    ensures
        r == insertion_point(event_views(events@), tick),
        r <= events.len(),
{
    let mut i: usize = 0;
    while i < events.len()
        invariant
            i <= events.len(),
            forall|j: int| 0 <= j < i ==> (#[trigger] event_views(events@)[j]).tick <= tick,
        decreases events.len() - i,
    {
        if events[i].tick > tick {
            proof {
                assert(event_views(events@)[i as int].tick > tick);
                lemma_first_after(event_views(events@), tick);
            }
            return i;
        }
        i += 1;
    }
    proof {
        lemma_first_after(event_views(events@), tick);
    }
    events.len()
}

impl Death {
    /// The kill that a death record reports. Its participants are resolved
    /// by slot, and those not seen before are added to the analyser's users.
    pub fn from_event(event: &PlayerDeathEvent, analyser: &mut Analyser) -> (r: Death)
        ensures
            r@ == death_of(old(analyser)@.state.users, *event).1,
            final(analyser)@ == old(analyser)@.with_state(
                old(analyser)@.state.with_users(death_of(old(analyser)@.state.users, *event).0),
            ),
    {
        let assister = if event.assister < NO_ASSISTER {
            Some(
                analyser.stable_user(
                    &UserKey::Slot(event.assister),
                    UserInfo::with_slot(event.assister),
                ),
            )
        } else {
            None
        };
        let killer = if event.attacker == 0 {
            None
        } else {
            Some(
                analyser.stable_user(
                    &UserKey::Slot(event.attacker),
                    UserInfo::with_slot(event.attacker),
                ),
            )
        };
        let victim = analyser.stable_user(
            &UserKey::Slot(event.user_id),
            UserInfo::with_slot(event.user_id),
        );
        Death {
            assister,
            killer,
            weapon: event.weapon.clone(),
            victim,
            crit_type: CritType::from_raw(event.crit_type),
            domination: (event.death_flags & TF_DEATH_DOMINATION) != 0,
            revenge: (event.death_flags & TF_DEATH_REVENGE) != 0,
            assist_dom: (event.death_flags & TF_DEATH_ASSISTER_DOMINATION) != 0,
            assist_revg: (event.death_flags & TF_DEATH_ASSISTER_REVENGE) != 0,
            deadringer: (event.death_flags & TF_DEATH_FEIGN_DEATH) != 0,
        }
    }
}

} // verus!
