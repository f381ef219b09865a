//! Laws of well-formedness: what every event and every poll has in every
//! state that the analyser can get into.

use crate::identity::{identity_key, lemma_lookup_in_range, UserKeyView};
use crate::laws::identities::{lemma_message_keeps_identities, lemma_string_entry_keeps_identities};
use crate::model::{death_of, NO_ASSISTER, replayed, slot_resolved, AnalyserView, Input};
use crate::records::{GameEvent, Message, PlayerDeathEvent};
use crate::state::{MatchEventTypeView, MatchStateView, UserInfoView, VoteView};
use crate::types::Team;
use vstd::prelude::*;

verus! {

/// The participants that an event refers to are among the first `n`.
pub open spec fn refers_within(value: MatchEventTypeView, n: int) -> bool {
    match value {
        MatchEventTypeView::Kill(kill) => {
            &&& kill.victim.0 < n
            &&& kill.killer matches Some(killer) ==> killer.0 < n
            &&& kill.assister matches Some(assister) ==> assister.0 < n
        },
        MatchEventTypeView::Connection(connection) => connection.user.0 < n,
        MatchEventTypeView::TeamSwitch(user, _) => user.0 < n,
        MatchEventTypeView::ClassSwitch(user, _) => user.0 < n,
        _ => true,
    }
}

/// Every event of the log refers to participants of the user collection.
pub open spec fn references_valid(state: MatchStateView) -> bool {
    forall|i: int|
        0 <= i < state.events.len() ==> refers_within(
            (#[trigger] state.events[i]).value,
            state.users.len() as int,
        )
}

/// Every ballot of every poll chooses one of the poll's options.
pub open spec fn polls_well_formed(votes: Map<u32, VoteView>) -> bool {
    forall|k: u32| votes.contains_key(k) ==> (#[trigger] votes[k]).wf()
}

/// The kill of a death record refers to participants of the user collection
/// that resolving them gives.
pub proof fn lemma_death_refers_within(users: Seq<UserInfoView>, ev: PlayerDeathEvent)
    requires
        death_of(users, ev).0.len() <= usize::MAX,
    ensures
        refers_within(
            MatchEventTypeView::Kill(death_of(users, ev).1),
            death_of(users, ev).0.len() as int,
        ),
{
    let u1 = if ev.assister < NO_ASSISTER {
        slot_resolved(users, ev.assister).0
    } else {
        users
    };
    let u2 = if ev.attacker == 0 {
        u1
    } else {
        slot_resolved(u1, ev.attacker).0
    };
    lemma_lookup_in_range(users, UserKeyView::Slot(ev.assister));
    lemma_lookup_in_range(u1, UserKeyView::Slot(ev.attacker));
    lemma_lookup_in_range(u2, UserKeyView::Slot(ev.user_id));
}

/// A message keeps every reference of the log within the user collection.
pub proof fn law_message_keeps_references(a: AnalyserView, message: Message, tick: u32)
    requires
        references_valid(a.state),
        a.after_message(message, tick).state.users.len() <= usize::MAX,
    ensures
        references_valid(a.after_message(message, tick).state),
{
    let b = a.after_message(message, tick);
    lemma_message_keeps_identities(a, message, tick);
    assert forall|i: int| 0 <= i < b.state.events.len() implies refers_within(
        (#[trigger] b.state.events[i]).value,
        b.state.users.len() as int,
    ) by {
        if i >= a.state.events.len() {
            match message {
                Message::GameEvent(GameEvent::PlayerDeath(ev)) => {
                    lemma_death_refers_within(a.state.users, ev);
                },
                Message::GameEvent(GameEvent::PlayerSpawn(ev)) => {
                    lemma_lookup_in_range(a.state.users, UserKeyView::Slot(ev.user_id));
                },
                Message::GameEvent(GameEvent::PlayerConnectClient(ev)) => {
                    lemma_lookup_in_range(
                        a.state.users,
                        identity_key(ev.network_id@, ev.name@, ev.user_id),
                    );
                },
                Message::GameEvent(GameEvent::PlayerDisconnect(ev)) => {
                    lemma_lookup_in_range(
                        a.state.users,
                        identity_key(ev.network_id@, ev.name@, ev.user_id),
                    );
                },
                _ => {},
            }
        }
    }
}

/// An entry of a string table keeps every reference of the log within the
/// user collection.
pub proof fn law_string_entry_keeps_references(
    a: AnalyserView,
    table: Seq<char>,
    index: usize,
    text: Option<Seq<char>>,
    data: Option<Seq<u8>>,
)
    requires
        references_valid(a.state),
    ensures
        references_valid(a.after_string_entry(table, index, text, data).state),
{
    lemma_string_entry_keeps_identities(a, table, index, text, data);
}

/// A ballot that chooses one of the poll's options keeps the poll well
/// formed.
pub proof fn law_ballot_keeps_poll_well_formed(
    vote: VoteView,
    voter: Option<Seq<char>>,
    team: Team,
    option: usize,
    tick: u32,
)
    requires
        vote.wf(),
        option < vote.options.len(),
    ensures
        vote.cast(voter, team, option, tick).wf(),
        vote.cast(voter, team, option, tick).options == vote.options,
        vote.cast(voter, team, option, tick).start_tick == vote.start_tick,
        vote.cast(voter, team, option, tick).end_tick == tick,
        vote.cast(voter, team, option, tick).votes.len() == vote.votes.len() + 1,
{
}

/// A message keeps the polls well formed.
pub proof fn law_message_keeps_polls_well_formed(a: AnalyserView, message: Message, tick: u32)
    requires
        polls_well_formed(a.votes),
    ensures
        polls_well_formed(a.after_message(message, tick).votes),
{
}

/// What holds of the analyser after any inputs, as long as its users can
/// still be counted: every event refers to participants of the user
/// collection, and every ballot chooses one of its poll's options.
pub proof fn law_replay_well_formed(inputs: Seq<Input>)
    requires
        replayed(inputs).state.users.len() <= usize::MAX,
    ensures
        references_valid(replayed(inputs).state),
        polls_well_formed(replayed(inputs).votes),
    decreases inputs.len(),
{
    if inputs.len() > 0 {
        let a = replayed(inputs.drop_last());
        match inputs.last() {
            Input::Message { message, tick } => {
                lemma_message_keeps_identities(a, message, tick);
                law_replay_well_formed(inputs.drop_last());
                law_message_keeps_references(a, message, tick);
            },
            Input::StringEntry { table, index, text, data } => {
                lemma_string_entry_keeps_identities(a, table, index, text, data);
                law_replay_well_formed(inputs.drop_last());
            },
        }
    }
}

} // verus!
