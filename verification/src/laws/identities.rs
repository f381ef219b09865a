//! Laws of identity resolution: participants stay who they are.

use crate::directory::entry_outcome;
use crate::identity::{
    bot_id, first_meeting, identity_key, lemma_first_meeting, lemma_first_meeting_is,
    lemma_lookup_in_range, resolved, with_user, Criterion, UserKeyView,
};
use crate::model::{entry_slot, AnalyserView, Input};
use crate::records::{GameEvent, Message, PlayerConnectClientEvent, UserMessage};
use crate::state::{opt_text, MatchStateView, UserInfoView};
use vstd::prelude::*;

verus! {

/// Every participant of `before` is still there in `after`, at the same
/// index and with the same account identifier.
pub open spec fn keeps_identities(before: Seq<UserInfoView>, after: Seq<UserInfoView>) -> bool {
    &&& before.len() <= after.len()
    &&& forall|i: int|
        0 <= i < before.len() ==> (#[trigger] after[i]).steam_id == before[i].steam_id
}

/// A game event keeps the participants there are and their identifiers.
pub proof fn lemma_event_keeps_identities(a: AnalyserView, event: GameEvent, tick: u32)
    ensures
        keeps_identities(a.state.users, a.after_event(event, tick).state.users),
{
    let users = a.state.users;
    match event {
        GameEvent::PlayerSpawn(ev) => {
            lemma_lookup_in_range(users, UserKeyView::Slot(ev.user_id));
        },
        GameEvent::PlayerConnectClient(ev) => {
            lemma_lookup_in_range(users, identity_key(ev.network_id@, ev.name@, ev.user_id));
        },
        GameEvent::PlayerDisconnect(ev) => {
            lemma_lookup_in_range(users, identity_key(ev.network_id@, ev.name@, ev.user_id));
        },
        GameEvent::PlayerChangeClass(ev) => {
            lemma_lookup_in_range(users, UserKeyView::Slot(ev.user_id));
        },
        _ => {},
    }
}

/// A message keeps the participants there are and their identifiers.
pub proof fn lemma_message_keeps_identities(a: AnalyserView, message: Message, tick: u32)
    ensures
        keeps_identities(a.state.users, a.after_message(message, tick).state.users),
{
    let b = a.with_state(MatchStateView { end_tick: tick, ..a.state });
    match message {
        Message::GameEvent(event) => {
            lemma_event_keeps_identities(b, event, tick);
        },
        Message::UserMessage(UserMessage::SayText2(m)) => {
            lemma_first_meeting(a.state.users, Criterion::Name(opt_text(m.from).unwrap()));
        },
        _ => {},
    }
}

/// An entry of a string table keeps the participants there are and their
/// identifiers.
pub proof fn lemma_string_entry_keeps_identities(
    a: AnalyserView,
    table: Seq<char>,
    index: usize,
    text: Option<Seq<char>>,
    data: Option<Seq<u8>>,
)
    ensures
        keeps_identities(
            a.state.users,
            a.after_string_entry(table, index, text, data).state.users,
        ),
{
    match entry_outcome(entry_slot(index), text, data) {
        Ok(Some(entry)) => {
            lemma_lookup_in_range(
                a.state.users,
                identity_key(entry.steam_id, entry.name, entry.user_id),
            );
        },
        _ => {},
    }
}

/// Whatever is fed keeps the participants there are and their identifiers.
pub proof fn lemma_inputs_keep_identities(a: AnalyserView, inputs: Seq<Input>)
    ensures
        keeps_identities(a.state.users, a.fed_all(inputs).state.users),
    decreases inputs.len(),
{
    if inputs.len() > 0 {
        let before = a.fed_all(inputs.drop_last());
        lemma_inputs_keep_identities(a, inputs.drop_last());
        match inputs.last() {
            Input::Message { message, tick } => {
                lemma_message_keeps_identities(before, message, tick);
            },
            Input::StringEntry { table, index, text, data } => {
                lemma_string_entry_keeps_identities(before, table, index, text, data);
            },
        }
    }
}

/// Identity stability. A record with the account identifier `steam_id`,
/// which is not that of the bots, resolves to a participant. However the
/// user collection changes afterwards, as long as it keeps its participants
/// and their identifiers, which every record sees to, a later record with
/// the same identifier resolves to the same participant, whatever display
/// name and slot it carries.
///
/// This is stated for a first record that found the participant by the
/// identifier or created them with it. A first record that only found a
/// namesake leaves no trace of the identifier.
pub proof fn law_identity_stability(
    users: Seq<UserInfoView>,
    steam_id: Seq<char>,
    name: Seq<char>,
    user_id: u16,
    fallback: UserInfoView,
    later: Seq<UserInfoView>,
    later_name: Seq<char>,
    later_user_id: u16,
)
    requires
        steam_id != bot_id(),
        fallback.steam_id == Some(steam_id),
        first_meeting(users, Criterion::SteamId(steam_id)) is Some || first_meeting(
            users,
            Criterion::Name(name),
        ) is None,
        keeps_identities(with_user(users, identity_key(steam_id, name, user_id), fallback), later),
    ensures
        resolved(later, identity_key(steam_id, later_name, later_user_id)) == resolved(
            users,
            identity_key(steam_id, name, user_id),
        ),
{
    let c = Criterion::SteamId(steam_id);
    let key = identity_key(steam_id, name, user_id);
    let id = resolved(users, key);
    lemma_first_meeting(users, c);
    lemma_first_meeting_is(later, c, id);
}

/// Identity stability. Two connect records with the same account
/// identifier, which is not that of the bots, resolve to the same
/// participant, whatever is fed between them and whatever names and slots
/// the two carry.
///
/// This is stated for a first record that found the participant by the
/// identifier or created them with it. A first record that only found a
/// namesake, a participant with the record's display name and another
/// identifier, leaves no trace of its own identifier.
pub proof fn law_same_account_same_user(
    a: AnalyserView,
    first: PlayerConnectClientEvent,
    first_tick: u32,
    between: Seq<Input>,
    second: PlayerConnectClientEvent,
)
    requires
        first.network_id@ != bot_id(),
        second.network_id@ == first.network_id@,
        first_meeting(a.state.users, Criterion::SteamId(first.network_id@)) is Some
            || first_meeting(a.state.users, Criterion::Name(first.name@)) is None,
    ensures
        resolved(
            a.with_state(a.state.after_connect(first, first_tick)).fed_all(between).state.users,
            identity_key(second.network_id@, second.name@, second.user_id),
        ) == resolved(
            a.state.users,
            identity_key(first.network_id@, first.name@, first.user_id),
        ),
{
    let key = identity_key(first.network_id@, first.name@, first.user_id);
    let fallback = UserInfoView::named(first.user_id, first.network_id@, first.name@);
    let then = a.with_state(a.state.after_connect(first, first_tick));
    lemma_lookup_in_range(a.state.users, key);
    lemma_inputs_keep_identities(then, between);
    law_identity_stability(
        a.state.users,
        first.network_id@,
        first.name@,
        first.user_id,
        fallback,
        then.fed_all(between).state.users,
        second.name@,
        second.user_id,
    );
}

/// Bot disambiguation. Two connect records of bots in different slots, one
/// fed after the other, resolve to different participants.
pub proof fn law_bots_told_apart(
    state: MatchStateView,
    first: PlayerConnectClientEvent,
    first_tick: u32,
    second: PlayerConnectClientEvent,
)
    requires
        first.network_id@ == bot_id(),
        second.network_id@ == bot_id(),
        first.user_id != second.user_id,
    ensures
        resolved(
            state.after_connect(first, first_tick).users,
            identity_key(second.network_id@, second.name@, second.user_id),
        ) != resolved(state.users, identity_key(first.network_id@, first.name@, first.user_id)),
{
    let c1 = Criterion::Slot(first.user_id);
    let c2 = Criterion::Slot(second.user_id);
    let after = state.after_connect(first, first_tick).users;
    lemma_first_meeting(state.users, c1);
    lemma_first_meeting(after, c2);
}

} // verus!
