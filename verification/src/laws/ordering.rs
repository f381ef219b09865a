//! Laws of the event log: its order in time and what finalization adds.

use crate::model::{
    insertion_point,
    least,
    lemma_first_after,
    lemma_least,
    replayed,
    spliced,
    vote_started,
    with_vote,
    AnalyserView,
    Input,
};
use crate::records::Message;
use crate::state::{MatchEventView, MatchStateView, VoteView};
use vstd::prelude::*;

verus! {

/// The ticks of the log never go back.
pub open spec fn in_order(events: Seq<MatchEventView>) -> bool {
    forall|i: int, j: int|
        0 <= i <= j < events.len() ==> (#[trigger] events[i]).tick <= (#[trigger] events[j]).tick
}

/// The log is in the order of time and does not run ahead of the last tick
/// handled.
pub open spec fn chronological(state: MatchStateView) -> bool {
    &&& in_order(state.events)
    &&& forall|i: int|
        0 <= i < state.events.len() ==> (#[trigger] state.events[i]).tick <= state.end_tick
}

/// No event of the log is the start of a poll.
pub open spec fn no_poll_logged(events: Seq<MatchEventView>) -> bool {
    forall|i: int| 0 <= i < events.len() ==> !((#[trigger] events[i]).value is VoteStarted)
}

/// The events other than the starts of polls are in the order of time.
pub open spec fn ordered_apart_from_polls(events: Seq<MatchEventView>) -> bool {
    forall|i: int, j: int|
        0 <= i <= j < events.len() && !((#[trigger] events[i]).value is VoteStarted) && !((
        #[trigger] events[j]).value is VoteStarted) ==> events[i].tick <= events[j].tick
}

/// `after` is `before` followed by events at `tick`, none of them the start
/// of a poll.
pub open spec fn appended_at(
    before: Seq<MatchEventView>,
    after: Seq<MatchEventView>,
    tick: u32,
) -> bool {
    &&& before.len() <= after.len()
    &&& forall|i: int| 0 <= i < before.len() ==> (#[trigger] after[i]) == before[i]
    &&& forall|i: int|
        before.len() <= i < after.len() ==> (#[trigger] after[i]).tick == tick && !(
        after[i].value is VoteStarted)
}

/// A message only appends to the log, and what it appends are events at its
/// tick other than starts of polls.
pub proof fn law_message_only_appends(a: AnalyserView, message: Message, tick: u32)
    ensures
        appended_at(a.state.events, a.after_message(message, tick).state.events, tick),
        a.after_message(message, tick).state.end_tick == tick,
{
}

/// An entry of a string table leaves the log and the last tick as they are.
pub proof fn law_string_entry_leaves_log(
    a: AnalyserView,
    table: Seq<char>,
    index: usize,
    text: Option<Seq<char>>,
    data: Option<Seq<u8>>,
)
    ensures
        a.after_string_entry(table, index, text, data).state.events == a.state.events,
        a.after_string_entry(table, index, text, data).state.end_tick == a.state.end_tick,
{
}

/// Event log ordering. A message that does not come before the last tick
/// handled keeps the log in the order of time and free of polls.
pub proof fn law_message_keeps_order(a: AnalyserView, message: Message, tick: u32)
    requires
        chronological(a.state),
        no_poll_logged(a.state.events),
        a.state.end_tick <= tick,
    ensures
        chronological(a.after_message(message, tick).state),
        no_poll_logged(a.after_message(message, tick).state.events),
{
}

/// Splicing a poll into a log in the order of time keeps that order.
pub proof fn lemma_with_vote_keeps_order(events: Seq<MatchEventView>, vote: VoteView)
    requires
        in_order(events),
    ensures
        in_order(with_vote(events, vote)),
{
    lemma_first_after(events, vote.start_tick);
}

/// Splicing polls into a log in the order of time keeps that order.
pub proof fn lemma_spliced_keeps_order(events: Seq<MatchEventView>, votes: Map<u32, VoteView>)
    requires
        in_order(events),
        votes.dom().finite(),
    ensures
        in_order(spliced(events, votes)),
    decreases votes.dom().len(),
{
    if votes.dom().len() != 0 {
        let k = least(votes.dom());
        lemma_least(votes.dom(), votes.dom().choose());
        lemma_with_vote_keeps_order(events, votes[k]);
        lemma_spliced_keeps_order(with_vote(events, votes[k]), votes.remove(k));
    }
}

/// Event log ordering. The finished match of an analyser whose log is in
/// the order of time has its whole log in the order of time, the starts of
/// polls included; so the events other than those are in that order too.
pub proof fn law_finished_log_in_order(a: AnalyserView)
    requires
        chronological(a.state),
        a.votes.dom().finite(),
    ensures
        in_order(a.finalized().events),
        ordered_apart_from_polls(a.finalized().events),
{
    lemma_spliced_keeps_order(a.state.events, a.votes);
}

/// Splicing a poll into a log keeps every event of the log and adds the
/// poll's event.
pub proof fn lemma_with_vote_holds(events: Seq<MatchEventView>, vote: VoteView)
    ensures
        with_vote(events, vote).len() == events.len() + 1,
        with_vote(events, vote).contains(vote_started(vote)),
        forall|e: MatchEventView| events.contains(e) ==> with_vote(events, vote).contains(e),
{
    lemma_first_after(events, vote.start_tick);
    let at = insertion_point(events, vote.start_tick);
    let after = with_vote(events, vote);
    assert(after[at] == vote_started(vote));
    assert forall|e: MatchEventView| events.contains(e) implies after.contains(e) by {
        let i = choose|i: int| 0 <= i < events.len() && events[i] == e;
        if i < at {
            assert(after[i] == e);
        } else {
            assert(after[i + 1] == e);
        }
    }
}

/// Finalization. Every poll becomes exactly one event of the finished log:
/// the log grows by the number of polls, holds the event of every poll, and
/// still holds every event it held.
pub proof fn law_every_poll_is_logged(events: Seq<MatchEventView>, votes: Map<u32, VoteView>)
    requires
        votes.dom().finite(),
    ensures
        spliced(events, votes).len() == events.len() + votes.dom().len(),
        forall|k: u32|
            votes.contains_key(k) ==> spliced(events, votes).contains(
                vote_started(#[trigger] votes[k]),
            ),
        forall|e: MatchEventView| events.contains(e) ==> spliced(events, votes).contains(e),
    decreases votes.dom().len(),
{
    if votes.dom().len() != 0 {
        let k0 = least(votes.dom());
        lemma_least(votes.dom(), votes.dom().choose());
        let rest = votes.remove(k0);
        let log = with_vote(events, votes[k0]);
        lemma_with_vote_holds(events, votes[k0]);
        law_every_poll_is_logged(log, rest);
        assert forall|k: u32| votes.contains_key(k) implies spliced(events, votes).contains(
            vote_started(#[trigger] votes[k]),
        ) by {
            if k != k0 {
                assert(rest[k] == votes[k]);
            }
        }
    }
}

/// The ticks of the messages among `inputs` never go back.
pub open spec fn in_time_order(inputs: Seq<Input>) -> bool {
    forall|i: int, j: int|
        0 <= i <= j < inputs.len() && #[trigger] inputs[i] is Message && #[trigger] inputs[j]
            is Message ==> inputs[i]->Message_tick <= inputs[j]->Message_tick
}

/// The last tick handled is that of a message that came, or still 0.
pub open spec fn last_tick_came(inputs: Seq<Input>, tick: u32) -> bool {
    tick == 0 || exists|i: int|
        0 <= i < inputs.len() && #[trigger] inputs[i] is Message && inputs[i]->Message_tick
            == tick
}

/// What holds of the analyser after any inputs whose ticks never go back:
/// its log is in the order of time and free of polls, and its polls are
/// finitely many.
pub proof fn law_replay_invariant(inputs: Seq<Input>)
    requires
        in_time_order(inputs),
    ensures
        chronological(replayed(inputs).state),
        no_poll_logged(replayed(inputs).state.events),
        replayed(inputs).votes.dom().finite(),
        last_tick_came(inputs, replayed(inputs).state.end_tick),
    decreases inputs.len(),
{
    if inputs.len() > 0 {
        law_replay_invariant(inputs.drop_last());
    }
}

/// Event log ordering. The finished match of any inputs whose ticks never go
/// back has its whole log in the order of time, the starts of polls
/// included.
pub proof fn law_replayed_log_in_order(inputs: Seq<Input>)
    requires
        in_time_order(inputs),
    ensures
        in_order(replayed(inputs).finalized().events),
        ordered_apart_from_polls(replayed(inputs).finalized().events),
{
    law_replay_invariant(inputs);
    law_finished_log_in_order(replayed(inputs));
}

} // verus!
