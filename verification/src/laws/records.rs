//! Laws of single records: spawns, round wins and ballots.

use crate::identity::{
    lemma_first_meeting, lemma_first_meeting_is, lookup, resolved, Criterion, UserKeyView,
};
use crate::model::{user_ref, WIN_REASON_TIME_LIMIT};
use crate::records::{PlayerSpawnEvent, TeamPlayRoundWinEvent};
use crate::state::{MatchEventTypeView, MatchEventView, MatchStateView, Round, VoteTeam, VoteView};
use crate::types::{class_of, team_of, Team};
use vstd::prelude::*;

verus! {

/// After a spawn record the participant is on record with the record's
/// class and team, and is whom the record's slot resolves to.
proof fn lemma_spawned(state: MatchStateView, ev: PlayerSpawnEvent, tick: u32)
    ensures
        ({
            let id = resolved(state.users, UserKeyView::Slot(ev.user_id));
            let after = state.after_spawn(ev, tick);
            &&& lookup(after.users, UserKeyView::Slot(ev.user_id)) == Some(id)
            &&& after.users[id].last_class == Some(class_of(ev.class))
            &&& after.users[id].last_team == Some(team_of(ev.team))
        }),
{
    let key = UserKeyView::Slot(ev.user_id);
    let c = Criterion::Slot(ev.user_id);
    let id = resolved(state.users, key);
    let after = state.after_spawn(ev, tick);
    lemma_first_meeting(state.users, c);
    lemma_first_meeting_is(after.users, c, id);
}

/// Dedup of spawn-driven switches. A spawn record that follows one of the
/// same participant with the same class and team changes nothing: no class
/// switch and no team switch is logged or recorded.
pub proof fn law_repeated_spawn_changes_nothing(
    state: MatchStateView,
    first: PlayerSpawnEvent,
    first_tick: u32,
    second: PlayerSpawnEvent,
    tick: u32,
)
    requires
        second.user_id == first.user_id,
        class_of(second.class) == class_of(first.class),
        team_of(second.team) == team_of(first.team),
    ensures
        state.after_spawn(first, first_tick).after_spawn(second, tick) == state.after_spawn(
            first,
            first_tick,
        ),
{
    lemma_spawned(state, first, first_tick);
}

/// Dedup of spawn-driven switches. A spawn record that follows one of the
/// same participant with the same class and another team logs exactly one
/// event, the team switch, and no class switch.
pub proof fn law_spawn_on_other_team_switches_team_only(
    state: MatchStateView,
    first: PlayerSpawnEvent,
    first_tick: u32,
    second: PlayerSpawnEvent,
    tick: u32,
)
    requires
        second.user_id == first.user_id,
        class_of(second.class) == class_of(first.class),
        team_of(second.team) != team_of(first.team),
    ensures
        state.after_spawn(first, first_tick).after_spawn(second, tick).events
            == state.after_spawn(first, first_tick).events.push(
            MatchEventView {
                tick,
                value: MatchEventTypeView::TeamSwitch(
                    user_ref(resolved(state.users, UserKeyView::Slot(first.user_id))),
                    team_of(second.team),
                ),
            },
        ),
{
    lemma_spawned(state, first, first_tick);
}

/// Dedup of spawn-driven switches, from any state. A spawn record of a
/// participant who is on record with the record's class and with another
/// team logs exactly one event, the team switch, and changes nothing but
/// that participant's team and team history. With the record's team on
/// record too, it changes nothing at all.
///
/// The participant is the one that the record's slot resolves to: the first
/// in the collection with that slot. A later one with the same slot is not
/// whom the record is taken to speak of.
pub proof fn law_spawn_of_known_participant(
    state: MatchStateView,
    i: int,
    ev: PlayerSpawnEvent,
    tick: u32,
)
    requires
        0 <= i < state.users.len(),
        state.users[i].user_id == ev.user_id,
        forall|j: int| 0 <= j < i ==> (#[trigger] state.users[j]).user_id != ev.user_id,
        state.users[i].last_class == Some(class_of(ev.class)),
    ensures
        state.users[i].last_team == Some(team_of(ev.team)) ==> state.after_spawn(ev, tick)
            == state,
        state.users[i].last_team != Some(team_of(ev.team)) ==> {
            let after = state.after_spawn(ev, tick);
            &&& after == state.touching(
                i,
                state.users[i].with_team(tick, team_of(ev.team)),
            ).logged(tick, MatchEventTypeView::TeamSwitch(user_ref(i), team_of(ev.team)))
            &&& after.events == state.events.push(
                MatchEventView {
                    tick,
                    value: MatchEventTypeView::TeamSwitch(user_ref(i), team_of(ev.team)),
                },
            )
            &&& after.users.len() == state.users.len()
            &&& after.users[i].last_team == Some(team_of(ev.team))
            &&& after.users[i].last_class == state.users[i].last_class
            &&& after.users[i].class_switches == state.users[i].class_switches
            &&& forall|j: int|
                0 <= j < state.users.len() && j != i ==> #[trigger] after.users[j]
                    == state.users[j]
        },
{
    lemma_first_meeting_is(state.users, Criterion::Slot(ev.user_id), i);
}

/// Round suppression. A round-win record whose reason is the time limit
/// changes nothing; a record with any other reason logs exactly one event,
/// the outcome of the round.
pub proof fn law_round_suppression(state: MatchStateView, ev: TeamPlayRoundWinEvent, tick: u32)
    ensures
        ev.win_reason == WIN_REASON_TIME_LIMIT ==> state.after_round_win(ev, tick) == state,
        ev.win_reason != WIN_REASON_TIME_LIMIT ==> state.after_round_win(ev, tick).events
            == state.events.push(
            MatchEventView { tick, value: MatchEventTypeView::RoundEnd(Round::of_event(ev)) },
        ),
{
}

/// How wide a team scope is.
pub open spec fn scope_width(scope: VoteTeam) -> nat {
    match scope {
        VoteTeam::Unknown => 0,
        VoteTeam::One(_) => 1,
        VoteTeam::Both => 2,
    }
}

/// Vote scope widening. Two ballots for a poll without a ballot so far give
/// it the scope of their team where they come from the same team, and the
/// scope of both teams where they do not.
pub proof fn law_two_ballots_scope(
    vote: VoteView,
    first_voter: Option<Seq<char>>,
    first_team: Team,
    first_option: usize,
    first_tick: u32,
    second_voter: Option<Seq<char>>,
    second_team: Team,
    second_option: usize,
    second_tick: u32,
)
    requires
        vote.team == VoteTeam::Unknown,
    ensures
        vote.cast(first_voter, first_team, first_option, first_tick).cast(
            second_voter,
            second_team,
            second_option,
            second_tick,
        ).team == (if first_team == second_team {
            VoteTeam::One(first_team)
        } else {
            VoteTeam::Both
        }),
{
}

/// Vote scope widening. A ballot never narrows the team scope of a poll.
pub proof fn law_scope_never_narrows(
    vote: VoteView,
    voter: Option<Seq<char>>,
    team: Team,
    option: usize,
    tick: u32,
)
    ensures
        scope_width(vote.cast(voter, team, option, tick).team) >= scope_width(vote.team),
        vote.team == VoteTeam::Both ==> vote.cast(voter, team, option, tick).team
            == VoteTeam::Both,
{
}

} // verus!
