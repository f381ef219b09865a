//! The vote tracker: one accumulator per poll index, fed by the records that
//! announce a poll's options and cast its ballots.

use crate::records::VoteOptionsEvent;
use crate::state::{texts, Vote, VoteTeam, VoteView};
use crate::types::{team_name, Team};
use std::collections::HashMap;
use vstd::prelude::*;
use vstd::string::StringExecFns;

verus! {

/// The label of the affirmative option.
pub open spec fn yes_label() -> Seq<char> {
    "Yes"@
}

/// The label of the negative option.
pub open spec fn no_label() -> Seq<char> {
    "No"@
}

/// The name recorded for a ballot whose voter is not known.
pub open spec fn unknown_voter() -> Seq<char> {
    "-- Unknown Player --"@
}

/// The issue of a poll whose first ballot, cast by `player` at the poll's
/// start, is negative: the poll is about kicking that player.
pub open spec fn kick_issue(player: Seq<char>) -> Seq<char> {
    "Kick player \""@ + player + "\"?"@
}

/// The labels of `labels` that are not empty, in order.
pub open spec fn keep_nonempty(labels: Seq<Seq<char>>) -> Seq<Seq<char>>
    decreases labels.len(),
{
    if labels.len() == 0 {
        Seq::empty()
    } else if labels.last().len() > 0 {
        keep_nonempty(labels.drop_last()).push(labels.last())
    } else {
        keep_nonempty(labels.drop_last())
    }
}

/// The option labels that an announcement carries.
pub open spec fn option_labels(ev: VoteOptionsEvent) -> Seq<Seq<char>> {
    keep_nonempty(seq![ev.option_1@, ev.option_2@, ev.option_3@, ev.option_4@, ev.option_5@])
}

/// The team scope after a ballot from `caster`: it only ever widens.
pub open spec fn widened(scope: VoteTeam, caster: Team) -> VoteTeam {
    match scope {
        VoteTeam::Unknown => VoteTeam::One(caster),
        VoteTeam::One(team) => if team == caster {
            VoteTeam::One(team)
        } else {
            VoteTeam::Both
        },
        VoteTeam::Both => VoteTeam::Both,
    }
}

/// The text that a team scope is shown as.
pub open spec fn scope_name(scope: VoteTeam) -> Seq<char> {
    match scope {
        VoteTeam::Unknown => "Unknown"@,
        VoteTeam::One(team) => team_name(team),
        VoteTeam::Both => "Both"@,
    }
}

/// The options that the ballots choose, in the order of the ballots.
pub open spec fn chosen(votes: Seq<(u32, Seq<char>, usize)>) -> Seq<usize> {
    votes.map_values(|b: (u32, Seq<char>, usize)| b.2)
}

impl VoteView {
    /// The poll after a ballot for the option `option`, cast at `tick` from
    /// `team`. `voter` is the name of the voter where the voter is known.
    ///
    /// The end of the poll moves to `tick` and the team scope widens. The
    /// ballot of a known voter that is cast at the very tick the poll started
    /// at says more: an affirmative one names the initiator, a negative one
    /// the player that the poll is about.
    pub open spec fn cast(
        self,
        voter: Option<Seq<char>>,
        team: Team,
        option: usize,
        tick: u32,
    ) -> VoteView {
        let counted = VoteView {
            end_tick: tick,
            team: widened(self.team, team),
            votes: self.votes.push(
                (
                    tick,
                    match voter {
                        Some(name) => name,
                        None => unknown_voter(),
                    },
                    option,
                ),
            ),
            ..self
        };
        match voter {
            Some(name) if tick == self.start_tick => {
                if self.options[option as int] == yes_label() {
                    VoteView { initator: Some(name), ..counted }
                } else if self.options[option as int] == no_label() {
                    VoteView { issue: Some(kick_issue(name)), ..counted }
                } else {
                    counted
                }
            },
            _ => counted,
        }
    }

    /// How many ballots chose the option `option`.
    pub open spec fn tally(self, option: usize) -> nat {
        chosen(self.votes).to_multiset().count(option)
    }
}

/// The polls after an announcement at `tick`: a poll index not yet known
/// gets an accumulator, and an announcement for a known one is ignored.
pub open spec fn after_vote_options(
    votes: Map<u32, VoteView>,
    ev: VoteOptionsEvent,
    tick: u32,
) -> Map<u32, VoteView> {
    if votes.contains_key(ev.voteidx) {
        votes
    } else {
        votes.insert(ev.voteidx, VoteView::announced(tick, option_labels(ev)))
    }
}

/// Counts how often each item occurs, with `Itertools::counts`: the map
/// holds exactly the items that occur, each with the number of its
/// occurrences.
#[verifier::external_body]
fn counts(items: &Vec<usize>) -> (r: HashMap<usize, usize>)
    ensures
        forall|k: usize| r@.contains_key(k) <==> items@.contains(k),
        forall|k: usize| r@.contains_key(k) ==> r@[k] == items@.to_multiset().count(k),
{
    itertools::Itertools::counts(items.iter().copied())
}

impl VoteTeam {
    /// The scope after a ballot from `caster`.
    pub fn widen(self, caster: Team) -> (r: VoteTeam)
        ensures
            r == widened(self, caster),
    {
        match self {
            VoteTeam::Unknown => VoteTeam::One(caster),
            VoteTeam::One(team) => if team == caster {
                VoteTeam::One(team)
            } else {
                VoteTeam::Both
            },
            VoteTeam::Both => VoteTeam::Both,
        }
    }

    /// The text that this scope is shown as.
    pub fn to_string(&self) -> (r: String)
        ensures
            r@ == scope_name(*self),
    {
        match self {
            VoteTeam::Unknown => "Unknown".to_string(),
            VoteTeam::One(t) => t.display_name(),
            VoteTeam::Both => "Both".to_string(),
        }
    }
}

/// The option labels that an announcement carries: the non-empty ones of its
/// five fields.
pub fn announced_options(ev: &VoteOptionsEvent) -> (r: Vec<String>)
    ensures
        texts(r@) == option_labels(*ev),
{
    let mut all: Vec<String> = Vec::new();
    all.push(ev.option_1.clone());
    all.push(ev.option_2.clone());
    all.push(ev.option_3.clone());
    all.push(ev.option_4.clone());
    all.push(ev.option_5.clone());
    assert(texts(all@) =~= seq![
        ev.option_1@,
        ev.option_2@,
        ev.option_3@,
        ev.option_4@,
        ev.option_5@,
    ]);
    let mut opts: Vec<String> = Vec::new();
    let mut i: usize = 0;
    while i < all.len()
        invariant
            i <= all.len(),
            texts(opts@) == keep_nonempty(texts(all@).take(i as int)),
        decreases all.len() - i,
    {
        proof {
            let upto = texts(all@).take(i + 1);
            assert(upto.drop_last() =~= texts(all@).take(i as int));
        }
        if !all[i].as_str().is_empty() {
            opts.push(all[i].clone());
        }
        i += 1;
    }
    assert(texts(all@).take(all@.len() as int) =~= texts(all@));
    opts
}

impl Vote {
    /// A poll announced at `tick` with the given options and no ballot yet.
    pub fn announced(tick: u32, options: Vec<String>) -> (r: Vote)
        ensures
            r@ == VoteView::announced(tick, texts(options@)),
    {
        let r = Vote {
            start_tick: tick,
            end_tick: tick,
            team: VoteTeam::Unknown,
            initator: None,
            issue: None,
            options,
            votes: Vec::new(),
        };
        assert(r@.votes =~= Seq::empty());
        r
    }

    /// Records a ballot for the option `option`, cast at `tick` from `team`.
    /// `voter` is the name of the voter where the voter is known.
    pub fn cast(&mut self, voter: Option<String>, team: Team, option: usize, tick: u32)
        requires
            option < old(self).options.len(),
        ensures
            final(self)@ == old(self)@.cast(crate::state::opt_text(voter), team, option, tick),
    {
        let ghost before = self@;
        self.end_tick = tick;
        self.team = self.team.widen(team);
        match voter {
            Some(name) => {
                self.votes.push((tick, name.clone(), option));
                assert(self@.votes =~= before.votes.push((tick, name@, option)));
                if tick == self.start_tick {
                    if self.options[option] == "Yes".to_string() {
                        self.initator = Some(name);
                    } else if self.options[option] == "No".to_string() {
                        let mut issue = "Kick player \"".to_string();
                        issue.append(name.as_str());
                        issue.append("\"?");
                        self.issue = Some(issue);
                    }
                }
            },
            None => {
                self.votes.push((tick, "-- Unknown Player --".to_string(), option));
                assert(self@.votes =~= before.votes.push((tick, unknown_voter(), option)));
            },
        }
    }

    /// How many ballots each option received: the map holds the index of
    /// every option that was chosen at least once, with the number of
    /// ballots that chose it.
    pub fn result(&self) -> (r: HashMap<usize, usize>)
        ensures
            forall|k: usize| r@.contains_key(k) <==> chosen(self@.votes).contains(k),
            forall|k: usize| r@.contains_key(k) ==> r@[k] == self@.tally(k),
    {
        let mut picks: Vec<usize> = Vec::new();
        let mut i: usize = 0;
        while i < self.votes.len()
            invariant
                i <= self.votes.len(),
                picks@ == chosen(self@.votes).take(i as int),
            decreases self.votes.len() - i,
        {
            picks.push(self.votes[i].2);
            i += 1;
        }
        assert(chosen(self@.votes).take(self.votes.len() as int) =~= chosen(self@.votes));
        counts(&picks)
    }
}

} // verus!
