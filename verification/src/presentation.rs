//! How the events of a match are presented: which kinds are listed, and the
//! prefixes and colours they are shown with.

use crate::state::MatchEventType;
use crate::types::{ChatMessageKind, Team};
use vstd::prelude::*;

verus! {

/// One kind of event that the list can show or hide.
#[derive(Clone, Copy, Debug, PartialEq, Eq, Structural)]
pub enum EventListFilterChange {
    Chat,
    Deaths,
    Rounds,
    Connections,
    Votes,
    Team,
    Class,
}

/// Which kinds of events the list shows.
#[derive(Clone, Copy, Debug, PartialEq, Eq, Structural)]
pub struct EventListFilter {
    pub show_chat: bool,
    pub show_deaths: bool,
    pub show_rounds: bool,
    pub show_connections: bool,
    pub show_votes: bool,
    pub show_team: bool,
    pub show_class: bool,
}

impl EventListFilter {
    /// The filter of a fresh list: chat only.
    pub open spec fn chat_only() -> EventListFilter {
        EventListFilter {
            show_chat: true,
            show_deaths: false,
            show_rounds: false,
            show_connections: false,
            show_votes: false,
            show_team: false,
            show_class: false,
        }
    }

    /// The filter with the kind `change` switched over.
    pub open spec fn toggled(self, change: EventListFilterChange) -> EventListFilter {
        match change {
            EventListFilterChange::Chat => EventListFilter { show_chat: !self.show_chat, ..self },
            EventListFilterChange::Deaths => EventListFilter {
                show_deaths: !self.show_deaths,
                ..self
            },
            EventListFilterChange::Rounds => EventListFilter {
                show_rounds: !self.show_rounds,
                ..self
            },
            EventListFilterChange::Connections => EventListFilter {
                show_connections: !self.show_connections,
                ..self
            },
            EventListFilterChange::Votes => EventListFilter {
                show_votes: !self.show_votes,
                ..self
            },
            EventListFilterChange::Team => EventListFilter { show_team: !self.show_team, ..self },
            EventListFilterChange::Class => EventListFilter {
                show_class: !self.show_class,
                ..self
            },
        }
    }

    /// Whether the filter lets an event of this kind through.
    pub open spec fn shows(self, event: MatchEventType) -> bool {
        match event {
            MatchEventType::Chat(_) => self.show_chat,
            MatchEventType::ClassSwitch(_, _) => self.show_class,
            MatchEventType::Connection(_) => self.show_connections,
            MatchEventType::Kill(_) => self.show_deaths,
            MatchEventType::RoundEnd(_) => self.show_rounds,
            MatchEventType::TeamSwitch(_, _) => self.show_team,
            MatchEventType::VoteStarted(_) => self.show_votes,
        }
    }

    /// The filter of a fresh list.
    pub fn new() -> (r: EventListFilter)
        ensures
            r == EventListFilter::chat_only(),
    {
        EventListFilter {
            show_chat: true,
            show_deaths: false,
            show_rounds: false,
            show_connections: false,
            show_votes: false,
            show_team: false,
            show_class: false,
        }
    }

    /// Goes back to showing chat only.
    pub fn reset(&mut self)
        ensures
            *final(self) == EventListFilter::chat_only(),
    {
        self.show_chat = true;
        self.show_deaths = false;
        self.show_rounds = false;
        self.show_connections = false;
        self.show_votes = false;
        self.show_team = false;
        self.show_class = false;
    }

    /// Switches one kind of event over.
    pub fn toggle(&mut self, change: EventListFilterChange)
        ensures
            *final(self) == old(self).toggled(change),
    {
        match change {
            EventListFilterChange::Chat => self.show_chat = !self.show_chat,
            EventListFilterChange::Deaths => self.show_deaths = !self.show_deaths,
            EventListFilterChange::Rounds => self.show_rounds = !self.show_rounds,
            EventListFilterChange::Connections => self.show_connections = !self.show_connections,
            EventListFilterChange::Votes => self.show_votes = !self.show_votes,
            EventListFilterChange::Team => self.show_team = !self.show_team,
            EventListFilterChange::Class => self.show_class = !self.show_class,
        }
    }

    /// Whether the filter lets `event` through.
    pub fn matches(&self, event: &MatchEventType) -> (r: bool)
        ensures
            r == self.shows(*event),
    {
        match event {
            MatchEventType::Chat(_) => self.show_chat,
            MatchEventType::ClassSwitch(_, _) => self.show_class,
            MatchEventType::Connection(_) => self.show_connections,
            MatchEventType::Kill(_) => self.show_deaths,
            MatchEventType::RoundEnd(_) => self.show_rounds,
            MatchEventType::TeamSwitch(_, _) => self.show_team,
            MatchEventType::VoteStarted(_) => self.show_votes,
        }
    }
}

/// Switching a kind over twice leaves the filter as it was.
pub proof fn law_toggle_twice(filter: EventListFilter, change: EventListFilterChange)
    ensures
        filter.toggled(change).toggled(change) == filter,
{
}

/// What a chat line of the kind `kind` is prefixed with.
pub open spec fn kind_prefix(kind: ChatMessageKind) -> Seq<char> {
    match kind {
        ChatMessageKind::ChatAll => ""@,
        ChatMessageKind::ChatTeam => "(Team) "@,
        ChatMessageKind::ChatAllDead => "*DEAD* "@,
        ChatMessageKind::ChatTeamDead => "(Team) *DEAD* "@,
        ChatMessageKind::ChatAllSpec => "*SPEC* "@,
        ChatMessageKind::NameChange => "[Name Change] "@,
        ChatMessageKind::Empty => ""@,
    }
}

/// The colour that a team is shown in, on a dark or a light background.
pub open spec fn team_color(team: Option<Team>, dark: bool) -> Seq<char> {
    match team {
        Some(Team::Red) => "#e04a4a"@,
        Some(Team::Blue) => if dark {
            "#6aaef7"@
        } else {
            "#3449d1"@
        },
        _ => "#848484"@,
    }
}

/// What a chat line of the kind `kind` is prefixed with.
pub fn get_message_kind_prefix(kind: &ChatMessageKind) -> (r: &'static str)
    ensures
        r@ == kind_prefix(*kind),
{
    match kind {
        ChatMessageKind::ChatAll => "",
        ChatMessageKind::ChatTeam => "(Team) ",
        ChatMessageKind::ChatAllDead => "*DEAD* ",
        ChatMessageKind::ChatTeamDead => "(Team) *DEAD* ",
        ChatMessageKind::ChatAllSpec => "*SPEC* ",
        ChatMessageKind::NameChange => "[Name Change] ",
        ChatMessageKind::Empty => "",
    }
}

/// The colour that a team is shown in, on a dark or a light background.
pub fn get_team_color_string(team: Option<&Team>, dark: bool) -> (r: &'static str)
    ensures
        r@ == team_color(
            match team {
                Some(t) => Some(*t),
                None => None,
            },
            dark,
        ),
{
    match team {
        Some(t) => match t {
            Team::Spectator | Team::Other => "#848484",
            Team::Red => "#e04a4a",
            Team::Blue => {
                if dark {
                    "#6aaef7"
                } else {
                    "#3449d1"
                }
            },
        },
        None => "#848484",
    }
}

} // verus!
