//! Small value types shared by the input records and the match state.

use vstd::prelude::*;

verus! {

/// Side that a participant plays on.
#[derive(Clone, Copy, Debug, PartialEq, Eq, Hash, Structural)]
pub enum Team {
    Other,
    Spectator,
    Red,
    Blue,
}

/// Playable class.
#[derive(Clone, Copy, Debug, PartialEq, Eq, Hash, Structural)]
pub enum Class {
    Other,
    Scout,
    Sniper,
    Soldier,
    Demoman,
    Medic,
    Heavy,
    Pyro,
    Spy,
    Engineer,
}

/// Channel that a chat line was sent on.
#[derive(Clone, Copy, Debug, PartialEq, Eq, Structural)]
pub enum ChatMessageKind {
    ChatAll,
    ChatTeam,
    ChatAllDead,
    ChatTeamDead,
    ChatAllSpec,
    NameChange,
    Empty,
}

/// Place on the screen that a server text message is printed to.
#[derive(Clone, Copy, Debug, PartialEq, Eq, Structural)]
pub enum HudTextLocation {
    PrintNotify,
    PrintConsole,
    PrintTalk,
    PrintCenter,
}

/// How critical the killing hit was.
#[derive(Clone, Copy, Debug, PartialEq, Eq, Structural)]
pub enum CritType {
    NoCrit,
    Mini,
    Full,
    Unknown(u16),
}

/// Index of a participant in the user collection of a match. It is given out
/// once, when the participant is first seen, and never refers to anyone else.
#[derive(Clone, Copy, Debug, PartialEq, Eq, PartialOrd, Ord, Structural)]
pub struct StableUserId(pub usize);

/// The team that the game's team number `raw` stands for.
pub open spec fn team_of(raw: u16) -> Team {
    if raw == 1 {
        Team::Spectator
    } else if raw == 2 {
        Team::Red
    } else if raw == 3 {
        Team::Blue
    } else {
        Team::Other
    }
}

/// The class that the game's class number `raw` stands for.
pub open spec fn class_of(raw: u16) -> Class {
    if raw == 1 {
        Class::Scout
    } else if raw == 2 {
        Class::Sniper
    } else if raw == 3 {
        Class::Soldier
    } else if raw == 4 {
        Class::Demoman
    } else if raw == 5 {
        Class::Medic
    } else if raw == 6 {
        Class::Heavy
    } else if raw == 7 {
        Class::Pyro
    } else if raw == 8 {
        Class::Spy
    } else if raw == 9 {
        Class::Engineer
    } else {
        Class::Other
    }
}

/// The crit type that the numeric field of a death record stands for.
pub open spec fn crit_type_of(raw: u16) -> CritType {
    if raw == 0 {
        CritType::NoCrit
    } else if raw == 1 {
        CritType::Mini
    } else if raw == 2 {
        CritType::Full
    } else {
        CritType::Unknown(raw)
    }
}

/// The name that a team is shown under.
pub open spec fn team_name(team: Team) -> Seq<char> {
    match team {
        Team::Other => "Other"@,
        Team::Spectator => "Spectator"@,
        Team::Red => "Red"@,
        Team::Blue => "Blue"@,
    }
}

impl Default for Team {
    fn default() -> (r: Team)
        ensures
            r == Team::Other,
    {
        Team::Other
    }
}

impl Default for Class {
    fn default() -> (r: Class)
        ensures
            r == Class::Other,
    {
        Class::Other
    }
}

impl Default for CritType {
    fn default() -> (r: CritType)
        ensures
            r == CritType::NoCrit,
    {
        CritType::NoCrit
    }
}

impl Default for StableUserId {
    fn default() -> (r: StableUserId)
        ensures
            r == StableUserId(0),
    {
        StableUserId(0)
    }
}

impl From<usize> for StableUserId {
    fn from(value: usize) -> (r: StableUserId)
        ensures
            r == StableUserId(value),
    {
        StableUserId(value)
    }
}

impl vstd::std_specs::convert::FromSpecImpl<usize> for StableUserId {
    open spec fn obeys_from_spec() -> bool {
        true
    }

    open spec fn from_spec(value: usize) -> StableUserId {
        StableUserId(value)
    }
}

impl StableUserId {
    /// The position of the participant in the user collection.
    pub fn index(&self) -> (r: usize)
        ensures
            r == self.0,
    {
        self.0
    }
}

impl Team {
    /// Decodes a team number with `Team::new` of the demo parser: 1 is the
    /// spectators, 2 red, 3 blue; every other number, also one that does not
    /// fit in a byte, gives `Other`.
    #[verifier::external_body]
    pub(crate) fn from_raw(raw: u16) -> (r: Team)
        ensures
            r == team_of(raw),
    {
        match tf_demo_parser::demo::parser::analyser::Team::new(raw) {
            tf_demo_parser::demo::parser::analyser::Team::Other => Team::Other,
            tf_demo_parser::demo::parser::analyser::Team::Spectator => Team::Spectator,
            tf_demo_parser::demo::parser::analyser::Team::Red => Team::Red,
            tf_demo_parser::demo::parser::analyser::Team::Blue => Team::Blue,
        }
    }

    /// Formats a team with the `Display` impl that the demo parser gives its
    /// `Team`: each team is printed as the name of its variant.
    #[verifier::external_body]
    pub(crate) fn display_name(self) -> (r: String)
        ensures
            r@ == team_name(self),
    {
        match self {
            Team::Other => tf_demo_parser::demo::parser::analyser::Team::Other,
            Team::Spectator => tf_demo_parser::demo::parser::analyser::Team::Spectator,
            Team::Red => tf_demo_parser::demo::parser::analyser::Team::Red,
            Team::Blue => tf_demo_parser::demo::parser::analyser::Team::Blue,
        }.to_string()
    }
}

impl Class {
    /// Decodes a class number with `Class::new` of the demo parser: 1 to 9
    /// are the nine classes in the game's order; every other number, also one
    /// that does not fit in a byte, gives `Other`.
    #[verifier::external_body]
    pub(crate) fn from_raw(raw: u16) -> (r: Class)
        ensures
            r == class_of(raw),
    {
        match tf_demo_parser::demo::parser::analyser::Class::new(raw) {
            tf_demo_parser::demo::parser::analyser::Class::Other => Class::Other,
            tf_demo_parser::demo::parser::analyser::Class::Scout => Class::Scout,
            tf_demo_parser::demo::parser::analyser::Class::Sniper => Class::Sniper,
            tf_demo_parser::demo::parser::analyser::Class::Soldier => Class::Soldier,
            tf_demo_parser::demo::parser::analyser::Class::Demoman => Class::Demoman,
            tf_demo_parser::demo::parser::analyser::Class::Medic => Class::Medic,
            tf_demo_parser::demo::parser::analyser::Class::Heavy => Class::Heavy,
            tf_demo_parser::demo::parser::analyser::Class::Pyro => Class::Pyro,
            tf_demo_parser::demo::parser::analyser::Class::Spy => Class::Spy,
            tf_demo_parser::demo::parser::analyser::Class::Engineer => Class::Engineer,
        }
    }
}

impl CritType {
    /// Classifies the numeric crit type of a death record.
    pub fn from_raw(raw: u16) -> (r: CritType)
        ensures
            r == crit_type_of(raw),
    {
        if raw == 0 {
            CritType::NoCrit
        } else if raw == 1 {
            CritType::Mini
        } else if raw == 2 {
            CritType::Full
        } else {
            CritType::Unknown(raw)
        }
    }
}

} // verus!
