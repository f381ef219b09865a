//! Identity resolution: finding the participant that a record speaks of.

use crate::state::{user_views, UserInfo, UserInfoView};
use vstd::prelude::*;

verus! {

/// One property by which a participant is looked for.
pub enum Criterion {
    /// The slot number.
    Slot(u16),
    /// The account identifier.
    SteamId(Seq<char>),
    /// The display name.
    Name(Seq<char>),
    /// The entity handle.
    Entity(u32),
}

/// Whether the participant `u` has the property `c`.
pub open spec fn meets(u: UserInfoView, c: Criterion) -> bool {
    match c {
        Criterion::Slot(id) => u.user_id == id,
        Criterion::SteamId(s) => u.steam_id == Some(s),
        Criterion::Name(n) => u.name == Some(n),
        Criterion::Entity(e) => u.entity_id == Some(e),
    }
}

/// Index of the first participant with the property `c`, if there is one.
pub open spec fn first_meeting(users: Seq<UserInfoView>, c: Criterion) -> Option<int>
    decreases users.len(),
{
    if users.len() == 0 {
        None
    } else {
        match first_meeting(users.drop_last(), c) {
            Some(i) => Some(i),
            None => if meets(users.last(), c) {
                Some(users.len() - 1)
            } else {
                None
            },
        }
    }
}

/// `first_meeting` gives the least index whose participant has the property,
/// and nothing exactly when no participant has it.
pub proof fn lemma_first_meeting(users: Seq<UserInfoView>, c: Criterion)
    ensures
        match first_meeting(users, c) {
            Some(i) => {
                &&& 0 <= i < users.len()
                &&& meets(users[i], c)
                &&& forall|j: int| 0 <= j < i ==> !meets(#[trigger] users[j], c)
            },
            None => forall|j: int| 0 <= j < users.len() ==> !meets(#[trigger] users[j], c),
        },
    decreases users.len(),
{
    if users.len() > 0 {
        let front = users.drop_last();
        lemma_first_meeting(front, c);
        assert(forall|j: int| 0 <= j < front.len() ==> front[j] == users[j]);
    }
}

/// The least index whose participant has the property is what
/// `first_meeting` gives.
pub proof fn lemma_first_meeting_is(users: Seq<UserInfoView>, c: Criterion, i: int)
    requires
        0 <= i < users.len(),
        meets(users[i], c),
        forall|j: int| 0 <= j < i ==> !meets(#[trigger] users[j], c),
    ensures
        first_meeting(users, c) == Some(i),
{
    lemma_first_meeting(users, c);
}

/// The key under which a record's participant is resolved.
pub enum UserKeyView {
    /// By slot number alone: the key of bots and of records without an
    /// account identifier.
    Slot(u16),
    /// By account identifier, and failing that by display name.
    Account { steam_id: Seq<char>, name: Seq<char> },
}

/// Index of the participant that `key` resolves to, if one is known.
pub open spec fn lookup(users: Seq<UserInfoView>, key: UserKeyView) -> Option<int> {
    match key {
        UserKeyView::Slot(id) => first_meeting(users, Criterion::Slot(id)),
        UserKeyView::Account { steam_id, name } => match first_meeting(
            users,
            Criterion::SteamId(steam_id),
        ) {
            Some(i) => Some(i),
            None => first_meeting(users, Criterion::Name(name)),
        },
    }
}

/// Index that `key` resolves to: that of the participant found, or the index
/// that a new participant gets.
pub open spec fn resolved(users: Seq<UserInfoView>, key: UserKeyView) -> int {
    match lookup(users, key) {
        Some(i) => i,
        None => users.len() as int,
    }
}

/// The user collection after `key` was resolved: `fallback` is appended where
/// no participant was found, and nothing changes where one was.
pub open spec fn with_user(
    users: Seq<UserInfoView>,
    key: UserKeyView,
    fallback: UserInfoView,
) -> Seq<UserInfoView> {
    if lookup(users, key) is Some {
        users
    } else {
        users.push(fallback)
    }
}

/// The participant that a key resolves to is one of the collection.
pub proof fn lemma_lookup_in_range(users: Seq<UserInfoView>, key: UserKeyView)
    ensures
        lookup(users, key) matches Some(i) ==> 0 <= i < users.len(),
        0 <= resolved(users, key) <= users.len(),
        resolved(users, key) < with_user(users, key, UserInfoView::blank(0)).len(),
{
    match key {
        UserKeyView::Slot(id) => {
            lemma_first_meeting(users, Criterion::Slot(id));
        },
        UserKeyView::Account { steam_id, name } => {
            lemma_first_meeting(users, Criterion::SteamId(steam_id));
            lemma_first_meeting(users, Criterion::Name(name));
        },
    }
}

/// The account identifier that all bots share.
pub open spec fn bot_id() -> Seq<char> {
    "BOT"@
}

/// The key of a record that carries the account identifier `steam_id`, the
/// display name `name` and the slot `user_id`: bots are told apart by their
/// slot, everyone else is known by their account.
pub open spec fn identity_key(steam_id: Seq<char>, name: Seq<char>, user_id: u16) -> UserKeyView {
    if steam_id == bot_id() {
        UserKeyView::Slot(user_id)
    } else {
        UserKeyView::Account { steam_id, name }
    }
}

/// Executable form of a [`Criterion`].
pub enum UserCriterion {
    Slot(u16),
    SteamId(String),
    Name(String),
    Entity(u32),
}

impl View for UserCriterion {
    type V = Criterion;

    open spec fn view(&self) -> Criterion {
        match self {
            UserCriterion::Slot(id) => Criterion::Slot(*id),
            UserCriterion::SteamId(s) => Criterion::SteamId(s@),
            UserCriterion::Name(n) => Criterion::Name(n@),
            UserCriterion::Entity(e) => Criterion::Entity(*e),
        }
    }
}

/// Executable form of a [`UserKeyView`].
pub enum UserKey {
    Slot(u16),
    Account { steam_id: String, name: String },
}

impl View for UserKey {
    type V = UserKeyView;

    open spec fn view(&self) -> UserKeyView {
        match self {
            UserKey::Slot(id) => UserKeyView::Slot(*id),
            UserKey::Account { steam_id, name } => UserKeyView::Account {
                steam_id: steam_id@,
                name: name@,
            },
        }
    }
}

/// An index as the contracts count it.
pub open spec fn as_index(i: Option<usize>) -> Option<int> {
    match i {
        Some(i) => Some(i as int),
        None => None,
    }
}

/// Whether an optional text is present and equal to `text`.
fn holds_text(field: &Option<String>, text: &String) -> (r: bool)
    ensures
        r == (crate::state::opt_text(*field) == Some(text@)),
{
    match field {
        Some(s) => *s == *text,
        None => false,
    }
}

impl UserCriterion {
    /// Whether `user` has this property.
    pub fn meets(&self, user: &UserInfo) -> (r: bool)
        ensures
            r == meets(user@, self@),
    {
        match self {
            UserCriterion::Slot(id) => user.user_id == *id,
            UserCriterion::SteamId(s) => holds_text(&user.steam_id, s),
            UserCriterion::Name(n) => holds_text(&user.name, n),
            UserCriterion::Entity(e) => match user.entity_id {
                Some(x) => x == *e,
                None => false,
            },
        }
    }
}

impl UserKey {
    /// The key of a record that carries these three identifiers.
    pub fn of_identity(steam_id: &String, name: &String, user_id: u16) -> (r: UserKey)
        ensures
            r@ == identity_key(steam_id@, name@, user_id),
    {
        let bot = "BOT".to_string();
        if *steam_id == bot {
            UserKey::Slot(user_id)
        } else {
            UserKey::Account { steam_id: steam_id.clone(), name: name.clone() }
        }
    }
}

/// Finds the first participant with the property `c`.
pub fn find_user(users: &Vec<UserInfo>, c: &UserCriterion) -> (r: Option<usize>)
    ensures
        as_index(r) == first_meeting(user_views(users@), c@),
        r matches Some(i) ==> i < users.len(),
{
    let mut i: usize = 0;
    while i < users.len()
        invariant
            i <= users.len(),
            forall|j: int| 0 <= j < i ==> !meets(#[trigger] user_views(users@)[j], c@),
        decreases users.len() - i,
    {
        if c.meets(&users[i]) {
            proof {
                lemma_first_meeting_is(user_views(users@), c@, i as int);
            }
            return Some(i);
        }
        i += 1;
    }
    proof {
        lemma_first_meeting(user_views(users@), c@);
    }
    None
}

/// Finds the participant that `key` resolves to.
pub fn lookup_user(users: &Vec<UserInfo>, key: &UserKey) -> (r: Option<usize>)
    ensures
        as_index(r) == lookup(user_views(users@), key@),
        r matches Some(i) ==> i < users.len(),
{
    match key {
        UserKey::Slot(id) => find_user(users, &UserCriterion::Slot(*id)),
        UserKey::Account { steam_id, name } => {
            match find_user(users, &UserCriterion::SteamId(steam_id.clone())) {
                Some(i) => Some(i),
                None => find_user(users, &UserCriterion::Name(name.clone())),
            }
        },
    }
}

} // verus!
