use demoplayer::analyser::Analyser;
use demoplayer::identity::UserKey;
use demoplayer::records::{
    GameEvent, Message, MessageType, PlayerChangeClassEvent, PlayerConnectClientEvent,
    PlayerDeathEvent, PlayerDisconnectEvent, PlayerEntry, PlayerSpawnEvent, SayText2Message,
    TeamPlayRoundWinEvent, TextMessage, UserMessage,
};
use demoplayer::state::{
    ConnectionEventType, MatchEventType, MatchState, Round, ServerInfo, UserInfo,
};
use demoplayer::types::{
    ChatMessageKind, Class, CritType, HudTextLocation, StableUserId, Team,
};

const RED: u16 = 2;
const BLU: u16 = 3;
const SOLDIER: u16 = 3;
const MEDIC: u16 = 5;
const NOBODY: u16 = 65535;

fn connect(slot: u16, id: &str, name: &str) -> Message {
    Message::GameEvent(GameEvent::PlayerConnectClient(PlayerConnectClientEvent {
        name: name.to_string(),
        user_id: slot,
        network_id: id.to_string(),
    }))
}

fn disconnect(slot: u16, id: &str, name: &str, reason: &str) -> Message {
    Message::GameEvent(GameEvent::PlayerDisconnect(PlayerDisconnectEvent {
        user_id: slot,
        reason: reason.to_string(),
        name: name.to_string(),
        network_id: id.to_string(),
    }))
}

fn spawn(slot: u16, team: u16, class: u16) -> Message {
    Message::GameEvent(GameEvent::PlayerSpawn(PlayerSpawnEvent { user_id: slot, team, class }))
}

fn death(victim: u16, attacker: u16, assister: u16, weapon: &str, flags: u16, crit: u16) -> Message {
    Message::GameEvent(GameEvent::PlayerDeath(PlayerDeathEvent {
        user_id: victim,
        attacker,
        assister,
        weapon: weapon.to_string(),
        crit_type: crit,
        death_flags: flags,
    }))
}

fn round_win(team: u8, win_reason: u8, seconds: f32) -> Message {
    Message::GameEvent(GameEvent::TeamPlayRoundWin(TeamPlayRoundWinEvent {
        team,
        win_reason,
        round_time: seconds.to_bits(),
    }))
}

fn say(client: u32, kind: ChatMessageKind, from: Option<&str>, text: &str) -> Message {
    Message::UserMessage(UserMessage::SayText2(SayText2Message {
        client,
        kind,
        from: from.map(|s| s.to_string()),
        text: text.to_string(),
    }))
}

fn server_text(location: HudTextLocation, text: &str, values: [&str; 4]) -> Message {
    Message::UserMessage(UserMessage::Text(TextMessage {
        location,
        text: text.to_string(),
        substitute: [
            values[0].to_string(),
            values[1].to_string(),
            values[2].to_string(),
            values[3].to_string(),
        ],
    }))
}

fn entry(name: &str, slot: u16, steam_id: &str, entity: u32) -> PlayerEntry {
    PlayerEntry {
        name: name.to_string(),
        user_id: slot,
        steam_id: steam_id.to_string(),
        entity_id: entity,
    }
}

fn feed(messages: Vec<(Message, u32)>) -> Analyser {
    let mut analyser = Analyser::new();
    for (message, tick) in &messages {
        analyser.handle_message(message, *tick);
    }
    analyser
}

fn switches(state: &MatchState) -> (usize, usize) {
    let classes = state
        .events
        .iter()
        .filter(|e| matches!(e.value, MatchEventType::ClassSwitch(_, _)))
        .count();
    let teams = state
        .events
        .iter()
        .filter(|e| matches!(e.value, MatchEventType::TeamSwitch(_, _)))
        .count();
    (classes, teams)
}

#[test]
fn new_analyser_is_empty() {
    let analyser = Analyser::new();
    let state = analyser.borrow_output();
    assert!(state.users.is_empty());
    assert!(state.events.is_empty());
    assert_eq!(state.start_tick, 0);
    assert_eq!(state.end_tick, 0);
    assert_eq!(state.server_info, ServerInfo::default());
    assert!(analyser.votes.is_empty());
    assert_eq!(*state, MatchState::default());
}

#[test]
fn only_four_message_types_are_handled() {
    assert!(Analyser::does_handle(MessageType::GameEvent));
    assert!(Analyser::does_handle(MessageType::UserMessage));
    assert!(Analyser::does_handle(MessageType::ServerInfo));
    assert!(Analyser::does_handle(MessageType::NetTick));
    for other in [
        MessageType::Empty,
        MessageType::File,
        MessageType::StringCmd,
        MessageType::SetConVar,
        MessageType::SignOnState,
        MessageType::Print,
        MessageType::ClassInfo,
        MessageType::SetPause,
        MessageType::CreateStringTable,
        MessageType::UpdateStringTable,
        MessageType::VoiceInit,
        MessageType::VoiceData,
        MessageType::ParseSounds,
        MessageType::SetView,
        MessageType::FixAngle,
        MessageType::BspDecal,
        MessageType::EntityMessage,
        MessageType::PacketEntities,
        MessageType::TempEntities,
        MessageType::PreFetch,
        MessageType::Menu,
        MessageType::GameEventList,
        MessageType::GetCvarValue,
        MessageType::CmdKeyValues,
    ] {
        assert!(!Analyser::does_handle(other));
    }
}

#[test]
fn end_to_end_scenario() {
    let info = ServerInfo {
        name: "Test Server".to_string(),
        maxplayers: 24,
        interval_per_tick: 0.015f32.to_bits(),
        platform: "l".to_string(),
        is_stv: false,
    };
    let analyser = feed(vec![
        (Message::ServerInfo(info.clone()), 0),
        (connect(1, "[U:1:100]", "Alice"), 10),
        (spawn(1, RED, SOLDIER), 50),
        (death(1, 0, NOBODY, "world", 0, 0), 120),
    ]);
    let state = analyser.into_output();
    assert_eq!(state.server_info, info);
    assert_eq!(state.end_tick, 120);
    assert_eq!(state.users.len(), 1);
    let alice = &state.users[0];
    assert_eq!(alice.name.as_deref(), Some("Alice"));
    assert_eq!(alice.steam_id.as_deref(), Some("[U:1:100]"));
    assert_eq!(alice.user_id, 1);
    assert_eq!(alice.last_team, Some(Team::Red));
    assert_eq!(alice.last_class, Some(Class::Soldier));
    assert_eq!(alice.class_switches, vec![(50, Class::Soldier)]);
    assert_eq!(alice.team_switches, vec![(50, Team::Red)]);
    assert_eq!(alice.connection_events, vec![(10, ConnectionEventType::Join)]);
    let kills: Vec<_> = state
        .events
        .iter()
        .filter(|e| matches!(e.value, MatchEventType::Kill(_)))
        .collect();
    assert_eq!(kills.len(), 1);
    assert_eq!(kills[0].tick, 120);
    match &kills[0].value {
        MatchEventType::Kill(kill) => {
            assert_eq!(kill.killer, None);
            assert_eq!(kill.assister, None);
            assert_eq!(kill.victim, StableUserId(0));
            assert_eq!(kill.weapon, "world");
            assert_eq!(kill.crit_type, CritType::NoCrit);
        }
        other => panic!("not a kill: {:?}", other),
    }
    let ticks: Vec<u32> = state.events.iter().map(|e| e.tick).collect();
    assert_eq!(ticks, vec![10, 50, 50, 120]);
    assert!(matches!(state.events[0].value, MatchEventType::Connection(_)));
    assert!(matches!(
        state.events[1].value,
        MatchEventType::ClassSwitch(StableUserId(0), Class::Soldier)
    ));
    assert!(matches!(state.events[2].value, MatchEventType::TeamSwitch(StableUserId(0), Team::Red)));
}

#[test]
fn tick_marker_sets_the_start_once() {
    let analyser = feed(vec![
        (Message::NetTick(700), 1),
        (Message::NetTick(800), 2),
        (Message::Other, 3),
    ]);
    let state = analyser.borrow_output();
    assert_eq!(state.start_tick, 700);
    assert_eq!(state.end_tick, 3);
    assert!(state.events.is_empty());
}

#[test]
fn first_tick_marker_counts_even_at_zero() {
    let analyser = feed(vec![(Message::NetTick(0), 1), (Message::NetTick(800), 2)]);
    assert_eq!(analyser.borrow_output().start_tick, 0);
}

#[test]
fn server_info_is_replaced_wholesale() {
    let first = ServerInfo {
        name: "first".to_string(),
        maxplayers: 12,
        interval_per_tick: 1,
        platform: "w".to_string(),
        is_stv: true,
    };
    let second = ServerInfo {
        name: "second".to_string(),
        maxplayers: 32,
        interval_per_tick: 2,
        platform: "l".to_string(),
        is_stv: false,
    };
    let analyser = feed(vec![
        (Message::ServerInfo(first), 0),
        (Message::ServerInfo(second.clone()), 1),
    ]);
    assert_eq!(analyser.borrow_output().server_info, second);
}

#[test]
fn same_account_resolves_to_the_same_user() {
    let mut analyser = feed(vec![
        (connect(4, "[U:1:77]", "Bob"), 10),
        (connect(9, "[U:1:78]", "Carol"), 11),
        (spawn(4, BLU, MEDIC), 20),
        (disconnect(4, "[U:1:77]", "Bob", "timed out"), 30),
        (connect(12, "[U:1:77]", "Bobby"), 400),
    ]);
    let state = analyser.borrow_output();
    assert_eq!(state.users.len(), 2);
    assert_eq!(
        state.users[0].connection_events,
        vec![
            (10, ConnectionEventType::Join),
            (30, ConnectionEventType::Leave("timed out".to_string())),
            (400, ConnectionEventType::Join),
        ]
    );
    let connections: Vec<StableUserId> = state
        .events
        .iter()
        .filter_map(|e| match &e.value {
            MatchEventType::Connection(c) => Some(c.user),
            _ => None,
        })
        .collect();
    assert_eq!(
        connections,
        vec![StableUserId(0), StableUserId(1), StableUserId(0), StableUserId(0)]
    );
    let key = UserKey::of_identity(&"[U:1:77]".to_string(), &"Somebody".to_string(), 31);
    assert_eq!(analyser.stable_user(&key, UserInfo::with_slot(31)), StableUserId(0));
    assert_eq!(analyser.borrow_output().users.len(), 2);
}

#[test]
fn account_goes_before_name() {
    let mut analyser = feed(vec![
        (connect(1, "[U:1:1]", "Twin"), 1),
        (connect(2, "[U:1:2]", "Other"), 2),
    ]);
    // The first user has the name, the second the account: the account wins.
    let key = UserKey::of_identity(&"[U:1:2]".to_string(), &"Twin".to_string(), 7);
    assert_eq!(analyser.stable_user(&key, UserInfo::with_slot(7)), StableUserId(1));
    // An unknown account falls back to the name.
    let key = UserKey::of_identity(&"[U:1:3]".to_string(), &"Twin".to_string(), 7);
    assert_eq!(analyser.stable_user(&key, UserInfo::with_slot(7)), StableUserId(0));
    // Neither known: a new user.
    let key = UserKey::of_identity(&"[U:1:3]".to_string(), &"Nobody".to_string(), 7);
    assert_eq!(analyser.stable_user(&key, UserInfo::with_slot(7)), StableUserId(2));
    assert_eq!(analyser.borrow_output().users.len(), 3);
    assert_eq!(analyser.borrow_output().users[2], UserInfo::with_slot(7));
}

#[test]
fn bots_in_different_slots_are_different_users() {
    let analyser = feed(vec![(connect(3, "BOT", "Tin"), 5), (connect(4, "BOT", "Tin"), 6)]);
    let state = analyser.borrow_output();
    assert_eq!(state.users.len(), 2);
    assert_eq!(state.users[0].user_id, 3);
    assert_eq!(state.users[1].user_id, 4);
    assert_eq!(state.users[0].steam_id.as_deref(), Some("BOT"));
    let users: Vec<StableUserId> = state
        .events
        .iter()
        .filter_map(|e| match &e.value {
            MatchEventType::Connection(c) => Some(c.user),
            _ => None,
        })
        .collect();
    assert_eq!(users, vec![StableUserId(0), StableUserId(1)]);
}

#[test]
fn bot_in_the_same_slot_is_the_same_user() {
    let analyser = feed(vec![
        (connect(3, "BOT", "Tin"), 5),
        (disconnect(3, "BOT", "Tin", "kicked"), 6),
    ]);
    let state = analyser.borrow_output();
    assert_eq!(state.users.len(), 1);
    assert_eq!(state.users[0].connection_events.len(), 2);
}

#[test]
fn repeated_spawn_logs_no_switch() {
    let analyser = feed(vec![(spawn(1, RED, SOLDIER), 10)]);
    let before = analyser.borrow_output().clone();
    assert_eq!(switches(&before), (1, 1));
    let mut analyser = analyser;
    analyser.handle_message(&spawn(1, RED, SOLDIER), 20);
    let after = analyser.borrow_output();
    assert_eq!(switches(after), (1, 1));
    assert_eq!(after.users, before.users);
    assert_eq!(after.events, before.events);
}

#[test]
fn spawn_on_the_other_team_logs_one_team_switch() {
    let mut analyser = feed(vec![(spawn(1, RED, SOLDIER), 10)]);
    analyser.handle_message(&spawn(1, BLU, SOLDIER), 20);
    let state = analyser.borrow_output();
    assert_eq!(switches(state), (1, 2));
    assert_eq!(state.events.len(), 3);
    assert_eq!(state.events[2].tick, 20);
    assert!(matches!(state.events[2].value, MatchEventType::TeamSwitch(StableUserId(0), Team::Blue)));
    assert_eq!(state.users[0].team_switches, vec![(10, Team::Red), (20, Team::Blue)]);
    assert_eq!(state.users[0].class_switches, vec![(10, Class::Soldier)]);
}

#[test]
fn spawn_on_another_team_touches_only_that_user() {
    let mut analyser = feed(vec![
        (spawn(7, BLU, MEDIC), 5),
        (spawn(1, RED, SOLDIER), 10),
        (spawn(9, RED, MEDIC), 15),
    ]);
    let before = analyser.borrow_output().clone();
    analyser.handle_message(&spawn(1, BLU, SOLDIER), 20);
    let after = analyser.borrow_output();
    assert_eq!(after.users.len(), before.users.len());
    assert_eq!(after.users[0], before.users[0]);
    assert_eq!(after.users[2], before.users[2]);
    assert_eq!(after.users[1].last_team, Some(Team::Blue));
    assert_eq!(after.users[1].last_class, before.users[1].last_class);
    assert_eq!(after.users[1].class_switches, before.users[1].class_switches);
    assert_eq!(after.events.len(), before.events.len() + 1);
    assert_eq!(after.events[..before.events.len()], before.events[..]);
    let last = &after.events[before.events.len()];
    assert_eq!(last.tick, 20);
    assert_eq!(last.value, MatchEventType::TeamSwitch(StableUserId(1), Team::Blue));
}

#[test]
fn spawn_with_another_class_logs_one_class_switch() {
    let mut analyser = feed(vec![(spawn(1, RED, SOLDIER), 10)]);
    analyser.handle_message(&spawn(1, RED, MEDIC), 20);
    let state = analyser.borrow_output();
    assert_eq!(switches(state), (2, 1));
    assert!(matches!(
        state.events[2].value,
        MatchEventType::ClassSwitch(StableUserId(0), Class::Medic)
    ));
    assert_eq!(state.users[0].last_class, Some(Class::Medic));
    assert_eq!(state.users[0].class_switches, vec![(10, Class::Soldier), (20, Class::Medic)]);
}

#[test]
fn class_change_is_recorded_every_time() {
    let change = Message::GameEvent(GameEvent::PlayerChangeClass(PlayerChangeClassEvent {
        user_id: 6,
        class: MEDIC,
    }));
    let analyser = feed(vec![(change.clone(), 10), (change, 20)]);
    let state = analyser.borrow_output();
    assert!(state.events.is_empty());
    assert_eq!(state.users.len(), 1);
    assert_eq!(state.users[0].user_id, 6);
    assert_eq!(state.users[0].last_class, Some(Class::Medic));
    assert_eq!(state.users[0].class_switches, vec![(10, Class::Medic), (20, Class::Medic)]);
}

#[test]
fn team_and_class_numbers_are_decoded() {
    let teams = [
        (0, Team::Other),
        (1, Team::Spectator),
        (2, Team::Red),
        (3, Team::Blue),
        (4, Team::Other),
        (258, Team::Other),
    ];
    for (raw, team) in teams {
        let analyser = feed(vec![(spawn(1, raw, 1), 1)]);
        assert_eq!(analyser.borrow_output().users[0].last_team, Some(team));
    }
    let classes = [
        (0, Class::Other),
        (1, Class::Scout),
        (2, Class::Sniper),
        (3, Class::Soldier),
        (4, Class::Demoman),
        (5, Class::Medic),
        (6, Class::Heavy),
        (7, Class::Pyro),
        (8, Class::Spy),
        (9, Class::Engineer),
        (10, Class::Other),
        (259, Class::Other),
    ];
    for (raw, class) in classes {
        let analyser = feed(vec![(spawn(1, 2, raw), 1)]);
        assert_eq!(analyser.borrow_output().users[0].last_class, Some(class));
    }
}

#[test]
fn time_limit_round_is_suppressed() {
    let analyser = feed(vec![(round_win(2, 6, 300.0), 1000)]);
    assert!(analyser.borrow_output().events.is_empty());
}

#[test]
fn other_round_win_logs_one_round_end() {
    for reason in [0u8, 1, 5, 7, 255] {
        let analyser = feed(vec![(round_win(3, reason, 412.5), 1000)]);
        let state = analyser.borrow_output();
        assert_eq!(state.events.len(), 1);
        assert_eq!(state.events[0].tick, 1000);
        assert_eq!(
            state.events[0].value,
            MatchEventType::RoundEnd(Round { winner: Team::Blue, length: 412.5f32.to_bits() })
        );
    }
}

#[test]
fn round_from_event_keeps_winner_and_length() {
    let event = TeamPlayRoundWinEvent { team: 2, win_reason: 1, round_time: 61.25f32.to_bits() };
    let round = Round::from(&event);
    assert_eq!(round.winner, Team::Red);
    assert_eq!(f32::from_bits(round.length), 61.25);
}

#[test]
fn death_flags_are_decoded() {
    let analyser = feed(vec![(death(1, 2, NOBODY, "scattergun", 0x0001 | 0x0004, 0), 10)]);
    match &analyser.borrow_output().events[0].value {
        MatchEventType::Kill(kill) => {
            assert!(kill.domination);
            assert!(kill.revenge);
            assert!(!kill.assist_dom);
            assert!(!kill.assist_revg);
            assert!(!kill.deadringer);
        }
        other => panic!("not a kill: {:?}", other),
    }
}

#[test]
fn each_death_flag_alone() {
    let cases = [
        (0x0001, [true, false, false, false, false]),
        (0x0002, [false, true, false, false, false]),
        (0x0004, [false, false, true, false, false]),
        (0x0008, [false, false, false, true, false]),
        (0x0020, [false, false, false, false, true]),
        (0x0010, [false, false, false, false, false]),
        (0xffff, [true, true, true, true, true]),
    ];
    for (flags, expected) in cases {
        let analyser = feed(vec![(death(1, 2, 3, "x", flags, 0), 10)]);
        match &analyser.borrow_output().events[0].value {
            MatchEventType::Kill(kill) => assert_eq!(
                [
                    kill.domination,
                    kill.assist_dom,
                    kill.revenge,
                    kill.assist_revg,
                    kill.deadringer
                ],
                expected
            ),
            other => panic!("not a kill: {:?}", other),
        }
    }
}

#[test]
fn crit_types_are_classified() {
    let cases = [
        (0, CritType::NoCrit),
        (1, CritType::Mini),
        (2, CritType::Full),
        (3, CritType::Unknown(3)),
        (900, CritType::Unknown(900)),
    ];
    for (raw, expected) in cases {
        assert_eq!(CritType::from_raw(raw), expected);
        let analyser = feed(vec![(death(1, 2, 3, "x", 0, raw), 10)]);
        match &analyser.borrow_output().events[0].value {
            MatchEventType::Kill(kill) => assert_eq!(kill.crit_type, expected),
            other => panic!("not a kill: {:?}", other),
        }
    }
}

#[test]
fn death_resolves_assister_then_killer_then_victim() {
    let analyser = feed(vec![(death(7, 8, 9, "minigun", 0, 0), 10)]);
    let state = analyser.borrow_output();
    let slots: Vec<u16> = state.users.iter().map(|u| u.user_id).collect();
    assert_eq!(slots, vec![9, 8, 7]);
    match &state.events[0].value {
        MatchEventType::Kill(kill) => {
            assert_eq!(kill.assister, Some(StableUserId(0)));
            assert_eq!(kill.killer, Some(StableUserId(1)));
            assert_eq!(kill.victim, StableUserId(2));
        }
        other => panic!("not a kill: {:?}", other),
    }
}

#[test]
fn assister_threshold() {
    let with = feed(vec![(death(1, 2, 16383, "x", 0, 0), 10)]);
    assert_eq!(with.borrow_output().users.len(), 3);
    let without = feed(vec![(death(1, 2, 16384, "x", 0, 0), 10)]);
    assert_eq!(without.borrow_output().users.len(), 2);
    match &without.borrow_output().events[0].value {
        MatchEventType::Kill(kill) => assert_eq!(kill.assister, None),
        other => panic!("not a kill: {:?}", other),
    }
}

#[test]
fn suicide_has_killer_and_victim_alike() {
    let analyser = feed(vec![(death(5, 5, NOBODY, "world", 0, 0), 10)]);
    let state = analyser.borrow_output();
    assert_eq!(state.users.len(), 1);
    match &state.events[0].value {
        MatchEventType::Kill(kill) => {
            assert_eq!(kill.killer, Some(StableUserId(0)));
            assert_eq!(kill.victim, StableUserId(0));
        }
        other => panic!("not a kill: {:?}", other),
    }
}

#[test]
fn chat_line_is_logged_with_the_speakers_team() {
    let mut analyser = Analyser::new();
    analyser.apply_user_entry(&entry("Dora", 2, "[U:1:5]", 17));
    analyser.handle_message(&spawn(2, BLU, MEDIC), 5);
    analyser.handle_message(&say(17, ChatMessageKind::ChatTeam, Some("Dora"), "need a medic"), 9);
    analyser.handle_message(&say(99, ChatMessageKind::ChatAll, None, "who"), 10);
    let state = analyser.borrow_output();
    match &state.events[2].value {
        MatchEventType::Chat(chat) => {
            assert_eq!(chat.kind, ChatMessageKind::ChatTeam);
            assert_eq!(chat.from, "Dora");
            assert_eq!(chat.text, "need a medic");
            assert_eq!(chat.team, Some(Team::Blue));
        }
        other => panic!("not chat: {:?}", other),
    }
    match &state.events[3].value {
        MatchEventType::Chat(chat) => {
            assert_eq!(chat.from, "");
            assert_eq!(chat.text, "who");
            assert_eq!(chat.team, None);
        }
        other => panic!("not chat: {:?}", other),
    }
}

#[test]
fn speaker_without_a_team_counts_as_other() {
    let mut analyser = Analyser::new();
    analyser.apply_user_entry(&entry("Dora", 2, "[U:1:5]", 17));
    analyser.handle_message(&say(17, ChatMessageKind::ChatAll, Some("Dora"), "hi"), 9);
    match &analyser.borrow_output().events[0].value {
        MatchEventType::Chat(chat) => assert_eq!(chat.team, Some(Team::Other)),
        other => panic!("not chat: {:?}", other),
    }
}

#[test]
fn chat_text_loses_its_colour_codes() {
    let analyser = feed(vec![(
        say(1, ChatMessageKind::ChatAll, Some("Eve"), "\u{3}Eve\u{1} :  \u{7}ff0000red\u{1} text"),
        4,
    )]);
    match &analyser.borrow_output().events[0].value {
        MatchEventType::Chat(chat) => assert_eq!(chat.text, "Eve :  red text"),
        other => panic!("not chat: {:?}", other),
    }
}

#[test]
fn name_change_renames_and_logs_nothing() {
    let mut analyser = feed(vec![
        (connect(1, "[U:1:1]", "Old"), 1),
        (connect(2, "[U:1:2]", "Older"), 2),
    ]);
    analyser.change_name("Older".to_string(), "Old".to_string());
    analyser.handle_message(&say(1, ChatMessageKind::NameChange, Some("Old"), "New"), 3);
    let state = analyser.borrow_output();
    assert_eq!(state.events.len(), 2);
    assert_eq!(state.users[0].name.as_deref(), Some("New"));
    assert_eq!(state.users[1].name.as_deref(), Some("Old"));
    analyser.handle_message(&say(1, ChatMessageKind::NameChange, None, "Newer"), 4);
    analyser.handle_message(&say(1, ChatMessageKind::NameChange, Some("Missing"), "Newer"), 5);
    let state = analyser.borrow_output();
    assert_eq!(state.events.len(), 2);
    assert_eq!(state.users[0].name.as_deref(), Some("New"));
    assert_eq!(state.users[1].name.as_deref(), Some("Old"));
}

#[test]
fn change_name_takes_the_first_namesake() {
    let mut analyser = feed(vec![
        (connect(1, "[U:1:1]", "A"), 1),
        (connect(2, "[U:1:2]", "B"), 2),
        (connect(3, "[U:1:3]", "D"), 3),
    ]);
    analyser.change_name("D".to_string(), "B".to_string());
    analyser.change_name("B".to_string(), "C".to_string());
    let names: Vec<Option<&str>> =
        analyser.borrow_output().users.iter().map(|u| u.name.as_deref()).collect();
    assert_eq!(names, vec![Some("A"), Some("C"), Some("B")]);
}

#[test]
fn server_text_is_logged_only_when_printed_to_chat() {
    let analyser = feed(vec![
        (server_text(HudTextLocation::PrintCenter, "#TF_TeamsSwitched", ["", "", "", ""]), 1),
        (server_text(HudTextLocation::PrintConsole, "#TF_TeamsSwitched", ["", "", "", ""]), 2),
        (server_text(HudTextLocation::PrintNotify, "#TF_TeamsSwitched", ["", "", "", ""]), 3),
        (server_text(HudTextLocation::PrintTalk, "#TF_TeamsSwitched", ["", "", "", ""]), 4),
    ]);
    let state = analyser.borrow_output();
    assert_eq!(state.events.len(), 1);
    assert_eq!(state.events[0].tick, 4);
    match &state.events[0].value {
        MatchEventType::Chat(chat) => {
            assert_eq!(chat.kind, ChatMessageKind::Empty);
            assert_eq!(chat.from, "");
            assert_eq!(chat.text, "Teams have been switched.");
            assert_eq!(chat.team, None);
        }
        other => panic!("not chat: {:?}", other),
    }
}

#[test]
fn directory_entry_follows_a_user_into_another_slot() {
    let mut analyser = feed(vec![(connect(4, "[U:1:44]", "Finn"), 1)]);
    analyser.apply_user_entry(&entry("Finn", 11, "[U:1:44]", 23));
    let state = analyser.borrow_output();
    assert_eq!(state.users.len(), 1);
    assert_eq!(state.users[0].user_id, 11);
    assert_eq!(state.users[0].entity_id, Some(23));
    assert_eq!(state.users[0].name.as_deref(), Some("Finn"));
}

#[test]
fn directory_entry_creates_an_unknown_user() {
    let mut analyser = Analyser::new();
    analyser.apply_user_entry(&entry("Gus", 3, "[U:1:9]", 8));
    analyser.apply_user_entry(&entry("Bot", 5, "BOT", 9));
    analyser.apply_user_entry(&entry("Bot", 6, "BOT", 10));
    analyser.apply_user_entry(&entry("Bot again", 5, "BOT", 12));
    let state = analyser.borrow_output();
    assert_eq!(state.users.len(), 3);
    assert_eq!(state.users[0], UserInfo::from_entry(&entry("Gus", 3, "[U:1:9]", 8)));
    assert_eq!(state.users[1].entity_id, Some(12));
    assert_eq!(state.users[1].name.as_deref(), Some("Bot"));
    assert_eq!(state.users[2].user_id, 6);
}

#[test]
fn every_user_reference_is_in_range() {
    let analyser = feed(vec![
        (connect(1, "[U:1:1]", "A"), 1),
        (death(1, 2, 3, "x", 0, 0), 2),
        (spawn(4, RED, SOLDIER), 3),
        (disconnect(9, "BOT", "Tin", "bye"), 4),
    ]);
    let state = analyser.into_output();
    let n = state.users.len();
    for event in &state.events {
        match &event.value {
            MatchEventType::Kill(kill) => {
                assert!(kill.victim.index() < n);
                assert!(kill.killer.map_or(true, |k| k.index() < n));
                assert!(kill.assister.map_or(true, |k| k.index() < n));
            }
            MatchEventType::Connection(c) => assert!(c.user.index() < n),
            MatchEventType::TeamSwitch(u, _) => assert!(u.index() < n),
            MatchEventType::ClassSwitch(u, _) => assert!(u.index() < n),
            _ => {}
        }
    }
}

#[test]
fn namesake_with_an_unknown_account_is_taken_for_the_same_user() {
    let analyser = feed(vec![
        (connect(1, "[U:1:1]", "Old"), 1),
        (connect(2, "[U:1:2]", "Old"), 2),
    ]);
    let state = analyser.borrow_output();
    assert_eq!(state.users.len(), 1);
    assert_eq!(state.users[0].steam_id.as_deref(), Some("[U:1:1]"));
    assert_eq!(state.users[0].user_id, 1);
    assert_eq!(state.users[0].connection_events.len(), 2);
}

#[test]
fn stable_user_id_conversions() {
    assert_eq!(StableUserId::from(5), StableUserId(5));
    assert_eq!(StableUserId::default(), StableUserId(0));
    assert_eq!(StableUserId(9).index(), 9);
    assert!(StableUserId(1) < StableUserId(2));
}
