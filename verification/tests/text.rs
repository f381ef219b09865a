use demoplayer::chat::{resolve_string, resolve_text, stripped_text};
use demoplayer::records::{SayText2Message, TextMessage};
use demoplayer::state::ChatMessage;
use demoplayer::text::{chars_of, contains, matches_at, replace, string_of};
use demoplayer::types::{ChatMessageKind, HudTextLocation, Team};

fn chars(s: &str) -> Vec<char> {
    s.chars().collect()
}

fn values(v: [&str; 4]) -> [String; 4] {
    [v[0].to_string(), v[1].to_string(), v[2].to_string(), v[3].to_string()]
}

#[test]
fn chars_and_strings_convert_both_ways() {
    assert_eq!(chars_of("héllo"), vec!['h', 'é', 'l', 'l', 'o']);
    assert_eq!(chars_of(""), Vec::<char>::new());
    assert_eq!(string_of(&vec!['a', 'ß', 'c']), "aßc");
    assert_eq!(string_of(&Vec::new()), "");
}

#[test]
fn matches_at_compares_in_place() {
    let text = chars("abcabc");
    assert!(matches_at(&text, &chars("abc"), 0));
    assert!(matches_at(&text, &chars("abc"), 3));
    assert!(!matches_at(&text, &chars("abc"), 1));
    assert!(!matches_at(&text, &chars("abc"), 4));
    assert!(!matches_at(&text, &chars("abc"), 100));
    assert!(matches_at(&text, &chars(""), 6));
    assert!(!matches_at(&text, &chars(""), 7));
    assert!(!matches_at(&chars("ab"), &chars("abc"), 0));
}

#[test]
fn contains_finds_an_occurrence_anywhere() {
    assert!(contains(&chars("say %s1 now"), &chars("%s1")));
    assert!(contains(&chars("%s1"), &chars("%s1")));
    assert!(contains(&chars("x%s1"), &chars("%s1")));
    assert!(!contains(&chars("say %s2 now"), &chars("%s1")));
    assert!(!contains(&chars("%s"), &chars("%s1")));
    assert!(contains(&chars(""), &chars("")));
    assert!(!contains(&chars(""), &chars("a")));
}

#[test]
fn replace_substitutes_every_occurrence() {
    assert_eq!(replace(&chars("a-b-c"), &chars("-"), &chars("+")), chars("a+b+c"));
    assert_eq!(replace(&chars("aaa"), &chars("aa"), &chars("b")), chars("ba"));
    assert_eq!(replace(&chars("abab"), &chars("ab"), &chars("")), chars(""));
    assert_eq!(replace(&chars("abc"), &chars("x"), &chars("y")), chars("abc"));
    assert_eq!(replace(&chars(""), &chars("x"), &chars("y")), chars(""));
    assert_eq!(replace(&chars("ab"), &chars("abc"), &chars("y")), chars("ab"));
    assert_eq!(replace(&chars("xx"), &chars("x"), &chars("xx")), chars("xxxx"));
    assert_eq!(replace(&chars("abc"), &chars(""), &chars("y")), chars("abc"));
    assert_eq!(replace(&chars(""), &chars(""), &chars("y")), chars(""));
    for (text, pat, with) in [("a%s1b%s1", "%s1", "RED"), ("aXbXXc", "XX", "-"), ("zzzz", "zz", "z")] {
        assert_eq!(
            string_of(&replace(&chars(text), &chars(pat), &chars(with))),
            text.replace(pat, with)
        );
    }
}

#[test]
fn known_identifiers_are_resolved() {
    assert_eq!(
        resolve_string("#game_player_was_team_balanced"),
        "%s1 was moved to the other team for game balance"
    );
    assert_eq!(resolve_string("#game_spawn_as"), "*You will spawn as %s1");
    assert_eq!(resolve_string("#TF_TeamsSwitched"), "Teams have been switched.");
    assert_eq!(
        resolve_string("#TF_Autobalance_TeamChangeDone_Match"),
        "You have switched to team %s1 and will receive %s2 experience points at the end of the round for changing teams."
    );
    assert_eq!(resolve_string("#TF_BlueTeam_Name"), "BLU");
    assert_eq!(resolve_string("#TF_RedTeam_Name"), "RED");
    assert_eq!(resolve_string("#TF_Unknown"), "#TF_Unknown");
    assert_eq!(resolve_string("hello"), "hello");
    assert_eq!(resolve_string(""), "");
}

#[test]
fn placeholders_are_filled_in_order() {
    assert_eq!(
        resolve_text("#game_spawn_as", &values(["#TF_RedTeam_Name", "", "", ""])),
        "*You will spawn as RED"
    );
    assert_eq!(
        resolve_text(
            "#TF_Autobalance_TeamChangeDone_Match",
            &values(["#TF_BlueTeam_Name", "500", "", ""])
        ),
        "You have switched to team BLU and will receive 500 experience points at the end of the round for changing teams."
    );
    assert_eq!(
        resolve_text("#game_player_was_team_balanced", &values(["Kim", "", "", ""])),
        "Kim was moved to the other team for game balance"
    );
    assert_eq!(resolve_text("%s1, %s2 and %s3", &values(["a", "b", "c", "d"])), "a, b and c");
    assert_eq!(resolve_text("%s1 and %s1", &values(["x", "", "", ""])), "x and x");
    assert_eq!(resolve_text("plain", &values(["a", "b", "c", "d"])), "plain");
}

#[test]
fn filling_stops_at_the_first_missing_placeholder() {
    assert_eq!(resolve_text("%s2 then %s3", &values(["a", "b", "c", ""])), "%s2 then %s3");
    assert_eq!(resolve_text("%s1 then %s3", &values(["a", "b", "c", ""])), "a then %s3");
    // A value may bring the next placeholder with it.
    assert_eq!(resolve_text("<%s1>", &values(["%s2", "b", "", ""])), "<b>");
    assert_eq!(resolve_text("%s4", &values(["a", "b", "c", "d"])), "%s4");
}

#[test]
fn colour_codes_are_stripped() {
    let message = |text: &str| SayText2Message {
        client: 1,
        kind: ChatMessageKind::ChatAll,
        from: None,
        text: text.to_string(),
    };
    assert_eq!(stripped_text(&message("plain")), "plain");
    assert_eq!(stripped_text(&message("\u{1}a\u{2}b\u{3}c\u{4}d\u{5}e\u{6}f")), "abcdef");
    assert_eq!(stripped_text(&message("x\u{7}00ff00green")), "xgreen");
    assert_eq!(stripped_text(&message("x\u{9}0000ff80blue")), "xblue");
}

#[test]
fn chat_message_of_a_chat_line() {
    let message = SayText2Message {
        client: 1,
        kind: ChatMessageKind::ChatAllDead,
        from: Some("Lou".to_string()),
        text: "\u{1}gg".to_string(),
    };
    assert_eq!(
        ChatMessage::from_message(&message, Some(Team::Red)),
        ChatMessage {
            kind: ChatMessageKind::ChatAllDead,
            from: "Lou".to_string(),
            text: "gg".to_string(),
            team: Some(Team::Red),
        }
    );
    assert_eq!(
        ChatMessage::said(ChatMessageKind::ChatAll, &None, "kept \u{1} as given".to_string(), None),
        ChatMessage {
            kind: ChatMessageKind::ChatAll,
            from: String::new(),
            text: "kept \u{1} as given".to_string(),
            team: None,
        }
    );
}

#[test]
fn chat_line_is_resolved_as_an_identifier() {
    let message = SayText2Message {
        client: 1,
        kind: ChatMessageKind::ChatAll,
        from: None,
        text: "\u{1}#TF_TeamsSwitched".to_string(),
    };
    assert_eq!(ChatMessage::from_message(&message, None).text, "Teams have been switched.");
    let spawn = ChatMessage::said(ChatMessageKind::ChatAll, &None, "#game_spawn_as".to_string(), None);
    assert_eq!(spawn.text, "*You will spawn as %s1");
}

#[test]
fn chat_message_of_a_server_text() {
    let message = TextMessage {
        location: HudTextLocation::PrintCenter,
        text: "#game_spawn_as".to_string(),
        substitute: values(["Medic", "", "", ""]),
    };
    assert_eq!(
        ChatMessage::from_text(&message),
        ChatMessage {
            kind: ChatMessageKind::Empty,
            from: String::new(),
            text: "*You will spawn as Medic".to_string(),
            team: None,
        }
    );
}
