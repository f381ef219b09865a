//! Chat text: the known server message identifiers, the filling in of
//! placeholders, and the chat events made of both kinds of text message.

use crate::records::{SayText2Message, TextMessage};
use crate::state::{opt_text, texts, ChatMessage, ChatMessageView};
use crate::text::{chars_of, contains, occurs, replace, replace_all, string_of};
use crate::types::{ChatMessageKind, Team};
use vstd::prelude::*;

verus! {

/// The English text of a known server message identifier; any other text
/// stands for itself.
pub open spec fn canned(s: Seq<char>) -> Seq<char> {
    if s == "#game_player_was_team_balanced"@ {
        "%s1 was moved to the other team for game balance"@
    } else if s == "#game_spawn_as"@ {
        "*You will spawn as %s1"@
    } else if s == "#TF_TeamsSwitched"@ {
        "Teams have been switched."@
    } else if s == "#TF_Autobalance_TeamChangeDone_Match"@ {
        "You have switched to team %s1 and will receive %s2 experience points at the end of the round for changing teams."@
    } else if s == "#TF_BlueTeam_Name"@ {
        "BLU"@
    } else if s == "#TF_RedTeam_Name"@ {
        "RED"@
    } else {
        s
    }
}

/// The placeholder for the `n`-th value, `%s1` to `%s3`.
pub open spec fn placeholder(n: int) -> Seq<char> {
    seq![
        '%',
        's',
        if n == 1 {
            '1'
        } else if n == 2 {
            '2'
        } else {
            '3'
        },
    ]
}

/// `text` with the placeholders from the `n`-th on filled in, in order: each
/// one present is replaced by its value, itself resolved as a message
/// identifier, and the first one absent ends the filling.
pub open spec fn filled_from(text: Seq<char>, values: Seq<Seq<char>>, n: int) -> Seq<char>
    decreases 4 - n,
{
    if 1 <= n <= 3 && occurs(text, placeholder(n)) {
        filled_from(replace_all(text, placeholder(n), canned(values[n - 1])), values, n + 1)
    } else {
        text
    }
}

/// The readable text of a server message with the template `template` and the
/// values `values`.
pub open spec fn chat_text(template: Seq<char>, values: Seq<Seq<char>>) -> Seq<char> {
    filled_from(canned(template), values, 1)
}

/// What the demo parser's `SayText2Message::plain_text` makes of a chat text:
/// the text without its colour codes.
pub uninterp spec fn plain_text_of(text: Seq<char>) -> Seq<char>;

/// Strips the colour codes from a chat text with
/// `SayText2Message::plain_text` of the demo parser, which reads nothing but
/// the message's text.
#[verifier::external_body]
fn plain_text(text: &String) -> (r: String)
    ensures
        r@ == plain_text_of(text@),
{
    tf_demo_parser::demo::message::usermessage::SayText2Message {
        client: 0u32.into(),
        raw: 0,
        kind: tf_demo_parser::demo::message::usermessage::ChatMessageKind::ChatAll,
        from: None,
        text: text.as_str().into(),
    }.plain_text()
}

/// Resolves a known server message identifier to its English text, and gives
/// any other text back.
pub fn resolve_string<'a>(string: &'a str) -> (r: &'a str)
    ensures
        r@ == canned(string@),
{
    let s = string.to_string();
    if s == "#game_player_was_team_balanced".to_string() {
        "%s1 was moved to the other team for game balance"
    } else if s == "#game_spawn_as".to_string() {
        "*You will spawn as %s1"
    } else if s == "#TF_TeamsSwitched".to_string() {
        "Teams have been switched."
    } else if s == "#TF_Autobalance_TeamChangeDone_Match".to_string() {
        "You have switched to team %s1 and will receive %s2 experience points at the end of the round for changing teams."
    } else if s == "#TF_BlueTeam_Name".to_string() {
        "BLU"
    } else if s == "#TF_RedTeam_Name".to_string() {
        "RED"
    } else {
        string
    }
}

/// The characters of the placeholder for the `n`-th value.
fn placeholder_chars(n: usize) -> (r: Vec<char>)
    requires
        1 <= n <= 3,
    ensures
        r@ == placeholder(n as int),
{
    let mut v: Vec<char> = Vec::new();
    v.push('%');
    v.push('s');
    v.push(
        if n == 1 {
            '1'
        } else if n == 2 {
            '2'
        } else {
            '3'
        },
    );
    v
}

/// Resolves `template` and fills in its placeholders from `values`.
pub fn resolve_text(template: &str, values: &[String; 4]) -> (r: String)
    ensures
        r@ == chat_text(template@, texts(values@)),
{
    let mut text = chars_of(resolve_string(template));
    let mut n: usize = 1;
    let mut filling = true;
    while filling && n < 4
        invariant
            1 <= n <= 4,
            filled_from(text@, texts(values@), n as int) == chat_text(template@, texts(values@)),
            !filling ==> filled_from(text@, texts(values@), n as int) == text@,
        decreases (if filling { 1int } else { 0int }) + 4 - n,
    {
        let pat = placeholder_chars(n);
        if contains(&text, &pat) {
            let with = chars_of(resolve_string(values[n - 1].as_str()));
            text = replace(&text, &pat, &with);
            n += 1;
        } else {
            filling = false;
        }
    }
    string_of(&text)
}

impl ChatMessageView {
    /// The chat event of a line that `from` said, `plain` being its text
    /// without colour codes. The text is resolved as a message identifier; a
    /// chat line brings no values, so no placeholder is filled in. A line
    /// without a speaker has the empty name.
    pub open spec fn said(
        kind: ChatMessageKind,
        from: Option<Seq<char>>,
        plain: Seq<char>,
        team: Option<Team>,
    ) -> ChatMessageView {
        ChatMessageView {
            kind,
            from: match from {
                Some(name) => name,
                None => Seq::empty(),
            },
            text: canned(plain),
            team,
        }
    }

    /// The chat event of a text that the server printed.
    pub open spec fn printed(message: TextMessage) -> ChatMessageView {
        ChatMessageView {
            kind: ChatMessageKind::Empty,
            from: Seq::empty(),
            text: chat_text(message.text@, texts(message.substitute@)),
            team: None,
        }
    }
}

impl ChatMessage {
    /// The chat event of a line that `from` said, `plain` being its text
    /// without colour codes.
    pub fn said(
        kind: ChatMessageKind,
        from: &Option<String>,
        plain: String,
        team: Option<Team>,
    ) -> (r: ChatMessage)
        ensures
            r@ == ChatMessageView::said(kind, opt_text(*from), plain@, team),
    {
        ChatMessage {
            kind,
            from: match from {
                Some(name) => name.clone(),
                None => String::new(),
            },
            text: resolve_string(plain.as_str()).to_string(),
            team,
        }
    }

    /// The chat event of a chat line: its text is stripped of colour codes
    /// and resolved.
    pub fn from_message(message: &SayText2Message, team: Option<Team>) -> (r: ChatMessage)
        ensures
            r@ == ChatMessageView::said(
                message.kind,
                opt_text(message.from),
                plain_text_of(message.text@),
                team,
            ),
    {
        ChatMessage::said(message.kind, &message.from, plain_text(&message.text), team)
    }

    /// The chat event of a text that the server printed.
    pub fn from_text(message: &TextMessage) -> (r: ChatMessage)
        ensures
            r@ == ChatMessageView::printed(*message),
    {
        ChatMessage {
            kind: ChatMessageKind::Empty,
            from: String::new(),
            text: resolve_text(message.text.as_str(), &message.substitute),
            team: None,
        }
    }
}

/// Strips the colour codes from the text of a chat line.
pub fn stripped_text(message: &SayText2Message) -> (r: String)
    ensures
        r@ == plain_text_of(message.text@),
{
    plain_text(&message.text)
}

} // verus!
