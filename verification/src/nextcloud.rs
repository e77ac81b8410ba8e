//! What is told to the chat server: which conversation a message goes to, and
//! which part of the status line a text replaces.

pub mod commands;

use crate::text::{same_text, split_words, texts, words};
use vstd::prelude::*;
use vstd::string::*;

verus! {

/// The conversation that a message goes to.
#[derive(Clone, Copy, PartialEq, Eq, Structural, Debug)]
pub enum NextcloudChat {
    Default,
    Ping,
    Licht,
}

/// The part of the status line that a text replaces.
#[derive(Clone, Copy, PartialEq, Eq, Structural, Debug)]
pub enum NextcloudStatus {
    Online,
    Env,
    Door,
}

/// Something to be told to the chat server.
pub enum NextcloudEvent {
    Chat(NextcloudChat, String),
    SendStatus,
    Status(NextcloudStatus, String),
}

/// What a message in the conversation for commands asks for.
#[derive(Debug, PartialEq)]
pub enum ChatAction {
    /// The status is to be shown in the conversation.
    SendStatus,
    /// The use of `switchlights` is to be explained.
    Usage,
    /// The lights are to be switched: inside, outside.
    SwitchLights(bool, bool),
    /// It is to be said that the door opens.
    OpeningDoor,
    /// The door is to be opened.
    OpenDoor,
    /// The sound of the bell is to be played.
    Bell,
    /// The sound of the fire alarm is to be played.
    FireAlarm,
    /// It is to be said that there is no command of this name.
    Unknown(String),
}

/// A `ChatAction` as a mathematical value.
pub enum ChatActionView {
    SendStatus,
    Usage,
    SwitchLights(bool, bool),
    OpeningDoor,
    OpenDoor,
    Bell,
    FireAlarm,
    Unknown(Seq<char>),
}

impl View for ChatAction {
    type V = ChatActionView;

    open spec fn view(&self) -> ChatActionView {
        match self {
            ChatAction::SendStatus => ChatActionView::SendStatus,
            ChatAction::Usage => ChatActionView::Usage,
            ChatAction::SwitchLights(inside, outside) => ChatActionView::SwitchLights(*inside, *outside),
            ChatAction::OpeningDoor => ChatActionView::OpeningDoor,
            ChatAction::OpenDoor => ChatActionView::OpenDoor,
            ChatAction::Bell => ChatActionView::Bell,
            ChatAction::FireAlarm => ChatActionView::FireAlarm,
            ChatAction::Unknown(name) => ChatActionView::Unknown(name@),
        }
    }
}

/// What a message came to: what it asks for, in order, and whether it
/// was so broken that the task cannot go on.
pub struct ChatOutcome {
    pub actions: Vec<ChatAction>,
    pub fault: bool,
}

/// A list of actions as a mathematical value.
pub open spec fn action_views(actions: Seq<ChatAction>) -> Seq<ChatActionView> {
    actions.map_values(|action: ChatAction| action@)
}

/// Whether a word says `true`, in capitals or not.
pub open spec fn says_true(word: Seq<char>) -> bool {
    &&& word.len() == 4
    &&& (word[0] == 't' || word[0] == 'T')
    &&& (word[1] == 'r' || word[1] == 'R')
    &&& (word[2] == 'u' || word[2] == 'U')
    &&& (word[3] == 'e' || word[3] == 'E')
}

/// Whether a message is a command: it begins with a backslash.
pub open spec fn is_command(message: Seq<char>) -> bool {
    message.len() > 0 && message[0] == '\\'
}

/// The words of a command: what follows the backslash.
pub open spec fn command_line(message: Seq<char>) -> Seq<Seq<char>> {
    words(message.skip(1), false)
}

/// Whether a message is a command that is broken: it has no name, or it
/// is `switchlights` with less than its two arguments.
pub open spec fn chat_fault(message: Seq<char>) -> bool {
    let line = command_line(message);
    is_command(message) && (line.len() == 0 || (line[0] == "switchlights"@ && line.len() < 3))
}

/// What a message asks for. A message that is no command asks for
/// nothing. Of a command the first word is its name and the rest its
/// arguments; `switchlights` explains its use unless it has exactly two
/// arguments, and goes by the first two if it has them.
pub open spec fn chat_actions(message: Seq<char>) -> Seq<ChatActionView> {
    let line = command_line(message);
    if !is_command(message) || line.len() == 0 {
        Seq::empty()
    } else if line[0] == "status"@ {
        seq![ChatActionView::SendStatus]
    } else if line[0] == "setpin"@ {
        Seq::empty()
    } else if line[0] == "switchlights"@ {
        (if line.len() != 3 {
            seq![ChatActionView::Usage]
        } else {
            Seq::empty()
        }) + (if line.len() >= 3 {
            seq![ChatActionView::SwitchLights(says_true(line[1]), says_true(line[2]))]
        } else {
            Seq::empty()
        })
    } else if line[0] == "opensesame"@ {
        seq![ChatActionView::OpeningDoor, ChatActionView::OpenDoor]
    } else if line[0] == "ring_bell"@ {
        seq![ChatActionView::Bell]
    } else if line[0] == "fire_alarm"@ {
        seq![ChatActionView::FireAlarm]
    } else {
        seq![ChatActionView::Unknown(line[0])]
    }
}

fn is_true(word: &str) -> (is: bool)
    ensures
        is == says_true(word@),
{
    if word.unicode_len() != 4 {
        return false;
    }
    let a = word.get_char(0);
    let b = word.get_char(1);
    let c = word.get_char(2);
    let d = word.get_char(3);
    (a == 't' || a == 'T') && (b == 'r' || b == 'R') && (c == 'u' || c == 'U') && (d == 'e' || d == 'E')
}

/// Understands a message of the conversation for commands.
pub fn chat_command(message: &str) -> (out: ChatOutcome)
    ensures
        action_views(out.actions@) == chat_actions(message@),
        out.fault == chat_fault(message@),
{
    let mut actions: Vec<ChatAction> = Vec::new();
    let len = message.unicode_len();
    if len == 0 || message.get_char(0) != '\\' {
        assert(action_views(actions@) =~= chat_actions(message@));
        return ChatOutcome { actions, fault: false };
    }
    let rest = message.substring_char(1, len);
    assert(rest@ =~= message@.skip(1));
    let line = split_words(rest);
    assert(texts(line@).len() == line.len());
    if line.len() == 0 {
        assert(action_views(actions@) =~= chat_actions(message@));
        return ChatOutcome { actions, fault: true };
    }
    assert(texts(line@)[0] == line@[0]@);
    let name = line[0].as_str();
    let mut fault = false;
    proof {
        reveal_strlit("status");
        reveal_strlit("setpin");
        reveal_strlit("switchlights");
    }
    if same_text(name, "status") {
        actions.push(ChatAction::SendStatus);
    } else if same_text(name, "setpin") {
    } else if same_text(name, "switchlights") {
        if line.len() != 3 {
            actions.push(ChatAction::Usage);
        }
        if line.len() >= 3 {
            assert(texts(line@)[1] == line@[1]@);
            assert(texts(line@)[2] == line@[2]@);
            actions.push(ChatAction::SwitchLights(is_true(line[1].as_str()), is_true(line[2].as_str())));
        } else {
            fault = true;
        }
    } else if same_text(name, "opensesame") {
        actions.push(ChatAction::OpeningDoor);
        actions.push(ChatAction::OpenDoor);
    } else if same_text(name, "ring_bell") {
        actions.push(ChatAction::Bell);
    } else if same_text(name, "fire_alarm") {
        actions.push(ChatAction::FireAlarm);
    } else {
        actions.push(ChatAction::Unknown(line[0].clone()));
    }
    assert(action_views(actions@) =~= chat_actions(message@));
    ChatOutcome { actions, fault }
}

/// The text with which a message that could not be sent is sent once
/// more.
pub fn sent_again(message: &str) -> (text: String)
    ensures
        text@ == message@ + " (sent again)"@,
{
    let mut text = String::from_str(message);
    text.append(" (sent again)");
    text
}

/// The text that tells of a command that is not known.
pub fn unknown_command(name: &str) -> (text: String)
    ensures
        text@ == "Unknown command "@ + name@ + "!"@,
{
    let mut text = String::from_str("Unknown command ");
    text.append(name);
    text.append("!");
    text
}

} // verus!
