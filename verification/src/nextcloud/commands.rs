//! Commands that are given in the chat: an optional `@user`, the words of
//! the command, and `!` for something to be done or `?` for something to be
//! told.

use crate::text::{split_words, texts, trim_end, trimmed_len, words};
use vstd::prelude::*;
use vstd::string::*;

verus! {

/// Whether a command asks for something to be done or to be told.
#[derive(Clone, Copy, PartialEq, Eq, Structural, Debug)]
pub enum CommandType {
    Action,
    Info,
}

/// A command as it was understood.
#[derive(Debug)]
pub struct Command {
    /// The user that the command is meant for, with its `@`.
    pub user_prefix: Option<String>,
    /// The words of the command, in lower case.
    pub words: Vec<String>,
    pub command_type: CommandType,
}

/// A text in lower case, as `str::to_lowercase` gives it.
pub uninterp spec fn spec_lowercase(text: Seq<char>) -> Seq<char>;

/// A text in lower case, made by `str::to_lowercase`. Trusted: the result
/// depends on the text alone; it is given its name and nothing more is said
/// of it.
#[verifier::external_body]
fn lowercase(text: &str) -> (lowered: String)
    ensures
        lowered@ == spec_lowercase(text@),
{
    text.to_lowercase()
}

/// What kind of command a text is: that is told by the last character
/// that is not white space.
pub open spec fn command_type_of(text: Seq<char>) -> Option<CommandType> {
    let trimmed = trim_end(text);
    if trimmed.len() > 0 && trimmed.last() == '!' {
        Some(CommandType::Action)
    } else if trimmed.len() > 0 && trimmed.last() == '?' {
        Some(CommandType::Info)
    } else {
        None
    }
}

/// The words of a command in lower case: the words before its last
/// character.
pub open spec fn lowered_words(text: Seq<char>) -> Seq<Seq<char>> {
    words(trim_end(text).drop_last(), false).map_values(|word: Seq<char>| spec_lowercase(word))
}

/// Whether a command names the user it is meant for: its first word
/// begins with `@`.
pub open spec fn names_user(text: Seq<char>) -> bool {
    lowered_words(text).len() > 0 && lowered_words(text)[0].len() > 0 && lowered_words(text)[0][0] == '@'
}

/// The words by which a command is told apart: all its words but the user
/// it is meant for.
pub open spec fn command_words(text: Seq<char>) -> Seq<Seq<char>> {
    if names_user(text) {
        lowered_words(text).skip(1)
    } else {
        lowered_words(text)
    }
}

impl Command {
    /// Understands what a user wrote. A text that does not end with `!` or
    /// `?` is no command.
    pub fn new(user_input: &str) -> (understood: Result<Command, String>)
        ensures
            understood is Ok <==> command_type_of(user_input@) is Some,
            understood matches Ok(command) ==> {
                &&& command.command_type == command_type_of(user_input@)->0
                &&& texts(command.words@) == command_words(user_input@)
                &&& command.user_prefix is Some <==> names_user(user_input@)
                &&& command.user_prefix matches Some(user) ==> user@ == lowered_words(user_input@)[0]
            },
            understood matches Err(why) ==> why@ == "Command must end with either '!' or '?'."@,
    {
        let end = trimmed_len(user_input);
        if end == 0 {
            return Err(String::from_str("Command must end with either '!' or '?'."));
        }
        let last = user_input.get_char(end - 1);
        assert(user_input@.take(end as int).last() == last);
        let command_type = if last == '!' {
            CommandType::Action
        } else if last == '?' {
            CommandType::Info
        } else {
            return Err(String::from_str("Command must end with either '!' or '?'."));
        };
        let body = user_input.substring_char(0, end - 1);
        assert(body@ =~= trim_end(user_input@).drop_last());
        let raw = split_words(body);
        let mut words: Vec<String> = Vec::new();
        let mut i: usize = 0;
        assert(texts(words@) =~= texts(raw@).take(0).map_values(|word: Seq<char>| spec_lowercase(word)));
        while i < raw.len()
            invariant
                i <= raw.len(),
                texts(words@) == texts(raw@).take(i as int).map_values(|word: Seq<char>| spec_lowercase(word)),
            decreases raw.len() - i,
        {
            let ghost before = words@;
            words.push(lowercase(raw[i].as_str()));
            i = i + 1;
            assert(texts(words@) =~= texts(raw@).take(i as int).map_values(
                |word: Seq<char>| spec_lowercase(word),
            )) by {
                assert(texts(raw@)[i - 1] == raw@[i - 1]@);
                assert(texts(words@) =~= texts(before).push(spec_lowercase(raw@[i - 1]@)));
            }
        }
        assert(texts(raw@).take(i as int) =~= texts(raw@));
        assert(texts(words@) == lowered_words(user_input@));
        let named = words.len() > 0 && words[0].as_str().unicode_len() > 0 && words[0].as_str().get_char(0)
            == '@';
        assert(words.len() > 0 ==> texts(words@)[0] == words@[0]@);
        if named {
            let ghost all = words@;
            let user = words.remove(0);
            assert(texts(words@) =~= texts(all).skip(1));
            Ok(Command { user_prefix: Some(user), words, command_type })
        } else {
            Ok(Command { user_prefix: None, words, command_type })
        }
    }
}

} // verus!
