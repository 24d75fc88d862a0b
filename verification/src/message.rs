//! One turn of a conversation.

use crate::json::{quote, quoted};
use vstd::prelude::*;
use vstd::string::*;

verus! {

/// A chat turn as contracts see it: the role tag and the text, as sequences
/// of characters.
pub struct MessageView {
    pub role: Seq<char>,
    pub content: Seq<char>,
}

/// A chat turn: who speaks, and what is said. Both parts are kept as given;
/// a turn does not change once it is made.
#[derive(Clone, Debug, PartialEq, Eq)]
pub struct Message {
    role: String,
    content: String,
}

/// A chat turn as a JSON object: its role, then its content.
pub open spec fn message_json(turn: MessageView) -> Seq<char> {
    "{\"role\":"@ + quoted(turn.role) + ",\"content\":"@ + quoted(turn.content) + "}"@
}

impl View for Message {
    type V = MessageView;

    closed spec fn view(&self) -> MessageView {
        MessageView { role: self.role@, content: self.content@ }
    }
}

impl Message {
    /// Makes the turn in which `role` says `content`.
    pub fn new(role: &str, content: &str) -> (turn: Message)
        ensures
            turn@.role == role@,
            turn@.content == content@,
    {
        Message { role: role.to_owned(), content: content.to_owned() }
    }

    /// The role tag of the turn.
    pub fn role(&self) -> (role: &str)
        ensures
            role@ == self@.role,
    {
        self.role.as_str()
    }

    /// The text of the turn.
    pub fn content(&self) -> (content: &str)
        ensures
            content@ == self@.content,
    {
        self.content.as_str()
    }

    /// Writes the turn as a JSON object.
    pub fn to_json(&self) -> (text: String)
        ensures
            text@ == message_json(self@),
    {
        let mut text = "{\"role\":".to_owned();
        let role = quote(self.role.as_str());
        text.append(role.as_str());
        text.append(",\"content\":");
        let content = quote(self.content.as_str());
        text.append(content.as_str());
        text.append("}");
        text
    }
}

} // verus!
