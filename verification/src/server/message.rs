//! The three chat events and their one-line rendering.

use vstd::prelude::*;
use vstd::string::*;

verus! {

/// One chat event. A value never changes after it is built.
#[derive(Debug, PartialEq, Eq)]
pub enum Message {
    /// Somebody entered the room; holds the notice text.
    UserJoined(String),
    /// Somebody left the room; holds the notice text.
    UserLeft(String),
    /// A line typed by `sender`.
    Chat { sender: String, content: String },
}

/// The mathematical value of a [`Message`].
pub enum MessageView {
    UserJoined(Seq<char>),
    UserLeft(Seq<char>),
    Chat { sender: Seq<char>, content: Seq<char> },
}

/// Text of the notice that `username` entered the room.
pub open spec fn joined_text(username: Seq<char>) -> Seq<char> {
    username + " has joined the chat"@
}

/// Text of the notice that `username` left the room.
pub open spec fn left_text(username: Seq<char>) -> Seq<char> {
    username + " has left the chat"@
}

impl MessageView {
    /// The line that is written to a client for this message. Nothing is
    /// escaped: the texts are passed through as they are.
    pub open spec fn rendering(self) -> Seq<char> {
        match self {
            MessageView::UserJoined(text) => "["@ + text + "]"@,
            MessageView::UserLeft(text) => "["@ + text + " :(]"@,
            MessageView::Chat { sender, content } => sender + ": "@ + content,
        }
    }
}

impl View for Message {
    type V = MessageView;

    open spec fn view(&self) -> MessageView {
        match self {
            Message::UserJoined(text) => MessageView::UserJoined(text@),
            Message::UserLeft(text) => MessageView::UserLeft(text@),
            Message::Chat { sender, content } => MessageView::Chat {
                sender: sender@,
                content: content@,
            },
        }
    }
}

impl Message {
    /// The notice that `username` entered the room.
    pub fn new_user_joined(username: &str) -> (message: Self)
        ensures
            message@ == MessageView::UserJoined(joined_text(username@)),
    {
        let content = String::from_str(username).concat(" has joined the chat");
        Self::UserJoined(content)
    }

    /// The notice that `username` left the room.
    pub fn new_user_left(username: &str) -> (message: Self)
        ensures
            message@ == MessageView::UserLeft(left_text(username@)),
    {
        let content = String::from_str(username).concat(" has left the chat");
        Self::UserLeft(content)
    }

    /// A chat line typed by `sender`.
    pub fn new_chat(sender: &str, content: &str) -> (message: Self)
        ensures
            message@ == (MessageView::Chat { sender: sender@, content: content@ }),
    {
        Self::Chat { sender: String::from_str(sender), content: String::from_str(content) }
    }

    /// The line written to a client for this message.
    pub fn to_string(&self) -> (line: String)
        ensures
            line@ == self@.rendering(),
    {
        match self {
            Self::UserJoined(content) => {
                String::from_str("[").concat(content.as_str()).concat("]")
            },
            Self::UserLeft(content) => {
                String::from_str("[").concat(content.as_str()).concat(" :(]")
            },
            Self::Chat { sender, content } => {
                sender.clone().concat(": ").concat(content.as_str())
            },
        }
    }
}

} // verus!
