//! The notifications that travel from the materializer to the sink.

use vstd::prelude::*;
use vstd::string::*;
use crate::text::{i64_to_decimal, signed_decimal};

verus! {

/// What flows through the notification queue: chat notifications, and the
/// sentinel that ends the stream.
#[derive(Debug, Clone, PartialEq, Eq)]
pub enum Message {
    /// The sentinel: nothing follows it, and the sink returns when it sees it.
    Disconnect,
    /// One notification for the chat channel.
    Chat { username: String, content: String },
}

/// The mathematical value of a [`Message`].
pub enum MessageView {
    Disconnect,
    Chat { username: Seq<char>, content: Seq<char> },
}

impl View for Message {
    type V = MessageView;

    open spec fn view(&self) -> MessageView {
        match self {
            Message::Disconnect => MessageView::Disconnect,
            Message::Chat { username, content } => MessageView::Chat {
                username: username@,
                content: content@,
            },
        }
    }
}

/// The values of a sequence of messages, in order.
pub open spec fn message_views(ms: Seq<Message>) -> Seq<MessageView> {
    ms.map_values(|m: Message| m@)
}

/// The username under which moderation notices are posted.
pub open spec fn moderation_sender() -> Seq<char> {
    "<<MODERATION>>"@
}

/// A username followed by the name of the group it speaks in, in brackets.
pub open spec fn tagged_username(username: Seq<char>, group: Seq<char>) -> Seq<char> {
    username + " ["@ + group + "]"@
}

/// The text of a moderation notice.
pub open spec fn moderation_content(user: Seq<char>, action: Seq<char>, expiry: Seq<char>) -> Seq<
    char,
> {
    "User "@ + user + " has been banned from "@ + action + " "@ + expiry + "!"@
}

/// Whole seconds in a count of microseconds, rounded towards zero.
pub open spec fn micros_to_seconds(micros: int) -> int {
    if micros >= 0 {
        micros / 1_000_000
    } else {
        -((-micros) / 1_000_000)
    }
}

/// The phrase that says until when a ban lasts: the expiry, in whole seconds
/// since the Unix epoch, inside a timestamp token that the chat client shows
/// as a date and time.
pub open spec fn expiry_phrase(micros: int) -> Seq<char> {
    "until <t:"@ + signed_decimal(micros_to_seconds(micros)) + ":f>!"@
}

/// The line that shows a chat notification on the operator's console.
pub open spec fn echo_line(username: Seq<char>, content: Seq<char>) -> Seq<char> {
    username + ": "@ + content
}

/// Writes the expiry phrase for a time given in microseconds since the Unix
/// epoch.
pub fn as_expiry(micros: i64) -> (phrase: String)
    ensures
        phrase@ == expiry_phrase(micros as int),
{
    let seconds: i64 = if micros >= 0 {
        micros / 1_000_000
    } else if micros == i64::MIN {
        -9_223_372_036_854i64
    } else {
        -((-micros) / 1_000_000)
    };
    let mut phrase = String::from_str("until <t:");
    let digits = i64_to_decimal(seconds);
    phrase.append(digits.as_str());
    phrase.append(":f>!");
    phrase
}

impl Message {
    /// A chat notification with this username and content, unchanged.
    pub fn chat(username: String, content: String) -> (m: Message)
        ensures
            m@ == (MessageView::Chat { username: username@, content: content@ }),
    {
        Message::Chat { username, content }
    }

    /// A chat notification from a claim's channel: the claim's name follows
    /// the username in brackets.
    pub fn claim(username: String, claim: &str, content: String) -> (m: Message)
        ensures
            m@ == (MessageView::Chat {
                username: tagged_username(username@, claim@),
                content: content@,
            }),
    {
        let mut tagged = username;
        tagged.append(" [");
        tagged.append(claim);
        tagged.append("]");
        Message::chat(tagged, content)
    }

    /// A chat notification from an empire's channel: the empire's name follows
    /// the username in brackets.
    pub fn empire(username: String, empire: &str, content: String) -> (m: Message)
        ensures
            m@ == (MessageView::Chat {
                username: tagged_username(username@, empire@),
                content: content@,
            }),
    {
        let mut tagged = username;
        tagged.append(" [");
        tagged.append(empire);
        tagged.append("]");
        Message::chat(tagged, content)
    }

    /// A moderation notice: `username` is the banned user, `policy` names
    /// what the user is banned from, `expiry` says for how long.
    pub fn moderation(username: String, policy: &str, expiry: &str) -> (m: Message)
        ensures
            m@ == (MessageView::Chat {
                username: moderation_sender(),
                content: moderation_content(username@, policy@, expiry@),
            }),
    {
        let mut content = String::from_str("User ");
        content.append(username.as_str());
        content.append(" has been banned from ");
        content.append(policy);
        content.append(" ");
        content.append(expiry);
        content.append("!");
        Message::chat(String::from_str("<<MODERATION>>"), content)
    }

    /// Whether this is the sentinel.
    pub fn is_disconnect(&self) -> (b: bool)
        ensures
            b == (self@ is Disconnect),
    {
        match self {
            Message::Disconnect => true,
            Message::Chat { .. } => false,
        }
    }
}

} // verus!
