//! LinkedIn conversations and the messages in them.

use vstd::prelude::*;
use vstd::string::*;
use crate::text::{join, join_strings, texts};
use crate::time::{minute_text, UtcDateTime};

verus! {

broadcast use vstd::string::group_string_axioms;

/// Direction of a message in a conversation.
#[derive(Debug, Clone, Copy, PartialEq, Eq, Structural)]
pub enum MessageDirection {
    /// Message sent by the user
    Sent,
    /// Message received from another user
    Received,
}

/// A single message in a LinkedIn conversation.
#[derive(Debug, Clone)]
pub struct Message {
    /// Unique message ID
    pub id: String,
    /// Message content
    pub content: String,
    /// Sender's name
    pub sender_name: String,
    /// Sender's profile ID
    pub sender_id: String,
    /// Message direction
    pub direction: MessageDirection,
    /// Timestamp
    pub timestamp: UtcDateTime,
    /// Whether the message has been read
    pub is_read: bool,
}

/// A LinkedIn conversation thread.
#[derive(Debug, Clone)]
pub struct Conversation {
    /// Conversation ID
    pub id: String,
    /// Participant names (excluding the current user)
    pub participants: Vec<String>,
    /// Messages in the conversation
    pub messages: Vec<Message>,
    /// Last activity timestamp
    pub last_activity: UtcDateTime,
    /// Whether there are unread messages
    pub has_unread: bool,
}

/// The messages of `ms` that have not been read, in order.
pub open spec fn unread_of(ms: Seq<Message>) -> Seq<Message>
    decreases ms.len(),
{
    if ms.len() == 0 {
        seq![]
    } else {
        unread_of(ms.drop_last()) + if !ms.last().is_read {
            seq![ms.last()]
        } else {
            seq![]
        }
    }
}

/// Who said a message, as the conversation text names them.
pub open spec fn speaker(m: Message) -> Seq<char> {
    match m.direction {
        MessageDirection::Sent => "You"@,
        MessageDirection::Received => m.sender_name@,
    }
}

/// One line of the conversation text: `[time] speaker: content`.
pub open spec fn context_line(m: Message) -> Seq<char> {
    "["@ + minute_text(m.timestamp.secs() as int) + "] "@ + speaker(m) + ": "@
        + m.content@ + "\n"@
}

/// The lines of all messages of `ms`, in order.
pub open spec fn context_lines(ms: Seq<Message>) -> Seq<char>
    decreases ms.len(),
{
    if ms.len() == 0 {
        seq![]
    } else {
        context_lines(ms.drop_last()) + context_line(ms.last())
    }
}

/// The conversation as the text that the assistant is shown.
pub open spec fn context_text(c: Conversation) -> Seq<char> {
    "Conversation with: "@ + join(texts(c.participants@), ", "@) + "\n\n"@ + context_lines(
        c.messages@,
    )
}

impl Conversation {
    /// Create a new conversation, with no messages, none unread, whose
    /// last activity is now.
    pub fn new(id: String, participants: Vec<String>) -> (r: Conversation)
        ensures
            r.id == id,
            r.participants == participants,
            r.messages@ == Seq::<Message>::empty(),
            !r.has_unread,
            r.last_activity.secs() >= 0,
    {
        Conversation {
            id,
            participants,
            messages: Vec::new(),
            last_activity: UtcDateTime::now(),
            has_unread: false,
        }
    }

    /// Get the most recent message.
    pub fn last_message(&self) -> (r: Option<&Message>)
        ensures
            match r {
                Some(m) => self.messages@.len() > 0 && *m == self.messages@.last(),
                None => self.messages@.len() == 0,
            },
    {
        let n = self.messages.len();
        if n == 0 {
            None
        } else {
            Some(&self.messages[n - 1])
        }
    }

    /// Get all unread messages, in order.
    pub fn unread_messages(&self) -> (r: Vec<&Message>)
        ensures
            r@.map_values(|m: &Message| *m) == unread_of(self.messages@),
    {
        let mut out: Vec<&Message> = Vec::new();
        let n = self.messages.len();
        for i in 0..n
            invariant
                n == self.messages@.len(),
                out@.map_values(|m: &Message| *m) == unread_of(self.messages@.take(i as int)),
        {
            assert(self.messages@.take(i + 1).drop_last() =~= self.messages@.take(i as int));
            let ghost before = out@;
            if !self.messages[i].is_read {
                out.push(&self.messages[i]);
                assert(out@ == before.push(&self.messages@[i as int]));
                assert(out@.map_values(|m: &Message| *m) =~= before.map_values(|m: &Message| *m)
                    + seq![self.messages@[i as int]]);
            } else {
                assert(before.map_values(|m: &Message| *m) + Seq::<Message>::empty()
                    =~= before.map_values(|m: &Message| *m));
            }
        }
        assert(self.messages@.take(n as int) =~= self.messages@);
        out
    }

    /// Get the conversation history as a formatted string for AI context.
    pub fn to_context_string(&self) -> (r: String)
        ensures
            r@ == context_text(*self),
    {
        let mut out = String::new();
        out.append("Conversation with: ");
        let names = join_strings(&self.participants, ", ");
        out.append(names.as_str());
        out.append("\n\n");
        let ghost head = out@;
        let n = self.messages.len();
        for i in 0..n
            invariant
                n == self.messages@.len(),
                head == "Conversation with: "@ + join(texts(self.participants@), ", "@) + "\n\n"@,
                out@ == head + context_lines(self.messages@.take(i as int)),
        {
            let m = &self.messages[i];
            assert(self.messages@.take(i + 1).drop_last() =~= self.messages@.take(i as int));
            out.append("[");
            let stamp = m.timestamp.format_minute();
            out.append(stamp.as_str());
            out.append("] ");
            match m.direction {
                MessageDirection::Sent => out.append("You"),
                MessageDirection::Received => out.append(m.sender_name.as_str()),
            }
            out.append(": ");
            out.append(m.content.as_str());
            out.append("\n");
            assert(out@ =~= head + context_lines(self.messages@.take(i as int)) + context_line(
                self.messages@[i as int],
            ));
        }
        assert(self.messages@.take(n as int) =~= self.messages@);
        out
    }
}

} // verus!
