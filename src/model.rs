use vstd::prelude::*;

verus! {

/// A message as a mathematical value.
pub struct MessageView {
    pub id: Seq<char>,
    pub role: Seq<char>,
    pub content: Seq<char>,
    pub timestamp: u64,
}

/// A conversation as a mathematical value.
pub struct ConversationView {
    pub id: Seq<char>,
    pub title: Seq<char>,
    pub messages: Seq<MessageView>,
    pub created_at: u64,
    pub updated_at: u64,
}

/// A single timestamped unit of conversation content with a role tag.
#[derive(Debug)]
pub struct Message {
    pub id: String,
    pub role: String,
    pub content: String,
    /// Seconds since the Unix epoch.
    pub timestamp: u64,
}

/// A titled, ordered collection of messages with creation and update times.
#[derive(Debug)]
pub struct Conversation {
    pub id: String,
    pub title: String,
    pub messages: Vec<Message>,
    /// Seconds since the Unix epoch.
    pub created_at: u64,
    /// Seconds since the Unix epoch; refreshed whenever a message is appended.
    pub updated_at: u64,
}

impl View for Message {
    type V = MessageView;

    open spec fn view(&self) -> MessageView {
        MessageView {
            id: self.id@,
            role: self.role@,
            content: self.content@,
            timestamp: self.timestamp,
        }
    }
}

/// The views of a sequence of messages.
pub open spec fn message_views(ms: Seq<Message>) -> Seq<MessageView> {
    ms.map_values(|m: Message| m@)
}

impl View for Conversation {
    type V = ConversationView;

    open spec fn view(&self) -> ConversationView {
        ConversationView {
            id: self.id@,
            title: self.title@,
            messages: message_views(self.messages@),
            created_at: self.created_at,
            updated_at: self.updated_at,
        }
    }
}

impl Clone for Message {
    fn clone(&self) -> (r: Self)
        ensures
            r == *self,
    {
        Message {
            id: self.id.clone(),
            role: self.role.clone(),
            content: self.content.clone(),
            timestamp: self.timestamp,
        }
    }
}

impl Clone for Conversation {
    fn clone(&self) -> (r: Self)
        ensures
            r@ == self@,
    {
        let mut messages: Vec<Message> = Vec::new();
        let n = self.messages.len();
        for i in 0..n
            invariant
                n == self.messages@.len(),
                messages@ == self.messages@.subrange(0, i as int),
        {
            messages.push(self.messages[i].clone());
            assert(messages@ =~= self.messages@.subrange(0, i + 1));
        }
        assert(messages@ =~= self.messages@);
        Conversation {
            id: self.id.clone(),
            title: self.title.clone(),
            messages,
            created_at: self.created_at,
            updated_at: self.updated_at,
        }
    }
}

} // verus!
