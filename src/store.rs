use vstd::prelude::*;
use vstd::string::StringExecFns;

use crate::external::{fresh_id, unix_time_secs};
use crate::model::{Conversation, ConversationView, Message, MessageView};

verus! {

/// Whether some conversation in `s` has the id `id`.
pub open spec fn has_id(s: Seq<ConversationView>, id: Seq<char>) -> bool {
    exists|i: int| 0 <= i < s.len() && #[trigger] s[i].id == id
}

/// No two conversations in `s` share an id.
pub open spec fn unique_ids(s: Seq<ConversationView>) -> bool {
    forall|i: int, j: int|
        0 <= i < s.len() && 0 <= j < s.len() && i != j ==> #[trigger] s[i].id != #[trigger] s[j].id
}

/// The views of a sequence of conversations.
pub open spec fn conversation_views(cs: Seq<Conversation>) -> Seq<ConversationView> {
    cs.map_values(|c: Conversation| c@)
}

/// The message that the send command builds.
pub open spec fn user_message(id: Seq<char>, content: Seq<char>, timestamp: u64) -> MessageView {
    MessageView { id, role: "user"@, content, timestamp }
}

/// A conversation that holds no message yet.
pub open spec fn new_conversation(id: Seq<char>, title: Seq<char>, now: u64) -> ConversationView {
    ConversationView { id, title, messages: Seq::empty(), created_at: now, updated_at: now }
}

/// `c` with `m` appended and its update time set to the time of `m`.
pub open spec fn with_message(c: ConversationView, m: MessageView) -> ConversationView {
    ConversationView { messages: c.messages.push(m), updated_at: m.timestamp, ..c }
}

/// The store after a conversation `c` is inserted: it replaces the entry with the
/// same id, or is added after the others.
pub open spec fn store_insert(s: Seq<ConversationView>, c: ConversationView) -> Seq<ConversationView> {
    if has_id(s, c.id) {
        let i = choose|i: int| 0 <= i < s.len() && #[trigger] s[i].id == c.id;
        s.update(i, c)
    } else {
        s.push(c)
    }
}

/// The store after `m` is sent to the conversation with id `id`: appended there, or
/// nothing changes when no conversation has that id.
pub open spec fn store_send(s: Seq<ConversationView>, id: Seq<char>, m: MessageView) -> Seq<ConversationView> {
    if has_id(s, id) {
        let i = choose|i: int| 0 <= i < s.len() && #[trigger] s[i].id == id;
        s.update(i, with_message(s[i], m))
    } else {
        s
    }
}

/// The store after the conversation with id `id` is removed, if there is one.
pub open spec fn store_remove(s: Seq<ConversationView>, id: Seq<char>) -> Seq<ConversationView> {
    if has_id(s, id) {
        let i = choose|i: int| 0 <= i < s.len() && #[trigger] s[i].id == id;
        s.remove(i)
    } else {
        s
    }
}

/// The table of conversations, keyed by their ids.
pub struct AppState {
    conversations: Vec<Conversation>,
}

impl View for AppState {
    type V = Seq<ConversationView>;

    closed spec fn view(&self) -> Seq<ConversationView> {
        conversation_views(self.conversations@)
    }
}

impl AppState {
    /// The store's invariant: conversation ids are unique.
    pub open spec fn wf(&self) -> bool {
        unique_ids(self@)
    }

    /// An empty store.
    pub fn new() -> (r: AppState)
        ensures
            r.wf(),
            r@ == Seq::<ConversationView>::empty(),
    {
        let r = AppState { conversations: Vec::new() };
        assert(r@ =~= Seq::<ConversationView>::empty());
        r
    }

    /// The position of the conversation with id `id`, if there is one.
    fn position_of(&self, id: &String) -> (r: Option<usize>)
        requires
            self.wf(),
        ensures
            match r {
                Some(i) => i < self@.len() && self@[i as int].id == id@,
                None => !has_id(self@, id@),
            },
    {
        let n = self.conversations.len();
        for i in 0..n
            invariant
                n == self.conversations@.len(),
                forall|j: int| 0 <= j < i ==> #[trigger] self@[j].id != id@,
        {
            if self.conversations[i].id == *id {
                return Some(i);
            }
        }
        None
    }
}

impl Default for AppState {
    fn default() -> (r: AppState)
        ensures
            r.wf(),
            r@ == Seq::<ConversationView>::empty(),
    {
        AppState::new()
    }
}

/// A copy of every conversation in the store.
pub fn get_conversations(state: &AppState) -> (r: Vec<Conversation>)
    ensures
        conversation_views(r@) == state@,
{
    let n = state.conversations.len();
    let mut r: Vec<Conversation> = Vec::new();
    for i in 0..n
        invariant
            n == state.conversations@.len(),
            state@.len() == n,
            r@.len() == i,
            conversation_views(r@) == state@.subrange(0, i as int),
    {
        let c = state.conversations[i].clone();
        r.push(c);
        assert(conversation_views(r@)[i as int] == c@);
        assert(conversation_views(r@) =~= state@.subrange(0, i + 1));
    }
    assert(state@.subrange(0, n as int) =~= state@);
    r
}

/// Inserts a new, empty conversation with the given id, title and creation time,
/// replacing any conversation that has the same id, and returns a copy of it.
pub fn create_conversation_at(state: &mut AppState, title: &str, id: String, now: u64) -> (r: Conversation)
    requires
        old(state).wf(),
    ensures
        r@ == new_conversation(id@, title@, now),
        final(state).wf(),
        final(state)@ == store_insert(old(state)@, r@),
{
    let pos = state.position_of(&id);
    let conversation = Conversation {
        id,
        title: String::from_str(title),
        messages: Vec::new(),
        created_at: now,
        updated_at: now,
    };
    assert(conversation@.messages =~= Seq::<MessageView>::empty());
    let ghost s = old(state)@;
    let stored = conversation.clone();
    match pos {
        Some(i) => {
            state.conversations.set(i, stored);
            proof {
                let k = choose|k: int| 0 <= k < s.len() && #[trigger] s[k].id == conversation@.id;
                assert(k == i);
                assert(state@ =~= s.update(i as int, conversation@));
            }
        },
        None => {
            state.conversations.push(stored);
            assert(state@ =~= s.push(conversation@));
        },
    }
    conversation
}

/// Builds a user message from the given id, content and time, and appends it to the
/// conversation with id `conversation_id` when there is one; the store is left as it
/// was otherwise. The message is returned in either case.
pub fn send_message_at(
    state: &mut AppState,
    conversation_id: &str,
    content: &str,
    id: String,
    timestamp: u64,
) -> (r: Message)
    requires
        old(state).wf(),
    ensures
        r@ == user_message(id@, content@, timestamp),
        final(state).wf(),
        final(state)@ == store_send(old(state)@, conversation_id@, r@),
{
    let message = Message { id, role: String::from_str("user"), content: String::from_str(content), timestamp };
    let key = String::from_str(conversation_id);
    let ghost s = old(state)@;
    match state.position_of(&key) {
        Some(i) => {
            let mut conversation = state.conversations[i].clone();
            let ghost before = conversation@;
            conversation.messages.push(message.clone());
            conversation.updated_at = message.timestamp;
            assert(conversation@ == with_message(before, message@)) by {
                assert(conversation@.messages =~= before.messages.push(message@));
            }
            state.conversations.set(i, conversation);
            proof {
                let k = choose|k: int| 0 <= k < s.len() && #[trigger] s[k].id == key@;
                assert(k == i);
                assert(state@ =~= s.update(i as int, with_message(s[i as int], message@)));
            }
        },
        None => {},
    }
    message
}

/// Removes the conversation with id `id`; the result tells whether there was one.
pub fn delete_conversation(state: &mut AppState, id: &str) -> (r: Result<bool, String>)
    requires
        old(state).wf(),
    ensures
        r == Ok::<bool, String>(has_id(old(state)@, id@)),
        final(state).wf(),
        final(state)@ == store_remove(old(state)@, id@),
{
    let key = String::from_str(id);
    let ghost s = old(state)@;
    match state.position_of(&key) {
        Some(i) => {
            state.conversations.remove(i);
            proof {
                let k = choose|k: int| 0 <= k < s.len() && #[trigger] s[k].id == key@;
                assert(k == i);
                assert(state@ =~= s.remove(i as int));
                assert forall|a: int, b: int|
                    0 <= a < state@.len() && 0 <= b < state@.len() && a != b implies
                    #[trigger] state@[a].id != #[trigger] state@[b].id by {
                    let a0 = if a < i { a } else { a + 1 };
                    let b0 = if b < i { b } else { b + 1 };
                    assert(state@[a] == s[a0] && state@[b] == s[b0]);
                }
            }
            Ok(true)
        },
        None => Ok(false),
    }
}

/// The error returned when the system clock reads a time before the Unix epoch.
pub open spec fn clock_error() -> Seq<char> {
    "system clock is set before the Unix epoch"@
}

/// The clock error as a string.
fn clock_error_string() -> (r: String)
    ensures
        r@ == clock_error(),
{
    String::from_str("system clock is set before the Unix epoch")
}

/// Creates a conversation with a fresh random id, the current time and no message,
/// inserts it and returns a copy. Fails, leaving the store as it was, only when the
/// system clock reads a time before the Unix epoch.
pub fn create_conversation(state: &mut AppState, title: &str) -> (r: Result<Conversation, String>)
    requires
        old(state).wf(),
    ensures
        final(state).wf(),
        match r {
            Ok(c) => {
                &&& c@ == new_conversation(c@.id, title@, c@.created_at)
                &&& c@.id.len() == 36
                &&& final(state)@ == store_insert(old(state)@, c@)
            },
            Err(e) => e@ == clock_error() && final(state)@ == old(state)@,
        },
{
    let id = fresh_id();
    match unix_time_secs() {
        Some(now) => Ok(create_conversation_at(state, title, id, now)),
        None => Err(clock_error_string()),
    }
}

/// Builds a user message with a fresh random id and the current time, appends it to
/// the conversation with id `conversation_id` when there is one, and returns it.
/// Fails, leaving the store as it was, only when the system clock reads a time
/// before the Unix epoch.
pub fn send_message(state: &mut AppState, conversation_id: &str, content: &str) -> (r: Result<
    Message,
    String,
>)
    requires
        old(state).wf(),
    ensures
        final(state).wf(),
        match r {
            Ok(m) => {
                &&& m@ == user_message(m@.id, content@, m@.timestamp)
                &&& m@.id.len() == 36
                &&& final(state)@ == store_send(old(state)@, conversation_id@, m@)
            },
            Err(e) => e@ == clock_error() && final(state)@ == old(state)@,
        },
{
    let id = fresh_id();
    match unix_time_secs() {
        Some(timestamp) => Ok(send_message_at(state, conversation_id, content, id, timestamp)),
        None => Err(clock_error_string()),
    }
}

} // verus!
