use vstd::prelude::*;

use crate::model::{ConversationView, MessageView};
use crate::store::{has_id, store_insert, store_remove, store_send, unique_ids, with_message};

verus! {

/// After a conversation is created, the listing holds it exactly once: one entry
/// equals it and no other entry has its id. Ids stay unique.
pub proof fn law_created_listed_once(s: Seq<ConversationView>, c: ConversationView)
    requires
        unique_ids(s),
    ensures
        unique_ids(store_insert(s, c)),
        exists|i: int|
            0 <= i < store_insert(s, c).len() && store_insert(s, c)[i] == c && forall|j: int|
                0 <= j < store_insert(s, c).len() && j != i ==> #[trigger] store_insert(s, c)[j].id != c.id,
{
    let t = store_insert(s, c);
    if has_id(s, c.id) {
        let k = choose|k: int| 0 <= k < s.len() && #[trigger] s[k].id == c.id;
        assert(t[k] == c);
        assert forall|j: int| 0 <= j < t.len() && j != k implies #[trigger] t[j].id != c.id by {
            assert(t[j] == s[j]);
        }
    } else {
        let k = s.len() as int;
        assert(t[k] == c);
        assert forall|j: int| 0 <= j < t.len() && j != k implies #[trigger] t[j].id != c.id by {
            assert(t[j] == s[j]);
        }
    }
}

/// Sending a message to an existing conversation appends exactly that one message to
/// it and sets its update time to the message's time; every other entry is kept.
pub proof fn law_send_appends_one(s: Seq<ConversationView>, id: Seq<char>, m: MessageView)
    requires
        unique_ids(s),
        has_id(s, id),
    ensures
        unique_ids(store_send(s, id, m)),
        store_send(s, id, m).len() == s.len(),
        exists|i: int|
            {
                &&& 0 <= i < s.len()
                &&& s[i].id == id
                &&& store_send(s, id, m)[i] == with_message(s[i], m)
                &&& store_send(s, id, m)[i].messages == s[i].messages.push(m)
                &&& store_send(s, id, m)[i].messages.len() == s[i].messages.len() + 1
                &&& store_send(s, id, m)[i].updated_at == m.timestamp
                &&& forall|j: int| 0 <= j < s.len() && j != i ==> #[trigger] store_send(s, id, m)[j] == s[j]
            },
{
    let t = store_send(s, id, m);
    let k = choose|k: int| 0 <= k < s.len() && #[trigger] s[k].id == id;
    assert(t[k] == with_message(s[k], m));
    assert forall|a: int, b: int| 0 <= a < t.len() && 0 <= b < t.len() && a != b implies
        #[trigger] t[a].id != #[trigger] t[b].id by {
        assert(t[a].id == s[a].id && t[b].id == s[b].id);
    }
}

/// Sending a message to an id that no conversation has leaves the store unchanged.
pub proof fn law_send_to_missing_is_noop(s: Seq<ConversationView>, id: Seq<char>, m: MessageView)
    requires
        !has_id(s, id),
    ensures
        store_send(s, id, m) == s,
{
}

/// Deleting an existing id removes exactly that conversation and keeps the others;
/// deleting a missing id leaves the store unchanged.
pub proof fn law_delete(s: Seq<ConversationView>, id: Seq<char>)
    requires
        unique_ids(s),
    ensures
        unique_ids(store_remove(s, id)),
        has_id(s, id) ==> {
            &&& !has_id(store_remove(s, id), id)
            &&& store_remove(s, id).len() == s.len() - 1
            &&& forall|j: int|
                0 <= j < s.len() && s[j].id != id ==> store_remove(s, id).contains(#[trigger] s[j])
        },
        !has_id(s, id) ==> store_remove(s, id) == s,
{
    if has_id(s, id) {
        let t = store_remove(s, id);
        let k = choose|k: int| 0 <= k < s.len() && #[trigger] s[k].id == id;
        assert forall|j: int| 0 <= j < s.len() && s[j].id != id implies t.contains(#[trigger] s[j]) by {
            if j < k {
                assert(t[j] == s[j]);
            } else {
                assert(t[j - 1] == s[j]);
            }
        }
        assert forall|a: int, b: int| 0 <= a < t.len() && 0 <= b < t.len() && a != b implies
            #[trigger] t[a].id != #[trigger] t[b].id by {
            let a0 = if a < k { a } else { a + 1 };
            let b0 = if b < k { b } else { b + 1 };
            assert(t[a] == s[a0] && t[b] == s[b0]);
        }
        if has_id(t, id) {
            let w = choose|w: int| 0 <= w < t.len() && #[trigger] t[w].id == id;
            let w0 = if w < k { w } else { w + 1 };
            assert(t[w] == s[w0]);
        }
    }
}

} // verus!
