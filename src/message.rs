use vstd::prelude::*;
use std::collections::HashMap;

verus! {

/// One entry of a receive response, as the queue service hands it over:
/// every field may be absent.
#[derive(Debug, Clone)]
pub struct QueueEntry {
    pub message_id: Option<String>,
    pub receipt_handle: Option<String>,
    pub body: Option<String>,
    pub attributes: Option<HashMap<String, String>>,
}

/// A message received from the queue.
#[derive(Debug, Clone)]
pub struct Message {
    /// Identifier the queue assigned to the message.
    pub message_id: String,
    /// Token that deletes this delivery of the message.
    pub receipt_handle: String,
    /// The payload.
    pub body: String,
    /// Attributes, by name.
    pub attributes: HashMap<String, String>,
}

/// The text of an optional field, or the empty text where it is absent.
pub open spec fn text_or_empty(t: Option<String>) -> Seq<char> {
    match t {
        Some(s) => s@,
        None => Seq::empty(),
    }
}

/// Whether `m` is the translation of `e`: each present field is carried over
/// unchanged, and each absent one becomes empty.
pub open spec fn translates(e: QueueEntry, m: Message) -> bool {
    &&& m.message_id@ == text_or_empty(e.message_id)
    &&& m.receipt_handle@ == text_or_empty(e.receipt_handle)
    &&& m.body@ == text_or_empty(e.body)
    &&& match e.attributes {
        Some(a) => m.attributes == a,
        None => m.attributes@ == Map::<String, String>::empty(),
    }
}

fn text_or_empty_exec(t: Option<String>) -> (r: String)
    ensures
        r@ == text_or_empty(t),
{
    match t {
        Some(s) => s,
        None => String::new(),
    }
}

impl Message {
    /// Translates a queue entry; absent fields become empty.
    pub fn from_entry(e: QueueEntry) -> (m: Message)
        ensures
            translates(e, m),
    {
        let attributes = match e.attributes {
            Some(a) => a,
            None => HashMap::new(),
        };
        Message {
            message_id: text_or_empty_exec(e.message_id),
            receipt_handle: text_or_empty_exec(e.receipt_handle),
            body: text_or_empty_exec(e.body),
            attributes,
        }
    }
}

} // verus!
