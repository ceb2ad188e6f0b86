use vstd::prelude::*;

verus! {

/// Identifier that a backend assigns to an accepted message.
#[derive(Clone, Copy, Debug, PartialEq, Eq, Structural)]
pub struct MessageId {
    pub value: u64,
}

/// Payload bytes with string attributes; attribute keys are unique.
#[derive(Debug)]
pub struct MessageData {
    pub payload: Vec<u8>,
    pub attributes: Vec<(String, String)>,
}

/// Why an operation on a topic or a subscription did not succeed.
#[derive(Clone, Copy, Debug, PartialEq, Eq, Structural)]
pub enum PubSubError {
    /// No backend is wired to this topic or subscription.
    NotConfigured,
    /// An ordering key was given but it is the empty string.
    EmptyOrderingKey,
    /// The backend has no fresh identifier left to hand out.
    IdsExhausted,
}

impl MessageData {
    pub open spec fn attribute_keys_unique(&self) -> bool {
        forall|i: int, j: int|
            0 <= i < j < self.attributes@.len() ==> #[trigger] self.attributes@[i].0@
                != #[trigger] self.attributes@[j].0@
    }

    /// A message with the given payload and no attributes.
    pub fn new(payload: Vec<u8>) -> (r: MessageData)
        ensures
            r.payload@ == payload@,
            r.attributes@.len() == 0,
            r.attribute_keys_unique(),
    {
        MessageData { payload, attributes: Vec::new() }
    }
}

/// An ordering key is either absent or a non-empty string.
pub open spec fn ordering_key_valid(key: Option<Seq<char>>) -> bool {
    match key {
        Some(k) => k.len() > 0,
        None => true,
    }
}

pub open spec fn key_view(key: &Option<String>) -> Option<Seq<char>> {
    match key {
        Some(k) => Some(k@),
        None => None,
    }
}

/// Whether `key` may be passed to `publish`.
pub fn check_ordering_key(key: &Option<String>) -> (r: bool)
    ensures
        r == ordering_key_valid(key_view(key)),
{
    match key {
        Some(k) => !k.as_str().is_empty(),
        None => true,
    }
}

} // verus!
