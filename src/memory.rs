use vstd::prelude::*;

use crate::message::{
    check_ordering_key, key_view, ordering_key_valid, MessageData, MessageId, PubSubError,
};
use crate::topic::Topic;

verus! {

/// A message as the backend keeps it.
#[derive(Debug)]
pub struct Envelope {
    pub id: MessageId,
    pub data: MessageData,
    pub ordering_key: Option<String>,
}

/// A topic kept in memory: accepted messages are appended to a log, in
/// publish order, and numbered from zero.
#[derive(Debug)]
pub struct MemoryTopic {
    log: Vec<Envelope>,
}

impl View for MemoryTopic {
    type V = Seq<Envelope>;

    closed spec fn view(&self) -> Seq<Envelope> {
        self.log@
    }
}

impl MemoryTopic {
    /// The identifiers of the log, in publish order.
    pub open spec fn ids(&self) -> Seq<u64> {
        self@.map_values(|e: Envelope| e.id.value)
    }

    /// An empty topic.
    pub fn new() -> (r: MemoryTopic)
        ensures
            r.ids().len() == 0,
    {
        MemoryTopic { log: Vec::new() }
    }

    /// Number of messages accepted so far.
    pub fn len(&self) -> (r: usize)
        ensures
            r == self.ids().len(),
    {
        self.log.len()
    }

    /// The message accepted at position `i`.
    pub fn entry(&self, i: usize) -> (r: &Envelope)
        requires
            i < self.ids().len(),
        ensures
            r.id.value == self.ids()[i as int],
            *r == self@[i as int],
    {
        &self.log[i]
    }
}

impl Topic for MemoryTopic {
    open spec fn issued(&self) -> Set<u64> {
        Set::new(|v: u64| v < self@.len())
    }

    open spec fn configured(&self) -> bool {
        true
    }

    fn publish(&mut self, data: MessageData, ordering_key: Option<String>) -> (r: Result<
        MessageId,
        PubSubError,
    >)
        ensures
            ordering_key_valid(key_view(&ordering_key)) && old(self)@.len() < u64::MAX ==> r
                == Ok::<MessageId, PubSubError>(MessageId { value: old(self)@.len() as u64 }),
            ordering_key_valid(key_view(&ordering_key)) && old(self)@.len() >= u64::MAX ==> r
                == Err::<MessageId, PubSubError>(PubSubError::IdsExhausted),
            r is Ok ==> final(self)@ == old(self)@.push(
                Envelope { id: r->Ok_0, data, ordering_key },
            ),
            r is Err ==> final(self)@ == old(self)@,
    {
        if !check_ordering_key(&ordering_key) {
            return Err(PubSubError::EmptyOrderingKey);
        }
        let n = self.log.len();
        if n as u64 >= u64::MAX {
            return Err(PubSubError::IdsExhausted);
        }
        let id = MessageId { value: n as u64 };
        self.log.push(Envelope { id, data, ordering_key });
        assert(self.issued() =~= old(self).issued().insert(id.value));
        Ok(id)
    }
}

} // verus!
