use vstd::prelude::*;

use crate::message::{key_view, ordering_key_valid, MessageData, MessageId, PubSubError};

verus! {

/// How the identifiers handed out by a topic change over one `publish`:
/// a success adds one identifier never handed out before, a failure adds none.
pub open spec fn publish_outcome(
    before: Set<u64>,
    after: Set<u64>,
    r: Result<MessageId, PubSubError>,
) -> bool {
    match r {
        Ok(id) => !before.contains(id.value) && after == before.insert(id.value),
        Err(_) => after == before,
    }
}

/// The publish side of a logical topic.
pub trait Topic {
    /// Identifiers this topic has handed out so far.
    spec fn issued(&self) -> Set<u64>;

    /// Whether a backend is wired to this topic.
    spec fn configured(&self) -> bool;

    /// Hands `data` to the backend and returns the identifier it assigned.
    fn publish(&mut self, data: MessageData, ordering_key: Option<String>) -> (r: Result<
        MessageId,
        PubSubError,
    >)
        ensures
            final(self).configured() == old(self).configured(),
            publish_outcome(old(self).issued(), final(self).issued(), r),
            !old(self).configured() ==> r == Err::<MessageId, PubSubError>(
                PubSubError::NotConfigured,
            ),
            old(self).configured() && !ordering_key_valid(key_view(&ordering_key)) ==> r == Err::<
                MessageId,
                PubSubError,
            >(PubSubError::EmptyOrderingKey),
    ;
}

/// Two publishes in a row on any topic never return the same identifier.
pub proof fn lemma_sequential_publish_ids_differ(
    s0: Set<u64>,
    s1: Set<u64>,
    s2: Set<u64>,
    r1: Result<MessageId, PubSubError>,
    r2: Result<MessageId, PubSubError>,
)
    requires
        publish_outcome(s0, s1, r1),
        publish_outcome(s1, s2, r2),
        r1 is Ok,
        r2 is Ok,
    ensures
        r1->Ok_0 != r2->Ok_0,
{
    assert(s1.contains(r1->Ok_0.value));
}

} // verus!
