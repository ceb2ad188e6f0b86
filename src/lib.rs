//! A publish/subscribe abstraction with a null-object backend.
//!
//! `Topic` states what every backend owes a publisher: a fresh identifier for
//! each accepted message, or an explicit failure. `DeliveryLoop` is the
//! consuming side's protocol: one message with the handler at a time, oldest
//! first, settled by a retry policy, stopped cleanly on cancellation. The
//! no-op backend refuses every publish and delivers nothing until cancelled.
pub mod config;
pub mod delivery;
pub mod memory;
pub mod message;
pub mod noop;
pub mod topic;

pub use config::{SubscriptionConfig, SubscriptionMeta, TopicConfig};
pub use delivery::{disposition, Action, DeliveryLoop, Disposition, Event, LoopState, RetryPolicy};
pub use memory::{Envelope, MemoryTopic};
pub use message::{check_ordering_key, MessageData, MessageId, PubSubError};
pub use noop::{NoopCluster, NoopSubscription, NoopTopic};
pub use topic::Topic;
