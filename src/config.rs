use vstd::prelude::*;

use crate::delivery::RetryPolicy;

verus! {

/// Declarative settings of a topic.
#[derive(Debug)]
pub struct TopicConfig {
    pub name: String,
    pub ordered: bool,
}

/// Declarative settings of a subscription.
#[derive(Debug)]
pub struct SubscriptionConfig {
    pub name: String,
    pub topic: String,
    pub max_attempts: u32,
    pub dead_letter_topic: Option<String>,
}

/// What the application's metadata says of a subscription's topic.
#[derive(Debug)]
pub struct SubscriptionMeta {
    pub topic: String,
    pub ordered: bool,
}

impl SubscriptionConfig {
    /// The retry policy that these settings describe.
    pub fn retry_policy(&self) -> (r: RetryPolicy)
        ensures
            r.max_attempts == self.max_attempts,
            r.dead_letter == self.dead_letter_topic.is_some(),
    {
        RetryPolicy { max_attempts: self.max_attempts, dead_letter: self.dead_letter_topic.is_some() }
    }
}

} // verus!
