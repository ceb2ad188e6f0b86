use vstd::prelude::*;

use crate::config::{SubscriptionConfig, SubscriptionMeta, TopicConfig};
use crate::delivery::{Action, Event, LoopState};
use crate::message::{MessageData, MessageId, PubSubError};
use crate::topic::Topic;

verus! {

/// A topic with no backend: every publish fails.
#[derive(Clone, Copy, Debug, PartialEq, Eq, Structural)]
pub struct NoopTopic;

impl Topic for NoopTopic {
    open spec fn issued(&self) -> Set<u64> {
        Set::empty()
    }

    open spec fn configured(&self) -> bool {
        false
    }

    fn publish(&mut self, data: MessageData, ordering_key: Option<String>) -> (r: Result<
        MessageId,
        PubSubError,
    >) {
        Err(PubSubError::NotConfigured)
    }
}

/// Declares `xid::Id`, the globally unique id of a publishing process, so that
/// `NoopCluster::topic` can take it; its contents are never read.
#[verifier::external_type_specification]
#[verifier::external_body]
pub struct ExId(xid::Id);

/// A cluster with no backend: it hands out topics that refuse to publish and
/// subscriptions that never deliver.
#[derive(Clone, Copy, Debug, PartialEq, Eq, Structural)]
pub struct NoopCluster;

impl NoopCluster {
    /// The topic for `cfg`; every lookup gives the same, unconfigured topic.
    pub fn topic(&self, cfg: &TopicConfig, publisher_id: xid::Id) -> (r: NoopTopic)
        ensures
            r == NoopTopic,
            !r.configured(),
            r.issued().is_empty(),
    {
        NoopTopic
    }

    /// The subscription for `cfg`; every lookup gives an idle subscription
    /// that will never deliver.
    pub fn subscription(&self, cfg: &SubscriptionConfig, meta: &SubscriptionMeta) -> (r:
        NoopSubscription)
        ensures
            r@ == LoopState::Idle,
    {
        NoopSubscription { state: LoopState::Idle }
    }
}

/// One transition of a subscription with no backend: it starts, waits, and
/// stops when cancelled. It never invokes the handler and never fails.
pub open spec fn noop_step_spec(s: LoopState, e: Event) -> (LoopState, Action) {
    match s {
        LoopState::Stopped | LoopState::Failed => (s, Action::Wait),
        _ => match e {
            Event::Start => if s == LoopState::Idle {
                (LoopState::Delivering, Action::Wait)
            } else {
                (s, Action::Wait)
            },
            Event::Cancel => (LoopState::Stopped, Action::Stop),
            _ => (s, Action::Wait),
        },
    }
}

/// A subscription with no backend: configured but silent.
#[derive(Debug)]
pub struct NoopSubscription {
    state: LoopState,
}

impl View for NoopSubscription {
    type V = LoopState;

    closed spec fn view(&self) -> LoopState {
        self.state
    }
}

impl NoopSubscription {
    /// Current phase.
    pub fn state(&self) -> (r: LoopState)
        ensures
            r == self@,
    {
        self.state
    }

    /// Feeds one event and returns what the runner must do.
    pub fn step(&mut self, e: Event) -> (a: Action)
        ensures
            (final(self)@, a) == noop_step_spec(old(self)@, e),
    {
        match self.state {
            LoopState::Stopped | LoopState::Failed => Action::Wait,
            _ => match e {
                Event::Start => {
                    if self.state == LoopState::Idle {
                        self.state = LoopState::Delivering;
                    }
                    Action::Wait
                },
                Event::Cancel => {
                    self.state = LoopState::Stopped;
                    Action::Stop
                },
                _ => Action::Wait,
            },
        }
    }

    /// Starts delivery: the loop enters `Delivering` and waits, with nothing
    /// to deliver, until it is cancelled.
    pub fn subscribe(&mut self) -> (a: Action)
        ensures
            (final(self)@, a) == noop_step_spec(old(self)@, Event::Start),
            old(self)@ == LoopState::Idle ==> final(self)@ == LoopState::Delivering,
            a == Action::Wait,
    {
        self.step(Event::Start)
    }
}

/// A subscription with no backend after a sequence of events, and the
/// actions it returned.
pub open spec fn noop_run_spec(s: LoopState, es: Seq<Event>) -> (LoopState, Seq<Action>)
    decreases es.len(),
{
    if es.len() == 0 {
        (s, Seq::empty())
    } else {
        let (t, a) = noop_step_spec(s, es[0]);
        let (u, rest) = noop_run_spec(t, es.drop_first());
        (u, seq![a] + rest)
    }
}

/// Whatever events a started subscription with no backend is given, it never
/// asks for the handler to be invoked and never fails; it does not stop
/// unless it is cancelled, and a cancellation stops it at once, cleanly.
pub proof fn lemma_noop_subscription_silent(es: Seq<Event>)
    ensures
        ({
            let (t, acts) = noop_run_spec(LoopState::Delivering, es);
            &&& acts.len() == es.len()
            &&& forall|i: int| 0 <= i < acts.len() ==> !(#[trigger] acts[i] is Invoke)
            &&& forall|i: int| 0 <= i < acts.len() ==> #[trigger] acts[i] != Action::Fail
            &&& !es.contains(Event::Cancel) ==> t == LoopState::Delivering
            &&& es.len() > 0 && es[0] == Event::Cancel ==> acts[0] == Action::Stop && t
                == LoopState::Stopped
        }),
{
    lemma_noop_run(LoopState::Delivering, es);
}

proof fn lemma_noop_run(s: LoopState, es: Seq<Event>)
    requires
        s == LoopState::Delivering || s == LoopState::Stopped,
    ensures
        ({
            let (t, acts) = noop_run_spec(s, es);
            &&& acts.len() == es.len()
            &&& forall|i: int| 0 <= i < acts.len() ==> !(#[trigger] acts[i] is Invoke)
            &&& forall|i: int| 0 <= i < acts.len() ==> #[trigger] acts[i] != Action::Fail
            &&& t == LoopState::Delivering || t == LoopState::Stopped
            &&& s == LoopState::Stopped ==> t == LoopState::Stopped
            &&& !es.contains(Event::Cancel) ==> t == s
            &&& es.contains(Event::Cancel) ==> t == LoopState::Stopped
        }),
    decreases es.len(),
{
    if es.len() > 0 {
        let (t1, a) = noop_step_spec(s, es[0]);
        let rest_es = es.drop_first();
        lemma_noop_run(t1, rest_es);
        let (u, rest) = noop_run_spec(t1, rest_es);
        let acts = seq![a] + rest;
        assert forall|i: int| 0 <= i < acts.len() implies !(#[trigger] acts[i] is Invoke)
            && acts[i] != Action::Fail by {
            if i > 0 {
                assert(acts[i] == rest[i - 1]);
            }
        }
        if !es.contains(Event::Cancel) {
            assert(es[0] != Event::Cancel);
            assert forall|j: int| 0 <= j < rest_es.len() implies rest_es[j] != Event::Cancel by {
                assert(rest_es[j] == es[j + 1]);
            }
        } else {
            let k = choose|k: int| 0 <= k < es.len() && es[k] == Event::Cancel;
            if k > 0 {
                assert(rest_es[k - 1] == Event::Cancel);
            }
        }
    }
}

/// Two lookups of the same topic or subscription give handles in the same
/// state, so they behave identically under the same events.
pub proof fn lemma_noop_lookups_agree(a: NoopSubscription, b: NoopSubscription, es: Seq<Event>)
    requires
        a@ == LoopState::Idle,
        b@ == LoopState::Idle,
    ensures
        noop_run_spec(a@, es) == noop_run_spec(b@, es),
{
}

} // verus!
