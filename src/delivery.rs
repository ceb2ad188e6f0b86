use vstd::prelude::*;

use crate::message::MessageId;

verus! {

/// Phase of a subscription's delivery loop. `Draining` is a loop that was
/// cancelled while a handler was still running: it waits for that outcome.
#[derive(Clone, Copy, Debug, PartialEq, Eq, Structural)]
pub enum LoopState {
    Idle,
    Delivering,
    Draining,
    Stopped,
    Failed,
}

/// What the loop is told about the outside world.
#[derive(Clone, Copy, Debug, PartialEq, Eq, Structural)]
pub enum Event {
    /// `subscribe` was called.
    Start,
    /// The backend handed over a message.
    Received(MessageId),
    /// The runner is ready for the next piece of work.
    Poll,
    /// The handler processed the message in flight.
    HandlerSucceeded,
    /// The handler reported a failure for the message in flight.
    HandlerFailed,
    /// The caller cancelled the subscription.
    Cancel,
    /// The backend reported an unrecoverable condition.
    BackendFatal,
}

/// What the runner must do next.
#[derive(Clone, Copy, Debug, PartialEq, Eq, Structural)]
pub enum Action {
    /// Nothing to do until the next event.
    Wait,
    /// Invoke the handler once on this message.
    Invoke(MessageId),
    /// Acknowledge the message to the backend.
    Ack(MessageId),
    /// Hand the message back to the backend for a later attempt.
    Redeliver(MessageId),
    /// Route the message to the dead-letter destination.
    DeadLetter(MessageId),
    /// Give the message up: attempts are spent and no dead-letter destination exists.
    Discard(MessageId),
    /// The loop ended by cancellation: a clean stop.
    Stop,
    /// The loop ended on an unrecoverable backend condition.
    Fail,
}

/// How often a message is tried, and where it goes when attempts run out.
#[derive(Clone, Copy, Debug, PartialEq, Eq, Structural)]
pub struct RetryPolicy {
    pub max_attempts: u32,
    pub dead_letter: bool,
}

/// What becomes of a message once the handler's outcome is known.
#[derive(Clone, Copy, Debug, PartialEq, Eq, Structural)]
pub enum Disposition {
    Ack,
    Redeliver,
    DeadLetter,
    Discard,
}

pub open spec fn disposition_spec(policy: RetryPolicy, attempts: nat, succeeded: bool) -> Disposition {
    if succeeded {
        Disposition::Ack
    } else if attempts < policy.max_attempts {
        Disposition::Redeliver
    } else if policy.dead_letter {
        Disposition::DeadLetter
    } else {
        Disposition::Discard
    }
}

/// Decides the fate of a message after its `attempts`-th handler invocation.
pub fn disposition(policy: RetryPolicy, attempts: u32, succeeded: bool) -> (r: Disposition)
    ensures
        r == disposition_spec(policy, attempts as nat, succeeded),
{
    if succeeded {
        Disposition::Ack
    } else if attempts < policy.max_attempts {
        Disposition::Redeliver
    } else if policy.dead_letter {
        Disposition::DeadLetter
    } else {
        Disposition::Discard
    }
}

/// The abstract state of a delivery loop: its phase, the messages received
/// and not yet settled (oldest first), whether the oldest is with the handler,
/// and how many times it has been handed to the handler.
pub struct LoopView {
    pub state: LoopState,
    pub pending: Seq<MessageId>,
    pub in_flight: bool,
    pub attempts: nat,
    pub policy: RetryPolicy,
    /// Every message the loop accepted, in arrival order.
    pub received: Seq<MessageId>,
    /// Every message settled (acknowledged, dead-lettered or discarded), in order.
    pub settled: Seq<MessageId>,
}

pub open spec fn loop_wf(s: LoopView) -> bool {
    &&& s.in_flight ==> s.pending.len() > 0 && 1 <= s.attempts && (s.attempts <= s.policy.max_attempts
        || s.attempts == 1)
    &&& !s.in_flight ==> (s.attempts == 0 || s.attempts < s.policy.max_attempts)
    &&& s.state == LoopState::Draining ==> s.in_flight
    &&& s.state == LoopState::Idle ==> !s.in_flight
    &&& s.settled + s.pending == s.received
}

pub open spec fn disposition_action(d: Disposition, id: MessageId) -> Action {
    match d {
        Disposition::Ack => Action::Ack(id),
        Disposition::Redeliver => Action::Redeliver(id),
        Disposition::DeadLetter => Action::DeadLetter(id),
        Disposition::Discard => Action::Discard(id),
    }
}

/// The handler's outcome for the message in flight is known.
pub open spec fn settle_spec(s: LoopView, succeeded: bool) -> (LoopView, Action) {
    let d = disposition_spec(s.policy, s.attempts, succeeded);
    let next_state = if s.state == LoopState::Draining {
        LoopState::Stopped
    } else {
        s.state
    };
    let after = if d == Disposition::Redeliver {
        LoopView { state: next_state, in_flight: false, ..s }
    } else {
        LoopView {
            state: next_state,
            pending: s.pending.drop_first(),
            in_flight: false,
            attempts: 0,
            settled: s.settled.push(s.pending[0]),
            ..s
        }
    };
    (after, disposition_action(d, s.pending[0]))
}

/// One transition of the delivery loop.
pub open spec fn step_spec(s: LoopView, e: Event) -> (LoopView, Action) {
    match s.state {
        LoopState::Stopped | LoopState::Failed => (s, Action::Wait),
        LoopState::Idle => match e {
            Event::Start => (LoopView { state: LoopState::Delivering, ..s }, Action::Wait),
            Event::Received(id) => (
                LoopView { pending: s.pending.push(id), received: s.received.push(id), ..s },
                Action::Wait,
            ),
            Event::Cancel => (LoopView { state: LoopState::Stopped, ..s }, Action::Stop),
            Event::BackendFatal => (LoopView { state: LoopState::Failed, ..s }, Action::Fail),
            _ => (s, Action::Wait),
        },
        LoopState::Delivering | LoopState::Draining => match e {
            Event::Received(id) => if s.state == LoopState::Delivering {
                (
                    LoopView { pending: s.pending.push(id), received: s.received.push(id), ..s },
                    Action::Wait,
                )
            } else {
                (s, Action::Wait)
            },
            Event::Poll => if s.state == LoopState::Delivering && !s.in_flight && s.pending.len()
                > 0 {
                (
                    LoopView { in_flight: true, attempts: s.attempts + 1, ..s },
                    Action::Invoke(s.pending[0]),
                )
            } else {
                (s, Action::Wait)
            },
            Event::HandlerSucceeded => if s.in_flight {
                settle_spec(s, true)
            } else {
                (s, Action::Wait)
            },
            Event::HandlerFailed => if s.in_flight {
                settle_spec(s, false)
            } else {
                (s, Action::Wait)
            },
            Event::Cancel => if s.in_flight {
                (LoopView { state: LoopState::Draining, ..s }, Action::Wait)
            } else {
                (LoopView { state: LoopState::Stopped, ..s }, Action::Stop)
            },
            Event::BackendFatal => (LoopView { state: LoopState::Failed, ..s }, Action::Fail),
            Event::Start => (s, Action::Wait),
        },
    }
}

/// A subscription's delivery loop: it hands received messages to the handler
/// one at a time, oldest first, and settles each by the retry policy.
pub struct DeliveryLoop {
    state: LoopState,
    pending: Vec<MessageId>,
    in_flight: bool,
    attempts: u32,
    policy: RetryPolicy,
    received: Ghost<Seq<MessageId>>,
    settled: Ghost<Seq<MessageId>>,
}

impl View for DeliveryLoop {
    type V = LoopView;

    closed spec fn view(&self) -> LoopView {
        LoopView {
            state: self.state,
            pending: self.pending@,
            in_flight: self.in_flight,
            attempts: self.attempts as nat,
            policy: self.policy,
            received: self.received@,
            settled: self.settled@,
        }
    }
}

impl DeliveryLoop {
    pub open spec fn wf(&self) -> bool {
        loop_wf(self@)
    }

    /// An idle loop with nothing received.
    pub fn new(policy: RetryPolicy) -> (r: DeliveryLoop)
        ensures
            r.wf(),
            r@ == (LoopView {
                state: LoopState::Idle,
                pending: Seq::empty(),
                in_flight: false,
                attempts: 0,
                policy,
                received: Seq::empty(),
                settled: Seq::empty(),
            }),
    {
        let r = DeliveryLoop {
            state: LoopState::Idle,
            pending: Vec::new(),
            in_flight: false,
            attempts: 0,
            policy,
            received: Ghost(Seq::empty()),
            settled: Ghost(Seq::empty()),
        };
        assert(r@.settled + r@.pending =~= r@.received);
        r
    }

    /// Current phase.
    pub fn state(&self) -> (r: LoopState)
        ensures
            r == self@.state,
    {
        self.state
    }

    fn settle(&mut self, succeeded: bool) -> (a: Action)
        requires
            old(self).wf(),
            old(self)@.in_flight,
            old(self)@.state == LoopState::Delivering || old(self)@.state == LoopState::Draining,
        ensures
            final(self).wf(),
            (final(self)@, a) == settle_spec(old(self)@, succeeded),
    {
        let id = self.pending[0];
        let d = disposition(self.policy, self.attempts, succeeded);
        if self.state == LoopState::Draining {
            self.state = LoopState::Stopped;
        }
        self.in_flight = false;
        match d {
            Disposition::Redeliver => Action::Redeliver(id),
            _ => {
                self.pending.remove(0);
                self.attempts = 0;
                self.settled = Ghost(self.settled@.push(id));
                assert(self.pending@ =~= old(self)@.pending.drop_first());
                assert(self.settled@ + self.pending@ =~= self.received@);
                match d {
                    Disposition::Ack => Action::Ack(id),
                    Disposition::DeadLetter => Action::DeadLetter(id),
                    _ => Action::Discard(id),
                }
            }
        }
    }

    /// Feeds one event to the loop and returns what the runner must do.
    pub fn step(&mut self, e: Event) -> (a: Action)
        requires
            old(self).wf(),
        ensures
            final(self).wf(),
            (final(self)@, a) == step_spec(old(self)@, e),
    {
        match self.state {
            LoopState::Stopped | LoopState::Failed => Action::Wait,
            LoopState::Idle => match e {
                Event::Start => {
                    self.state = LoopState::Delivering;
                    Action::Wait
                },
                Event::Received(id) => {
                    self.pending.push(id);
                    self.received = Ghost(self.received@.push(id));
                    assert(self.settled@ + self.pending@ =~= self.received@);
                    Action::Wait
                },
                Event::Cancel => {
                    self.state = LoopState::Stopped;
                    Action::Stop
                },
                Event::BackendFatal => {
                    self.state = LoopState::Failed;
                    Action::Fail
                },
                _ => Action::Wait,
            },
            LoopState::Delivering | LoopState::Draining => match e {
                Event::Received(id) => {
                    if self.state == LoopState::Delivering {
                        self.pending.push(id);
                        self.received = Ghost(self.received@.push(id));
                        assert(self.settled@ + self.pending@ =~= self.received@);
                    }
                    Action::Wait
                },
                Event::Poll => {
                    if self.state == LoopState::Delivering && !self.in_flight && self.pending.len()
                        > 0 {
                        self.in_flight = true;
                        self.attempts = self.attempts + 1;
                        Action::Invoke(self.pending[0])
                    } else {
                        Action::Wait
                    }
                },
                Event::HandlerSucceeded => {
                    if self.in_flight {
                        self.settle(true)
                    } else {
                        Action::Wait
                    }
                },
                Event::HandlerFailed => {
                    if self.in_flight {
                        self.settle(false)
                    } else {
                        Action::Wait
                    }
                },
                Event::Cancel => {
                    if self.in_flight {
                        self.state = LoopState::Draining;
                        Action::Wait
                    } else {
                        self.state = LoopState::Stopped;
                        Action::Stop
                    }
                },
                Event::BackendFatal => {
                    self.state = LoopState::Failed;
                    Action::Fail
                },
                Event::Start => Action::Wait,
            },
        }
    }
}

/// The loop after a sequence of events, and the actions it returned.
pub open spec fn run_spec(s: LoopView, es: Seq<Event>) -> (LoopView, Seq<Action>)
    decreases es.len(),
{
    if es.len() == 0 {
        (s, Seq::empty())
    } else {
        let (t, a) = step_spec(s, es[0]);
        let (u, rest) = run_spec(t, es.drop_first());
        (u, seq![a] + rest)
    }
}

/// The handler always gets the oldest message not yet settled, and one
/// step only appends to what was received and to what was settled.
pub proof fn lemma_step_in_arrival_order(s: LoopView, e: Event)
    requires
        loop_wf(s),
    ensures
        ({
            let (t, a) = step_spec(s, e);
            &&& loop_wf(t)
            &&& s.received.len() <= t.received.len()
            &&& s.settled.len() <= t.settled.len()
            &&& t.received.subrange(0, s.received.len() as int) == s.received
            &&& t.settled.subrange(0, s.settled.len() as int) == s.settled
            &&& t.settled.len() <= s.settled.len() + 1
            &&& a is Invoke ==> a->Invoke_0 == s.received[s.settled.len() as int]
            &&& t.settled.len() == s.settled.len() + 1 ==> t.settled.last() == s.received[s.settled.len() as int]
        }),
{
    let (t, a) = step_spec(s, e);
    assert(s.received == s.settled + s.pending);
    if s.pending.len() > 0 {
        assert(s.received[s.settled.len() as int] == s.pending[0]);
    }
    assert(t.settled + t.pending =~= t.received);
    assert(t.received.subrange(0, s.received.len() as int) =~= s.received);
    assert(t.settled.subrange(0, s.settled.len() as int) =~= s.settled);
}

/// Over any sequence of events, messages are settled in the order in which
/// they arrived: what was settled is always the oldest part of what was
/// received, and earlier arrivals and settlements are never reordered.
pub proof fn lemma_run_in_arrival_order(s: LoopView, es: Seq<Event>)
    requires
        loop_wf(s),
    ensures
        ({
            let (t, acts) = run_spec(s, es);
            &&& loop_wf(t)
            &&& s.received.len() <= t.received.len()
            &&& s.settled.len() <= t.settled.len()
            &&& t.received.subrange(0, s.received.len() as int) == s.received
            &&& t.settled.subrange(0, s.settled.len() as int) == s.settled
            &&& t.settled == t.received.subrange(0, t.settled.len() as int)
        }),
    decreases es.len(),
{
    if es.len() > 0 {
        let (t1, a) = step_spec(s, es[0]);
        lemma_step_in_arrival_order(s, es[0]);
        lemma_run_in_arrival_order(t1, es.drop_first());
        let (t, acts) = run_spec(s, es);
        assert(t.received.subrange(0, s.received.len() as int) =~= t.received.subrange(
            0,
            t1.received.len() as int,
        ).subrange(0, s.received.len() as int));
        assert(t.settled.subrange(0, s.settled.len() as int) =~= t.settled.subrange(
            0,
            t1.settled.len() as int,
        ).subrange(0, s.settled.len() as int));
    }
    let (t, acts) = run_spec(s, es);
    assert(t.settled == t.received.subrange(0, t.settled.len() as int)) by {
        assert(t.settled + t.pending == t.received);
        assert(t.received.subrange(0, t.settled.len() as int) =~= t.settled);
    }
}

} // verus!
