use vstd::prelude::*;

verus! {

/// The broker operation that a transport failure came from.
#[derive(Debug, Clone, Copy, PartialEq, Eq, Structural)]
pub enum TransportOp {
    Connect,
    Subscribe,
    Reconnect,
    Unsubscribe,
    Disconnect,
}

/// A failed broker operation, tagged with the operation, and the transport's
/// own description of the failure.
pub struct TransportError {
    pub op: TransportOp,
    pub detail: String,
}

/// Where the consumer stands in the life of its subscription.
#[derive(Debug, Clone, Copy, PartialEq, Eq, Structural)]
pub enum Phase {
    /// Not yet connected.
    Idle,
    /// Waiting for the first connect.
    Connecting,
    /// Waiting for the first subscribe.
    Subscribing,
    /// Receiving and handing on messages.
    Delivering,
    /// Waiting for the one reconnect after a lost connection.
    Reconnecting,
    /// Waiting for the subscribe that follows a reconnect.
    Resubscribing,
    /// Teardown: waiting for the unsubscribe.
    Unsubscribing,
    /// Teardown: waiting for the disconnect.
    Disconnecting,
    /// Stopped for good.
    Finished,
}

/// What the transport, or the operator, reports to the consumer.
pub enum StreamEvent {
    /// Begin: the consumer should connect.
    Start,
    ConnectDone(Result<(), String>),
    SubscribeDone(Result<(), String>),
    ReconnectDone(Result<(), String>),
    UnsubscribeDone(Result<(), String>),
    DisconnectDone(Result<(), String>),
    /// A message arrived on the topic.
    Message(String),
    /// The receive yielded nothing; `connected` is the transport's own report.
    NoMessage { connected: bool },
    /// The external cancellation signal was issued.
    Shutdown,
}

/// What the consumer asks of the transport next.
pub enum StreamAction {
    Connect,
    Subscribe(String),
    /// Block on the next message.
    Receive,
    /// Hand the message on, then receive again.
    Deliver(String),
    /// Report the failure, then receive again.
    Report(TransportError),
    Reconnect,
    Unsubscribe(String),
    Disconnect,
    /// Nothing to do: keep waiting for the operation under way.
    Wait,
    /// The consumer has stopped, with this outcome.
    Finish(Result<(), TransportError>),
}

/// The state of a consumer of one topic.
pub struct StreamSession {
    pub topic: String,
    pub phase: Phase,
    /// Whether the transport is known to hold a live connection.
    pub connected: bool,
    /// Whether the cancellation signal has been seen.
    pub stop_requested: bool,
    /// Whether teardown (unsubscribe, then disconnect) has begun.
    pub teardown_started: bool,
}

impl StreamSession {
    /// Teardown runs only once: its phases are reached through it alone.
    pub open spec fn wf(&self) -> bool {
        &&& self.teardown_started ==> (self.phase == Phase::Unsubscribing || self.phase
            == Phase::Disconnecting || self.phase == Phase::Finished)
        &&& (self.phase == Phase::Unsubscribing || self.phase == Phase::Disconnecting)
            ==> self.teardown_started
    }
}

/// Begin teardown: unsubscribe where a connection is live, else stop at once.
pub open spec fn spec_teardown(s: StreamSession) -> (StreamSession, StreamAction) {
    if s.connected {
        (
            StreamSession { phase: Phase::Unsubscribing, teardown_started: true, ..s },
            StreamAction::Unsubscribe(s.topic),
        )
    } else {
        (
            StreamSession { phase: Phase::Finished, teardown_started: true, ..s },
            StreamAction::Finish(Ok(())),
        )
    }
}

/// Stop for good with a failure of `op`.
pub open spec fn spec_fail(s: StreamSession, op: TransportOp, detail: String) -> (
    StreamSession,
    StreamAction,
) {
    (
        StreamSession { phase: Phase::Finished, ..s },
        StreamAction::Finish(Err(TransportError { op, detail })),
    )
}

/// After a connection or a subscription is in place: tear down if the signal
/// came meanwhile, else go on to `phase` and ask for `action`.
pub open spec fn spec_proceed(s: StreamSession, phase: Phase, action: StreamAction) -> (
    StreamSession,
    StreamAction,
) {
    if s.stop_requested {
        spec_teardown(s)
    } else {
        (StreamSession { phase, ..s }, action)
    }
}

/// One transition of the consumer: the next state and what it asks for.
pub open spec fn next(s: StreamSession, e: StreamEvent) -> (StreamSession, StreamAction) {
    match (s.phase, e) {
        (Phase::Idle, StreamEvent::Start) => (
            StreamSession { phase: Phase::Connecting, ..s },
            StreamAction::Connect,
        ),
        (Phase::Connecting, StreamEvent::ConnectDone(Ok(()))) => spec_proceed(
            StreamSession { connected: true, ..s },
            Phase::Subscribing,
            StreamAction::Subscribe(s.topic),
        ),
        (Phase::Connecting, StreamEvent::ConnectDone(Err(d))) => spec_fail(
            s,
            TransportOp::Connect,
            d,
        ),
        (Phase::Subscribing, StreamEvent::SubscribeDone(Ok(()))) => spec_proceed(
            s,
            Phase::Delivering,
            StreamAction::Receive,
        ),
        (Phase::Subscribing, StreamEvent::SubscribeDone(Err(d))) => spec_fail(
            s,
            TransportOp::Subscribe,
            d,
        ),
        (Phase::Delivering, StreamEvent::Message(m)) => (s, StreamAction::Deliver(m)),
        (Phase::Delivering, StreamEvent::NoMessage { connected }) => if connected {
            (s, StreamAction::Receive)
        } else {
            (
                StreamSession { phase: Phase::Reconnecting, connected: false, ..s },
                StreamAction::Reconnect,
            )
        },
        (Phase::Reconnecting, StreamEvent::ReconnectDone(Ok(()))) => spec_proceed(
            StreamSession { connected: true, ..s },
            Phase::Resubscribing,
            StreamAction::Subscribe(s.topic),
        ),
        (Phase::Reconnecting, StreamEvent::ReconnectDone(Err(d))) => spec_fail(
            s,
            TransportOp::Reconnect,
            d,
        ),
        (Phase::Resubscribing, StreamEvent::SubscribeDone(Ok(()))) => spec_proceed(
            s,
            Phase::Delivering,
            StreamAction::Receive,
        ),
        (Phase::Resubscribing, StreamEvent::SubscribeDone(Err(d))) => (
            StreamSession { phase: Phase::Delivering, ..s },
            StreamAction::Report(TransportError { op: TransportOp::Subscribe, detail: d }),
        ),
        (Phase::Unsubscribing, StreamEvent::UnsubscribeDone(Ok(()))) => (
            StreamSession { phase: Phase::Disconnecting, ..s },
            StreamAction::Disconnect,
        ),
        (Phase::Unsubscribing, StreamEvent::UnsubscribeDone(Err(d))) => spec_fail(
            s,
            TransportOp::Unsubscribe,
            d,
        ),
        (Phase::Disconnecting, StreamEvent::DisconnectDone(Ok(()))) => (
            StreamSession { phase: Phase::Finished, connected: false, ..s },
            StreamAction::Finish(Ok(())),
        ),
        (Phase::Disconnecting, StreamEvent::DisconnectDone(Err(d))) => spec_fail(
            s,
            TransportOp::Disconnect,
            d,
        ),
        (Phase::Idle, StreamEvent::Shutdown) => spec_teardown(
            StreamSession { stop_requested: true, ..s },
        ),
        (Phase::Delivering, StreamEvent::Shutdown) => spec_teardown(
            StreamSession { stop_requested: true, ..s },
        ),
        (Phase::Finished, StreamEvent::Shutdown) => (s, StreamAction::Wait),
        (_, StreamEvent::Shutdown) => (
            StreamSession { stop_requested: true, ..s },
            StreamAction::Wait,
        ),
        _ => (s, StreamAction::Wait),
    }
}


/// The actions that the consumer asks for, in order, when it takes `events`
/// one after another from state `s`.
pub open spec fn trace(s: StreamSession, events: Seq<StreamEvent>) -> Seq<StreamAction>
    decreases events.len(),
{
    if events.len() == 0 {
        Seq::empty()
    } else {
        let (s2, a) = next(s, events[0]);
        seq![a] + trace(s2, events.drop_first())
    }
}

/// The state that the consumer reaches after taking `events` from `s`.
pub open spec fn after(s: StreamSession, events: Seq<StreamEvent>) -> StreamSession
    decreases events.len(),
{
    if events.len() == 0 {
        s
    } else {
        after(next(s, events[0]).0, events.drop_first())
    }
}

/// How many of `actions` are teardown operations (unsubscribe or disconnect).
pub open spec fn teardown_count(actions: Seq<StreamAction>) -> nat
    decreases actions.len(),
{
    if actions.len() == 0 {
        0
    } else {
        (if actions[0] is Unsubscribe || actions[0] is Disconnect { 1nat } else { 0nat })
            + teardown_count(actions.drop_first())
    }
}

/// How many of `actions` ask for a reconnect.
pub open spec fn reconnect_count(actions: Seq<StreamAction>) -> nat
    decreases actions.len(),
{
    if actions.len() == 0 {
        0
    } else {
        (if actions[0] is Reconnect { 1nat } else { 0nat }) + reconnect_count(
            actions.drop_first(),
        )
    }
}

/// The teardown operations that a state may still ask for.
pub open spec fn teardown_budget(s: StreamSession) -> nat {
    if !s.teardown_started {
        2
    } else if s.phase == Phase::Unsubscribing {
        1
    } else {
        0
    }
}

/// Every transition keeps a consumer well formed, and spends teardown
/// operations only from what its state still allows.
pub proof fn lemma_next_wf(s: StreamSession, e: StreamEvent)
    requires
        s.wf(),
    ensures
        next(s, e).0.wf(),
        (if next(s, e).1 is Unsubscribe || next(s, e).1 is Disconnect { 1nat } else { 0nat })
            + teardown_budget(next(s, e).0) <= teardown_budget(s),
        next(s, e).0.topic == s.topic,
        s.phase == Phase::Finished ==> next(s, e).0.phase == Phase::Finished && next(
            s,
            e,
        ).1 is Wait,
{
}

/// Whatever the transport and the operator report, and in whatever order,
/// teardown asks for at most one unsubscribe and one disconnect: once it has
/// begun, a second shutdown or a disconnect seen meanwhile starts no other.
pub proof fn lemma_teardown_at_most_once(s: StreamSession, events: Seq<StreamEvent>)
    requires
        s.wf(),
    ensures
        teardown_count(trace(s, events)) <= teardown_budget(s),
        after(s, events).wf(),
    decreases events.len(),
{
    if events.len() > 0 {
        let (s2, a) = next(s, events[0]);
        lemma_next_wf(s, events[0]);
        lemma_teardown_at_most_once(s2, events.drop_first());
        let t = trace(s, events);
        assert(t[0] == a);
        assert(t.drop_first() =~= trace(s2, events.drop_first()));
    }
}

/// A trace holds one action for each event.
pub proof fn lemma_trace_len(s: StreamSession, events: Seq<StreamEvent>)
    ensures
        trace(s, events).len() == events.len(),
    decreases events.len(),
{
    if events.len() > 0 {
        lemma_trace_len(next(s, events[0]).0, events.drop_first());
    }
}

/// A consumer that has stopped stays stopped: it asks for nothing more, and in
/// particular for no second reconnect.
pub proof fn lemma_finished_is_final(s: StreamSession, events: Seq<StreamEvent>)
    requires
        s.wf(),
        s.phase == Phase::Finished,
    ensures
        forall|i: int| 0 <= i < events.len() ==> (#[trigger] trace(s, events)[i]) is Wait,
        reconnect_count(trace(s, events)) == 0,
        teardown_count(trace(s, events)) == 0,
    decreases events.len(),
{
    lemma_trace_len(s, events);
    if events.len() > 0 {
        let (s2, a) = next(s, events[0]);
        lemma_next_wf(s, events[0]);
        lemma_finished_is_final(s2, events.drop_first());
        lemma_trace_len(s2, events.drop_first());
        let t = trace(s, events);
        assert(t.drop_first() =~= trace(s2, events.drop_first()));
        assert forall|i: int| 0 <= i < events.len() implies (#[trigger] t[i]) is Wait by {
            if i > 0 {
                assert(t[i] == t.drop_first()[i - 1]);
            }
        }
    }
}

/// The trace and the state after one event followed by `rest`.
proof fn lemma_unfold(s: StreamSession, e: StreamEvent, rest: Seq<StreamEvent>)
    ensures
        trace(s, seq![e] + rest) == seq![next(s, e).1] + trace(next(s, e).0, rest),
        after(s, seq![e] + rest) == after(next(s, e).0, rest),
{
    let events = seq![e] + rest;
    assert(events[0] == e);
    assert(events.drop_first() =~= rest);
}

/// A lost connection that one reconnect restores: the consumer resubscribes to
/// the same topic and delivers the next message, with no help from its caller.
pub proof fn lemma_resume_after_reconnect(s: StreamSession, m: String)
    requires
        s.wf(),
        s.phase == Phase::Delivering,
        !s.stop_requested,
    ensures
        ({
            let events = seq![
                StreamEvent::NoMessage { connected: false },
                StreamEvent::ReconnectDone(Ok(())),
                StreamEvent::SubscribeDone(Ok(())),
                StreamEvent::Message(m),
            ];
            &&& trace(s, events) == seq![
                StreamAction::Reconnect,
                StreamAction::Subscribe(s.topic),
                StreamAction::Receive,
                StreamAction::Deliver(m),
            ]
            &&& after(s, events).phase == Phase::Delivering
            &&& after(s, events).topic == s.topic
            &&& after(s, events).connected
        }),
{
    let e0 = StreamEvent::NoMessage { connected: false };
    let e1 = StreamEvent::ReconnectDone(Ok(()));
    let e2 = StreamEvent::SubscribeDone(Ok(()));
    let e3 = StreamEvent::Message(m);
    let empty = Seq::<StreamEvent>::empty();
    let s1 = next(s, e0).0;
    let s2 = next(s1, e1).0;
    let s3 = next(s2, e2).0;
    let s4 = next(s3, e3).0;
    lemma_unfold(s3, e3, empty);
    lemma_unfold(s2, e2, seq![e3]);
    lemma_unfold(s1, e1, seq![e2, e3]);
    lemma_unfold(s, e0, seq![e1, e2, e3]);
    assert(seq![e3] + empty =~= seq![e3]);
    assert(seq![e2] + seq![e3] =~= seq![e2, e3]);
    assert(seq![e1] + seq![e2, e3] =~= seq![e1, e2, e3]);
    assert(seq![e0] + seq![e1, e2, e3] =~= seq![e0, e1, e2, e3]);
    assert(trace(s4, empty) =~= Seq::<StreamAction>::empty());
    assert(trace(s, seq![e0, e1, e2, e3]) =~= seq![
        StreamAction::Reconnect,
        StreamAction::Subscribe(s.topic),
        StreamAction::Receive,
        StreamAction::Deliver(m),
    ]);
}

/// A lost connection whose one reconnect fails: the consumer stops with the
/// reconnect's transport error, and never asks for a reconnect again.
pub proof fn lemma_stop_after_failed_reconnect(
    s: StreamSession,
    d: String,
    later: Seq<StreamEvent>,
)
    requires
        s.wf(),
        s.phase == Phase::Delivering,
    ensures
        ({
            let events = seq![
                StreamEvent::NoMessage { connected: false },
                StreamEvent::ReconnectDone(Err(d)),
            ];
            &&& trace(s, events) == seq![
                StreamAction::Reconnect,
                StreamAction::Finish(Err(TransportError { op: TransportOp::Reconnect, detail: d })),
            ]
            &&& after(s, events).phase == Phase::Finished
            &&& reconnect_count(trace(after(s, events), later)) == 0
        }),
{
    let e0 = StreamEvent::NoMessage { connected: false };
    let e1 = StreamEvent::ReconnectDone(Err(d));
    let empty = Seq::<StreamEvent>::empty();
    let s1 = next(s, e0).0;
    let s2 = next(s1, e1).0;
    lemma_unfold(s1, e1, empty);
    lemma_unfold(s, e0, seq![e1]);
    assert(seq![e1] + empty =~= seq![e1]);
    assert(seq![e0] + seq![e1] =~= seq![e0, e1]);
    assert(trace(s2, empty) =~= Seq::<StreamAction>::empty());
    assert(trace(s, seq![e0, e1]) =~= seq![
        StreamAction::Reconnect,
        StreamAction::Finish(Err(TransportError { op: TransportOp::Reconnect, detail: d })),
    ]);
    lemma_next_wf(s, e0);
    lemma_next_wf(s1, e1);
    lemma_finished_is_final(s2, later);
}

/// The shutdown signal while the consumer waits on a message: it unsubscribes
/// from its topic, then disconnects, then stops with no error.
pub proof fn lemma_orderly_shutdown(s: StreamSession)
    requires
        s.wf(),
        s.phase == Phase::Delivering,
        s.connected,
    ensures
        ({
            let events = seq![
                StreamEvent::Shutdown,
                StreamEvent::UnsubscribeDone(Ok(())),
                StreamEvent::DisconnectDone(Ok(())),
            ];
            &&& trace(s, events) == seq![
                StreamAction::Unsubscribe(s.topic),
                StreamAction::Disconnect,
                StreamAction::Finish(Ok(())),
            ]
            &&& after(s, events).phase == Phase::Finished
            &&& !after(s, events).connected
        }),
{
    let e0 = StreamEvent::Shutdown;
    let e1 = StreamEvent::UnsubscribeDone(Ok(()));
    let e2 = StreamEvent::DisconnectDone(Ok(()));
    let empty = Seq::<StreamEvent>::empty();
    let s1 = next(s, e0).0;
    let s2 = next(s1, e1).0;
    let s3 = next(s2, e2).0;
    lemma_unfold(s2, e2, empty);
    lemma_unfold(s1, e1, seq![e2]);
    lemma_unfold(s, e0, seq![e1, e2]);
    assert(seq![e2] + empty =~= seq![e2]);
    assert(seq![e1] + seq![e2] =~= seq![e1, e2]);
    assert(seq![e0] + seq![e1, e2] =~= seq![e0, e1, e2]);
    assert(trace(s3, empty) =~= Seq::<StreamAction>::empty());
    assert(trace(s, seq![e0, e1, e2]) =~= seq![
        StreamAction::Unsubscribe(s.topic),
        StreamAction::Disconnect,
        StreamAction::Finish(Ok(())),
    ]);
}

impl StreamSession {
    /// A consumer of `topic` that has not connected yet.
    pub fn new(topic: String) -> (r: StreamSession)
        ensures
            r.topic == topic,
            r.phase == Phase::Idle,
            !r.connected,
            !r.stop_requested,
            !r.teardown_started,
            r.wf(),
    {
        StreamSession {
            topic,
            phase: Phase::Idle,
            connected: false,
            stop_requested: false,
            teardown_started: false,
        }
    }

    fn teardown(&mut self) -> (a: StreamAction)
        ensures
            (*final(self), a) == spec_teardown(*old(self)),
    {
        self.teardown_started = true;
        if self.connected {
            self.phase = Phase::Unsubscribing;
            StreamAction::Unsubscribe(self.topic.clone())
        } else {
            self.phase = Phase::Finished;
            StreamAction::Finish(Ok(()))
        }
    }

    fn fail(&mut self, op: TransportOp, detail: String) -> (a: StreamAction)
        ensures
            (*final(self), a) == spec_fail(*old(self), op, detail),
    {
        self.phase = Phase::Finished;
        StreamAction::Finish(Err(TransportError { op, detail }))
    }

    fn proceed(&mut self, phase: Phase, action: StreamAction) -> (a: StreamAction)
        ensures
            (*final(self), a) == spec_proceed(*old(self), phase, action),
    {
        if self.stop_requested {
            self.teardown()
        } else {
            self.phase = phase;
            action
        }
    }

    /// Takes one event and says what the transport should do next.
    pub fn step(&mut self, event: StreamEvent) -> (a: StreamAction)
        ensures
            (*final(self), a) == next(*old(self), event),
            old(self).wf() ==> final(self).wf(),
    {
        proof {
            if self.wf() {
                lemma_next_wf(*self, event);
            }
        }
        match (self.phase, event) {
            (Phase::Idle, StreamEvent::Start) => {
                self.phase = Phase::Connecting;
                StreamAction::Connect
            },
            (Phase::Connecting, StreamEvent::ConnectDone(Ok(()))) => {
                self.connected = true;
                let topic = self.topic.clone();
                self.proceed(Phase::Subscribing, StreamAction::Subscribe(topic))
            },
            (Phase::Connecting, StreamEvent::ConnectDone(Err(d))) => {
                self.fail(TransportOp::Connect, d)
            },
            (Phase::Subscribing, StreamEvent::SubscribeDone(Ok(()))) => {
                self.proceed(Phase::Delivering, StreamAction::Receive)
            },
            (Phase::Subscribing, StreamEvent::SubscribeDone(Err(d))) => {
                self.fail(TransportOp::Subscribe, d)
            },
            (Phase::Delivering, StreamEvent::Message(m)) => StreamAction::Deliver(m),
            (Phase::Delivering, StreamEvent::NoMessage { connected }) => {
                if connected {
                    StreamAction::Receive
                } else {
                    self.phase = Phase::Reconnecting;
                    self.connected = false;
                    StreamAction::Reconnect
                }
            },
            (Phase::Reconnecting, StreamEvent::ReconnectDone(Ok(()))) => {
                self.connected = true;
                let topic = self.topic.clone();
                self.proceed(Phase::Resubscribing, StreamAction::Subscribe(topic))
            },
            (Phase::Reconnecting, StreamEvent::ReconnectDone(Err(d))) => {
                self.fail(TransportOp::Reconnect, d)
            },
            (Phase::Resubscribing, StreamEvent::SubscribeDone(Ok(()))) => {
                self.proceed(Phase::Delivering, StreamAction::Receive)
            },
            (Phase::Resubscribing, StreamEvent::SubscribeDone(Err(d))) => {
                self.phase = Phase::Delivering;
                StreamAction::Report(TransportError { op: TransportOp::Subscribe, detail: d })
            },
            (Phase::Unsubscribing, StreamEvent::UnsubscribeDone(Ok(()))) => {
                self.phase = Phase::Disconnecting;
                StreamAction::Disconnect
            },
            (Phase::Unsubscribing, StreamEvent::UnsubscribeDone(Err(d))) => {
                self.fail(TransportOp::Unsubscribe, d)
            },
            (Phase::Disconnecting, StreamEvent::DisconnectDone(Ok(()))) => {
                self.phase = Phase::Finished;
                self.connected = false;
                StreamAction::Finish(Ok(()))
            },
            (Phase::Disconnecting, StreamEvent::DisconnectDone(Err(d))) => {
                self.fail(TransportOp::Disconnect, d)
            },
            (Phase::Idle, StreamEvent::Shutdown) => {
                self.stop_requested = true;
                self.teardown()
            },
            (Phase::Delivering, StreamEvent::Shutdown) => {
                self.stop_requested = true;
                self.teardown()
            },
            (Phase::Finished, StreamEvent::Shutdown) => StreamAction::Wait,
            (_, StreamEvent::Shutdown) => {
                self.stop_requested = true;
                StreamAction::Wait
            },
            _ => StreamAction::Wait,
        }
    }
}

} // verus!
