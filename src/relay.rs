//! The decisions of one relay worker, as a state machine.
//!
//! The process that hosts a worker performs each action that `step`
//! returns and reports its outcome as the next event. Connection and
//! subscription failures are structural: the connection is dropped and the
//! worker reconnects after a fixed pause. A failed republish is
//! transactional: the payload is dropped and the worker keeps listening on
//! the same subscription.
use vstd::prelude::*;
use crate::sql::{listen_sql, notify_sql, listen_statement, notify_statement};
use crate::topology::{ChannelMapping, StartupError, Topology};

verus! {

/// Pause between two connection attempts, in seconds.
pub const RETRY_SECONDS: u64 = 5;

#[derive(PartialEq, Eq, Structural, Debug, Clone, Copy)]
pub enum ConnState {
    /// No connection, and no attempt under way.
    Disconnected,
    /// Waiting for a fresh connection.
    Connecting,
    /// Connected, waiting for the subscription to the input channel.
    Subscribing,
    /// Subscribed, waiting for the next notification.
    Listening,
    /// Waiting for the unit of work that republishes one payload.
    Publishing,
    /// Cancelled; the worker has exited.
    Stopped,
}

/// What the hosting process reports to the worker.
pub enum Event {
    /// The worker may go on (at start, and after a pause).
    Resume,
    Connected,
    ConnectFailed,
    Subscribed,
    SubscribeFailed,
    /// A notification arrived on the input channel with this payload.
    Notification(String),
    /// The store closed the stream of notifications.
    EndOfStream,
    ReceiveFailed,
    /// The unit of work that republished the payload committed.
    Published,
    PublishFailed,
    /// The process asks the worker to stop.
    Interrupted,
}

/// What the worker asks the hosting process to do next.
pub enum Action {
    /// Drop any connection held and open a fresh one.
    Connect,
    /// Run `statement` on the open connection.
    Subscribe { statement: String },
    /// Block until the next notification, end of stream or error.
    Receive,
    /// In one unit of work of its own, run `statement` with `payload` as
    /// its parameter, and commit.
    Publish { statement: String, payload: String },
    /// Drop any connection held and sleep this many seconds.
    Backoff { seconds: u64 },
    /// Leave the worker.
    Exit,
}

pub enum EventV {
    Resume,
    Connected,
    ConnectFailed,
    Subscribed,
    SubscribeFailed,
    Notification(Seq<char>),
    EndOfStream,
    ReceiveFailed,
    Published,
    PublishFailed,
    Interrupted,
}

pub enum ActionV {
    Connect,
    Subscribe(Seq<char>),
    Receive,
    Publish(Seq<char>, Seq<char>),
    Backoff(u64),
    Exit,
}

impl View for Event {
    type V = EventV;

    open spec fn view(&self) -> EventV {
        match self {
            Event::Resume => EventV::Resume,
            Event::Connected => EventV::Connected,
            Event::ConnectFailed => EventV::ConnectFailed,
            Event::Subscribed => EventV::Subscribed,
            Event::SubscribeFailed => EventV::SubscribeFailed,
            Event::Notification(p) => EventV::Notification(p@),
            Event::EndOfStream => EventV::EndOfStream,
            Event::ReceiveFailed => EventV::ReceiveFailed,
            Event::Published => EventV::Published,
            Event::PublishFailed => EventV::PublishFailed,
            Event::Interrupted => EventV::Interrupted,
        }
    }
}

impl View for Action {
    type V = ActionV;

    open spec fn view(&self) -> ActionV {
        match self {
            Action::Connect => ActionV::Connect,
            Action::Subscribe { statement } => ActionV::Subscribe(statement@),
            Action::Receive => ActionV::Receive,
            Action::Publish { statement, payload } => ActionV::Publish(statement@, payload@),
            Action::Backoff { seconds } => ActionV::Backoff(*seconds),
            Action::Exit => ActionV::Exit,
        }
    }
}

/// One transition of a worker that relays from `input` to `output` and
/// pauses `retry` seconds between connection attempts.
///
/// An interrupt stops the worker in every state. An event that does not
/// answer the pending action is taken as a structural failure.
pub open spec fn next(s: ConnState, e: EventV, input: Seq<char>, output: Seq<char>, retry: u64) -> (
    ConnState,
    ActionV,
) {
    if e is Interrupted || s == ConnState::Stopped {
        (ConnState::Stopped, ActionV::Exit)
    } else {
        match s {
            ConnState::Disconnected => if e is Resume {
                (ConnState::Connecting, ActionV::Connect)
            } else {
                (ConnState::Disconnected, ActionV::Backoff(retry))
            },
            ConnState::Connecting => if e is Connected {
                (ConnState::Subscribing, ActionV::Subscribe(listen_sql(input)))
            } else {
                (ConnState::Disconnected, ActionV::Backoff(retry))
            },
            ConnState::Subscribing => if e is Subscribed {
                (ConnState::Listening, ActionV::Receive)
            } else {
                (ConnState::Disconnected, ActionV::Backoff(retry))
            },
            ConnState::Listening => match e {
                EventV::Notification(p) => (
                    ConnState::Publishing,
                    ActionV::Publish(notify_sql(output), p),
                ),
                EventV::EndOfStream => (ConnState::Connecting, ActionV::Connect),
                EventV::ReceiveFailed => (ConnState::Connecting, ActionV::Connect),
                _ => (ConnState::Disconnected, ActionV::Backoff(retry)),
            },
            ConnState::Publishing => if e is Published || e is PublishFailed {
                (ConnState::Listening, ActionV::Receive)
            } else {
                (ConnState::Disconnected, ActionV::Backoff(retry))
            },
            ConnState::Stopped => (ConnState::Stopped, ActionV::Exit),
        }
    }
}

/// The state reached and the actions issued when the worker takes `events`
/// in order from state `s`.
pub open spec fn run(
    s: ConnState,
    events: Seq<EventV>,
    input: Seq<char>,
    output: Seq<char>,
    retry: u64,
) -> (ConnState, Seq<ActionV>)
    decreases events.len(),
{
    if events.len() == 0 {
        (s, Seq::empty())
    } else {
        let (s1, a) = next(s, events[0], input, output, retry);
        let (sn, rest) = run(s1, events.drop_first(), input, output, retry);
        (sn, seq![a] + rest)
    }
}

/// `k` connection attempts that fail, each after a pause.
pub open spec fn failed_attempts(k: nat) -> Seq<EventV>
    decreases k,
{
    if k == 0 {
        Seq::empty()
    } else {
        seq![EventV::Resume, EventV::ConnectFailed] + failed_attempts((k - 1) as nat)
    }
}

/// What the worker asks for during `k` failed connection attempts.
pub open spec fn retry_actions(k: nat, retry: u64) -> Seq<ActionV>
    decreases k,
{
    if k == 0 {
        Seq::empty()
    } else {
        seq![ActionV::Connect, ActionV::Backoff(retry)] + retry_actions((k - 1) as nat, retry)
    }
}

/// A worker only ever subscribes to its own input channel: in any run,
/// every subscription it asks for is the one to `input`.
pub proof fn lemma_subscribes_only_to_input(
    s: ConnState,
    events: Seq<EventV>,
    input: Seq<char>,
    output: Seq<char>,
    retry: u64,
)
    ensures
        forall|i: int|
            0 <= i < run(s, events, input, output, retry).1.len() && (#[trigger] run(
                s,
                events,
                input,
                output,
                retry,
            ).1[i]) is Subscribe ==> run(s, events, input, output, retry).1[i]
                == ActionV::Subscribe(listen_sql(input)),
    decreases events.len(),
{
    if events.len() > 0 {
        let (s1, a) = next(s, events[0], input, output, retry);
        lemma_subscribes_only_to_input(s1, events.drop_first(), input, output, retry);
        let rest = run(s1, events.drop_first(), input, output, retry).1;
        assert forall|i: int|
            0 <= i < run(s, events, input, output, retry).1.len() && (#[trigger] run(
                s,
                events,
                input,
                output,
                retry,
            ).1[i]) is Subscribe implies run(s, events, input, output, retry).1[i]
                == ActionV::Subscribe(listen_sql(input)) by {
            if i > 0 {
                assert(run(s, events, input, output, retry).1[i] == rest[i - 1]);
            }
        }
    }
}

/// Each received notification gives exactly one publish, of the same
/// payload on the output channel, and nothing else gives a publish.
pub proof fn lemma_one_publish_per_notification(
    s: ConnState,
    e: EventV,
    input: Seq<char>,
    output: Seq<char>,
    retry: u64,
)
    ensures
        next(s, e, input, output, retry).1 is Publish <==> (s == ConnState::Listening
            && e is Notification),
        e matches EventV::Notification(p) ==> (s == ConnState::Listening ==> next(
            s,
            e,
            input,
            output,
            retry,
        ) == (ConnState::Publishing, ActionV::Publish(notify_sql(output), p))),
{
}

/// Only an interrupt makes a running worker exit: no failure of the store
/// ever does.
pub proof fn lemma_exits_only_when_interrupted(
    s: ConnState,
    e: EventV,
    input: Seq<char>,
    output: Seq<char>,
    retry: u64,
)
    requires
        s != ConnState::Stopped,
        !(e is Interrupted),
    ensures
        next(s, e, input, output, retry).0 != ConnState::Stopped,
        !(next(s, e, input, output, retry).1 is Exit),
{
}

/// A worker whose store stays unreachable for `k` attempts pauses `retry`
/// seconds after each and tries again; once the store answers, it is
/// listening after one connection and exactly one subscription.
pub proof fn lemma_retries_until_listening(
    k: nat,
    input: Seq<char>,
    output: Seq<char>,
    retry: u64,
)
    ensures
        run(
            ConnState::Disconnected,
            failed_attempts(k) + seq![EventV::Resume, EventV::Connected, EventV::Subscribed],
            input,
            output,
            retry,
        ) == (ConnState::Listening, retry_actions(k, retry) + seq![
            ActionV::Connect,
            ActionV::Subscribe(listen_sql(input)),
            ActionV::Receive,
        ]),
    decreases k,
{
    let tail = seq![EventV::Resume, EventV::Connected, EventV::Subscribed];
    let done = seq![ActionV::Connect, ActionV::Subscribe(listen_sql(input)), ActionV::Receive];
    if k == 0 {
        assert(failed_attempts(0) + tail =~= tail);
        assert(retry_actions(0, retry) + done =~= done);
        let t1 = tail.drop_first();
        let t2 = t1.drop_first();
        let t3 = t2.drop_first();
        assert(t3.len() == 0);
        assert(run(ConnState::Listening, t3, input, output, retry) == (ConnState::Listening, Seq::<ActionV>::empty()));
        assert(run(ConnState::Subscribing, t2, input, output, retry).1 =~= seq![ActionV::Receive]);
        assert(run(ConnState::Connecting, t1, input, output, retry).1 =~= seq![ActionV::Subscribe(listen_sql(input)), ActionV::Receive]);
        assert(run(ConnState::Disconnected, tail, input, output, retry).1 =~= done);
    } else {
        let k1 = (k - 1) as nat;
        lemma_retries_until_listening(k1, input, output, retry);
        let evs = failed_attempts(k) + tail;
        let inner = failed_attempts(k1) + tail;
        assert(evs =~= seq![EventV::Resume, EventV::ConnectFailed] + inner);
        assert(evs.drop_first() =~= seq![EventV::ConnectFailed] + inner);
        assert(evs.drop_first().drop_first() =~= inner);
        let r_inner = run(ConnState::Disconnected, inner, input, output, retry);
        assert(run(ConnState::Connecting, evs.drop_first(), input, output, retry).1
            =~= seq![ActionV::Backoff(retry)] + r_inner.1);
        assert(retry_actions(k, retry) + done =~= seq![ActionV::Connect, ActionV::Backoff(retry)] + (retry_actions(k1, retry) + done));
        assert(run(ConnState::Disconnected, evs, input, output, retry).1 =~= retry_actions(k, retry) + done);
    }
}

/// A failed republish leaves the subscription in place: the worker goes
/// back to listening on the same connection and relays the next payload.
pub proof fn lemma_publish_failure_keeps_subscription(
    p: Seq<char>,
    q: Seq<char>,
    input: Seq<char>,
    output: Seq<char>,
    retry: u64,
)
    ensures
        run(
            ConnState::Listening,
            seq![EventV::Notification(p), EventV::PublishFailed, EventV::Notification(q)],
            input,
            output,
            retry,
        ) == (ConnState::Publishing, seq![
            ActionV::Publish(notify_sql(output), p),
            ActionV::Receive,
            ActionV::Publish(notify_sql(output), q),
        ]),
{
    let evs = seq![EventV::Notification(p), EventV::PublishFailed, EventV::Notification(q)];
    let e1 = evs.drop_first();
    let e2 = e1.drop_first();
    let e3 = e2.drop_first();
    assert(e3.len() == 0);
    assert(run(ConnState::Publishing, e3, input, output, retry) == (ConnState::Publishing, Seq::<ActionV>::empty()));
    assert(e2[0] == EventV::Notification(q));
    assert(e1[0] == EventV::PublishFailed);
    assert(run(ConnState::Listening, e2, input, output, retry).1 =~= seq![ActionV::Publish(notify_sql(output), q)]);
    assert(run(ConnState::Publishing, e1, input, output, retry).1 =~= seq![ActionV::Receive, ActionV::Publish(notify_sql(output), q)]);
    assert(run(ConnState::Listening, evs, input, output, retry).1 =~= seq![
        ActionV::Publish(notify_sql(output), p),
        ActionV::Receive,
        ActionV::Publish(notify_sql(output), q),
    ]);
}

/// A worker: the mapping it owns and where its connection stands.
pub struct RelayWorker {
    pub id: i32,
    pub input_channel: String,
    pub output_channel: String,
    pub retry_seconds: u64,
    pub state: ConnState,
}

impl RelayWorker {
    /// A worker for `mapping`, not yet connected.
    pub fn new(mapping: ChannelMapping, retry_seconds: u64) -> (r: RelayWorker)
        ensures
            r.id == mapping.id,
            r.input_channel@ == mapping.input_channel@,
            r.output_channel@ == mapping.output_channel@,
            r.retry_seconds == retry_seconds,
            r.state == ConnState::Disconnected,
    {
        RelayWorker {
            id: mapping.id,
            input_channel: mapping.input_channel,
            output_channel: mapping.output_channel,
            retry_seconds,
            state: ConnState::Disconnected,
        }
    }

    /// Checks the start argument against `topology` and builds the worker
    /// for it; a missing or foreign id is an error, and no worker exists to
    /// connect.
    pub fn start(topology: &Topology, arg: Option<i32>, retry_seconds: u64) -> (r: Result<
        RelayWorker,
        StartupError,
    >)
        requires
            topology.wf(),
        ensures
            arg is None ==> r == Err::<RelayWorker, StartupError>(StartupError::MissingId),
            arg matches Some(id) ==> (r is Ok <==> topology.owns(id as int)),
            arg matches Some(id) ==> (r matches Err(e) ==> e == StartupError::OutOfRange(id)),
            r matches Ok(w) ==> arg == Some(w.id) && w.input_channel@ == topology.input_of(
                w.id as int,
            ) && w.output_channel@ == topology.output_of(w.id as int) && w.retry_seconds
                == retry_seconds && w.state == ConnState::Disconnected,
    {
        match topology.startup(arg) {
            Ok(m) => Ok(RelayWorker::new(m, retry_seconds)),
            Err(e) => Err(e),
        }
    }

    /// Takes the outcome of the last action and returns the next one.
    pub fn step(&mut self, event: Event) -> (r: Action)
        ensures
            (final(self).state, r@) == next(
                old(self).state,
                event@,
                old(self).input_channel@,
                old(self).output_channel@,
                old(self).retry_seconds,
            ),
            final(self).id == old(self).id,
            final(self).input_channel == old(self).input_channel,
            final(self).output_channel == old(self).output_channel,
            final(self).retry_seconds == old(self).retry_seconds,
    {
        if matches!(event, Event::Interrupted) || self.state == ConnState::Stopped {
            self.state = ConnState::Stopped;
            return Action::Exit;
        }
        let backoff = Action::Backoff { seconds: self.retry_seconds };
        match self.state {
            ConnState::Disconnected => match event {
                Event::Resume => {
                    self.state = ConnState::Connecting;
                    Action::Connect
                },
                _ => backoff,
            },
            ConnState::Connecting => match event {
                Event::Connected => {
                    self.state = ConnState::Subscribing;
                    Action::Subscribe { statement: listen_statement(self.input_channel.as_str()) }
                },
                _ => {
                    self.state = ConnState::Disconnected;
                    backoff
                },
            },
            ConnState::Subscribing => match event {
                Event::Subscribed => {
                    self.state = ConnState::Listening;
                    Action::Receive
                },
                _ => {
                    self.state = ConnState::Disconnected;
                    backoff
                },
            },
            ConnState::Listening => match event {
                Event::Notification(payload) => {
                    self.state = ConnState::Publishing;
                    Action::Publish {
                        statement: notify_statement(self.output_channel.as_str()),
                        payload,
                    }
                },
                Event::EndOfStream | Event::ReceiveFailed => {
                    self.state = ConnState::Connecting;
                    Action::Connect
                },
                _ => {
                    self.state = ConnState::Disconnected;
                    backoff
                },
            },
            ConnState::Publishing => match event {
                Event::Published | Event::PublishFailed => {
                    self.state = ConnState::Listening;
                    Action::Receive
                },
                _ => {
                    self.state = ConnState::Disconnected;
                    backoff
                },
            },
            ConnState::Stopped => Action::Exit,
        }
    }
}

} // verus!
