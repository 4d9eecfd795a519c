use vstd::prelude::*;
use tokio::sync::broadcast::{Receiver, Sender};
use crate::message::Message;

verus! {

/// tokio's broadcast sender, carried through opaque.
#[verifier::external_type_specification]
#[verifier::external_body]
#[verifier::reject_recursive_types(T)]
pub struct ExSender<T>(Sender<T>);

/// tokio's broadcast subscriber, carried through opaque.
#[verifier::external_type_specification]
#[verifier::external_body]
#[verifier::reject_recursive_types(T)]
pub struct ExReceiver<T>(Receiver<T>);

/// What one poll of a subscriber found.
#[derive(Debug)]
pub enum Received {
    Message(Message),
    /// Nothing is buffered for this subscriber yet.
    Empty,
    /// The subscriber fell behind and this many messages were dropped for it.
    Lagged(u64),
    /// Every sender is gone.
    Closed,
}

/// What a loop that consumes a subscriber does after a receive.
#[derive(Debug)]
pub enum LoopStep {
    Handle(Message),
    /// Missed messages: not fatal, receive again.
    Resume,
    /// Nothing yet: wait for more.
    Wait,
    Stop,
}

/// The capacities a channel may be opened with.
pub open spec fn valid_capacity(capacity: usize) -> bool {
    0 < capacity && capacity <= usize::MAX / 2
}

/// Relies on `tokio::sync::broadcast::channel`: a sender and its first
/// subscriber; it panics on a zero capacity or one above `usize::MAX / 2`.
#[verifier::external_body]
fn open_channel(capacity: usize) -> (Sender<Message>, Receiver<Message>)
    requires
        valid_capacity(capacity),
{
    tokio::sync::broadcast::channel(capacity)
}

/// Relies on `tokio::sync::broadcast::Sender::send`, which never blocks; a
/// send that no subscriber will see returns its error, mapped to zero.
#[verifier::external_body]
fn send_now(tx: &Sender<Message>, msg: Message) -> usize {
    match tx.send(msg) {
        Ok(n) => n,
        Err(_) => 0,
    }
}

/// Relies on `tokio::sync::broadcast::Sender::subscribe`: a subscriber that
/// sees what is sent from now on.
#[verifier::external_body]
fn subscribe_now(tx: &Sender<Message>) -> Receiver<Message> {
    tx.subscribe()
}

/// Relies on `tokio::sync::broadcast::Receiver::try_recv`, which never
/// blocks; its three errors are mapped one for one.
#[verifier::external_body]
fn poll_once(rx: &mut Receiver<Message>) -> Received {
    match rx.try_recv() {
        Ok(m) => Received::Message(m),
        Err(tokio::sync::broadcast::error::TryRecvError::Empty) => Received::Empty,
        Err(tokio::sync::broadcast::error::TryRecvError::Lagged(n)) => Received::Lagged(n),
        Err(tokio::sync::broadcast::error::TryRecvError::Closed) => Received::Closed,
    }
}

/// The two channels between the interactive side and the worker.
pub struct Bus {
    pub ui_to_worker: Sender<Message>,
    pub worker_to_ui: Sender<Message>,
}

/// The two channels, each buffering `capacity` messages per subscriber, with
/// the worker's subscriber and the interactive side's.
pub fn open_bus(capacity: usize) -> (r: (Bus, Receiver<Message>, Receiver<Message>))
    requires
        valid_capacity(capacity),
{
    let (ui_to_worker, worker_rx) = open_channel(capacity);
    let (worker_to_ui, ui_rx) = open_channel(capacity);
    (Bus { ui_to_worker, worker_to_ui }, worker_rx, ui_rx)
}

/// A further subscriber of a channel.
pub fn subscribe(tx: &Sender<Message>) -> Receiver<Message> {
    subscribe_now(tx)
}

/// Publish without blocking and without failing, whether or not anyone
/// listens or keeps up; returns how many subscribers will see it.
pub fn publish(tx: &Sender<Message>, msg: Message) -> usize {
    send_now(tx, msg)
}

/// Publish each message in order.
pub fn publish_all(tx: &Sender<Message>, msgs: Vec<Message>) {
    let mut rest = msgs;
    while rest.len() > 0
        decreases rest.len(),
    {
        let m = rest.remove(0);
        send_now(tx, m);
    }
}

/// What a consuming loop does with a receive: handle a message, resume after
/// missed messages, wait while empty, stop once closed.
pub fn after_receive(r: Received) -> (s: LoopStep)
    ensures
        r matches Received::Message(m) ==> s == LoopStep::Handle(m),
        r is Lagged ==> s is Resume,
        r is Empty ==> s is Wait,
        r is Closed ==> s is Stop,
{
    match r {
        Received::Message(m) => LoopStep::Handle(m),
        Received::Lagged(_) => LoopStep::Resume,
        Received::Empty => LoopStep::Wait,
        Received::Closed => LoopStep::Stop,
    }
}

/// What a round of polling found.
#[derive(Debug)]
pub struct Polled {
    pub messages: Vec<Message>,
    /// Messages dropped for this subscriber because it fell behind.
    pub missed: u64,
    pub closed: bool,
}

/// The lag count after `n` more missed messages, held at `u64::MAX`.
pub open spec fn missed_after(missed: u64, n: u64) -> u64 {
    if missed as int + n as int > u64::MAX as int {
        u64::MAX
    } else {
        (missed + n) as u64
    }
}

/// Take one receive into what a round of polling has found, and say whether
/// polling goes on: a message is appended, a lag is counted, an empty channel
/// ends the round as it is, a closed one ends it marked closed.
pub fn absorb(acc: Polled, got: Received) -> (r: (Polled, bool))
    ensures
        got matches Received::Message(m) ==> {
            &&& r.0.messages@ == acc.messages@.push(m)
            &&& r.0.missed == acc.missed && r.0.closed == acc.closed
            &&& r.1
        },
        got matches Received::Lagged(n) ==> {
            &&& r.0.messages == acc.messages
            &&& r.0.missed == missed_after(acc.missed, n)
            &&& r.0.closed == acc.closed
            &&& r.1
        },
        got is Empty ==> r.0 == acc && !r.1,
        got is Closed ==> {
            &&& r.0.messages == acc.messages && r.0.missed == acc.missed
            &&& r.0.closed
            &&& !r.1
        },
{
    let Polled { mut messages, missed, closed } = acc;
    match got {
        Received::Message(m) => {
            messages.push(m);
            (Polled { messages, missed, closed }, true)
        },
        Received::Lagged(n) => {
            let total = if n > u64::MAX - missed {
                u64::MAX
            } else {
                missed + n
            };
            (Polled { messages, missed: total, closed }, true)
        },
        Received::Empty => (Polled { messages, missed, closed }, false),
        Received::Closed => (Polled { messages, missed, closed: true }, false),
    }
}

/// Poll up to `max` times without blocking, taking each receive in with
/// `absorb` until the channel is empty or closed. A lag uses one of the
/// polls, so fewer than `max` messages may come back while more are buffered.
pub fn poll_messages(rx: &mut Receiver<Message>, max: usize) -> (r: Polled)
    ensures
        r.messages@.len() <= max,
{
    let mut acc = Polled { messages: Vec::new(), missed: 0, closed: false };
    let mut polls: usize = 0;
    while polls < max
        invariant
            acc.messages@.len() <= polls <= max,
        decreases max - polls,
    {
        polls += 1;
        let (next, more) = absorb(acc, poll_once(rx));
        acc = next;
        if !more {
            break;
        }
    }
    acc
}

} // verus!
