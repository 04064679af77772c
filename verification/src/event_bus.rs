use crate::types::Error;
use tokio::sync::broadcast::{Receiver, Sender};
use vstd::prelude::*;
use vstd::string::*;

verus! {

/// The sending half of a tokio broadcast channel. Its state is shared with
/// the receivers behind it, so nothing is said of what it holds.
#[verifier::external_type_specification]
#[verifier::external_body]
#[verifier::reject_recursive_types(T)]
pub struct ExSender<T>(tokio::sync::broadcast::Sender<T>);

/// A receiving half of a tokio broadcast channel.
#[verifier::external_type_specification]
#[verifier::external_body]
#[verifier::reject_recursive_types(T)]
pub struct ExReceiver<T>(tokio::sync::broadcast::Receiver<T>);

/// How many events a bus retains for a subscriber that falls behind.
pub const BUS_CAPACITY: usize = 128;

/// `tokio::sync::broadcast::channel`, keeping the sender and dropping the
/// receiver that comes with it. The call panics on a capacity of zero or
/// above half of `usize::MAX`, which `requires` leaves out.
#[verifier::external_body]
fn channel_sender<T: Clone>(capacity: usize) -> (sender: Sender<T>)
    requires
        0 < capacity <= usize::MAX / 2,
{
    let (sender, _) = tokio::sync::broadcast::channel(capacity);
    sender
}

/// `Sender::send`: hands the value to the channel without blocking. It
/// returns the number of receivers that the channel had at that moment, and
/// an error when it had none, which comes back here as `None`. The count is
/// therefore never zero.
#[verifier::external_body]
fn channel_send<T>(sender: &Sender<T>, value: T) -> (receivers: Option<usize>)
    ensures
        receivers matches Some(n) ==> n > 0,
{
    sender.send(value).ok()
}

/// `Sender::subscribe`: a new receiver on the sender's channel. The call
/// panics once the channel has a quarter of `usize::MAX` receivers, more
/// than a process can hold.
#[verifier::external_body]
fn channel_subscribe<T>(sender: &Sender<T>) -> (receiver: Receiver<T>) {
    sender.subscribe()
}

/// `Receiver::try_recv`: takes the next value if one is there, without
/// waiting. Which outcome comes back depends on what the senders and the
/// other side of the channel did meanwhile; a lag of zero is never reported.
#[verifier::external_body]
fn channel_try_recv<T: Clone>(receiver: &mut Receiver<T>) -> (received: Received<T>)
    ensures
        received matches Received::Lagged(n) ==> n > 0,
{
    match receiver.try_recv() {
        Ok(value) => Received::Event(value),
        Err(tokio::sync::broadcast::error::TryRecvError::Empty) => Received::Empty,
        Err(tokio::sync::broadcast::error::TryRecvError::Closed) => Received::Closed,
        Err(tokio::sync::broadcast::error::TryRecvError::Lagged(n)) => Received::Lagged(n),
    }
}

/// The decimal digit of a number below ten.
pub open spec fn digit(d: nat) -> char {
    if d == 0 {
        '0'
    } else if d == 1 {
        '1'
    } else if d == 2 {
        '2'
    } else if d == 3 {
        '3'
    } else if d == 4 {
        '4'
    } else if d == 5 {
        '5'
    } else if d == 6 {
        '6'
    } else if d == 7 {
        '7'
    } else if d == 8 {
        '8'
    } else {
        '9'
    }
}

/// A number in decimal, without leading zeros.
pub open spec fn decimal(n: nat) -> Seq<char>
    decreases n,
{
    if n < 10 {
        seq![digit(n)]
    } else {
        decimal(n / 10).push(digit(n % 10))
    }
}

/// The message of the error that tells a subscriber how many events it
/// missed.
pub open spec fn lagged_text(skipped: u64) -> Seq<char> {
    "channel lagged by "@ + decimal(skipped as nat)
}

/// The `Display` text of tokio_stream's `BroadcastStreamRecvError::Lagged`:
/// the words "channel lagged by" and the number in decimal.
#[verifier::external_body]
fn lagged_message(skipped: u64) -> (text: String)
    ensures
        text@ == lagged_text(skipped),
{
    tokio_stream::wrappers::errors::BroadcastStreamRecvError::Lagged(skipped).to_string()
}

/// The error that a stream over a subscription yields in place of
/// `skipped` events that its subscriber missed.
pub fn lag_error(skipped: u64) -> (error: Error)
    ensures
        error@ == lagged_text(skipped),
{
    Error::from_string(lagged_message(skipped))
}

/// What one attempt to read from a subscription found.
pub enum Received<T> {
    /// The next event.
    Event(T),
    /// This many events were dropped because the subscriber fell behind;
    /// reading goes on with the oldest event still retained.
    Lagged(u64),
    /// Nothing has been published since the last read.
    Empty,
    /// The bus is gone and everything it retained has been read.
    Closed,
}

/// What a bus carries: the values of one characteristic, named by the
/// UUIDs of its service and of itself, or else the events of the bus's
/// owner.
pub type Topic = Option<(Seq<char>, Seq<char>)>;

/// A broadcast channel for events of one kind.
///
/// Delivery is tokio's. The view is the history of the bus: every event
/// that was handed to the channel, in order.
#[verifier::reject_recursive_types(T)]
pub struct EventBus<T> {
    sender: Sender<T>,
    published: Ghost<Seq<T>>,
    topic: Ghost<Topic>,
}

impl<T> View for EventBus<T> {
    type V = Seq<T>;

    closed spec fn view(&self) -> Seq<T> {
        self.published@
    }
}

/// One consumer's handle on a bus.
#[verifier::reject_recursive_types(T)]
pub struct Subscriber<T> {
    receiver: Receiver<T>,
    topic: Ghost<Topic>,
    start: Ghost<nat>,
}

impl<T: Clone> EventBus<T> {
    /// What the bus carries.
    pub closed spec fn topic(&self) -> Topic {
        self.topic@
    }

    /// A bus for the events of its owner, on which nothing has been
    /// published.
    pub fn new() -> (bus: Self)
        ensures
            bus@ == Seq::<T>::empty(),
            bus.topic() is None,
    {
        EventBus {
            sender: channel_sender(BUS_CAPACITY),
            published: Ghost(Seq::empty()),
            topic: Ghost(None),
        }
    }

    /// A bus for the values of one characteristic, on which nothing has
    /// been published.
    pub fn for_characteristic(service: &String, characteristic: &String) -> (bus: Self)
        ensures
            bus@ == Seq::<T>::empty(),
            bus.topic() == Some((service@, characteristic@)),
    {
        EventBus {
            sender: channel_sender(BUS_CAPACITY),
            published: Ghost(Seq::empty()),
            topic: Ghost(Some((service@, characteristic@))),
        }
    }

    /// Publishes `event` to the subscribers that the bus has now. This never
    /// waits and never fails: with no subscriber the event is dropped, and a
    /// subscriber that is too far behind loses its oldest unread event.
    /// Returns the number of subscribers at that moment.
    pub fn publish(&mut self, event: T) -> (receivers: usize)
        ensures
            final(self)@ == old(self)@.push(event),
            final(self).topic() == old(self).topic(),
    {
        proof {
            self.published@ = self.published@.push(event);
        }
        match channel_send(&self.sender, event) {
            Some(n) => n,
            None => 0,
        }
    }

    /// A new subscriber of this bus, which begins after what has been
    /// published so far: the first event that it can see is the next one
    /// published.
    pub fn subscribe(&self) -> (subscriber: Subscriber<T>)
        ensures
            subscriber.topic() == self.topic(),
            subscriber.start() == self@.len(),
    {
        Subscriber {
            receiver: channel_subscribe(&self.sender),
            topic: Ghost(self.topic@),
            start: Ghost(self.published@.len()),
        }
    }
}

impl<T: Clone> Subscriber<T> {
    /// The channel receiver that the subscriber reads from.
    pub closed spec fn receiver(&self) -> Receiver<T> {
        self.receiver
    }

    /// What the bus carries that the subscriber was taken from.
    pub closed spec fn topic(&self) -> Topic {
        self.topic@
    }

    /// How many events the bus had carried when the subscriber was taken
    /// from it: none of these is for the subscriber.
    pub closed spec fn start(&self) -> nat {
        self.start@
    }

    /// Reads the next event if there is one, without waiting.
    pub fn try_next(&mut self) -> (received: Received<T>)
        ensures
            received matches Received::Lagged(n) ==> n > 0,
            final(self).topic() == old(self).topic(),
            final(self).start() == old(self).start(),
    {
        channel_try_recv(&mut self.receiver)
    }

    /// Gives up the handle for the channel receiver inside it, which goes
    /// on reading where the subscriber was.
    pub fn into_receiver(self) -> (receiver: Receiver<T>)
        ensures
            receiver == self.receiver(),
    {
        self.receiver
    }
}

} // verus!
