use vstd::prelude::*;

use crate::peer::Message;
use tokio::sync::broadcast::{Receiver, Sender};

verus! {

#[verifier::external_type_specification]
#[verifier::external_body]
#[verifier::reject_recursive_types(T)]
pub struct ExSender<T>(Sender<T>);

#[verifier::external_type_specification]
#[verifier::external_body]
#[verifier::reject_recursive_types(T)]
pub struct ExReceiver<T>(Receiver<T>);

/// How many undelivered messages the hub keeps for each subscriber.
pub const DEFAULT_CAPACITY: usize = 100;

/// Relies on tokio's broadcast::Sender::new, which makes a channel with no
/// receiver yet and panics on a capacity of zero or above `usize::MAX / 2`.
#[verifier::external_body]
fn open_channel(capacity: usize) -> (r: Sender<Message>)
    requires
        0 < capacity <= usize::MAX / 2,
{
    Sender::new(capacity)
}

/// Relies on tokio's broadcast::Sender::send, which fails only when the
/// channel has no receiver and otherwise returns the number of receivers.
#[verifier::external_body]
fn send_on_channel(sender: &Sender<Message>, msg: Message) -> (r: Option<usize>)
    ensures
        r matches Some(n) ==> n >= 1,
{
    match sender.send(msg) {
        Ok(n) => Some(n),
        Err(_) => None,
    }
}

/// Relies on tokio's broadcast::Sender::subscribe, which returns a receiver
/// of every value sent after the call (it panics only once the channel has
/// `usize::MAX >> 2` receivers).
#[verifier::external_body]
fn subscribe_to_channel(sender: &Sender<Message>) -> Receiver<Message> {
    sender.subscribe()
}

/// What a publish reached.
#[derive(Clone, Copy, Debug, PartialEq, Eq, Structural)]
pub enum Delivery {
    /// The message was queued for this many subscribers.
    Fanned(usize),
    /// Nobody was subscribed; the message went nowhere.
    NoSubscribers,
}

/// The fan-out point shared by all connections: a bounded broadcast channel
/// that drops a slow subscriber's oldest messages rather than block a publisher.
pub struct Hub {
    sender: Sender<Message>,
}

impl Hub {
    /// A hub that keeps up to `capacity` undelivered messages per subscriber
    /// (the channel rounds it up to a power of two).
    pub fn new(capacity: usize) -> (r: Hub)
        requires
            0 < capacity <= usize::MAX / 2,
    {
        Hub { sender: open_channel(capacity) }
    }

    /// A hub with the default capacity.
    pub fn with_default_capacity() -> (r: Hub) {
        Hub::new(DEFAULT_CAPACITY)
    }

    /// A fresh subscription: it sees every message published after this call.
    pub fn subscribe(&self) -> Receiver<Message> {
        subscribe_to_channel(&self.sender)
    }

    /// Hands a message to every current subscriber without waiting for any.
    /// With nobody subscribed this is no error: the message is dropped.
    pub fn publish(&self, msg: Message) -> (r: Delivery)
        ensures
            r matches Delivery::Fanned(n) ==> n >= 1,
    {
        match send_on_channel(&self.sender, msg) {
            Some(n) => Delivery::Fanned(n),
            None => Delivery::NoSubscribers,
        }
    }
}

} // verus!
