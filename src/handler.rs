use vstd::prelude::*;

use crate::framing::{
    frame, frame_message, is_utf8, read_action, read_outcome, strip_line_terminator,
    strip_terminator, utf8_valid,
};
use crate::peer::{Message, PeerAddr};

verus! {

/// Where a connection stands: it relays while `Active`, stops both of its
/// paths in `Closing`, and is done once `Closed`.
#[derive(Clone, Copy, Debug, PartialEq, Eq, Structural)]
pub enum Phase {
    Active,
    Closing,
    Closed,
}

/// What a connection's task observed: the outcome of a read from its socket,
/// of a receive from its hub subscription, or of a write to its socket.
#[derive(Debug)]
pub enum Event {
    /// A read returned these bytes; none at all means the peer closed.
    Read(Vec<u8>),
    ReadFailed,
    /// The hub handed over a message.
    Received(Message),
    /// The subscription fell behind and this many messages were dropped for it.
    Missed(u64),
    /// The hub has no sender left.
    HubClosed,
    WriteFailed,
}

pub enum EventView {
    Read(Seq<u8>),
    ReadFailed,
    Received { origin: PeerAddr, content: Seq<u8> },
    Missed(u64),
    HubClosed,
    WriteFailed,
}

impl View for Event {
    type V = EventView;

    open spec fn view(&self) -> EventView {
        match self {
            Event::Read(b) => EventView::Read(b@),
            Event::ReadFailed => EventView::ReadFailed,
            Event::Received(m) => EventView::Received { origin: m.origin, content: m.content@ },
            Event::Missed(n) => EventView::Missed(*n),
            Event::HubClosed => EventView::HubClosed,
            Event::WriteFailed => EventView::WriteFailed,
        }
    }
}

/// What the connection's task is to do next.
#[derive(Debug)]
pub enum Action {
    /// Hand this message to the hub.
    Publish(Message),
    /// Write these bytes to the socket and flush.
    Write(Vec<u8>),
    Nothing,
    /// Stop both paths and release the socket and the subscription.
    Close,
}

pub enum ActionView {
    Publish { origin: PeerAddr, content: Seq<u8> },
    Write(Seq<u8>),
    Nothing,
    Close,
}

impl View for Action {
    type V = ActionView;

    open spec fn view(&self) -> ActionView {
        match self {
            Action::Publish(m) => ActionView::Publish { origin: m.origin, content: m.content@ },
            Action::Write(b) => ActionView::Write(b@),
            Action::Nothing => ActionView::Nothing,
            Action::Close => ActionView::Close,
        }
    }
}

/// What a message from `origin` leads to at the connection of `peer`: it is
/// written out framed, unless it came from that very connection.
pub open spec fn delivery_outcome(peer: PeerAddr, origin: PeerAddr, content: Seq<u8>) -> ActionView {
    if origin == peer {
        ActionView::Nothing
    } else {
        ActionView::Write(frame(content))
    }
}

/// One transition of the connection of `peer`: its next phase and its action.
/// Outside `Active` nothing happens; any failure, the peer's close or the
/// hub's closing moves it to `Closing`; a lag report changes nothing.
pub open spec fn transition(peer: PeerAddr, phase: Phase, event: EventView) -> (Phase, ActionView) {
    if phase != Phase::Active {
        (phase, ActionView::Nothing)
    } else {
        match event {
            EventView::Read(chunk) => {
                let a = read_outcome(peer, chunk, is_utf8(strip_terminator(chunk)));
                (if a is Close { Phase::Closing } else { Phase::Active }, a)
            },
            EventView::Received { origin, content } => (
                Phase::Active,
                delivery_outcome(peer, origin, content),
            ),
            EventView::Missed(_) => (Phase::Active, ActionView::Nothing),
            _ => (Phase::Closing, ActionView::Close),
        }
    }
}

/// The state of the connection of `peer` after a run of events, with the
/// actions taken along the way, in order.
pub open spec fn run(peer: PeerAddr, phase: Phase, events: Seq<EventView>) -> (Phase, Seq<ActionView>)
    decreases events.len(),
{
    if events.len() == 0 {
        (phase, Seq::empty())
    } else {
        let before = run(peer, phase, events.drop_last());
        let next = transition(peer, before.0, events.last());
        (next.0, before.1.push(next.1))
    }
}

/// The bytes written to the socket by a run of actions, one entry per write, in order.
pub open spec fn written(actions: Seq<ActionView>) -> Seq<Seq<u8>>
    decreases actions.len(),
{
    if actions.len() == 0 {
        Seq::empty()
    } else {
        let before = written(actions.drop_last());
        match actions.last() {
            ActionView::Write(bytes) => before.push(bytes),
            _ => before,
        }
    }
}

/// The frames of the messages among `events` that did not come from `peer`, in order.
pub open spec fn frames_from_others(peer: PeerAddr, events: Seq<EventView>) -> Seq<Seq<u8>>
    decreases events.len(),
{
    if events.len() == 0 {
        Seq::empty()
    } else {
        let before = frames_from_others(peer, events.drop_last());
        match events.last() {
            EventView::Received { origin, content } => if origin != peer {
                before.push(frame(content))
            } else {
                before
            },
            _ => before,
        }
    }
}

/// Whether an event comes from the hub side: a message or a lag report.
pub open spec fn is_delivery(event: EventView) -> bool {
    event is Received || event is Missed
}

/// The relay state of one connection: whose it is and where it stands.
#[derive(Debug)]
pub struct Connection {
    pub peer: PeerAddr,
    pub phase: Phase,
}

impl Connection {
    /// A connection that has just been accepted.
    pub fn new(peer: PeerAddr) -> (r: Connection)
        ensures
            r.peer == peer,
            r.phase == Phase::Active,
    {
        Connection { peer, phase: Phase::Active }
    }

    /// Decides what to do on one event, and moves to the next phase.
    pub fn step(&mut self, event: Event) -> (r: Action)
        ensures
            final(self).peer == old(self).peer,
            (final(self).phase, r@) == transition(old(self).peer, old(self).phase, event@),
    {
        match self.phase {
            Phase::Active => {},
            _ => return Action::Nothing,
        }
        match event {
            Event::Read(chunk) => {
                let content = strip_line_terminator(chunk.as_slice());
                let text = utf8_valid(content.as_slice());
                let a = read_action(self.peer, chunk.as_slice(), text);
                if let Action::Close = a {
                    self.phase = Phase::Closing;
                }
                a
            },
            Event::Received(m) => {
                if m.origin.same(&self.peer) {
                    Action::Nothing
                } else {
                    Action::Write(frame_message(m.content.as_slice()))
                }
            },
            Event::Missed(_) => Action::Nothing,
            _ => {
                self.phase = Phase::Closing;
                Action::Close
            },
        }
    }

    /// Ends a connection that is closing; any other phase is left as it is.
    pub fn finish(&mut self)
        ensures
            final(self).peer == old(self).peer,
            final(self).phase == (if old(self).phase == Phase::Closing {
                Phase::Closed
            } else {
                old(self).phase
            }),
    {
        if let Phase::Closing = self.phase {
            self.phase = Phase::Closed;
        }
    }

    /// Whether the connection still relays.
    pub fn is_active(&self) -> (r: bool)
        ensures
            r == (self.phase == Phase::Active),
    {
        match self.phase {
            Phase::Active => true,
            _ => false,
        }
    }
}

} // verus!
