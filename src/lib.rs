//! A line-oriented chat relay: every line a connection sends is handed to a
//! shared broadcast hub and written out by every other live connection.
//!
//! The library holds the relay's decisions: how a read is framed into a
//! message, what a connection does on each event, and the hub that fans
//! messages out. Sockets and the task that waits on them live outside it.

mod framing;
mod handler;
mod hub;
mod laws;
mod peer;

pub use framing::{frame_message, read_action, strip_line_terminator};
pub use handler::{Action, Connection, Event, Phase};
pub use hub::{Delivery, Hub, DEFAULT_CAPACITY};
pub use laws::{
    lemma_closed_connection_is_silent, lemma_deliveries_relay_in_order, lemma_fan_out_skips_sender,
    lemma_same_order_for_receivers,
};
pub use peer::{Message, PeerAddr};
