//! What a listener loop does next, given what it has just observed.
//!
//! The loop itself (accepting, receiving, writing) runs outside; each
//! observation is handed to [`serve_step`], which answers with the next action.

use vstd::prelude::*;

use crate::cli::Cli;
use crate::quote::{generate_quote, quote_outcome, QuoteError};
use crate::telemetry::{bumped, record_request, Protocol, RequestCounters};

verus! {

/// An observation of a listener loop.
#[derive(Clone, Debug, PartialEq, Eq)]
pub enum ListenerEvent {
    /// A connection was accepted (TCP) or a datagram received (UDP); the peer's
    /// address is given in its `address:port` form.
    Request(String),
    /// Accepting a connection or receiving a datagram failed.
    WaitFailed,
    /// The response was written in full to the peer.
    Delivered,
    /// Writing the response to the peer failed.
    DeliveryFailed,
}

/// What the listener loop does next.
#[derive(Clone, Debug, PartialEq, Eq)]
pub enum ListenerAction {
    /// Send these bytes to the requesting peer; over TCP, then close the connection.
    Reply(String),
    /// Wait for the next connection or datagram.
    Listen,
    /// No response can be produced for this request: report it, send nothing,
    /// and wait for the next one.
    Skip(QuoteError),
    /// The listener is unusable: end its loop.
    Stop,
}

/// The reply to one request, or the reason it is skipped.
pub open spec fn answers_request(cli: Cli, peer: Seq<char>, action: ListenerAction) -> bool {
    match action {
        ListenerAction::Reply(q) => quote_outcome(cli, peer, Ok(q)),
        ListenerAction::Skip(e) => quote_outcome(cli, peer, Err(e)),
        _ => false,
    }
}

/// Decides the next action of a listener over `proto` after `event`.
///
/// A request is answered with a freshly generated quote. A completed delivery is
/// counted for its protocol; nothing else is counted. Failed deliveries are
/// dropped and serving goes on. A failed accept is passed over, while a failed
/// receive ends the UDP listener.
pub fn serve_step(
    cli: &Cli,
    proto: Protocol,
    counters: &mut RequestCounters,
    event: ListenerEvent,
) -> (action: ListenerAction)
    ensures
        match event {
            ListenerEvent::Delivered => {
                &&& final(counters).count_spec(proto) == bumped(old(counters).count_spec(proto))
                &&& forall|q: Protocol|
                    q != proto ==> #[trigger] final(counters).count_spec(q) == old(
                        counters,
                    ).count_spec(q)
            },
            _ => *final(counters) == *old(counters),
        },
        match event {
            ListenerEvent::Request(peer) => answers_request(*cli, peer@, action),
            ListenerEvent::WaitFailed => match proto {
                Protocol::Tcp => action is Listen,
                Protocol::Udp => action is Stop,
            },
            ListenerEvent::Delivered => action is Listen,
            ListenerEvent::DeliveryFailed => action is Listen,
        },
{
    match event {
        ListenerEvent::Request(peer) => match generate_quote(cli, peer.as_str()) {
            Ok(q) => ListenerAction::Reply(q),
            Err(e) => ListenerAction::Skip(e),
        },
        ListenerEvent::WaitFailed => match proto {
            Protocol::Tcp => ListenerAction::Listen,
            Protocol::Udp => ListenerAction::Stop,
        },
        ListenerEvent::Delivered => {
            record_request(counters, proto);
            ListenerAction::Listen
        },
        ListenerEvent::DeliveryFailed => ListenerAction::Listen,
    }
}

} // verus!
