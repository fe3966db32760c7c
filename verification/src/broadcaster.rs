//! The decisions of one instrument's broadcaster. A runner opens the
//! socket, sends and waits; after each of these it reports what happened
//! and is told what to do next.

use vstd::prelude::*;
use crate::service::{SentimentService, ServiceView};
use crate::wire::{destination, destination_text, payload_text};

verus! {

/// The broadcaster of one instrument: whose sentiment it sends, to which
/// port, how long it waits between two datagrams, and with which hop
/// limit.
#[derive(Debug, Clone, Copy, PartialEq, Eq, Structural)]
pub struct Broadcaster {
    pub id: u64,
    pub port: u64,
    pub interval_ms: u32,
    pub ttl: u32,
}

/// What a runner reports to its broadcaster.
#[derive(Debug, Clone, Copy, PartialEq, Eq, Structural)]
pub enum BroadcastEvent {
    /// The broadcaster was launched.
    Launched,
    /// The socket is open and its hop limit set.
    SocketReady,
    /// The socket could not be opened.
    SocketFailed,
    /// The datagram went out.
    Sent,
    /// The datagram could not be sent.
    SendFailed,
    /// The wait is over.
    Elapsed,
}

/// What a broadcaster tells its runner to do next.
#[derive(Debug, Clone, PartialEq, Eq)]
pub enum BroadcastAction {
    /// Open a UDP socket and set its multicast hop limit to `ttl`.
    OpenSocket { ttl: u32 },
    /// Send `payload` as one datagram to the address `destination`.
    Send { destination: Vec<u8>, payload: Vec<u8> },
    /// Wait for `interval_ms` milliseconds.
    Wait { interval_ms: u32 },
    /// End this broadcaster; the others go on.
    Stop,
}

/// A `BroadcastAction` as contracts see it.
pub enum BroadcastActionView {
    OpenSocket { ttl: u32 },
    Send { destination: Seq<u8>, payload: Seq<u8> },
    Wait { interval_ms: u32 },
    Stop,
}

impl View for BroadcastAction {
    type V = BroadcastActionView;

    open spec fn view(&self) -> BroadcastActionView {
        match *self {
            BroadcastAction::OpenSocket { ttl } => BroadcastActionView::OpenSocket { ttl },
            BroadcastAction::Send { destination, payload } => BroadcastActionView::Send {
                destination: destination@,
                payload: payload@,
            },
            BroadcastAction::Wait { interval_ms } => BroadcastActionView::Wait { interval_ms },
            BroadcastAction::Stop => BroadcastActionView::Stop,
        }
    }
}

/// What broadcaster `b` does next, given what just happened and the state
/// `v` of the service.
///
/// Once launched it opens its socket. Without a socket it stops. With
/// one, it sends the latest sentiment of its instrument, waits, and sends
/// again, whether or not the value has changed and whether or not the
/// last datagram went out.
pub open spec fn reaction(
    b: Broadcaster,
    v: ServiceView,
    event: BroadcastEvent,
) -> BroadcastActionView {
    match event {
        BroadcastEvent::Launched => BroadcastActionView::OpenSocket { ttl: b.ttl },
        BroadcastEvent::SocketFailed => BroadcastActionView::Stop,
        BroadcastEvent::SocketReady | BroadcastEvent::Elapsed => BroadcastActionView::Send {
            destination: destination_text(b.port as nat),
            payload: payload_text(v.sentiment(b.id)),
        },
        BroadcastEvent::Sent | BroadcastEvent::SendFailed => BroadcastActionView::Wait {
            interval_ms: b.interval_ms,
        },
    }
}

impl Broadcaster {
    /// Decides what to do after `event`, reading the latest sentiment
    /// from `service` where a datagram is due.
    pub fn react(&self, service: &SentimentService, event: BroadcastEvent) -> (action:
        BroadcastAction)
        ensures
            action@ == reaction(*self, service@, event),
    {
        match event {
            BroadcastEvent::Launched => BroadcastAction::OpenSocket { ttl: self.ttl },
            BroadcastEvent::SocketFailed => BroadcastAction::Stop,
            BroadcastEvent::SocketReady | BroadcastEvent::Elapsed => BroadcastAction::Send {
                destination: destination(self.port),
                payload: service.payload(self.id),
            },
            BroadcastEvent::Sent | BroadcastEvent::SendFailed => BroadcastAction::Wait {
                interval_ms: self.interval_ms,
            },
        }
    }
}

} // verus!
