//! The decisions of the service that carries messages between a websocket
//! and the channels of its connection.

use vstd::prelude::*;

verus! {

/// Which end of a channel is meant.
#[derive(Debug, Clone, Copy, PartialEq, Eq, Structural)]
pub enum Link {
    Tx,
    Rx,
    Both,
}

/// The resource was not clonable, and had already been taken from the bus.
#[derive(Debug, PartialEq, Eq)]
pub struct ResourceTakenError {
    pub bus: String,
    pub resource: String,
}

/// The resource was never stored on the bus.
#[derive(Debug, PartialEq, Eq)]
pub struct ResourceUninitializedError {
    pub bus: String,
    pub resource: String,
}

/// Why a resource could not be taken from the bus.
#[derive(Debug, PartialEq, Eq)]
pub enum TakeResourceError {
    Uninitialized(ResourceUninitializedError),
    Taken(ResourceTakenError),
}

/// Why an end of a channel could not be taken from the bus.
#[derive(Debug, PartialEq, Eq)]
pub enum TakeChannelError {
    /// The channel was partly linked, and this end was not set.
    PartialTake { bus: String, message: String, link: Link },
    /// The channel was linked already, and a new pair of ends was asked for.
    AlreadyLinked { bus: String, message: String },
    /// The end cannot be cloned and had been taken already.
    AlreadyTaken { bus: String, message: String, link: Link },
}

/// Why the websocket service could not be started.
#[derive(Debug, PartialEq, Eq)]
pub enum WebsocketSpawnError {
    /// The socket had been taken from the bus already.
    SocketTaken(ResourceTakenError),
    /// The socket was never stored on the bus.
    SocketUninitialized(ResourceUninitializedError),
    /// A channel of the connection could not be taken.
    BusFailure(TakeChannelError),
}

impl WebsocketSpawnError {
    /// The failure to start that a failure to take the socket amounts to.
    pub fn socket_error(err: TakeResourceError) -> (failure: Self)
        ensures
            failure == match err {
                TakeResourceError::Uninitialized(uninit) => WebsocketSpawnError::SocketUninitialized(
                    uninit,
                ),
                TakeResourceError::Taken(taken) => WebsocketSpawnError::SocketTaken(taken),
            },
    {
        match err {
            TakeResourceError::Uninitialized(uninit) => Self::SocketUninitialized(uninit),
            TakeResourceError::Taken(taken) => Self::SocketTaken(taken),
        }
    }

    /// The failure to start that a failure to take a channel amounts to.
    pub fn bus_failure(err: TakeChannelError) -> (failure: Self)
        ensures
            failure == WebsocketSpawnError::BusFailure(err),
    {
        Self::BusFailure(err)
    }
}

/// The kinds of failure that reading from a websocket can report.
#[derive(Debug, Clone, Copy, PartialEq, Eq, Structural)]
pub enum WireError {
    /// The connection was closed in the regular way.
    ConnectionClosed,
    /// The connection had been closed before.
    AlreadyClosed,
    /// The peer broke the websocket protocol.
    Protocol,
    /// Any other failure.
    Other,
}

impl WireError {
    /// Whether the failure ends the connection. The others are logged, and
    /// the service goes on.
    pub open spec fn is_final(self) -> bool {
        self != WireError::Other
    }
}

/// What the service has been handed, from either side.
#[derive(Debug, Clone, Copy, PartialEq, Eq, Structural)]
pub enum WireEvent {
    /// The socket has no more frames.
    Disconnected,
    /// Reading from the socket failed.
    Failed(WireError),
    /// A frame arrived. `close` says whether it is a close frame.
    Frame { close: bool },
    /// The connection has a message to send.
    Outgoing,
    /// The connection will send no more messages.
    ChannelClosed,
}

/// What the service does next.
#[derive(Debug, Clone, Copy, PartialEq, Eq, Structural)]
pub enum WireAction {
    /// Hand the frame to the connection, and go on.
    Deliver,
    /// Write the message to the socket, and go on.
    Transmit,
    /// Log the failure, and go on.
    Skip,
    /// Stop.
    Terminate,
    /// Send a close frame, then stop.
    CloseAndTerminate,
}

/// What the service is to do about an event.
pub open spec fn reaction(event: WireEvent) -> WireAction {
    match event {
        WireEvent::Disconnected => WireAction::Terminate,
        WireEvent::Failed(err) => if err.is_final() {
            WireAction::Terminate
        } else {
            WireAction::Skip
        },
        WireEvent::Frame { close } => if close {
            WireAction::Terminate
        } else {
            WireAction::Deliver
        },
        WireEvent::Outgoing => WireAction::Transmit,
        WireEvent::ChannelClosed => WireAction::CloseAndTerminate,
    }
}

/// Decides one turn of the service's loop. Frames go to the connection and
/// its messages go to the socket. The loop ends when the socket has no more
/// frames, when it reports a closed connection or a breach of protocol, or
/// when a close frame arrives; and, with a close frame sent first, when the
/// connection has no more messages. Any other failure is passed over.
pub fn runloop(event: WireEvent) -> (action: WireAction)
    ensures
        action == reaction(event),
{
    match event {
        WireEvent::Disconnected => WireAction::Terminate,
        WireEvent::Failed(err) => {
            match err {
                WireError::ConnectionClosed | WireError::AlreadyClosed | WireError::Protocol => {
                    WireAction::Terminate
                },
                WireError::Other => WireAction::Skip,
            }
        },
        WireEvent::Frame { close } => {
            if close {
                WireAction::Terminate
            } else {
                WireAction::Deliver
            }
        },
        WireEvent::Outgoing => WireAction::Transmit,
        WireEvent::ChannelClosed => WireAction::CloseAndTerminate,
    }
}

} // verus!
