//! The channel endpoints that sessions wrap, and the failures they report.
use vstd::prelude::*;

use kanal::{ReceiveError, Receiver, SendError, Sender};

verus! {

/// `kanal::Sender`, carried through as an opaque endpoint.
#[verifier::external_type_specification]
#[verifier::external_body]
#[verifier::reject_recursive_types(T)]
pub struct ExSender<T>(Sender<T>);

/// `kanal::Receiver`, carried through as an opaque endpoint.
#[verifier::external_type_specification]
#[verifier::external_body]
#[verifier::reject_recursive_types(T)]
pub struct ExReceiver<T>(Receiver<T>);

/// `kanal::SendError`, whose two unit variants are read as declared.
#[verifier::external_type_specification]
pub struct ExSendError(SendError);

/// `kanal::ReceiveError`, whose two unit variants are read as declared.
#[verifier::external_type_specification]
pub struct ExReceiveError(ReceiveError);

/// Why a blocking channel operation could not complete.
#[derive(Debug, Clone, Copy, PartialEq, Eq, Structural)]
pub enum TransportError {
    /// The channel was closed on both sides.
    Closed,
    /// Every endpoint on the other side has been dropped.
    PeerGone,
}

impl TransportError {
    /// The failure that a refused send stands for.
    pub fn from_send_error(e: SendError) -> (r: TransportError)
        ensures
            e is Closed ==> r == TransportError::Closed,
            e is ReceiveClosed ==> r == TransportError::PeerGone,
    {
        match e {
            SendError::Closed => TransportError::Closed,
            SendError::ReceiveClosed => TransportError::PeerGone,
        }
    }

    /// The failure that a refused receive stands for.
    pub fn from_receive_error(e: ReceiveError) -> (r: TransportError)
        ensures
            e is Closed ==> r == TransportError::Closed,
            e is SendClosed ==> r == TransportError::PeerGone,
    {
        match e {
            ReceiveError::Closed => TransportError::Closed,
            ReceiveError::SendClosed => TransportError::PeerGone,
        }
    }
}

/// Relies on `kanal::Sender::send`: blocks until the channel accepts `data`,
/// or reports why it cannot. Whether it succeeds depends on the other side.
#[verifier::external_body]
pub(crate) fn channel_send<T>(tx: &Sender<T>, data: T) -> (r: Result<(), SendError>) {
    tx.send(data)
}

/// Relies on `kanal::Receiver::recv`: blocks until a value arrives, or
/// reports why none can. What arrives depends on the other side.
#[verifier::external_body]
pub(crate) fn channel_recv<T>(rx: &Receiver<T>) -> (r: Result<T, ReceiveError>) {
    rx.recv()
}

} // verus!
