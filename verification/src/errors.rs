use vstd::prelude::*;

use crate::height::Height;
use crate::identifier::ClientId;
use crate::identifier::ClientIdV;

verus! {

/// Failures of value construction and of the client state transitions.
///
/// Every variant carries the data a caller needs to render a diagnostic
/// without querying any further state.
#[derive(Clone, Copy, Debug, PartialEq, Eq, Structural)]
pub enum ClientError {
    /// A height whose height component is zero, or one that cannot be
    /// decremented without reaching zero.
    InvalidHeight,
    /// A trust threshold with a zero denominator or a numerator above the
    /// denominator.
    InvalidTrustThreshold { numerator: u64, denominator: u64 },
    /// A client state built with a trusting period of zero.
    InvalidTrustingPeriod,
    /// A stored client state that violates the client-state invariant.
    InvalidClientState,
    /// A state transition addressed a client id this chain does not track.
    UnknownClient,
    /// A transition was attempted on a client frozen by misbehaviour; the
    /// frozen state is terminal.
    ClientFrozen { frozen_height: Height },
    /// A header's trusted height matches no consensus state stored for the
    /// client.
    TrustedHeightMismatch { trusted_height: Height },
    /// A header whose height does not strictly advance the client's latest
    /// height.
    HeaderNotNewer { header_height: Height, latest_height: Height },
    /// Misbehaviour evidence whose two headers are not at the same height.
    MisbehaviourHeightMismatch { height1: Height, height2: Height },
    /// Misbehaviour evidence whose two headers do not diverge.
    MisbehaviourNotConflicting { height: Height },
    /// The host chain's height component is saturated and cannot advance.
    HeightOverflow,
}

/// Failure reported by a chain context answering a query.
#[derive(Clone, Copy, Debug, PartialEq, Eq, Structural)]
pub enum ContextError {
    Client(ClientError),
}

/// Mathematical content of a `RelayerError`.
#[verifier::ext_equal]
pub enum RelayerErrorV {
    ClientStateNotFound { client_id: ClientIdV },
    ClientAlreadyUpToDate { client_id: ClientIdV, source_height: Height, destination_height: Height },
    ClientAtHigherHeight { client_id: ClientIdV, source_height: Height, destination_height: Height },
}

/// Failures of the update decision. Each variant carries the client id and
/// the heights a relayer needs to decide whether to retry, skip or escalate.
#[derive(Debug)]
pub enum RelayerError {
    /// The destination has no record of the client.
    ClientStateNotFound { client_id: ClientId },
    /// The destination already tracks exactly the presented height: nothing
    /// to do, signalled explicitly so callers can tell it from a failure.
    ClientAlreadyUpToDate { client_id: ClientId, source_height: Height, destination_height: Height },
    /// The destination is already ahead of the presented header: a
    /// misconfiguration or a race, surfaced rather than clamped.
    ClientAtHigherHeight { client_id: ClientId, source_height: Height, destination_height: Height },
}

impl View for RelayerError {
    type V = RelayerErrorV;

    open spec fn view(&self) -> RelayerErrorV {
        match self {
            RelayerError::ClientStateNotFound { client_id } => RelayerErrorV::ClientStateNotFound {
                client_id: client_id@,
            },
            RelayerError::ClientAlreadyUpToDate { client_id, source_height, destination_height } => (
            RelayerErrorV::ClientAlreadyUpToDate {
                client_id: client_id@,
                source_height: *source_height,
                destination_height: *destination_height,
            }),
            RelayerError::ClientAtHigherHeight { client_id, source_height, destination_height } => (
            RelayerErrorV::ClientAtHigherHeight {
                client_id: client_id@,
                source_height: *source_height,
                destination_height: *destination_height,
            }),
        }
    }
}

} // verus!
