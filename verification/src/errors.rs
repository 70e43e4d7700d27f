use vstd::prelude::*;

verus! {

/// The single terminal error that classifies why establishing a connection
/// or a service failed.
#[derive(Clone, Copy, Debug, PartialEq, Eq, Structural)]
pub enum NetError {
    /// Name resolution failed or produced no address.
    DnsResolutionFailed,
    /// Every raced address attempt failed.
    AllAddressesUnreachable,
    /// The secure handshake was not completed.
    HandshakeFailed,
    /// The route is cooling down; no network call was made.
    RouteThrottled,
    /// Every listed route was tried (or skipped as throttled) without success.
    AllRoutesExhausted,
    /// The overall budget ran out before the next route could be started.
    OverallTimeout,
    /// A stream was established but the service on top of it was not.
    ServiceConnectionFailed,
}

} // verus!
