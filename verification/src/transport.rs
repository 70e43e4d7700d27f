use crate::errors::NetError;
use vstd::prelude::*;

verus! {

/// A resolved address, by its octets.
#[derive(Clone, Copy, Debug, PartialEq, Eq)]
pub enum IpAddress {
    V4([u8; 4]),
    V6([u8; 16]),
}

/// The host that a stream is connected to.
#[derive(Clone, Debug, PartialEq, Eq)]
pub enum Host {
    Domain(String),
    Ipv4([u8; 4]),
    Ipv6([u8; 16]),
}

/// An established stream together with the host that it leads to.
pub struct StreamAndHost<T>(pub T, pub Host);

/// The host that stands for a resolved address: the same octets, kept by
/// address family.
pub fn ip_addr_to_host(ip: IpAddress) -> (host: Host)
    ensures
        host == (match ip {
            IpAddress::V4(octets) => Host::Ipv4(octets),
            IpAddress::V6(octets) => Host::Ipv6(octets),
        }),
{
    match ip {
        IpAddress::V4(v4) => Host::Ipv4(v4),
        IpAddress::V6(v6) => Host::Ipv6(v6),
    }
}

/// How far one transport connection has come.
#[derive(Clone, Copy, Debug, PartialEq, Eq, Structural)]
pub enum ConnectPhase {
    /// Waiting for the addresses of the host.
    Resolving,
    /// Racing attempts on this many addresses.
    Racing(usize),
    /// A socket to the address at this index is open; the handshake runs.
    Handshaking(usize),
    /// The secured stream to the address at this index is ready.
    Connected(usize),
    /// The connection was given up.
    Failed(NetError),
}

/// What happened outside while a transport connection was being made.
#[derive(Clone, Copy, Debug, PartialEq, Eq, Structural)]
pub enum ConnectEvent {
    /// Name resolution answered with this many addresses.
    Resolved(usize),
    /// Name resolution failed.
    ResolutionFailed,
    /// The race was won by the address at this index.
    SocketOpened(usize),
    /// Every attempt of the race failed.
    NoSocket,
    /// The handshake was completed.
    HandshakeCompleted,
    /// The handshake could not be set up or was not completed.
    HandshakeRejected,
}

/// The phase that follows `phase` on `event`. Resolution that fails or
/// yields no address is a resolution error; a lost race is an unreachable
/// host; a handshake that is not completed is a handshake error. An event
/// that does not belong to the phase changes nothing, and the two final
/// phases are never left.
pub open spec fn phase_after(phase: ConnectPhase, event: ConnectEvent) -> ConnectPhase {
    match (phase, event) {
        (ConnectPhase::Resolving, ConnectEvent::Resolved(n)) => if n == 0 {
            ConnectPhase::Failed(NetError::DnsResolutionFailed)
        } else {
            ConnectPhase::Racing(n)
        },
        (ConnectPhase::Resolving, ConnectEvent::ResolutionFailed) => ConnectPhase::Failed(
            NetError::DnsResolutionFailed,
        ),
        (ConnectPhase::Racing(n), ConnectEvent::SocketOpened(idx)) => if idx < n {
            ConnectPhase::Handshaking(idx)
        } else {
            phase
        },
        (ConnectPhase::Racing(_), ConnectEvent::NoSocket) => ConnectPhase::Failed(
            NetError::AllAddressesUnreachable,
        ),
        (ConnectPhase::Handshaking(idx), ConnectEvent::HandshakeCompleted) => ConnectPhase::Connected(
            idx,
        ),
        (ConnectPhase::Handshaking(_), ConnectEvent::HandshakeRejected) => ConnectPhase::Failed(
            NetError::HandshakeFailed,
        ),
        _ => phase,
    }
}

/// Whether a phase is final: connected or failed.
pub open spec fn is_final_phase(phase: ConnectPhase) -> bool {
    phase is Connected || phase is Failed
}

/// The connector that opens a socket to the fastest reachable address of a
/// host and secures it by a handshake.
#[derive(Clone, Copy, Debug)]
pub struct TcpSslTransportConnector;

impl TcpSslTransportConnector {
    /// The phase in which every connection starts.
    pub fn start(&self) -> (phase: ConnectPhase)
        ensures
            phase == ConnectPhase::Resolving,
    {
        ConnectPhase::Resolving
    }

    /// Moves a connection from `phase` on `event`.
    pub fn advance(&self, phase: ConnectPhase, event: ConnectEvent) -> (next: ConnectPhase)
        ensures
            next == phase_after(phase, event),
    {
        match phase {
            ConnectPhase::Resolving => match event {
                ConnectEvent::Resolved(n) => if n == 0 {
                    ConnectPhase::Failed(NetError::DnsResolutionFailed)
                } else {
                    ConnectPhase::Racing(n)
                },
                ConnectEvent::ResolutionFailed => ConnectPhase::Failed(
                    NetError::DnsResolutionFailed,
                ),
                _ => phase,
            },
            ConnectPhase::Racing(n) => match event {
                ConnectEvent::SocketOpened(idx) => if idx < n {
                    ConnectPhase::Handshaking(idx)
                } else {
                    phase
                },
                ConnectEvent::NoSocket => ConnectPhase::Failed(NetError::AllAddressesUnreachable),
                _ => phase,
            },
            ConnectPhase::Handshaking(idx) => match event {
                ConnectEvent::HandshakeCompleted => ConnectPhase::Connected(idx),
                ConnectEvent::HandshakeRejected => ConnectPhase::Failed(NetError::HandshakeFailed),
                _ => phase,
            },
            _ => phase,
        }
    }

    /// The outcome that a final phase stands for: the index of the address
    /// that the stream leads to, or the error.
    pub fn outcome(&self, phase: ConnectPhase) -> (r: Option<Result<usize, NetError>>)
        ensures
            r == (match phase {
                ConnectPhase::Connected(idx) => Some(Ok::<usize, NetError>(idx)),
                ConnectPhase::Failed(e) => Some(Err::<usize, NetError>(e)),
                _ => None,
            }),
    {
        match phase {
            ConnectPhase::Connected(idx) => Some(Ok(idx)),
            ConnectPhase::Failed(e) => Some(Err(e)),
            _ => None,
        }
    }
}

/// A connection that is connected or failed stays so, and one that is
/// connected got there by a completed handshake on an address of the race.
pub proof fn lemma_final_phases_stay(phase: ConnectPhase, event: ConnectEvent)
    ensures
        is_final_phase(phase) ==> phase_after(phase, event) == phase,
        phase_after(phase, event) is Connected && !(phase is Connected) ==> phase is Handshaking
            && event == ConnectEvent::HandshakeCompleted,
        !(phase_after(phase, event) is Resolving) || phase is Resolving,
{
}

} // verus!
