use net_infra::errors::NetError;
use net_infra::racing::{
    attempt_delay_ms, race_outcome, staggered_delays, AddressRace, AttemptOutcome, RaceStep,
    CONNECTION_ATTEMPT_DELAY_MS,
};
use net_infra::transport::{
    ip_addr_to_host, ConnectEvent, ConnectPhase, Host, IpAddress, TcpSslTransportConnector,
};

fn reachable(latency_ms: u32) -> AttemptOutcome {
    AttemptOutcome { reachable: true, latency_ms }
}

fn unreachable(latency_ms: u32) -> AttemptOutcome {
    AttemptOutcome { reachable: false, latency_ms }
}

#[test]
fn delays_are_staggered_by_200_ms() {
    assert_eq!(CONNECTION_ATTEMPT_DELAY_MS, 200);
    assert_eq!(attempt_delay_ms(0), 0);
    assert_eq!(attempt_delay_ms(1), 200);
    assert_eq!(attempt_delay_ms(3), 600);
    assert_eq!(staggered_delays(4), vec![0, 200, 400, 600]);
    assert_eq!(staggered_delays(0), Vec::<u64>::new());
}

#[test]
fn single_reachable_address_wins_after_its_delay() {
    let r = race_outcome(&vec![unreachable(50), unreachable(10), reachable(30)]);
    assert_eq!(r.winner, Some(2));
    assert_eq!(r.elapsed_ms, 430);
    let r = race_outcome(&vec![reachable(7)]);
    assert_eq!(r.winner, Some(0));
    assert_eq!(r.elapsed_ms, 7);
}

#[test]
fn all_unreachable_ends_with_last_failure() {
    let r = race_outcome(&vec![unreachable(50), unreachable(10), unreachable(30)]);
    assert_eq!(r.winner, None);
    assert_eq!(r.elapsed_ms, 430);
    let r = race_outcome(&vec![unreachable(1000), unreachable(10)]);
    assert_eq!(r.winner, None);
    assert_eq!(r.elapsed_ms, 1000);
}

#[test]
fn first_to_complete_wins_regardless_of_index() {
    let r = race_outcome(&vec![reachable(500), reachable(100)]);
    assert_eq!(r.winner, Some(1));
    assert_eq!(r.elapsed_ms, 300);
    let r = race_outcome(&vec![reachable(200), reachable(0)]);
    assert_eq!(r.winner, Some(0));
    assert_eq!(r.elapsed_ms, 200);
}

#[test]
fn race_without_addresses_is_a_resolution_failure() {
    assert!(matches!(AddressRace::start(0), Err(NetError::DnsResolutionFailed)));
    let r = race_outcome(&Vec::new());
    assert_eq!(r.winner, None);
    assert_eq!(r.elapsed_ms, 0);
}

#[test]
fn race_is_lost_only_when_every_attempt_failed() {
    let mut race = AddressRace::start(3).ok().unwrap();
    assert_eq!(race.len(), 3);
    assert_eq!(race.current_step(), RaceStep::Pending);
    assert_eq!(race.on_failure(1), RaceStep::Pending);
    assert_eq!(race.on_failure(0), RaceStep::Pending);
    assert_eq!(race.on_failure(0), RaceStep::Pending);
    assert_eq!(race.on_failure(2), RaceStep::Lost(NetError::AllAddressesUnreachable));
}

#[test]
fn first_success_decides_the_race() {
    let mut race = AddressRace::start(3).ok().unwrap();
    assert_eq!(race.on_failure(0), RaceStep::Pending);
    assert_eq!(race.on_success(2), RaceStep::Won(2));
    assert_eq!(race.on_success(1), RaceStep::Won(2));
    assert_eq!(race.on_failure(1), RaceStep::Won(2));
    assert_eq!(race.current_step(), RaceStep::Won(2));
}

#[test]
fn resolved_address_keeps_its_octets() {
    assert_eq!(ip_addr_to_host(IpAddress::V4([192, 0, 2, 1])), Host::Ipv4([192, 0, 2, 1]));
    let mut v6 = [0u8; 16];
    v6[15] = 1;
    assert_eq!(ip_addr_to_host(IpAddress::V6(v6)), Host::Ipv6(v6));
}

#[test]
fn transport_connection_phases() {
    let c = TcpSslTransportConnector;
    let p = c.start();
    assert_eq!(p, ConnectPhase::Resolving);
    assert_eq!(c.outcome(p), None);
    assert_eq!(
        c.advance(p, ConnectEvent::Resolved(0)),
        ConnectPhase::Failed(NetError::DnsResolutionFailed)
    );
    assert_eq!(
        c.advance(p, ConnectEvent::ResolutionFailed),
        ConnectPhase::Failed(NetError::DnsResolutionFailed)
    );
    let p = c.advance(p, ConnectEvent::Resolved(2));
    assert_eq!(p, ConnectPhase::Racing(2));
    assert_eq!(c.advance(p, ConnectEvent::HandshakeCompleted), p);
    assert_eq!(c.advance(p, ConnectEvent::SocketOpened(2)), p);
    assert_eq!(
        c.advance(p, ConnectEvent::NoSocket),
        ConnectPhase::Failed(NetError::AllAddressesUnreachable)
    );
    let p = c.advance(p, ConnectEvent::SocketOpened(1));
    assert_eq!(p, ConnectPhase::Handshaking(1));
    assert_eq!(
        c.advance(p, ConnectEvent::HandshakeRejected),
        ConnectPhase::Failed(NetError::HandshakeFailed)
    );
    let p = c.advance(p, ConnectEvent::HandshakeCompleted);
    assert_eq!(p, ConnectPhase::Connected(1));
    assert_eq!(c.outcome(p), Some(Ok(1)));
    assert_eq!(c.advance(p, ConnectEvent::NoSocket), p);
    let failed = ConnectPhase::Failed(NetError::HandshakeFailed);
    assert_eq!(c.advance(failed, ConnectEvent::Resolved(3)), failed);
    assert_eq!(c.outcome(failed), Some(Err(NetError::HandshakeFailed)));
}
