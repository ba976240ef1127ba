//! Listening, reserving and dialing.
use libp2p_core::transport::ListenerId;
use libp2p_core::Multiaddr;
use libp2p_core::multiaddr::Protocol as Part;
use libp2p_core::multihash::Multihash;
use libp2p_identity::{Keypair, PeerId};
use libp2p_webrtc_browser::config::Config;
use libp2p_webrtc_browser::dial::{
    DialOpts, DialRequest, DialStep, Endpoint, HandshakeAction, HandshakeEvent, HandshakeStage,
    PortUse,
};
use libp2p_webrtc_browser::error::{Error, TransportError};
use libp2p_webrtc_browser::event::{drop_listener, TransportEvent};
use libp2p_webrtc_browser::extract::{IpAddr, SocketAddr};
use libp2p_webrtc_browser::hop::{HopMessage, HopMessageType, Reservation, Status};
use libp2p_webrtc_browser::reservation::{
    decode_addresses, ReserveAction, ReserveEvent, ReserveStage,
};
use libp2p_webrtc_browser::transport::{is_relayed, Transport};
use libp2p_webrtc_utils::Fingerprint;
use std::collections::VecDeque;

type Subject = Transport<u32, ()>;

const DIALER: DialOpts = DialOpts {
    role: Endpoint::Dialer,
    port_use: PortUse::New,
};

const SIGNALING: &str = "/signaling/1";

fn keypair() -> Keypair {
    Keypair::ed25519_from_bytes([9u8; 32]).unwrap()
}

fn subject() -> Subject {
    Transport::new(Config::new(&keypair()).with_stun_server("stun:one.example"))
}

fn addr(text: &str) -> Multiaddr {
    text.parse().unwrap()
}

fn relay() -> Multiaddr {
    addr("/ip4/10.0.0.1/tcp/9090/ws/p2p-circuit")
}

fn answer(status: Option<Status>, addrs: Option<Vec<Vec<u8>>>) -> HopMessage {
    HopMessage {
        type_pb: HopMessageType::STATUS,
        peer: None,
        reservation: addrs.map(|addrs| Reservation {
            expire: 60,
            addrs,
            voucher: None,
        }),
        limit: None,
        status,
    }
}

fn grant(transport: &mut Subject, relay_addr: &Multiaddr, connection: u32) {
    transport
        .settle_reservation(relay_addr, connection, answer(Some(Status::OK), None))
        .unwrap();
}

fn listen(transport: &mut Subject, id: ListenerId, addr: Multiaddr) {
    let request = transport.listen_on(id, addr).unwrap();
    transport.settle_listening(request, Ok::<(), ()>(())).unwrap();
}

fn request(transport: &Subject, dialed: &Multiaddr) -> DialRequest {
    match transport.dial(dialed.clone(), DIALER, true).unwrap() {
        DialStep::Reserve(request) | DialStep::Connect(request) => request,
    }
}

fn connects(transport: &Subject, dialed: &Multiaddr) -> bool {
    matches!(transport.dial(dialed.clone(), DIALER, true).unwrap(), DialStep::Connect(_))
}

fn new_address(event: Option<TransportEvent<()>>) -> (ListenerId, Multiaddr) {
    match event {
        Some(TransportEvent::NewAddress {
            listener_id,
            listen_addr,
        }) => (listener_id, listen_addr),
        other => panic!("unexpected event: {:?}", other),
    }
}

#[test]
fn new_transport_has_nothing_to_report() {
    let mut transport = subject();
    assert!(transport.poll().is_none());
    assert_eq!(transport.config().stun_servers, vec!["stun:one.example"]);
    assert!(transport.relay_connection(&relay()).is_err());
    assert!(transport.reservation_addresses(&relay()).is_none());
}

#[test]
fn listening_through_a_relay_announces_a_webrtc_address() {
    let mut transport = subject();
    let id = ListenerId::next();
    listen(&mut transport, id, relay());
    assert_eq!(
        new_address(transport.poll()),
        (id, addr("/ip4/10.0.0.1/tcp/9090/ws/p2p-circuit/webrtc"))
    );
    assert!(transport.poll().is_none());
}

#[test]
fn relay_client_is_asked_for_the_address_without_webrtc() {
    let mut transport = subject();
    let id = ListenerId::next();
    let asked = transport.listen_on(id, relay()).unwrap();
    assert_eq!(asked.listener_id(), id);
    assert_eq!(asked.addr(), &relay());
    assert!(transport.poll().is_none());
}

#[test]
fn nothing_is_announced_where_the_relay_client_fails() {
    let mut transport = subject();
    let (first, second) = (ListenerId::next(), ListenerId::next());
    listen(&mut transport, first, relay());
    let asked = transport.listen_on(second, relay()).unwrap();
    assert_eq!(transport.settle_listening(asked, Err("no relay")), Err("no relay"));
    assert_eq!(new_address(transport.poll()).0, first);
    assert!(transport.poll().is_none());
}

#[test]
fn only_relayed_addresses_are_listened_on() {
    let mut transport = subject();
    let direct = addr("/ip4/10.0.0.1/tcp/9090/ws");
    assert!(!is_relayed(&direct));
    assert!(is_relayed(&relay()));
    match transport.listen_on(ListenerId::next(), direct.clone()) {
        Err(TransportError::MultiaddrNotSupported(refused)) => assert_eq!(refused, direct),
        other => panic!("unexpected outcome: {:?}", other),
    }
    assert!(transport.poll().is_none());
}

#[test]
fn events_are_reported_in_order() {
    let mut transport = subject();
    let (first, second) = (ListenerId::next(), ListenerId::next());
    listen(&mut transport, first, relay());
    listen(&mut transport, second, relay());
    assert_eq!(new_address(transport.poll()).0, first);
    assert_eq!(new_address(transport.poll()).0, second);
    assert!(transport.poll().is_none());
}

#[test]
fn removed_listener_is_forgotten_and_others_are_kept() {
    let mut transport = subject();
    let (removed, kept) = (ListenerId::next(), ListenerId::next());
    listen(&mut transport, removed, relay());
    listen(&mut transport, kept, relay());
    listen(&mut transport, removed, relay());
    assert!(transport.remove_listener(removed, false));
    assert!(!transport.remove_listener(removed, false));
    assert_eq!(new_address(transport.poll()).0, kept);
    assert!(transport.poll().is_none());
}

#[test]
fn listener_known_to_the_relay_client_counts_as_found() {
    let mut transport = subject();
    assert!(transport.remove_listener(ListenerId::next(), true));
    assert!(!transport.remove_listener(ListenerId::next(), false));
}

#[test]
fn events_of_every_kind_are_dropped_with_their_listener() {
    let (removed, kept) = (ListenerId::next(), ListenerId::next());
    let mut queue: VecDeque<TransportEvent<u8>> = VecDeque::new();
    for id in [removed, kept] {
        queue.push_back(TransportEvent::NewAddress {
            listener_id: id,
            listen_addr: relay(),
        });
        queue.push_back(TransportEvent::AddressExpired {
            listener_id: id,
            listen_addr: relay(),
        });
        queue.push_back(TransportEvent::Incoming {
            listener_id: id,
            upgrade: 1,
            local_addr: relay(),
            send_back_addr: relay(),
        });
        queue.push_back(TransportEvent::ListenerClosed {
            listener_id: id,
            reason: Ok(()),
        });
        queue.push_back(TransportEvent::ListenerError {
            listener_id: id,
            error: Error::Io("late".to_string()),
        });
    }
    assert!(drop_listener(&mut queue, &removed));
    assert_eq!(queue.len(), 5);
    assert!(queue.iter().all(|event| event.is_about(&kept)));
    assert!(matches!(queue[0], TransportEvent::NewAddress { .. }));
    assert!(matches!(queue[1], TransportEvent::AddressExpired { .. }));
    assert!(matches!(queue[2], TransportEvent::Incoming { .. }));
    assert!(matches!(queue[3], TransportEvent::ListenerClosed { .. }));
    assert!(matches!(queue[4], TransportEvent::ListenerError { .. }));
    assert!(!drop_listener(&mut queue, &removed));
}

#[test]
fn reservation_runs_in_order() {
    let mut transport = subject();
    let (pending, action) = transport.reserve_relay(&relay());
    match action {
        ReserveAction::Dial(dialed, opts) => {
            assert_eq!(dialed, relay());
            assert_eq!(opts, DIALER);
        }
        _ => panic!("unexpected action"),
    }
    let (pending, action) = transport.advance_reservation(pending, ReserveEvent::Dialed(5));
    assert!(matches!(action, Some(ReserveAction::OpenStream)));
    let (pending, action) = transport.advance_reservation(pending, ReserveEvent::StreamOpened);
    match action {
        Some(ReserveAction::Negotiate(name)) => {
            assert_eq!(name, "/libp2p/circuit/relay/0.2.0/hop")
        }
        _ => panic!("unexpected action"),
    }
    let (pending, action) = transport.advance_reservation(pending, ReserveEvent::Negotiated);
    match action {
        Some(ReserveAction::Send(message)) => assert_eq!(message, HopMessage::reserve()),
        _ => panic!("unexpected action"),
    }
    let (pending, action) = transport.advance_reservation(pending, ReserveEvent::Sent);
    assert!(matches!(action, Some(ReserveAction::Flush)));
    let (pending, action) = transport.advance_reservation(pending, ReserveEvent::Flushed);
    assert!(matches!(action, Some(ReserveAction::Receive)));
    assert!(transport.relay_connection(&relay()).is_err());
    let granted = answer(Some(Status::OK), Some(vec![addr("/tcp/1").to_vec()]));
    let (pending, action) =
        transport.advance_reservation(pending, ReserveEvent::Received(granted));
    match action {
        Some(ReserveAction::Listen(listened)) => assert_eq!(listened, relay()),
        _ => panic!("unexpected action"),
    }
    assert!(matches!(pending.stage, ReserveStage::Finished));
    assert_eq!(*transport.relay_connection(&relay()).unwrap(), 5);
    assert_eq!(
        transport.reservation_addresses(&relay()).unwrap(),
        &vec![addr("/tcp/1")]
    );
    let (_, action) = transport.advance_reservation(pending, ReserveEvent::Sent);
    assert!(action.is_none());
}

#[test]
fn event_that_answers_another_action_changes_nothing() {
    let mut transport = subject();
    let (pending, _) = transport.reserve_relay(&relay());
    let granted = answer(Some(Status::OK), None);
    let (pending, action) =
        transport.advance_reservation(pending, ReserveEvent::Received(granted));
    assert!(action.is_none());
    assert!(matches!(pending.stage, ReserveStage::Dialing));
    assert_eq!(pending.relay_addr, relay());
    assert!(transport.relay_connection(&relay()).is_err());
}

#[test]
fn refused_reservation_changes_nothing() {
    for status in [
        None,
        Some(Status::RESERVATION_REFUSED),
        Some(Status::RESOURCE_LIMIT_EXCEEDED),
        Some(Status::NO_RESERVATION),
    ] {
        let mut transport = subject();
        grant(&mut transport, &relay(), 1);
        let refused = answer(status, Some(vec![addr("/tcp/1").to_vec()]));
        assert!(transport.settle_reservation(&relay(), 2, refused).is_err());
        assert_eq!(*transport.relay_connection(&relay()).unwrap(), 1);
        assert!(transport.reservation_addresses(&relay()).is_none());
    }
}

#[test]
fn refused_reservation_fails_with_the_reason() {
    let mut transport = subject();
    let (mut pending, _) = transport.reserve_relay(&relay());
    for event in [
        ReserveEvent::Dialed(5),
        ReserveEvent::StreamOpened,
        ReserveEvent::Negotiated,
        ReserveEvent::Sent,
        ReserveEvent::Flushed,
    ] {
        pending = transport.advance_reservation(pending, event).0;
    }
    let refused = answer(Some(Status::PERMISSION_DENIED), None);
    match transport.advance_reservation(pending, ReserveEvent::Received(refused)).1 {
        Some(ReserveAction::Fail(Error::InvalidMultiaddr(text))) => {
            assert_eq!(text, "Reservation failed with status: PERMISSION_DENIED")
        }
        _ => panic!("unexpected action"),
    }
}

#[test]
fn reservation_on_one_relay_leaves_the_others() {
    let mut transport = subject();
    let other = addr("/ip4/10.0.0.2/tcp/9090/ws/p2p-circuit");
    grant(&mut transport, &other, 7);
    grant(&mut transport, &relay(), 8);
    assert_eq!(*transport.relay_connection(&other).unwrap(), 7);
    assert_eq!(*transport.relay_connection(&relay()).unwrap(), 8);
}

#[test]
fn byte_strings_that_are_not_addresses_are_left_out() {
    let list = vec![
        addr("/ip4/1.2.3.4/tcp/5").to_vec(),
        vec![0xff],
        Vec::new(),
        vec![4, 1, 2, 3],
        addr("/webrtc").to_vec(),
    ];
    assert_eq!(
        decode_addresses(&list),
        vec![addr("/ip4/1.2.3.4/tcp/5"), Multiaddr::empty(), addr("/webrtc")]
    );
}

#[test]
fn missing_relay_connection_is_an_error() {
    match subject().relay_connection(&relay()) {
        Err(TransportError::Other(Error::InvalidMultiaddr(text))) => {
            assert_eq!(text, "Relay connection not found after reservation")
        }
        other => panic!("unexpected outcome: {:?}", other),
    };
}

#[test]
fn dial_is_turned_down_where_the_address_or_the_role_does_not_fit() {
    let transport = subject();
    let good = addr(&format!("{}/webrtc/p2p/{}", relay(), PeerId::random()));
    let listener = DialOpts {
        role: Endpoint::Listener,
        port_use: PortUse::Reuse,
    };
    for (dialed, opts, valid) in [
        (good.clone(), DIALER, false),
        (good, listener, true),
        (relay(), DIALER, true),
    ] {
        match transport.dial(dialed.clone(), opts, valid) {
            Err(TransportError::MultiaddrNotSupported(refused)) => assert_eq!(refused, dialed),
            other => panic!("unexpected outcome: {:?}", other),
        }
    }
}

#[test]
fn accepted_dial_names_relay_peer_keys_and_ice_servers() {
    let transport = subject();
    let target = PeerId::random();
    let dialed = addr(&format!("{}/webrtc/p2p/{}", relay(), target));
    let accepted = request(&transport, &dialed);
    assert_eq!(accepted.addr, dialed);
    assert_eq!(accepted.relay_addr, relay());
    assert_eq!(accepted.target, target);
    assert_eq!(accepted.keypair.public(), keypair().public());
    assert_eq!(accepted.ice_servers.unwrap()[0].urls, "stun:one.example");
}

#[test]
fn relay_is_reserved_once_and_then_reused() {
    let mut transport = subject();
    let first = addr(&format!("{}/webrtc/p2p/{}", relay(), PeerId::random()));
    let second = addr(&format!("{}/webrtc/p2p/{}", relay(), PeerId::random()));
    assert!(!connects(&transport, &first));
    let relay_addr = request(&transport, &first).relay_addr;
    grant(&mut transport, &relay_addr, 3);
    assert!(connects(&transport, &first));
    assert!(connects(&transport, &second));
    assert_eq!(*transport.relay_connection(&relay_addr).unwrap(), 3);
}

#[test]
fn reserved_relay_serves_its_addresses() {
    let mut transport = subject();
    grant(&mut transport, &relay(), 4);
    let dialed = addr(&format!("{}/webrtc/p2p/{}/tcp/1", relay(), PeerId::random()));
    assert!(connects(&transport, &dialed));
    let elsewhere = addr(&format!("/ip4/10.0.0.9/tcp/1/webrtc/p2p/{}", PeerId::random()));
    assert!(!connects(&transport, &elsewhere));
}

#[test]
fn announced_address_dials_back() {
    let mut transport = subject();
    let target = PeerId::random();
    listen(&mut transport, ListenerId::next(), relay());
    let (_, announced) = new_address(transport.poll());
    let accepted = request(&transport, &announced.with(Part::P2p(target)));
    assert_eq!(accepted.relay_addr, relay());
    assert_eq!(accepted.target, target);
}

#[test]
fn failed_reservation_fails_the_dial() {
    let transport = subject();
    let dialed = addr(&format!("{}/webrtc/p2p/{}", relay(), PeerId::random()));
    let went_on = request(&transport, &dialed).reserved(Ok(())).unwrap();
    assert_eq!(went_on.addr, dialed);
    let reason = Error::InvalidMultiaddr("Reservation refused by relay".to_string());
    match request(&transport, &dialed).reserved(Err(reason)) {
        Err(TransportError::Other(Error::InvalidMultiaddr(text))) => {
            assert_eq!(text, "Reservation refused by relay")
        }
        other => panic!("unexpected outcome: {:?}", other),
    }
}

#[test]
fn handshake_runs_in_order() {
    let config = Config::new(&keypair())
        .with_stun_server("stun:one.example")
        .with_stun_server("stun:two.example");
    let transport: Subject = Transport::new(config);
    let target = PeerId::random();
    let dialed = relay()
        .with(Part::WebRTC)
        .with(Part::P2p(target))
        .with(Part::Certhash(Multihash::wrap(0x12, &[3u8; 32]).unwrap()));
    let (mut handshake, action) = request(&transport, &dialed).into_handshake(SIGNALING).unwrap();
    assert!(matches!(action, HandshakeAction::OpenStream));
    assert_eq!(
        handshake.socket_addr,
        SocketAddr {
            ip: IpAddr::V4([10, 0, 0, 1]),
            port: 9090,
        }
    );
    assert!(matches!(
        handshake.advance(HandshakeEvent::StreamOpened),
        Some(HandshakeAction::Negotiate(SIGNALING))
    ));
    match handshake.advance(HandshakeEvent::Negotiated) {
        Some(HandshakeAction::CreateConnection(algorithm, servers)) => {
            assert_eq!(algorithm, "sha-256");
            let servers = servers.unwrap();
            assert_eq!(servers.len(), 2);
            assert_eq!(servers[0].urls, "stun:one.example");
            assert_eq!(servers[1].urls, "stun:two.example");
        }
        _ => panic!("unexpected action"),
    }
    assert!(matches!(
        handshake.advance(HandshakeEvent::ConnectionCreated(Fingerprint::raw([8u8; 32]))),
        Some(HandshakeAction::Signal(true))
    ));
    assert!(matches!(
        handshake.advance(HandshakeEvent::Signaled),
        Some(HandshakeAction::OpenChannel("noise"))
    ));
    match handshake.advance(HandshakeEvent::ChannelOpened) {
        Some(HandshakeAction::Authenticate(keys, remote, local)) => {
            assert_eq!(keys.public(), keypair().public());
            assert_eq!(remote, Fingerprint::raw([3u8; 32]));
            assert_eq!(local, Fingerprint::raw([8u8; 32]));
        }
        _ => panic!("unexpected action"),
    }
    match handshake.advance(HandshakeEvent::Authenticated(target)) {
        Some(HandshakeAction::Return(peer)) => assert_eq!(peer, target),
        _ => panic!("unexpected action"),
    }
    assert_eq!(handshake.stage, HandshakeStage::Finished);
}

#[test]
fn connection_has_no_ice_servers_where_none_is_configured() {
    let transport: Subject = Transport::new(Config::new(&keypair()));
    let dialed = addr(&format!("{}/webrtc/p2p/{}", relay(), PeerId::random()));
    let (mut handshake, _) = request(&transport, &dialed).into_handshake(SIGNALING).unwrap();
    handshake.advance(HandshakeEvent::StreamOpened);
    assert!(matches!(
        handshake.advance(HandshakeEvent::Negotiated),
        Some(HandshakeAction::CreateConnection("sha-256", None))
    ));
}

#[test]
fn only_authenticated_peers_are_returned() {
    let dialed = addr(&format!("{}/webrtc/p2p/{}", relay(), PeerId::random()));
    let (mut handshake, _) = request(&subject(), &dialed).into_handshake(SIGNALING).unwrap();
    assert!(handshake.advance(HandshakeEvent::Authenticated(PeerId::random())).is_none());
    assert_eq!(handshake.stage, HandshakeStage::OpeningStream);
}

#[test]
fn handshake_needs_a_socket_address_and_a_usable_fingerprint() {
    let transport = subject();
    let target = PeerId::random();
    let nowhere = addr(&format!("/dns4/example.com/tcp/1/webrtc/p2p/{}", target));
    match request(&transport, &nowhere).into_handshake(SIGNALING) {
        Err(Error::InvalidMultiaddr(text)) => assert_eq!(text, "Missing IP address or port"),
        _ => panic!("unexpected outcome"),
    }
    let short = relay()
        .with(Part::WebRTC)
        .with(Part::P2p(target))
        .with(Part::Certhash(Multihash::wrap(0x12, &[3u8; 31]).unwrap()));
    match request(&transport, &short).into_handshake(SIGNALING) {
        Err(Error::InvalidMultiaddr(text)) => assert_eq!(text, "Invalid fingerprint length: 31"),
        _ => panic!("unexpected outcome"),
    }
}
