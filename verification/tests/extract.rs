//! What an address says about the relay, the peer, the fingerprint and the socket.
use libp2p_core::multiaddr::Protocol as Part;
use libp2p_core::multihash::Multihash;
use libp2p_core::Multiaddr;
use libp2p_identity::PeerId;
use libp2p_webrtc_browser::error::Error;
use libp2p_webrtc_browser::extract::{
    extract_fingerprint, extract_relay_and_target, extract_socket_addr, find_digest,
    find_relay_and_target, find_socket_addr, IpAddr, SocketAddr,
};
use libp2p_webrtc_browser::multiaddr::{list_components, Component, Protocol};
use libp2p_webrtc_utils::Fingerprint;

const RELAY: &str = "12D3KooWNpDk9w6WrEEcdsEH1y47W71S36yFjw4sd3j7omzgCSMS";

const CERTHASH: &str = "uEiDikp5KVUgkLta1EjUN-IKbHk-dUBg8VzKgf5nXxLK46w";

const DIGEST: [u8; 32] = [
    0xe2, 0x92, 0x9e, 0x4a, 0x55, 0x48, 0x24, 0x2e, 0xd6, 0xb5, 0x12, 0x35, 0x0d, 0xf8, 0x82, 0x9b,
    0x1e, 0x4f, 0x9d, 0x50, 0x18, 0x3c, 0x57, 0x32, 0xa0, 0x7f, 0x99, 0xd7, 0xc4, 0xb2, 0xb8, 0xeb,
];

fn addr(text: &str) -> Multiaddr {
    text.parse().unwrap()
}

fn message(error: Error) -> String {
    match error {
        Error::InvalidMultiaddr(text) => text,
        other => panic!("unexpected error: {:?}", other),
    }
}

fn component(protocol: Protocol) -> Component {
    Component {
        protocol,
        encoded: Vec::new(),
    }
}

#[test]
fn components_are_listed_in_order_with_their_binary_forms() {
    let listed = list_components(&addr("/ip4/127.0.0.1/tcp/4001/ws/p2p-circuit/webrtc"));
    assert_eq!(listed.len(), 5);
    assert!(matches!(listed[0].protocol, Protocol::Ip4([127, 0, 0, 1])));
    assert_eq!(listed[0].encoded, vec![4, 127, 0, 0, 1]);
    assert!(matches!(listed[1].protocol, Protocol::Tcp(4001)));
    assert_eq!(listed[1].encoded, vec![6, 0x0f, 0xa1]);
    assert!(matches!(listed[2].protocol, Protocol::Other));
    assert_eq!(listed[2].encoded, vec![0xdd, 0x03]);
    assert!(matches!(listed[3].protocol, Protocol::P2pCircuit));
    assert_eq!(listed[3].encoded, vec![0xa2, 0x02]);
    assert!(matches!(listed[4].protocol, Protocol::WebRTC));
    assert_eq!(listed[4].encoded, vec![0x99, 0x02]);
}

#[test]
fn empty_address_has_no_components() {
    assert!(list_components(&Multiaddr::empty()).is_empty());
}

#[test]
fn relay_and_target_are_what_stands_round_webrtc() {
    let target = PeerId::random();
    let relay = format!("/ip4/10.0.0.1/tcp/9090/ws/p2p/{}/p2p-circuit", RELAY);
    let dialed = addr(&format!("{}/webrtc/p2p/{}", relay, target));
    let (relay_addr, peer) = extract_relay_and_target(&dialed).unwrap();
    assert_eq!(relay_addr, addr(&relay));
    assert_eq!(peer, target);
}

#[test]
fn what_follows_the_target_is_ignored() {
    let (first, second) = (PeerId::random(), PeerId::random());
    let dialed = addr(&format!(
        "/ip4/10.0.0.1/tcp/9090/webrtc/p2p/{}/webrtc/p2p/{}",
        first, second
    ));
    let (relay_addr, peer) = extract_relay_and_target(&dialed).unwrap();
    assert_eq!(relay_addr, addr("/ip4/10.0.0.1/tcp/9090"));
    assert_eq!(peer, first);
}

#[test]
fn webrtc_without_a_peer_behind_it_is_part_of_the_relay() {
    let target = PeerId::random();
    let dialed = addr(&format!("/webrtc/tcp/1/webrtc/p2p/{}", target));
    let (relay_addr, peer) = extract_relay_and_target(&dialed).unwrap();
    assert_eq!(relay_addr, addr("/webrtc/tcp/1"));
    assert_eq!(peer, target);
}

#[test]
fn relay_part_does_not_split_again() {
    let target = PeerId::random();
    let dialed = addr(&format!("/ip4/1.2.3.4/tcp/1/webrtc/webrtc/p2p/{}", target));
    let (relay_addr, _) = extract_relay_and_target(&dialed).unwrap();
    assert_eq!(relay_addr, addr("/ip4/1.2.3.4/tcp/1/webrtc"));
    assert!(extract_relay_and_target(&relay_addr).is_none());
}

#[test]
fn address_may_begin_with_webrtc() {
    let target = PeerId::random();
    let (relay_addr, peer) =
        extract_relay_and_target(&addr(&format!("/webrtc/p2p/{}", target))).unwrap();
    assert!(relay_addr.is_empty());
    assert_eq!(peer, target);
}

#[test]
fn addresses_without_relay_and_target_do_not_split() {
    let peer = PeerId::random();
    assert!(extract_relay_and_target(&Multiaddr::empty()).is_none());
    assert!(extract_relay_and_target(&addr("/ip4/1.2.3.4/tcp/1")).is_none());
    assert!(extract_relay_and_target(&addr("/ip4/1.2.3.4/tcp/1/webrtc")).is_none());
    assert!(extract_relay_and_target(&addr(&format!("/p2p/{}/webrtc", peer))).is_none());
    assert!(extract_relay_and_target(&addr(&format!("/webrtc-direct/p2p/{}", peer))).is_none());
}

#[test]
fn relay_and_target_are_found_among_components() {
    let peer = PeerId::random();
    let list = vec![
        component(Protocol::P2pCircuit),
        component(Protocol::WebRTC),
        component(Protocol::WebRTC),
        component(Protocol::P2p(peer)),
    ];
    assert_eq!(find_relay_and_target(&list), Some((2, peer)));
    assert_eq!(find_relay_and_target(&Vec::new()), None);
}

#[test]
fn fingerprint_is_the_digest_of_the_certhash() {
    let found = extract_fingerprint(&addr(&format!(
        "/ip4/127.0.0.1/udp/1234/webrtc-direct/certhash/{}",
        CERTHASH
    )));
    assert_eq!(found.unwrap(), Fingerprint::raw(DIGEST));
}

#[test]
fn first_certhash_decides() {
    let other = Multihash::wrap(0x12, &[7u8; 32]).unwrap();
    let dialed = addr("/ip4/127.0.0.1/udp/1")
        .with(Part::Certhash(other))
        .with(Part::Certhash(Multihash::wrap(0x12, &DIGEST).unwrap()));
    assert_eq!(extract_fingerprint(&dialed).unwrap(), Fingerprint::raw([7u8; 32]));
}

#[test]
fn address_without_certhash_has_the_zero_fingerprint() {
    let found = extract_fingerprint(&addr("/ip4/127.0.0.1/tcp/1234"));
    assert_eq!(found.unwrap(), Fingerprint::raw([0u8; 32]));
}

#[test]
fn certhash_of_another_length_is_an_error() {
    let short = addr("/ip4/127.0.0.1").with(Part::Certhash(
        Multihash::wrap(0x12, &[1u8; 20]).unwrap(),
    ));
    assert_eq!(
        message(extract_fingerprint(&short).unwrap_err()),
        "Invalid fingerprint length: 20"
    );
    let long = addr("/ip4/127.0.0.1").with(Part::Certhash(
        Multihash::wrap(0x13, &[1u8; 64]).unwrap(),
    ));
    assert_eq!(
        message(extract_fingerprint(&long).unwrap_err()),
        "Invalid fingerprint length: 64"
    );
}

#[test]
fn a_wrong_certhash_is_an_error_though_a_right_one_follows() {
    let list = vec![
        component(Protocol::Certhash(Vec::new())),
        component(Protocol::Certhash(DIGEST.to_vec())),
    ];
    assert_eq!(
        message(find_digest(&list).unwrap_err()),
        "Invalid fingerprint length: 0"
    );
}

#[test]
fn digests_are_found_among_components() {
    let list = vec![
        component(Protocol::Tcp(1)),
        component(Protocol::Certhash(DIGEST.to_vec())),
    ];
    assert_eq!(find_digest(&list).unwrap(), DIGEST);
    assert_eq!(find_digest(&Vec::new()).unwrap(), [0u8; 32]);
}

#[test]
fn socket_address_is_ip_and_port() {
    assert_eq!(
        extract_socket_addr(&addr("/ip4/10.1.2.3/tcp/4001/ws")).unwrap(),
        SocketAddr {
            ip: IpAddr::V4([10, 1, 2, 3]),
            port: 4001,
        }
    );
    assert_eq!(
        extract_socket_addr(&addr("/ip6/::1/udp/65535/quic-v1")).unwrap(),
        SocketAddr {
            ip: IpAddr::V6([0, 0, 0, 0, 0, 0, 0, 0, 0, 0, 0, 0, 0, 0, 0, 1]),
            port: 65535,
        }
    );
}

#[test]
fn last_ip_and_last_port_decide() {
    assert_eq!(
        extract_socket_addr(&addr("/udp/1/ip4/1.1.1.1/tcp/2/ip6/::2/tcp/3")).unwrap(),
        SocketAddr {
            ip: IpAddr::V6([0, 0, 0, 0, 0, 0, 0, 0, 0, 0, 0, 0, 0, 0, 0, 2]),
            port: 3,
        }
    );
    assert_eq!(
        extract_socket_addr(&addr("/ip6/::2/tcp/3/ip4/1.1.1.1")).unwrap(),
        SocketAddr {
            ip: IpAddr::V4([1, 1, 1, 1]),
            port: 3,
        }
    );
}

#[test]
fn address_without_ip_or_port_has_no_socket_address() {
    for text in ["/ip4/10.1.2.3", "/tcp/80", "/dns4/example.com/tcp/443", "/ip4/1.2.3.4/sctp/5"] {
        assert_eq!(
            message(extract_socket_addr(&addr(text)).unwrap_err()),
            "Missing IP address or port"
        );
    }
    assert!(extract_socket_addr(&Multiaddr::empty()).is_err());
}

#[test]
fn socket_addresses_are_found_among_components() {
    let list = vec![
        component(Protocol::Udp(9)),
        component(Protocol::Ip4([1, 2, 3, 4])),
        component(Protocol::Other),
    ];
    assert_eq!(
        find_socket_addr(&list).unwrap(),
        SocketAddr {
            ip: IpAddr::V4([1, 2, 3, 4]),
            port: 9,
        }
    );
    assert!(find_socket_addr(&Vec::new()).is_err());
}
