//! The configuration, and what a relay answers.
use libp2p_identity::Keypair;
use libp2p_webrtc_browser::address_map::AddressMap;
use libp2p_webrtc_browser::config::Config;
use libp2p_webrtc_browser::dial::ice_servers;
use libp2p_webrtc_browser::error::Error;
use libp2p_webrtc_browser::hop::{check_status, HopMessage, HopMessageType, Status};
use libp2p_webrtc_browser::text::push_decimal;

const STATUSES: [(Status, i32, &str); 8] = [
    (Status::OK, 100, "OK"),
    (Status::RESERVATION_REFUSED, 200, "RESERVATION_REFUSED"),
    (Status::RESOURCE_LIMIT_EXCEEDED, 201, "RESOURCE_LIMIT_EXCEEDED"),
    (Status::PERMISSION_DENIED, 202, "PERMISSION_DENIED"),
    (Status::CONNECTION_FAILED, 203, "CONNECTION_FAILED"),
    (Status::NO_RESERVATION, 204, "NO_RESERVATION"),
    (Status::MALFORMED_MESSAGE, 400, "MALFORMED_MESSAGE"),
    (Status::UNEXPECTED_MESSAGE, 401, "UNEXPECTED_MESSAGE"),
];

fn refusal(status: Option<Status>) -> String {
    match check_status(status) {
        Err(Error::InvalidMultiaddr(text)) => text,
        other => panic!("unexpected outcome: {:?}", other),
    }
}

#[test]
fn new_configuration_has_the_keys_and_no_stun_server() {
    let keypair = Keypair::generate_ed25519();
    let config = Config::new(&keypair);
    assert_eq!(config.keypair.public(), keypair.public());
    assert!(config.stun_servers.is_empty());
}

#[test]
fn stun_servers_are_kept_in_order() {
    let keypair = Keypair::generate_ed25519();
    let mut config = Config::new(&keypair)
        .with_stun_server("stun:one.example")
        .with_stun_server(String::from("stun:two.example"));
    config.push_stun_server(String::from("stun:one.example"));
    assert_eq!(
        config.stun_servers,
        vec!["stun:one.example", "stun:two.example", "stun:one.example"]
    );
    assert_eq!(config.keypair.public(), keypair.public());
}

#[test]
fn copied_configuration_is_the_same() {
    let config = Config::new(&Keypair::generate_ed25519()).with_stun_server("stun:one.example");
    let copy = config.clone();
    assert_eq!(copy.keypair.public(), config.keypair.public());
    assert_eq!(copy.stun_servers, config.stun_servers);
}

#[test]
fn local_peer_id_belongs_to_the_public_key() {
    let keypair = Keypair::ed25519_from_bytes([1u8; 32]).unwrap();
    let config = Config::new(&keypair);
    assert_eq!(config.local_peer_id(), keypair.public().to_peer_id());
    let other = Config::new(&Keypair::ed25519_from_bytes([2u8; 32]).unwrap());
    assert_ne!(config.local_peer_id(), other.local_peer_id());
}

#[test]
fn every_stun_server_is_an_ice_server() {
    let servers = ice_servers(&vec!["stun:a".to_string(), "stun:b".to_string()]).unwrap();
    let urls: Vec<&str> = servers.iter().map(|server| server.urls.as_str()).collect();
    assert_eq!(urls, vec!["stun:a", "stun:b"]);
}

#[test]
fn no_stun_server_means_no_list_of_ice_servers() {
    assert!(ice_servers(&Vec::new()).is_none());
}

#[test]
fn reserve_message_holds_nothing_but_its_type() {
    assert_eq!(
        HopMessage::reserve(),
        HopMessage {
            type_pb: HopMessageType::RESERVE,
            peer: None,
            reservation: None,
            limit: None,
            status: None,
        }
    );
}

#[test]
fn only_ok_grants_a_reservation() {
    assert!(check_status(Some(Status::OK)).is_ok());
    assert_eq!(
        refusal(Some(Status::RESERVATION_REFUSED)),
        "Reservation refused by relay"
    );
    assert_eq!(
        refusal(Some(Status::RESOURCE_LIMIT_EXCEEDED)),
        "Resource limit exceeded on relay"
    );
    for (status, _, name) in &STATUSES[3..] {
        assert_eq!(
            refusal(Some(*status)),
            format!("Reservation failed with status: {}", name)
        );
    }
    assert_eq!(refusal(None), "Missing status in relay response");
}

#[test]
fn statuses_have_names_and_codes() {
    for (status, code, name) in STATUSES {
        assert_eq!(status.name(), name);
        assert_eq!(format!("{:?}", status), name);
        assert_eq!(status.code(), code);
        assert_eq!(Status::from_code(code), status);
    }
    for code in [-1, 0, 99, 205, 402, i32::MAX] {
        assert_eq!(Status::from_code(code), Status::OK);
    }
}

#[test]
fn message_types_have_codes() {
    let types = [HopMessageType::RESERVE, HopMessageType::CONNECT, HopMessageType::STATUS];
    for (code, kind) in (0..).zip(types) {
        assert_eq!(kind.code(), code);
        assert_eq!(HopMessageType::from_code(code), kind);
    }
    assert_eq!(HopMessageType::from_code(3), HopMessageType::RESERVE);
    assert_eq!(HopMessageType::from_code(-1), HopMessageType::RESERVE);
}

#[test]
fn numbers_are_written_in_decimal() {
    for value in [0, 7, 10, 64, 100, 90210, usize::MAX] {
        let mut text = String::from("n = ");
        push_decimal(&mut text, value);
        assert_eq!(text, format!("n = {}", value));
    }
}

#[test]
fn address_map_holds_one_value_per_address() {
    let (a, b) = ("/tcp/1".parse().unwrap(), "/tcp/2".parse().unwrap());
    let mut map = AddressMap::new();
    assert_eq!(map.get(&a), None);
    map.insert("/tcp/1".parse().unwrap(), 'x');
    map.insert("/tcp/2".parse().unwrap(), 'y');
    map.insert("/tcp/1".parse().unwrap(), 'z');
    assert_eq!(map.get(&a), Some(&'z'));
    assert_eq!(map.get(&b), Some(&'y'));
    assert_eq!(map.get(&"/tcp/3".parse().unwrap()), None);
}
