//! What a dialed address says: the relay and the peer behind it, the certificate fingerprint,
//! and the socket address.
use crate::error::{Error, ErrorView};
use crate::multiaddr::{
    component_views, components, empty_multiaddr, encode_components, list_components,
    multiaddr_bytes, with_component_of, Component, ComponentView, Protocol, ProtocolView,
};
use crate::text::{decimal, push_decimal};
use libp2p_core::Multiaddr;
use libp2p_identity::PeerId;
use libp2p_webrtc_utils::Fingerprint;
use vstd::prelude::*;
use vstd::string::StringExecFns;

verus! {

/// `libp2p_webrtc_utils::Fingerprint`, carried as an opaque value.
#[verifier::external_type_specification]
#[verifier::external_body]
pub struct ExFingerprint(libp2p_webrtc_utils::Fingerprint);

/// The bytes of the digest that a fingerprint holds.
pub uninterp spec fn fingerprint_digest(fingerprint: Fingerprint) -> Seq<u8>;

/// `Fingerprint::raw`: the fingerprint that holds the given digest.
#[verifier::external_body]
fn raw_fingerprint(digest: [u8; 32]) -> (fingerprint: Fingerprint)
    ensures
        fingerprint_digest(fingerprint) == digest@,
{
    Fingerprint::raw(digest)
}

/// An IP address.
#[derive(Debug, Clone, Copy, PartialEq, Eq)]
pub enum IpAddr {
    V4([u8; 4]),
    V6([u8; 16]),
}

/// An IP address and a port.
#[derive(Debug, Clone, Copy, PartialEq, Eq)]
pub struct SocketAddr {
    pub ip: IpAddr,
    pub port: u16,
}

/// Whether the component at a position is `/webrtc` and the next one names a peer.
pub open spec fn is_split(list: Seq<ComponentView>, index: int) -> bool {
    &&& 0 <= index < list.len() - 1
    &&& list[index].protocol is WebRTC
    &&& list[index + 1].protocol is P2p
}

/// The first position from `start` on at which an address splits into a relay and a peer.
pub open spec fn split_from(list: Seq<ComponentView>, start: int) -> Option<int>
    decreases list.len() - start,
{
    if start >= list.len() {
        None
    } else if is_split(list, start) {
        Some(start)
    } else {
        split_from(list, start + 1)
    }
}

/// The first position at which an address splits into a relay and a peer.
pub open spec fn first_split(list: Seq<ComponentView>) -> Option<int> {
    split_from(list, 0)
}

/// The peer that a component names.
pub open spec fn peer_of(component: ComponentView) -> PeerId {
    component.protocol->P2p_0
}

/// The first position from `start` on splits the address, and no earlier one does.
proof fn lemma_split_from(list: Seq<ComponentView>, start: int)
    requires
        0 <= start,
    ensures
        split_from(list, start) matches Some(index) ==> {
            &&& start <= index
            &&& is_split(list, index)
            &&& forall|i: int| start <= i < index ==> !is_split(list, i)
        },
        split_from(list, start) is None ==> forall|i: int| start <= i ==> !is_split(list, i),
    decreases list.len() - start,
{
    if start < list.len() && !is_split(list, start) {
        lemma_split_from(list, start + 1);
    }
}

/// Finds where a list of components splits into a relay and a peer: the position of the first
/// `/webrtc` that a peer follows directly, and that peer.
pub fn find_relay_and_target(list: &Vec<Component>) -> (found: Option<(usize, PeerId)>)
    ensures
        found is Some <==> first_split(component_views(list@)) is Some,
        found matches Some((index, peer)) ==> {
            &&& first_split(component_views(list@)) == Some(index as int)
            &&& peer == peer_of(component_views(list@)[index + 1])
        },
        found matches Some((index, peer)) ==> {
            &&& index + 1 < list@.len()
            &&& list@[index as int].protocol is WebRTC
            &&& list@[index + 1].protocol == Protocol::P2p(peer)
            &&& forall|i: int, j: int|
                0 <= i < index && j == i + 1 ==> !((
                #[trigger] list@[i]).protocol is WebRTC && (#[trigger] list@[j]).protocol is P2p)
        },
        found is None ==> forall|i: int, j: int|
            0 <= i < list@.len() - 1 && j == i + 1 ==> !((
            #[trigger] list@[i]).protocol is WebRTC && (#[trigger] list@[j]).protocol is P2p),
{
    let ghost views = component_views(list@);
    let mut index: usize = 0;
    while index < list.len()
        invariant
            views == component_views(list@),
            index <= list@.len(),
            first_split(views) == split_from(views, index as int),
            forall|i: int, j: int|
                0 <= i < index && i + 1 < list@.len() && j == i + 1 ==> !((
                #[trigger] list@[i]).protocol is WebRTC && (#[trigger] list@[j]).protocol is P2p),
        decreases list@.len() - index,
    {
        assert(views[index as int] == list@[index as int]@);
        if index + 1 < list.len() {
            assert(views[index + 1] == list@[index + 1]@);
            if let Protocol::WebRTC = list[index].protocol {
                if let Protocol::P2p(peer) = list[index + 1].protocol {
                    return Some((index, peer));
                }
            }
        }
        index = index + 1;
    }
    None
}

/// The first components of an address, as an address of their own.
fn leading_components(addr: &Multiaddr, count: usize) -> (prefix: Multiaddr)
    requires
        count <= components(*addr).len(),
    ensures
        components(prefix) == components(*addr).take(count as int),
        multiaddr_bytes(prefix) == encode_components(components(*addr).take(count as int)),
{
    let mut prefix = empty_multiaddr();
    let mut index: usize = 0;
    assert(components(*addr).take(0) =~= Seq::empty());
    while index < count
        invariant
            index <= count <= components(*addr).len(),
            components(prefix) == components(*addr).take(index as int),
            multiaddr_bytes(prefix) == encode_components(components(*addr).take(index as int)),
        decreases count - index,
    {
        prefix = with_component_of(prefix, addr, index);
        proof {
            let longer = components(*addr).take(index + 1);
            assert(longer.drop_last() =~= components(*addr).take(index as int));
            assert(longer =~= components(*addr).take(index as int).push(
                components(*addr)[index as int],
            ));
        }
        index = index + 1;
    }
    prefix
}

/// Extracts the relay address and the target peer from an address.
///
/// Everything before the first `/webrtc` that a peer follows directly is the relay address, and
/// that peer is the target.
pub fn extract_relay_and_target(addr: &Multiaddr) -> (found: Option<(Multiaddr, PeerId)>)
    ensures
        found is Some <==> first_split(components(*addr)) is Some,
        found matches Some((relay_addr, peer)) ==> {
            let index = first_split(components(*addr))->0;
            &&& components(relay_addr) == components(*addr).take(index)
            &&& multiaddr_bytes(relay_addr) == encode_components(components(*addr).take(index))
            &&& peer == peer_of(components(*addr)[index + 1])
        },
        found matches Some((relay_addr, peer)) ==> {
            &&& components(relay_addr).len() + 1 < components(*addr).len()
            &&& components(relay_addr) == components(*addr).take(
                components(relay_addr).len() as int,
            )
            &&& components(*addr)[components(relay_addr).len() as int].protocol is WebRTC
            &&& components(*addr)[components(relay_addr).len() as int + 1].protocol
                == ProtocolView::P2p(peer)
            &&& forall|i: int, j: int|
                0 <= i < components(relay_addr).len() && j == i + 1 ==> !((
                #[trigger] components(*addr)[i]).protocol is WebRTC
                    && (#[trigger] components(*addr)[j]).protocol is P2p)
        },
        found is None ==> forall|i: int, j: int|
            0 <= i < components(*addr).len() - 1 && j == i + 1 ==> !((
            #[trigger] components(*addr)[i]).protocol is WebRTC
                && (#[trigger] components(*addr)[j]).protocol is P2p),
{
    proof {
        law_split_is_the_first_webrtc_before_a_peer(components(*addr));
    }
    let list = list_components(addr);
    match find_relay_and_target(&list) {
        Some((index, peer)) => {
            proof {
                lemma_split_from(components(*addr), 0);
            }
            Some((leading_components(addr, index), peer))
        },
        None => None,
    }
}

/// The digest of the first certificate hash from `start` on.
pub open spec fn certhash_from(list: Seq<ComponentView>, start: int) -> Option<Seq<u8>>
    decreases list.len() - start,
{
    if start >= list.len() {
        None
    } else if list[start].protocol is Certhash {
        Some(list[start].protocol->Certhash_0)
    } else {
        certhash_from(list, start + 1)
    }
}

/// The digest of the first certificate hash of an address.
pub open spec fn first_certhash(list: Seq<ComponentView>) -> Option<Seq<u8>> {
    certhash_from(list, 0)
}

/// The digest for an address: that of its first certificate hash, or zeros where it has none.
pub open spec fn digest_of(list: Seq<ComponentView>) -> Seq<u8> {
    match first_certhash(list) {
        Some(digest) => digest,
        None => Seq::new(32, |i: int| 0u8),
    }
}

/// The error for an address whose certificate hash has a digest of the wrong length.
pub open spec fn fingerprint_length_error(length: nat) -> ErrorView {
    ErrorView::InvalidMultiaddr("Invalid fingerprint length: "@ + decimal(length))
}

/// Finds the digest for a list of components: that of the first certificate hash, or zeros
/// where there is none.  A digest that is not 32 bytes long is an error.
pub fn find_digest(list: &Vec<Component>) -> (found: Result<[u8; 32], Error>)
    ensures
        found is Ok <==> digest_of(component_views(list@)).len() == 32,
        found matches Ok(digest) ==> digest@ == digest_of(component_views(list@)),
        found matches Err(error) ==> error@ == fingerprint_length_error(
            digest_of(component_views(list@)).len(),
        ),
{
    let ghost views = component_views(list@);
    let mut index: usize = 0;
    while index < list.len()
        invariant
            views == component_views(list@),
            index <= list@.len(),
            first_certhash(views) == certhash_from(views, index as int),
        decreases list@.len() - index,
    {
        assert(views[index as int] == list@[index as int]@);
        if let Protocol::Certhash(bytes) = &list[index].protocol {
            assert(digest_of(views) == bytes@);
            if bytes.len() != 32 {
                let mut text: String = String::from_str("Invalid fingerprint length: ");
                push_decimal(&mut text, bytes.len());
                return Err(Error::InvalidMultiaddr(text));
            }
            let mut digest: [u8; 32] = [0u8; 32];
            let mut at: usize = 0;
            while at < 32
                invariant
                    at <= 32,
                    bytes@.len() == 32,
                    forall|i: int| 0 <= i < at ==> digest@[i] == bytes@[i],
                decreases 32 - at,
            {
                digest[at] = bytes[at];
                at = at + 1;
            }
            assert(digest@ =~= bytes@);
            return Ok(digest);
        }
        index = index + 1;
    }
    let digest: [u8; 32] = [0u8; 32];
    assert(digest@ =~= digest_of(views));
    Ok(digest)
}

/// Extracts the fingerprint from an address.
///
/// An address without a certificate hash has the fingerprint of zeros.
pub fn extract_fingerprint(addr: &Multiaddr) -> (found: Result<Fingerprint, Error>)
    ensures
        found is Ok <==> digest_of(components(*addr)).len() == 32,
        found matches Ok(fingerprint) ==> fingerprint_digest(fingerprint) == digest_of(
            components(*addr),
        ),
        found matches Err(error) ==> error@ == fingerprint_length_error(
            digest_of(components(*addr)).len(),
        ),
{
    match find_digest(&list_components(addr)) {
        Ok(digest) => Ok(raw_fingerprint(digest)),
        Err(error) => Err(error),
    }
}

/// The IP address of a component.
pub open spec fn ip_of(component: ComponentView) -> Option<IpAddr> {
    match component.protocol {
        ProtocolView::Ip4(octets) => Some(IpAddr::V4(octets)),
        ProtocolView::Ip6(octets) => Some(IpAddr::V6(octets)),
        _ => None,
    }
}

/// The TCP or UDP port of a component.
pub open spec fn port_of(component: ComponentView) -> Option<u16> {
    match component.protocol {
        ProtocolView::Tcp(port) => Some(port),
        ProtocolView::Udp(port) => Some(port),
        _ => None,
    }
}

/// The last IP address among components.
pub open spec fn last_ip(list: Seq<ComponentView>) -> Option<IpAddr>
    decreases list.len(),
{
    if list.len() == 0 {
        None
    } else if ip_of(list.last()) is Some {
        ip_of(list.last())
    } else {
        last_ip(list.drop_last())
    }
}

/// The last TCP or UDP port among components.
pub open spec fn last_port(list: Seq<ComponentView>) -> Option<u16>
    decreases list.len(),
{
    if list.len() == 0 {
        None
    } else if port_of(list.last()) is Some {
        port_of(list.last())
    } else {
        last_port(list.drop_last())
    }
}

/// The error for an address that lacks an IP address or a port.
pub open spec fn missing_socket_error() -> ErrorView {
    ErrorView::InvalidMultiaddr("Missing IP address or port"@)
}

/// Finds the socket address in a list of components: the last IP address with the last port.
pub fn find_socket_addr(list: &Vec<Component>) -> (found: Result<SocketAddr, Error>)
    ensures
        found is Ok <==> last_ip(component_views(list@)) is Some && last_port(
            component_views(list@),
        ) is Some,
        found matches Ok(socket) ==> {
            &&& last_ip(component_views(list@)) == Some(socket.ip)
            &&& last_port(component_views(list@)) == Some(socket.port)
        },
        found matches Err(error) ==> error@ == missing_socket_error(),
{
    let ghost views = component_views(list@);
    let mut ip: Option<IpAddr> = None;
    let mut port: Option<u16> = None;
    let mut index: usize = 0;
    while index < list.len()
        invariant
            views == component_views(list@),
            index <= list@.len(),
            ip == last_ip(views.take(index as int)),
            port == last_port(views.take(index as int)),
        decreases list@.len() - index,
    {
        proof {
            assert(views[index as int] == list@[index as int]@);
            assert(views.take(index + 1).drop_last() =~= views.take(index as int));
            assert(views.take(index + 1).last() == views[index as int]);
        }
        match list[index].protocol {
            Protocol::Ip4(octets) => {
                ip = Some(IpAddr::V4(octets));
            },
            Protocol::Ip6(octets) => {
                ip = Some(IpAddr::V6(octets));
            },
            Protocol::Tcp(number) | Protocol::Udp(number) => {
                port = Some(number);
            },
            _ => {},
        }
        index = index + 1;
    }
    assert(views.take(index as int) =~= views);
    match (ip, port) {
        (Some(ip), Some(port)) => Ok(SocketAddr { ip, port }),
        _ => Err(Error::InvalidMultiaddr(String::from_str("Missing IP address or port"))),
    }
}

/// Extracts the socket address from an address: the last IP address with the last port.
pub fn extract_socket_addr(addr: &Multiaddr) -> (found: Result<SocketAddr, Error>)
    ensures
        found is Ok <==> last_ip(components(*addr)) is Some && last_port(components(*addr)) is Some,
        found matches Ok(socket) ==> {
            &&& last_ip(components(*addr)) == Some(socket.ip)
            &&& last_port(components(*addr)) == Some(socket.port)
        },
        found matches Err(error) ==> error@ == missing_socket_error(),
{
    find_socket_addr(&list_components(addr))
}

/// The position at which an address splits is the first one where `/webrtc` stands directly in
/// front of a peer; an address splits wherever there is such a position.
pub proof fn law_split_is_first(list: Seq<ComponentView>)
    ensures
        first_split(list) is Some <==> exists|i: int| is_split(list, i),
        first_split(list) matches Some(index) ==> {
            &&& is_split(list, index)
            &&& forall|i: int| is_split(list, i) ==> index <= i
        },
{
    lemma_split_from(list, 0);
}

/// The relay part of an address does not split again.
pub proof fn law_relay_part_does_not_split(list: Seq<ComponentView>)
    requires
        first_split(list) is Some,
    ensures
        first_split(list.take(first_split(list)->0)) is None,
{
    let index = first_split(list)->0;
    let relay = list.take(index);
    lemma_split_from(list, 0);
    lemma_split_from(relay, 0);
    if let Some(earlier) = first_split(relay) {
        assert(is_split(list, earlier));
    }
}

/// An address that is put together from a relay, `/webrtc` and a peer, and goes on in any way,
/// splits into that relay and that peer, provided that the relay part does not split itself.
pub proof fn law_joined_address_splits(
    relay: Seq<ComponentView>,
    webrtc: ComponentView,
    peer: ComponentView,
    rest: Seq<ComponentView>,
)
    requires
        first_split(relay) is None,
        webrtc.protocol is WebRTC,
        peer.protocol is P2p,
    ensures
        ({
            let joined = relay.push(webrtc).push(peer) + rest;
            &&& first_split(joined) == Some(relay.len() as int)
            &&& joined.take(relay.len() as int) == relay
            &&& peer_of(joined[relay.len() as int + 1]) == peer_of(peer)
        }),
{
    let joined = relay.push(webrtc).push(peer) + rest;
    lemma_split_from(relay, 0);
    lemma_split_from(joined, 0);
    assert(is_split(joined, relay.len() as int));
    assert forall|i: int| 0 <= i < relay.len() implies !is_split(joined, i) by {
        assert(joined[i] == relay[i]);
        if i + 1 < relay.len() {
            assert(joined[i + 1] == relay[i + 1]);
            assert(!is_split(relay, i));
        } else {
            assert(joined[i + 1] == webrtc);
        }
    }
    assert(joined.take(relay.len() as int) =~= relay);
}

/// The first certificate hash from `start` on is the one with no other before it.
proof fn lemma_certhash_from(list: Seq<ComponentView>, start: int)
    requires
        0 <= start,
    ensures
        certhash_from(list, start) matches Some(digest) ==> exists|i: int|
            {
                &&& start <= i < list.len()
                &&& (#[trigger] list[i]).protocol == ProtocolView::Certhash(digest)
                &&& forall|j: int|
                    start <= j < i ==> !((#[trigger] list[j]).protocol is Certhash)
            },
        certhash_from(list, start) is None ==> forall|i: int|
            start <= i < list.len() ==> !((#[trigger] list[i]).protocol is Certhash),
    decreases list.len() - start,
{
    if start < list.len() {
        if list[start].protocol is Certhash {
            assert(list[start].protocol == ProtocolView::Certhash(
                certhash_from(list, start)->0,
            ));
        } else {
            lemma_certhash_from(list, start + 1);
            if let Some(digest) = certhash_from(list, start) {
                let i = choose|i: int|
                    {
                        &&& start + 1 <= i < list.len()
                        &&& (#[trigger] list[i]).protocol == ProtocolView::Certhash(digest)
                        &&& forall|j: int|
                            start + 1 <= j < i ==> !((#[trigger] list[j]).protocol is Certhash)
                    };
                assert(list[i].protocol == ProtocolView::Certhash(digest));
            }
        }
    }
}

/// The digest for an address is that of its first certificate hash, and zeros where it has no
/// certificate hash.
pub proof fn law_digest_is_of_first_certhash(list: Seq<ComponentView>)
    ensures
        (forall|i: int| 0 <= i < list.len() ==> !((#[trigger] list[i]).protocol is Certhash))
            ==> digest_of(list) == Seq::new(32, |i: int| 0u8),
        forall|i: int|
            {
                &&& 0 <= i < list.len()
                &&& (#[trigger] list[i]).protocol is Certhash
                &&& forall|j: int| 0 <= j < i ==> !((#[trigger] list[j]).protocol is Certhash)
            } ==> digest_of(list) == list[i].protocol->Certhash_0,
{
    lemma_certhash_from(list, 0);
    assert forall|i: int|
        {
            &&& 0 <= i < list.len()
            &&& (#[trigger] list[i]).protocol is Certhash
            &&& forall|j: int| 0 <= j < i ==> !((#[trigger] list[j]).protocol is Certhash)
        } implies digest_of(list) == list[i].protocol->Certhash_0 by {
        let digest = first_certhash(list)->0;
        let first = choose|k: int|
            {
                &&& 0 <= k < list.len()
                &&& (#[trigger] list[k]).protocol == ProtocolView::Certhash(digest)
                &&& forall|j: int| 0 <= j < k ==> !((#[trigger] list[j]).protocol is Certhash)
            };
        assert(first == i);
    }
}

/// A component behind an address decides its socket address where it gives an IP address or a
/// port, and changes nothing otherwise.
pub proof fn law_last_component_decides(list: Seq<ComponentView>, component: ComponentView)
    ensures
        last_ip(list.push(component)) == if ip_of(component) is Some {
            ip_of(component)
        } else {
            last_ip(list)
        },
        last_port(list.push(component)) == if port_of(component) is Some {
            port_of(component)
        } else {
            last_port(list)
        },
{
    assert(list.push(component).drop_last() =~= list);
}

/// An address splits at a position where one component is `/webrtc`, the next one names a peer,
/// and no earlier component is `/webrtc` with a peer behind it.  The peer is the one that the
/// next component names.  Every address with such a position splits.
pub proof fn law_split_is_the_first_webrtc_before_a_peer(list: Seq<ComponentView>)
    ensures
        first_split(list) matches Some(index) ==> {
            &&& 0 <= index < list.len() - 1
            &&& list[index].protocol is WebRTC
            &&& list[index + 1].protocol == ProtocolView::P2p(peer_of(list[index + 1]))
            &&& forall|i: int, j: int|
                0 <= i < index && j == i + 1 ==> !((
                #[trigger] list[i]).protocol is WebRTC && (#[trigger] list[j]).protocol is P2p)
        },
        first_split(list) is None ==> forall|i: int, j: int|
            0 <= i < list.len() - 1 && j == i + 1 ==> !((
            #[trigger] list[i]).protocol is WebRTC && (#[trigger] list[j]).protocol is P2p),
{
    lemma_split_from(list, 0);
    let end = match first_split(list) {
        Some(index) => index,
        None => list.len() - 1,
    };
    assert forall|i: int, j: int| 0 <= i < end && j == i + 1 implies !((
    #[trigger] list[i]).protocol is WebRTC && (#[trigger] list[j]).protocol is P2p) by {
        assert(!is_split(list, i));
    }
}

/// The IP address of an address is that of its last component that gives one, be it of
/// version 4 or 6, whatever stands round it.
pub proof fn law_ip_is_that_of_the_last_component_with_one(list: Seq<ComponentView>, index: int)
    requires
        0 <= index < list.len(),
        list[index].protocol is Ip4 || list[index].protocol is Ip6,
        forall|j: int|
            index < j < list.len() ==> !((#[trigger] list[j]).protocol is Ip4
                || list[j].protocol is Ip6),
    ensures
        list[index].protocol is Ip4 ==> last_ip(list) == Some(IpAddr::V4(list[index].protocol->Ip4_0)),
        list[index].protocol is Ip6 ==> last_ip(list) == Some(IpAddr::V6(list[index].protocol->Ip6_0)),
    decreases list.len(),
{
    assert(list.last() == list[list.len() - 1]);
    if index < list.len() - 1 {
        let shorter = list.drop_last();
        assert forall|j: int| index < j < shorter.len() implies !((
        #[trigger] shorter[j]).protocol is Ip4 || shorter[j].protocol is Ip6) by {
            assert(shorter[j] == list[j]);
        }
        assert(shorter[index] == list[index]);
        law_ip_is_that_of_the_last_component_with_one(shorter, index);
    }
}

/// An address without a component that gives an IP address has none.
pub proof fn law_ip_comes_from_a_component(list: Seq<ComponentView>)
    requires
        forall|j: int|
            0 <= j < list.len() ==> !((#[trigger] list[j]).protocol is Ip4
                || list[j].protocol is Ip6),
    ensures
        last_ip(list) is None,
    decreases list.len(),
{
    if list.len() > 0 {
        let shorter = list.drop_last();
        assert(list.last() == list[list.len() - 1]);
        assert forall|j: int| 0 <= j < shorter.len() implies !((
        #[trigger] shorter[j]).protocol is Ip4 || shorter[j].protocol is Ip6) by {
            assert(shorter[j] == list[j]);
        }
        law_ip_comes_from_a_component(shorter);
    }
}

/// The port of an address is that of its last component that gives one, be it for TCP or UDP,
/// whatever stands round it.
pub proof fn law_port_is_that_of_the_last_component_with_one(list: Seq<ComponentView>, index: int)
    requires
        0 <= index < list.len(),
        list[index].protocol is Tcp || list[index].protocol is Udp,
        forall|j: int|
            index < j < list.len() ==> !((#[trigger] list[j]).protocol is Tcp
                || list[j].protocol is Udp),
    ensures
        list[index].protocol is Tcp ==> last_port(list) == Some(list[index].protocol->Tcp_0),
        list[index].protocol is Udp ==> last_port(list) == Some(list[index].protocol->Udp_0),
    decreases list.len(),
{
    assert(list.last() == list[list.len() - 1]);
    if index < list.len() - 1 {
        let shorter = list.drop_last();
        assert forall|j: int| index < j < shorter.len() implies !((
        #[trigger] shorter[j]).protocol is Tcp || shorter[j].protocol is Udp) by {
            assert(shorter[j] == list[j]);
        }
        assert(shorter[index] == list[index]);
        law_port_is_that_of_the_last_component_with_one(shorter, index);
    }
}

/// An address without a component that gives a port has none.
pub proof fn law_port_comes_from_a_component(list: Seq<ComponentView>)
    requires
        forall|j: int|
            0 <= j < list.len() ==> !((#[trigger] list[j]).protocol is Tcp
                || list[j].protocol is Udp),
    ensures
        last_port(list) is None,
    decreases list.len(),
{
    if list.len() > 0 {
        let shorter = list.drop_last();
        assert(list.last() == list[list.len() - 1]);
        assert forall|j: int| 0 <= j < shorter.len() implies !((
        #[trigger] shorter[j]).protocol is Tcp || shorter[j].protocol is Udp) by {
            assert(shorter[j] == list[j]);
        }
        law_port_comes_from_a_component(shorter);
    }
}

/// The errors about addresses say what is wrong: the length that a fingerprint has, in decimal
/// notation, or that the IP address or the port is missing.
pub proof fn law_address_errors_say_what_is_wrong(length: nat)
    ensures
        fingerprint_length_error(length) == ErrorView::InvalidMultiaddr(
            "Invalid fingerprint length: "@ + decimal(length),
        ),
        missing_socket_error() == ErrorView::InvalidMultiaddr("Missing IP address or port"@),
{
}

} // verus!
