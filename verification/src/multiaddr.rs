//! Multiaddresses as sequences of components.
//!
//! [`Multiaddr`] belongs to `libp2p-core`; its values are opaque here.  Two names speak of
//! one: [`multiaddr_bytes`], its binary form, and [`multiaddr_components`], the components
//! that a binary form decodes to.
use libp2p_core::multiaddr::Protocol as Part;
use libp2p_core::Multiaddr;
use libp2p_identity::PeerId;
use vstd::prelude::*;

verus! {

/// `libp2p_core::Multiaddr`, carried as an opaque value.
#[verifier::external_type_specification]
#[verifier::external_body]
pub struct ExMultiaddr(libp2p_core::Multiaddr);

/// `libp2p_identity::PeerId`, carried as an opaque value.
#[verifier::external_type_specification]
#[verifier::external_body]
pub struct ExPeerId(libp2p_identity::PeerId);

/// The protocols of a multiaddress that matter to this transport; every other protocol is
/// [`Protocol::Other`].
pub enum Protocol {
    Ip4([u8; 4]),
    Ip6([u8; 16]),
    Tcp(u16),
    Udp(u16),
    P2p(PeerId),
    P2pCircuit,
    WebRTC,
    /// The digest of the multihash of a certificate.
    Certhash(Vec<u8>),
    Other,
}

/// One component of a multiaddress: the protocol, and its binary form.
pub struct Component {
    pub protocol: Protocol,
    pub encoded: Vec<u8>,
}

/// The model of a [`Protocol`].
pub enum ProtocolView {
    Ip4([u8; 4]),
    Ip6([u8; 16]),
    Tcp(u16),
    Udp(u16),
    P2p(PeerId),
    P2pCircuit,
    WebRTC,
    Certhash(Seq<u8>),
    Other,
}

/// The model of a [`Component`].
pub struct ComponentView {
    pub protocol: ProtocolView,
    pub encoded: Seq<u8>,
}

impl View for Protocol {
    type V = ProtocolView;

    open spec fn view(&self) -> ProtocolView {
        match *self {
            Protocol::Ip4(octets) => ProtocolView::Ip4(octets),
            Protocol::Ip6(octets) => ProtocolView::Ip6(octets),
            Protocol::Tcp(port) => ProtocolView::Tcp(port),
            Protocol::Udp(port) => ProtocolView::Udp(port),
            Protocol::P2p(peer) => ProtocolView::P2p(peer),
            Protocol::P2pCircuit => ProtocolView::P2pCircuit,
            Protocol::WebRTC => ProtocolView::WebRTC,
            Protocol::Certhash(digest) => ProtocolView::Certhash(digest@),
            Protocol::Other => ProtocolView::Other,
        }
    }
}

impl View for Component {
    type V = ComponentView;

    open spec fn view(&self) -> ComponentView {
        ComponentView { protocol: self.protocol@, encoded: self.encoded@ }
    }
}

/// The binary form of a multiaddress, which is all that it holds.
pub uninterp spec fn multiaddr_bytes(addr: Multiaddr) -> Seq<u8>;

/// The components that a binary form decodes to, each with the binary form that appending it
/// to an address writes.
pub uninterp spec fn multiaddr_components(bytes: Seq<u8>) -> Seq<ComponentView>;

/// Whether bytes are the binary form of a multiaddress.
pub uninterp spec fn multiaddr_valid(bytes: Seq<u8>) -> bool;

/// The component `/webrtc`, whose binary form is the variable-length integer of its code, 281.
pub open spec fn webrtc_component() -> ComponentView {
    ComponentView { protocol: ProtocolView::WebRTC, encoded: seq![0x99u8, 0x02u8] }
}

/// The binary forms of components, one behind the other.
pub open spec fn encode_components(list: Seq<ComponentView>) -> Seq<u8>
    decreases list.len(),
{
    if list.len() == 0 {
        Seq::empty()
    } else {
        encode_components(list.drop_last()) + list.last().encoded
    }
}

/// The components of a multiaddress.
pub open spec fn components(addr: Multiaddr) -> Seq<ComponentView> {
    multiaddr_components(multiaddr_bytes(addr))
}

/// `Multiaddr::iter` and its `nth`: the component at a position, if the address has so many.
#[verifier::external_body]
fn component_at(addr: &Multiaddr, index: usize) -> (component: Option<Component>)
    ensures
        component is Some <==> index < multiaddr_components(multiaddr_bytes(*addr)).len(),
        component matches Some(c) ==> c@ == multiaddr_components(multiaddr_bytes(*addr))[index as int],
{
    let part = addr.iter().nth(index)?;
    let encoded = Multiaddr::from(part.clone()).to_vec();
    let protocol = match part {
        Part::Ip4(ip) => Protocol::Ip4(ip.octets()),
        Part::Ip6(ip) => Protocol::Ip6(ip.octets()),
        Part::Tcp(port) => Protocol::Tcp(port),
        Part::Udp(port) => Protocol::Udp(port),
        Part::P2p(peer) => Protocol::P2p(peer),
        Part::P2pCircuit => Protocol::P2pCircuit,
        Part::WebRTC => Protocol::WebRTC,
        Part::Certhash(hash) => Protocol::Certhash(hash.digest().to_vec()),
        _ => Protocol::Other,
    };
    Some(Component { protocol, encoded })
}

/// `Multiaddr::empty`: the address without components.
#[verifier::external_body]
pub(crate) fn empty_multiaddr() -> (addr: Multiaddr)
    ensures
        multiaddr_bytes(addr) == Seq::<u8>::empty(),
        multiaddr_components(multiaddr_bytes(addr)) == Seq::<ComponentView>::empty(),
{
    Multiaddr::empty()
}

/// `Multiaddr::with` on a component that another address yields: the component is added at the
/// end, and so is its binary form.
#[verifier::external_body]
pub(crate) fn with_component_of(addr: Multiaddr, source: &Multiaddr, index: usize) -> (extended:
    Multiaddr)
    requires
        index < components(*source).len(),
    ensures
        multiaddr_bytes(extended) == multiaddr_bytes(addr) + multiaddr_components(
            multiaddr_bytes(*source),
        )[index as int].encoded,
        multiaddr_components(multiaddr_bytes(extended)) == multiaddr_components(
            multiaddr_bytes(addr),
        ).push(multiaddr_components(multiaddr_bytes(*source))[index as int]),
{
    addr.with(source.iter().nth(index).unwrap())
}

/// `Multiaddr::with` on `Protocol::WebRTC`: `/webrtc` is added at the end.
#[verifier::external_body]
pub(crate) fn with_webrtc(addr: Multiaddr) -> (extended: Multiaddr)
    ensures
        multiaddr_bytes(extended) == multiaddr_bytes(addr) + webrtc_component().encoded,
        multiaddr_components(multiaddr_bytes(extended)) == multiaddr_components(
            multiaddr_bytes(addr),
        ).push(webrtc_component()),
{
    addr.with(Part::WebRTC)
}

/// `<Multiaddr as TryFrom<Vec<u8>>>::try_from`: the address with the given binary form, if
/// the bytes are the binary form of an address.
#[verifier::external_body]
pub(crate) fn parse_multiaddr(bytes: &Vec<u8>) -> (addr: Option<Multiaddr>)
    ensures
        addr is Some <==> multiaddr_valid(bytes@),
        addr matches Some(a) ==> multiaddr_bytes(a) == bytes@,
{
    Multiaddr::try_from(bytes.clone()).ok()
}

/// `<Multiaddr as PartialEq>::eq`: two addresses are equal when their binary forms are.
#[verifier::external_body]
pub(crate) fn same_multiaddr(a: &Multiaddr, b: &Multiaddr) -> (same: bool)
    ensures
        same == (multiaddr_bytes(*a) == multiaddr_bytes(*b)),
{
    a == b
}

/// `<Multiaddr as Clone>::clone`: the same address.
pub assume_specification[ <Multiaddr as Clone>::clone ](addr: &Multiaddr) -> (copy: Multiaddr)
    ensures
        copy == *addr,
;

/// The views of a list of components.
pub open spec fn component_views(list: Seq<Component>) -> Seq<ComponentView> {
    Seq::new(list.len(), |i: int| list[i]@)
}

/// All components of a multiaddress, in order.
pub fn list_components(addr: &Multiaddr) -> (list: Vec<Component>)
    ensures
        component_views(list@) == components(*addr),
        list@.len() == components(*addr).len(),
        forall|i: int|
            0 <= i < list@.len() ==> (#[trigger] list@[i])@ == components(*addr)[i],
{
    let mut list: Vec<Component> = Vec::new();
    let mut index: usize = 0;
    loop
        invariant
            index == list@.len(),
            index <= components(*addr).len(),
            forall|i: int| 0 <= i < index ==> (#[trigger] list@[i])@ == components(*addr)[i],
        decreases components(*addr).len() - index,
    {
        match component_at(addr, index) {
            Some(component) => {
                list.push(component);
                index = list.len();
            },
            None => {
                assert(component_views(list@) =~= components(*addr));
                return list;
            },
        }
    }
}

/// The view of a component says which protocol it is, what the protocol holds, and the binary
/// form.
pub proof fn law_component_is_what_its_view_says(component: Component)
    ensures
        component@.encoded == component.encoded@,
        match component.protocol {
            Protocol::Ip4(octets) => component@.protocol == ProtocolView::Ip4(octets),
            Protocol::Ip6(octets) => component@.protocol == ProtocolView::Ip6(octets),
            Protocol::Tcp(port) => component@.protocol == ProtocolView::Tcp(port),
            Protocol::Udp(port) => component@.protocol == ProtocolView::Udp(port),
            Protocol::P2p(peer) => component@.protocol == ProtocolView::P2p(peer),
            Protocol::P2pCircuit => component@.protocol is P2pCircuit,
            Protocol::WebRTC => component@.protocol is WebRTC,
            Protocol::Certhash(digest) => component@.protocol == ProtocolView::Certhash(digest@),
            Protocol::Other => component@.protocol is Other,
        },
{
}

/// The views of a list of components are those of its components, one each and in order.
pub proof fn law_views_are_those_of_the_components(list: Seq<Component>)
    ensures
        component_views(list).len() == list.len(),
        forall|i: int| 0 <= i < list.len() ==> #[trigger] component_views(list)[i] == list[i]@,
{
}

/// The binary form of components is put together from the front: without components it is
/// empty, and each further component adds its own binary form at the end.
pub proof fn law_components_are_encoded_one_behind_the_other(
    list: Seq<ComponentView>,
    component: ComponentView,
)
    ensures
        encode_components(Seq::<ComponentView>::empty()) == Seq::<u8>::empty(),
        encode_components(list.push(component)) == encode_components(list) + component.encoded,
{
    assert(list.push(component).drop_last() =~= list);
}

} // verus!
