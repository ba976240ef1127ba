//! The WebRTC transport for browser-to-browser connections.
//!
//! The transport decides; whoever owns the relay client, the WebSocket and the peer connections
//! does what it asks for.
use crate::address_map::AddressMap;
use crate::config::Config;
use crate::dial::{
    dial_request, ice_servers, ice_urls, server_urls, DialOpts, DialRequest, DialStep, Endpoint,
    PortUse,
};
use crate::error::{Error, ErrorView, TransportError};
use crate::event::{
    drop_listener, lemma_without_listener, mentions, without_listener, TransportEvent,
};
use crate::extract::{
    extract_relay_and_target, first_split, law_joined_address_splits,
    law_split_is_the_first_webrtc_before_a_peer, peer_of,
};
use crate::hop::{check_status, hop_protocol, reservation_error, HopMessage, Status};
use crate::multiaddr::{
    component_views, components, encode_components, list_components, multiaddr_bytes,
    webrtc_component, with_webrtc, Component, ComponentView, Protocol,
};
use crate::reservation::{
    address_bytes, byte_strings, decode_addresses, relay_dial_opts, reserve_step,
    valid_addresses, PendingReservation, ReserveAction, ReserveActionView, ReserveEvent,
    ReserveStage,
};
use libp2p_core::transport::ListenerId;
use libp2p_core::Multiaddr;
use std::collections::VecDeque;
use vstd::prelude::*;
use vstd::string::StringExecFns;

verus! {

/// A WebRTC transport for browser-to-browser connections.
///
/// `C` is a connection to a relay, and `U` a pending inbound connection.
pub struct Transport<C, U> {
    config: Config,
    pending_events: VecDeque<TransportEvent<U>>,
    active_relay_connections: AddressMap<C>,
    reservation_addresses: AddressMap<Vec<Multiaddr>>,
}

/// Whether some component of an address leads through a relay.
pub open spec fn has_circuit(list: Seq<ComponentView>) -> bool {
    exists|i: int| 0 <= i < list.len() && (#[trigger] list[i]).protocol is P2pCircuit
}

/// Whether an event announces that a listener listens on an address, extended by `/webrtc`.
pub open spec fn announces<U>(event: TransportEvent<U>, id: ListenerId, addr: Multiaddr) -> bool {
    event matches TransportEvent::NewAddress { listener_id, listen_addr } && {
        &&& listener_id == id
        &&& multiaddr_bytes(listen_addr) == multiaddr_bytes(addr) + webrtc_component().encoded
        &&& components(listen_addr) == components(addr).push(webrtc_component())
    }
}

/// Whether an event announces an address that leads through a relay and ends in `/webrtc`.
pub open spec fn is_announcement<U>(event: TransportEvent<U>) -> bool {
    event matches TransportEvent::NewAddress { listen_addr, .. } && {
        &&& has_circuit(components(listen_addr))
        &&& components(listen_addr).last() == webrtc_component()
    }
}

/// An event that announces an address that leads through a relay is an announcement.
proof fn lemma_announcement<U>(event: TransportEvent<U>, id: ListenerId, addr: Multiaddr)
    requires
        announces(event, id, addr),
        has_circuit(components(addr)),
    ensures
        is_announcement(event),
{
    let listen = components(event->NewAddress_listen_addr);
    let i = choose|i: int|
        0 <= i < components(addr).len() && (#[trigger] components(addr)[i]).protocol is P2pCircuit;
    assert(listen[i] == components(addr)[i]);
}

/// The binary form of the relay address in an address that splits into a relay and a peer.
pub open spec fn relay_key(addr: Multiaddr) -> Seq<u8> {
    encode_components(components(addr).take(first_split(components(addr))->0))
}

/// Whether a dial is accepted.
pub open spec fn accepts_dial(addr: Multiaddr, opts: DialOpts, is_browser_webrtc_addr: bool) -> bool {
    &&& is_browser_webrtc_addr
    &&& opts.role is Dialer
    &&& first_split(components(addr)) is Some
}

/// The connections to relays once a relay answered over a connection.
pub open spec fn connections_after<C>(
    connections: Map<Seq<u8>, C>,
    relay: Seq<u8>,
    connection: C,
    answer: HopMessage,
) -> Map<Seq<u8>, C> {
    if reservation_error(answer.status) is None {
        connections.insert(relay, connection)
    } else {
        connections
    }
}

/// The addresses of relays, by relay, once a relay answered.
pub open spec fn reservations_after(
    reservations: Map<Seq<u8>, Seq<Seq<u8>>>,
    relay: Seq<u8>,
    answer: HopMessage,
) -> Map<Seq<u8>, Seq<Seq<u8>>> {
    if reservation_error(answer.status) is None && answer.reservation is Some {
        reservations.insert(relay, valid_addresses(byte_strings(answer.reservation->0.addrs@)))
    } else {
        reservations
    }
}

/// The error for a relay to which there is no connection.
pub open spec fn missing_connection_error() -> ErrorView {
    ErrorView::InvalidMultiaddr("Relay connection not found after reservation"@)
}

/// Whether a list of components leads through a relay.
pub fn contains_circuit(list: &Vec<Component>) -> (found: bool)
    ensures
        found == has_circuit(component_views(list@)),
        found == exists|i: int|
            0 <= i < list@.len() && (#[trigger] list@[i]).protocol is P2pCircuit,
{
    let ghost views = component_views(list@);
    let mut index: usize = 0;
    while index < list.len()
        invariant
            views == component_views(list@),
            index <= list@.len(),
            forall|i: int| 0 <= i < index ==> !((#[trigger] views[i]).protocol is P2pCircuit),
            forall|i: int| 0 <= i < index ==> !((#[trigger] list@[i]).protocol is P2pCircuit),
        decreases list@.len() - index,
    {
        assert(views[index as int] == list@[index as int]@);
        if let Protocol::P2pCircuit = list[index].protocol {
            return true;
        }
        index = index + 1;
    }
    false
}

/// Whether an address leads through a relay, so that it can be listened on.
pub fn is_relayed(addr: &Multiaddr) -> (relayed: bool)
    ensures
        relayed == has_circuit(components(*addr)),
        relayed == exists|i: int|
            0 <= i < components(*addr).len() && (
            #[trigger] components(*addr)[i]).protocol is P2pCircuit,
{
    contains_circuit(&list_components(addr))
}

/// What the relay client is to be asked: to listen, for a listener, on an address that leads
/// through a relay.
#[derive(Debug)]
pub struct ListenRequest {
    listener_id: ListenerId,
    addr: Multiaddr,
}

impl ListenRequest {
    #[verifier::type_invariant]
    spec fn well_formed(self) -> bool {
        has_circuit(components(self.addr))
    }

    /// The listener.
    pub closed spec fn listener(self) -> ListenerId {
        self.listener_id
    }

    /// The address to listen on.
    pub closed spec fn address(self) -> Multiaddr {
        self.addr
    }

    /// The listener.
    pub fn listener_id(&self) -> (id: ListenerId)
        ensures
            id == self.listener(),
    {
        self.listener_id
    }

    /// The address to listen on, as it was asked for.
    pub fn addr(&self) -> (addr: &Multiaddr)
        ensures
            *addr == self.address(),
            has_circuit(components(*addr)),
    {
        proof {
            use_type_invariant(self);
        }
        &self.addr
    }
}

impl<C, U> Transport<C, U> {
    /// The configuration.
    pub closed spec fn settings(self) -> Config {
        self.config
    }

    /// The events that were not reported yet, the oldest first.
    pub closed spec fn events(self) -> Seq<TransportEvent<U>> {
        self.pending_events@
    }

    /// The connections to relays, by the binary forms of the relays' addresses.
    pub closed spec fn connections(self) -> Map<Seq<u8>, C> {
        self.active_relay_connections@
    }

    /// The binary forms of the addresses that came with reservations, by the binary forms of
    /// the relays' addresses.
    pub closed spec fn reservations(self) -> Map<Seq<u8>, Seq<Seq<u8>>> {
        self.reservation_addresses@.map_values(|addrs: Vec<Multiaddr>| address_bytes(addrs@))
    }

    /// The transport with the given configuration: nothing to report, no relay.
    pub fn new(config: Config) -> (transport: Self)
        ensures
            transport.settings() == config,
            transport.events() == Seq::<TransportEvent<U>>::empty(),
            transport.connections() == Map::<Seq<u8>, C>::empty(),
            transport.reservations() == Map::<Seq<u8>, Seq<Seq<u8>>>::empty(),
    {
        let transport = Transport {
            config,
            pending_events: VecDeque::new(),
            active_relay_connections: AddressMap::new(),
            reservation_addresses: AddressMap::new(),
        };
        assert(transport.reservations() =~= Map::empty());
        transport
    }

    /// The configuration.
    pub fn config(&self) -> (config: &Config)
        ensures
            *config == self.settings(),
    {
        &self.config
    }

    /// Starts to reserve a spot on a relay: the relay is dialed first.
    pub fn reserve_relay(&self, relay_addr: &Multiaddr) -> (started: (
        PendingReservation<C>,
        ReserveAction,
    ))
        ensures
            started.0.relay_addr == *relay_addr,
            started.0.stage == ReserveStage::<C>::Dialing,
            started.1@ == ReserveActionView::Dial(*relay_addr, relay_dial_opts()),
    {
        let opts = DialOpts { role: Endpoint::Dialer, port_use: PortUse::New };
        (
            PendingReservation { relay_addr: relay_addr.clone(), stage: ReserveStage::Dialing },
            ReserveAction::Dial(relay_addr.clone(), opts),
        )
    }

    /// Takes the event that answers the last action of a reservation, and gives the
    /// reservation as it goes on and the next action.  An event that does not answer the last
    /// action changes nothing and asks for nothing.
    ///
    /// The answer of the relay settles the reservation, as [`Transport::settle_reservation`]
    /// says.
    pub fn advance_reservation(
        &mut self,
        reservation: PendingReservation<C>,
        event: ReserveEvent<C>,
    ) -> (next: (PendingReservation<C>, Option<ReserveAction>))
        ensures
            next.0.relay_addr == reservation.relay_addr,
            next.0.stage == reserve_step(reservation.relay_addr, reservation.stage, event).0,
            next.1 is Some <==> reserve_step(
                reservation.relay_addr,
                reservation.stage,
                event,
            ).1 is Some,
            next.1 matches Some(action) ==> Some(action@) == reserve_step(
                reservation.relay_addr,
                reservation.stage,
                event,
            ).1,
            match (reservation.stage, event) {
                (ReserveStage::Receiving(connection), ReserveEvent::Received(answer)) => {
                    let relay = multiaddr_bytes(reservation.relay_addr);
                    &&& next.0.stage is Finished
                    &&& answer.status == Some(Status::OK) ==> {
                        &&& next.1 == Some(ReserveAction::Listen(reservation.relay_addr))
                        &&& final(self).connections().contains_key(relay)
                        &&& final(self).connections()[relay] == connection
                    }
                    &&& answer.status != Some(Status::OK) ==> {
                        &&& next.1 is Some && next.1->0 is Fail
                        &&& final(self).connections() == old(self).connections()
                        &&& final(self).reservations() == old(self).reservations()
                    }
                },
                _ => !(next.1 matches Some(action) && (action is Listen || action is Fail)),
            },
            final(self).settings() == old(self).settings(),
            final(self).events() == old(self).events(),
            match (reservation.stage, event) {
                (ReserveStage::Receiving(connection), ReserveEvent::Received(answer)) => {
                    let relay = multiaddr_bytes(reservation.relay_addr);
                    &&& final(self).connections() == connections_after(
                        old(self).connections(),
                        relay,
                        connection,
                        answer,
                    )
                    &&& final(self).reservations() == reservations_after(
                        old(self).reservations(),
                        relay,
                        answer,
                    )
                },
                _ => {
                    &&& final(self).connections() == old(self).connections()
                    &&& final(self).reservations() == old(self).reservations()
                },
            },
    {
        let relay_addr = reservation.relay_addr;
        let (stage, action) = match (reservation.stage, event) {
            (ReserveStage::Dialing, ReserveEvent::Dialed(connection)) => (
                ReserveStage::OpeningStream(connection),
                Some(ReserveAction::OpenStream),
            ),
            (ReserveStage::OpeningStream(connection), ReserveEvent::StreamOpened) => (
                ReserveStage::Negotiating(connection),
                Some(ReserveAction::Negotiate(hop_protocol())),
            ),
            (ReserveStage::Negotiating(connection), ReserveEvent::Negotiated) => (
                ReserveStage::Sending(connection),
                Some(ReserveAction::Send(HopMessage::reserve())),
            ),
            (ReserveStage::Sending(connection), ReserveEvent::Sent) => (
                ReserveStage::Flushing(connection),
                Some(ReserveAction::Flush),
            ),
            (ReserveStage::Flushing(connection), ReserveEvent::Flushed) => (
                ReserveStage::Receiving(connection),
                Some(ReserveAction::Receive),
            ),
            (ReserveStage::Receiving(connection), ReserveEvent::Received(answer)) => {
                let action = match self.settle_reservation(&relay_addr, connection, answer) {
                    Ok(()) => ReserveAction::Listen(relay_addr.clone()),
                    Err(error) => ReserveAction::Fail(error),
                };
                (ReserveStage::Finished, Some(action))
            },
            (stage, _) => (stage, None),
        };
        (PendingReservation { relay_addr, stage }, action)
    }

    /// Settles a reservation by the answer of the relay.
    ///
    /// Where the relay granted it, the connection is kept for dials through that relay, and so
    /// are the addresses that came with the answer, except those that are not addresses.
    /// Otherwise nothing changes.
    pub fn settle_reservation(
        &mut self,
        relay_addr: &Multiaddr,
        connection: C,
        answer: HopMessage,
    ) -> (settled: Result<(), Error>)
        ensures
            settled is Ok <==> reservation_error(answer.status) is None,
            settled is Ok <==> answer.status == Some(Status::OK),
            settled is Ok ==> {
                &&& final(self).connections().contains_key(multiaddr_bytes(*relay_addr))
                &&& final(self).connections()[multiaddr_bytes(*relay_addr)] == connection
            },
            settled is Err ==> {
                &&& final(self).connections() == old(self).connections()
                &&& final(self).reservations() == old(self).reservations()
            },
            settled matches Err(error) ==> Some(error@) == reservation_error(answer.status),
            final(self).connections() == connections_after(
                old(self).connections(),
                multiaddr_bytes(*relay_addr),
                connection,
                answer,
            ),
            final(self).reservations() == reservations_after(
                old(self).reservations(),
                multiaddr_bytes(*relay_addr),
                answer,
            ),
            final(self).settings() == old(self).settings(),
            final(self).events() == old(self).events(),
    {
        match check_status(answer.status) {
            Ok(()) => {},
            Err(error) => {
                return Err(error);
            },
        }
        self.active_relay_connections.insert(relay_addr.clone(), connection);
        if let Some(reservation) = answer.reservation {
            let addrs: Vec<Multiaddr> = decode_addresses(&reservation.addrs);
            self.reservation_addresses.insert(relay_addr.clone(), addrs);
            assert(self.reservations() =~= old(self).reservations().insert(
                multiaddr_bytes(*relay_addr),
                address_bytes(addrs@),
            ));
        }
        Ok(())
    }

    /// The addresses that came with the reservation on a relay.
    pub fn reservation_addresses(&self, relay_addr: &Multiaddr) -> (addrs: Option<&Vec<Multiaddr>>)
        ensures
            addrs is Some <==> self.reservations().contains_key(multiaddr_bytes(*relay_addr)),
            addrs matches Some(list) ==> address_bytes(list@) == self.reservations()[multiaddr_bytes(
                *relay_addr,
            )],
    {
        self.reservation_addresses.get(relay_addr)
    }

    /// The connection to a relay on which a spot is reserved.
    pub fn relay_connection(&self, relay_addr: &Multiaddr) -> (found: Result<&C, TransportError>)
        ensures
            found is Ok <==> self.connections().contains_key(multiaddr_bytes(*relay_addr)),
            found matches Ok(connection) ==> *connection == self.connections()[multiaddr_bytes(
                *relay_addr,
            )],
            found matches Err(error) ==> {
                &&& error is Other
                &&& error->Other_0@ == missing_connection_error()
            },
    {
        match self.active_relay_connections.get(relay_addr) {
            Some(connection) => Ok(connection),
            None => Err(
                TransportError::Other(
                    Error::InvalidMultiaddr(
                        String::from_str("Relay connection not found after reservation"),
                    ),
                ),
            ),
        }
    }

    /// Accepts or turns down a request to listen: only an address that leads through a relay is
    /// listened on.
    ///
    /// An accepted request says what the relay client is to be asked, once, before
    /// [`Transport::settle_listening`] takes its outcome.
    pub fn listen_on(&self, id: ListenerId, addr: Multiaddr) -> (accepted: Result<
        ListenRequest,
        TransportError,
    >)
        ensures
            accepted is Ok <==> has_circuit(components(addr)),
            accepted is Ok <==> exists|i: int|
                0 <= i < components(addr).len() && (
                #[trigger] components(addr)[i]).protocol is P2pCircuit,
            accepted matches Ok(request) ==> {
                &&& request.listener() == id
                &&& request.address() == addr
            },
            accepted matches Err(error) ==> error == TransportError::MultiaddrNotSupported(addr),
    {
        if is_relayed(&addr) {
            Ok(ListenRequest { listener_id: id, addr })
        } else {
            Err(TransportError::MultiaddrNotSupported(addr))
        }
    }

    /// Settles a request to listen by the outcome of the relay client, and hands that on.
    ///
    /// Where the relay client listens, the transport reports that the address, extended by
    /// `/webrtc`, is being listened on.  Otherwise nothing changes.
    pub fn settle_listening<E>(&mut self, request: ListenRequest, outcome: Result<(), E>) -> (settled:
        Result<(), E>)
        ensures
            settled == outcome,
            outcome is Ok ==> {
                &&& final(self).events().len() == old(self).events().len() + 1
                &&& final(self).events().drop_last() == old(self).events()
                &&& announces(final(self).events().last(), request.listener(), request.address())
                &&& is_announcement(final(self).events().last())
            },
            outcome is Ok ==> {
                let event = final(self).events().last();
                &&& event is NewAddress
                &&& event->NewAddress_listener_id == request.listener()
                &&& multiaddr_bytes(event->NewAddress_listen_addr) == multiaddr_bytes(
                    request.address(),
                ) + seq![0x99u8, 0x02u8]
                &&& components(event->NewAddress_listen_addr).len() == components(
                    request.address(),
                ).len() + 1
                &&& components(event->NewAddress_listen_addr).drop_last() == components(
                    request.address(),
                )
                &&& components(event->NewAddress_listen_addr).last().protocol is WebRTC
            },
            outcome is Err ==> final(self).events() == old(self).events(),
            final(self).settings() == old(self).settings(),
            final(self).connections() == old(self).connections(),
            final(self).reservations() == old(self).reservations(),
    {
        proof {
            use_type_invariant(&request);
        }
        if outcome.is_ok() {
            let listen_addr: Multiaddr = with_webrtc(request.addr);
            let event = TransportEvent::NewAddress {
                listener_id: request.listener_id,
                listen_addr,
            };
            proof {
                lemma_announcement(event, request.listener(), request.address());
            }
            self.pending_events.push_back(event);
            assert(self.events().drop_last() =~= old(self).events());
        }
        outcome
    }

    /// Removes a listener, given whether the relay client knew it: the events about it that were
    /// not reported yet are dropped.  Tells whether the listener was known at all.
    pub fn remove_listener(&mut self, id: ListenerId, known_to_relay_client: bool) -> (found: bool)
        ensures
            found == (mentions(old(self).events(), id) || known_to_relay_client),
            final(self).events() == without_listener(old(self).events(), id),
            final(self).settings() == old(self).settings(),
            final(self).connections() == old(self).connections(),
            final(self).reservations() == old(self).reservations(),
    {
        let pending: bool = drop_listener(&mut self.pending_events, &id);
        pending || known_to_relay_client
    }

    /// Takes the oldest event that was not reported yet.
    pub fn poll(&mut self) -> (event: Option<TransportEvent<U>>)
        ensures
            event is None <==> old(self).events().len() == 0,
            event matches Some(e) ==> {
                &&& e == old(self).events()[0]
                &&& final(self).events() == old(self).events().drop_first()
            },
            event is None ==> final(self).events() == old(self).events(),
            final(self).settings() == old(self).settings(),
            final(self).connections() == old(self).connections(),
            final(self).reservations() == old(self).reservations(),
    {
        let event = self.pending_events.pop_front();
        assert(event is Some ==> self.events() =~= old(self).events().drop_first());
        event
    }

    /// Accepts or turns down a dial, given whether the address is valid for WebRTC between
    /// browsers.
    ///
    /// Only the dialing side can be taken, and the address has to name a relay and the peer
    /// behind it.  An accepted dial goes over the connection to the relay where there is one;
    /// otherwise a spot on the relay has to be reserved first.
    pub fn dial(&self, addr: Multiaddr, opts: DialOpts, is_browser_webrtc_addr: bool) -> (dialed:
        Result<DialStep, TransportError>)
        ensures
            dialed is Ok <==> accepts_dial(addr, opts, is_browser_webrtc_addr),
            dialed is Ok <==> {
                &&& is_browser_webrtc_addr
                &&& opts.role is Dialer
                &&& exists|i: int, j: int|
                    {
                        &&& 0 <= i < components(addr).len() - 1
                        &&& j == i + 1
                        &&& (#[trigger] components(addr)[i]).protocol is WebRTC
                        &&& (#[trigger] components(addr)[j]).protocol is P2p
                    }
            },
            dialed matches Err(error) ==> error == TransportError::MultiaddrNotSupported(addr),
            dialed matches Ok(step) ==> {
                let request = dial_request(step);
                let split = first_split(components(addr))->0;
                &&& request.addr == addr
                &&& components(request.relay_addr) == components(addr).take(split)
                &&& multiaddr_bytes(request.relay_addr) == relay_key(addr)
                &&& request.target == peer_of(components(addr)[split + 1])
                &&& request.keypair == self.settings().keypair
                &&& server_urls(request.ice_servers) == ice_urls(self.settings().stun_servers@)
                &&& step is Connect <==> self.connections().contains_key(relay_key(addr))
            },
            dialed matches Ok(DialStep::Reserve(request)) ==> !self.connections().contains_key(
                multiaddr_bytes(request.relay_addr),
            ),
            dialed matches Ok(DialStep::Connect(request)) ==> self.connections().contains_key(
                multiaddr_bytes(request.relay_addr),
            ),
    {
        proof {
            law_split_is_the_first_webrtc_before_a_peer(components(addr));
        }
        if !is_browser_webrtc_addr {
            return Err(TransportError::MultiaddrNotSupported(addr));
        }
        if opts.role.is_listener() {
            return Err(TransportError::MultiaddrNotSupported(addr));
        }
        match extract_relay_and_target(&addr) {
            None => Err(TransportError::MultiaddrNotSupported(addr)),
            Some((relay_addr, target)) => {
                let connected: bool = self.active_relay_connections.get(&relay_addr).is_some();
                let request = DialRequest {
                    addr,
                    relay_addr,
                    target,
                    keypair: self.config.keypair.clone(),
                    ice_servers: ice_servers(&self.config.stun_servers),
                };
                if connected {
                    Ok(DialStep::Connect(request))
                } else {
                    Ok(DialStep::Reserve(request))
                }
            },
        }
    }
}

/// The address that a listener announces, followed by a peer, is an address that dials that peer
/// through the address that is listened on, provided that the latter does not itself name a peer
/// behind `/webrtc`.
pub proof fn law_announced_address_dials_back<U>(
    event: TransportEvent<U>,
    id: ListenerId,
    addr: Multiaddr,
    peer: ComponentView,
    dialed: Multiaddr,
)
    requires
        announces(event, id, addr),
        first_split(components(addr)) is None,
        peer.protocol is P2p,
        components(dialed) == components(event->NewAddress_listen_addr).push(peer),
    ensures
        first_split(components(dialed)) == Some(components(addr).len() as int),
        components(dialed).take(components(addr).len() as int) == components(addr),
        relay_key(dialed) == encode_components(components(addr)),
        peer_of(components(dialed)[components(addr).len() as int + 1]) == peer_of(peer),
        accepts_dial(dialed, relay_dial_opts(), true),
{
    law_joined_address_splits(components(addr), webrtc_component(), peer, Seq::empty());
    let joined = components(addr).push(webrtc_component()).push(peer) + Seq::<
        ComponentView,
    >::empty();
    assert(joined =~= components(dialed));
}

/// Once a relay granted a reservation, dials through it go over the connection on which it
/// did, and need no reservation.
pub proof fn law_granted_relay_is_reused<C>(
    connections: Map<Seq<u8>, C>,
    addr: Multiaddr,
    connection: C,
    answer: HopMessage,
)
    requires
        answer.status == Some(Status::OK),
    ensures
        connections_after(connections, relay_key(addr), connection, answer).contains_key(
            relay_key(addr),
        ),
        connections_after(connections, relay_key(addr), connection, answer)[relay_key(addr)]
            == connection,
{
}

/// Once a spot was reserved on a relay, every address that puts `/webrtc` and a peer behind the
/// address of that relay is dialed over the connection on which the relay granted it.
///
/// Relays are told apart by the binary forms of their addresses, so the relay's address has to
/// be in the binary form that putting its components together gives.
pub proof fn law_reserved_relay_serves_its_addresses<C>(
    connections: Map<Seq<u8>, C>,
    relay_addr: Multiaddr,
    connection: C,
    answer: HopMessage,
    webrtc: ComponentView,
    peer: ComponentView,
    rest: Seq<ComponentView>,
    dialed: Multiaddr,
)
    requires
        answer.status == Some(Status::OK),
        multiaddr_bytes(relay_addr) == encode_components(components(relay_addr)),
        first_split(components(relay_addr)) is None,
        webrtc.protocol is WebRTC,
        peer.protocol is P2p,
        components(dialed) == components(relay_addr).push(webrtc).push(peer) + rest,
    ensures
        ({
            let after = connections_after(
                connections,
                multiaddr_bytes(relay_addr),
                connection,
                answer,
            );
            &&& relay_key(dialed) == multiaddr_bytes(relay_addr)
            &&& after.contains_key(relay_key(dialed))
            &&& after[relay_key(dialed)] == connection
        }),
{
    law_joined_address_splits(components(relay_addr), webrtc, peer, rest);
}

/// A reservation that the relay did not grant changes nothing.
pub proof fn law_refused_reservation_changes_nothing<C>(
    connections: Map<Seq<u8>, C>,
    reservations: Map<Seq<u8>, Seq<Seq<u8>>>,
    relay: Seq<u8>,
    connection: C,
    answer: HopMessage,
)
    requires
        answer.status != Some(Status::OK),
    ensures
        connections_after(connections, relay, connection, answer) == connections,
        reservations_after(reservations, relay, answer) == reservations,
{
}

/// A reservation on one relay leaves what is known of every other relay as it is.
pub proof fn law_other_relays_are_kept<C>(
    connections: Map<Seq<u8>, C>,
    reservations: Map<Seq<u8>, Seq<Seq<u8>>>,
    relay: Seq<u8>,
    connection: C,
    answer: HopMessage,
    other: Seq<u8>,
)
    requires
        other != relay,
    ensures
        connections_after(connections, relay, connection, answer).contains_key(other)
            == connections.contains_key(other),
        connections.contains_key(other) ==> connections_after(
            connections,
            relay,
            connection,
            answer,
        )[other] == connections[other],
        reservations_after(reservations, relay, answer).contains_key(other)
            == reservations.contains_key(other),
        reservations.contains_key(other) ==> reservations_after(reservations, relay, answer)[other]
            == reservations[other],
{
}

/// Whether all events are announcements.
pub open spec fn only_announcements<U>(events: Seq<TransportEvent<U>>) -> bool {
    forall|i: int| 0 <= i < events.len() ==> is_announcement(#[trigger] events[i])
}

/// The transport reports only that addresses that lead through a relay, extended by `/webrtc`,
/// are being listened on: there is nothing to report at first, and to listen, to remove a
/// listener and to report an event keep it so.
pub proof fn law_only_announcements_are_reported<U>(
    events: Seq<TransportEvent<U>>,
    event: TransportEvent<U>,
    id: ListenerId,
    addr: Multiaddr,
)
    requires
        only_announcements(events),
    ensures
        only_announcements(Seq::<TransportEvent<U>>::empty()),
        announces(event, id, addr) && has_circuit(components(addr)) ==> only_announcements(
            events.push(event),
        ),
        only_announcements(without_listener(events, id)),
        events.len() > 0 ==> only_announcements(events.drop_first()),
{
    if announces(event, id, addr) && has_circuit(components(addr)) {
        lemma_announcement(event, id, addr);
    }
    lemma_without_listener(events, id);
    let kept = without_listener(events, id);
    assert forall|i: int| 0 <= i < kept.len() implies is_announcement(#[trigger] kept[i]) by {
        let k = choose|k: int| 0 <= k < events.len() && events[k] == kept[i];
        assert(is_announcement(events[k]));
    }
}

/// Events are reported in the order in which they came up: the one that listening adds comes
/// behind all those that were there, and first where there were none.
pub proof fn law_events_are_reported_in_order<U>(
    events: Seq<TransportEvent<U>>,
    event: TransportEvent<U>,
)
    ensures
        events.len() == 0 ==> events.push(event)[0] == event,
        events.len() > 0 ==> {
            &&& events.push(event)[0] == events[0]
            &&& events.push(event).drop_first() == events.drop_first().push(event)
        },
{
    if events.len() > 0 {
        assert(events.push(event).drop_first() =~= events.drop_first().push(event));
    }
}

/// An address is relayed, and so accepted by [`Transport::listen_on`], wherever any of its
/// components is `/p2p-circuit`, whatever stands before or behind it.
pub proof fn law_circuit_anywhere_makes_an_address_relayed(list: Seq<ComponentView>, index: int)
    requires
        0 <= index < list.len(),
        list[index].protocol is P2pCircuit,
    ensures
        has_circuit(list),
{
}

/// An address without `/p2p-circuit` is not relayed.
pub proof fn law_address_without_circuit_is_not_relayed(list: Seq<ComponentView>)
    requires
        forall|i: int| 0 <= i < list.len() ==> !((#[trigger] list[i]).protocol is P2pCircuit),
    ensures
        !has_circuit(list),
{
}

/// What is announced is the address that is listened on with `/webrtc` behind it, for the
/// listener that asked.
pub proof fn law_announced_address_ends_in_webrtc<U>(
    event: TransportEvent<U>,
    id: ListenerId,
    addr: Multiaddr,
)
    ensures
        announces(event, id, addr) ==> {
            &&& event is NewAddress
            &&& event->NewAddress_listener_id == id
            &&& multiaddr_bytes(event->NewAddress_listen_addr) == multiaddr_bytes(addr)
                + seq![0x99u8, 0x02u8]
            &&& components(event->NewAddress_listen_addr).drop_last() == components(addr)
            &&& components(event->NewAddress_listen_addr).last().protocol is WebRTC
        },
{
    if announces(event, id, addr) {
        assert(components(event->NewAddress_listen_addr).drop_last() =~= components(addr));
    }
}

/// A dial is accepted for every address with a `/webrtc` directly in front of a peer, if it is
/// valid and this node dials, and whichever port is used.
pub proof fn law_dial_of_a_peer_behind_webrtc_is_accepted(
    addr: Multiaddr,
    index: int,
    port_use: PortUse,
)
    requires
        0 <= index < components(addr).len() - 1,
        components(addr)[index].protocol is WebRTC,
        components(addr)[index + 1].protocol is P2p,
    ensures
        accepts_dial(addr, (DialOpts { role: Endpoint::Dialer, port_use }), true),
{
    law_split_is_the_first_webrtc_before_a_peer(components(addr));
}

/// No other dial is accepted: not for an address that is not valid, not where this node listens,
/// and not for an address without a `/webrtc` directly in front of a peer.
pub proof fn law_no_other_dial_is_accepted(addr: Multiaddr, opts: DialOpts, valid: bool)
    requires
        !valid || opts.role is Listener || forall|i: int, j: int|
            0 <= i < components(addr).len() - 1 && j == i + 1 ==> !((
            #[trigger] components(addr)[i]).protocol is WebRTC
                && (#[trigger] components(addr)[j]).protocol is P2p),
    ensures
        !accepts_dial(addr, opts, valid),
{
    law_split_is_the_first_webrtc_before_a_peer(components(addr));
}

/// Which port is used makes no difference to whether a dial is accepted.
pub proof fn law_port_use_does_not_decide_a_dial(
    addr: Multiaddr,
    role: Endpoint,
    one: PortUse,
    other: PortUse,
    valid: bool,
)
    ensures
        accepts_dial(addr, (DialOpts { role, port_use: one }), valid) == accepts_dial(
            addr,
            (DialOpts { role, port_use: other }),
            valid,
        ),
{
}

/// Relays are told apart by the components in front of the `/webrtc` of a dialed address, and by
/// nothing else of it.
pub proof fn law_relay_is_what_stands_before_webrtc(addr: Multiaddr, index: int)
    requires
        0 <= index < components(addr).len() - 1,
        components(addr)[index].protocol is WebRTC,
        components(addr)[index + 1].protocol is P2p,
        forall|i: int, j: int|
            0 <= i < index && j == i + 1 ==> !((
            #[trigger] components(addr)[i]).protocol is WebRTC
                && (#[trigger] components(addr)[j]).protocol is P2p),
    ensures
        relay_key(addr) == encode_components(components(addr).take(index)),
{
    law_split_is_the_first_webrtc_before_a_peer(components(addr));
    let first = first_split(components(addr))->0;
    assert(!(index < first));
    if first < index {
        assert(components(addr)[first].protocol is WebRTC);
    }
}

/// Every answer with [`Status::OK`], whatever else it says, has the connection kept for its relay,
/// in place of one that was there; the addresses that came with it are kept too, and where none
/// came, those that were there stay.
pub proof fn law_granted_reservation_is_kept<C>(
    connections: Map<Seq<u8>, C>,
    reservations: Map<Seq<u8>, Seq<Seq<u8>>>,
    relay: Seq<u8>,
    connection: C,
    answer: HopMessage,
)
    requires
        answer.status == Some(Status::OK),
    ensures
        connections_after(connections, relay, connection, answer).contains_key(relay),
        connections_after(connections, relay, connection, answer)[relay] == connection,
        answer.reservation matches Some(granted) ==> {
            &&& reservations_after(reservations, relay, answer).contains_key(relay)
            &&& reservations_after(reservations, relay, answer)[relay] == valid_addresses(
                byte_strings(granted.addrs@),
            )
        },
        answer.reservation is None ==> reservations_after(reservations, relay, answer)
            == reservations,
{
}

/// The error for a relay without a connection says so.
pub proof fn law_missing_connection_is_named()
    ensures
        missing_connection_error() == ErrorView::InvalidMultiaddr(
            "Relay connection not found after reservation"@,
        ),
{
}

} // verus!
