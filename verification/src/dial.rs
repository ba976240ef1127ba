//! The steps by which a peer behind a relay is dialed.
use crate::error::{Error, TransportError};
use crate::extract::{
    digest_of, extract_fingerprint, extract_socket_addr, fingerprint_digest,
    fingerprint_length_error, last_ip, last_port, missing_socket_error, SocketAddr,
};
use crate::multiaddr::components;
use libp2p_core::Multiaddr;
use libp2p_identity::{Keypair, PeerId};
use libp2p_webrtc_utils::Fingerprint;
use vstd::prelude::*;

verus! {

/// The side that a node takes on a connection.
#[derive(Debug, Clone, Copy, PartialEq, Eq)]
pub enum Endpoint {
    Dialer,
    Listener,
}

/// Which port a new connection uses.
#[derive(Debug, Clone, Copy, PartialEq, Eq)]
pub enum PortUse {
    New,
    Reuse,
}

/// How an address is dialed.
#[derive(Debug, Clone, Copy, PartialEq, Eq)]
pub struct DialOpts {
    pub role: Endpoint,
    pub port_use: PortUse,
}

impl Endpoint {
    /// Whether this is the side that listens.
    pub fn is_listener(self) -> (listener: bool)
        ensures
            listener == (self is Listener),
    {
        matches!(self, Endpoint::Listener)
    }
}

/// A server that helps the peers to find a path to each other.
#[derive(Debug)]
pub struct IceServer {
    pub urls: String,
}

/// A dial that was accepted.
#[derive(Debug)]
pub struct DialRequest {
    /// The address that is dialed.
    pub addr: Multiaddr,
    /// The address of the relay.
    pub relay_addr: Multiaddr,
    /// The peer behind the relay.
    pub target: PeerId,
    /// The keys of this node.
    pub keypair: Keypair,
    /// The ICE servers for the peer connection, where any are configured.
    pub ice_servers: Option<Vec<IceServer>>,
}

/// What an accepted dial needs next.
#[derive(Debug)]
pub enum DialStep {
    /// There is no connection to the relay yet: reserve a spot on it.
    Reserve(DialRequest),
    /// There is a connection to the relay: use it.
    Connect(DialRequest),
}

/// The dial that a step belongs to.
pub open spec fn dial_request(step: DialStep) -> DialRequest {
    match step {
        DialStep::Reserve(request) => request,
        DialStep::Connect(request) => request,
    }
}

/// The URLs of ICE servers, in order.
pub open spec fn server_urls(servers: Option<Vec<IceServer>>) -> Option<Seq<String>> {
    match servers {
        None => None,
        Some(list) => Some(Seq::new(list@.len(), |i: int| list@[i].urls)),
    }
}

/// The URLs of the ICE servers for a list of STUN servers: one each, in order, or none at all
/// where the list is empty.
pub open spec fn ice_urls(stun_servers: Seq<String>) -> Option<Seq<String>> {
    if stun_servers.len() == 0 {
        None
    } else {
        Some(stun_servers)
    }
}

/// The ICE servers for a list of STUN servers.
pub fn ice_servers(stun_servers: &Vec<String>) -> (servers: Option<Vec<IceServer>>)
    ensures
        server_urls(servers) == ice_urls(stun_servers@),
        servers is None <==> stun_servers@.len() == 0,
        servers matches Some(list) ==> {
            &&& list@.len() == stun_servers@.len()
            &&& forall|i: int|
                0 <= i < stun_servers@.len() ==> (#[trigger] list@[i]).urls == stun_servers@[i]
        },
{
    if stun_servers.len() == 0 {
        return None;
    }
    let mut list: Vec<IceServer> = Vec::new();
    let mut index: usize = 0;
    while index < stun_servers.len()
        invariant
            index <= stun_servers@.len(),
            list@.len() == index,
            forall|i: int| 0 <= i < index ==> (#[trigger] list@[i]).urls == stun_servers@[i],
        decreases stun_servers@.len() - index,
    {
        list.push(IceServer { urls: stun_servers[index].clone() });
        index = index + 1;
    }
    assert(server_urls(Some(list))->0 =~= stun_servers@);
    Some(list)
}

/// The same ICE servers once more.
fn copy_servers(servers: &Option<Vec<IceServer>>) -> (copy: Option<Vec<IceServer>>)
    ensures
        server_urls(copy) == server_urls(*servers),
{
    match servers {
        None => None,
        Some(list) => {
            let mut copy: Vec<IceServer> = Vec::new();
            let mut index: usize = 0;
            while index < list.len()
                invariant
                    index <= list@.len(),
                    copy@.len() == index,
                    forall|i: int| 0 <= i < index ==> (#[trigger] copy@[i]).urls == list@[i].urls,
                decreases list@.len() - index,
            {
                copy.push(IceServer { urls: list[index].urls.clone() });
                index = index + 1;
            }
            assert(server_urls(Some(copy))->0 =~= server_urls(*servers)->0);
            Some(copy)
        },
    }
}

/// How far the connection to a peer has come.
#[derive(Debug, Clone, Copy, PartialEq, Eq)]
pub enum HandshakeStage {
    /// A stream is being opened over the connection to the relay.
    OpeningStream,
    /// The signaling protocol is being negotiated on the stream.
    Negotiating,
    /// The peer connection is being created.
    CreatingConnection,
    /// The peers exchange how they are reached.  The peer connection has a certificate of this
    /// fingerprint.
    Signaling(Fingerprint),
    /// The channel for the authentication is being opened.
    OpeningChannel(Fingerprint),
    /// The peers authenticate each other.
    Authenticating,
    /// The peers are connected.
    Finished,
}

/// A connection to a peer that is being set up over a relay.
#[derive(Debug)]
pub struct Handshake {
    pub stage: HandshakeStage,
    /// The socket address of the relay.
    pub socket_addr: SocketAddr,
    /// The fingerprint of the certificate that the peer has to present.
    pub remote_fingerprint: Fingerprint,
    /// The keys of this node.
    pub keypair: Keypair,
    /// The ICE servers for the peer connection, where any are configured.
    pub ice_servers: Option<Vec<IceServer>>,
    /// The name of the signaling protocol.
    pub signaling_protocol: &'static str,
}

/// What a handshake goes by from its beginning to its end.
pub struct HandshakeTerms {
    pub remote_fingerprint: Fingerprint,
    pub keypair: Keypair,
    pub ice_urls: Option<Seq<String>>,
    pub signaling_protocol: Seq<char>,
}

/// What happened to the last [`HandshakeAction`].
pub enum HandshakeEvent {
    StreamOpened,
    Negotiated,
    /// The peer connection was created, with a certificate of this fingerprint.
    ConnectionCreated(Fingerprint),
    Signaled,
    ChannelOpened,
    /// The peer proved to be this one.
    Authenticated(PeerId),
}

/// What the connection to a peer needs next.
pub enum HandshakeAction {
    /// Open a stream over the connection to the relay.
    OpenStream,
    /// Negotiate the protocol of this name, and no other, on the stream.
    Negotiate(&'static str),
    /// Create a peer connection, with a certificate of this hash algorithm and with these ICE
    /// servers.
    CreateConnection(&'static str, Option<Vec<IceServer>>),
    /// Exchange over the stream how the peers are reached, as the side that begins or not.
    Signal(bool),
    /// Open the channel of this name on the peer connection.
    OpenChannel(&'static str),
    /// Authenticate over the channel with these keys, against the first fingerprint for the peer
    /// and with the second for this node.
    Authenticate(Keypair, Fingerprint, Fingerprint),
    /// The connection leads to this peer.
    Return(PeerId),
}

/// The model of a [`HandshakeAction`].
pub enum HandshakeActionView {
    OpenStream,
    Negotiate(Seq<char>),
    CreateConnection(Seq<char>, Option<Seq<String>>),
    Signal(bool),
    OpenChannel(Seq<char>),
    Authenticate(Keypair, Fingerprint, Fingerprint),
    Return(PeerId),
}

impl View for HandshakeAction {
    type V = HandshakeActionView;

    open spec fn view(&self) -> HandshakeActionView {
        match *self {
            HandshakeAction::OpenStream => HandshakeActionView::OpenStream,
            HandshakeAction::Negotiate(name) => HandshakeActionView::Negotiate(name@),
            HandshakeAction::CreateConnection(
                algorithm,
                servers,
            ) => HandshakeActionView::CreateConnection(algorithm@, server_urls(servers)),
            HandshakeAction::Signal(initiator) => HandshakeActionView::Signal(initiator),
            HandshakeAction::OpenChannel(name) => HandshakeActionView::OpenChannel(name@),
            HandshakeAction::Authenticate(
                keypair,
                remote,
                local,
            ) => HandshakeActionView::Authenticate(keypair, remote, local),
            HandshakeAction::Return(peer) => HandshakeActionView::Return(peer),
        }
    }
}

/// The stage that follows an event, and the action to take.  An event that does not answer the
/// last action changes nothing.
pub open spec fn handshake_step(
    stage: HandshakeStage,
    terms: HandshakeTerms,
    event: HandshakeEvent,
) -> (HandshakeStage, Option<HandshakeActionView>) {
    match (stage, event) {
        (HandshakeStage::OpeningStream, HandshakeEvent::StreamOpened) => (
            HandshakeStage::Negotiating,
            Some(HandshakeActionView::Negotiate(terms.signaling_protocol)),
        ),
        (HandshakeStage::Negotiating, HandshakeEvent::Negotiated) => (
            HandshakeStage::CreatingConnection,
            Some(HandshakeActionView::CreateConnection("sha-256"@, terms.ice_urls)),
        ),
        (HandshakeStage::CreatingConnection, HandshakeEvent::ConnectionCreated(local)) => (
            HandshakeStage::Signaling(local),
            Some(HandshakeActionView::Signal(true)),
        ),
        (HandshakeStage::Signaling(local), HandshakeEvent::Signaled) => (
            HandshakeStage::OpeningChannel(local),
            Some(HandshakeActionView::OpenChannel("noise"@)),
        ),
        (HandshakeStage::OpeningChannel(local), HandshakeEvent::ChannelOpened) => (
            HandshakeStage::Authenticating,
            Some(
                HandshakeActionView::Authenticate(terms.keypair, terms.remote_fingerprint, local),
            ),
        ),
        (HandshakeStage::Authenticating, HandshakeEvent::Authenticated(peer)) => (
            HandshakeStage::Finished,
            Some(HandshakeActionView::Return(peer)),
        ),
        _ => (stage, None),
    }
}

impl DialRequest {
    /// Goes on with a dial whose relay was to be reserved, or fails as the reservation did.
    pub fn reserved(self, outcome: Result<(), Error>) -> (next: Result<DialRequest, TransportError>)
        ensures
            outcome is Ok ==> next == Ok::<DialRequest, TransportError>(self),
            outcome matches Err(error) ==> next == Err::<DialRequest, TransportError>(
                TransportError::Other(error),
            ),
    {
        match outcome {
            Ok(()) => Ok(self),
            Err(error) => Err(TransportError::Other(error)),
        }
    }

    /// Starts to set up the connection to the peer: a stream over the relay comes first.
    ///
    /// The relay needs a socket address, and the dialed address a usable fingerprint.
    pub fn into_handshake(self, signaling_protocol: &'static str) -> (started: Result<
        (Handshake, HandshakeAction),
        Error,
    >)
        ensures
            started is Ok <==> {
                &&& last_ip(components(self.relay_addr)) is Some
                &&& last_port(components(self.relay_addr)) is Some
                &&& digest_of(components(self.addr)).len() == 32
            },
            started matches Ok((handshake, action)) ==> {
                &&& handshake.stage == HandshakeStage::OpeningStream
                &&& last_ip(components(self.relay_addr)) == Some(handshake.socket_addr.ip)
                &&& last_port(components(self.relay_addr)) == Some(handshake.socket_addr.port)
                &&& fingerprint_digest(handshake.remote_fingerprint) == digest_of(
                    components(self.addr),
                )
                &&& handshake.keypair == self.keypair
                &&& handshake.ice_servers == self.ice_servers
                &&& handshake.signaling_protocol@ == signaling_protocol@
                &&& action@ == HandshakeActionView::OpenStream
            },
            started matches Err(error) ==> error@ == if last_ip(components(self.relay_addr)) is None
                || last_port(components(self.relay_addr)) is None {
                missing_socket_error()
            } else {
                fingerprint_length_error(digest_of(components(self.addr)).len())
            },
    {
        let socket_addr: SocketAddr = match extract_socket_addr(&self.relay_addr) {
            Ok(socket_addr) => socket_addr,
            Err(error) => {
                return Err(error);
            },
        };
        let remote_fingerprint: Fingerprint = match extract_fingerprint(&self.addr) {
            Ok(fingerprint) => fingerprint,
            Err(error) => {
                return Err(error);
            },
        };
        let handshake = Handshake {
            stage: HandshakeStage::OpeningStream,
            socket_addr,
            remote_fingerprint,
            keypair: self.keypair,
            ice_servers: self.ice_servers,
            signaling_protocol,
        };
        Ok((handshake, HandshakeAction::OpenStream))
    }
}

impl Handshake {
    /// What the handshake goes by.
    pub open spec fn terms(self) -> HandshakeTerms {
        HandshakeTerms {
            remote_fingerprint: self.remote_fingerprint,
            keypair: self.keypair,
            ice_urls: server_urls(self.ice_servers),
            signaling_protocol: self.signaling_protocol@,
        }
    }

    /// Takes the event that answers the last action, and gives the next action.  An event that
    /// does not answer the last action changes nothing and asks for nothing.
    pub fn advance(&mut self, event: HandshakeEvent) -> (action: Option<HandshakeAction>)
        ensures
            final(self).keypair == old(self).keypair,
            final(self).remote_fingerprint == old(self).remote_fingerprint,
            final(self).socket_addr == old(self).socket_addr,
            final(self).ice_servers == old(self).ice_servers,
            final(self).signaling_protocol == old(self).signaling_protocol,
            final(self).stage == handshake_step(old(self).stage, old(self).terms(), event).0,
            action is Some <==> handshake_step(
                old(self).stage,
                old(self).terms(),
                event,
            ).1 is Some,
            action matches Some(a) ==> Some(a@) == handshake_step(
                old(self).stage,
                old(self).terms(),
                event,
            ).1,
    {
        match (self.stage, event) {
            (HandshakeStage::OpeningStream, HandshakeEvent::StreamOpened) => {
                self.stage = HandshakeStage::Negotiating;
                Some(HandshakeAction::Negotiate(self.signaling_protocol))
            },
            (HandshakeStage::Negotiating, HandshakeEvent::Negotiated) => {
                self.stage = HandshakeStage::CreatingConnection;
                Some(HandshakeAction::CreateConnection("sha-256", copy_servers(&self.ice_servers)))
            },
            (HandshakeStage::CreatingConnection, HandshakeEvent::ConnectionCreated(local)) => {
                self.stage = HandshakeStage::Signaling(local);
                Some(HandshakeAction::Signal(true))
            },
            (HandshakeStage::Signaling(local), HandshakeEvent::Signaled) => {
                self.stage = HandshakeStage::OpeningChannel(local);
                Some(HandshakeAction::OpenChannel("noise"))
            },
            (HandshakeStage::OpeningChannel(local), HandshakeEvent::ChannelOpened) => {
                self.stage = HandshakeStage::Authenticating;
                Some(
                    HandshakeAction::Authenticate(
                        self.keypair.clone(),
                        self.remote_fingerprint,
                        local,
                    ),
                )
            },
            (HandshakeStage::Authenticating, HandshakeEvent::Authenticated(peer)) => {
                self.stage = HandshakeStage::Finished;
                Some(HandshakeAction::Return(peer))
            },
            _ => None,
        }
    }
}

/// The connection to a peer is set up in one order: the signaling protocol of the handshake is
/// negotiated, the peer connection is created with the ICE servers of the handshake, and the
/// peers authenticate each other with the keys of this node, against the fingerprint that the
/// handshake began with and with the fingerprint that the peer connection was created with.
pub proof fn law_handshake_runs_in_order(terms: HandshakeTerms, local: Fingerprint, peer: PeerId)
    ensures
        ({
            let start = HandshakeStage::OpeningStream;
            let (s1, a1) = handshake_step(start, terms, HandshakeEvent::StreamOpened);
            let (s2, a2) = handshake_step(s1, terms, HandshakeEvent::Negotiated);
            let (s3, a3) = handshake_step(s2, terms, HandshakeEvent::ConnectionCreated(local));
            let (s4, a4) = handshake_step(s3, terms, HandshakeEvent::Signaled);
            let (s5, a5) = handshake_step(s4, terms, HandshakeEvent::ChannelOpened);
            let (s6, a6) = handshake_step(s5, terms, HandshakeEvent::Authenticated(peer));
            &&& a1 == Some(HandshakeActionView::Negotiate(terms.signaling_protocol))
            &&& a2 == Some(HandshakeActionView::CreateConnection("sha-256"@, terms.ice_urls))
            &&& a3 == Some(HandshakeActionView::Signal(true))
            &&& a4 == Some(HandshakeActionView::OpenChannel("noise"@))
            &&& a5 == Some(
                HandshakeActionView::Authenticate(terms.keypair, terms.remote_fingerprint, local),
            )
            &&& a6 == Some(HandshakeActionView::Return(peer))
            &&& s6 == HandshakeStage::Finished
        }),
{
}

/// Every peer connection that a dial creates has the configured STUN servers as its ICE servers,
/// one each and in order, and none where none is configured.
pub proof fn law_connections_have_the_configured_servers(
    stun_servers: Seq<String>,
    handshake: Handshake,
    event: HandshakeEvent,
)
    requires
        server_urls(handshake.ice_servers) == ice_urls(stun_servers),
    ensures
        handshake_step(handshake.stage, handshake.terms(), event).1 matches Some(action) ==> (
        action is CreateConnection ==> action->CreateConnection_1 == ice_urls(stun_servers)),
{
}

/// A peer is handed out only once it was authenticated, and it is the peer that was.
pub proof fn law_only_authenticated_peers_are_returned(
    stage: HandshakeStage,
    terms: HandshakeTerms,
    event: HandshakeEvent,
)
    ensures
        handshake_step(stage, terms, event).1 matches Some(action) ==> (action is Return ==> {
            &&& stage is Authenticating
            &&& event == HandshakeEvent::Authenticated(action->Return_0)
        }),
{
}

/// A handshake goes by its own keys, fingerprint, ICE servers and signaling protocol.
pub proof fn law_terms_are_those_of_the_handshake(handshake: Handshake)
    ensures
        handshake.terms().keypair == handshake.keypair,
        handshake.terms().remote_fingerprint == handshake.remote_fingerprint,
        handshake.terms().ice_urls == server_urls(handshake.ice_servers),
        handshake.terms().signaling_protocol == handshake.signaling_protocol@,
{
}

/// There are ICE servers if and only if there are STUN servers, and then they are the same, one
/// each and in order.
pub proof fn law_ice_servers_are_the_stun_servers(
    servers: Option<Vec<IceServer>>,
    stun_servers: Seq<String>,
)
    ensures
        server_urls(servers) == ice_urls(stun_servers) ==> {
            &&& servers is None <==> stun_servers.len() == 0
            &&& servers matches Some(list) ==> {
                &&& list@.len() == stun_servers.len()
                &&& forall|i: int|
                    0 <= i < stun_servers.len() ==> (#[trigger] list@[i]).urls == stun_servers[i]
            }
        },
{
    if let Some(list) = servers {
        if server_urls(servers) == ice_urls(stun_servers) {
            assert forall|i: int| 0 <= i < stun_servers.len() implies (#[trigger] list@[i]).urls
                == stun_servers[i] by {
                assert(server_urls(servers)->0[i] == list@[i].urls);
            }
        }
    }
}

/// An event that does not answer the last action leaves a handshake where it is.
pub proof fn law_handshake_waits_for_its_answer(
    stage: HandshakeStage,
    terms: HandshakeTerms,
    event: HandshakeEvent,
)
    requires
        stage is OpeningStream ==> !(event is StreamOpened),
        stage is Negotiating ==> !(event is Negotiated),
        stage is CreatingConnection ==> !(event is ConnectionCreated),
        stage is Signaling ==> !(event is Signaled),
        stage is OpeningChannel ==> !(event is ChannelOpened),
        stage is Authenticating ==> !(event is Authenticated),
    ensures
        handshake_step(stage, terms, event) == (stage, None::<HandshakeActionView>),
{
}

/// Each stage of a handshake leads to one next stage and one action, which rest on nothing but
/// the terms and on what the events brought.
pub proof fn law_handshake_steps(terms: HandshakeTerms, local: Fingerprint, peer: PeerId)
    ensures
        handshake_step(HandshakeStage::OpeningStream, terms, HandshakeEvent::StreamOpened) == (
            HandshakeStage::Negotiating,
            Some(HandshakeActionView::Negotiate(terms.signaling_protocol)),
        ),
        handshake_step(HandshakeStage::Negotiating, terms, HandshakeEvent::Negotiated) == (
            HandshakeStage::CreatingConnection,
            Some(HandshakeActionView::CreateConnection("sha-256"@, terms.ice_urls)),
        ),
        handshake_step(
            HandshakeStage::CreatingConnection,
            terms,
            HandshakeEvent::ConnectionCreated(local),
        ) == (HandshakeStage::Signaling(local), Some(HandshakeActionView::Signal(true))),
        handshake_step(HandshakeStage::Signaling(local), terms, HandshakeEvent::Signaled) == (
            HandshakeStage::OpeningChannel(local),
            Some(HandshakeActionView::OpenChannel("noise"@)),
        ),
        handshake_step(HandshakeStage::OpeningChannel(local), terms, HandshakeEvent::ChannelOpened)
            == (
            HandshakeStage::Authenticating,
            Some(
                HandshakeActionView::Authenticate(terms.keypair, terms.remote_fingerprint, local),
            ),
        ),
        handshake_step(HandshakeStage::Authenticating, terms, HandshakeEvent::Authenticated(peer))
            == (HandshakeStage::Finished, Some(HandshakeActionView::Return(peer))),
{
}

/// The view of an action says which one it is, and all that it holds.
pub proof fn law_handshake_action_is_what_its_view_says(action: HandshakeAction)
    ensures
        match action {
            HandshakeAction::OpenStream => action@ is OpenStream,
            HandshakeAction::Negotiate(name) => action@ == HandshakeActionView::Negotiate(name@),
            HandshakeAction::CreateConnection(
                algorithm,
                servers,
            ) => action@ == HandshakeActionView::CreateConnection(
                algorithm@,
                server_urls(servers),
            ),
            HandshakeAction::Signal(initiator) => action@ == HandshakeActionView::Signal(initiator),
            HandshakeAction::OpenChannel(name) => action@ == HandshakeActionView::OpenChannel(
                name@,
            ),
            HandshakeAction::Authenticate(
                keypair,
                remote,
                local,
            ) => action@ == HandshakeActionView::Authenticate(keypair, remote, local),
            HandshakeAction::Return(peer) => action@ == HandshakeActionView::Return(peer),
        },
{
}

/// The dial that a step belongs to is the one that it holds.
pub proof fn law_step_holds_its_dial(request: DialRequest)
    ensures
        dial_request(DialStep::Reserve(request)) == request,
        dial_request(DialStep::Connect(request)) == request,
{
}

} // verus!
