//! The steps by which a spot on a relay is reserved.
use crate::dial::{DialOpts, Endpoint, PortUse};
use crate::error::{Error, ErrorView};
use crate::hop::{hop_protocol_name, reservation_error, reserve_message, HopMessage, Status};
use crate::multiaddr::{multiaddr_bytes, multiaddr_valid, parse_multiaddr};
use libp2p_core::Multiaddr;
use vstd::prelude::*;

verus! {

/// How far a reservation has come.  `C` is a connection to a relay.
#[derive(Debug)]
pub enum ReserveStage<C> {
    /// The relay is being dialed.
    Dialing,
    /// A stream is being opened over the connection.
    OpeningStream(C),
    /// The protocol for requests to the relay is being negotiated on the stream.
    Negotiating(C),
    /// The request is being sent.
    Sending(C),
    /// The stream is being flushed.
    Flushing(C),
    /// The answer is awaited.
    Receiving(C),
    /// The outcome is known.
    Finished,
}

/// A reservation that is under way.
#[derive(Debug)]
pub struct PendingReservation<C> {
    pub relay_addr: Multiaddr,
    pub stage: ReserveStage<C>,
}

/// What happened to the last [`ReserveAction`].
pub enum ReserveEvent<C> {
    /// The relay answered the dial.
    Dialed(C),
    StreamOpened,
    Negotiated,
    Sent,
    Flushed,
    /// The relay answered the request.
    Received(HopMessage),
}

/// What a reservation needs next.
pub enum ReserveAction {
    /// Dial the relay.
    Dial(Multiaddr, DialOpts),
    /// Open a stream over the connection.
    OpenStream,
    /// Negotiate the protocol of this name, and no other, on the stream.
    Negotiate(String),
    /// Send a message to the relay.
    Send(HopMessage),
    /// Flush the stream.
    Flush,
    /// Await the answer of the relay.
    Receive,
    /// The spot is reserved: listen for relayed connections on this address.
    Listen(Multiaddr),
    /// The reservation failed.
    Fail(Error),
}

/// The model of a [`ReserveAction`].
pub enum ReserveActionView {
    Dial(Multiaddr, DialOpts),
    OpenStream,
    Negotiate(Seq<char>),
    Send(HopMessage),
    Flush,
    Receive,
    Listen(Multiaddr),
    Fail(ErrorView),
}

impl View for ReserveAction {
    type V = ReserveActionView;

    open spec fn view(&self) -> ReserveActionView {
        match *self {
            ReserveAction::Dial(addr, opts) => ReserveActionView::Dial(addr, opts),
            ReserveAction::OpenStream => ReserveActionView::OpenStream,
            ReserveAction::Negotiate(name) => ReserveActionView::Negotiate(name@),
            ReserveAction::Send(message) => ReserveActionView::Send(message),
            ReserveAction::Flush => ReserveActionView::Flush,
            ReserveAction::Receive => ReserveActionView::Receive,
            ReserveAction::Listen(addr) => ReserveActionView::Listen(addr),
            ReserveAction::Fail(error) => ReserveActionView::Fail(error@),
        }
    }
}

/// How a relay is dialed.
pub open spec fn relay_dial_opts() -> DialOpts {
    DialOpts { role: Endpoint::Dialer, port_use: PortUse::New }
}

/// The action to take once the relay answered with a status.
pub open spec fn answer_action(relay_addr: Multiaddr, answer: HopMessage) -> ReserveActionView {
    match reservation_error(answer.status) {
        None => ReserveActionView::Listen(relay_addr),
        Some(error) => ReserveActionView::Fail(error),
    }
}

/// The stage that follows an event, and the action to take.  An event that does not answer the
/// last action changes nothing.
pub open spec fn reserve_step<C>(
    relay_addr: Multiaddr,
    stage: ReserveStage<C>,
    event: ReserveEvent<C>,
) -> (ReserveStage<C>, Option<ReserveActionView>) {
    match (stage, event) {
        (ReserveStage::Dialing, ReserveEvent::Dialed(connection)) => (
            ReserveStage::OpeningStream(connection),
            Some(ReserveActionView::OpenStream),
        ),
        (ReserveStage::OpeningStream(connection), ReserveEvent::StreamOpened) => (
            ReserveStage::Negotiating(connection),
            Some(ReserveActionView::Negotiate(hop_protocol_name())),
        ),
        (ReserveStage::Negotiating(connection), ReserveEvent::Negotiated) => (
            ReserveStage::Sending(connection),
            Some(ReserveActionView::Send(reserve_message())),
        ),
        (ReserveStage::Sending(connection), ReserveEvent::Sent) => (
            ReserveStage::Flushing(connection),
            Some(ReserveActionView::Flush),
        ),
        (ReserveStage::Flushing(connection), ReserveEvent::Flushed) => (
            ReserveStage::Receiving(connection),
            Some(ReserveActionView::Receive),
        ),
        (ReserveStage::Receiving(_), ReserveEvent::Received(answer)) => (
            ReserveStage::Finished,
            Some(answer_action(relay_addr, answer)),
        ),
        _ => (stage, None),
    }
}

/// The binary forms of addresses.
pub open spec fn address_bytes(addrs: Seq<Multiaddr>) -> Seq<Seq<u8>> {
    Seq::new(addrs.len(), |i: int| multiaddr_bytes(addrs[i]))
}

/// Byte strings as sequences.
pub open spec fn byte_strings(list: Seq<Vec<u8>>) -> Seq<Seq<u8>> {
    Seq::new(list.len(), |i: int| list[i]@)
}

/// Those byte strings that are binary forms of addresses, in their order.
pub open spec fn valid_addresses(list: Seq<Seq<u8>>) -> Seq<Seq<u8>> {
    list.filter(|bytes: Seq<u8>| multiaddr_valid(bytes))
}

/// Decodes addresses, and leaves out the byte strings that are not addresses.
pub fn decode_addresses(list: &Vec<Vec<u8>>) -> (addrs: Vec<Multiaddr>)
    ensures
        address_bytes(addrs@) == valid_addresses(byte_strings(list@)),
{
    let ghost strings = byte_strings(list@);
    let ghost valid = |bytes: Seq<u8>| multiaddr_valid(bytes);
    let mut addrs: Vec<Multiaddr> = Vec::new();
    let mut index: usize = 0;
    assert(strings.take(0) =~= Seq::empty());
    assert(address_bytes(addrs@) =~= strings.take(0).filter(valid)) by {
        reveal(Seq::filter);
    }
    while index < list.len()
        invariant
            index <= list@.len(),
            strings == byte_strings(list@),
            valid == (|bytes: Seq<u8>| multiaddr_valid(bytes)),
            address_bytes(addrs@) == strings.take(index as int).filter(valid),
        decreases list@.len() - index,
    {
        let ghost before = addrs@;
        proof {
            assert(strings.take(index + 1).drop_last() =~= strings.take(index as int));
            assert(strings.take(index + 1).last() == list@[index as int]@);
            reveal(Seq::filter);
        }
        match parse_multiaddr(&list[index]) {
            Some(addr) => {
                addrs.push(addr);
                assert(address_bytes(addrs@) =~= address_bytes(before).push(
                    multiaddr_bytes(addr),
                ));
            },
            None => {},
        }
        index = index + 1;
    }
    assert(strings.take(index as int) =~= strings);
    addrs
}

/// A reservation goes through its steps in one order: a stream is opened over the connection,
/// the protocol for requests to a relay is negotiated, the request is sent and flushed, and the
/// answer, once it is in, decides.
pub proof fn law_reservation_runs_in_order<C>(
    relay_addr: Multiaddr,
    connection: C,
    answer: HopMessage,
)
    ensures
        ({
            let start = ReserveStage::<C>::Dialing;
            let (s1, a1) = reserve_step(relay_addr, start, ReserveEvent::Dialed(connection));
            let (s2, a2) = reserve_step(relay_addr, s1, ReserveEvent::StreamOpened);
            let (s3, a3) = reserve_step(relay_addr, s2, ReserveEvent::Negotiated);
            let (s4, a4) = reserve_step(relay_addr, s3, ReserveEvent::Sent);
            let (s5, a5) = reserve_step(relay_addr, s4, ReserveEvent::Flushed);
            let (s6, a6) = reserve_step(relay_addr, s5, ReserveEvent::Received(answer));
            &&& a1 == Some(ReserveActionView::OpenStream)
            &&& a2 == Some(ReserveActionView::Negotiate(hop_protocol_name()))
            &&& a3 == Some(ReserveActionView::Send(reserve_message()))
            &&& a4 == Some(ReserveActionView::Flush)
            &&& a5 == Some(ReserveActionView::Receive)
            &&& s5 == ReserveStage::Receiving(connection)
            &&& a6 == Some(answer_action(relay_addr, answer))
            &&& s6 == ReserveStage::<C>::Finished
        }),
{
}

/// A spot counts as reserved only on the word of the relay: no step but the one that takes an
/// answer with [`Status::OK`] asks to listen, and then on the relay's own address.
pub proof fn law_listens_only_when_granted<C>(
    relay_addr: Multiaddr,
    stage: ReserveStage<C>,
    event: ReserveEvent<C>,
)
    ensures
        reserve_step(relay_addr, stage, event).1 matches Some(action) ==> (action is Listen ==> {
            &&& action == ReserveActionView::Listen(relay_addr)
            &&& stage is Receiving
            &&& event is Received
            &&& event->Received_0.status == Some(Status::OK)
        }),
{
}

/// A finished reservation asks for nothing more.
pub proof fn law_finished_reservation_rests<C>(relay_addr: Multiaddr, event: ReserveEvent<C>)
    ensures
        reserve_step(relay_addr, ReserveStage::Finished, event) == (
            ReserveStage::<C>::Finished,
            None::<ReserveActionView>,
        ),
{
}

/// Every answer with [`Status::OK`], whatever else it says, ends the reservation with the request
/// to listen on the address of the relay.
pub proof fn law_granted_reservation_listens<C>(
    relay_addr: Multiaddr,
    connection: C,
    answer: HopMessage,
)
    requires
        answer.status == Some(Status::OK),
    ensures
        reserve_step(
            relay_addr,
            ReserveStage::Receiving(connection),
            ReserveEvent::Received(answer),
        ) == (ReserveStage::<C>::Finished, Some(ReserveActionView::Listen(relay_addr))),
{
}

/// Every answer with another status, or with none, ends the reservation with the error for that
/// status, whatever else the answer says.
pub proof fn law_refused_reservation_fails<C>(
    relay_addr: Multiaddr,
    connection: C,
    answer: HopMessage,
)
    requires
        answer.status != Some(Status::OK),
    ensures
        reservation_error(answer.status) is Some,
        reserve_step(
            relay_addr,
            ReserveStage::Receiving(connection),
            ReserveEvent::Received(answer),
        ) == (
            ReserveStage::<C>::Finished,
            Some(ReserveActionView::Fail(reservation_error(answer.status)->0)),
        ),
{
}

/// Until the answer is in, a reservation keeps the connection that was dialed, and each event
/// leads to the next step alone.
pub proof fn law_reservation_keeps_its_connection<C>(relay_addr: Multiaddr, connection: C)
    ensures
        relay_dial_opts().role is Dialer,
        relay_dial_opts().port_use is New,
        reserve_step(relay_addr, ReserveStage::Dialing, ReserveEvent::Dialed(connection)) == (
            ReserveStage::OpeningStream(connection),
            Some(ReserveActionView::OpenStream),
        ),
        reserve_step(
            relay_addr,
            ReserveStage::OpeningStream(connection),
            ReserveEvent::StreamOpened,
        ) == (
            ReserveStage::Negotiating(connection),
            Some(ReserveActionView::Negotiate("/libp2p/circuit/relay/0.2.0/hop"@)),
        ),
        reserve_step(
            relay_addr,
            ReserveStage::Negotiating(connection),
            ReserveEvent::Negotiated,
        ) == (
            ReserveStage::Sending(connection),
            Some(ReserveActionView::Send(reserve_message())),
        ),
        reserve_step(relay_addr, ReserveStage::Sending(connection), ReserveEvent::Sent) == (
            ReserveStage::Flushing(connection),
            Some(ReserveActionView::Flush),
        ),
        reserve_step(relay_addr, ReserveStage::Flushing(connection), ReserveEvent::Flushed) == (
            ReserveStage::Receiving(connection),
            Some(ReserveActionView::Receive),
        ),
{
}

/// An event that does not answer the last action leaves a reservation where it is.
pub proof fn law_reservation_waits_for_its_answer<C>(
    relay_addr: Multiaddr,
    stage: ReserveStage<C>,
    event: ReserveEvent<C>,
)
    requires
        stage is Dialing ==> !(event is Dialed),
        stage is OpeningStream ==> !(event is StreamOpened),
        stage is Negotiating ==> !(event is Negotiated),
        stage is Sending ==> !(event is Sent),
        stage is Flushing ==> !(event is Flushed),
        stage is Receiving ==> !(event is Received),
    ensures
        reserve_step(relay_addr, stage, event) == (stage, None::<ReserveActionView>),
{
}

/// The view of an action says which one it is, and all that it holds.
pub proof fn law_reserve_action_is_what_its_view_says(action: ReserveAction)
    ensures
        match action {
            ReserveAction::Dial(addr, opts) => action@ == ReserveActionView::Dial(addr, opts),
            ReserveAction::OpenStream => action@ is OpenStream,
            ReserveAction::Negotiate(name) => action@ == ReserveActionView::Negotiate(name@),
            ReserveAction::Send(message) => action@ == ReserveActionView::Send(message),
            ReserveAction::Flush => action@ is Flush,
            ReserveAction::Receive => action@ is Receive,
            ReserveAction::Listen(addr) => action@ == ReserveActionView::Listen(addr),
            ReserveAction::Fail(error) => action@ == ReserveActionView::Fail(error@),
        },
{
}

/// Of the byte strings that came with a reservation exactly those are kept that are binary forms
/// of addresses, each as often as it came, and in their order.
pub proof fn law_exactly_the_valid_addresses_are_kept(list: Seq<Seq<u8>>, bytes: Seq<u8>)
    ensures
        valid_addresses(Seq::<Seq<u8>>::empty()) == Seq::<Seq<u8>>::empty(),
        multiaddr_valid(bytes) ==> valid_addresses(list.push(bytes)) == valid_addresses(list).push(
            bytes,
        ),
        !multiaddr_valid(bytes) ==> valid_addresses(list.push(bytes)) == valid_addresses(list),
{
    reveal(Seq::filter);
    assert(list.push(bytes).drop_last() =~= list);
    assert(valid_addresses(Seq::<Seq<u8>>::empty()) =~= Seq::<Seq<u8>>::empty());
}

/// Lists of addresses and of byte strings are compared element by element.
pub proof fn law_lists_are_viewed_element_by_element(addrs: Seq<Multiaddr>, list: Seq<Vec<u8>>)
    ensures
        address_bytes(addrs).len() == addrs.len(),
        forall|i: int|
            0 <= i < addrs.len() ==> #[trigger] address_bytes(addrs)[i] == multiaddr_bytes(addrs[i]),
        byte_strings(list).len() == list.len(),
        forall|i: int| 0 <= i < list.len() ==> #[trigger] byte_strings(list)[i] == list[i]@,
{
}

} // verus!
