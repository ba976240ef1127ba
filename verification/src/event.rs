//! The events that the transport reports about its listeners.
use crate::error::Error;
use libp2p_core::transport::ListenerId;
use libp2p_core::Multiaddr;
use std::collections::VecDeque;
use vstd::prelude::*;

verus! {

/// `libp2p_core::transport::ListenerId`, carried as an opaque value.
#[verifier::external_type_specification]
#[verifier::external_body]
pub struct ExListenerId(libp2p_core::transport::ListenerId);

/// `<ListenerId as PartialEq>::eq`: whether two IDs are the same.
#[verifier::external_body]
fn same_listener(a: &ListenerId, b: &ListenerId) -> (same: bool)
    ensures
        same == (*a == *b),
{
    a == b
}

/// What the transport reports about a listener.  `U` is a pending inbound connection.
#[derive(Debug)]
pub enum TransportEvent<U> {
    /// A new address is being listened on.
    NewAddress { listener_id: ListenerId, listen_addr: Multiaddr },
    /// An address is no longer being listened on.
    AddressExpired { listener_id: ListenerId, listen_addr: Multiaddr },
    /// A connection is incoming.
    Incoming {
        listener_id: ListenerId,
        upgrade: U,
        local_addr: Multiaddr,
        send_back_addr: Multiaddr,
    },
    /// A listener closed.
    ListenerClosed { listener_id: ListenerId, reason: Result<(), Error> },
    /// A listener met an error and goes on.
    ListenerError { listener_id: ListenerId, error: Error },
}

/// The listener that an event is about.
pub open spec fn listener_of<U>(event: TransportEvent<U>) -> ListenerId {
    match event {
        TransportEvent::NewAddress { listener_id, .. } => listener_id,
        TransportEvent::AddressExpired { listener_id, .. } => listener_id,
        TransportEvent::Incoming { listener_id, .. } => listener_id,
        TransportEvent::ListenerClosed { listener_id, .. } => listener_id,
        TransportEvent::ListenerError { listener_id, .. } => listener_id,
    }
}

/// Whether some event is about a listener.
pub open spec fn mentions<U>(events: Seq<TransportEvent<U>>, id: ListenerId) -> bool {
    exists|i: int| 0 <= i < events.len() && listener_of(#[trigger] events[i]) == id
}

/// The events that are not about a listener, in their order.
pub open spec fn without_listener<U>(events: Seq<TransportEvent<U>>, id: ListenerId) -> Seq<
    TransportEvent<U>,
> {
    events.filter(|event: TransportEvent<U>| listener_of(event) != id)
}

impl<U> TransportEvent<U> {
    /// Whether the event is about a listener.
    pub fn is_about(&self, id: &ListenerId) -> (about: bool)
        ensures
            about == (listener_of(*self) == *id),
    {
        match self {
            TransportEvent::NewAddress { listener_id, .. }
            | TransportEvent::AddressExpired { listener_id, .. }
            | TransportEvent::Incoming { listener_id, .. }
            | TransportEvent::ListenerClosed { listener_id, .. }
            | TransportEvent::ListenerError { listener_id, .. } => same_listener(listener_id, id),
        }
    }
}

/// Drops the events about a listener from a queue, and tells whether there were any.  The
/// other events stay, in their order.
pub fn drop_listener<U>(queue: &mut VecDeque<TransportEvent<U>>, id: &ListenerId) -> (found: bool)
    ensures
        final(queue)@ == without_listener(old(queue)@, *id),
        found == mentions(old(queue)@, *id),
{
    let ghost before = queue@;
    let ghost keeps = |event: TransportEvent<U>| listener_of(event) != *id;
    let count: usize = queue.len();
    let mut found: bool = false;
    let mut done: usize = 0;
    assert(before.take(0) =~= Seq::empty());
    assert(before.take(0).filter(keeps) =~= Seq::empty()) by {
        reveal(Seq::filter);
    }
    assert(queue@ =~= before.skip(0) + before.take(0).filter(keeps));
    while done < count
        invariant
            done <= count == before.len(),
            keeps == (|event: TransportEvent<U>| listener_of(event) != *id),
            queue@ == before.skip(done as int) + before.take(done as int).filter(keeps),
            found == mentions(before.take(done as int), *id),
        decreases count - done,
    {
        let ghost queued = queue@;
        let ghost shorter = before.take(done as int);
        let ghost longer = before.take(done + 1);
        proof {
            assert(queued[0] == before[done as int]);
            assert(queued.skip(1) =~= before.skip(done + 1) + shorter.filter(keeps));
            assert(longer.drop_last() =~= shorter);
            assert(longer.last() == before[done as int]);
            reveal(Seq::filter);
        }
        if let Some(event) = queue.pop_front() {
            assert(event == before[done as int]);
            assert(queue@ =~= before.skip(done + 1) + shorter.filter(keeps));
            if event.is_about(id) {
                found = true;
                assert(longer[done as int] == event);
                assert(mentions(longer, *id));
                assert(longer.filter(keeps) =~= shorter.filter(keeps));
            } else {
                queue.push_back(event);
                assert(longer.filter(keeps) =~= shorter.filter(keeps).push(event));
                assert(mentions(longer, *id) == mentions(shorter, *id)) by {
                    if mentions(shorter, *id) {
                        let i = choose|i: int|
                            0 <= i < shorter.len() && listener_of(#[trigger] shorter[i]) == *id;
                        assert(longer[i] == shorter[i]);
                    }
                    if mentions(longer, *id) {
                        let i = choose|i: int|
                            0 <= i < longer.len() && listener_of(#[trigger] longer[i]) == *id;
                        assert(longer[i] == shorter[i]);
                    }
                }
            }
            assert(queue@ =~= before.skip(done + 1) + longer.filter(keeps));
        }
        done = done + 1;
    }
    assert(before.take(count as int) =~= before);
    assert(queue@ =~= before.filter(keeps));
    found
}

/// The events that are not about a listener are all events of the queue, and are the whole queue
/// where none is about that listener.
pub proof fn lemma_without_listener<U>(events: Seq<TransportEvent<U>>, id: ListenerId)
    ensures
        without_listener(events, id).len() <= events.len(),
        forall|i: int|
            0 <= i < without_listener(events, id).len() ==> listener_of(
                #[trigger] without_listener(events, id)[i],
            ) != id && events.contains(without_listener(events, id)[i]),
        !mentions(events, id) ==> without_listener(events, id) == events,
    decreases events.len(),
{
    let keeps = |event: TransportEvent<U>| listener_of(event) != id;
    reveal(Seq::filter);
    if events.len() > 0 {
        let shorter = events.drop_last();
        lemma_without_listener(shorter, id);
        assert forall|i: int| 0 <= i < without_listener(events, id).len() implies listener_of(
            #[trigger] without_listener(events, id)[i],
        ) != id && events.contains(without_listener(events, id)[i]) by {
            let event = without_listener(events, id)[i];
            if i < without_listener(shorter, id).len() {
                assert(event == without_listener(shorter, id)[i]);
                let k = choose|k: int| 0 <= k < shorter.len() && shorter[k] == event;
                assert(events[k] == event);
            } else {
                assert(event == events.last());
                assert(events[events.len() - 1] == event);
            }
        }
        if !mentions(events, id) {
            assert(listener_of(events[events.len() - 1]) != id);
            assert forall|i: int| 0 <= i < shorter.len() implies listener_of(
                #[trigger] shorter[i],
            ) != id by {
                assert(shorter[i] == events[i]);
            }
            assert(without_listener(events, id) =~= events);
        }
    } else {
        assert(without_listener(events, id) =~= events);
    }
}

/// Once a listener was removed, no event is about it, and to remove it again changes nothing.
pub proof fn law_removed_listener_is_forgotten<U>(events: Seq<TransportEvent<U>>, id: ListenerId)
    ensures
        !mentions(without_listener(events, id), id),
        without_listener(without_listener(events, id), id) == without_listener(events, id),
{
    lemma_without_listener(events, id);
    lemma_without_listener(without_listener(events, id), id);
}

/// To remove a listener leaves the events about every other listener as they are, in their
/// order.
pub proof fn law_other_listeners_are_kept<U>(
    events: Seq<TransportEvent<U>>,
    id: ListenerId,
    other: ListenerId,
)
    requires
        id != other,
    ensures
        without_listener(events, id).filter(
            |event: TransportEvent<U>| listener_of(event) == other,
        ) == events.filter(|event: TransportEvent<U>| listener_of(event) == other),
    decreases events.len(),
{
    let about = |event: TransportEvent<U>| listener_of(event) == other;
    reveal(Seq::filter);
    if events.len() > 0 {
        law_other_listeners_are_kept(events.drop_last(), id, other);
        let kept = without_listener(events, id);
        if listener_of(events.last()) != id {
            assert(kept.drop_last() =~= without_listener(events.drop_last(), id));
            assert(kept.last() == events.last());
        }
    }
}

/// An event about a listener that is removed right behind it leaves no trace.
pub proof fn law_event_about_removed_listener_leaves_no_trace<U>(
    events: Seq<TransportEvent<U>>,
    event: TransportEvent<U>,
)
    ensures
        without_listener(events.push(event), listener_of(event)) == without_listener(
            events,
            listener_of(event),
        ),
{
    reveal(Seq::filter);
    assert(events.push(event).drop_last() =~= events);
}

/// Every event is about the listener that it names, of whatever kind it is.
pub proof fn law_event_is_about_the_listener_it_names<U>(event: TransportEvent<U>)
    ensures
        match event {
            TransportEvent::NewAddress { listener_id, .. } => listener_of(event) == listener_id,
            TransportEvent::AddressExpired { listener_id, .. } => listener_of(event)
                == listener_id,
            TransportEvent::Incoming { listener_id, .. } => listener_of(event) == listener_id,
            TransportEvent::ListenerClosed { listener_id, .. } => listener_of(event)
                == listener_id,
            TransportEvent::ListenerError { listener_id, .. } => listener_of(event) == listener_id,
        },
{
}

/// To remove a listener drops exactly the events about it: one behind the others is dropped where
/// it is about the listener, and stays behind the others where it is not.  A listener is found if
/// and only if some event is about it.
pub proof fn law_exactly_the_events_about_a_listener_are_dropped<U>(
    events: Seq<TransportEvent<U>>,
    event: TransportEvent<U>,
    id: ListenerId,
)
    ensures
        without_listener(Seq::<TransportEvent<U>>::empty(), id) == Seq::<TransportEvent<U>>::empty(),
        listener_of(event) == id ==> without_listener(events.push(event), id) == without_listener(
            events,
            id,
        ),
        listener_of(event) != id ==> without_listener(events.push(event), id) == without_listener(
            events,
            id,
        ).push(event),
        mentions(events, id) <==> exists|i: int|
            0 <= i < events.len() && listener_of(#[trigger] events[i]) == id,
{
    reveal(Seq::filter);
    assert(events.push(event).drop_last() =~= events);
    assert(without_listener(Seq::<TransportEvent<U>>::empty(), id) =~= Seq::<
        TransportEvent<U>,
    >::empty());
}

} // verus!
