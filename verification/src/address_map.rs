//! A map from multiaddresses to values.
use crate::multiaddr::{multiaddr_bytes, same_multiaddr};
use libp2p_core::Multiaddr;
use vstd::prelude::*;

verus! {

/// A map from multiaddresses to values.  No address occurs twice.
pub struct AddressMap<V> {
    entries: Vec<(Multiaddr, V)>,
}

/// Whether no address occurs twice.
spec fn distinct<V>(entries: Seq<(Multiaddr, V)>) -> bool {
    forall|i: int, j: int|
        0 <= i < j < entries.len() ==> multiaddr_bytes((#[trigger] entries[i]).0)
            != multiaddr_bytes((#[trigger] entries[j]).0)
}

/// The map that entries stand for, by the binary forms of the addresses.
spec fn entries_map<V>(entries: Seq<(Multiaddr, V)>) -> Map<Seq<u8>, V>
    decreases entries.len(),
{
    if entries.len() == 0 {
        Map::empty()
    } else {
        entries_map(entries.drop_last()).insert(
            multiaddr_bytes(entries.last().0),
            entries.last().1,
        )
    }
}

/// Every entry is in the map, and the map holds nothing else.
proof fn lemma_entries_map<V>(entries: Seq<(Multiaddr, V)>)
    requires
        distinct(entries),
    ensures
        forall|i: int|
            0 <= i < entries.len() ==> entries_map(entries).contains_key(
                multiaddr_bytes((#[trigger] entries[i]).0),
            ) && entries_map(entries)[multiaddr_bytes(entries[i].0)] == entries[i].1,
        forall|key: Seq<u8>| #[trigger]
            entries_map(entries).contains_key(key) ==> exists|i: int|
                0 <= i < entries.len() && multiaddr_bytes((#[trigger] entries[i]).0) == key,
    decreases entries.len(),
{
    if entries.len() > 0 {
        let shorter = entries.drop_last();
        let last = entries.len() - 1;
        assert forall|i: int, j: int| 0 <= i < j < shorter.len() implies multiaddr_bytes(
            (#[trigger] shorter[i]).0,
        ) != multiaddr_bytes((#[trigger] shorter[j]).0) by {
            assert(shorter[i] == entries[i] && shorter[j] == entries[j]);
        }
        lemma_entries_map(shorter);
        assert forall|i: int| 0 <= i < entries.len() implies entries_map(entries).contains_key(
            multiaddr_bytes((#[trigger] entries[i]).0),
        ) && entries_map(entries)[multiaddr_bytes(entries[i].0)] == entries[i].1 by {
            if i < last {
                assert(shorter[i] == entries[i]);
                assert(multiaddr_bytes(entries[i].0) != multiaddr_bytes(entries[last].0));
            }
        }
        assert forall|key: Seq<u8>| #[trigger]
            entries_map(entries).contains_key(key) implies exists|i: int|
            0 <= i < entries.len() && multiaddr_bytes((#[trigger] entries[i]).0) == key by {
            if key == multiaddr_bytes(entries[last].0) {
                assert(entries[last].0 == entries.last().0);
            } else {
                assert(entries_map(shorter).contains_key(key));
                let i = choose|i: int|
                    0 <= i < shorter.len() && multiaddr_bytes((#[trigger] shorter[i]).0) == key;
                assert(entries[i] == shorter[i]);
            }
        }
    }
}

impl<V> View for AddressMap<V> {
    type V = Map<Seq<u8>, V>;

    closed spec fn view(&self) -> Map<Seq<u8>, V> {
        entries_map(self.entries@)
    }
}

impl<V> AddressMap<V> {
    #[verifier::type_invariant]
    spec fn well_formed(self) -> bool {
        distinct(self.entries@)
    }

    /// The empty map.
    pub fn new() -> (map: Self)
        ensures
            map@ == Map::<Seq<u8>, V>::empty(),
    {
        AddressMap { entries: Vec::new() }
    }

    /// The position of an address, or the number of entries where it does not occur.
    fn position(&self, addr: &Multiaddr) -> (index: usize)
        ensures
            index <= self.entries@.len(),
            index < self.entries@.len() ==> multiaddr_bytes(self.entries@[index as int].0)
                == multiaddr_bytes(*addr),
            index == self.entries@.len() ==> forall|i: int|
                0 <= i < self.entries@.len() ==> multiaddr_bytes((#[trigger] self.entries@[i]).0)
                    != multiaddr_bytes(*addr),
    {
        let mut index: usize = 0;
        while index < self.entries.len()
            invariant
                index <= self.entries@.len(),
                forall|i: int|
                    0 <= i < index ==> multiaddr_bytes((#[trigger] self.entries@[i]).0)
                        != multiaddr_bytes(*addr),
            decreases self.entries@.len() - index,
        {
            if same_multiaddr(&self.entries[index].0, addr) {
                return index;
            }
            index = index + 1;
        }
        index
    }

    /// The value at an address.
    pub fn get(&self, addr: &Multiaddr) -> (value: Option<&V>)
        ensures
            value is Some <==> self@.contains_key(multiaddr_bytes(*addr)),
            value matches Some(v) ==> *v == self@[multiaddr_bytes(*addr)],
    {
        proof {
            use_type_invariant(self);
            lemma_entries_map(self.entries@);
        }
        let index: usize = self.position(addr);
        if index < self.entries.len() {
            Some(&self.entries[index].1)
        } else {
            None
        }
    }

    /// Puts a value at an address, in place of the value that was there.
    pub fn insert(&mut self, addr: Multiaddr, value: V)
        ensures
            final(self)@ == old(self)@.insert(multiaddr_bytes(addr), value),
    {
        proof {
            use_type_invariant(&*self);
            lemma_entries_map(self.entries@);
        }
        let index: usize = self.position(&addr);
        let mut entries: Vec<(Multiaddr, V)> = Vec::new();
        std::mem::swap(&mut entries, &mut self.entries);
        let ghost before = entries@;
        if index < entries.len() {
            entries.set(index, (addr, value));
        } else {
            entries.push((addr, value));
        }
        proof {
            assert(distinct(entries@));
            lemma_entries_map(entries@);
            let updated = entries_map(before).insert(multiaddr_bytes(addr), value);
            assert forall|key: Seq<u8>|
                entries_map(entries@).contains_key(key) == #[trigger] updated.contains_key(key)
                    && (updated.contains_key(key) ==> entries_map(entries@)[key] == updated[key]) by {
                if entries_map(entries@).contains_key(key) {
                    let i = choose|i: int|
                        0 <= i < entries@.len() && multiaddr_bytes((#[trigger] entries@[i]).0)
                            == key;
                    if i != index {
                        assert(entries@[i] == before[i]);
                        assert(multiaddr_bytes(entries@[i].0) != multiaddr_bytes(
                            entries@[index as int].0,
                        ));
                    }
                }
                if updated.contains_key(key) && key != multiaddr_bytes(addr) {
                    let i = choose|i: int|
                        0 <= i < before.len() && multiaddr_bytes((#[trigger] before[i]).0) == key;
                    assert(entries@[i] == before[i]);
                } else if updated.contains_key(key) {
                    assert(multiaddr_bytes(entries@[index as int].0) == key);
                }
            }
            assert(entries_map(entries@) =~= updated);
        }
        self.entries = entries;
    }
}

} // verus!
