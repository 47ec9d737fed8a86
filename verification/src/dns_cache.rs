//! The cache of resolved host names: one address per host, and the first
//! address that was stored for a host stays.

use vstd::prelude::*;
use crate::addr::SocketAddress;
use crate::wire::{bytes_equal, copy_range};

verus! {

/// The map that a list of entries stands for: of two entries for one host the
/// earlier counts.
pub open spec fn first_wins(entries: Seq<(Seq<u8>, SocketAddress)>) -> Map<
    Seq<u8>,
    SocketAddress,
>
    decreases entries.len(),
{
    if entries.len() == 0 {
        Map::empty()
    } else {
        let earlier = first_wins(entries.drop_last());
        if earlier.contains_key(entries.last().0) {
            earlier
        } else {
            earlier.insert(entries.last().0, entries.last().1)
        }
    }
}

/// A host is in the map exactly if some entry names it, and its address is
/// that of the first such entry.
pub proof fn lemma_first_wins(entries: Seq<(Seq<u8>, SocketAddress)>, host: Seq<u8>)
    ensures
        (forall|j: int| 0 <= j < entries.len() ==> entries[j].0 != host) ==> !first_wins(
            entries,
        ).contains_key(host),
        forall|i: int|
            0 <= i < entries.len() && entries[i].0 == host && (forall|j: int|
                0 <= j < i ==> entries[j].0 != host) ==> first_wins(entries).contains_key(host)
                && first_wins(entries)[host] == entries[i].1,
    decreases entries.len(),
{
    if entries.len() > 0 {
        let shorter = entries.drop_last();
        lemma_first_wins(shorter, host);
        assert forall|i: int|
            0 <= i < entries.len() && entries[i].0 == host && (forall|j: int|
                0 <= j < i ==> entries[j].0 != host) implies first_wins(entries).contains_key(host)
            && first_wins(entries)[host] == entries[i].1 by {
            if i < shorter.len() {
                assert(shorter[i] == entries[i]);
                assert forall|j: int| 0 <= j < i implies shorter[j].0 != host by {
                    assert(shorter[j] == entries[j]);
                }
            } else {
                assert forall|j: int| 0 <= j < shorter.len() implies shorter[j].0 != host by {
                    assert(shorter[j] == entries[j]);
                }
            }
        }
        if forall|j: int| 0 <= j < entries.len() ==> entries[j].0 != host {
            assert forall|j: int| 0 <= j < shorter.len() implies shorter[j].0 != host by {
                assert(shorter[j] == entries[j]);
            }
            assert(entries.last().0 != host);
        }
    }
}

/// One entry of the cache.
#[derive(Debug)]
struct DnsEntry {
    host: Vec<u8>,
    address: SocketAddress,
}

/// The cache of resolved host names.
#[derive(Debug)]
pub struct DnsCache {
    entries: Vec<DnsEntry>,
}

impl DnsCache {
    /// The entries as plain values, in the order in which they were stored.
    closed spec fn listed(&self) -> Seq<(Seq<u8>, SocketAddress)> {
        self.entries@.map_values(|entry: DnsEntry| (entry.host@, entry.address))
    }
}

impl View for DnsCache {
    type V = Map<Seq<u8>, SocketAddress>;

    closed spec fn view(&self) -> Map<Seq<u8>, SocketAddress> {
        first_wins(self.listed())
    }
}

/// What a map holds for a key, if anything.
pub open spec fn map_get(map: Map<Seq<u8>, SocketAddress>, host: Seq<u8>) -> Option<
    SocketAddress,
> {
    if map.contains_key(host) {
        Some(map[host])
    } else {
        None
    }
}

/// A map with an entry added, unless the key has one already.
pub open spec fn map_remember(
    map: Map<Seq<u8>, SocketAddress>,
    host: Seq<u8>,
    address: SocketAddress,
) -> Map<Seq<u8>, SocketAddress> {
    if map.contains_key(host) {
        map
    } else {
        map.insert(host, address)
    }
}

impl DnsCache {
    /// The empty cache.
    pub fn new() -> (cache: DnsCache)
        ensures
            cache@ == Map::<Seq<u8>, SocketAddress>::empty(),
    {
        let cache = DnsCache { entries: Vec::new() };
        assert(cache.listed() =~= Seq::empty());
        cache
    }

    /// The address stored for `host`, if any.
    pub fn lookup(&self, host: &[u8]) -> (address: Option<SocketAddress>)
        ensures
            address == map_get(self@, host@),
    {
        let mut i: usize = 0;
        while i < self.entries.len()
            invariant
                i <= self.entries@.len(),
                forall|j: int| 0 <= j < i ==> self.listed()[j].0 != host@,
            decreases self.entries@.len() - i,
        {
            if bytes_equal(self.entries[i].host.as_slice(), host) {
                proof {
                    lemma_first_wins(self.listed(), host@);
                    assert(self.listed()[i as int] == (host@, self.entries@[i as int].address));
                }
                return Some(self.entries[i].address);
            }
            assert(self.listed()[i as int].0 != host@);
            i = i + 1;
        }
        proof {
            lemma_first_wins(self.listed(), host@);
        }
        None
    }

    /// Stores `address` for `host`, unless the host has an address already.
    pub fn remember(&mut self, host: &[u8], address: SocketAddress)
        ensures
            final(self)@ == map_remember(old(self)@, host@, address),
    {
        match self.lookup(host) {
            Some(_) => {},
            None => {
                let name = copy_range(host, 0, host.len());
                assert(name@ =~= host@);
                self.entries.push(DnsEntry { host: name, address });
                assert(self.listed().drop_last() =~= old(self).listed());
                assert(self.listed().last() == (host@, address));
            },
        }
    }
}

} // verus!
