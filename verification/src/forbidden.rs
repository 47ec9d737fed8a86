//! The set of IP addresses that no upstream may resolve to.

use vstd::prelude::*;
use crate::addr::IpAddress;

verus! {

/// The place of an address in the order of the set: IPv4 addresses first,
/// each family by the number that the address denotes.
pub open spec fn ip_rank(ip: IpAddress) -> int {
    match ip {
        IpAddress::V4(a) => a as int,
        IpAddress::V6(a) => 0x1_0000_0000 + a as int,
    }
}

/// Whether `a` comes before `b` in the order of the set.
fn ranks_below(a: IpAddress, b: IpAddress) -> (below: bool)
    ensures
        below == (ip_rank(a) < ip_rank(b)),
{
    match (a, b) {
        (IpAddress::V4(x), IpAddress::V4(y)) => x < y,
        (IpAddress::V4(_), IpAddress::V6(_)) => true,
        (IpAddress::V6(_), IpAddress::V4(_)) => false,
        (IpAddress::V6(x), IpAddress::V6(y)) => x < y,
    }
}

/// Whether the ranks of a sequence of addresses rise strictly.
pub open spec fn strictly_rising(ips: Seq<IpAddress>) -> bool {
    forall|i: int, j: int| 0 <= i < j < ips.len() ==> ip_rank(ips[i]) < ip_rank(ips[j])
}

/// A set of IP addresses, kept in order so that a lookup takes
/// logarithmically many steps.
#[derive(Debug)]
pub struct ForbiddenIps {
    sorted: Vec<IpAddress>,
}

impl View for ForbiddenIps {
    type V = Set<IpAddress>;

    closed spec fn view(&self) -> Set<IpAddress> {
        self.sorted@.to_set()
    }
}

impl ForbiddenIps {
    #[verifier::type_invariant]
    spec fn ordered(self) -> bool {
        strictly_rising(self.sorted@)
    }

    /// The empty set.
    pub fn new() -> (set: ForbiddenIps)
        ensures
            set@ == Set::<IpAddress>::empty(),
    {
        let set = ForbiddenIps { sorted: Vec::new() };
        assert(set@ =~= Set::<IpAddress>::empty());
        set
    }

    /// The index of the first address that does not rank below `ip`.
    fn position(&self, ip: IpAddress) -> (at: usize)
        ensures
            at <= self.sorted@.len(),
            forall|j: int| 0 <= j < at ==> ip_rank(self.sorted@[j]) < ip_rank(ip),
            forall|j: int| at <= j < self.sorted@.len() ==> ip_rank(ip) <= ip_rank(self.sorted@[j]),
    {
        proof {
            use_type_invariant(self);
        }
        let mut low: usize = 0;
        let mut high: usize = self.sorted.len();
        while low < high
            invariant
                low <= high <= self.sorted@.len(),
                strictly_rising(self.sorted@),
                forall|j: int| 0 <= j < low ==> ip_rank(self.sorted@[j]) < ip_rank(ip),
                forall|j: int|
                    high <= j < self.sorted@.len() ==> ip_rank(ip) <= ip_rank(self.sorted@[j]),
            decreases high - low,
        {
            let middle: usize = low + (high - low) / 2;
            if ranks_below(self.sorted[middle], ip) {
                low = middle + 1;
            } else {
                high = middle;
            }
        }
        low
    }

    /// Whether `ip` is in the set.
    pub fn contains(&self, ip: IpAddress) -> (found: bool)
        ensures
            found == self@.contains(ip),
    {
        proof {
            use_type_invariant(self);
        }
        let at: usize = self.position(ip);
        at < self.sorted.len() && self.sorted[at] == ip
    }

    /// Puts `ip` into the set.
    pub fn insert(&mut self, ip: IpAddress)
        ensures
            final(self)@ == old(self)@.insert(ip),
    {
        proof {
            use_type_invariant(&*self);
        }
        let at: usize = self.position(ip);
        if at < self.sorted.len() && self.sorted[at] == ip {
            assert(self@ =~= old(self)@.insert(ip));
        } else {
            proof {
                let before = self.sorted@;
                let after = before.insert(at as int, ip);
                assert forall|i: int, j: int| 0 <= i < j < after.len() implies ip_rank(after[i])
                    < ip_rank(after[j]) by {
                    if j < at {
                        assert(after[i] == before[i] && after[j] == before[j]);
                    } else if j == at {
                        assert(after[i] == before[i]);
                    } else if i < at {
                        assert(after[i] == before[i] && after[j] == before[j - 1]);
                    } else if i == at {
                        assert(after[j] == before[j - 1]);
                    } else {
                        assert(after[i] == before[i - 1] && after[j] == before[j - 1]);
                    }
                }
                assert forall|other: IpAddress|
                    after.to_set().contains(other) <==> before.to_set().insert(ip).contains(
                        other,
                    ) by {
                    if after.contains(other) {
                        let k = choose|k: int| 0 <= k < after.len() && after[k] == other;
                        if k < at {
                            assert(before[k] == other);
                        } else if k > at {
                            assert(before[k - 1] == other);
                        }
                    }
                    if before.contains(other) {
                        let k = choose|k: int| 0 <= k < before.len() && before[k] == other;
                        if k < at {
                            assert(after[k] == other);
                        } else {
                            assert(after[k + 1] == other);
                        }
                    }
                    assert(after[at as int] == ip);
                }
                assert(after.to_set() =~= before.to_set().insert(ip));
            }
            let mut sorted: Vec<IpAddress> = Vec::new();
            std::mem::swap(&mut sorted, &mut self.sorted);
            sorted.insert(at, ip);
            self.sorted = sorted;
        }
    }

    /// The set of the addresses in `ips`.
    pub fn from_list(ips: &Vec<IpAddress>) -> (set: ForbiddenIps)
        ensures
            set@ == ips@.to_set(),
    {
        let mut set = ForbiddenIps::new();
        let mut i: usize = 0;
        while i < ips.len()
            invariant
                i <= ips@.len(),
                set@ == ips@.subrange(0, i as int).to_set(),
            decreases ips@.len() - i,
        {
            set.insert(ips[i]);
            i = i + 1;
            assert(ips@.subrange(0, i as int) =~= ips@.subrange(0, i - 1).push(ips@[i - 1]));
            assert(ips@.subrange(0, i as int).to_set() =~= ips@.subrange(0, i - 1).to_set().insert(
                ips@[i - 1],
            )) by {
                let shorter = ips@.subrange(0, i - 1);
                let longer = shorter.push(ips@[i - 1]);
                assert forall|ip: IpAddress|
                    longer.to_set().contains(ip) <==> shorter.to_set().insert(
                        ips@[i - 1],
                    ).contains(ip) by {
                    if longer.contains(ip) {
                        let k = choose|k: int| 0 <= k < longer.len() && longer[k] == ip;
                        if k < shorter.len() {
                            assert(shorter[k] == ip);
                        }
                    }
                    if shorter.contains(ip) {
                        let k = choose|k: int| 0 <= k < shorter.len() && shorter[k] == ip;
                        assert(longer[k] == ip);
                    }
                    assert(longer[shorter.len() as int] == ips@[i - 1]);
                }
            }
        }
        assert(ips@.subrange(0, i as int) =~= ips@);
        set
    }
}

} // verus!
