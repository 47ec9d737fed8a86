//! What holds of the upstream selector over a whole run: a host is resolved
//! at most once with success, and healthy servers are served in turn.

use vstd::prelude::*;
use vstd::arithmetic::div_mod::{lemma_fundamental_div_mod, lemma_fundamental_div_mod_converse};
use crate::addr::SocketAddress;
use crate::dns_cache::{map_get, map_remember};
use crate::selector::{next_slot, AttemptView, SelectorView};

verus! {

/// What happens to a selector: a connection is taken up with a budget of
/// attempts, or the outcome of a resolution comes in.
pub enum SelectorEvent {
    Pick(nat),
    Resolved(Option<SocketAddress>),
}

/// A model of the name service: what each host resolves to, if to anything.
pub type NameService = spec_fn(Seq<u8>) -> Option<SocketAddress>;

impl SelectorView {
    /// The selector and its answer after one event.
    pub open spec fn step(self, event: SelectorEvent) -> (SelectorView, AttemptView) {
        match event {
            SelectorEvent::Pick(budget) => self.pick(budget),
            SelectorEvent::Resolved(outcome) => self.resolved(outcome),
        }
    }

    /// The selector after a series of events.
    pub open spec fn run(self, events: Seq<SelectorEvent>) -> SelectorView
        decreases events.len(),
    {
        if events.len() == 0 {
            self
        } else {
            self.run(events.drop_last()).step(events.last()).0
        }
    }

    /// Whether every server can be served: its host is known or resolves,
    /// and the address is not forbidden.
    pub open spec fn healthy(self, names: NameService) -> bool {
        forall|slot: int|
            #![trigger self.pool[slot]]
            0 <= slot < self.pool.len() ==> match map_get(self.cache, self.pool[slot].host) {
                Some(address) => self.usable(slot, address),
                None => names(self.pool[slot].host) matches Some(address) && self.usable(
                    slot,
                    address,
                ),
            }
    }

    /// Answers the selector's requests for resolution from `names` until it
    /// asks for no more.
    pub open spec fn settle(self, attempt: AttemptView, names: NameService) -> (
        SelectorView,
        AttemptView,
    )
        decreases self.left, (if attempt is Resolve { 1nat } else { 0nat }),
    {
        match attempt {
            AttemptView::Resolve { host, .. } => {
                let (after, answer) = self.resolved(names(host));
                if answer is Resolve && after.left < self.left {
                    after.settle(answer, names)
                } else {
                    (after, answer)
                }
            },
            _ => (self, attempt),
        }
    }

    /// One connection from start to end: a pick with `budget` attempts, and
    /// every resolution that it asks for.
    pub open spec fn accept(self, budget: nat, names: NameService) -> (SelectorView, AttemptView) {
        let (after, attempt) = self.pick(budget);
        after.settle(attempt, names)
    }

    /// The slots that serve `count` connections in a row; a connection that
    /// no server takes counts as none.
    pub open spec fn served(self, count: nat, budget: nat, names: NameService) -> Seq<
        Option<int>,
    >
        decreases count,
    {
        if count == 0 {
            Seq::empty()
        } else {
            let (after, attempt) = self.accept(budget, names);
            seq![served_by(attempt)] + after.served((count - 1) as nat, budget, names)
        }
    }
}

/// The slot of the server that an answer hands out.
pub open spec fn served_by(attempt: AttemptView) -> Option<int> {
    match attempt {
        AttemptView::Ready(upstream) => Some(upstream.slot),
        _ => None,
    }
}

/// How many of the connections went to `slot`.
pub open spec fn times_served(served: Seq<Option<int>>, slot: int) -> nat
    decreases served.len(),
{
    if served.len() == 0 {
        0
    } else {
        times_served(served.drop_first(), slot) + if served[0] == Some(slot) {
            1nat
        } else {
            0nat
        }
    }
}

/// Going on with a connection leaves the pool and the cache as they are,
/// asks for a host only if the cache does not hold it, and gives up only
/// when the budget is used up.
pub proof fn lemma_advance_asks_unknown_only(s: SelectorView)
    requires
        s.wf(),
    ensures
        s.advance().0.wf(),
        s.advance().0.pool == s.pool,
        s.advance().0.cache == s.cache,
        s.advance().0.left <= s.left,
        s.advance().1 is Exhausted ==> s.advance().0.left == 0,
        s.advance().1 matches AttemptView::Resolve { slot, host } ==> {
            &&& !s.cache.contains_key(host)
            &&& 0 <= slot < s.pool.len()
            &&& host == s.pool[slot].host
            &&& s.advance().0.awaiting == Some(slot)
            &&& s.advance().0.left < s.left
        },
        !(s.advance().1 is Resolve) ==> s.advance().0.awaiting == s.awaiting,
    decreases s.left,
{
    if s.left > 0 {
        let moved = SelectorView {
            cursor: next_slot(s.cursor, s.pool.len() as int),
            left: (s.left - 1) as nat,
            ..s
        };
        lemma_advance_asks_unknown_only(moved);
    }
}

/// An event leaves the pool as it is and takes nothing out of the cache; it
/// asks for a host only if the cache does not hold it.
pub proof fn lemma_step_keeps_cache(s: SelectorView, event: SelectorEvent)
    requires
        s.wf(),
    ensures
        s.step(event).0.wf(),
        s.step(event).0.pool == s.pool,
        s.step(event).0.forbidden == s.forbidden,
        forall|host: Seq<u8>|
            s.cache.contains_key(host) ==> #[trigger] s.step(event).0.cache.contains_key(host)
                && s.step(event).0.cache[host] == s.cache[host],
        s.step(event).1 matches AttemptView::Resolve { host, .. } ==> !s.step(
            event,
        ).0.cache.contains_key(host),
{
    match event {
        SelectorEvent::Pick(budget) => {
            lemma_advance_asks_unknown_only(SelectorView { left: budget, awaiting: None, ..s });
            crate::selector::lemma_pick_never_forbidden(s, budget);
        },
        SelectorEvent::Resolved(outcome) => {
            let settled = SelectorView { awaiting: None, ..s };
            lemma_advance_asks_unknown_only(settled);
            crate::selector::lemma_resolved_never_forbidden(s, outcome);
            match (s.awaiting, outcome) {
                (Some(slot), Some(address)) => {
                    lemma_advance_asks_unknown_only(
                        SelectorView {
                            cache: map_remember(s.cache, s.pool[slot].host, address),
                            ..settled
                        },
                    );
                },
                _ => {},
            }
        },
    }
}

/// A resolution that succeeds is kept: after it the cache holds the host.
pub proof fn lemma_resolution_is_kept(s: SelectorView, address: SocketAddress)
    requires
        s.wf(),
        s.awaiting is Some,
    ensures
        s.resolved(Some(address)).0.cache.contains_key(s.pool[s.awaiting.unwrap()].host),
{
    let slot = s.awaiting.unwrap();
    let learned = SelectorView {
        awaiting: None,
        cache: map_remember(s.cache, s.pool[slot].host, address),
        ..s
    };
    lemma_advance_asks_unknown_only(learned);
}

/// A host that the cache holds stays in it, with its address, whatever
/// events follow.
pub proof fn lemma_known_host_stays_known(
    s: SelectorView,
    events: Seq<SelectorEvent>,
    host: Seq<u8>,
)
    requires
        s.wf(),
        s.cache.contains_key(host),
    ensures
        s.run(events).wf(),
        s.run(events).pool == s.pool,
        s.run(events).cache.contains_key(host),
        s.run(events).cache[host] == s.cache[host],
    decreases events.len(),
{
    if events.len() > 0 {
        lemma_known_host_stays_known(s, events.drop_last(), host);
        lemma_step_keeps_cache(s.run(events.drop_last()), events.last());
    }
}

/// A host that the cache holds is never asked for again: after whatever
/// events, no event makes the selector ask the caller to resolve it.
pub proof fn lemma_known_host_never_resolved_again(
    s: SelectorView,
    events: Seq<SelectorEvent>,
    event: SelectorEvent,
    host: Seq<u8>,
)
    requires
        s.wf(),
        s.cache.contains_key(host),
    ensures
        s.run(events).step(event).1 matches AttemptView::Resolve { host: asked, .. } ==> asked
            != host,
{
    lemma_known_host_stays_known(s, events, host);
    lemma_known_host_stays_known(s, events.push(event), host);
    assert(events.push(event).drop_last() =~= events);
    lemma_step_keeps_cache(s.run(events), event);
}

/// No event, after whatever events, hands out a server at a forbidden
/// address.
pub proof fn lemma_run_never_forbidden(
    s: SelectorView,
    events: Seq<SelectorEvent>,
    event: SelectorEvent,
)
    requires
        s.wf(),
    ensures
        s.run(events).wf(),
        s.run(events).forbidden == s.forbidden,
        s.run(events).step(event).1 matches AttemptView::Ready(upstream) ==> !s.forbidden.contains(
            upstream.address.spec_ip(),
        ),
    decreases events.len(),
{
    if events.len() > 0 {
        lemma_run_never_forbidden(s, events.drop_last(), events.last());
        lemma_step_keeps_cache(s.run(events.drop_last()), events.last());
    }
    match event {
        SelectorEvent::Pick(budget) => {
            crate::selector::lemma_pick_never_forbidden(s.run(events), budget);
        },
        SelectorEvent::Resolved(outcome) => {
            crate::selector::lemma_resolved_never_forbidden(s.run(events), outcome);
        },
    }
}

/// Answering the selector's requests ends with a decision: a server is
/// handed out, or every attempt of the budget has been made.
pub proof fn lemma_settle_decides(s: SelectorView, attempt: AttemptView, names: NameService)
    requires
        s.wf(),
        attempt matches AttemptView::Resolve { slot, .. } ==> s.awaiting == Some(slot),
        attempt is Exhausted ==> s.left == 0,
    ensures
        s.settle(attempt, names).0.wf(),
        s.settle(attempt, names).0.pool == s.pool,
        !(s.settle(attempt, names).1 is Resolve),
        s.settle(attempt, names).1 is Exhausted ==> s.settle(attempt, names).0.left == 0,
    decreases s.left, (if attempt is Resolve { 1nat } else { 0nat }),
{
    match attempt {
        AttemptView::Resolve { host, .. } => {
            let outcome = names(host);
            let (after, answer) = s.resolved(outcome);
            let settled = SelectorView { awaiting: None, ..s };
            lemma_advance_asks_unknown_only(settled);
            match (s.awaiting, outcome) {
                (Some(slot), Some(address)) => {
                    lemma_advance_asks_unknown_only(
                        SelectorView {
                            cache: map_remember(s.cache, s.pool[slot].host, address),
                            ..settled
                        },
                    );
                },
                _ => {},
            }
            if answer is Resolve {
                lemma_settle_decides(after, answer, names);
            }
        },
        _ => {},
    }
}

/// A connection ends with a decision: a server is handed out, or every
/// attempt of the budget has been made without one.
pub proof fn lemma_accept_decides(s: SelectorView, budget: nat, names: NameService)
    requires
        s.wf(),
    ensures
        s.accept(budget, names).0.wf(),
        !(s.accept(budget, names).1 is Resolve),
        s.accept(budget, names).1 is Exhausted ==> s.accept(budget, names).0.left == 0,
{
    let begun = SelectorView { left: budget, awaiting: None, ..s };
    lemma_advance_asks_unknown_only(begun);
    let (after, attempt) = s.pick(budget);
    lemma_settle_decides(after, attempt, names);
}

/// With every server healthy, a connection is served by the server at the
/// cursor, the cursor moves on by one, and every server is healthy still.
pub proof fn lemma_healthy_accept(s: SelectorView, budget: nat, names: NameService)
    requires
        s.wf(),
        s.healthy(names),
        budget >= 1,
    ensures
        served_by(s.accept(budget, names).1) == Some(s.cursor),
        s.accept(budget, names).0.wf(),
        s.accept(budget, names).0.healthy(names),
        s.accept(budget, names).0.pool == s.pool,
        s.accept(budget, names).0.cursor == next_slot(s.cursor, s.pool.len() as int),
{
    let slot = s.cursor;
    let host = s.pool[slot].host;
    let begun = SelectorView { left: budget, awaiting: None, ..s };
    let moved = SelectorView {
        cursor: next_slot(s.cursor, s.pool.len() as int),
        left: (budget - 1) as nat,
        ..begun
    };
    match map_get(s.cache, host) {
        Some(address) => {
            assert(s.usable(slot, address));
            assert(begun.advance() == (moved, AttemptView::Ready(begun.upstream(slot, address))));
            assert(moved.healthy(names)) by {
                assert forall|other: int|
                    #![trigger moved.pool[other]]
                    0 <= other < moved.pool.len() implies match map_get(
                    moved.cache,
                    moved.pool[other].host,
                ) {
                    Some(a) => moved.usable(other, a),
                    None => names(moved.pool[other].host) matches Some(a) && moved.usable(other, a),
                } by {
                    let _ = s.pool[other];
                }
            }
        },
        None => {
            let asked = SelectorView { awaiting: Some(slot), ..moved };
            assert(begun.advance() == (asked, AttemptView::Resolve { slot, host }));
            let address = names(host).unwrap();
            assert(s.usable(slot, address));
            let learned = SelectorView {
                awaiting: None,
                cache: map_remember(asked.cache, host, address),
                ..asked
            };
            assert(asked.resolved(names(host)) == (
                learned,
                AttemptView::Ready(asked.upstream(slot, address)),
            ));
            assert(learned.healthy(names)) by {
                assert forall|other: int|
                    #![trigger learned.pool[other]]
                    0 <= other < learned.pool.len() implies match map_get(
                    learned.cache,
                    learned.pool[other].host,
                ) {
                    Some(a) => learned.usable(other, a),
                    None => names(learned.pool[other].host) matches Some(a) && learned.usable(
                        other,
                        a,
                    ),
                } by {
                    let _ = s.pool[other];
                }
            }
        },
    }
}

/// The number of connections after which the cursor first stands on `slot`.
pub open spec fn distance(cursor: int, slot: int, total: int) -> int {
    if slot >= cursor {
        slot - cursor
    } else {
        slot - cursor + total
    }
}

/// How quotient and remainder change from `k - 1` to `k`.
proof fn lemma_division_step(k: int, n: int)
    requires
        k >= 1,
        n >= 1,
    ensures
        0 <= k % n < n,
        k % n == 0 ==> (k - 1) / n == k / n - 1 && (k - 1) % n == n - 1,
        k % n != 0 ==> (k - 1) / n == k / n && (k - 1) % n == k % n - 1,
{
    lemma_fundamental_div_mod(k, n);
    vstd::arithmetic::div_mod::lemma_mod_bound(k, n);
    let q = k / n;
    let r = k % n;
    assert(k == n * q + r);
    if r == 0 {
        assert(k - 1 == (q - 1) * n + (n - 1)) by (nonlinear_arith)
            requires
                k == n * q + r,
                r == 0,
        ;
        lemma_fundamental_div_mod_converse(k - 1, n, q - 1, n - 1);
    } else {
        assert(k - 1 == q * n + (r - 1)) by (nonlinear_arith)
            requires
                k == n * q + r,
        ;
        lemma_fundamental_div_mod_converse(k - 1, n, q, r - 1);
    }
}

/// With every server healthy, `count` connections in a row go to `slot` once
/// in every full round of the pool, and once more if the last, unfinished
/// round reaches it.
pub proof fn lemma_served_in_turn(
    s: SelectorView,
    count: nat,
    budget: nat,
    names: NameService,
    slot: int,
)
    requires
        s.wf(),
        s.healthy(names),
        budget >= 1,
        0 <= slot < s.pool.len(),
    ensures
        times_served(s.served(count, budget, names), slot) == count / s.pool.len() + if distance(
            s.cursor,
            slot,
            s.pool.len() as int,
        ) < count % s.pool.len() {
            1nat
        } else {
            0nat
        },
    decreases count,
{
    let n = s.pool.len() as int;
    if count == 0 {
        assert(0int / n == 0 && 0int % n == 0) by {
            lemma_fundamental_div_mod_converse(0, n, 0, 0);
        }
    } else {
        lemma_healthy_accept(s, budget, names);
        let (after, attempt) = s.accept(budget, names);
        let rest = after.served((count - 1) as nat, budget, names);
        lemma_served_in_turn(after, (count - 1) as nat, budget, names, slot);
        let all = s.served(count, budget, names);
        assert(all.drop_first() =~= rest);
        assert(all[0] == Some(s.cursor));
        lemma_division_step(count as int, n);
        if count > 1 {
            lemma_division_step(count - 1, n);
        } else {
            assert(0int / n == 0 && 0int % n == 0) by {
                lemma_fundamental_div_mod_converse(0, n, 0, 0);
            }
        }
    }
}

/// Round-robin fairness: with every server healthy, of `count` connections
/// in a row each server gets its share, `count` divided by the size of the
/// pool, or one more.
pub proof fn lemma_round_robin_fair(
    s: SelectorView,
    count: nat,
    budget: nat,
    names: NameService,
    slot: int,
)
    requires
        s.wf(),
        s.healthy(names),
        budget >= 1,
        0 <= slot < s.pool.len(),
    ensures
        count / s.pool.len() <= times_served(s.served(count, budget, names), slot) <= count
            / s.pool.len() + 1,
{
    lemma_served_in_turn(s, count, budget, names, slot);
}

} // verus!
