//! The upstream selector: the configured proxy servers are tried in turn,
//! round robin; a host is resolved once and its address kept; an address on
//! the forbidden list is passed over.
//!
//! Resolving a host is the caller's work. The selector asks for it with
//! [`Attempt::Resolve`] and takes the outcome with
//! [`UpstreamSelector::resolved`].

use vstd::prelude::*;
use crate::addr::{IpAddress, SocketAddress};
use crate::dns_cache::{map_get, map_remember, DnsCache};
use crate::forbidden::ForbiddenIps;
use crate::wire::copy_range;

verus! {

/// The cipher that an upstream uses, as the number that the configuration
/// gives it. The selector hands it on and does not read it.
#[derive(Clone, Copy, Debug, PartialEq, Eq, Structural)]
pub struct CipherKind(pub u16);

/// One configured proxy server.
#[derive(Debug, PartialEq, Eq)]
pub struct UpstreamConfig {
    /// A host name or an IP address in text.
    pub host: Vec<u8>,
    pub port: u16,
    pub password: Vec<u8>,
    pub method: CipherKind,
}

/// The mathematical value of an [`UpstreamConfig`].
pub struct UpstreamConfigView {
    pub host: Seq<u8>,
    pub port: u16,
    pub password: Seq<u8>,
    pub method: CipherKind,
}

impl View for UpstreamConfig {
    type V = UpstreamConfigView;

    open spec fn view(&self) -> UpstreamConfigView {
        UpstreamConfigView {
            host: self.host@,
            port: self.port,
            password: self.password@,
            method: self.method,
        }
    }
}

impl Clone for UpstreamConfig {
    fn clone(&self) -> (copy: UpstreamConfig)
        ensures
            copy@ == self@,
    {
        let host = copy_range(self.host.as_slice(), 0, self.host.len());
        let password = copy_range(self.password.as_slice(), 0, self.password.len());
        assert(host@ =~= self.host@);
        assert(password@ =~= self.password@);
        UpstreamConfig { host, port: self.port, password, method: self.method }
    }
}

/// The values of a sequence of configurations.
pub open spec fn configs_view(pool: Seq<UpstreamConfig>) -> Seq<UpstreamConfigView> {
    pool.map_values(|config: UpstreamConfig| config@)
}

/// A proxy server that is ready to be dialled.
#[derive(Debug, PartialEq, Eq)]
pub struct Upstream {
    /// The place of the server in the pool.
    pub slot: usize,
    /// The resolved address of the host, with the configured port.
    pub address: SocketAddress,
    pub method: CipherKind,
    pub password: Vec<u8>,
}

/// The mathematical value of an [`Upstream`].
pub struct UpstreamView {
    pub slot: int,
    pub address: SocketAddress,
    pub method: CipherKind,
    pub password: Seq<u8>,
}

impl View for Upstream {
    type V = UpstreamView;

    open spec fn view(&self) -> UpstreamView {
        UpstreamView {
            slot: self.slot as int,
            address: self.address,
            method: self.method,
            password: self.password@,
        }
    }
}

/// What the selector says after a step.
#[derive(Debug, PartialEq, Eq)]
pub enum Attempt {
    /// Every attempt that the budget allowed was made, and none gave a
    /// usable server.
    Exhausted,
    /// The host of the server at `slot` is not known yet: resolve it, and
    /// report the outcome.
    Resolve { slot: usize, host: Vec<u8> },
    /// Dial this server.
    Ready(Upstream),
}

/// The mathematical value of an [`Attempt`].
pub enum AttemptView {
    Exhausted,
    Resolve { slot: int, host: Seq<u8> },
    Ready(UpstreamView),
}

impl View for Attempt {
    type V = AttemptView;

    open spec fn view(&self) -> AttemptView {
        match self {
            Attempt::Exhausted => AttemptView::Exhausted,
            Attempt::Resolve { slot, host } => AttemptView::Resolve {
                slot: *slot as int,
                host: host@,
            },
            Attempt::Ready(upstream) => AttemptView::Ready(upstream@),
        }
    }
}

/// The slot after `slot` in a pool of `total` servers.
pub open spec fn next_slot(slot: int, total: int) -> int {
    if slot + 1 >= total {
        0
    } else {
        slot + 1
    }
}

/// The mathematical value of an [`UpstreamSelector`].
pub struct SelectorView {
    /// The configured servers, in order.
    pub pool: Seq<UpstreamConfigView>,
    /// The slot that is tried next.
    pub cursor: int,
    /// The attempts that are left for the connection at hand.
    pub left: nat,
    /// The slot whose host the caller was asked to resolve.
    pub awaiting: Option<int>,
    /// The addresses of the hosts resolved so far.
    pub cache: Map<Seq<u8>, SocketAddress>,
    /// The addresses that no server may have.
    pub forbidden: Set<IpAddress>,
}

impl SelectorView {
    /// The pool is not empty, and the slots that the selector holds lie in it.
    pub open spec fn wf(self) -> bool {
        &&& self.pool.len() >= 1
        &&& 0 <= self.cursor < self.pool.len()
        &&& self.awaiting matches Some(slot) ==> 0 <= slot < self.pool.len()
    }

    /// The address at which the server at `slot` is dialled, given what its
    /// host resolved to: the resolved address with the configured port.
    pub open spec fn dial_address(self, slot: int, resolved: SocketAddress) -> SocketAddress {
        resolved.spec_with_port(self.pool[slot].port)
    }

    /// Whether the server at `slot` may be dialled, given what its host
    /// resolved to: its address is not forbidden.
    pub open spec fn usable(self, slot: int, resolved: SocketAddress) -> bool {
        !self.forbidden.contains(self.dial_address(slot, resolved).spec_ip())
    }

    /// The server at `slot`, ready to be dialled.
    pub open spec fn upstream(self, slot: int, resolved: SocketAddress) -> UpstreamView {
        UpstreamView {
            slot,
            address: self.dial_address(slot, resolved),
            method: self.pool[slot].method,
            password: self.pool[slot].password,
        }
    }

    /// Goes on with the connection at hand. Each attempt takes the server at
    /// the cursor and moves the cursor on. A server whose host is known is
    /// handed out if it is usable, and passed over if not; for one whose host
    /// is not known the caller is asked to resolve it.
    pub open spec fn advance(self) -> (SelectorView, AttemptView)
        decreases self.left,
    {
        if self.left == 0 {
            (self, AttemptView::Exhausted)
        } else {
            let slot = self.cursor;
            let moved = SelectorView {
                cursor: next_slot(self.cursor, self.pool.len() as int),
                left: (self.left - 1) as nat,
                ..self
            };
            match map_get(self.cache, self.pool[slot].host) {
                Some(resolved) => if self.usable(slot, resolved) {
                    (moved, AttemptView::Ready(self.upstream(slot, resolved)))
                } else {
                    moved.advance()
                },
                None => (
                    SelectorView { awaiting: Some(slot), ..moved },
                    AttemptView::Resolve { slot, host: self.pool[slot].host },
                ),
            }
        }
    }

    /// Starts on a new connection, with `budget` attempts.
    pub open spec fn pick(self, budget: nat) -> (SelectorView, AttemptView) {
        SelectorView { left: budget, awaiting: None, ..self }.advance()
    }

    /// Takes the outcome of the resolution that was asked for. An address is
    /// kept for the host, and the server is handed out if it is usable. In
    /// every other case the selector goes on with the next attempt.
    pub open spec fn resolved(self, outcome: Option<SocketAddress>) -> (SelectorView, AttemptView) {
        let settled = SelectorView { awaiting: None, ..self };
        match (self.awaiting, outcome) {
            (Some(slot), Some(address)) => {
                let learned = SelectorView {
                    cache: map_remember(self.cache, self.pool[slot].host, address),
                    ..settled
                };
                if self.usable(slot, address) {
                    (learned, AttemptView::Ready(self.upstream(slot, address)))
                } else {
                    learned.advance()
                }
            },
            _ => settled.advance(),
        }
    }
}

/// The selector of one acceptor.
#[derive(Debug)]
pub struct UpstreamSelector {
    pool: Vec<UpstreamConfig>,
    cursor: usize,
    left: usize,
    awaiting: Option<usize>,
    cache: DnsCache,
    forbidden: ForbiddenIps,
}

impl View for UpstreamSelector {
    type V = SelectorView;

    closed spec fn view(&self) -> SelectorView {
        SelectorView {
            pool: configs_view(self.pool@),
            cursor: self.cursor as int,
            left: self.left as nat,
            awaiting: match self.awaiting {
                Some(slot) => Some(slot as int),
                None => None,
            },
            cache: self.cache@,
            forbidden: self.forbidden@,
        }
    }
}

impl UpstreamSelector {
    #[verifier::type_invariant]
    spec fn in_range(self) -> bool {
        self@.wf()
    }

    /// A selector over `pool`, with nothing resolved yet and the cursor on the
    /// first server; none where the pool is empty.
    pub fn new(pool: Vec<UpstreamConfig>, forbidden: ForbiddenIps) -> (selector: Option<
        UpstreamSelector,
    >)
        ensures
            pool@.len() == 0 <==> selector is None,
            selector matches Some(s) ==> s@ == (SelectorView {
                pool: configs_view(pool@),
                cursor: 0,
                left: 0,
                awaiting: None,
                cache: Map::empty(),
                forbidden: forbidden@,
            }),
    {
        if pool.len() == 0 {
            None
        } else {
            Some(UpstreamSelector::over(pool, forbidden))
        }
    }

    /// A selector over a pool that is not empty.
    pub(crate) fn over(pool: Vec<UpstreamConfig>, forbidden: ForbiddenIps) -> (selector:
        UpstreamSelector)
        requires
            pool@.len() >= 1,
        ensures
            selector@ == (SelectorView {
                pool: configs_view(pool@),
                cursor: 0,
                left: 0,
                awaiting: None,
                cache: Map::empty(),
                forbidden: forbidden@,
            }),
    {
        UpstreamSelector {
            pool,
            cursor: 0,
            left: 0,
            awaiting: None,
            cache: DnsCache::new(),
            forbidden,
        }
    }

    /// The number of servers in the pool.
    pub fn total(&self) -> (total: usize)
        ensures
            total == self@.pool.len(),
            total >= 1,
    {
        proof {
            use_type_invariant(self);
        }
        self.pool.len()
    }

    /// The server at `slot`, ready to be dialled at what its host resolved to.
    fn upstream(&self, slot: usize, resolved: SocketAddress) -> (upstream: Upstream)
        requires
            slot < self@.pool.len(),
        ensures
            upstream@ == self@.upstream(slot as int, resolved),
    {
        let config = &self.pool[slot];
        let password = copy_range(config.password.as_slice(), 0, config.password.len());
        assert(password@ =~= config.password@);
        Upstream {
            slot,
            address: resolved.with_port(config.port),
            method: config.method,
            password,
        }
    }

    /// Whether the server at `slot` may be dialled at what its host resolved to.
    fn usable(&self, slot: usize, resolved: SocketAddress) -> (usable: bool)
        requires
            slot < self@.pool.len(),
        ensures
            usable == self@.usable(slot as int, resolved),
    {
        let address = resolved.with_port(self.pool[slot].port);
        !self.forbidden.contains(address.ip())
    }

    fn advance(&mut self) -> (attempt: Attempt)
        ensures
            (final(self)@, attempt@) == old(self)@.advance(),
    {
        loop
            invariant
                old(self)@.advance() == self@.advance(),
            decreases self.left,
        {
            proof {
                use_type_invariant(&*self);
            }
            if self.left == 0 {
                return Attempt::Exhausted;
            }
            let slot: usize = self.cursor;
            let total: usize = self.pool.len();
            let ghost before = self@;
            let known = self.cache.lookup(self.pool[slot].host.as_slice());
            let usable = match known {
                Some(resolved) => self.usable(slot, resolved),
                None => false,
            };
            let upstream = match known {
                Some(resolved) => Some(self.upstream(slot, resolved)),
                None => None,
            };
            self.left = self.left - 1;
            self.cursor = if slot + 1 >= total {
                0
            } else {
                slot + 1
            };
            match upstream {
                Some(upstream) => {
                    if usable {
                        return Attempt::Ready(upstream);
                    }
                },
                None => {
                    let host = copy_range(
                        self.pool[slot].host.as_slice(),
                        0,
                        self.pool[slot].host.len(),
                    );
                    assert(host@ =~= before.pool[slot as int].host);
                    self.awaiting = Some(slot);
                    return Attempt::Resolve { slot, host };
                },
            }
        }
    }

    /// Starts on a new connection, with `budget` attempts, and says what to do.
    pub fn pick(&mut self, budget: usize) -> (attempt: Attempt)
        ensures
            (final(self)@, attempt@) == old(self)@.pick(budget as nat),
            attempt matches Attempt::Ready(upstream) ==> !old(self)@.forbidden.contains(
                upstream.address.spec_ip(),
            ),
    {
        proof {
            use_type_invariant(&*self);
            lemma_pick_never_forbidden(self@, budget as nat);
        }
        self.left = budget;
        self.awaiting = None;
        self.advance()
    }

    /// Takes the outcome of the resolution that was asked for, and says what
    /// to do.
    pub fn resolved(&mut self, outcome: Option<SocketAddress>) -> (attempt: Attempt)
        ensures
            (final(self)@, attempt@) == old(self)@.resolved(outcome),
            attempt matches Attempt::Ready(upstream) ==> !old(self)@.forbidden.contains(
                upstream.address.spec_ip(),
            ),
    {
        proof {
            use_type_invariant(&*self);
            lemma_resolved_never_forbidden(self@, outcome);
        }
        let awaiting = self.awaiting;
        self.awaiting = None;
        match (awaiting, outcome) {
            (Some(slot), Some(address)) => {
                let mut cache = DnsCache::new();
                std::mem::swap(&mut cache, &mut self.cache);
                cache.remember(self.pool[slot].host.as_slice(), address);
                self.cache = cache;
                if self.usable(slot, address) {
                    Attempt::Ready(self.upstream(slot, address))
                } else {
                    self.advance()
                }
            },
            _ => self.advance(),
        }
    }
}

/// No step of the current connection hands out a forbidden address.
pub proof fn lemma_advance_never_forbidden(s: SelectorView)
    ensures
        s.advance().1 matches AttemptView::Ready(upstream) ==> !s.forbidden.contains(
            upstream.address.spec_ip(),
        ),
        s.advance().0.forbidden == s.forbidden,
    decreases s.left,
{
    if s.left > 0 {
        let moved = SelectorView {
            cursor: next_slot(s.cursor, s.pool.len() as int),
            left: (s.left - 1) as nat,
            ..s
        };
        lemma_advance_never_forbidden(moved);
    }
}

/// The first step of a connection hands out no forbidden address.
pub proof fn lemma_pick_never_forbidden(s: SelectorView, budget: nat)
    ensures
        s.pick(budget).1 matches AttemptView::Ready(upstream) ==> !s.forbidden.contains(
            upstream.address.spec_ip(),
        ),
        s.pick(budget).0.forbidden == s.forbidden,
{
    lemma_advance_never_forbidden(SelectorView { left: budget, awaiting: None, ..s });
}

/// The step after a resolution hands out no forbidden address.
pub proof fn lemma_resolved_never_forbidden(s: SelectorView, outcome: Option<SocketAddress>)
    ensures
        s.resolved(outcome).1 matches AttemptView::Ready(upstream) ==> !s.forbidden.contains(
            upstream.address.spec_ip(),
        ),
        s.resolved(outcome).0.forbidden == s.forbidden,
{
    let settled = SelectorView { awaiting: None, ..s };
    lemma_advance_never_forbidden(settled);
    match (s.awaiting, outcome) {
        (Some(slot), Some(address)) => {
            lemma_advance_never_forbidden(
                SelectorView {
                    cache: map_remember(s.cache, s.pool[slot].host, address),
                    ..settled
                },
            );
        },
        _ => {},
    }
}

} // verus!
