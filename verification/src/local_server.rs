//! The local relay: a configuration, checked once, from which each acceptor
//! takes its endpoint, its selector and the sessions of its connections.

use vstd::prelude::*;
use crate::acceptor::Acceptor;
use crate::addr::{IpAddress, SocketAddress};
use crate::forbidden::ForbiddenIps;
use crate::http_front::{HttpSession, HttpSessionView};
use crate::selector::{configs_view, SelectorView, UpstreamConfig, UpstreamSelector};
use crate::socks5_front::{Socks5Phase, Socks5Session, Socks5SessionView};

verus! {

/// The configuration of the local relay.
#[derive(Clone, Debug)]
pub struct Config {
    /// The proxy servers, in the order in which they are tried.
    pub server: Vec<UpstreamConfig>,
    /// Where the SOCKS5 acceptor listens.
    pub local: Option<SocketAddress>,
    /// Where the HTTP acceptor listens.
    pub http_proxy: Option<SocketAddress>,
    /// The read timeout of a client connection, in seconds.
    pub timeout: Option<u64>,
    /// The addresses that no proxy server may resolve to.
    pub forbidden_ip: Vec<IpAddress>,
    /// Whether a UDP association is answered with the local endpoint.
    pub enable_udp: bool,
}

impl Config {
    /// Whether a relay can be made of this configuration: it names a proxy
    /// server and a local endpoint.
    pub open spec fn spec_usable(&self) -> bool {
        self.server@.len() > 0 && self.local is Some
    }

    /// Whether a relay can be made of this configuration.
    #[verifier::when_used_as_spec(spec_usable)]
    pub fn usable(&self) -> (usable: bool)
        ensures
            usable == self.spec_usable(),
    {
        self.server.len() > 0 && self.local.is_some()
    }
}

/// The relay that runs on the client's side.
#[derive(Debug)]
pub struct TcpRelayLocal {
    config: Config,
}

impl TcpRelayLocal {
    #[verifier::type_invariant]
    spec fn checked(self) -> bool {
        self.config.spec_usable()
    }

    /// The configuration that the relay was made of.
    pub closed spec fn config(&self) -> Config {
        self.config
    }

    /// A relay for a configuration that names a proxy server and a local
    /// endpoint.
    pub fn new(c: Config) -> (relay: TcpRelayLocal)
        requires
            c.spec_usable(),
        ensures
            relay.config() == c,
    {
        TcpRelayLocal { config: c }
    }

    /// A relay for `c`, or nothing where `c` names no proxy server or no
    /// local endpoint.
    pub fn try_new(c: Config) -> (relay: Option<TcpRelayLocal>)
        ensures
            relay is Some <==> c.spec_usable(),
            relay matches Some(r) ==> r.config() == c,
    {
        if c.usable() {
            Some(TcpRelayLocal::new(c))
        } else {
            None
        }
    }

    /// Where the SOCKS5 acceptor listens.
    pub fn tcp_endpoint(&self) -> (endpoint: SocketAddress)
        ensures
            self.config().local == Some(endpoint),
    {
        proof {
            use_type_invariant(self);
        }
        self.config.local.unwrap()
    }

    /// Where the HTTP acceptor listens, if it is configured.
    pub fn http_endpoint(&self) -> (endpoint: Option<SocketAddress>)
        ensures
            endpoint == self.config().http_proxy,
    {
        self.config.http_proxy
    }

    /// The read timeout of a client connection, in seconds.
    pub fn read_timeout(&self) -> (timeout: Option<u64>)
        ensures
            timeout == self.config().timeout,
    {
        self.config.timeout
    }

    /// The endpoint that answers a UDP association: the local endpoint where
    /// UDP is enabled.
    pub open spec fn spec_udp_endpoint(&self) -> Option<SocketAddress> {
        if self.config().enable_udp {
            self.config().local
        } else {
            None
        }
    }

    /// The state of one acceptor: a selector over the configured proxy
    /// servers and forbidden addresses, with nothing resolved yet.
    pub fn acceptor(&self) -> (acceptor: Acceptor)
        ensures
            acceptor@ == (SelectorView {
                pool: configs_view(self.config().server@),
                cursor: 0,
                left: 0,
                awaiting: None,
                cache: Map::empty(),
                forbidden: self.config().forbidden_ip@.to_set(),
            }),
            acceptor@.wf(),
    {
        proof {
            use_type_invariant(self);
        }
        let mut pool: Vec<UpstreamConfig> = Vec::new();
        let mut i: usize = 0;
        while i < self.config.server.len()
            invariant
                i <= self.config.server@.len(),
                configs_view(pool@) == configs_view(self.config.server@).subrange(0, i as int),
            decreases self.config.server@.len() - i,
        {
            let copy = self.config.server[i].clone();
            assert(copy@ == configs_view(self.config.server@)[i as int]);
            let ghost before = configs_view(pool@);
            pool.push(copy);
            assert(configs_view(pool@) =~= before.push(copy@));
            i = i + 1;
            assert(configs_view(pool@) =~= configs_view(self.config.server@).subrange(
                0,
                i as int,
            ));
        }
        assert(configs_view(pool@) =~= configs_view(self.config.server@));
        let forbidden = ForbiddenIps::from_list(&self.config.forbidden_ip);
        assert(configs_view(pool@).len() == pool@.len());
        Acceptor::new(UpstreamSelector::over(pool, forbidden))
    }

    /// The session of a SOCKS5 client at `peer`.
    pub fn socks5_session(&self, peer: SocketAddress) -> (session: Socks5Session)
        ensures
            session@ == (Socks5SessionView {
                phase: Socks5Phase::Greeting,
                peer,
                udp_endpoint: self.spec_udp_endpoint(),
                pending: Seq::empty(),
            }),
    {
        let udp_endpoint = if self.config.enable_udp {
            self.config.local
        } else {
            None
        };
        Socks5Session::new(peer, udp_endpoint)
    }

    /// The session of an HTTP client.
    pub fn http_session(&self) -> (session: HttpSession)
        ensures
            session@ == HttpSessionView::fresh(),
    {
        HttpSession::new()
    }
}

} // verus!
