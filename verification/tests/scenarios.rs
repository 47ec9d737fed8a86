use local_relay::addr::{Address, IpAddress, SocketAddress};
use local_relay::forbidden::ForbiddenIps;
use local_relay::front::{Ending, Next};
use local_relay::http_front::{HttpPhase, HttpSession};
use local_relay::selector::{Attempt, CipherKind, UpstreamConfig, UpstreamSelector};
use local_relay::socks5_front::{Socks5Phase, Socks5Session};

fn client() -> SocketAddress {
    SocketAddress::V4 { ip: 0x7f00_0001, port: 50000 }
}

fn client_reply(code: u8) -> Vec<u8> {
    vec![5, code, 0, 1, 127, 0, 0, 1, 0xc3, 0x50]
}

#[test]
fn socks5_connect_ipv4() {
    let mut session = Socks5Session::new(client(), None);
    let step = session.on_bytes(&[0x05, 0x01, 0x00]);
    assert_eq!(step.to_local, vec![0x05, 0x00]);
    assert!(step.to_remote.is_empty());
    assert_eq!(step.next, Next::Continue);
    assert_eq!(session.phase(), Socks5Phase::Request);

    let step = session.on_bytes(&[0x05, 0x01, 0x00, 0x01, 0x5d, 0xb8, 0xd8, 0x22, 0x01, 0xbb]);
    assert!(step.to_local.is_empty());
    assert!(step.to_remote.is_empty());
    assert_eq!(
        step.next,
        Next::Dial(Address::SocketAddress(SocketAddress::V4 { ip: 0x5db8_d822, port: 443 }))
    );
    assert_eq!(session.phase(), Socks5Phase::Dialing);

    let step = session.on_dial(true);
    assert_eq!(step.to_local, client_reply(0));
    assert!(step.to_remote.is_empty());
    assert_eq!(step.next, Next::Relay);
    assert_eq!(session.phase(), Socks5Phase::Relaying);

    let step = session.on_bytes(b"opaque bytes");
    assert!(step.to_local.is_empty());
    assert_eq!(step.to_remote, b"opaque bytes".to_vec());
    assert_eq!(step.next, Next::Continue);
}

#[test]
fn socks5_auth_unsupported() {
    let mut session = Socks5Session::new(client(), None);
    let step = session.on_bytes(&[0x05, 0x01, 0x02]);
    assert_eq!(step.to_local, vec![0x05, 0xff]);
    assert!(step.to_remote.is_empty());
    assert_eq!(step.next, Next::Close(Ending::AuthUnsupported));
    assert_eq!(session.phase(), Socks5Phase::Closed(Ending::AuthUnsupported));
}

#[test]
fn socks5_bind_is_refused() {
    let mut session = Socks5Session::new(client(), None);
    let step = session.on_bytes(&[0x05, 0x01, 0x00]);
    assert_eq!(step.to_local, vec![0x05, 0x00]);
    let step = session.on_bytes(&[0x05, 0x02, 0x00, 0x01, 10, 0, 0, 1, 0x1f, 0x90]);
    assert_eq!(step.to_local, vec![0x05, 0x07, 0x00, 0x01, 10, 0, 0, 1, 0x1f, 0x90]);
    assert!(step.to_remote.is_empty());
    assert_eq!(step.next, Next::Close(Ending::Rejected));
}

#[test]
fn http_connect_tunnel() {
    let mut session = HttpSession::new();
    let step = session.on_bytes(
        b"CONNECT example.com:443 HTTP/1.1\r\nHost: example.com:443\r\n\r\n\x16\x03\x01tls",
    );
    assert!(step.to_local.is_empty());
    assert!(step.to_remote.is_empty());
    assert_eq!(step.next, Next::Dial(Address::DomainName(b"example.com".to_vec(), 443)));
    assert_eq!(session.phase(), HttpPhase::DialingTunnel);

    let step = session.on_dial(true);
    assert_eq!(step.to_local, b"HTTP/1.1 200 Connection Established\r\n\r\n".to_vec());
    assert_eq!(step.to_remote, b"\x16\x03\x01tls".to_vec());
    assert_eq!(step.next, Next::Relay);
    assert_eq!(session.phase(), HttpPhase::Tunnel);

    let step = session.on_bytes(b"more");
    assert_eq!(step.to_remote, b"more".to_vec());
}

#[test]
fn http_forward_two_pipelined_gets() {
    let mut session = HttpSession::new();
    let step = session.on_bytes(
        b"GET http://a.example/x HTTP/1.1\r\nHost: a.example\r\n\r\nGET http://a.example/y HTTP/1.1\r\nHost: a.example\r\n\r\n",
    );
    assert_eq!(step.next, Next::Dial(Address::DomainName(b"a.example".to_vec(), 80)));
    assert!(step.to_remote.is_empty());
    assert_eq!(session.phase(), HttpPhase::DialingForward);

    let step = session.on_dial(true);
    assert!(step.to_local.is_empty());
    assert_eq!(
        step.to_remote,
        b"GET /x HTTP/1.1\r\nHost: a.example\r\n\r\nGET /y HTTP/1.1\r\nHost: a.example\r\n\r\n"
            .to_vec()
    );
    assert_eq!(step.next, Next::Relay);
    assert_eq!(session.phase(), HttpPhase::Forward);

    let step = session.on_eof();
    assert_eq!(step.next, Next::Close(Ending::Finished));
}

fn upstream(host: &str, port: u16) -> UpstreamConfig {
    UpstreamConfig {
        host: host.as_bytes().to_vec(),
        port,
        password: b"secret".to_vec(),
        method: CipherKind(7),
    }
}

#[test]
fn upstream_rotation_skips_forbidden() {
    let forbidden = ForbiddenIps::from_list(&vec![IpAddress::V4(0x0a00_0001)]);
    let pool = vec![upstream("u1.example", 8388), upstream("u2.example", 8389)];
    let mut selector = UpstreamSelector::new(pool, forbidden).unwrap();
    let u1 = SocketAddress::V4 { ip: 0x0a00_0001, port: 0 };
    let u2 = SocketAddress::V4 { ip: 0x0a00_0002, port: 0 };
    for round in 0..6 {
        let mut attempt = selector.pick(selector.total());
        let mut lookups = 0;
        let served = loop {
            match attempt {
                Attempt::Resolve { slot, host } => {
                    lookups += 1;
                    let answer = if slot == 0 {
                        assert_eq!(host, b"u1.example".to_vec());
                        u1
                    } else {
                        assert_eq!(host, b"u2.example".to_vec());
                        u2
                    };
                    attempt = selector.resolved(Some(answer));
                }
                Attempt::Ready(upstream) => break upstream,
                Attempt::Exhausted => panic!("no upstream in round {}", round),
            }
        };
        assert_eq!(served.slot, 1);
        assert_eq!(served.address, SocketAddress::V4 { ip: 0x0a00_0002, port: 8389 });
        assert_eq!(served.method, CipherKind(7));
        assert_eq!(served.password, b"secret".to_vec());
        if round > 0 {
            assert_eq!(lookups, 0);
        }
    }
}
