use local_relay::addr::{Address, SocketAddress};
use local_relay::front::{Ending, Next, Step};
use local_relay::socks5_front::{Socks5Phase, Socks5Session};

fn peer() -> SocketAddress {
    SocketAddress::V4 { ip: 0xc0a8_0102, port: 40000 }
}

fn peer_reply(code: u8) -> Vec<u8> {
    vec![5, code, 0, 1, 192, 168, 1, 2, 0x9c, 0x40]
}

fn greeted(udp: Option<SocketAddress>) -> Socks5Session {
    let mut session = Socks5Session::new(peer(), udp);
    let step = session.on_bytes(&[5, 1, 0]);
    assert_eq!(step.to_local, vec![5, 0]);
    session
}

#[test]
fn greeting_and_request_in_one_chunk() {
    let mut session = Socks5Session::new(peer(), None);
    let step = session.on_bytes(&[5, 2, 1, 0, 5, 1, 0, 3, 1, b'h', 0, 80, b'G', b'E']);
    assert_eq!(step.to_local, vec![5, 0]);
    assert!(step.to_remote.is_empty());
    assert_eq!(step.next, Next::Dial(Address::DomainName(b"h".to_vec(), 80)));
    let step = session.on_bytes(b"T ");
    assert_eq!(step, Step { to_local: vec![], to_remote: vec![], next: Next::Continue });
    let step = session.on_dial(true);
    assert_eq!(step.to_local, peer_reply(0));
    assert_eq!(step.to_remote, b"GET ".to_vec());
    assert_eq!(step.next, Next::Relay);
}

#[test]
fn bytes_arriving_one_by_one() {
    let mut session = Socks5Session::new(peer(), None);
    let input = [5u8, 1, 0, 5, 1, 0, 1, 10, 0, 0, 7, 0, 22];
    let mut to_local = Vec::new();
    let mut last = Next::Continue;
    for (index, byte) in input.iter().enumerate() {
        let step = session.on_bytes(&[*byte]);
        to_local.extend_from_slice(&step.to_local);
        assert!(step.to_remote.is_empty());
        if index + 1 < input.len() {
            assert_eq!(step.next, Next::Continue);
        }
        last = step.next;
    }
    assert_eq!(to_local, vec![5, 0]);
    assert_eq!(
        last,
        Next::Dial(Address::SocketAddress(SocketAddress::V4 { ip: 0x0a00_0007, port: 22 }))
    );
}

#[test]
fn greeting_with_wrong_version_is_malformed() {
    let mut session = Socks5Session::new(peer(), None);
    let step = session.on_bytes(&[4, 1, 0]);
    assert_eq!(step.to_local, vec![5, 0xff]);
    assert_eq!(step.next, Next::Close(Ending::Malformed));
    assert_eq!(session.phase(), Socks5Phase::Closed(Ending::Malformed));
}

#[test]
fn greeting_without_methods_is_auth_unsupported() {
    let mut session = Socks5Session::new(peer(), None);
    let step = session.on_bytes(&[5, 0]);
    assert_eq!(step.to_local, vec![5, 0xff]);
    assert_eq!(step.next, Next::Close(Ending::AuthUnsupported));
}

#[test]
fn malformed_request_is_answered_with_the_parser_reply_and_the_peer() {
    let mut session = greeted(None);
    let step = session.on_bytes(&[5, 1, 0, 9]);
    assert_eq!(step.to_local, peer_reply(8));
    assert!(step.to_remote.is_empty());
    assert_eq!(step.next, Next::Close(Ending::Malformed));

    let mut session = greeted(None);
    let step = session.on_bytes(&[5, 7]);
    assert_eq!(step.to_local, peer_reply(7));
    assert_eq!(step.next, Next::Close(Ending::Malformed));

    let mut session = greeted(None);
    let step = session.on_bytes(&[6]);
    assert_eq!(step.to_local, peer_reply(1));
    assert_eq!(step.next, Next::Close(Ending::Malformed));
}

#[test]
fn udp_associate_enabled_replies_with_the_local_endpoint() {
    let endpoint = SocketAddress::V4 { ip: 0x7f00_0001, port: 1080 };
    let mut session = greeted(Some(endpoint));
    let step = session.on_bytes(&[5, 3, 0, 1, 0, 0, 0, 0, 0, 0]);
    assert_eq!(step.to_local, vec![5, 0, 0, 1, 127, 0, 0, 1, 0x04, 0x38]);
    assert!(step.to_remote.is_empty());
    assert_eq!(step.next, Next::Close(Ending::Finished));
    assert_eq!(session.phase(), Socks5Phase::Closed(Ending::Finished));
}

#[test]
fn udp_associate_disabled_is_refused() {
    let mut session = greeted(None);
    let step = session.on_bytes(&[5, 3, 0, 1, 1, 2, 3, 4, 0, 9]);
    assert_eq!(step.to_local, vec![5, 7, 0, 1, 1, 2, 3, 4, 0, 9]);
    assert_eq!(step.next, Next::Close(Ending::Rejected));
}

#[test]
fn bind_with_a_domain_name_is_refused_with_that_name() {
    let mut session = greeted(None);
    let step = session.on_bytes(&[5, 2, 0, 3, 2, b'a', b'b', 0, 9]);
    assert_eq!(step.to_local, vec![5, 7, 0, 3, 2, b'a', b'b', 0, 9]);
    assert_eq!(step.next, Next::Close(Ending::Rejected));
}

#[test]
fn failed_dial_is_a_general_failure() {
    let mut session = greeted(None);
    let step = session.on_bytes(&[5, 1, 0, 1, 1, 2, 3, 4, 0, 80, b'x']);
    assert_eq!(
        step.next,
        Next::Dial(Address::SocketAddress(SocketAddress::V4 { ip: 0x0102_0304, port: 80 }))
    );
    let step = session.on_dial(false);
    assert_eq!(step.to_local, peer_reply(1));
    assert!(step.to_remote.is_empty());
    assert_eq!(step.next, Next::Close(Ending::DialFailed));
    assert_eq!(session.phase(), Socks5Phase::Closed(Ending::DialFailed));
}

#[test]
fn closed_session_ignores_events() {
    let mut session = Socks5Session::new(peer(), None);
    let _ = session.on_bytes(&[5, 1, 2]);
    let silent = Step {
        to_local: vec![],
        to_remote: vec![],
        next: Next::Close(Ending::AuthUnsupported),
    };
    assert_eq!(session.on_bytes(&[5, 1, 0]), silent);
    assert_eq!(session.on_dial(true), silent);
    assert_eq!(session.phase(), Socks5Phase::Closed(Ending::AuthUnsupported));
}

#[test]
fn dial_report_outside_the_dial_changes_nothing() {
    let mut session = Socks5Session::new(peer(), None);
    let idle = Step { to_local: vec![], to_remote: vec![], next: Next::Continue };
    assert_eq!(session.on_dial(true), idle);
    assert_eq!(session.phase(), Socks5Phase::Greeting);
    let mut session = greeted(None);
    assert_eq!(session.on_dial(false), idle);
    assert_eq!(session.phase(), Socks5Phase::Request);
}

#[test]
fn relayed_payload_is_preserved() {
    let mut session = greeted(None);
    let _ = session.on_bytes(&[5, 1, 0, 1, 1, 2, 3, 4, 0, 80, 1, 2]);
    let _ = session.on_bytes(&[3]);
    let mut sent = session.on_dial(true).to_remote;
    for chunk in [&[4u8, 5][..], &[][..], &[6][..], &[0, 255][..]] {
        let step = session.on_bytes(chunk);
        assert!(step.to_local.is_empty());
        assert_eq!(step.next, Next::Continue);
        sent.extend_from_slice(&step.to_remote);
    }
    assert_eq!(sent, vec![1, 2, 3, 4, 5, 6, 0, 255]);
    assert_eq!(session.phase(), Socks5Phase::Relaying);
}

#[test]
fn end_of_stream_before_the_relay_is_unexpected() {
    let mut session = Socks5Session::new(peer(), None);
    let step = session.on_eof();
    assert_eq!(
        step,
        Step { to_local: vec![], to_remote: vec![], next: Next::Close(Ending::UnexpectedEof) }
    );
    assert_eq!(session.phase(), Socks5Phase::Closed(Ending::UnexpectedEof));

    let mut session = greeted(None);
    let _ = session.on_bytes(&[5, 1, 0, 1, 1, 2, 3, 4, 0, 80]);
    assert_eq!(session.on_eof().next, Next::Close(Ending::UnexpectedEof));
    assert_eq!(session.on_dial(true).next, Next::Close(Ending::UnexpectedEof));
}

#[test]
fn end_of_stream_while_relaying_is_in_order() {
    let mut session = greeted(None);
    let _ = session.on_bytes(&[5, 1, 0, 1, 1, 2, 3, 4, 0, 80]);
    let _ = session.on_dial(true);
    let step = session.on_eof();
    assert_eq!(
        step,
        Step { to_local: vec![], to_remote: vec![], next: Next::Close(Ending::Finished) }
    );
    assert_eq!(session.on_eof().next, Next::Close(Ending::Finished));
    assert_eq!(session.on_bytes(b"late").to_remote, Vec::<u8>::new());
}
