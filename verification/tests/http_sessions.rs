use local_relay::addr::{Address, SocketAddress};
use local_relay::front::{Ending, Next, Step};
use local_relay::http_front::{HttpPhase, HttpSession};

fn silent(next: Next) -> Step {
    Step { to_local: vec![], to_remote: vec![], next }
}

fn forwarding(first: &[u8]) -> (HttpSession, Vec<u8>) {
    let mut session = HttpSession::new();
    let step = session.on_bytes(first);
    assert!(matches!(step.next, Next::Dial(_)));
    let step = session.on_dial(true);
    assert_eq!(step.next, Next::Relay);
    assert!(step.to_local.is_empty());
    (session, step.to_remote)
}

#[test]
fn head_arriving_in_pieces() {
    let mut session = HttpSession::new();
    assert_eq!(session.on_bytes(b"GET http://a.exa"), silent(Next::Continue));
    assert_eq!(session.on_bytes(b"mple/x HTTP/1.1\r\nHo"), silent(Next::Continue));
    assert_eq!(session.on_bytes(b"st: a.example\r\n\r"), silent(Next::Continue));
    assert_eq!(session.phase(), HttpPhase::Head);
    let step = session.on_bytes(b"\n");
    assert_eq!(step, silent(Next::Dial(Address::DomainName(b"a.example".to_vec(), 80))));
    assert_eq!(session.phase(), HttpPhase::DialingForward);
    let step = session.on_dial(true);
    assert_eq!(step.to_remote, b"GET /x HTTP/1.1\r\nHost: a.example\r\n\r\n".to_vec());
}

#[test]
fn first_request_in_origin_form_is_a_bad_request() {
    let mut session = HttpSession::new();
    let step = session.on_bytes(b"GET /x HTTP/1.1\r\nHost: a.example\r\n\r\n");
    assert_eq!(step.to_local, b"HTTP/1.1 400 Bad Request\r\n\r\n".to_vec());
    assert!(step.to_remote.is_empty());
    assert_eq!(step.next, Next::Close(Ending::Rejected));
    assert_eq!(session.phase(), HttpPhase::Closed(Ending::Rejected));
}

#[test]
fn connect_to_an_absolute_uri_is_a_bad_request() {
    let mut session = HttpSession::new();
    let step = session.on_bytes(b"CONNECT http://a.example/ HTTP/1.1\r\n\r\n");
    assert_eq!(step.to_local, b"HTTP/1.1 400 Bad Request\r\n\r\n".to_vec());
    assert_eq!(step.next, Next::Close(Ending::Rejected));
}

#[test]
fn method_names_are_case_sensitive() {
    let mut session = HttpSession::new();
    let step = session.on_bytes(b"connect a.example:443 HTTP/1.1\r\n\r\n");
    assert_eq!(step.to_local, b"HTTP/1.1 400 Bad Request\r\n\r\n".to_vec());
    assert_eq!(step.next, Next::Close(Ending::Rejected));
}

#[test]
fn head_that_is_no_head_is_a_bad_request() {
    let mut session = HttpSession::new();
    let step = session.on_bytes(b"GET\x00 / HTTP/1.1\r\n\r\n");
    assert_eq!(step.to_local, b"HTTP/1.1 400 Bad Request\r\n\r\n".to_vec());
    assert!(step.to_remote.is_empty());
    assert_eq!(step.next, Next::Close(Ending::Malformed));
    assert_eq!(session.phase(), HttpPhase::Closed(Ending::Malformed));
}

#[test]
fn head_with_too_many_fields_is_a_bad_request() {
    let mut request = b"GET http://a.example/ HTTP/1.1\r\n".to_vec();
    for index in 0..101 {
        request.extend_from_slice(format!("X-{}: v\r\n", index).as_bytes());
    }
    request.extend_from_slice(b"\r\n");
    let mut session = HttpSession::new();
    let step = session.on_bytes(&request);
    assert_eq!(step.to_local, b"HTTP/1.1 400 Bad Request\r\n\r\n".to_vec());
    assert_eq!(step.next, Next::Close(Ending::Malformed));
}

#[test]
fn head_with_a_hundred_fields_is_forwarded() {
    let mut request = b"GET http://a.example/ HTTP/1.1\r\n".to_vec();
    let mut expected = b"GET / HTTP/1.1\r\n".to_vec();
    for index in 0..100 {
        let line = format!("X-{}: v\r\n", index);
        request.extend_from_slice(line.as_bytes());
        expected.extend_from_slice(line.as_bytes());
    }
    request.extend_from_slice(b"\r\n");
    expected.extend_from_slice(b"\r\n");
    let (_, sent) = forwarding(&request);
    assert_eq!(sent, expected);
}

#[test]
fn head_that_never_ends_is_a_bad_request() {
    let mut session = HttpSession::new();
    let step = session.on_bytes(b"GET http://a.example/ HTTP/1.1\r\nX: ");
    assert_eq!(step, silent(Next::Continue));
    let filler = vec![b'a'; 32768];
    assert_eq!(session.on_bytes(&filler), silent(Next::Continue));
    let step = session.on_bytes(&filler);
    assert_eq!(step.to_local, b"HTTP/1.1 400 Bad Request\r\n\r\n".to_vec());
    assert_eq!(step.next, Next::Close(Ending::Malformed));
}

#[test]
fn failed_dial_is_a_bad_gateway() {
    let mut session = HttpSession::new();
    let _ = session.on_bytes(b"GET http://a.example/x HTTP/1.1\r\n\r\n");
    let step = session.on_dial(false);
    assert_eq!(step.to_local, b"HTTP/1.1 502 Bad Gateway\r\n\r\n".to_vec());
    assert!(step.to_remote.is_empty());
    assert_eq!(step.next, Next::Close(Ending::DialFailed));

    let mut session = HttpSession::new();
    let _ = session.on_bytes(b"CONNECT a.example:443 HTTP/1.1\r\n\r\nearly");
    let step = session.on_dial(false);
    assert_eq!(step.to_local, b"HTTP/1.1 502 Bad Gateway\r\n\r\n".to_vec());
    assert!(step.to_remote.is_empty());
    assert_eq!(step.next, Next::Close(Ending::DialFailed));
    assert_eq!(session.phase(), HttpPhase::Closed(Ending::DialFailed));
}

#[test]
fn connect_to_an_ip_address() {
    let mut session = HttpSession::new();
    let step = session.on_bytes(b"CONNECT 10.0.0.1:8443 HTTP/1.0\r\n\r\n");
    assert_eq!(
        step.next,
        Next::Dial(Address::SocketAddress(SocketAddress::V4 { ip: 0x0a00_0001, port: 8443 }))
    );
}

#[test]
fn tunnel_payload_is_preserved() {
    let mut session = HttpSession::new();
    let _ = session.on_bytes(b"CONNECT a.example:443 HTTP/1.1\r\n\r\n\x01\x02");
    assert_eq!(session.on_bytes(&[3]), silent(Next::Continue));
    let mut sent = session.on_dial(true).to_remote;
    for chunk in [&b"GET http://x/ HTTP/1.1\r\n\r\n"[..], &[][..], &[0, 255][..]] {
        let step = session.on_bytes(chunk);
        assert!(step.to_local.is_empty());
        assert_eq!(step.next, Next::Continue);
        sent.extend_from_slice(&step.to_remote);
    }
    assert_eq!(sent, b"\x01\x02\x03GET http://x/ HTTP/1.1\r\n\r\n\x00\xff".to_vec());
    assert_eq!(session.on_eof(), silent(Next::Close(Ending::Finished)));
}

#[test]
fn body_is_passed_on_by_its_length() {
    let (mut session, sent) = forwarding(
        b"POST http://a.example/p HTTP/1.1\r\nContent-Length: 10\r\n\r\nhel",
    );
    assert_eq!(sent, b"POST /p HTTP/1.1\r\nContent-Length: 10\r\n\r\nhel".to_vec());
    let step = session.on_bytes(b"lo ");
    assert_eq!(step.to_remote, b"lo ".to_vec());
    assert_eq!(step.next, Next::Continue);
    let step = session.on_bytes(b"wrldGET http://b.example/q HTTP/1.1\r\n");
    assert_eq!(step.to_remote, b"wrld".to_vec());
    assert_eq!(step.next, Next::Continue);
    let step = session.on_bytes(b"Host: b.example\r\n\r\n");
    assert_eq!(step.to_remote, b"GET /q HTTP/1.1\r\nHost: b.example\r\n\r\n".to_vec());
    assert_eq!(step.next, Next::Continue);
    assert_eq!(session.on_eof(), silent(Next::Close(Ending::Finished)));
}

#[test]
fn body_and_next_request_in_the_first_chunk() {
    let (session, sent) = forwarding(
        b"PUT http://a.example/p HTTP/1.1\r\nContent-Length: 3\r\n\r\nabcGET http://a.example/second HTTP/1.1\r\n\r\n",
    );
    assert_eq!(
        sent,
        b"PUT /p HTTP/1.1\r\nContent-Length: 3\r\n\r\nabcGET /second HTTP/1.1\r\n\r\n".to_vec()
    );
    assert_eq!(session.phase(), HttpPhase::Forward);
}

#[test]
fn later_request_in_origin_form_is_passed_on_unchanged() {
    let (mut session, _) = forwarding(b"GET http://a.example/x HTTP/1.1\r\n\r\n");
    let step = session.on_bytes(b"GET /y?z HTTP/1.1\r\nHost: a.example\r\n\r\n");
    assert_eq!(step.to_remote, b"GET /y?z HTTP/1.1\r\nHost: a.example\r\n\r\n".to_vec());
    assert_eq!(step.next, Next::Continue);
}

#[test]
fn later_request_without_origin_form_ends_the_session() {
    let (mut session, _) = forwarding(b"GET http://a.example/x HTTP/1.1\r\n\r\n");
    let step = session.on_bytes(
        b"GET http://a.example/ok HTTP/1.1\r\n\r\nCONNECT a.example:443 HTTP/1.1\r\n\r\n",
    );
    assert!(step.to_local.is_empty());
    assert_eq!(step.to_remote, b"GET /ok HTTP/1.1\r\n\r\n".to_vec());
    assert_eq!(step.next, Next::Close(Ending::Rejected));
    assert_eq!(session.phase(), HttpPhase::Closed(Ending::Rejected));
}

#[test]
fn later_head_that_is_no_head_ends_the_session() {
    let (mut session, _) = forwarding(b"GET http://a.example/x HTTP/1.1\r\n\r\n");
    let step = session.on_bytes(b"\x00\x01\x02 nonsense\r\n\r\n");
    assert!(step.to_local.is_empty());
    assert!(step.to_remote.is_empty());
    assert_eq!(step.next, Next::Close(Ending::Malformed));
    assert_eq!(session.on_bytes(b"GET / HTTP/1.1\r\n\r\n"), silent(Next::Close(Ending::Malformed)));
}

#[test]
fn pipelined_request_that_ends_the_session_shows_at_the_next_event() {
    let mut session = HttpSession::new();
    let _ = session.on_bytes(b"GET http://a.example/x HTTP/1.1\r\n\r\n\x00bad\r\n\r\n");
    let step = session.on_dial(true);
    assert_eq!(step.to_remote, b"GET /x HTTP/1.1\r\n\r\n".to_vec());
    assert_eq!(step.next, Next::Relay);
    assert_eq!(session.phase(), HttpPhase::Closed(Ending::Malformed));
    assert_eq!(session.on_eof(), silent(Next::Close(Ending::Malformed)));
}

#[test]
fn end_of_stream_before_any_byte_is_in_order() {
    let mut session = HttpSession::new();
    assert_eq!(session.on_eof(), silent(Next::Close(Ending::Finished)));
    assert_eq!(session.phase(), HttpPhase::Closed(Ending::Finished));
}

#[test]
fn end_of_stream_in_the_middle_is_unexpected() {
    let mut session = HttpSession::new();
    let _ = session.on_bytes(b"GET http://a.example/x HT");
    assert_eq!(session.on_eof(), silent(Next::Close(Ending::UnexpectedEof)));

    let mut session = HttpSession::new();
    let _ = session.on_bytes(b"GET http://a.example/x HTTP/1.1\r\n\r\n");
    assert_eq!(session.on_eof(), silent(Next::Close(Ending::UnexpectedEof)));

    let (mut session, _) =
        forwarding(b"POST http://a.example/x HTTP/1.1\r\nContent-Length: 4\r\n\r\nab");
    assert_eq!(session.on_eof(), silent(Next::Close(Ending::UnexpectedEof)));

    let (mut session, _) = forwarding(b"GET http://a.example/x HTTP/1.1\r\n\r\nGET ");
    assert_eq!(session.on_eof(), silent(Next::Close(Ending::UnexpectedEof)));
    assert_eq!(session.on_eof(), silent(Next::Close(Ending::UnexpectedEof)));
}

#[test]
fn dial_report_outside_the_dial_changes_nothing_for_http() {
    let mut session = HttpSession::new();
    assert_eq!(session.on_dial(true), silent(Next::Continue));
    assert_eq!(session.phase(), HttpPhase::Head);
    let (mut session, _) = forwarding(b"GET http://a.example/x HTTP/1.1\r\n\r\n");
    assert_eq!(session.on_dial(false), silent(Next::Continue));
    assert_eq!(session.phase(), HttpPhase::Forward);
}

#[test]
fn host_field_is_preserved() {
    let (_, sent) = forwarding(
        b"GET http://a.example:8080/x HTTP/1.0\r\nHost: a.example:8080\r\nAccept: */*\r\n\r\n",
    );
    assert_eq!(
        sent,
        b"GET /x HTTP/1.0\r\nHost: a.example:8080\r\nAccept: */*\r\n\r\n".to_vec()
    );
}

#[test]
fn empty_lines_before_a_later_request_are_dropped() {
    let (mut session, _) = forwarding(b"GET http://a.example/x HTTP/1.1\r\n\r\n");
    let step = session.on_bytes(b"\r\n\r\nGET http://a.example/y HTTP/1.1\r\n\r\n");
    assert_eq!(step.to_remote, b"GET /y HTTP/1.1\r\n\r\n".to_vec());
    assert_eq!(step.next, Next::Continue);
}

#[test]
fn chunked_request_is_refused() {
    let mut session = HttpSession::new();
    let step = session.on_bytes(
        b"POST http://a.example/p HTTP/1.1\r\nTransfer-Encoding: chunked\r\n\r\n5\r\nhello\r\n0\r\n\r\n",
    );
    assert_eq!(step.to_local, b"HTTP/1.1 400 Bad Request\r\n\r\n".to_vec());
    assert!(step.to_remote.is_empty());
    assert_eq!(step.next, Next::Close(Ending::Rejected));

    let (mut session, _) = forwarding(b"GET http://a.example/x HTTP/1.1\r\n\r\n");
    let step = session.on_bytes(b"POST /p HTTP/1.1\r\ntransfer-encoding: gzip, chunked\r\n\r\n");
    assert!(step.to_local.is_empty());
    assert!(step.to_remote.is_empty());
    assert_eq!(step.next, Next::Close(Ending::Rejected));
}
