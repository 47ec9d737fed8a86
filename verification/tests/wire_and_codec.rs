use local_relay::addr::{Address, SocketAddress};
use local_relay::socks5::{
    command_of, encode_address, encode_method_selection, encode_response, parse_address,
    parse_greeting, parse_request, Command, Frame, Greeting, Reply, TcpRequestHeader,
};
use local_relay::wire::{
    append_bytes, bytes_equal, contains_byte, copy_range, push_be, read_be, read_u16, read_u32,
};

#[test]
fn big_endian_read_gives_exact_values() {
    let buf = [0x00u8, 0x01, 0xbb, 0x5d, 0xb8, 0xd8, 0x22, 0xff];
    assert_eq!(read_u16(&buf, 1), 443);
    assert_eq!(read_u32(&buf, 3), 0x5db8_d822);
    assert_eq!(read_be(&buf, 0, 0), 0);
    assert_eq!(read_be(&buf, 7, 1), 255);
    assert_eq!(read_be(&buf, 0, 8), 0x0001_bb5d_b8d8_22ff);
    let sixteen = [0xffu8; 16];
    assert_eq!(read_be(&sixteen, 0, 16), u128::MAX);
}

#[test]
fn big_endian_write_gives_exact_bytes() {
    let mut out = vec![9u8];
    push_be(&mut out, 443, 2);
    assert_eq!(out, vec![9, 0x01, 0xbb]);
    push_be(&mut out, 0x5db8_d822, 4);
    assert_eq!(out, vec![9, 0x01, 0xbb, 0x5d, 0xb8, 0xd8, 0x22]);
    let mut low = Vec::new();
    push_be(&mut low, 0x0102_0304, 2);
    assert_eq!(low, vec![0x03, 0x04]);
    let mut none = Vec::new();
    push_be(&mut none, 77, 0);
    assert!(none.is_empty());
    let mut wide = Vec::new();
    push_be(&mut wide, 1, 16);
    assert_eq!(wide, vec![0, 0, 0, 0, 0, 0, 0, 0, 0, 0, 0, 0, 0, 0, 0, 1]);
}

#[test]
fn big_endian_round_trip() {
    for value in [0u128, 1, 255, 256, 65535, 0xdead_beef, u128::MAX] {
        let mut out = Vec::new();
        push_be(&mut out, value, 16);
        assert_eq!(out.len(), 16);
        assert_eq!(read_be(&out, 0, 16), value);
    }
}

#[test]
fn byte_string_helpers() {
    let mut out = vec![1u8, 2];
    append_bytes(&mut out, &[3, 4]);
    assert_eq!(out, vec![1, 2, 3, 4]);
    append_bytes(&mut out, &[]);
    assert_eq!(out, vec![1, 2, 3, 4]);
    assert_eq!(copy_range(&out, 1, 3), vec![2, 3]);
    assert_eq!(copy_range(&out, 2, 2), Vec::<u8>::new());
    assert!(bytes_equal(b"abc", b"abc"));
    assert!(!bytes_equal(b"abc", b"abd"));
    assert!(!bytes_equal(b"abc", b"ab"));
    assert!(bytes_equal(b"", b""));
    assert!(contains_byte(b"a/b", b'/'));
    assert!(!contains_byte(b"ab", b'/'));
    assert!(!contains_byte(b"", 0));
}

#[test]
fn greeting_is_read_from_a_prefix() {
    assert_eq!(parse_greeting(&[]), Greeting::Incomplete);
    assert_eq!(parse_greeting(&[5]), Greeting::Incomplete);
    assert_eq!(parse_greeting(&[5, 2, 0]), Greeting::Incomplete);
    assert_eq!(parse_greeting(&[5, 2, 0, 2]), Greeting::Complete(vec![0, 2], 4));
    assert_eq!(parse_greeting(&[5, 1, 0, 5, 1]), Greeting::Complete(vec![0], 3));
    assert_eq!(parse_greeting(&[5, 0]), Greeting::Complete(vec![], 2));
    assert_eq!(parse_greeting(&[4]), Greeting::BadVersion);
    assert_eq!(parse_greeting(&[4, 1, 0]), Greeting::BadVersion);
}

#[test]
fn method_selection_bytes() {
    assert_eq!(encode_method_selection(0), vec![5, 0]);
    assert_eq!(encode_method_selection(0xff), vec![5, 0xff]);
}

#[test]
fn command_bytes() {
    assert_eq!(command_of(1), Some(Command::TcpConnect));
    assert_eq!(command_of(2), Some(Command::TcpBind));
    assert_eq!(command_of(3), Some(Command::UdpAssociate));
    assert_eq!(command_of(0), None);
    assert_eq!(command_of(4), None);
}

#[test]
fn reply_codes() {
    assert_eq!(Reply::Succeeded.code(), 0);
    assert_eq!(Reply::GeneralFailure.code(), 1);
    assert_eq!(Reply::ConnectionNotAllowed.code(), 2);
    assert_eq!(Reply::NetworkUnreachable.code(), 3);
    assert_eq!(Reply::HostUnreachable.code(), 4);
    assert_eq!(Reply::ConnectionRefused.code(), 5);
    assert_eq!(Reply::TtlExpired.code(), 6);
    assert_eq!(Reply::CommandNotSupported.code(), 7);
    assert_eq!(Reply::AddressTypeNotSupported.code(), 8);
}

#[test]
fn address_of_each_type_is_read() {
    assert_eq!(
        parse_address(&[1, 93, 184, 216, 34, 0x01, 0xbb, 0xaa]),
        Frame::Complete(
            Address::SocketAddress(SocketAddress::V4 { ip: 0x5db8_d822, port: 443 }),
            7
        )
    );
    let mut v6 = vec![4u8];
    v6.extend_from_slice(&[0x20, 0x01, 0x0d, 0xb8, 0, 0, 0, 0, 0, 0, 0, 0, 0, 0, 0, 1]);
    v6.extend_from_slice(&[0x1f, 0x90]);
    assert_eq!(
        parse_address(&v6),
        Frame::Complete(
            Address::SocketAddress(SocketAddress::V6 {
                ip: 0x2001_0db8_0000_0000_0000_0000_0000_0001,
                port: 8080,
                flowinfo: 0,
                scope_id: 0,
            }),
            19
        )
    );
    assert_eq!(
        parse_address(&[3, 3, b'a', b'.', b'b', 0, 80]),
        Frame::Complete(Address::DomainName(b"a.b".to_vec(), 80), 7)
    );
    assert_eq!(
        parse_address(&[3, 0, 0, 80]),
        Frame::Complete(Address::DomainName(Vec::new(), 80), 4)
    );
}

#[test]
fn address_that_is_cut_short_is_incomplete() {
    assert_eq!(parse_address(&[]), Frame::Incomplete);
    assert_eq!(parse_address(&[1, 1, 2, 3, 4, 0]), Frame::Incomplete);
    assert_eq!(parse_address(&[4, 1, 2, 3]), Frame::Incomplete);
    assert_eq!(parse_address(&[3]), Frame::Incomplete);
    assert_eq!(parse_address(&[3, 3, b'a', b'.', b'b', 0]), Frame::Incomplete);
}

#[test]
fn address_of_unknown_type_is_rejected() {
    assert_eq!(parse_address(&[2, 0, 0]), Frame::Rejected(Reply::AddressTypeNotSupported));
    assert_eq!(parse_address(&[0]), Frame::Rejected(Reply::AddressTypeNotSupported));
}

#[test]
fn request_is_read_from_a_prefix() {
    assert_eq!(
        parse_request(&[5, 1, 0, 1, 93, 184, 216, 34, 0x01, 0xbb]),
        Frame::Complete(
            TcpRequestHeader {
                command: Command::TcpConnect,
                address: Address::SocketAddress(SocketAddress::V4 {
                    ip: 0x5db8_d822,
                    port: 443
                }),
            },
            10
        )
    );
    assert_eq!(
        parse_request(&[5, 3, 0, 3, 1, b'x', 0, 53, 9, 9]),
        Frame::Complete(
            TcpRequestHeader {
                command: Command::UdpAssociate,
                address: Address::DomainName(b"x".to_vec(), 53),
            },
            8
        )
    );
    assert_eq!(parse_request(&[]), Frame::Incomplete);
    assert_eq!(parse_request(&[5]), Frame::Incomplete);
    assert_eq!(parse_request(&[5, 1]), Frame::Incomplete);
    assert_eq!(parse_request(&[5, 1, 0]), Frame::Incomplete);
    assert_eq!(parse_request(&[5, 1, 0, 1, 1, 2]), Frame::Incomplete);
}

#[test]
fn request_rejections_carry_their_reply() {
    assert_eq!(parse_request(&[4, 1, 0, 1]), Frame::Rejected(Reply::GeneralFailure));
    assert_eq!(parse_request(&[5, 9]), Frame::Rejected(Reply::CommandNotSupported));
    assert_eq!(parse_request(&[5, 1, 0, 9]), Frame::Rejected(Reply::AddressTypeNotSupported));
}

#[test]
fn response_bytes_for_each_address_type() {
    let v4 = Address::SocketAddress(SocketAddress::V4 { ip: 0x7f00_0001, port: 1080 });
    assert_eq!(encode_response(Reply::Succeeded, &v4), vec![5, 0, 0, 1, 127, 0, 0, 1, 0x04, 0x38]);
    let v6 = Address::SocketAddress(SocketAddress::V6 {
        ip: 1,
        port: 2,
        flowinfo: 7,
        scope_id: 8,
    });
    assert_eq!(
        encode_response(Reply::HostUnreachable, &v6),
        vec![5, 4, 0, 4, 0, 0, 0, 0, 0, 0, 0, 0, 0, 0, 0, 0, 0, 0, 0, 1, 0, 2]
    );
    let name = Address::DomainName(b"ab".to_vec(), 0x1234);
    assert_eq!(
        encode_response(Reply::CommandNotSupported, &name),
        vec![5, 7, 0, 3, 2, b'a', b'b', 0x12, 0x34]
    );
}

#[test]
fn address_round_trip_through_the_wire() {
    let addresses = vec![
        Address::SocketAddress(SocketAddress::V4 { ip: 0xc0a8_0001, port: 65535 }),
        Address::SocketAddress(SocketAddress::V6 {
            ip: u128::MAX,
            port: 0,
            flowinfo: 0,
            scope_id: 0,
        }),
        Address::DomainName(b"example.com".to_vec(), 443),
        Address::DomainName(vec![b'x'; 255], 1),
    ];
    for address in addresses {
        assert!(address.is_encodable());
        let mut bytes = Vec::new();
        encode_address(&mut bytes, &address);
        let length = bytes.len();
        bytes.extend_from_slice(b"rest");
        assert_eq!(parse_address(&bytes), Frame::Complete(address.clone(), length));
    }
}

#[test]
fn long_domain_name_is_not_encodable() {
    let long = Address::DomainName(vec![b'x'; 256], 1);
    assert!(!long.is_encodable());
    assert_eq!(long.port(), 1);
    let socket = Address::SocketAddress(SocketAddress::V4 { ip: 1, port: 9 });
    assert!(socket.is_encodable());
    assert_eq!(socket.port(), 9);
}

#[test]
fn socket_address_parts() {
    let v4 = SocketAddress::V4 { ip: 5, port: 6 };
    assert_eq!(v4.port(), 6);
    assert_eq!(v4.ip(), local_relay::addr::IpAddress::V4(5));
    assert_eq!(v4.with_port(7), SocketAddress::V4 { ip: 5, port: 7 });
    let v6 = SocketAddress::V6 { ip: 5, port: 6, flowinfo: 11, scope_id: 12 };
    assert_eq!(v6.port(), 6);
    assert_eq!(v6.ip(), local_relay::addr::IpAddress::V6(5));
    assert_eq!(
        v6.with_port(7),
        SocketAddress::V6 { ip: 5, port: 7, flowinfo: 11, scope_id: 12 }
    );
}
