//! The SOCKS5 wire format (RFC 1928), as far as the relay speaks it: the
//! client's greeting and request are parsed from a prefix of the bytes
//! received so far, the method selection and the reply are written out.

use vstd::prelude::*;
use crate::addr::{Address, AddressView, SocketAddress};
use crate::wire::{
    append_bytes, be_bytes, be_value, copy_range, lemma_be_bytes_len, push_be, read_be, read_u16,
    read_u32,
};

verus! {

/// The protocol version byte.
pub const SOCKS5_VERSION: u8 = 5;

/// The method "no authentication required".
pub const AUTH_METHOD_NONE: u8 = 0;

/// The answer "no acceptable methods".
pub const AUTH_METHOD_NOT_ACCEPTABLE: u8 = 0xff;

/// Address type: IPv4 address.
pub const ADDR_TYPE_IPV4: u8 = 1;

/// Address type: domain name.
pub const ADDR_TYPE_DOMAIN: u8 = 3;

/// Address type: IPv6 address.
pub const ADDR_TYPE_IPV6: u8 = 4;

/// What the client asks for.
#[derive(Clone, Copy, Debug, PartialEq, Eq, Structural)]
pub enum Command {
    TcpConnect,
    TcpBind,
    UdpAssociate,
}

/// The reply field of a response.
#[derive(Clone, Copy, Debug, PartialEq, Eq, Structural)]
pub enum Reply {
    Succeeded,
    GeneralFailure,
    ConnectionNotAllowed,
    NetworkUnreachable,
    HostUnreachable,
    ConnectionRefused,
    TtlExpired,
    CommandNotSupported,
    AddressTypeNotSupported,
}

impl Reply {
    /// The byte that stands for this reply on the wire.
    pub open spec fn spec_code(self) -> u8 {
        match self {
            Reply::Succeeded => 0,
            Reply::GeneralFailure => 1,
            Reply::ConnectionNotAllowed => 2,
            Reply::NetworkUnreachable => 3,
            Reply::HostUnreachable => 4,
            Reply::ConnectionRefused => 5,
            Reply::TtlExpired => 6,
            Reply::CommandNotSupported => 7,
            Reply::AddressTypeNotSupported => 8,
        }
    }

    /// The byte that stands for this reply on the wire.
    #[verifier::when_used_as_spec(spec_code)]
    pub fn code(self) -> (byte: u8)
        ensures
            byte == self.spec_code(),
    {
        match self {
            Reply::Succeeded => 0,
            Reply::GeneralFailure => 1,
            Reply::ConnectionNotAllowed => 2,
            Reply::NetworkUnreachable => 3,
            Reply::HostUnreachable => 4,
            Reply::ConnectionRefused => 5,
            Reply::TtlExpired => 6,
            Reply::CommandNotSupported => 7,
            Reply::AddressTypeNotSupported => 8,
        }
    }
}

/// The command that a command byte stands for, if any.
pub open spec fn spec_command_of(byte: u8) -> Option<Command> {
    if byte == 1 {
        Some(Command::TcpConnect)
    } else if byte == 2 {
        Some(Command::TcpBind)
    } else if byte == 3 {
        Some(Command::UdpAssociate)
    } else {
        None
    }
}

/// The command that a command byte stands for, if any.
#[verifier::when_used_as_spec(spec_command_of)]
pub fn command_of(byte: u8) -> (command: Option<Command>)
    ensures
        command == spec_command_of(byte),
{
    if byte == 1 {
        Some(Command::TcpConnect)
    } else if byte == 2 {
        Some(Command::TcpBind)
    } else if byte == 3 {
        Some(Command::UdpAssociate)
    } else {
        None
    }
}

/// What a prefix of the client's bytes amounts to when read as a greeting.
#[derive(Debug, PartialEq, Eq)]
pub enum Greeting {
    /// More bytes are needed.
    Incomplete,
    /// The first byte is not the SOCKS5 version.
    BadVersion,
    /// The methods that the client offers, and the length of the greeting.
    Complete(Vec<u8>, usize),
}

/// The mathematical value of a [`Greeting`].
pub enum GreetingView {
    Incomplete,
    BadVersion,
    Complete(Seq<u8>, int),
}

impl View for Greeting {
    type V = GreetingView;

    open spec fn view(&self) -> GreetingView {
        match self {
            Greeting::Incomplete => GreetingView::Incomplete,
            Greeting::BadVersion => GreetingView::BadVersion,
            Greeting::Complete(methods, n) => GreetingView::Complete(methods@, *n as int),
        }
    }
}

/// What a prefix of the client's bytes amounts to when read as one record.
#[derive(Debug, PartialEq, Eq)]
pub enum Frame<T> {
    /// More bytes are needed.
    Incomplete,
    /// The bytes are no such record; the reply code says why.
    Rejected(Reply),
    /// The record, and the number of bytes it takes.
    Complete(T, usize),
}

/// The mathematical value of a [`Frame`].
pub enum FrameView<V> {
    Incomplete,
    Rejected(Reply),
    Complete(V, int),
}

impl<T: View> View for Frame<T> {
    type V = FrameView<T::V>;

    open spec fn view(&self) -> FrameView<T::V> {
        match self {
            Frame::Incomplete => FrameView::Incomplete,
            Frame::Rejected(reply) => FrameView::Rejected(*reply),
            Frame::Complete(value, n) => FrameView::Complete(value@, *n as int),
        }
    }
}

/// The client's request: a command and the address it is about.
#[derive(Debug, PartialEq, Eq)]
pub struct TcpRequestHeader {
    pub command: Command,
    pub address: Address,
}

/// The mathematical value of a [`TcpRequestHeader`].
pub struct TcpRequestView {
    pub command: Command,
    pub address: AddressView,
}

impl View for TcpRequestHeader {
    type V = TcpRequestView;

    open spec fn view(&self) -> TcpRequestView {
        TcpRequestView { command: self.command, address: self.address@ }
    }
}

/// The greeting at the start of `buf`: version, number of methods, methods.
pub open spec fn spec_parse_greeting(buf: Seq<u8>) -> GreetingView {
    if buf.len() < 1 {
        GreetingView::Incomplete
    } else if buf[0] != SOCKS5_VERSION {
        GreetingView::BadVersion
    } else if buf.len() < 2 || buf.len() < 2 + buf[1] {
        GreetingView::Incomplete
    } else {
        GreetingView::Complete(buf.subrange(2, 2 + buf[1]), 2 + buf[1])
    }
}

/// The address at the start of `buf`: address type, address, port.
pub open spec fn spec_parse_address(buf: Seq<u8>) -> FrameView<AddressView> {
    if buf.len() < 1 {
        FrameView::Incomplete
    } else if buf[0] == ADDR_TYPE_IPV4 {
        if buf.len() < 7 {
            FrameView::Incomplete
        } else {
            FrameView::Complete(
                AddressView::Socket(
                    SocketAddress::V4 {
                        ip: be_value(buf.subrange(1, 5)) as u32,
                        port: be_value(buf.subrange(5, 7)) as u16,
                    },
                ),
                7,
            )
        }
    } else if buf[0] == ADDR_TYPE_IPV6 {
        if buf.len() < 19 {
            FrameView::Incomplete
        } else {
            FrameView::Complete(
                AddressView::Socket(
                    SocketAddress::V6 {
                        ip: be_value(buf.subrange(1, 17)) as u128,
                        port: be_value(buf.subrange(17, 19)) as u16,
                        flowinfo: 0,
                        scope_id: 0,
                    },
                ),
                19,
            )
        }
    } else if buf[0] == ADDR_TYPE_DOMAIN {
        if buf.len() < 2 || buf.len() < 4 + buf[1] {
            FrameView::Incomplete
        } else {
            FrameView::Complete(
                AddressView::Domain(
                    buf.subrange(2, 2 + buf[1]),
                    be_value(buf.subrange(2 + buf[1], 4 + buf[1])) as u16,
                ),
                4 + buf[1],
            )
        }
    } else {
        FrameView::Rejected(Reply::AddressTypeNotSupported)
    }
}

/// The request at the start of `buf`: version, command, a reserved byte, and
/// the address. A wrong version is a general failure; an unknown command and
/// an unknown address type have reply codes of their own.
pub open spec fn spec_parse_request(buf: Seq<u8>) -> FrameView<TcpRequestView> {
    if buf.len() < 1 {
        FrameView::Incomplete
    } else if buf[0] != SOCKS5_VERSION {
        FrameView::Rejected(Reply::GeneralFailure)
    } else if buf.len() < 2 {
        FrameView::Incomplete
    } else if spec_command_of(buf[1]) is None {
        FrameView::Rejected(Reply::CommandNotSupported)
    } else if buf.len() < 3 {
        FrameView::Incomplete
    } else {
        match spec_parse_address(buf.skip(3)) {
            FrameView::Incomplete => FrameView::Incomplete,
            FrameView::Rejected(reply) => FrameView::Rejected(reply),
            FrameView::Complete(address, n) => FrameView::Complete(
                TcpRequestView { command: spec_command_of(buf[1]).unwrap(), address },
                3 + n,
            ),
        }
    }
}

/// The method selection that answers a greeting.
pub open spec fn method_selection_bytes(method: u8) -> Seq<u8> {
    seq![SOCKS5_VERSION, method]
}

/// An address as the wire format has it: address type, address, port.
pub open spec fn address_bytes(address: AddressView) -> Seq<u8> {
    match address {
        AddressView::Socket(SocketAddress::V4 { ip, port }) => seq![ADDR_TYPE_IPV4] + be_bytes(
            ip as nat,
            4,
        ) + be_bytes(port as nat, 2),
        AddressView::Socket(SocketAddress::V6 { ip, port, .. }) => seq![ADDR_TYPE_IPV6] + be_bytes(
            ip as nat,
            16,
        ) + be_bytes(port as nat, 2),
        AddressView::Domain(name, port) => seq![ADDR_TYPE_DOMAIN, name.len() as u8] + name
            + be_bytes(port as nat, 2),
    }
}

/// A response: version, reply code, a reserved zero byte, and the bound address.
pub open spec fn response_bytes(reply: Reply, bound: AddressView) -> Seq<u8> {
    seq![SOCKS5_VERSION, reply.spec_code(), 0u8] + address_bytes(bound)
}

/// Reads a greeting from the start of `buf`.
pub fn parse_greeting(buf: &[u8]) -> (greeting: Greeting)
    ensures
        greeting@ == spec_parse_greeting(buf@),
{
    if buf.len() < 1 {
        return Greeting::Incomplete;
    }
    if buf[0] != SOCKS5_VERSION {
        return Greeting::BadVersion;
    }
    if buf.len() < 2 {
        return Greeting::Incomplete;
    }
    let count: usize = buf[1] as usize;
    if buf.len() - 2 < count {
        return Greeting::Incomplete;
    }
    Greeting::Complete(copy_range(buf, 2, 2 + count), 2 + count)
}

/// Reads an address from the start of `buf`.
pub fn parse_address(buf: &[u8]) -> (frame: Frame<Address>)
    ensures
        frame@ == spec_parse_address(buf@),
{
    if buf.len() < 1 {
        return Frame::Incomplete;
    }
    let kind: u8 = buf[0];
    if kind == ADDR_TYPE_IPV4 {
        if buf.len() < 7 {
            return Frame::Incomplete;
        }
        let ip: u32 = read_u32(buf, 1);
        let port: u16 = read_u16(buf, 5);
        Frame::Complete(Address::SocketAddress(SocketAddress::V4 { ip, port }), 7)
    } else if kind == ADDR_TYPE_IPV6 {
        if buf.len() < 19 {
            return Frame::Incomplete;
        }
        let ip: u128 = read_be(buf, 1, 16);
        let port: u16 = read_u16(buf, 17);
        Frame::Complete(
            Address::SocketAddress(SocketAddress::V6 { ip, port, flowinfo: 0, scope_id: 0 }),
            19,
        )
    } else if kind == ADDR_TYPE_DOMAIN {
        if buf.len() < 2 {
            return Frame::Incomplete;
        }
        let count: usize = buf[1] as usize;
        if buf.len() - 2 < count + 2 {
            return Frame::Incomplete;
        }
        let name = copy_range(buf, 2, 2 + count);
        let port: u16 = read_u16(buf, 2 + count);
        Frame::Complete(Address::DomainName(name, port), 4 + count)
    } else {
        Frame::Rejected(Reply::AddressTypeNotSupported)
    }
}

/// Reads a request from the start of `buf`.
pub fn parse_request(buf: &[u8]) -> (frame: Frame<TcpRequestHeader>)
    ensures
        frame@ == spec_parse_request(buf@),
{
    if buf.len() < 1 {
        return Frame::Incomplete;
    }
    if buf[0] != SOCKS5_VERSION {
        return Frame::Rejected(Reply::GeneralFailure);
    }
    if buf.len() < 2 {
        return Frame::Incomplete;
    }
    let command = match command_of(buf[1]) {
        Some(command) => command,
        None => {
            return Frame::Rejected(Reply::CommandNotSupported);
        },
    };
    if buf.len() < 3 {
        return Frame::Incomplete;
    }
    let rest = vstd::slice::slice_subrange(buf, 3, buf.len());
    assert(rest@ =~= buf@.skip(3));
    match parse_address(rest) {
        Frame::Incomplete => Frame::Incomplete,
        Frame::Rejected(reply) => Frame::Rejected(reply),
        Frame::Complete(address, n) => Frame::Complete(TcpRequestHeader { command, address }, 3 + n),
    }
}

/// Writes the method selection that answers a greeting.
pub fn encode_method_selection(method: u8) -> (bytes: Vec<u8>)
    ensures
        bytes@ == method_selection_bytes(method),
{
    let mut bytes: Vec<u8> = Vec::new();
    bytes.push(SOCKS5_VERSION);
    bytes.push(method);
    assert(bytes@ =~= method_selection_bytes(method));
    bytes
}

/// Appends an address in the wire format to `out`.
pub fn encode_address(out: &mut Vec<u8>, address: &Address)
    requires
        address@.encodable(),
    ensures
        final(out)@ == old(out)@ + address_bytes(address@),
{
    match address {
        Address::SocketAddress(SocketAddress::V4 { ip, port }) => {
            out.push(ADDR_TYPE_IPV4);
            push_be(out, *ip as u128, 4);
            push_be(out, *port as u128, 2);
            assert(out@ =~= old(out)@ + address_bytes(address@));
        },
        Address::SocketAddress(SocketAddress::V6 { ip, port, .. }) => {
            out.push(ADDR_TYPE_IPV6);
            push_be(out, *ip, 16);
            push_be(out, *port as u128, 2);
            assert(out@ =~= old(out)@ + address_bytes(address@));
        },
        Address::DomainName(name, port) => {
            out.push(ADDR_TYPE_DOMAIN);
            out.push(name.len() as u8);
            append_bytes(out, name.as_slice());
            push_be(out, *port as u128, 2);
            assert(out@ =~= old(out)@ + address_bytes(address@));
        },
    }
}

/// Writes a response with the given reply code and bound address.
pub fn encode_response(reply: Reply, bound: &Address) -> (bytes: Vec<u8>)
    requires
        bound@.encodable(),
    ensures
        bytes@ == response_bytes(reply, bound@),
{
    let mut bytes: Vec<u8> = Vec::new();
    bytes.push(SOCKS5_VERSION);
    bytes.push(reply.code());
    bytes.push(0);
    encode_address(&mut bytes, bound);
    assert(bytes@ =~= response_bytes(reply, bound@));
    bytes
}

/// An address read from the wire can always be written back: its domain name,
/// if it has one, is no longer than the length byte allows.
pub proof fn lemma_parsed_address_encodable(buf: Seq<u8>)
    ensures
        spec_parse_address(buf) matches FrameView::Complete(address, n) ==> address.encodable()
            && 0 < n <= buf.len(),
{
}

/// Reading what was written gives the address back, whatever follows it. (The
/// wire format has no room for the flow information and the scope of an IPv6
/// address: both are read as zero.)
pub proof fn lemma_address_round_trip(address: AddressView, rest: Seq<u8>)
    requires
        address.encodable(),
        address matches AddressView::Socket(SocketAddress::V6 { flowinfo, scope_id, .. })
            ==> flowinfo == 0 && scope_id == 0,
    ensures
        spec_parse_address(address_bytes(address) + rest) == FrameView::Complete(
            address,
            address_bytes(address).len() as int,
        ),
{
    let bytes = address_bytes(address);
    let buf = bytes + rest;
    crate::wire::lemma_pow256_values();
    match address {
        AddressView::Socket(SocketAddress::V4 { ip, port }) => {
            lemma_be_bytes_len(ip as nat, 4);
            lemma_be_bytes_len(port as nat, 2);
            crate::wire::lemma_be_value_of_bytes(ip as nat, 4);
            crate::wire::lemma_be_value_of_bytes(port as nat, 2);
            assert(buf.subrange(1, 5) =~= be_bytes(ip as nat, 4));
            assert(buf.subrange(5, 7) =~= be_bytes(port as nat, 2));
        },
        AddressView::Socket(SocketAddress::V6 { ip, port, .. }) => {
            lemma_be_bytes_len(ip as nat, 16);
            lemma_be_bytes_len(port as nat, 2);
            crate::wire::lemma_be_value_of_bytes(ip as nat, 16);
            crate::wire::lemma_be_value_of_bytes(port as nat, 2);
            assert(buf.subrange(1, 17) =~= be_bytes(ip as nat, 16));
            assert(buf.subrange(17, 19) =~= be_bytes(port as nat, 2));
        },
        AddressView::Domain(name, port) => {
            lemma_be_bytes_len(port as nat, 2);
            crate::wire::lemma_be_value_of_bytes(port as nat, 2);
            assert(buf[1] == name.len());
            assert(buf.subrange(2, 2 + buf[1]) =~= name);
            assert(buf.subrange(2 + buf[1], 4 + buf[1]) =~= be_bytes(port as nat, 2));
        },
    }
}

/// Writing out an address that was read gives back the bytes that it was
/// read from.
pub proof fn lemma_address_write_back(buf: Seq<u8>)
    ensures
        spec_parse_address(buf) matches FrameView::Complete(address, n) ==> address_bytes(address)
            == buf.take(n),
{
    crate::wire::lemma_pow256_values();
    match spec_parse_address(buf) {
        FrameView::Complete(address, n) => {
            let written = address_bytes(address);
            if buf[0] == ADDR_TYPE_IPV4 {
                crate::wire::lemma_be_bytes_of_value(buf.subrange(1, 5));
                crate::wire::lemma_be_bytes_of_value(buf.subrange(5, 7));
                crate::wire::lemma_be_value_bound(buf.subrange(1, 5));
                crate::wire::lemma_be_value_bound(buf.subrange(5, 7));
                assert(written =~= buf.take(n));
            } else if buf[0] == ADDR_TYPE_IPV6 {
                crate::wire::lemma_be_bytes_of_value(buf.subrange(1, 17));
                crate::wire::lemma_be_bytes_of_value(buf.subrange(17, 19));
                crate::wire::lemma_be_value_bound(buf.subrange(1, 17));
                crate::wire::lemma_be_value_bound(buf.subrange(17, 19));
                assert(written =~= buf.take(n));
            } else {
                let count = buf[1] as int;
                crate::wire::lemma_be_bytes_of_value(buf.subrange(2 + count, 4 + count));
                crate::wire::lemma_be_value_bound(buf.subrange(2 + count, 4 + count));
                assert(written =~= buf.take(n));
            }
        },
        _ => {},
    }
}

} // verus!
