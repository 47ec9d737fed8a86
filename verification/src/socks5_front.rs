//! The SOCKS5 front-end: greeting, request, dial, reply, relay.
//!
//! The session is a state machine. The I/O layer feeds it the bytes that the
//! client sent and the outcome of the dial, and carries out each [`Step`].

use vstd::prelude::*;
use crate::addr::{Address, AddressView, SocketAddress};
use crate::front::{Ending, Next, NextView, Step, StepView};
use crate::socks5::{
    encode_method_selection, encode_response, lemma_parsed_address_encodable,
    method_selection_bytes, parse_greeting, parse_request, response_bytes, spec_parse_greeting,
    spec_parse_request, Command, Frame, FrameView, Greeting, GreetingView, Reply,
    AUTH_METHOD_NONE, AUTH_METHOD_NOT_ACCEPTABLE,
};
use crate::wire::{append_bytes, contains_byte, copy_range};

verus! {

/// Where a SOCKS5 session stands.
#[derive(Clone, Copy, Debug, PartialEq, Eq, Structural)]
pub enum Socks5Phase {
    /// The client's greeting has not arrived in full.
    Greeting,
    /// "No authentication" was selected; the request has not arrived in full.
    Request,
    /// The client asked for a connection; the tunnel is being opened.
    Dialing,
    /// The client was told of success; bytes are relayed.
    Relaying,
    /// The session is over.
    Closed(Ending),
}

/// The mathematical value of a [`Socks5Session`].
pub struct Socks5SessionView {
    pub phase: Socks5Phase,
    /// The client's own address, which replies carry as the bound address.
    pub peer: SocketAddress,
    /// The local UDP endpoint, where UDP association is enabled.
    pub udp_endpoint: Option<SocketAddress>,
    /// The client's bytes that no record has used up yet.
    pub pending: Seq<u8>,
}

impl Socks5SessionView {
    /// This session, over.
    pub open spec fn closed(self, ending: Ending) -> Socks5SessionView {
        Socks5SessionView { phase: Socks5Phase::Closed(ending), pending: Seq::empty(), ..self }
    }

    /// The reply that refuses a command.
    pub open spec fn refuse_command(self, address: AddressView) -> (Socks5SessionView, StepView) {
        (
            self.closed(Ending::Rejected),
            StepView::answer(
                response_bytes(Reply::CommandNotSupported, address),
                NextView::Close(Ending::Rejected),
            ),
        )
    }

    /// What the session does, in the request phase, with the bytes it holds.
    ///
    /// A request that does not parse is answered with the parser's reply code
    /// and the client's own address. A connect request leads to a dial, and
    /// what follows the request waits for the tunnel. A bind request is
    /// refused. A UDP association is answered with the local UDP endpoint
    /// where there is one, and is refused otherwise.
    pub open spec fn serve_request(self) -> (Socks5SessionView, StepView) {
        match spec_parse_request(self.pending) {
            FrameView::Incomplete => (self, StepView::silent(NextView::Continue)),
            FrameView::Rejected(reply) => (
                self.closed(Ending::Malformed),
                StepView::answer(
                    response_bytes(reply, AddressView::Socket(self.peer)),
                    NextView::Close(Ending::Malformed),
                ),
            ),
            FrameView::Complete(request, n) => match request.command {
                Command::TcpConnect => (
                    Socks5SessionView {
                        phase: Socks5Phase::Dialing,
                        pending: self.pending.skip(n),
                        ..self
                    },
                    StepView::silent(NextView::Dial(request.address)),
                ),
                Command::TcpBind => self.refuse_command(request.address),
                Command::UdpAssociate => match self.udp_endpoint {
                    Some(endpoint) => (
                        self.closed(Ending::Finished),
                        StepView::answer(
                            response_bytes(Reply::Succeeded, AddressView::Socket(endpoint)),
                            NextView::Close(Ending::Finished),
                        ),
                    ),
                    None => self.refuse_command(request.address),
                },
            },
        }
    }

    /// What the session does, in the greeting phase, with the bytes it holds.
    ///
    /// A greeting that offers "no authentication" is answered by selecting
    /// it, and the bytes after the greeting are taken as the request. Any
    /// other greeting is answered with "no acceptable methods".
    pub open spec fn serve_greeting(self) -> (Socks5SessionView, StepView) {
        match spec_parse_greeting(self.pending) {
            GreetingView::Incomplete => (self, StepView::silent(NextView::Continue)),
            GreetingView::BadVersion => (
                self.closed(Ending::Malformed),
                StepView::answer(
                    method_selection_bytes(AUTH_METHOD_NOT_ACCEPTABLE),
                    NextView::Close(Ending::Malformed),
                ),
            ),
            GreetingView::Complete(methods, n) => if methods.contains(AUTH_METHOD_NONE) {
                let (after, step) = Socks5SessionView {
                    phase: Socks5Phase::Request,
                    pending: self.pending.skip(n),
                    ..self
                }.serve_request();
                (after, step.after_answer(method_selection_bytes(AUTH_METHOD_NONE)))
            } else {
                (
                    self.closed(Ending::AuthUnsupported),
                    StepView::answer(
                        method_selection_bytes(AUTH_METHOD_NOT_ACCEPTABLE),
                        NextView::Close(Ending::AuthUnsupported),
                    ),
                )
            },
        }
    }

    /// The session and its step after the client has sent `chunk`.
    ///
    /// While the tunnel is being opened the bytes wait. Once relaying has
    /// begun they go to the remote as they are. A closed session ignores them.
    pub open spec fn on_bytes(self, chunk: Seq<u8>) -> (Socks5SessionView, StepView) {
        let fed = Socks5SessionView { pending: self.pending + chunk, ..self };
        match self.phase {
            Socks5Phase::Greeting => fed.serve_greeting(),
            Socks5Phase::Request => fed.serve_request(),
            Socks5Phase::Dialing => (fed, StepView::silent(NextView::Continue)),
            Socks5Phase::Relaying => (
                self,
                StepView { to_local: Seq::empty(), to_remote: chunk, next: NextView::Continue },
            ),
            Socks5Phase::Closed(ending) => (self, StepView::silent(NextView::Close(ending))),
        }
    }

    /// The session and its step after the dial has ended.
    ///
    /// On success the client is told so, with its own address as the bound
    /// address, and the bytes that waited go to the remote. On failure the
    /// client gets a general failure. Outside the dialing phase the report
    /// changes nothing.
    pub open spec fn on_dial(self, connected: bool) -> (Socks5SessionView, StepView) {
        match self.phase {
            Socks5Phase::Dialing => if connected {
                (
                    Socks5SessionView {
                        phase: Socks5Phase::Relaying,
                        pending: Seq::empty(),
                        ..self
                    },
                    StepView {
                        to_local: response_bytes(Reply::Succeeded, AddressView::Socket(self.peer)),
                        to_remote: self.pending,
                        next: NextView::Relay,
                    },
                )
            } else {
                (
                    self.closed(Ending::DialFailed),
                    StepView::answer(
                        response_bytes(Reply::GeneralFailure, AddressView::Socket(self.peer)),
                        NextView::Close(Ending::DialFailed),
                    ),
                )
            },
            Socks5Phase::Closed(ending) => (self, StepView::silent(NextView::Close(ending))),
            _ => (self, StepView::silent(NextView::Continue)),
        }
    }

    /// The session and its step after the client's stream has ended. The
    /// end is in order while the session relays; before that, it is
    /// unexpected. Nothing is sent either way.
    pub open spec fn on_eof(self) -> (Socks5SessionView, StepView) {
        match self.phase {
            Socks5Phase::Closed(ending) => (self, StepView::silent(NextView::Close(ending))),
            Socks5Phase::Relaying => (
                self.closed(Ending::Finished),
                StepView::silent(NextView::Close(Ending::Finished)),
            ),
            _ => (
                self.closed(Ending::UnexpectedEof),
                StepView::silent(NextView::Close(Ending::UnexpectedEof)),
            ),
        }
    }
}

/// One client connection on the SOCKS5 listener.
pub struct Socks5Session {
    phase: Socks5Phase,
    peer: SocketAddress,
    udp_endpoint: Option<SocketAddress>,
    pending: Vec<u8>,
}

impl View for Socks5Session {
    type V = Socks5SessionView;

    closed spec fn view(&self) -> Socks5SessionView {
        Socks5SessionView {
            phase: self.phase,
            peer: self.peer,
            udp_endpoint: self.udp_endpoint,
            pending: self.pending@,
        }
    }
}

impl Socks5Session {
    /// A session for a client at `peer`, before its first byte. `udp_endpoint`
    /// is the local UDP endpoint where UDP association is enabled.
    pub fn new(peer: SocketAddress, udp_endpoint: Option<SocketAddress>) -> (session: Socks5Session)
        ensures
            session@ == (Socks5SessionView {
                phase: Socks5Phase::Greeting,
                peer,
                udp_endpoint,
                pending: Seq::empty(),
            }),
    {
        Socks5Session { phase: Socks5Phase::Greeting, peer, udp_endpoint, pending: Vec::new() }
    }

    /// Where the session stands.
    pub fn phase(&self) -> (phase: Socks5Phase)
        ensures
            phase == self@.phase,
    {
        self.phase
    }

    fn close(&mut self, ending: Ending)
        ensures
            final(self)@ == old(self)@.closed(ending),
    {
        self.phase = Socks5Phase::Closed(ending);
        self.pending = Vec::new();
    }

    fn refuse_command(&mut self, address: &Address) -> (step: Step)
        requires
            address@.encodable(),
        ensures
            (final(self)@, step@) == old(self)@.refuse_command(address@),
    {
        self.close(Ending::Rejected);
        Step::answer(
            encode_response(Reply::CommandNotSupported, address),
            Next::Close(Ending::Rejected),
        )
    }

    fn serve_request(&mut self) -> (step: Step)
        ensures
            (final(self)@, step@) == old(self)@.serve_request(),
    {
        proof {
            lemma_parsed_address_encodable(self.pending@.skip(3));
        }
        match parse_request(self.pending.as_slice()) {
            Frame::Incomplete => Step::silent(Next::Continue),
            Frame::Rejected(reply) => {
                let peer = Address::SocketAddress(self.peer);
                self.close(Ending::Malformed);
                Step::answer(encode_response(reply, &peer), Next::Close(Ending::Malformed))
            },
            Frame::Complete(request, n) => match request.command {
                Command::TcpConnect => {
                    let rest = copy_range(self.pending.as_slice(), n, self.pending.len());
                    assert(rest@ =~= self.pending@.skip(n as int));
                    self.pending = rest;
                    self.phase = Socks5Phase::Dialing;
                    Step::silent(Next::Dial(request.address))
                },
                Command::TcpBind => self.refuse_command(&request.address),
                Command::UdpAssociate => match self.udp_endpoint {
                    Some(endpoint) => {
                        let bound = Address::SocketAddress(endpoint);
                        self.close(Ending::Finished);
                        Step::answer(
                            encode_response(Reply::Succeeded, &bound),
                            Next::Close(Ending::Finished),
                        )
                    },
                    None => self.refuse_command(&request.address),
                },
            },
        }
    }

    fn serve_greeting(&mut self) -> (step: Step)
        ensures
            (final(self)@, step@) == old(self)@.serve_greeting(),
    {
        match parse_greeting(self.pending.as_slice()) {
            Greeting::Incomplete => Step::silent(Next::Continue),
            Greeting::BadVersion => {
                self.close(Ending::Malformed);
                Step::answer(
                    encode_method_selection(AUTH_METHOD_NOT_ACCEPTABLE),
                    Next::Close(Ending::Malformed),
                )
            },
            Greeting::Complete(methods, n) => {
                if contains_byte(methods.as_slice(), AUTH_METHOD_NONE) {
                    let rest = copy_range(self.pending.as_slice(), n, self.pending.len());
                    assert(rest@ =~= self.pending@.skip(n as int));
                    self.pending = rest;
                    self.phase = Socks5Phase::Request;
                    let step = self.serve_request();
                    let mut to_local = encode_method_selection(AUTH_METHOD_NONE);
                    append_bytes(&mut to_local, step.to_local.as_slice());
                    Step { to_local, to_remote: step.to_remote, next: step.next }
                } else {
                    self.close(Ending::AuthUnsupported);
                    Step::answer(
                        encode_method_selection(AUTH_METHOD_NOT_ACCEPTABLE),
                        Next::Close(Ending::AuthUnsupported),
                    )
                }
            },
        }
    }

    /// Takes in the bytes that the client sent, and says what to do.
    pub fn on_bytes(&mut self, chunk: &[u8]) -> (step: Step)
        ensures
            (final(self)@, step@) == old(self)@.on_bytes(chunk@),
    {
        match self.phase {
            Socks5Phase::Greeting => {
                append_bytes(&mut self.pending, chunk);
                self.serve_greeting()
            },
            Socks5Phase::Request => {
                append_bytes(&mut self.pending, chunk);
                self.serve_request()
            },
            Socks5Phase::Dialing => {
                append_bytes(&mut self.pending, chunk);
                Step::silent(Next::Continue)
            },
            Socks5Phase::Relaying => {
                let forwarded = copy_range(chunk, 0, chunk.len());
                assert(forwarded@ =~= chunk@);
                Step { to_local: Vec::new(), to_remote: forwarded, next: Next::Continue }
            },
            Socks5Phase::Closed(ending) => Step::silent(Next::Close(ending)),
        }
    }

    /// Takes in the outcome of the dial, and says what to do.
    pub fn on_dial(&mut self, connected: bool) -> (step: Step)
        ensures
            (final(self)@, step@) == old(self)@.on_dial(connected),
    {
        match self.phase {
            Socks5Phase::Dialing => {
                let peer = Address::SocketAddress(self.peer);
                if connected {
                    let mut waiting: Vec<u8> = Vec::new();
                    std::mem::swap(&mut waiting, &mut self.pending);
                    self.phase = Socks5Phase::Relaying;
                    Step {
                        to_local: encode_response(Reply::Succeeded, &peer),
                        to_remote: waiting,
                        next: Next::Relay,
                    }
                } else {
                    self.close(Ending::DialFailed);
                    Step::answer(
                        encode_response(Reply::GeneralFailure, &peer),
                        Next::Close(Ending::DialFailed),
                    )
                }
            },
            Socks5Phase::Closed(ending) => Step::silent(Next::Close(ending)),
            _ => Step::silent(Next::Continue),
        }
    }

    /// Takes in the end of the client's stream, and says what to do.
    pub fn on_eof(&mut self) -> (step: Step)
        ensures
            (final(self)@, step@) == old(self)@.on_eof(),
    {
        let ending = match self.phase {
            Socks5Phase::Closed(ending) => {
                return Step::silent(Next::Close(ending));
            },
            Socks5Phase::Relaying => Ending::Finished,
            _ => Ending::UnexpectedEof,
        };
        self.close(ending);
        Step::silent(Next::Close(ending))
    }
}

} // verus!
