//! The HTTP front-end: the first request decides between a blind tunnel
//! (`CONNECT`) and forward proxying; a forwarded connection is then kept
//! alive, request after request, each head rewritten on its way.
//!
//! The session is a state machine. The I/O layer feeds it the bytes that the
//! client sent, the end of the client's stream and the outcome of the dial,
//! and carries out each [`Step`].

use vstd::prelude::*;
use vstd::string::StringSliceAdditionalSpecFns;
use crate::front::{Ending, Next, NextView, Step, StepView};
use crate::http_head::{encode_head, head_bytes, RequestHeadView, MAX_HEAD_LEN};
use crate::http_reading::{read_request, spec_read_request, Reading, ReadingView};
use crate::wire::{append_bytes, copy_range};

verus! {

/// The answer to a `CONNECT` request once the tunnel is open.
pub open spec fn established_response() -> Seq<u8> {
    "HTTP/1.1 200 Connection Established\r\n\r\n".spec_bytes()
}

/// The answer to a request that the relay cannot read or will not serve.
pub open spec fn bad_request_response() -> Seq<u8> {
    "HTTP/1.1 400 Bad Request\r\n\r\n".spec_bytes()
}

/// The answer to a request whose tunnel could not be opened.
pub open spec fn bad_gateway_response() -> Seq<u8> {
    "HTTP/1.1 502 Bad Gateway\r\n\r\n".spec_bytes()
}

/// Where an HTTP session stands.
#[derive(Clone, Copy, Debug, PartialEq, Eq, Structural)]
pub enum HttpPhase {
    /// The first request head has not arrived in full.
    Head,
    /// A `CONNECT` request was read; the tunnel is being opened.
    DialingTunnel,
    /// A request to forward was read; the tunnel is being opened.
    DialingForward,
    /// A blind tunnel: the client's bytes go to the remote as they are.
    Tunnel,
    /// Forward proxying: bodies are passed on, heads are rewritten.
    Forward,
    /// The session is over.
    Closed(Ending),
}

/// The mathematical value of an [`HttpSession`].
pub struct HttpSessionView {
    pub phase: HttpPhase,
    /// The client's bytes that have not been used yet: the start of a head,
    /// or, during the dial, what came after the head.
    pub pending: Seq<u8>,
    /// During the dial of a forwarding session: the rewritten first head.
    pub staged: Seq<u8>,
    /// While forwarding: the bytes of the current body that are still to come.
    pub body_left: u64,
}

/// How far a forwarding session has come with the bytes at hand.
#[derive(Debug, PartialEq, Eq)]
pub enum Progress {
    /// Nothing more can be done with them: here is the step.
    Stopped(Step),
    /// A head was passed on; `rest` is still to be looked at, after `sent`.
    GoOn { rest: Vec<u8>, sent: Vec<u8> },
}

/// The mathematical value of a [`Progress`].
pub enum ProgressView {
    Stopped(StepView),
    GoOn { rest: Seq<u8>, sent: Seq<u8> },
}

impl View for Progress {
    type V = ProgressView;

    open spec fn view(&self) -> ProgressView {
        match self {
            Progress::Stopped(step) => ProgressView::Stopped(step@),
            Progress::GoOn { rest, sent } => ProgressView::GoOn { rest: rest@, sent: sent@ },
        }
    }
}

/// A head with another request target.
pub open spec fn retargeted(head: RequestHeadView, target: Seq<u8>) -> RequestHeadView {
    RequestHeadView { target, ..head }
}

impl HttpSessionView {
    /// A session before its first byte.
    pub open spec fn fresh() -> HttpSessionView {
        HttpSessionView {
            phase: HttpPhase::Head,
            pending: Seq::empty(),
            staged: Seq::empty(),
            body_left: 0,
        }
    }

    /// This session, over.
    pub open spec fn closed(self, ending: Ending) -> HttpSessionView {
        HttpSessionView {
            phase: HttpPhase::Closed(ending),
            pending: Seq::empty(),
            staged: Seq::empty(),
            body_left: 0,
        }
    }

    /// The session ends with `400 Bad Request`.
    pub open spec fn refuse(self, ending: Ending) -> (HttpSessionView, StepView) {
        (self.closed(ending), StepView::answer(bad_request_response(), NextView::Close(ending)))
    }

    /// What the session does with a reading of the bytes it holds, before
    /// the first head is complete.
    ///
    /// A `CONNECT` request that goes somewhere leads to a dial for a tunnel.
    /// Any other request that goes somewhere leads to a dial as well, and its
    /// head, with its target in origin form, waits for the tunnel together
    /// with the length of its body. Everything else is answered with `400 Bad
    /// Request`: a head that cannot be read, or is not complete after
    /// [`MAX_HEAD_LEN`] bytes, a request that goes nowhere, and a request to
    /// forward whose body is not framed by its length.
    pub open spec fn take_first_head(self, reading: ReadingView) -> (HttpSessionView, StepView) {
        match reading {
            ReadingView::Partial => if self.pending.len() > MAX_HEAD_LEN {
                self.refuse(Ending::Malformed)
            } else {
                (self, StepView::silent(NextView::Continue))
            },
            ReadingView::Invalid => self.refuse(Ending::Malformed),
            ReadingView::Complete(request) => if !(0 < request.consumed <= self.pending.len()) {
                self.refuse(Ending::Malformed)
            } else if request.connect {
                match request.tunnel_to {
                    Some(address) => (
                        HttpSessionView {
                            phase: HttpPhase::DialingTunnel,
                            pending: self.pending.skip(request.consumed),
                            ..self
                        },
                        StepView::silent(NextView::Dial(address)),
                    ),
                    None => self.refuse(Ending::Rejected),
                }
            } else if request.transfer_coded {
                self.refuse(Ending::Rejected)
            } else {
                match (request.forward_to, request.rewritten) {
                    (Some(address), Some(target)) => (
                        HttpSessionView {
                            phase: HttpPhase::DialingForward,
                            pending: self.pending.skip(request.consumed),
                            staged: head_bytes(retargeted(request.head, target)),
                            body_left: request.body_length,
                        },
                        StepView::silent(NextView::Dial(address)),
                    ),
                    _ => self.refuse(Ending::Rejected),
                }
            },
        }
    }

    /// What the session does, before the first head is complete, with the
    /// bytes it holds: it has them read, and takes the reading.
    pub open spec fn serve_head(self) -> (HttpSessionView, StepView) {
        self.take_first_head(spec_read_request(self.pending))
    }

    /// A forwarding session ends; what was marked for the remote is still sent.
    pub open spec fn stop(self, ending: Ending, sent: Seq<u8>) -> (HttpSessionView, ProgressView) {
        (
            self.closed(ending),
            ProgressView::Stopped(
                StepView { to_local: Seq::empty(), to_remote: sent, next: NextView::Close(ending) },
            ),
        )
    }

    /// What a forwarding session does with a reading of `buf`, the bytes
    /// since the end of the last body, after `sent` has been marked for the
    /// remote.
    ///
    /// A head that is not complete waits for more bytes. A complete head
    /// whose target has an origin form is passed on with that target, its
    /// body is as long as the reading says, and the bytes after the head are
    /// looked at next. A head that cannot be read, or is not complete after
    /// [`MAX_HEAD_LEN`] bytes, or whose target has no origin form, or whose
    /// body is not framed by its length, ends the session; nothing of it is
    /// passed on.
    pub open spec fn take_next_head(self, reading: ReadingView, buf: Seq<u8>, sent: Seq<u8>) -> (
        HttpSessionView,
        ProgressView,
    ) {
        match reading {
            ReadingView::Partial => if buf.len() > MAX_HEAD_LEN {
                self.stop(Ending::Malformed, sent)
            } else {
                (
                    HttpSessionView { pending: buf, ..self },
                    ProgressView::Stopped(
                        StepView {
                            to_local: Seq::empty(),
                            to_remote: sent,
                            next: NextView::Continue,
                        },
                    ),
                )
            },
            ReadingView::Invalid => self.stop(Ending::Malformed, sent),
            ReadingView::Complete(request) => if !(0 < request.consumed <= buf.len()) {
                self.stop(Ending::Malformed, sent)
            } else if request.transfer_coded {
                self.stop(Ending::Rejected, sent)
            } else {
                match request.rewritten {
                    Some(target) => (
                        HttpSessionView {
                            pending: Seq::empty(),
                            body_left: request.body_length,
                            ..self
                        },
                        ProgressView::GoOn {
                            rest: buf.skip(request.consumed),
                            sent: sent + head_bytes(retargeted(request.head, target)),
                        },
                    ),
                    None => self.stop(Ending::Rejected, sent),
                }
            },
        }
    }

    /// What a forwarding session does with `data`, the client's bytes that it
    /// has not looked at yet, after `sent` has been marked for the remote.
    ///
    /// As long as the current body has bytes to come, they are passed on as
    /// they are, and no more of them than the body has. After that the bytes
    /// are the start of the next head: they are read together with what was
    /// held back of it, and the reading is taken.
    pub open spec fn drive(self, data: Seq<u8>, sent: Seq<u8>) -> (HttpSessionView, StepView)
        decreases self.pending.len() + data.len(),
    {
        if data.len() == 0 {
            (
                self,
                StepView { to_local: Seq::empty(), to_remote: sent, next: NextView::Continue },
            )
        } else if self.body_left > 0 {
            let k = if self.body_left <= data.len() {
                self.body_left as int
            } else {
                data.len() as int
            };
            HttpSessionView { body_left: (self.body_left - k) as u64, ..self }.drive(
                data.skip(k),
                sent + data.take(k),
            )
        } else {
            let buf = self.pending + data;
            let (after, progress) = self.take_next_head(spec_read_request(buf), buf, sent);
            match progress {
                ProgressView::Stopped(step) => (after, step),
                ProgressView::GoOn { rest, sent } => after.drive(rest, sent),
            }
        }
    }

    /// The session and its step after the client has sent `chunk`.
    pub open spec fn on_bytes(self, chunk: Seq<u8>) -> (HttpSessionView, StepView) {
        let fed = HttpSessionView { pending: self.pending + chunk, ..self };
        match self.phase {
            HttpPhase::Head => fed.serve_head(),
            HttpPhase::DialingTunnel => (fed, StepView::silent(NextView::Continue)),
            HttpPhase::DialingForward => (fed, StepView::silent(NextView::Continue)),
            HttpPhase::Tunnel => (
                self,
                StepView { to_local: Seq::empty(), to_remote: chunk, next: NextView::Continue },
            ),
            HttpPhase::Forward => self.drive(chunk, Seq::empty()),
            HttpPhase::Closed(ending) => (self, StepView::silent(NextView::Close(ending))),
        }
    }

    /// Whether the client may go away now without leaving anything undone.
    pub open spec fn at_rest(self) -> bool {
        match self.phase {
            HttpPhase::Head => self.pending.len() == 0,
            HttpPhase::Tunnel => true,
            HttpPhase::Forward => self.body_left == 0 && self.pending.len() == 0,
            _ => false,
        }
    }

    /// The session and its step after the client's stream has ended.
    ///
    /// The end is in order before the first byte of a head and in a tunnel.
    /// In the middle of a head or of a body, and while the tunnel is being
    /// opened, it is unexpected.
    pub open spec fn on_eof(self) -> (HttpSessionView, StepView) {
        match self.phase {
            HttpPhase::Closed(ending) => (self, StepView::silent(NextView::Close(ending))),
            _ => {
                let ending = if self.at_rest() {
                    Ending::Finished
                } else {
                    Ending::UnexpectedEof
                };
                (self.closed(ending), StepView::silent(NextView::Close(ending)))
            },
        }
    }

    /// The session and its step after the dial has ended.
    ///
    /// A tunnel that is open is announced to the client with `200 Connection
    /// Established`, and the bytes that waited go to the remote as they are.
    /// A forwarding session sends its first head and goes on with the bytes
    /// that waited; if they end it at once, the next event says so. On
    /// failure the client gets `502 Bad Gateway`. Outside the dialing phases
    /// the report changes nothing.
    pub open spec fn on_dial(self, connected: bool) -> (HttpSessionView, StepView) {
        match self.phase {
            HttpPhase::DialingTunnel => if connected {
                (
                    HttpSessionView {
                        phase: HttpPhase::Tunnel,
                        pending: Seq::empty(),
                        ..self
                    },
                    StepView {
                        to_local: established_response(),
                        to_remote: self.pending,
                        next: NextView::Relay,
                    },
                )
            } else {
                self.fail_dial()
            },
            HttpPhase::DialingForward => if connected {
                let (after, step) = HttpSessionView {
                    phase: HttpPhase::Forward,
                    pending: Seq::empty(),
                    staged: Seq::empty(),
                    ..self
                }.drive(self.pending, self.staged);
                (after, StepView { next: NextView::Relay, ..step })
            } else {
                self.fail_dial()
            },
            HttpPhase::Closed(ending) => (self, StepView::silent(NextView::Close(ending))),
            _ => (self, StepView::silent(NextView::Continue)),
        }
    }

    /// The session ends with `502 Bad Gateway`.
    pub open spec fn fail_dial(self) -> (HttpSessionView, StepView) {
        (
            self.closed(Ending::DialFailed),
            StepView::answer(bad_gateway_response(), NextView::Close(Ending::DialFailed)),
        )
    }
}

/// One client connection on the HTTP listener.
pub struct HttpSession {
    phase: HttpPhase,
    pending: Vec<u8>,
    staged: Vec<u8>,
    body_left: u64,
}

impl View for HttpSession {
    type V = HttpSessionView;

    closed spec fn view(&self) -> HttpSessionView {
        HttpSessionView {
            phase: self.phase,
            pending: self.pending@,
            staged: self.staged@,
            body_left: self.body_left,
        }
    }
}

/// The bytes of a string, in a vector of their own.
fn text_bytes(text: &str) -> (bytes: Vec<u8>)
    ensures
        bytes@ == text.spec_bytes(),
{
    let raw = text.as_bytes();
    let bytes = copy_range(raw, 0, raw.len());
    assert(bytes@ =~= raw@);
    bytes
}

impl HttpSession {
    /// A session before its first byte.
    pub fn new() -> (session: HttpSession)
        ensures
            session@ == HttpSessionView::fresh(),
    {
        HttpSession {
            phase: HttpPhase::Head,
            pending: Vec::new(),
            staged: Vec::new(),
            body_left: 0,
        }
    }

    /// Where the session stands.
    pub fn phase(&self) -> (phase: HttpPhase)
        ensures
            phase == self@.phase,
    {
        self.phase
    }

    fn close(&mut self, ending: Ending)
        ensures
            final(self)@ == old(self)@.closed(ending),
    {
        self.phase = HttpPhase::Closed(ending);
        self.pending = Vec::new();
        self.staged = Vec::new();
        self.body_left = 0;
    }

    fn refuse(&mut self, ending: Ending) -> (step: Step)
        ensures
            (final(self)@, step@) == old(self)@.refuse(ending),
    {
        self.close(ending);
        Step::answer(text_bytes("HTTP/1.1 400 Bad Request\r\n\r\n"), Next::Close(ending))
    }

    fn fail_dial(&mut self) -> (step: Step)
        ensures
            (final(self)@, step@) == old(self)@.fail_dial(),
    {
        self.close(Ending::DialFailed);
        Step::answer(
            text_bytes("HTTP/1.1 502 Bad Gateway\r\n\r\n"),
            Next::Close(Ending::DialFailed),
        )
    }

    fn stop(&mut self, ending: Ending, sent: Vec<u8>) -> (progress: Progress)
        ensures
            (final(self)@, progress@) == old(self)@.stop(ending, sent@),
    {
        self.close(ending);
        Progress::Stopped(Step { to_local: Vec::new(), to_remote: sent, next: Next::Close(ending) })
    }

    /// Takes in a reading of the bytes that the session holds, as it does
    /// before the first head is complete, and says what to do.
    pub fn take_first_head(&mut self, reading: Reading) -> (step: Step)
        ensures
            (final(self)@, step@) == old(self)@.take_first_head(reading@),
    {
        match reading {
            Reading::Partial => {
                if self.pending.len() > MAX_HEAD_LEN {
                    self.refuse(Ending::Malformed)
                } else {
                    Step::silent(Next::Continue)
                }
            },
            Reading::Invalid => self.refuse(Ending::Malformed),
            Reading::Complete(request) => {
                if request.consumed == 0 || request.consumed > self.pending.len() {
                    return self.refuse(Ending::Malformed);
                }
                let rest = copy_range(self.pending.as_slice(), request.consumed, self.pending.len());
                assert(rest@ =~= self.pending@.skip(request.consumed as int));
                if request.connect {
                    match request.tunnel_to {
                        Some(address) => {
                            self.pending = rest;
                            self.phase = HttpPhase::DialingTunnel;
                            Step::silent(Next::Dial(address))
                        },
                        None => self.refuse(Ending::Rejected),
                    }
                } else if request.transfer_coded {
                    self.refuse(Ending::Rejected)
                } else {
                    match (request.forward_to, request.rewritten) {
                        (Some(address), Some(target)) => {
                            let mut head = request.head;
                            let ghost parsed = head@;
                            head.target = target;
                            assert(head@ == retargeted(parsed, target@));
                            self.staged = encode_head(&head);
                            self.body_left = request.body_length;
                            self.pending = rest;
                            self.phase = HttpPhase::DialingForward;
                            Step::silent(Next::Dial(address))
                        },
                        _ => self.refuse(Ending::Rejected),
                    }
                }
            },
        }
    }

    /// Takes in a reading of `buf`, as a forwarding session does for the
    /// bytes since the end of the last body, and says how far that gets it.
    pub fn take_next_head(&mut self, reading: Reading, buf: Vec<u8>, sent: Vec<u8>) -> (progress:
        Progress)
        ensures
            (final(self)@, progress@) == old(self)@.take_next_head(reading@, buf@, sent@),
    {
        match reading {
            Reading::Partial => {
                if buf.len() > MAX_HEAD_LEN {
                    self.stop(Ending::Malformed, sent)
                } else {
                    self.pending = buf;
                    Progress::Stopped(
                        Step { to_local: Vec::new(), to_remote: sent, next: Next::Continue },
                    )
                }
            },
            Reading::Invalid => self.stop(Ending::Malformed, sent),
            Reading::Complete(request) => {
                if request.consumed == 0 || request.consumed > buf.len() {
                    return self.stop(Ending::Malformed, sent);
                }
                if request.transfer_coded {
                    return self.stop(Ending::Rejected, sent);
                }
                match request.rewritten {
                    Some(target) => {
                        let mut head = request.head;
                        let ghost parsed = head@;
                        head.target = target;
                        assert(head@ == retargeted(parsed, target@));
                        let line = encode_head(&head);
                        let mut sent = sent;
                        append_bytes(&mut sent, line.as_slice());
                        let rest = copy_range(buf.as_slice(), request.consumed, buf.len());
                        assert(rest@ =~= buf@.skip(request.consumed as int));
                        self.pending = Vec::new();
                        self.body_left = request.body_length;
                        Progress::GoOn { rest, sent }
                    },
                    None => self.stop(Ending::Rejected, sent),
                }
            },
        }
    }

    /// Goes through `data` as a forwarding session does, after `sent`.
    fn drive(&mut self, data: Vec<u8>, sent: Vec<u8>) -> (step: Step)
        ensures
            (final(self)@, step@) == old(self)@.drive(data@, sent@),
    {
        let mut rest = data;
        let mut out = sent;
        loop
            invariant
                old(self)@.drive(data@, sent@) == self@.drive(rest@, out@),
            decreases self.pending@.len() + rest@.len(),
        {
            if rest.len() == 0 {
                return Step { to_local: Vec::new(), to_remote: out, next: Next::Continue };
            }
            if self.body_left > 0 {
                let k: usize = if self.body_left <= rest.len() as u64 {
                    self.body_left as usize
                } else {
                    rest.len()
                };
                let passed = vstd::slice::slice_subrange(rest.as_slice(), 0, k);
                assert(passed@ =~= rest@.take(k as int));
                append_bytes(&mut out, passed);
                let after = copy_range(rest.as_slice(), k, rest.len());
                assert(after@ =~= rest@.skip(k as int));
                rest = after;
                self.body_left = self.body_left - k as u64;
            } else {
                let mut buf: Vec<u8> = Vec::new();
                std::mem::swap(&mut buf, &mut self.pending);
                append_bytes(&mut buf, rest.as_slice());
                let reading = read_request(buf.as_slice());
                match self.take_next_head(reading, buf, out) {
                    Progress::Stopped(step) => {
                        return step;
                    },
                    Progress::GoOn { rest: after, sent } => {
                        rest = after;
                        out = sent;
                    },
                }
            }
        }
    }

    /// Takes in the bytes that the client sent, and says what to do.
    pub fn on_bytes(&mut self, chunk: &[u8]) -> (step: Step)
        ensures
            (final(self)@, step@) == old(self)@.on_bytes(chunk@),
    {
        match self.phase {
            HttpPhase::Head => {
                append_bytes(&mut self.pending, chunk);
                let reading = read_request(self.pending.as_slice());
                self.take_first_head(reading)
            },
            HttpPhase::DialingTunnel => {
                append_bytes(&mut self.pending, chunk);
                Step::silent(Next::Continue)
            },
            HttpPhase::DialingForward => {
                append_bytes(&mut self.pending, chunk);
                Step::silent(Next::Continue)
            },
            HttpPhase::Tunnel => {
                let forwarded = copy_range(chunk, 0, chunk.len());
                assert(forwarded@ =~= chunk@);
                Step { to_local: Vec::new(), to_remote: forwarded, next: Next::Continue }
            },
            HttpPhase::Forward => {
                let data = copy_range(chunk, 0, chunk.len());
                assert(data@ =~= chunk@);
                self.drive(data, Vec::new())
            },
            HttpPhase::Closed(ending) => Step::silent(Next::Close(ending)),
        }
    }

    /// Takes in the end of the client's stream, and says what to do.
    pub fn on_eof(&mut self) -> (step: Step)
        ensures
            (final(self)@, step@) == old(self)@.on_eof(),
    {
        let ending = match self.phase {
            HttpPhase::Closed(ending) => {
                return Step::silent(Next::Close(ending));
            },
            HttpPhase::Head => if self.pending.len() == 0 {
                Ending::Finished
            } else {
                Ending::UnexpectedEof
            },
            HttpPhase::Tunnel => Ending::Finished,
            HttpPhase::Forward => if self.body_left == 0 && self.pending.len() == 0 {
                Ending::Finished
            } else {
                Ending::UnexpectedEof
            },
            _ => Ending::UnexpectedEof,
        };
        self.close(ending);
        Step::silent(Next::Close(ending))
    }

    /// Takes in the outcome of the dial, and says what to do.
    pub fn on_dial(&mut self, connected: bool) -> (step: Step)
        ensures
            (final(self)@, step@) == old(self)@.on_dial(connected),
    {
        match self.phase {
            HttpPhase::DialingTunnel => {
                if connected {
                    let mut waiting: Vec<u8> = Vec::new();
                    std::mem::swap(&mut waiting, &mut self.pending);
                    self.phase = HttpPhase::Tunnel;
                    Step {
                        to_local: text_bytes("HTTP/1.1 200 Connection Established\r\n\r\n"),
                        to_remote: waiting,
                        next: Next::Relay,
                    }
                } else {
                    self.fail_dial()
                }
            },
            HttpPhase::DialingForward => {
                if connected {
                    let mut waiting: Vec<u8> = Vec::new();
                    std::mem::swap(&mut waiting, &mut self.pending);
                    let mut staged: Vec<u8> = Vec::new();
                    std::mem::swap(&mut staged, &mut self.staged);
                    self.phase = HttpPhase::Forward;
                    let step = self.drive(waiting, staged);
                    Step { to_local: step.to_local, to_remote: step.to_remote, next: Next::Relay }
                } else {
                    self.fail_dial()
                }
            },
            HttpPhase::Closed(ending) => Step::silent(Next::Close(ending)),
            _ => Step::silent(Next::Continue),
        }
    }
}

} // verus!
