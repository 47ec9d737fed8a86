//! What a front-end hands back to the I/O layer after each event: bytes for
//! the client, bytes for the remote, and what to do next.

use vstd::prelude::*;
use crate::addr::{Address, AddressView};

verus! {

/// Why a front-end has ended.
#[derive(Clone, Copy, Debug, PartialEq, Eq, Structural)]
pub enum Ending {
    /// Nothing is left to do: the client went away between requests, or what
    /// it asked for was answered in full.
    Finished,
    /// The client offered no method that the relay accepts.
    AuthUnsupported,
    /// The client's bytes are not in the protocol.
    Malformed,
    /// The request is well formed, and the relay does not serve it.
    Rejected,
    /// The proxy server could not be reached.
    DialFailed,
    /// The client went away in the middle of a request.
    UnexpectedEof,
}

/// What the I/O layer does after it has sent the bytes of a [`Step`].
#[derive(Debug, PartialEq, Eq)]
pub enum Next {
    /// Go on as before: read from the client, or wait for the pending dial.
    Continue,
    /// Open the tunnel to this destination, and report how that went.
    Dial(Address),
    /// The tunnel is open and the client has been told: relay from now on.
    Relay,
    /// Close the connection.
    Close(Ending),
}

/// The mathematical value of a [`Next`].
pub enum NextView {
    Continue,
    Dial(AddressView),
    Relay,
    Close(Ending),
}

impl View for Next {
    type V = NextView;

    open spec fn view(&self) -> NextView {
        match self {
            Next::Continue => NextView::Continue,
            Next::Dial(address) => NextView::Dial(address@),
            Next::Relay => NextView::Relay,
            Next::Close(ending) => NextView::Close(*ending),
        }
    }
}

/// The outcome of one event: `to_local` is written to the client and flushed,
/// `to_remote` is written to the tunnel, and then `next` is carried out.
#[derive(Debug, PartialEq, Eq)]
pub struct Step {
    pub to_local: Vec<u8>,
    pub to_remote: Vec<u8>,
    pub next: Next,
}

/// The mathematical value of a [`Step`].
pub struct StepView {
    pub to_local: Seq<u8>,
    pub to_remote: Seq<u8>,
    pub next: NextView,
}

impl View for Step {
    type V = StepView;

    open spec fn view(&self) -> StepView {
        StepView { to_local: self.to_local@, to_remote: self.to_remote@, next: self.next@ }
    }
}

impl StepView {
    /// A step that sends nothing.
    pub open spec fn silent(next: NextView) -> StepView {
        StepView { to_local: Seq::empty(), to_remote: Seq::empty(), next }
    }

    /// A step that sends bytes to the client only.
    pub open spec fn answer(to_local: Seq<u8>, next: NextView) -> StepView {
        StepView { to_local, to_remote: Seq::empty(), next }
    }

    /// This step, with `bytes` sent to the client before its own.
    pub open spec fn after_answer(self, bytes: Seq<u8>) -> StepView {
        StepView { to_local: bytes + self.to_local, to_remote: self.to_remote, next: self.next }
    }
}

impl Step {
    /// A step that sends nothing.
    pub fn silent(next: Next) -> (step: Step)
        ensures
            step@ == StepView::silent(next@),
    {
        Step { to_local: Vec::new(), to_remote: Vec::new(), next }
    }

    /// A step that sends bytes to the client only.
    pub fn answer(to_local: Vec<u8>, next: Next) -> (step: Step)
        ensures
            step@ == StepView::answer(to_local@, next@),
    {
        Step { to_local, to_remote: Vec::new(), next }
    }
}

} // verus!
