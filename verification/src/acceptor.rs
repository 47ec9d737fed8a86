//! What an acceptor decides for each connection that it has accepted: the
//! connection is served by an upstream, or dropped. A connection is dropped
//! where its socket options could not be set, and where no upstream is
//! usable after each has been tried once; the acceptor goes on accepting.

use vstd::prelude::*;
use crate::addr::SocketAddress;
use crate::selector::{
    lemma_pick_never_forbidden, lemma_resolved_never_forbidden, Attempt, AttemptView,
    SelectorView, Upstream, UpstreamSelector, UpstreamView,
};

verus! {

/// Why a connection is dropped.
#[derive(Clone, Copy, Debug, PartialEq, Eq, Structural)]
pub enum DropReason {
    /// The read timeout or the no-delay option could not be set.
    OptionsFailed,
    /// Every upstream was tried once, and none is usable.
    NoUpstream,
}

/// What the acceptor does next for the connection at hand.
#[derive(Debug, PartialEq, Eq)]
pub enum AcceptStep {
    /// Resolve the host of the upstream at `slot`, and report the outcome.
    Resolve { slot: usize, host: Vec<u8> },
    /// Hand the connection, with this upstream, to a front-end task.
    Serve(Upstream),
    /// Drop the connection and accept the next.
    Drop(DropReason),
}

/// The mathematical value of an [`AcceptStep`].
pub enum AcceptStepView {
    Resolve { slot: int, host: Seq<u8> },
    Serve(UpstreamView),
    Drop(DropReason),
}

impl View for AcceptStep {
    type V = AcceptStepView;

    open spec fn view(&self) -> AcceptStepView {
        match self {
            AcceptStep::Resolve { slot, host } => AcceptStepView::Resolve {
                slot: *slot as int,
                host: host@,
            },
            AcceptStep::Serve(upstream) => AcceptStepView::Serve(upstream@),
            AcceptStep::Drop(reason) => AcceptStepView::Drop(*reason),
        }
    }
}

/// What the acceptor makes of the selector's answer: a connection for which
/// the selector has no upstream left is dropped.
pub open spec fn spec_step_of(attempt: AttemptView) -> AcceptStepView {
    match attempt {
        AttemptView::Exhausted => AcceptStepView::Drop(DropReason::NoUpstream),
        AttemptView::Resolve { slot, host } => AcceptStepView::Resolve { slot, host },
        AttemptView::Ready(upstream) => AcceptStepView::Serve(upstream),
    }
}

/// The selector and the step for a connection that was just accepted. With
/// its socket options set, the selector picks with one attempt for each
/// upstream. Otherwise the connection is dropped and the selector is left
/// alone.
pub open spec fn spec_on_connection(s: SelectorView, options_set: bool) -> (
    SelectorView,
    AcceptStepView,
) {
    if options_set {
        let (after, attempt) = s.pick(s.pool.len());
        (after, spec_step_of(attempt))
    } else {
        (s, AcceptStepView::Drop(DropReason::OptionsFailed))
    }
}

/// The selector and the step after a resolution has ended.
pub open spec fn spec_on_resolved(s: SelectorView, outcome: Option<SocketAddress>) -> (
    SelectorView,
    AcceptStepView,
) {
    let (after, attempt) = s.resolved(outcome);
    (after, spec_step_of(attempt))
}

/// What the acceptor makes of the selector's answer.
pub fn step_of(attempt: Attempt) -> (step: AcceptStep)
    ensures
        step@ == spec_step_of(attempt@),
{
    match attempt {
        Attempt::Exhausted => AcceptStep::Drop(DropReason::NoUpstream),
        Attempt::Resolve { slot, host } => AcceptStep::Resolve { slot, host },
        Attempt::Ready(upstream) => AcceptStep::Serve(upstream),
    }
}

/// The state of one acceptor: its selector, which nothing else changes.
#[derive(Debug)]
pub struct Acceptor {
    selector: UpstreamSelector,
}

impl View for Acceptor {
    type V = SelectorView;

    closed spec fn view(&self) -> SelectorView {
        self.selector@
    }
}

impl Acceptor {
    /// An acceptor with the given selector.
    pub fn new(selector: UpstreamSelector) -> (acceptor: Acceptor)
        ensures
            acceptor@ == selector@,
    {
        Acceptor { selector }
    }

    /// Takes in a connection that was just accepted, and whether its socket
    /// options could be set, and says what to do.
    pub fn on_connection(&mut self, options_set: bool) -> (step: AcceptStep)
        ensures
            (final(self)@, step@) == spec_on_connection(old(self)@, options_set),
            step matches AcceptStep::Serve(upstream) ==> !old(self)@.forbidden.contains(
                upstream.address.spec_ip(),
            ),
    {
        if options_set {
            let budget: usize = self.selector.total();
            step_of(self.selector.pick(budget))
        } else {
            AcceptStep::Drop(DropReason::OptionsFailed)
        }
    }

    /// Takes in the outcome of the resolution that was asked for, and says
    /// what to do.
    pub fn on_resolved(&mut self, outcome: Option<SocketAddress>) -> (step: AcceptStep)
        ensures
            (final(self)@, step@) == spec_on_resolved(old(self)@, outcome),
            step matches AcceptStep::Serve(upstream) ==> !old(self)@.forbidden.contains(
                upstream.address.spec_ip(),
            ),
    {
        step_of(self.selector.resolved(outcome))
    }
}

/// No connection is served at a forbidden address.
pub proof fn lemma_never_served_forbidden(
    s: SelectorView,
    options_set: bool,
    outcome: Option<SocketAddress>,
)
    ensures
        spec_on_connection(s, options_set).1 matches AcceptStepView::Serve(upstream)
            ==> !s.forbidden.contains(upstream.address.spec_ip()),
        spec_on_resolved(s, outcome).1 matches AcceptStepView::Serve(upstream)
            ==> !s.forbidden.contains(upstream.address.spec_ip()),
        spec_on_connection(s, options_set).0.forbidden == s.forbidden,
        spec_on_resolved(s, outcome).0.forbidden == s.forbidden,
{
    lemma_pick_never_forbidden(s, s.pool.len());
    lemma_resolved_never_forbidden(s, outcome);
}

} // verus!
