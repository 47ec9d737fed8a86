//! The relay pump: one task per direction copies chunk by chunk until its
//! source ends or fails, then closes what it holds. The two directions of a
//! connection end independently, and the connection is released when both
//! have ended.

use vstd::prelude::*;

verus! {

/// One of the two directions of a relayed connection.
#[derive(Clone, Copy, Debug, PartialEq, Eq, Structural)]
pub enum Direction {
    /// From the client to the proxy server.
    Outbound,
    /// From the proxy server to the client.
    Inbound,
}

/// How one copy step went: a chunk was read and written, or reading or
/// writing failed. A chunk of no bytes is the end of the source.
#[derive(Clone, Copy, Debug, PartialEq, Eq, Structural)]
pub enum CopyOutcome {
    Copied(usize),
    Failed,
}

/// What a direction's task does after a copy step.
#[derive(Clone, Copy, Debug, PartialEq, Eq, Structural)]
pub enum PumpAction {
    /// Copy the next chunk.
    Continue,
    /// Flush the writer, shut down both of the direction's endpoints, and
    /// leave.
    Finish,
}

/// Whether a copy step is the last one of its direction.
pub open spec fn spec_is_final(outcome: CopyOutcome) -> bool {
    match outcome {
        CopyOutcome::Copied(n) => n == 0,
        CopyOutcome::Failed => true,
    }
}

/// Whether a copy step is the last one of its direction.
#[verifier::when_used_as_spec(spec_is_final)]
pub fn is_final(outcome: CopyOutcome) -> (last: bool)
    ensures
        last == spec_is_final(outcome),
{
    match outcome {
        CopyOutcome::Copied(n) => n == 0,
        CopyOutcome::Failed => true,
    }
}

/// The two directions of one relayed connection: which of them still run.
#[derive(Clone, Copy, Debug, PartialEq, Eq, Structural)]
pub struct RelayPair {
    pub outbound_running: bool,
    pub inbound_running: bool,
}

impl RelayPair {
    /// Whether `direction` still runs.
    pub open spec fn spec_running(self, direction: Direction) -> bool {
        match direction {
            Direction::Outbound => self.outbound_running,
            Direction::Inbound => self.inbound_running,
        }
    }

    /// Whether both directions have ended, so that nothing of the connection
    /// is left.
    pub open spec fn spec_released(self) -> bool {
        !self.outbound_running && !self.inbound_running
    }

    /// The pair after a copy step of `direction`: a last step ends that
    /// direction, and the other direction is as it was.
    pub open spec fn spec_after(self, direction: Direction, outcome: CopyOutcome) -> RelayPair {
        if spec_is_final(outcome) {
            match direction {
                Direction::Outbound => RelayPair { outbound_running: false, ..self },
                Direction::Inbound => RelayPair { inbound_running: false, ..self },
            }
        } else {
            self
        }
    }

    /// What the task of `direction` does after a copy step: it goes on while
    /// its direction runs and the step was not the last.
    pub open spec fn spec_action(self, direction: Direction, outcome: CopyOutcome) -> PumpAction {
        if self.spec_running(direction) && !spec_is_final(outcome) {
            PumpAction::Continue
        } else {
            PumpAction::Finish
        }
    }

    /// The pair after a series of copy steps.
    pub open spec fn spec_after_all(self, steps: Seq<(Direction, CopyOutcome)>) -> RelayPair
        decreases steps.len(),
    {
        if steps.len() == 0 {
            self
        } else {
            self.spec_after_all(steps.drop_last()).spec_after(steps.last().0, steps.last().1)
        }
    }

    /// A pair with both directions running.
    pub fn new() -> (pair: RelayPair)
        ensures
            pair == (RelayPair { outbound_running: true, inbound_running: true }),
    {
        RelayPair { outbound_running: true, inbound_running: true }
    }

    /// Whether `direction` still runs.
    #[verifier::when_used_as_spec(spec_running)]
    pub fn running(self, direction: Direction) -> (running: bool)
        ensures
            running == self.spec_running(direction),
    {
        match direction {
            Direction::Outbound => self.outbound_running,
            Direction::Inbound => self.inbound_running,
        }
    }

    /// Whether both directions have ended.
    #[verifier::when_used_as_spec(spec_released)]
    pub fn released(self) -> (released: bool)
        ensures
            released == self.spec_released(),
    {
        !self.outbound_running && !self.inbound_running
    }

    /// Takes in a copy step of `direction`, and says what its task does.
    pub fn on_copy(&mut self, direction: Direction, outcome: CopyOutcome) -> (action: PumpAction)
        ensures
            *final(self) == old(self).spec_after(direction, outcome),
            action == old(self).spec_action(direction, outcome),
            final(self).spec_running(direction) == (action == PumpAction::Continue),
    {
        let goes_on = self.running(direction) && !is_final(outcome);
        if is_final(outcome) {
            match direction {
                Direction::Outbound => {
                    self.outbound_running = false;
                },
                Direction::Inbound => {
                    self.inbound_running = false;
                },
            }
        }
        if goes_on {
            PumpAction::Continue
        } else {
            PumpAction::Finish
        }
    }
}

/// Whether a series of copy steps holds a last step of `direction`.
pub open spec fn ends_direction(steps: Seq<(Direction, CopyOutcome)>, direction: Direction) -> bool {
    exists|i: int| 0 <= i < steps.len() && steps[i].0 == direction && spec_is_final(steps[i].1)
}

/// A direction that has ended stays ended, whatever steps follow.
pub proof fn lemma_ended_stays_ended(
    pair: RelayPair,
    steps: Seq<(Direction, CopyOutcome)>,
    direction: Direction,
)
    requires
        !pair.spec_running(direction),
    ensures
        !pair.spec_after_all(steps).spec_running(direction),
    decreases steps.len(),
{
    if steps.len() > 0 {
        lemma_ended_stays_ended(pair, steps.drop_last(), direction);
    }
}

/// A direction ends with its own last step, and with no step of the other
/// direction: after a series of steps it runs exactly if it ran before and
/// the series holds no last step of it.
pub proof fn lemma_directions_independent(
    pair: RelayPair,
    steps: Seq<(Direction, CopyOutcome)>,
    direction: Direction,
)
    ensures
        pair.spec_after_all(steps).spec_running(direction) == (pair.spec_running(direction)
            && !ends_direction(steps, direction)),
    decreases steps.len(),
{
    if steps.len() > 0 {
        let earlier = steps.drop_last();
        lemma_directions_independent(pair, earlier, direction);
        if ends_direction(earlier, direction) {
            let i = choose|i: int|
                0 <= i < earlier.len() && earlier[i].0 == direction && spec_is_final(earlier[i].1);
            assert(steps[i] == earlier[i]);
        }
        if ends_direction(steps, direction) {
            let i = choose|i: int|
                0 <= i < steps.len() && steps[i].0 == direction && spec_is_final(steps[i].1);
            if i < earlier.len() {
                assert(earlier[i] == steps[i]);
            }
        }
        if steps.last().0 == direction && spec_is_final(steps.last().1) {
            assert(steps[steps.len() - 1] == steps.last());
        }
    }
}

/// Once the source of each direction has ended or failed, nothing of the
/// connection is left: both directions have ended, in whatever order the
/// steps came.
pub proof fn lemma_released_when_both_end(steps: Seq<(Direction, CopyOutcome)>)
    requires
        ends_direction(steps, Direction::Outbound),
        ends_direction(steps, Direction::Inbound),
    ensures
        (RelayPair { outbound_running: true, inbound_running: true }).spec_after_all(
            steps,
        ).spec_released(),
{
    let pair = RelayPair { outbound_running: true, inbound_running: true };
    lemma_directions_independent(pair, steps, Direction::Outbound);
    lemma_directions_independent(pair, steps, Direction::Inbound);
}

} // verus!
