use vstd::prelude::*;
use crate::divide::div;

verus! {

/// The two states of the process-wide fault policy: the program is
/// either still running, or it has halted for good after a fault.
#[derive(Clone, Copy, Debug, PartialEq, Eq, Structural)]
pub enum State {
    Running,
    Halted,
}

/// The whole observable state of the program: nothing persists across
/// calls except the fault-policy state itself.
pub struct Machine {
    pub state: State,
}

impl Machine {
    /// A machine starts out running; no fault has occurred yet.
    pub fn new() -> (machine: Machine)
        ensures
            machine.state is Running,
    {
        Machine { state: State::Running }
    }

    /// Whether the machine has reached the terminal `Halted` state.
    pub fn is_halted(&self) -> (halted: bool)
        ensures
            halted == (self.state is Halted),
    {
        match self.state {
            State::Running => false,
            State::Halted => true,
        }
    }

    /// Attempt a division under the fault policy.
    ///
    /// A zero divisor is the one fault: it yields no numeric value and
    /// moves the machine to `Halted`. `Halted` is terminal: a halted
    /// machine does no further work and never returns to `Running`, so
    /// the transition out of `Running` happens at most once.
    pub fn divide(&mut self, left: u32, right: u32) -> (quotient: Option<u32>)
        ensures
            old(self).state is Halted ==> final(self).state is Halted && quotient is None,
            old(self).state is Running && right == 0 ==> final(self).state is Halted
                && quotient is None,
            old(self).state is Running && right != 0 ==> final(self).state is Running
                && (quotient matches Some(q) && q == left as int / right as int),
    {
        match self.state {
            State::Halted => None,
            State::Running => {
                if right == 0 {
                    self.state = State::Halted;
                    None
                } else {
                    Some(div(left, right))
                }
            }
        }
    }
}

} // verus!
