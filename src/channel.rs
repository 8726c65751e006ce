//! The cooperative channels of the machine and their program counters.

use vstd::prelude::*;

verus! {

/// Offsets from this value up mean "no program".
pub const INVALID_PC_THRESHOLD: u64 = 0xFFFE;

/// A channel's program counter: an offset into the bytecode segment, or none.
#[derive(Debug, PartialEq, Eq, Structural, Clone, Copy)]
pub enum ProcessCounter {
    Valid(usize),
    Invalid,
}

impl ProcessCounter {
    /// The counter that a raw 16-bit-range offset stands for.
    pub open spec fn of(value: u64) -> ProcessCounter {
        if value >= INVALID_PC_THRESHOLD {
            ProcessCounter::Invalid
        } else {
            ProcessCounter::Valid(value as usize)
        }
    }

    pub fn from(value: u64) -> (r: ProcessCounter)
        ensures
            r == ProcessCounter::of(value),
    {
        if value >= INVALID_PC_THRESHOLD {
            ProcessCounter::Invalid
        } else {
            ProcessCounter::Valid(value as usize)
        }
    }
}

/// The scheduling state of a channel.
#[derive(Debug, PartialEq, Eq, Structural, Clone, Copy)]
pub enum State {
    Ready,
    Running,
    Paused,
    Dead,
}

/// One of the cooperative pseudo-threads of the machine.
#[derive(Debug, PartialEq, Eq, Structural, Clone, Copy)]
pub struct Channel {
    pub state: State,
    pub pc: ProcessCounter,
    /// A program counter staged for the next frame boundary.
    pub next_pc: Option<ProcessCounter>,
}

/// The state that a channel takes on when its counter is set to `pc`.
pub open spec fn state_for(pc: ProcessCounter) -> State {
    match pc {
        ProcessCounter::Valid(_) => State::Ready,
        ProcessCounter::Invalid => State::Dead,
    }
}

impl Channel {
    /// The channel with its counter set to `pc`.
    pub open spec fn with_pc(self, pc: ProcessCounter) -> Channel {
        Channel { state: state_for(pc), pc, ..self }
    }

    /// The channel after the frame-boundary commit of its staged counter.
    pub open spec fn committed(self) -> Channel {
        match self.next_pc {
            Some(pc) => Channel { state: state_for(pc), pc, next_pc: None },
            None => self,
        }
    }

    /// The dead channel with no program and nothing staged.
    pub open spec fn new_spec() -> Channel {
        Channel { state: State::Dead, pc: ProcessCounter::Invalid, next_pc: None }
    }

    /// A dead channel with no program and nothing staged.
    pub fn new() -> (r: Channel)
        ensures
            r == (Channel { state: State::Dead, pc: ProcessCounter::Invalid, next_pc: None }),
    {
        Channel { state: State::Dead, pc: ProcessCounter::Invalid, next_pc: None }
    }

    pub fn reset(&mut self)
        ensures
            *final(self) == (Channel {
                state: State::Dead,
                pc: ProcessCounter::Invalid,
                next_pc: None,
            }),
    {
        self.state = State::Dead;
        self.pc = ProcessCounter::Invalid;
        self.next_pc = None;
    }

    pub fn set_pc(&mut self, pc: ProcessCounter)
        ensures
            *final(self) == old(self).with_pc(pc),
    {
        self.pc = pc;
        self.state = match pc {
            ProcessCounter::Valid(_) => State::Ready,
            ProcessCounter::Invalid => State::Dead,
        };
    }

    pub fn apply_next_pc(&mut self)
        ensures
            *final(self) == old(self).committed(),
    {
        if let Some(next_pc) = self.next_pc {
            self.set_pc(next_pc);
            self.next_pc = None;
        }
    }

    /// Ends the channel's slice: it is paused, saving where it stopped.
    pub fn yield_control(&mut self, execution_pc: ProcessCounter)
        ensures
            *final(self) == old(self).paused_at(execution_pc),
    {
        self.pc = execution_pc;
        self.state = State::Paused;
    }

    /// The channel paused with its counter saved at `pc`.
    pub open spec fn paused_at(self, pc: ProcessCounter) -> Channel {
        Channel { state: State::Paused, pc, ..self }
    }

    /// The channel as the scheduler leaves it when its slice ends: a paused
    /// channel is ready again (dead where it has no program).
    pub open spec fn restored(self) -> Channel {
        if self.state == State::Paused {
            Channel { state: state_for(self.pc), ..self }
        } else {
            self
        }
    }

    /// Ends a slice for the scheduler: see `restored`.
    pub fn restore(&mut self)
        ensures
            *final(self) == old(self).restored(),
    {
        if self.state == State::Paused {
            self.state = match self.pc {
                ProcessCounter::Valid(_) => State::Ready,
                ProcessCounter::Invalid => State::Dead,
            };
        }
    }
}

impl Default for Channel {
    fn default() -> (r: Channel)
        ensures
            r == (Channel { state: State::Dead, pc: ProcessCounter::Invalid, next_pc: None }),
    {
        Channel::new()
    }
}

} // verus!
