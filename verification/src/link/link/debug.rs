//! Control of the core: run, halt and single step.

use vstd::prelude::*;
use crate::link::constants::commands::debug::{
    apiv2,
    DEBUG_COMMAND,
    FORCEDEBUG,
    RUNCORE,
    STEPCORE,
};
use crate::link::constants::registers::dcb::dhcsr::{C_DEBUGEN, C_HALT, C_MASKINTS, C_STEP, DBGKEY};
use crate::link::constants::registers::dcb::DHCSREG;
use crate::link::util::{append_u32, bytes_u32};
use super::engine::text2;
use super::step::{LinkError, Reply, ReplyView, Step, StepView};
use super::{Link, LinkView, Parse, Task};

verus! {

/// The value that write `stage` of a single step puts in the control
/// register: halt with interrupts masked, then step with interrupts
/// masked, then halt.
pub open spec fn step_value(stage: u8) -> u32 {
    if stage == 0 {
        DBGKEY | C_HALT | C_MASKINTS | C_DEBUGEN
    } else if stage == 1 {
        DBGKEY | C_STEP | C_MASKINTS | C_DEBUGEN
    } else {
        DBGKEY | C_HALT | C_DEBUGEN
    }
}

impl LinkView {
    /// The command that lets the core run: the run command of the first
    /// command set, or the debug key with the enable bit written to the
    /// control register.
    pub open spec fn run(self) -> (LinkView, StepView) {
        if self.version.jtag_api == 1 {
            self.asked(2, seq![DEBUG_COMMAND, RUNCORE], 2, true, Parse::Ack)
        } else {
            self.write_debug_reg(DHCSREG, DBGKEY | C_DEBUGEN)
        }
    }

    /// The command that halts the core: the halt command of the first
    /// command set, or the debug key with the halt and enable bits written
    /// to the control register.
    pub open spec fn halt(self) -> (LinkView, StepView) {
        if self.version.jtag_api == 1 {
            self.asked(2, seq![DEBUG_COMMAND, FORCEDEBUG], 2, true, Parse::Ack)
        } else {
            self.write_debug_reg(DHCSREG, DBGKEY | C_HALT | C_DEBUGEN)
        }
    }

    /// Write `stage` of a single step to the control register.
    pub open spec fn step_write(self, stage: u8) -> (LinkView, StepView) {
        self.issued(
            Task::Stepping { nth: stage },
            2,
            seq![DEBUG_COMMAND, apiv2::WRITEDEBUGREG] + bytes_u32(DHCSREG, true) + bytes_u32(
                step_value(stage),
                true,
            ),
            2,
            true,
        )
    }

    /// The first command of a single step: the step command of the first
    /// command set, or the first of three writes to the control register.
    pub open spec fn step(self) -> (LinkView, StepView) {
        if self.version.jtag_api == 1 {
            self.asked(2, seq![DEBUG_COMMAND, STEPCORE], 2, true, Parse::Ack)
        } else {
            self.step_write(0)
        }
    }

    /// What a single step does once a write is over: the next write
    /// follows the first and the second, and the third ends the step. A
    /// write that failed ends it at once.
    pub open spec fn step_next(self, stage: u8, outcome: Result<usize, LinkError>) -> (
        LinkView,
        StepView,
    ) {
        match outcome {
            Err(e) => self.finished(Err(e)),
            Ok(_) => if stage < 2 {
                self.step_write((stage + 1) as u8)
            } else {
                self.finished(Ok(ReplyView::Done))
            },
        }
    }
}

impl Link {
    /// Starts letting the core run.
    pub fn run(&mut self) -> (step: Step)
        requires
            old(self)@.wf(),
            old(self)@.idle(),
        ensures
            (final(self)@, step@) == old(self)@.run(),
            final(self)@.wf(),
    {
        if self.version.jtag_api == 1 {
            let body = text2(DEBUG_COMMAND, RUNCORE);
            self.ask(2, &body, 2, true, Parse::Ack)
        } else {
            self.write_debug_reg(DHCSREG, DBGKEY | C_DEBUGEN)
        }
    }

    /// Starts halting the core.
    pub fn halt(&mut self) -> (step: Step)
        requires
            old(self)@.wf(),
            old(self)@.idle(),
        ensures
            (final(self)@, step@) == old(self)@.halt(),
            final(self)@.wf(),
    {
        if self.version.jtag_api == 1 {
            let body = text2(DEBUG_COMMAND, FORCEDEBUG);
            self.ask(2, &body, 2, true, Parse::Ack)
        } else {
            self.write_debug_reg(DHCSREG, DBGKEY | C_HALT | C_DEBUGEN)
        }
    }

    fn step_write(&mut self, stage: u8) -> (step: Step)
        requires
            old(self)@.shaped(),
            old(self)@.phase == super::Phase::Idle,
        ensures
            (final(self)@, step@) == old(self)@.step_write(stage),
            final(self)@.wf(),
    {
        let value = if stage == 0 {
            DBGKEY | C_HALT | C_MASKINTS | C_DEBUGEN
        } else if stage == 1 {
            DBGKEY | C_STEP | C_MASKINTS | C_DEBUGEN
        } else {
            DBGKEY | C_HALT | C_DEBUGEN
        };
        let mut body = text2(DEBUG_COMMAND, apiv2::WRITEDEBUGREG);
        append_u32(&mut body, DHCSREG, true);
        append_u32(&mut body, value, true);
        self.issue(Task::Stepping { nth: stage }, 2, &body, 2, true)
    }

    /// Starts a single step of the core.
    pub fn step(&mut self) -> (step: Step)
        requires
            old(self)@.wf(),
            old(self)@.idle(),
        ensures
            (final(self)@, step@) == old(self)@.step(),
            final(self)@.wf(),
    {
        if self.version.jtag_api == 1 {
            let body = text2(DEBUG_COMMAND, STEPCORE);
            self.ask(2, &body, 2, true, Parse::Ack)
        } else {
            self.step_write(0)
        }
    }

    pub(crate) fn step_next(&mut self, stage: u8, outcome: Result<usize, LinkError>) -> (step: Step)
        requires
            old(self)@.shaped(),
            old(self)@.phase == super::Phase::Idle,
        ensures
            (final(self)@, step@) == old(self)@.step_next(stage, outcome),
            final(self)@.wf(),
    {
        match outcome {
            Err(e) => self.finish(Err(e)),
            Ok(_) => {
                if stage < 2 {
                    self.step_write(stage + 1)
                } else {
                    self.finish(Ok(Reply::Done))
                }
            },
        }
    }
}

} // verus!
