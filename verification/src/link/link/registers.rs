//! Access to the debug registers and the core registers of the target.

use vstd::prelude::*;
use crate::link::constants::commands::debug::{apiv1, apiv2, DEBUG_COMMAND};
use crate::link::util::{append_u32, bytes_u32};
use super::engine::{text2, text3};
use super::step::{LinkError, Step, StepView};
use super::{Link, LinkView, Parse};

verus! {

impl LinkView {
    /// The command that writes a debug register: the debug group, the
    /// write command of the command set, the address and the value, both
    /// least significant byte first. Two bytes acknowledge it.
    pub open spec fn write_debug_reg(self, address: u32, value: u32) -> (LinkView, StepView) {
        self.asked(
            2,
            seq![
                DEBUG_COMMAND,
                if self.version.jtag_api == 1 {
                    apiv1::WRITEDEBUGREG
                } else {
                    apiv2::WRITEDEBUGREG
                },
            ] + bytes_u32(address, true) + bytes_u32(value, true),
            2,
            true,
            Parse::Ack,
        )
    }

    /// The command that reads a debug register, which generation 1 does
    /// not have: the debug group, the read command and the address. The
    /// value stands behind the status in a reply of eight bytes.
    pub open spec fn read_debug_reg(self, address: u32) -> (LinkView, StepView) {
        if self.version.stlink == 1 {
            self.refused(LinkError::UnsupportedFeature)
        } else {
            self.asked(
                8,
                seq![DEBUG_COMMAND, apiv2::READDEBUGREG] + bytes_u32(address, true),
                8,
                false,
                Parse::WordAfterStatus,
            )
        }
    }

    /// The command that reads core register `num`. Generation 1 answers
    /// with the value alone, the others with a status in front of it.
    pub open spec fn read_reg(self, num: u8) -> (LinkView, StepView) {
        if self.version.stlink == 1 {
            self.asked(4, seq![DEBUG_COMMAND, apiv1::READREG, num], 4, true, Parse::Word)
        } else {
            self.asked(
                8,
                seq![DEBUG_COMMAND, apiv2::READREG, num],
                8,
                true,
                Parse::WordAfterStatus,
            )
        }
    }

    /// The command that reads all core registers in one transfer of 84
    /// bytes with the first command set and of 88 bytes with the others.
    pub open spec fn read_core_regs(self) -> (LinkView, StepView) {
        if self.version.jtag_api == 1 {
            self.asked(84, seq![DEBUG_COMMAND, apiv1::READALLREGS], 84, true, Parse::Registers)
        } else {
            self.asked(88, seq![DEBUG_COMMAND, apiv2::READALLREGS], 88, true, Parse::Registers)
        }
    }
}

impl Link {
    /// Starts the write of `value` to the debug register at `address`.
    pub fn write_debug_reg(&mut self, address: u32, value: u32) -> (step: Step)
        requires
            old(self)@.wf(),
            old(self)@.idle(),
        ensures
            (final(self)@, step@) == old(self)@.write_debug_reg(address, value),
            final(self)@.wf(),
    {
        let mut body = text2(
            DEBUG_COMMAND,
            if self.version.jtag_api == 1 {
                apiv1::WRITEDEBUGREG
            } else {
                apiv2::WRITEDEBUGREG
            },
        );
        append_u32(&mut body, address, true);
        append_u32(&mut body, value, true);
        self.ask(2, &body, 2, true, Parse::Ack)
    }

    /// Starts the read of the debug register at `address`; the operation
    /// ends with the value of the register.
    pub fn read_debug_reg(&mut self, address: u32) -> (step: Step)
        requires
            old(self)@.wf(),
            old(self)@.idle(),
        ensures
            (final(self)@, step@) == old(self)@.read_debug_reg(address),
            final(self)@.wf(),
    {
        if self.version.stlink == 1 {
            return Step::Finished(Err(LinkError::UnsupportedFeature));
        }
        let mut body = text2(DEBUG_COMMAND, apiv2::READDEBUGREG);
        append_u32(&mut body, address, true);
        self.ask(8, &body, 8, false, Parse::WordAfterStatus)
    }

    /// Starts the read of core register `num`; the operation ends with
    /// the value of the register.
    pub fn read_reg(&mut self, num: u8) -> (step: Step)
        requires
            old(self)@.wf(),
            old(self)@.idle(),
        ensures
            (final(self)@, step@) == old(self)@.read_reg(num),
            final(self)@.wf(),
    {
        if self.version.stlink == 1 {
            let body = text3(DEBUG_COMMAND, apiv1::READREG, num);
            self.ask(4, &body, 4, true, Parse::Word)
        } else {
            let body = text3(DEBUG_COMMAND, apiv2::READREG, num);
            self.ask(8, &body, 8, true, Parse::WordAfterStatus)
        }
    }

    /// Starts the read of all core registers; the operation ends with
    /// the snapshot.
    pub fn read_core_regs(&mut self) -> (step: Step)
        requires
            old(self)@.wf(),
            old(self)@.idle(),
        ensures
            (final(self)@, step@) == old(self)@.read_core_regs(),
            final(self)@.wf(),
    {
        if self.version.jtag_api == 1 {
            let body = text2(DEBUG_COMMAND, apiv1::READALLREGS);
            self.ask(84, &body, 84, true, Parse::Registers)
        } else {
            let body = text2(DEBUG_COMMAND, apiv2::READALLREGS);
            self.ask(88, &body, 88, true, Parse::Registers)
        }
    }
}

} // verus!
