//! Resets of the target.

use vstd::prelude::*;
use crate::link::constants::commands::debug::{apiv1, apiv2, DEBUG_COMMAND};
use crate::link::constants::commands::swim;
use crate::link::enums::{DebugMode, STLinkMode};
use super::engine::{text2, text3};
use super::step::{LinkError, Step, StepView};
use super::{Link, LinkView, Parse};

verus! {

impl LinkView {
    /// The command that resets the system of the target.
    pub open spec fn usb_reset(self) -> (LinkView, StepView) {
        self.asked(
            2,
            seq![
                DEBUG_COMMAND,
                if self.version.jtag_api == 1 {
                    apiv1::RESETSYS
                } else {
                    apiv2::RESETSYS
                },
            ],
            2,
            true,
            Parse::Ack,
        )
    }

    /// The command that drives the reset line: low for 0, high for 1, a
    /// pulse for 2. Only the low byte of `value` is sent.
    pub open spec fn jtag_reset(self, value: u32) -> (LinkView, StepView) {
        self.asked(2, seq![DEBUG_COMMAND, apiv2::DRIVE_NRST, value as u8], 2, true, Parse::Ack)
    }

    /// The command that asserts the reset line in SWIM mode, for zero, or
    /// releases it, for any other value.
    pub open spec fn swim_assert_reset(self, srst: u8) -> (LinkView, StepView) {
        self.asked(
            0,
            seq![
                swim::SWIM_COMMAND,
                if srst == 0 {
                    swim::ASSERT_RESET
                } else {
                    swim::DEASSERT_RESET
                },
            ],
            0,
            true,
            Parse::Ack,
        )
    }

    /// The command that drives the reset line for a probe in `mode`: the
    /// command of SWIM in SWIM mode; none on generation 1, which cannot
    /// drive the line; the command of the debug group on the others.
    pub open spec fn assert_srst(self, mode: STLinkMode, srst: u8) -> (LinkView, StepView) {
        if mode == STLinkMode::Debug(DebugMode::SWIM) {
            self.swim_assert_reset(srst)
        } else if self.version.stlink == 1 {
            self.refused(LinkError::UnsupportedFeature)
        } else {
            self.asked(2, seq![DEBUG_COMMAND, apiv2::DRIVE_NRST, srst], 2, true, Parse::Ack)
        }
    }
}

impl Link {
    /// Starts a system reset of the target.
    pub fn usb_reset(&mut self) -> (step: Step)
        requires
            old(self)@.wf(),
            old(self)@.idle(),
        ensures
            (final(self)@, step@) == old(self)@.usb_reset(),
            final(self)@.wf(),
    {
        let body = text2(
            DEBUG_COMMAND,
            if self.version.jtag_api == 1 {
                apiv1::RESETSYS
            } else {
                apiv2::RESETSYS
            },
        );
        self.ask(2, &body, 2, true, Parse::Ack)
    }

    /// Starts a hardware reset: the reset line is driven as `value` says.
    pub fn jtag_reset(&mut self, value: u32) -> (step: Step)
        requires
            old(self)@.wf(),
            old(self)@.idle(),
        ensures
            (final(self)@, step@) == old(self)@.jtag_reset(value),
            final(self)@.wf(),
    {
        let body = text3(DEBUG_COMMAND, apiv2::DRIVE_NRST, #[verifier::truncate] (value as u8));
        self.ask(2, &body, 2, true, Parse::Ack)
    }

    /// Starts driving the reset line of a probe that is in `mode`.
    pub fn assert_srst(&mut self, mode: STLinkMode, srst: u8) -> (step: Step)
        requires
            old(self)@.wf(),
            old(self)@.idle(),
        ensures
            (final(self)@, step@) == old(self)@.assert_srst(mode, srst),
            final(self)@.wf(),
    {
        if mode == STLinkMode::Debug(DebugMode::SWIM) {
            return self.swim_assert_reset(srst);
        }
        if self.version.stlink == 1 {
            return Step::Finished(Err(LinkError::UnsupportedFeature));
        }
        let body = text3(DEBUG_COMMAND, apiv2::DRIVE_NRST, srst);
        self.ask(2, &body, 2, true, Parse::Ack)
    }

    /// Starts asserting, for zero, or releasing the reset line in SWIM
    /// mode.
    pub fn swim_assert_reset(&mut self, srst: u8) -> (step: Step)
        requires
            old(self)@.wf(),
            old(self)@.idle(),
        ensures
            (final(self)@, step@) == old(self)@.swim_assert_reset(srst),
            final(self)@.wf(),
    {
        let body = text2(
            swim::SWIM_COMMAND,
            if srst == 0 {
                swim::ASSERT_RESET
            } else {
                swim::DEASSERT_RESET
            },
        );
        self.ask(0, &body, 0, true, Parse::Ack)
    }
}

} // verus!
