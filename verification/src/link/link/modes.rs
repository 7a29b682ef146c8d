//! Entering and leaving the modes of the probe.

use vstd::prelude::*;
use crate::link::constants::commands::debug::{
    apiv1,
    apiv2,
    DEBUG_COMMAND,
    ENTER_JTAG_NO_RESET,
    ENTER_SWD_NO_RESET,
    EXIT,
};
use crate::link::constants::commands::{dfu, swim};
use crate::link::enums::{DebugMode, STLinkMode};
use super::engine::{text2, text3};
use super::step::{LinkError, Step, StepView};
use super::{Link, LinkView, Parse};

verus! {

/// Whether a probe can be told to leave `mode`: it can leave DFU mode and
/// the three debug modes.
pub open spec fn can_leave(mode: STLinkMode) -> bool {
    mode == STLinkMode::DFU || mode == STLinkMode::Debug(DebugMode::JTAG) || mode
        == STLinkMode::Debug(DebugMode::SWD) || mode == STLinkMode::Debug(DebugMode::SWIM)
}

impl LinkView {
    /// The command of the first command set that enters SWD mode.
    pub open spec fn enter_swd_mode(self) -> (LinkView, StepView) {
        self.asked(0, seq![DEBUG_COMMAND, apiv1::ENTER, ENTER_SWD_NO_RESET], 0, true, Parse::Ack)
    }

    /// The command that leaves DFU mode.
    pub open spec fn exit_dfu_mode(self) -> (LinkView, StepView) {
        self.asked(0, seq![dfu::COMMAND, dfu::EXIT], 0, true, Parse::Ack)
    }

    /// The command that leaves debug mode.
    pub open spec fn exit_debug_mode(self) -> (LinkView, StepView) {
        self.asked(0, seq![DEBUG_COMMAND, EXIT], 0, true, Parse::Ack)
    }

    /// The command that leaves `mode`: the exit command of the debug group
    /// for JTAG and SWD, of the SWIM group for SWIM and of the DFU group for
    /// DFU. Two bytes acknowledge it.
    pub open spec fn leave_mode(self, mode: STLinkMode) -> (LinkView, StepView) {
        self.asked(
            2,
            if mode == STLinkMode::DFU {
                seq![dfu::COMMAND, dfu::EXIT]
            } else if mode == STLinkMode::Debug(DebugMode::SWIM) {
                seq![swim::SWIM_COMMAND, swim::EXIT]
            } else {
                seq![DEBUG_COMMAND, EXIT]
            },
            2,
            true,
            Parse::Ack,
        )
    }

    /// The enter command of the command set in use.
    pub open spec fn enter_code(self) -> u8 {
        if self.version.jtag_api == 1 {
            apiv1::ENTER
        } else {
            apiv2::ENTER
        }
    }

    /// The command that enters debug mode `mode`: for JTAG and SWD the
    /// enter command of the debug group with the byte of the transport,
    /// acknowledged by two bytes but with the first command set; for SWIM
    /// the enter command of the SWIM group, which is not acknowledged. No
    /// command enters an unknown mode.
    pub open spec fn enter_mode(self, mode: DebugMode) -> (LinkView, StepView) {
        let acked: usize = if self.version.jtag_api == 1 {
            0
        } else {
            2
        };
        match mode {
            DebugMode::JTAG => self.asked(
                acked as u32,
                seq![DEBUG_COMMAND, self.enter_code(), ENTER_JTAG_NO_RESET],
                acked,
                true,
                Parse::Ack,
            ),
            DebugMode::SWD => self.asked(
                acked as u32,
                seq![DEBUG_COMMAND, self.enter_code(), ENTER_SWD_NO_RESET],
                acked,
                true,
                Parse::Ack,
            ),
            DebugMode::SWIM => self.asked(
                acked as u32,
                seq![swim::SWIM_COMMAND, swim::ENTER],
                0,
                true,
                Parse::Ack,
            ),
            DebugMode::Unknown => self.refused(LinkError::UnsupportedFeature),
        }
    }
}

impl Link {
    /// Starts entering SWD mode with the first command set.
    pub fn enter_swd_mode(&mut self) -> (step: Step)
        requires
            old(self)@.wf(),
            old(self)@.idle(),
        ensures
            (final(self)@, step@) == old(self)@.enter_swd_mode(),
            final(self)@.wf(),
    {
        let body = text3(DEBUG_COMMAND, apiv1::ENTER, ENTER_SWD_NO_RESET);
        self.ask(0, &body, 0, true, Parse::Ack)
    }

    /// Starts leaving DFU mode.
    pub fn exit_dfu_mode(&mut self) -> (step: Step)
        requires
            old(self)@.wf(),
            old(self)@.idle(),
        ensures
            (final(self)@, step@) == old(self)@.exit_dfu_mode(),
            final(self)@.wf(),
    {
        let body = text2(dfu::COMMAND, dfu::EXIT);
        self.ask(0, &body, 0, true, Parse::Ack)
    }

    /// Starts leaving debug mode.
    pub fn exit_debug_mode(&mut self) -> (step: Step)
        requires
            old(self)@.wf(),
            old(self)@.idle(),
        ensures
            (final(self)@, step@) == old(self)@.exit_debug_mode(),
            final(self)@.wf(),
    {
        let body = text2(DEBUG_COMMAND, EXIT);
        self.ask(0, &body, 0, true, Parse::Ack)
    }

    /// Starts leaving `mode`, which is DFU mode or one of the three debug
    /// modes.
    pub fn leave_mode(&mut self, mode: STLinkMode) -> (step: Step)
        requires
            old(self)@.wf(),
            old(self)@.idle(),
            can_leave(mode),
        ensures
            (final(self)@, step@) == old(self)@.leave_mode(mode),
            final(self)@.wf(),
    {
        let body = match mode {
            STLinkMode::DFU => text2(dfu::COMMAND, dfu::EXIT),
            STLinkMode::Debug(DebugMode::SWIM) => text2(swim::SWIM_COMMAND, swim::EXIT),
            _ => text2(DEBUG_COMMAND, EXIT),
        };
        self.ask(2, &body, 2, true, Parse::Ack)
    }

    /// Starts entering debug mode `mode`.
    pub fn enter_mode(&mut self, mode: DebugMode) -> (step: Step)
        requires
            old(self)@.wf(),
            old(self)@.idle(),
        ensures
            (final(self)@, step@) == old(self)@.enter_mode(mode),
            final(self)@.wf(),
    {
        let first = self.version.jtag_api == 1;
        let acked: usize = if first {
            0
        } else {
            2
        };
        let enter = if first {
            apiv1::ENTER
        } else {
            apiv2::ENTER
        };
        match mode {
            DebugMode::JTAG => {
                let body = text3(DEBUG_COMMAND, enter, ENTER_JTAG_NO_RESET);
                self.ask(acked as u32, &body, acked, true, Parse::Ack)
            },
            DebugMode::SWD => {
                let body = text3(DEBUG_COMMAND, enter, ENTER_SWD_NO_RESET);
                self.ask(acked as u32, &body, acked, true, Parse::Ack)
            },
            DebugMode::SWIM => {
                let body = text2(swim::SWIM_COMMAND, swim::ENTER);
                self.ask(acked as u32, &body, 0, true, Parse::Ack)
            },
            DebugMode::Unknown => Step::Finished(Err(LinkError::UnsupportedFeature)),
        }
    }
}

} // verus!
