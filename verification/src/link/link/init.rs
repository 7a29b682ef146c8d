//! Bringing the probe into a debug mode.
//!
//! The probe is asked for its mode and told to leave DFU mode; the target
//! voltage is read; the mode that is asked for is held against what the
//! probe can do; the speed of the transport is set to its default; the
//! mode is entered, between two assertions of the reset line where the
//! connection is to be made under reset; and the probe is asked for its
//! mode once more.

use vstd::prelude::*;
use crate::link::constants::commands::debug::{
    apiv1,
    apiv2,
    apiv3,
    DEBUG_COMMAND,
    ENTER_JTAG_NO_RESET,
    ENTER_SWD_NO_RESET,
};
use crate::link::constants::commands::{dfu, swim, GET_CURRENT_MODE, GET_TARGET_VOLTAGE};
use crate::link::constants::flags::{HAS_JTAG_SET_FREQ, HAS_SWD_SET_FREQ, HAS_TARGET_VOLT};
use crate::link::enums::{Cmd, DebugMode, Direction, STLinkMode};
use super::engine::{decode_frequencies, decode_mode, text1, text2, text3};
use super::speed::{
    closest,
    closest_speed,
    jtag_speed_map,
    jtag_speed_table,
    swd_speed_map,
    swd_speed_table,
    tokens3,
    tokens5,
};
use super::step::{LinkError, Reply, ReplyView, Step, StepView};
use super::{InitStage, Link, LinkView, Phase, Task};

verus! {

/// The debug mode that `mode` asks for; unknown where it is no debug mode.
pub open spec fn spec_target(mode: STLinkMode) -> DebugMode {
    match mode {
        STLinkMode::Debug(m) => m,
        _ => DebugMode::Unknown,
    }
}

/// The speed in kHz that a transport starts with: 1125 for JTAG, 1800 for
/// the others.
pub open spec fn default_khz(target: DebugMode) -> usize {
    if target == DebugMode::JTAG {
        1125
    } else {
        1800
    }
}

/// Whether the mode that a probe reports bears out that it is in the debug
/// mode `target`. A probe in debug mode does not tell JTAG from SWD.
pub open spec fn spec_confirms(reported: STLinkMode, target: DebugMode) -> bool {
    target != DebugMode::Unknown && (reported == STLinkMode::Debug(target) || (reported
        == STLinkMode::Debug(DebugMode::Unknown) && target != DebugMode::SWIM))
}

/// Whether the mode that a probe reports bears out that it is in the debug
/// mode `target`.
pub fn confirms(reported: STLinkMode, target: DebugMode) -> (yes: bool)
    ensures
        yes == spec_confirms(reported, target),
{
    match (reported, target) {
        (_, DebugMode::Unknown) => false,
        (STLinkMode::Debug(DebugMode::Unknown), DebugMode::SWIM) => false,
        (STLinkMode::Debug(DebugMode::Unknown), _) => true,
        (STLinkMode::Debug(m), t) => m == t,
        _ => false,
    }
}

/// The mode byte that a probe in debug mode reports bears out JTAG and
/// SWD, and the mode byte of SWIM bears out SWIM.
pub proof fn lemma_mode_bytes_confirm()
    ensures
        spec_confirms(decode_mode(crate::link::constants::modes::DEBUG), DebugMode::JTAG),
        spec_confirms(decode_mode(crate::link::constants::modes::DEBUG), DebugMode::SWD),
        spec_confirms(decode_mode(crate::link::constants::modes::SWIM), DebugMode::SWIM),
{
}

impl LinkView {
    /// Whether the probe can enter the debug mode that `mode` asks for:
    /// JTAG takes a JTAG revision above zero, SWD a command set from the
    /// second on, SWIM a SWIM revision above zero.
    pub open spec fn supports(self, mode: STLinkMode) -> bool {
        match spec_target(mode) {
            DebugMode::JTAG => self.version.jtag > 0,
            DebugMode::SWD => self.version.jtag_api >= 2,
            DebugMode::SWIM => self.version.swim > 0,
            DebugMode::Unknown => false,
        }
    }

    /// The first command of the sequence: the probe is asked for its mode.
    pub open spec fn init_mode(self, mode: STLinkMode, under_reset: bool) -> (LinkView, StepView) {
        self.issued(
            Task::Init { init: InitStage::Probe, mode, under_reset },
            2,
            seq![GET_CURRENT_MODE],
            2,
            true,
        )
    }

    /// The probe is asked for its mode again.
    pub open spec fn init_recheck(self, mode: STLinkMode, under_reset: bool) -> (
        LinkView,
        StepView,
    ) {
        self.issued(
            Task::Init { init: InitStage::Recheck, mode, under_reset },
            2,
            seq![GET_CURRENT_MODE],
            2,
            true,
        )
    }

    /// The target voltage is read, where the probe can measure it.
    pub open spec fn init_voltage(self, mode: STLinkMode, under_reset: bool) -> (
        LinkView,
        StepView,
    ) {
        if self.version.flags & HAS_TARGET_VOLT != 0 {
            self.issued(
                Task::Init { init: InitStage::Voltage, mode, under_reset },
                8,
                seq![GET_TARGET_VOLTAGE],
                8,
                true,
            )
        } else {
            self.init_validate(mode, under_reset)
        }
    }

    /// The mode is held against what the probe can do; a mode that it
    /// cannot enter ends the sequence.
    pub open spec fn init_validate(self, mode: STLinkMode, under_reset: bool) -> (
        LinkView,
        StepView,
    ) {
        if self.supports(mode) {
            self.init_speed(mode, under_reset)
        } else {
            self.finished(Err(LinkError::UnsupportedFeature))
        }
    }

    /// The default speed of JTAG or SWD is set with the second command
    /// set, where the probe can set it.
    pub open spec fn init_speed(self, mode: STLinkMode, under_reset: bool) -> (LinkView, StepView) {
        let task = Task::Init { init: InitStage::Speed, mode, under_reset };
        if spec_target(mode) == DebugMode::JTAG && self.version.flags & HAS_JTAG_SET_FREQ != 0 {
            self.tokened(
                task,
                2,
                Direction::In,
                seq![
                    Cmd::Int8(DEBUG_COMMAND),
                    Cmd::Int8(apiv2::JTAG_SET_FREQ),
                    Cmd::Int16(
                        closest(default_khz(DebugMode::JTAG), jtag_speed_table()).divisor as u16,
                    ),
                ],
            )
        } else if spec_target(mode) == DebugMode::SWD && self.version.flags & HAS_SWD_SET_FREQ
            != 0 {
            self.tokened(
                task,
                2,
                Direction::In,
                seq![
                    Cmd::Int8(DEBUG_COMMAND),
                    Cmd::Int8(apiv2::SWD_SET_FREQ),
                    Cmd::Int16(
                        closest(default_khz(DebugMode::SWD), swd_speed_table()).divisor as u16,
                    ),
                ],
            )
        } else {
            self.init_table(mode, under_reset)
        }
    }

    /// With the third command set, the speed table of JTAG or SWD is
    /// asked for.
    pub open spec fn init_table(self, mode: STLinkMode, under_reset: bool) -> (LinkView, StepView) {
        if self.version.jtag_api == 3 && spec_target(mode) != DebugMode::SWIM {
            self.issued(
                Task::Init { init: InitStage::Frequencies, mode, under_reset },
                52,
                seq![
                    DEBUG_COMMAND,
                    apiv3::GET_COM_FREQ,
                    if spec_target(mode) == DebugMode::JTAG {
                        1u8
                    } else {
                        0u8
                    },
                ],
                52,
                true,
            )
        } else {
            self.init_reset_before(mode, under_reset)
        }
    }

    /// The reset line is asserted before the mode is entered, where the
    /// connection is made under reset and the mode is not SWIM. Generation
    /// 1 cannot drive the line, which ends the sequence.
    pub open spec fn init_reset_before(self, mode: STLinkMode, under_reset: bool) -> (
        LinkView,
        StepView,
    ) {
        if under_reset && spec_target(mode) != DebugMode::SWIM {
            if self.version.stlink == 1 {
                self.finished(Err(LinkError::UnsupportedFeature))
            } else {
                self.issued(
                    Task::Init { init: InitStage::ResetBefore, mode, under_reset },
                    2,
                    seq![DEBUG_COMMAND, apiv2::DRIVE_NRST, 0u8],
                    2,
                    true,
                )
            }
        } else {
            self.init_enter(mode, under_reset)
        }
    }

    /// The mode is entered.
    pub open spec fn init_enter(self, mode: STLinkMode, under_reset: bool) -> (LinkView, StepView) {
        let task = Task::Init { init: InitStage::Enter, mode, under_reset };
        let acked: usize = if self.version.jtag_api == 1 {
            0
        } else {
            2
        };
        if spec_target(mode) == DebugMode::SWIM {
            self.issued(task, acked as u32, seq![swim::SWIM_COMMAND, swim::ENTER], 0, true)
        } else {
            self.issued(
                task,
                acked as u32,
                seq![
                    DEBUG_COMMAND,
                    self.enter_code(),
                    if spec_target(mode) == DebugMode::JTAG {
                        ENTER_JTAG_NO_RESET
                    } else {
                        ENTER_SWD_NO_RESET
                    },
                ],
                acked,
                true,
            )
        }
    }

    /// The reset line is asserted again after the mode was entered, where
    /// the connection is made under reset.
    pub open spec fn init_reset_after(self, mode: STLinkMode, under_reset: bool) -> (
        LinkView,
        StepView,
    ) {
        let task = Task::Init { init: InitStage::ResetAfter, mode, under_reset };
        if !under_reset {
            self.init_confirm(mode, under_reset)
        } else if spec_target(mode) == DebugMode::SWIM {
            self.issued(task, 0, seq![swim::SWIM_COMMAND, swim::ASSERT_RESET], 0, true)
        } else if self.version.stlink == 1 {
            self.finished(Err(LinkError::UnsupportedFeature))
        } else {
            self.issued(task, 2, seq![DEBUG_COMMAND, apiv2::DRIVE_NRST, 0u8], 2, true)
        }
    }

    /// The probe is asked for its mode a last time.
    pub open spec fn init_confirm(self, mode: STLinkMode, under_reset: bool) -> (
        LinkView,
        StepView,
    ) {
        self.issued(
            Task::Init { init: InitStage::Confirm, mode, under_reset },
            2,
            seq![GET_CURRENT_MODE],
            2,
            true,
        )
    }

    /// What the sequence does once a round trip is over.
    ///
    /// A round trip that fails ends the sequence with its error, with two
    /// exceptions: the sequence goes on if the default speed could not be
    /// set with the second command set, and it succeeds whatever the last
    /// question for the mode brings. It ends with the mode that the probe
    /// reported last, an unknown one if it reported none, which the caller
    /// may hold against the mode that was asked for.
    pub open spec fn init_next(
        self,
        stage: InitStage,
        mode: STLinkMode,
        under_reset: bool,
        outcome: Result<usize, LinkError>,
    ) -> (LinkView, StepView) {
        if stage == InitStage::Confirm {
            self.finished(
                Ok(
                    ReplyView::Mode(
                        if outcome.is_ok() {
                            decode_mode(self.databuf[0])
                        } else {
                            STLinkMode::Unknown
                        },
                    ),
                ),
            )
        } else if stage == InitStage::Speed {
            self.init_table(mode, under_reset)
        } else {
            match outcome {
                Err(e) => self.finished(Err(e)),
                Ok(n) => match stage {
                    InitStage::Probe => if decode_mode(self.databuf[0]) == STLinkMode::DFU {
                        self.issued(
                            Task::Init { init: InitStage::LeaveDfu, mode, under_reset },
                            2,
                            seq![dfu::COMMAND, dfu::EXIT],
                            2,
                            true,
                        )
                    } else {
                        self.init_recheck(mode, under_reset)
                    },
                    InitStage::LeaveDfu => self.init_recheck(mode, under_reset),
                    InitStage::Recheck => if decode_mode(self.databuf[0]) == STLinkMode::DFU {
                        self.finished(Err(LinkError::StillInDfu))
                    } else {
                        self.init_voltage(mode, under_reset)
                    },
                    InitStage::Voltage => if n == 8 {
                        self.init_validate(mode, under_reset)
                    } else {
                        self.finished(Err(LinkError::ProtocolMismatch))
                    },
                    InitStage::Frequencies => self.tokened(
                        Task::Init { init: InitStage::SetFrequency, mode, under_reset },
                        8,
                        Direction::In,
                        seq![
                            Cmd::Int8(DEBUG_COMMAND),
                            Cmd::Int8(apiv3::SET_COM_FREQ),
                            Cmd::Int8(
                                if spec_target(mode) == DebugMode::JTAG {
                                    1u8
                                } else {
                                    0u8
                                },
                            ),
                            Cmd::Int8(0u8),
                            Cmd::Int32(
                                closest(
                                    default_khz(spec_target(mode)),
                                    decode_frequencies(self.databuf),
                                ).speed as u32,
                            ),
                        ],
                    ),
                    InitStage::SetFrequency => self.init_reset_before(mode, under_reset),
                    InitStage::ResetBefore => self.init_enter(mode, under_reset),
                    InitStage::Enter => self.init_reset_after(mode, under_reset),
                    _ => self.init_confirm(mode, under_reset),
                },
            }
        }
    }
}

/// The debug mode that `mode` asks for; unknown where it is no debug mode.
pub fn target(mode: STLinkMode) -> (t: DebugMode)
    ensures
        t == spec_target(mode),
{
    match mode {
        STLinkMode::Debug(m) => m,
        _ => DebugMode::Unknown,
    }
}

impl Link {
    /// Starts bringing the probe into the debug mode that `mode` asks for,
    /// under reset where `connect_under_reset` holds. The operation ends
    /// with the mode that the probe reported last.
    pub fn init_mode(&mut self, mode: STLinkMode, connect_under_reset: bool) -> (step: Step)
        requires
            old(self)@.wf(),
            old(self)@.idle(),
        ensures
            (final(self)@, step@) == old(self)@.init_mode(mode, connect_under_reset),
            final(self)@.wf(),
    {
        let body = text1(GET_CURRENT_MODE);
        self.issue(
            Task::Init { init: InitStage::Probe, mode, under_reset: connect_under_reset },
            2,
            &body,
            2,
            true,
        )
    }

    fn init_recheck(&mut self, mode: STLinkMode, under_reset: bool) -> (step: Step)
        requires
            old(self)@.shaped(),
            old(self)@.phase == Phase::Idle,
        ensures
            (final(self)@, step@) == old(self)@.init_recheck(mode, under_reset),
            final(self)@.wf(),
    {
        let body = text1(GET_CURRENT_MODE);
        self.issue(Task::Init { init: InitStage::Recheck, mode, under_reset }, 2, &body, 2, true)
    }

    fn init_voltage(&mut self, mode: STLinkMode, under_reset: bool) -> (step: Step)
        requires
            old(self)@.shaped(),
            old(self)@.phase == Phase::Idle,
        ensures
            (final(self)@, step@) == old(self)@.init_voltage(mode, under_reset),
            final(self)@.wf(),
    {
        if self.version.flags & HAS_TARGET_VOLT != 0 {
            let body = text1(GET_TARGET_VOLTAGE);
            self.issue(
                Task::Init { init: InitStage::Voltage, mode, under_reset },
                8,
                &body,
                8,
                true,
            )
        } else {
            self.init_validate(mode, under_reset)
        }
    }

    fn init_validate(&mut self, mode: STLinkMode, under_reset: bool) -> (step: Step)
        requires
            old(self)@.shaped(),
            old(self)@.phase == Phase::Idle,
        ensures
            (final(self)@, step@) == old(self)@.init_validate(mode, under_reset),
            final(self)@.wf(),
    {
        let able = match target(mode) {
            DebugMode::JTAG => self.version.jtag > 0,
            DebugMode::SWD => self.version.jtag_api >= 2,
            DebugMode::SWIM => self.version.swim > 0,
            DebugMode::Unknown => false,
        };
        if able {
            self.init_speed(mode, under_reset)
        } else {
            self.finish(Err(LinkError::UnsupportedFeature))
        }
    }

    fn init_speed(&mut self, mode: STLinkMode, under_reset: bool) -> (step: Step)
        requires
            old(self)@.shaped(),
            old(self)@.phase == Phase::Idle,
        ensures
            (final(self)@, step@) == old(self)@.init_speed(mode, under_reset),
            final(self)@.wf(),
    {
        let task = Task::Init { init: InitStage::Speed, mode, under_reset };
        let wanted = target(mode);
        if wanted == DebugMode::JTAG && self.version.flags & HAS_JTAG_SET_FREQ != 0 {
            let map = jtag_speed_map();
            let divisor = closest_speed(1125, map.as_slice()).divisor;
            let cmds = tokens3(
                Cmd::Int8(DEBUG_COMMAND),
                Cmd::Int8(apiv2::JTAG_SET_FREQ),
                Cmd::Int16(#[verifier::truncate] (divisor as u16)),
            );
            self.token(task, 2, Direction::In, &cmds)
        } else if wanted == DebugMode::SWD && self.version.flags & HAS_SWD_SET_FREQ != 0 {
            let map = swd_speed_map();
            let divisor = closest_speed(1800, map.as_slice()).divisor;
            let cmds = tokens3(
                Cmd::Int8(DEBUG_COMMAND),
                Cmd::Int8(apiv2::SWD_SET_FREQ),
                Cmd::Int16(#[verifier::truncate] (divisor as u16)),
            );
            self.token(task, 2, Direction::In, &cmds)
        } else {
            self.init_table(mode, under_reset)
        }
    }

    fn init_table(&mut self, mode: STLinkMode, under_reset: bool) -> (step: Step)
        requires
            old(self)@.shaped(),
            old(self)@.phase == Phase::Idle,
        ensures
            (final(self)@, step@) == old(self)@.init_table(mode, under_reset),
            final(self)@.wf(),
    {
        let wanted = target(mode);
        if self.version.jtag_api == 3 && wanted != DebugMode::SWIM {
            let body = text3(
                DEBUG_COMMAND,
                apiv3::GET_COM_FREQ,
                if wanted == DebugMode::JTAG {
                    1
                } else {
                    0
                },
            );
            self.issue(
                Task::Init { init: InitStage::Frequencies, mode, under_reset },
                52,
                &body,
                52,
                true,
            )
        } else {
            self.init_reset_before(mode, under_reset)
        }
    }

    fn init_reset_before(&mut self, mode: STLinkMode, under_reset: bool) -> (step: Step)
        requires
            old(self)@.shaped(),
            old(self)@.phase == Phase::Idle,
        ensures
            (final(self)@, step@) == old(self)@.init_reset_before(mode, under_reset),
            final(self)@.wf(),
    {
        if under_reset && target(mode) != DebugMode::SWIM {
            if self.version.stlink == 1 {
                self.finish(Err(LinkError::UnsupportedFeature))
            } else {
                let body = text3(DEBUG_COMMAND, apiv2::DRIVE_NRST, 0);
                self.issue(
                    Task::Init { init: InitStage::ResetBefore, mode, under_reset },
                    2,
                    &body,
                    2,
                    true,
                )
            }
        } else {
            self.init_enter(mode, under_reset)
        }
    }

    fn init_enter(&mut self, mode: STLinkMode, under_reset: bool) -> (step: Step)
        requires
            old(self)@.shaped(),
            old(self)@.phase == Phase::Idle,
        ensures
            (final(self)@, step@) == old(self)@.init_enter(mode, under_reset),
            final(self)@.wf(),
    {
        let task = Task::Init { init: InitStage::Enter, mode, under_reset };
        let first = self.version.jtag_api == 1;
        let acked: usize = if first {
            0
        } else {
            2
        };
        let wanted = target(mode);
        if wanted == DebugMode::SWIM {
            let body = text2(swim::SWIM_COMMAND, swim::ENTER);
            self.issue(task, acked as u32, &body, 0, true)
        } else {
            let body = text3(
                DEBUG_COMMAND,
                if first {
                    apiv1::ENTER
                } else {
                    apiv2::ENTER
                },
                if wanted == DebugMode::JTAG {
                    ENTER_JTAG_NO_RESET
                } else {
                    ENTER_SWD_NO_RESET
                },
            );
            self.issue(task, acked as u32, &body, acked, true)
        }
    }

    fn init_reset_after(&mut self, mode: STLinkMode, under_reset: bool) -> (step: Step)
        requires
            old(self)@.shaped(),
            old(self)@.phase == Phase::Idle,
        ensures
            (final(self)@, step@) == old(self)@.init_reset_after(mode, under_reset),
            final(self)@.wf(),
    {
        let task = Task::Init { init: InitStage::ResetAfter, mode, under_reset };
        if !under_reset {
            self.init_confirm(mode, under_reset)
        } else if target(mode) == DebugMode::SWIM {
            let body = text2(swim::SWIM_COMMAND, swim::ASSERT_RESET);
            self.issue(task, 0, &body, 0, true)
        } else if self.version.stlink == 1 {
            self.finish(Err(LinkError::UnsupportedFeature))
        } else {
            let body = text3(DEBUG_COMMAND, apiv2::DRIVE_NRST, 0);
            self.issue(task, 2, &body, 2, true)
        }
    }

    fn init_confirm(&mut self, mode: STLinkMode, under_reset: bool) -> (step: Step)
        requires
            old(self)@.shaped(),
            old(self)@.phase == Phase::Idle,
        ensures
            (final(self)@, step@) == old(self)@.init_confirm(mode, under_reset),
            final(self)@.wf(),
    {
        let body = text1(GET_CURRENT_MODE);
        self.issue(Task::Init { init: InitStage::Confirm, mode, under_reset }, 2, &body, 2, true)
    }

    pub(crate) fn init_next(
        &mut self,
        stage: InitStage,
        mode: STLinkMode,
        under_reset: bool,
        outcome: Result<usize, LinkError>,
    ) -> (step: Step)
        requires
            old(self)@.shaped(),
            old(self)@.phase == Phase::Idle,
        ensures
            (final(self)@, step@) == old(self)@.init_next(stage, mode, under_reset, outcome),
            final(self)@.wf(),
    {
        if stage == InitStage::Confirm {
            let reported = match outcome {
                Ok(_) => self.parse(super::Parse::Mode, 0),
                Err(_) => Ok(Reply::Mode(STLinkMode::Unknown)),
            };
            return self.finish(reported);
        }
        if stage == InitStage::Speed {
            return self.init_table(mode, under_reset);
        }
        let n = match outcome {
            Err(e) => {
                return self.finish(Err(e));
            },
            Ok(n) => n,
        };
        let dfu = self.databuf[0] == 0;
        match stage {
            InitStage::Probe => {
                if dfu {
                    let body = text2(dfu::COMMAND, dfu::EXIT);
                    self.issue(
                        Task::Init { init: InitStage::LeaveDfu, mode, under_reset },
                        2,
                        &body,
                        2,
                        true,
                    )
                } else {
                    self.init_recheck(mode, under_reset)
                }
            },
            InitStage::LeaveDfu => self.init_recheck(mode, under_reset),
            InitStage::Recheck => {
                if dfu {
                    self.finish(Err(LinkError::StillInDfu))
                } else {
                    self.init_voltage(mode, under_reset)
                }
            },
            InitStage::Voltage => {
                if n == 8 {
                    self.init_validate(mode, under_reset)
                } else {
                    self.finish(Err(LinkError::ProtocolMismatch))
                }
            },
            InitStage::Frequencies => {
                let wanted = target(mode);
                let map = self.frequencies();
                let khz: usize = if wanted == DebugMode::JTAG {
                    1125
                } else {
                    1800
                };
                let speed = closest_speed(khz, map.as_slice()).speed;
                let cmds = tokens5(
                    DEBUG_COMMAND,
                    apiv3::SET_COM_FREQ,
                    if wanted == DebugMode::JTAG {
                        1
                    } else {
                        0
                    },
                    0,
                    #[verifier::truncate] (speed as u32),
                );
                self.token(
                    Task::Init { init: InitStage::SetFrequency, mode, under_reset },
                    8,
                    Direction::In,
                    &cmds,
                )
            },
            InitStage::SetFrequency => self.init_reset_before(mode, under_reset),
            InitStage::ResetBefore => self.init_enter(mode, under_reset),
            InitStage::Enter => self.init_reset_after(mode, under_reset),
            _ => self.init_confirm(mode, under_reset),
        }
    }
}

} // verus!
