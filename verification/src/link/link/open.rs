//! Opening a session: the version handshake, the debug mode, the flash
//! controller, the identification of the target and the size of an access
//! by words, one after the other.

use vstd::prelude::*;
use crate::link::constants::address::CPUID;
use crate::link::constants::misc::SIZE::DATA;
use crate::link::enums::{DebugMode, STLinkMode};
use crate::link::structs::Endpoint;
use crate::link::util::{buf_read_u32, spec_read_u32};
use super::step::{LinkError, Reply, ReplyView, Step, StepView, Transfer, TransferView};
use super::{fresh, Link, LinkView, OpenStage, Phase, Task};

verus! {

/// Whether the identification word of a core tells of a Cortex-M3 or a
/// Cortex-M4: bits 4 to 7 hold 3 or 4.
pub open spec fn is_m3_or_m4(cpuid: u32) -> bool {
    (cpuid >> 4) & 0xF == 3 || (cpuid >> 4) & 0xF == 4
}

/// What one access by words carries, as it follows from what the last step
/// of the opening brought: the whole data buffer in SWIM mode and for a
/// Cortex-M3 or Cortex-M4, whose identification word stands at the start
/// of the bytes that were read; else the size so far.
pub open spec fn burst_size(connection: DebugMode, reply: ReplyView, so_far: usize) -> usize {
    if connection == DebugMode::SWIM {
        DATA
    } else {
        match reply {
            ReplyView::Bytes(bytes) => if bytes.len() >= 4 && is_m3_or_m4(
                spec_read_u32(bytes, 0, true),
            ) {
                DATA
            } else {
                so_far
            },
            _ => so_far,
        }
    }
}

impl LinkView {
    /// Whether the probe can serve the transport that the session is
    /// opened for: SWD takes more than the first command set, SWIM a SWIM
    /// revision above zero.
    pub open spec fn serves(self) -> bool {
        match self.connection {
            DebugMode::SWD => self.version.jtag_api != 1,
            DebugMode::JTAG => self.version.jtag_api != 0,
            DebugMode::SWIM => self.version.swim != 0,
            DebugMode::Unknown => false,
        }
    }

    /// The end of the opening.
    pub open spec fn open_end(self, result: Result<ReplyView, LinkError>) -> (LinkView, StepView) {
        (LinkView { open_stage: OpenStage::Off, ..self }, StepView::Finished(result))
    }

    /// The state of the core is asked for.
    pub open spec fn open_status(self) -> (LinkView, StepView) {
        (LinkView { open_stage: OpenStage::Status, ..self }).status()
    }

    /// What one access by words carries is found out: in SWIM mode the
    /// mode is entered; else the size is set to 1 KiB and the
    /// identification word of the core is read.
    pub open spec fn open_packet(self) -> (LinkView, StepView) {
        if self.connection == DebugMode::SWIM {
            (LinkView { open_stage: OpenStage::Packet, ..self }).enter_mode(DebugMode::SWIM)
        } else {
            (LinkView { open_stage: OpenStage::Packet, burst: 1024, ..self }).read_mem32(
                CPUID,
                12,
            )
        }
    }

    /// The target is identified, where the probe can do that.
    pub open spec fn open_chip(self) -> (LinkView, StepView) {
        let started = (LinkView { open_stage: OpenStage::Chip, ..self }).get_chip_info();
        if started.1 is Finished {
            started.0.open_packet()
        } else {
            started
        }
    }

    /// The flash controller is unlocked, where the probe can do that.
    pub open spec fn open_unlock(self) -> (LinkView, StepView) {
        let started = (LinkView { open_stage: OpenStage::Unlock, ..self }).unlock_flash();
        if started.1 is Finished {
            started.0.open_chip()
        } else {
            started
        }
    }

    /// The probe is brought into the debug mode of the transport, if it
    /// can serve the transport.
    pub open spec fn open_init(self) -> (LinkView, StepView) {
        if self.serves() {
            (LinkView { open_stage: OpenStage::Init, ..self }).init_mode(
                STLinkMode::Debug(self.connection),
                false,
            )
        } else {
            self.open_end(Err(LinkError::UnsupportedFeature))
        }
    }

    /// What the opening does once one of its operations is over with
    /// `result`.
    ///
    /// A version handshake that fails is tried again after a pause of one
    /// second on generation 1, as long as tries are left. The opening ends
    /// with the error of a handshake that is not tried again, of a probe
    /// that cannot serve the transport, of a debug mode that was not
    /// reached, and of a burst size that was not found out. It goes on
    /// whatever the unlocking, the identification and the state of the core
    /// bring.
    pub open spec fn opened(self, result: Result<ReplyView, LinkError>) -> (LinkView, StepView) {
        match self.open_stage {
            OpenStage::Off => (self, StepView::Finished(result)),
            OpenStage::Version => match result {
                Err(e) => if self.version.stlink == 1 && self.tries > 0 {
                    (
                        LinkView {
                            tries: (self.tries - 1) as usize,
                            task: Task::Pausing,
                            phase: Phase::Waiting,
                            ..self
                        },
                        StepView::Transfer(TransferView::Pause { seconds: 1 }),
                    )
                } else {
                    self.open_end(Err(e))
                },
                Ok(_) => self.open_init(),
            },
            OpenStage::Init => match result {
                Err(e) => self.open_end(Err(e)),
                Ok(_) => self.open_unlock(),
            },
            OpenStage::Unlock => self.open_chip(),
            OpenStage::Chip => self.open_packet(),
            OpenStage::Packet => match result {
                Err(e) => self.open_end(Err(e)),
                Ok(reply) => (LinkView {
                    burst: burst_size(self.connection, reply, self.burst),
                    ..self
                }).open_status(),
            },
            OpenStage::Status => self.open_end(Ok(ReplyView::Done)),
        }
    }
}

/// The session of a probe that was found under `vid` and `pid`, at the
/// start of its opening for the transport `connection`, with the first
/// transfer of the version handshake.
pub open spec fn spec_open(vid: u16, pid: u16, retries: usize, connection: DebugMode) -> (
    LinkView,
    StepView,
) {
    (LinkView {
        open_stage: OpenStage::Version,
        tries: retries,
        connection,
        ..fresh(vid, pid)
    }).version()
}

impl Link {
    /// Starts the opening of a session with the probe that USB enumeration
    /// found under `vid` and `pid` with the endpoints `endpoints`, for the
    /// transport `connection`. A device that does not have three endpoints
    /// is no probe. The opening ends with a session that is ready for the
    /// operations on the target.
    pub fn open_usb(
        endpoints: &Vec<Endpoint>,
        vid: u16,
        pid: u16,
        retries: usize,
        connection: DebugMode,
    ) -> (opened: Result<(Link, Step), LinkError>)
        ensures
            endpoints@.len() != 3 ==> opened == Err::<(Link, Step), LinkError>(
                LinkError::NotAProbe,
            ),
            endpoints@.len() == 3 ==> opened.is_ok() && (opened.unwrap().0@, opened.unwrap().1@)
                == spec_open(vid, pid, retries, connection) && opened.unwrap().0@.wf(),
    {
        if endpoints.len() != 3 {
            return Err(LinkError::NotAProbe);
        }
        let mut link = Link::new(vid, pid);
        link.open_stage = OpenStage::Version;
        link.tries = retries;
        link.connection = connection;
        let step = link.version();
        Ok((link, step))
    }

    fn open_end(&mut self, result: Result<Reply, LinkError>) -> (step: Step)
        requires
            old(self)@.wf(),
        ensures
            final(self)@ == (LinkView { open_stage: OpenStage::Off, ..old(self)@ }),
            step == Step::Finished(result),
            final(self)@.wf(),
    {
        self.open_stage = OpenStage::Off;
        Step::Finished(result)
    }

    fn open_status(&mut self) -> (step: Step)
        requires
            old(self)@.wf(),
            old(self)@.idle(),
        ensures
            (final(self)@, step@) == old(self)@.open_status(),
            final(self)@.wf(),
    {
        self.open_stage = OpenStage::Status;
        self.status()
    }

    fn open_packet(&mut self) -> (step: Step)
        requires
            old(self)@.wf(),
            old(self)@.idle(),
        ensures
            (final(self)@, step@) == old(self)@.open_packet(),
            final(self)@.wf(),
    {
        self.open_stage = OpenStage::Packet;
        if self.connection == DebugMode::SWIM {
            self.enter_mode(DebugMode::SWIM)
        } else {
            self.burst = 1024;
            self.read_mem32(CPUID, 12)
        }
    }

    fn open_chip(&mut self) -> (step: Step)
        requires
            old(self)@.wf(),
            old(self)@.idle(),
        ensures
            (final(self)@, step@) == old(self)@.open_chip(),
            final(self)@.wf(),
    {
        self.open_stage = OpenStage::Chip;
        match self.get_chip_info() {
            Step::Finished(_) => self.open_packet(),
            step => step,
        }
    }

    fn open_unlock(&mut self) -> (step: Step)
        requires
            old(self)@.wf(),
            old(self)@.idle(),
        ensures
            (final(self)@, step@) == old(self)@.open_unlock(),
            final(self)@.wf(),
    {
        self.open_stage = OpenStage::Unlock;
        match self.unlock_flash() {
            Step::Finished(_) => self.open_chip(),
            step => step,
        }
    }

    fn open_init(&mut self) -> (step: Step)
        requires
            old(self)@.wf(),
            old(self)@.idle(),
        ensures
            (final(self)@, step@) == old(self)@.open_init(),
            final(self)@.wf(),
    {
        let able = match self.connection {
            DebugMode::SWD => self.version.jtag_api != 1,
            DebugMode::JTAG => self.version.jtag_api != 0,
            DebugMode::SWIM => self.version.swim != 0,
            DebugMode::Unknown => false,
        };
        if able {
            self.open_stage = OpenStage::Init;
            self.init_mode(STLinkMode::Debug(self.connection), false)
        } else {
            self.open_end(Err(LinkError::UnsupportedFeature))
        }
    }

    /// Takes the result of an operation of the opening.
    pub(crate) fn open_next(&mut self, result: Result<Reply, LinkError>) -> (step: Step)
        requires
            old(self)@.wf(),
            old(self)@.idle(),
        ensures
            (final(self)@, step@) == old(self)@.opened(
                match result {
                    Ok(r) => Ok(r@),
                    Err(e) => Err(e),
                },
            ),
            final(self)@.wf(),
    {
        match self.open_stage {
            OpenStage::Off => Step::Finished(result),
            OpenStage::Version => match result {
                Err(e) => {
                    if self.version.stlink == 1 && self.tries > 0 {
                        self.tries = self.tries - 1;
                        self.task = Task::Pausing;
                        self.phase = Phase::Waiting;
                        Step::Transfer(Transfer::Pause { seconds: 1 })
                    } else {
                        self.open_end(Err(e))
                    }
                },
                Ok(_) => self.open_init(),
            },
            OpenStage::Init => match result {
                Err(e) => self.open_end(Err(e)),
                Ok(_) => self.open_unlock(),
            },
            OpenStage::Unlock => self.open_chip(),
            OpenStage::Chip => self.open_packet(),
            OpenStage::Packet => match result {
                Err(e) => self.open_end(Err(e)),
                Ok(reply) => {
                    if self.connection == DebugMode::SWIM {
                        self.burst = DATA;
                    } else {
                        match reply {
                            Reply::Bytes(bytes) => {
                                if bytes.len() >= 4 {
                                    let cpuid = buf_read_u32(bytes.as_slice(), 0, true);
                                    let family = (cpuid >> 4) & 0xF;
                                    if family == 3 || family == 4 {
                                        self.burst = DATA;
                                    }
                                }
                            },
                            _ => {},
                        }
                    }
                    self.open_status()
                },
            },
            OpenStage::Status => self.open_end(Ok(Reply::Done)),
        }
    }
}

} // verus!
