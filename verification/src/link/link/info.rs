//! What the probe tells of itself and of the target.

use vstd::prelude::*;
use crate::link::constants::commands::debug::{apiv2, DEBUG_COMMAND, GETSTATUS, READCOREID};
use crate::link::constants::commands::{GET_CURRENT_MODE, GET_TARGET_VOLTAGE};
use crate::link::constants::flags::HAS_TARGET_VOLT;
use crate::link::chipid::{chip_for, get_chip_from_id_u32};
use crate::link::constants::address::{DBGMCU_IDCODE, FLASH_BASE};
use crate::link::constants::commands::debug::{ERR_OK, READMEM_8BIT};
use crate::link::structs::{FlashInfo, MemInfo, MemInfoView, SysMemInfo};
use crate::link::util::{append_u16, append_u32, buf_read_u16, buf_read_u32, bytes_u32, spec_read_u16, spec_read_u32};
use super::engine::{text1, text2};
use super::flash::access_body;
use super::step::{LinkError, Reply, ReplyView, Step, StepView, TargetVoltage};
use super::{ChipStage, Link, LinkView, Parse, Phase, Task};

verus! {

/// What stands for the voltage where the probe cannot measure it: zero
/// volts.
pub open spec fn no_voltage() -> TargetVoltage {
    TargetVoltage { reference: 1, target: 0 }
}

impl LinkView {
    /// Whether the probe can measure the target voltage.
    pub open spec fn measures_voltage(self) -> bool {
        self.version.flags & HAS_TARGET_VOLT != 0
    }

    /// The command that asks for the target voltage, answered by two
    /// words: the reading of the reference and the reading of the target.
    /// A probe that cannot measure is not asked, and the voltage is zero.
    pub open spec fn voltage(self) -> (LinkView, StepView) {
        if self.measures_voltage() {
            self.asked(8, seq![GET_TARGET_VOLTAGE], 8, true, Parse::Voltage)
        } else {
            (self, StepView::Finished(Ok(ReplyView::Voltage(no_voltage()))))
        }
    }

    /// The command that asks for the mode of the probe, answered by two
    /// bytes, the first of which encodes the mode.
    pub open spec fn current_mode(self) -> (LinkView, StepView) {
        self.asked(2, seq![GET_CURRENT_MODE], 2, true, Parse::Mode)
    }

    /// The command that asks for the identifier of the core: with the
    /// first command set it is answered by the identifier alone, with the
    /// others by twelve bytes that hold it behind the status.
    pub open spec fn core_id(self) -> (LinkView, StepView) {
        if self.version.jtag_api == 1 {
            self.asked(4, seq![DEBUG_COMMAND, READCOREID], 4, true, Parse::Word)
        } else {
            self.asked(
                12,
                seq![DEBUG_COMMAND, apiv2::READ_IDCODES],
                12,
                true,
                Parse::WordAfterStatus,
            )
        }
    }

    /// The command that asks for the state of the core, which the first of
    /// two bytes holds.
    pub open spec fn status(self) -> (LinkView, StepView) {
        self.asked(2, seq![DEBUG_COMMAND, GETSTATUS], 2, true, Parse::Status)
    }
}

/// The part of the device-ID register that holds the identifier: its low
/// eleven bits.
pub open spec fn device_id(word: u32) -> u32 {
    word & 0x7FF
}

impl LinkView {
    /// The session with the memory map of the device `id`, whose flash
    /// has `size` KiB: the flash starts at 0x0800_0000 and has an erase
    /// page size of its own where that is not the number `size`; the SRAM
    /// regions and the system memory are those of the chip table.
    pub open spec fn mapped(self, id: u32, size: u16) -> LinkView {
        let chip = chip_for(id);
        LinkView {
            memory: MemInfoView {
                flash: FlashInfo {
                    base: FLASH_BASE,
                    size: size as u32,
                    pagesize: if size as u32 == chip.pagesize {
                        None
                    } else {
                        Some(chip.pagesize)
                    },
                },
                ram: chip.sram,
                sys: SysMemInfo { base: chip.bootrom_base, size: chip.bootrom_size },
            },
            ..self
        }
    }

    /// The first command of the identification of the target: the
    /// device-ID register is read, which generation 1 cannot do.
    pub open spec fn get_chip_info(self) -> (LinkView, StepView) {
        if self.version.stlink == 1 {
            self.refused(LinkError::UnsupportedFeature)
        } else {
            self.issued(
                Task::ChipInfo { chip: ChipStage::Identify, id: 0, size: 0 },
                8,
                seq![DEBUG_COMMAND, apiv2::READDEBUGREG] + bytes_u32(DBGMCU_IDCODE, true),
                8,
                false,
            )
        }
    }

    /// What the identification does once a round trip is over.
    ///
    /// The low eleven bits of the device-ID register are looked up in the
    /// chip table; an identifier that the table does not know is an error.
    /// Then the two bytes of the flash-size register of the chip are read
    /// and, but with the first command set, the probe is asked how the read
    /// went. At the end the memory map is filled in, and the operation
    /// hands back the identifier.
    pub open spec fn chip_next(
        self,
        stage: ChipStage,
        id: u32,
        size: u16,
        outcome: Result<usize, LinkError>,
    ) -> (LinkView, StepView) {
        match outcome {
            Err(e) => self.finished(Err(e)),
            Ok(_) => match stage {
                ChipStage::Identify => {
                    let found = device_id(spec_read_u32(self.databuf, 4, true));
                    if chip_for(found).id == 0 {
                        self.finished(Err(LinkError::UnknownChip))
                    } else {
                        self.issued(
                            Task::ChipInfo { chip: ChipStage::Size, id: found, size: 0 },
                            2,
                            access_body(false, false, chip_for(found).flash_size_reg, 2),
                            2,
                            true,
                        )
                    }
                },
                ChipStage::Size => {
                    let kib = spec_read_u16(self.databuf, 0, true);
                    if self.version.jtag_api == 1 {
                        self.mapped(id, kib).finished(Ok(ReplyView::Word(id)))
                    } else {
                        self.issued(
                            Task::ChipInfo { chip: ChipStage::Poll, id, size: kib },
                            2,
                            self.status_body(),
                            self.status_size(),
                            true,
                        )
                    }
                },
                ChipStage::Poll => if self.databuf[0] == ERR_OK {
                    self.mapped(id, size).finished(Ok(ReplyView::Word(id)))
                } else {
                    self.finished(Err(LinkError::AccessFailed))
                },
            },
        }
    }
}

impl Link {
    /// Starts the identification of the target, which fills in the memory
    /// map and ends with the identifier of the device.
    pub fn get_chip_info(&mut self) -> (step: Step)
        requires
            old(self)@.wf(),
            old(self)@.idle(),
        ensures
            (final(self)@, step@) == old(self)@.get_chip_info(),
            final(self)@.wf(),
    {
        if self.version.stlink == 1 {
            return Step::Finished(Err(LinkError::UnsupportedFeature));
        }
        let mut body = text2(DEBUG_COMMAND, apiv2::READDEBUGREG);
        append_u32(&mut body, DBGMCU_IDCODE, true);
        self.issue(
            Task::ChipInfo { chip: ChipStage::Identify, id: 0, size: 0 },
            8,
            &body,
            8,
            false,
        )
    }

    fn map(&mut self, id: u32, size: u16)
        ensures
            final(self)@ == old(self)@.mapped(id, size),
    {
        let chip = get_chip_from_id_u32(id);
        self.memory = MemInfo {
            flash: FlashInfo {
                base: FLASH_BASE,
                size: size as u32,
                pagesize: if size as u32 == chip.pagesize {
                    None
                } else {
                    Some(chip.pagesize)
                },
            },
            ram: chip.sram,
            sys: SysMemInfo { base: chip.bootrom_base, size: chip.bootrom_size },
        };
    }

    pub(crate) fn chip_next(
        &mut self,
        stage: ChipStage,
        id: u32,
        size: u16,
        outcome: Result<usize, LinkError>,
    ) -> (step: Step)
        requires
            old(self)@.shaped(),
            old(self)@.phase == Phase::Idle,
        ensures
            (final(self)@, step@) == old(self)@.chip_next(stage, id, size, outcome),
            final(self)@.wf(),
    {
        match outcome {
            Err(e) => self.finish(Err(e)),
            Ok(_) => match stage {
                ChipStage::Identify => {
                    let found = buf_read_u32(&self.databuf, 4, true) & 0x7FF;
                    let chip = get_chip_from_id_u32(found);
                    if chip.id == 0 {
                        self.finish(Err(LinkError::UnknownChip))
                    } else {
                        let mut body = text2(DEBUG_COMMAND, READMEM_8BIT);
                        append_u32(&mut body, chip.flash_size_reg, true);
                        append_u16(&mut body, 2, true);
                        self.issue(
                            Task::ChipInfo { chip: ChipStage::Size, id: found, size: 0 },
                            2,
                            &body,
                            2,
                            true,
                        )
                    }
                },
                ChipStage::Size => {
                    let kib = buf_read_u16(&self.databuf, 0, true);
                    if self.version.jtag_api == 1 {
                        self.map(id, kib);
                        self.finish(Ok(Reply::Word(id)))
                    } else {
                        let body = self.status_text();
                        let len = self.status_len();
                        self.issue(
                            Task::ChipInfo { chip: ChipStage::Poll, id, size: kib },
                            2,
                            &body,
                            len,
                            true,
                        )
                    }
                },
                ChipStage::Poll => {
                    if self.databuf[0] == ERR_OK {
                        self.map(id, size);
                        self.finish(Ok(Reply::Word(id)))
                    } else {
                        self.finish(Err(LinkError::AccessFailed))
                    }
                },
            },
        }
    }

    /// Starts measuring the target voltage; the operation ends with the
    /// two readings.
    pub fn voltage(&mut self) -> (step: Step)
        requires
            old(self)@.wf(),
            old(self)@.idle(),
        ensures
            (final(self)@, step@) == old(self)@.voltage(),
            final(self)@.wf(),
    {
        if self.version.flags & HAS_TARGET_VOLT == 0 {
            return Step::Finished(Ok(Reply::Voltage(TargetVoltage { reference: 1, target: 0 })));
        }
        let body = text1(GET_TARGET_VOLTAGE);
        self.ask(8, &body, 8, true, Parse::Voltage)
    }

    /// Starts asking the probe for its mode; the operation ends with the
    /// mode.
    pub fn current_mode(&mut self) -> (step: Step)
        requires
            old(self)@.wf(),
            old(self)@.idle(),
        ensures
            (final(self)@, step@) == old(self)@.current_mode(),
            final(self)@.wf(),
    {
        let body = text1(GET_CURRENT_MODE);
        self.ask(2, &body, 2, true, Parse::Mode)
    }

    /// Starts reading the identifier of the core; the operation ends
    /// with the identifier.
    pub fn core_id(&mut self) -> (step: Step)
        requires
            old(self)@.wf(),
            old(self)@.idle(),
        ensures
            (final(self)@, step@) == old(self)@.core_id(),
            final(self)@.wf(),
    {
        if self.version.jtag_api == 1 {
            let body = text2(DEBUG_COMMAND, READCOREID);
            self.ask(4, &body, 4, true, Parse::Word)
        } else {
            let body = text2(DEBUG_COMMAND, apiv2::READ_IDCODES);
            self.ask(12, &body, 12, true, Parse::WordAfterStatus)
        }
    }

    /// Starts reading the state of the core; the operation ends with the
    /// state byte.
    pub fn status(&mut self) -> (step: Step)
        requires
            old(self)@.wf(),
            old(self)@.idle(),
        ensures
            (final(self)@, step@) == old(self)@.status(),
            final(self)@.wf(),
    {
        let body = text2(DEBUG_COMMAND, GETSTATUS);
        self.ask(2, &body, 2, true, Parse::Status)
    }
}

} // verus!
