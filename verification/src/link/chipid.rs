//! Identification of STM32 devices: the identifiers that the device-ID
//! register holds, and the memory-map parameters of each device.

use vstd::prelude::*;
use super::enums::FlashType;
use super::structs::SRamInfo;

verus! {

/// Device lines of the STM32 family that the table knows.
#[derive(Debug, Copy, Clone, PartialEq, Eq, Structural)]
pub enum STM32ChipID {
    Unknown,
    F1Medium,
    F2,
    F1Low,
    F4,
    F1High,
    L4,
    L1Medium,
    L0,
    F1Conn,
    F4HD,
    F1VLMediumLow,
    F446,
    F3,
    F4LP,
    L0Cat2,
    L1MediumPlus,
    F1VLHigh,
    L1Cat2,
    F1XL,
    F411RE,
    F37x,
    F4DE,
    F4DSI,
    /// 0x435 covers STM32L43xxx and STM32L44xxx devices
    L43X,
    /// 0x461 covers STM32L496xx and STM32L4A6xx devices
    L496X,
    /// 0x462 covers STM32L45xxx and STM32L46xxx devices
    L46X,
    /// 0x464 covers STM32L41xxx and STM32L42xxx devices
    L41X,
    /// 0x436 is actually assigned to some L1 chips that are called "Medium-Plus" and some that are called "High". 0x427 is assigned to the other "Medium- plus" chips. To make it a bit simpler we just call 427 MEDIUM_PLUS and 0x436 HIGH.
    L1High,
    L152RE,
    F334,
    F3Small,
    F0,
    F412,
    F09X,
    F0Small,
    F04,
    F303High,
    L0Cat5,
    F0Can,
    /// This ID is found on the NucleoF746ZG board
    F7,
    F7XXXX,
    /// This ID is found on the NucleoF722ZE board
    F72XXX,
    L011,
    F410,
    F413,
    /// STM32L4R9I-DISCO board
    L4RX,
    G0X1,
    WB55,
}

impl STM32ChipID {
    /// The identifier that a device of this line holds in the low bits of
    /// its device-ID register; zero for an unknown device.
    pub open spec fn spec_id(self) -> u32 {
        match self {
            STM32ChipID::Unknown => 0x000,
            STM32ChipID::F1Medium => 0x410,
            STM32ChipID::F2 => 0x411,
            STM32ChipID::F1Low => 0x412,
            STM32ChipID::F4 => 0x413,
            STM32ChipID::F1High => 0x414,
            STM32ChipID::L4 => 0x415,
            STM32ChipID::L1Medium => 0x416,
            STM32ChipID::L0 => 0x417,
            STM32ChipID::F1Conn => 0x418,
            STM32ChipID::F4HD => 0x419,
            STM32ChipID::F1VLMediumLow => 0x420,
            STM32ChipID::F446 => 0x421,
            STM32ChipID::F3 => 0x422,
            STM32ChipID::F4LP => 0x423,
            STM32ChipID::L0Cat2 => 0x425,
            STM32ChipID::L1MediumPlus => 0x427,
            STM32ChipID::F1VLHigh => 0x428,
            STM32ChipID::L1Cat2 => 0x429,
            STM32ChipID::F1XL => 0x430,
            STM32ChipID::F411RE => 0x431,
            STM32ChipID::F37x => 0x432,
            STM32ChipID::F4DE => 0x433,
            STM32ChipID::F4DSI => 0x434,
            STM32ChipID::L43X => 0x435,
            STM32ChipID::L496X => 0x461,
            STM32ChipID::L46X => 0x462,
            STM32ChipID::L41X => 0x464,
            STM32ChipID::L1High => 0x436,
            STM32ChipID::L152RE => 0x437,
            STM32ChipID::F334 => 0x438,
            STM32ChipID::F3Small => 0x439,
            STM32ChipID::F0 => 0x440,
            STM32ChipID::F412 => 0x441,
            STM32ChipID::F09X => 0x442,
            STM32ChipID::F0Small => 0x444,
            STM32ChipID::F04 => 0x445,
            STM32ChipID::F303High => 0x446,
            STM32ChipID::L0Cat5 => 0x447,
            STM32ChipID::F0Can => 0x448,
            STM32ChipID::F7 => 0x449,
            STM32ChipID::F7XXXX => 0x451,
            STM32ChipID::F72XXX => 0x452,
            STM32ChipID::L011 => 0x457,
            STM32ChipID::F410 => 0x458,
            STM32ChipID::F413 => 0x463,
            STM32ChipID::L4RX => 0x470,
            STM32ChipID::G0X1 => 0x460,
            STM32ChipID::WB55 => 0x495,
        }
    }

    /// The identifier that a device of this line holds in the low bits of
    /// its device-ID register; zero for an unknown device.
    pub fn id(self) -> (id: u32)
        ensures
            id == self.spec_id(),
    {
        match self {
            STM32ChipID::Unknown => 0x000,
            STM32ChipID::F1Medium => 0x410,
            STM32ChipID::F2 => 0x411,
            STM32ChipID::F1Low => 0x412,
            STM32ChipID::F4 => 0x413,
            STM32ChipID::F1High => 0x414,
            STM32ChipID::L4 => 0x415,
            STM32ChipID::L1Medium => 0x416,
            STM32ChipID::L0 => 0x417,
            STM32ChipID::F1Conn => 0x418,
            STM32ChipID::F4HD => 0x419,
            STM32ChipID::F1VLMediumLow => 0x420,
            STM32ChipID::F446 => 0x421,
            STM32ChipID::F3 => 0x422,
            STM32ChipID::F4LP => 0x423,
            STM32ChipID::L0Cat2 => 0x425,
            STM32ChipID::L1MediumPlus => 0x427,
            STM32ChipID::F1VLHigh => 0x428,
            STM32ChipID::L1Cat2 => 0x429,
            STM32ChipID::F1XL => 0x430,
            STM32ChipID::F411RE => 0x431,
            STM32ChipID::F37x => 0x432,
            STM32ChipID::F4DE => 0x433,
            STM32ChipID::F4DSI => 0x434,
            STM32ChipID::L43X => 0x435,
            STM32ChipID::L496X => 0x461,
            STM32ChipID::L46X => 0x462,
            STM32ChipID::L41X => 0x464,
            STM32ChipID::L1High => 0x436,
            STM32ChipID::L152RE => 0x437,
            STM32ChipID::F334 => 0x438,
            STM32ChipID::F3Small => 0x439,
            STM32ChipID::F0 => 0x440,
            STM32ChipID::F412 => 0x441,
            STM32ChipID::F09X => 0x442,
            STM32ChipID::F0Small => 0x444,
            STM32ChipID::F04 => 0x445,
            STM32ChipID::F303High => 0x446,
            STM32ChipID::L0Cat5 => 0x447,
            STM32ChipID::F0Can => 0x448,
            STM32ChipID::F7 => 0x449,
            STM32ChipID::F7XXXX => 0x451,
            STM32ChipID::F72XXX => 0x452,
            STM32ChipID::L011 => 0x457,
            STM32ChipID::F410 => 0x458,
            STM32ChipID::F413 => 0x463,
            STM32ChipID::L4RX => 0x470,
            STM32ChipID::G0X1 => 0x460,
            STM32ChipID::WB55 => 0x495,
        }
    }
}

/// Memory-map parameters of one device line.
#[derive(Debug, Clone)]
pub struct ChipParams {
    /// Identifier of the line, as the device-ID register holds it.
    pub id: u32,
    pub description: String,
    /// Family of the flash controller.
    pub flasht: FlashType,
    /// Address of the register that holds the flash size in KiB.
    pub flash_size_reg: u32,
    /// Default size of an erase page.
    pub pagesize: u32,
    pub sram: Vec<SRamInfo>,
    /// Start of the system memory.
    pub bootrom_base: u32,
    pub bootrom_size: u32,
}

/// Mathematical model of a table row.
pub struct ChipParamsView {
    pub id: u32,
    pub description: Seq<char>,
    pub flasht: FlashType,
    pub flash_size_reg: u32,
    pub pagesize: u32,
    pub sram: Seq<SRamInfo>,
    pub bootrom_base: u32,
    pub bootrom_size: u32,
}

impl View for ChipParams {
    type V = ChipParamsView;

    open spec fn view(&self) -> ChipParamsView {
        ChipParamsView {
            id: self.id,
            description: self.description@,
            flasht: self.flasht,
            flash_size_reg: self.flash_size_reg,
            pagesize: self.pagesize,
            sram: self.sram@,
            bootrom_base: self.bootrom_base,
            bootrom_size: self.bootrom_size,
        }
    }
}

/// Number of rows of the table, the row for an unknown device included.
pub const CHIP_COUNT: usize = 48;

/// Row `i` of the table. The last row stands for an unknown device: its
/// identifier, addresses and sizes are zero.
pub open spec fn chip_row(i: int) -> ChipParamsView {
    if i == 0 {
        ChipParamsView {
            id: STM32ChipID::F7XXXX.spec_id(),
            description: "F76xxx device"@,
            flasht: FlashType::TypeF4,
            flash_size_reg: 0x1FF0_F442,
            pagesize: 0x800,
            sram: seq![SRamInfo { base: 0x2000_0000, size: 0x0008_0000 }],
            bootrom_base: 0x0020_0000,
            bootrom_size: 0xEDC0,
        }
    } else if i == 1 {
        ChipParamsView {
            id: STM32ChipID::F7.spec_id(),
            description: "F7 device"@,
            flasht: FlashType::TypeF4,
            flash_size_reg: 0x1FF0_F442,
            pagesize: 0x800,
            sram: seq![SRamInfo { base: 0x2000_0000, size: 0x0005_0000 }],
            bootrom_base: 0x0010_0000,
            bootrom_size: 0xEDC0,
        }
    } else if i == 2 {
        ChipParamsView {
            id: STM32ChipID::F72XXX.spec_id(),
            description: "F72 device"@,
            flasht: FlashType::TypeF4,
            flash_size_reg: 0x1FF0_F442,
            pagesize: 0x800,
            sram: seq![SRamInfo { base: 0x2000_0000, size: 0x0004_0000 }],
            bootrom_base: 0x0010_0000,
            bootrom_size: 0xEDC0,
        }
    } else if i == 3 {
        ChipParamsView {
            id: STM32ChipID::F1Medium.spec_id(),
            description: "F1 medium-density device"@,
            flasht: FlashType::TypeF0,
            flash_size_reg: 0x1FFF_F7E0,
            pagesize: 0x400,
            sram: seq![SRamInfo { base: 0x2000_0000, size: 0x5000 }],
            bootrom_base: 0x1FFF_F000,
            bootrom_size: 0x800,
        }
    } else if i == 4 {
        ChipParamsView {
            id: STM32ChipID::F2.spec_id(),
            description: "F2 device"@,
            flasht: FlashType::TypeF4,
            flash_size_reg: 0x1FFF_7A22,
            pagesize: 0x0002_0000,
            sram: seq![SRamInfo { base: 0x2000_0000, size: 0x0002_0000 }],
            bootrom_base: 0x1FFF_0000,
            bootrom_size: 0x7800,
        }
    } else if i == 5 {
        ChipParamsView {
            id: STM32ChipID::F1Low.spec_id(),
            description: "F1 low-density device"@,
            flasht: FlashType::TypeF0,
            flash_size_reg: 0x1FFF_F7E0,
            pagesize: 0x400,
            sram: seq![SRamInfo { base: 0x2000_0000, size: 0x2800 }],
            bootrom_base: 0x1FFF_F000,
            bootrom_size: 0x800,
        }
    } else if i == 6 {
        ChipParamsView {
            id: STM32ChipID::F4.spec_id(),
            description: "F4 device"@,
            flasht: FlashType::TypeF4,
            flash_size_reg: 0x1FFF_7A22,
            pagesize: 0x4000,
            sram: seq![SRamInfo { base: 0x2000_0000, size: 0x0003_0000 }],
            bootrom_base: 0x1FFF_0000,
            bootrom_size: 0x7800,
        }
    } else if i == 7 {
        ChipParamsView {
            id: STM32ChipID::F4DSI.spec_id(),
            description: "F46x and F47x device"@,
            flasht: FlashType::TypeF4,
            flash_size_reg: 0x1FFF_7A22,
            pagesize: 0x4000,
            sram: seq![SRamInfo { base: 0x2000_0000, size: 0x0004_0000 }],
            bootrom_base: 0x1FFF_0000,
            bootrom_size: 0x7800,
        }
    } else if i == 8 {
        ChipParamsView {
            id: STM32ChipID::F4HD.spec_id(),
            description: "F46x and F47x device"@,
            flasht: FlashType::TypeF4,
            flash_size_reg: 0x1FFF_7A22,
            pagesize: 0x4000,
            sram: seq![SRamInfo { base: 0x2000_0000, size: 0x0004_0000 }],
            bootrom_base: 0x1FFF_0000,
            bootrom_size: 0x7800,
        }
    } else if i == 9 {
        ChipParamsView {
            id: STM32ChipID::F4LP.spec_id(),
            description: "F4 device (low power)"@,
            flasht: FlashType::TypeF4,
            flash_size_reg: 0x1FFF_7A22,
            pagesize: 0x4000,
            sram: seq![SRamInfo { base: 0x2000_0000, size: 0x0001_0000 }],
            bootrom_base: 0x1FFF_0000,
            bootrom_size: 0x7800,
        }
    } else if i == 10 {
        ChipParamsView {
            id: STM32ChipID::F411RE.spec_id(),
            description: "F4 device (low power) - stm32f411re"@,
            flasht: FlashType::TypeF4,
            flash_size_reg: 0x1FFF_7A22,
            pagesize: 0x4000,
            sram: seq![SRamInfo { base: 0x2000_0000, size: 0x0002_0000 }],
            bootrom_base: 0x1FFF_0000,
            bootrom_size: 0x7800,
        }
    } else if i == 11 {
        ChipParamsView {
            id: STM32ChipID::F4DE.spec_id(),
            description: "F4 device (dynamic efficiency)"@,
            flasht: FlashType::TypeF4,
            flash_size_reg: 0x1FFF_7A22,
            pagesize: 0x4000,
            sram: seq![SRamInfo { base: 0x2000_0000, size: 0x0001_8000 }],
            bootrom_base: 0x1FFF_0000,
            bootrom_size: 0x7800,
        }
    } else if i == 12 {
        ChipParamsView {
            id: STM32ChipID::F1High.spec_id(),
            description: "F1 high-density device"@,
            flasht: FlashType::TypeF0,
            flash_size_reg: 0x1FFF_F7E0,
            pagesize: 0x800,
            sram: seq![SRamInfo { base: 0x2000_0000, size: 0x0001_0000 }],
            bootrom_base: 0x1FFF_0000,
            bootrom_size: 0x800,
        }
    } else if i == 13 {
        ChipParamsView {
            id: STM32ChipID::L1Medium.spec_id(),
            description: "L1 medium-density device"@,
            flasht: FlashType::TypeL0,
            flash_size_reg: 0x1FF8_004C,
            pagesize: 0x100,
            sram: seq![SRamInfo { base: 0x2000_0000, size: 0x4000 }],
            bootrom_base: 0x1FF0_0000,
            bootrom_size: 0x1000,
        }
    } else if i == 14 {
        ChipParamsView {
            id: STM32ChipID::L1Cat2.spec_id(),
            description: "L1 Cat.2 device"@,
            flasht: FlashType::TypeL0,
            flash_size_reg: 0x1FF8_004C,
            pagesize: 0x100,
            sram: seq![SRamInfo { base: 0x2000_0000, size: 0x8000 }],
            bootrom_base: 0x1FF0_0000,
            bootrom_size: 0x1000,
        }
    } else if i == 15 {
        ChipParamsView {
            id: STM32ChipID::L1MediumPlus.spec_id(),
            description: "L1 medium-plus-density device"@,
            flasht: FlashType::TypeL0,
            flash_size_reg: 0x1FF8_00CC,
            pagesize: 0x100,
            sram: seq![SRamInfo { base: 0x2000_0000, size: 0x8000 }],
            bootrom_base: 0x1FF0_0000,
            bootrom_size: 0x1000,
        }
    } else if i == 16 {
        ChipParamsView {
            id: STM32ChipID::L1High.spec_id(),
            description: "L1 high-density device"@,
            flasht: FlashType::TypeL0,
            flash_size_reg: 0x1FF8_00CC,
            pagesize: 0x100,
            sram: seq![SRamInfo { base: 0x2000_0000, size: 0xC000 }],
            bootrom_base: 0x1FF0_0000,
            bootrom_size: 0x1000,
        }
    } else if i == 17 {
        ChipParamsView {
            id: STM32ChipID::L152RE.spec_id(),
            description: "L152RE device"@,
            flasht: FlashType::TypeL0,
            flash_size_reg: 0x1FF8_00CC,
            pagesize: 0x100,
            sram: seq![SRamInfo { base: 0x2000_0000, size: 0x0001_4000 }],
            bootrom_base: 0x1FF0_0000,
            bootrom_size: 0x1000,
        }
    } else if i == 18 {
        ChipParamsView {
            id: STM32ChipID::F1Conn.spec_id(),
            description: "F1 Connectivity line device"@,
            flasht: FlashType::TypeF0,
            flash_size_reg: 0x1FFF_F7E0,
            pagesize: 0x800,
            sram: seq![SRamInfo { base: 0x2000_0000, size: 0x0001_0000 }],
            bootrom_base: 0x1FFF_B000,
            bootrom_size: 0x4800,
        }
    } else if i == 19 {
        ChipParamsView {
            id: STM32ChipID::F1VLMediumLow.spec_id(),
            description: "F1 medium/low-density Value Line device"@,
            flasht: FlashType::TypeF0,
            flash_size_reg: 0x1FFF_F7E0,
            pagesize: 0x400,
            sram: seq![SRamInfo { base: 0x2000_0000, size: 0x2000 }],
            bootrom_base: 0x1FFF_F000,
            bootrom_size: 0x800,
        }
    } else if i == 20 {
        ChipParamsView {
            id: STM32ChipID::F446.spec_id(),
            description: "F446 device"@,
            flasht: FlashType::TypeF4,
            flash_size_reg: 0x1FFF_7A22,
            pagesize: 0x0002_0000,
            sram: seq![SRamInfo { base: 0x2000_0000, size: 0x0002_0000 }],
            bootrom_base: 0x1FFF_0000,
            bootrom_size: 0x7800,
        }
    } else if i == 21 {
        ChipParamsView {
            id: STM32ChipID::F410.spec_id(),
            description: "F410 device"@,
            flasht: FlashType::TypeF4,
            flash_size_reg: 0x1FFF_7A22,
            pagesize: 0x4000,
            sram: seq![SRamInfo { base: 0x2000_0000, size: 0x8000 }],
            bootrom_base: 0x1FFF_0000,
            bootrom_size: 0x7800,
        }
    } else if i == 22 {
        ChipParamsView {
            id: STM32ChipID::F3.spec_id(),
            description: "F3 device"@,
            flasht: FlashType::TypeF0,
            flash_size_reg: 0x1FFF_F7CC,
            pagesize: 0x800,
            sram: seq![SRamInfo { base: 0x2000_0000, size: 0xA000 }],
            bootrom_base: 0x1FFF_F000,
            bootrom_size: 0x800,
        }
    } else if i == 23 {
        ChipParamsView {
            id: STM32ChipID::F37x.spec_id(),
            description: "F37x device"@,
            flasht: FlashType::TypeF0,
            flash_size_reg: 0x1FFF_F7CC,
            pagesize: 0x800,
            sram: seq![SRamInfo { base: 0x2000_0000, size: 0xA000 }],
            bootrom_base: 0x1FFF_F000,
            bootrom_size: 0x800,
        }
    } else if i == 24 {
        ChipParamsView {
            id: STM32ChipID::F1VLHigh.spec_id(),
            description: "F1 high-density value line device"@,
            flasht: FlashType::TypeF0,
            flash_size_reg: 0x1FFF_F7E0,
            pagesize: 0x800,
            sram: seq![SRamInfo { base: 0x2000_0000, size: 0x8000 }],
            bootrom_base: 0x1FFF_F000,
            bootrom_size: 0x800,
        }
    } else if i == 25 {
        ChipParamsView {
            id: STM32ChipID::F1XL.spec_id(),
            description: "F1 XL-density device"@,
            flasht: FlashType::TypeF1XL,
            flash_size_reg: 0x1FFF_F7E0,
            pagesize: 0x800,
            sram: seq![SRamInfo { base: 0x2000_0000, size: 0x0001_8000 }],
            bootrom_base: 0x1FFF_E000,
            bootrom_size: 0x1800,
        }
    } else if i == 26 {
        ChipParamsView {
            id: STM32ChipID::F0Can.spec_id(),
            description: "F07x device"@,
            flasht: FlashType::TypeF0,
            flash_size_reg: 0x1FFF_F7CC,
            pagesize: 0x800,
            sram: seq![SRamInfo { base: 0x2000_0000, size: 0x4000 }],
            bootrom_base: 0x1FFF_C800,
            bootrom_size: 0x3000,
        }
    } else if i == 27 {
        ChipParamsView {
            id: STM32ChipID::F0.spec_id(),
            description: "F0 device"@,
            flasht: FlashType::TypeF0,
            flash_size_reg: 0x1FFF_F7CC,
            pagesize: 0x400,
            sram: seq![SRamInfo { base: 0x2000_0000, size: 0x2000 }],
            bootrom_base: 0x1FFF_EC00,
            bootrom_size: 0xC00,
        }
    } else if i == 28 {
        ChipParamsView {
            id: STM32ChipID::F412.spec_id(),
            description: "F412 device"@,
            flasht: FlashType::TypeF4,
            flash_size_reg: 0x1FFF_7A22,
            pagesize: 0x4000,
            sram: seq![SRamInfo { base: 0x2000_0000, size: 0x0004_0000 }],
            bootrom_base: 0x1FFF_0000,
            bootrom_size: 0x7800,
        }
    } else if i == 29 {
        ChipParamsView {
            id: STM32ChipID::F413.spec_id(),
            description: "F413 device"@,
            flasht: FlashType::TypeF4,
            flash_size_reg: 0x1FFF_7A22,
            pagesize: 0x4000,
            sram: seq![SRamInfo { base: 0x2000_0000, size: 0x0005_0000 }],
            bootrom_base: 0x1FFF_0000,
            bootrom_size: 0x7800,
        }
    } else if i == 30 {
        ChipParamsView {
            id: STM32ChipID::F09X.spec_id(),
            description: "F09x device"@,
            flasht: FlashType::TypeF0,
            flash_size_reg: 0x1FFF_F7CC,
            pagesize: 0x800,
            sram: seq![SRamInfo { base: 0x2000_0000, size: 0x8000 }],
            bootrom_base: 0x1FFF_D800,
            bootrom_size: 0x2000,
        }
    } else if i == 31 {
        ChipParamsView {
            id: STM32ChipID::F04.spec_id(),
            description: "F04x device"@,
            flasht: FlashType::TypeF0,
            flash_size_reg: 0x1FFF_F7CC,
            pagesize: 0x400,
            sram: seq![SRamInfo { base: 0x2000_0000, size: 0x1800 }],
            bootrom_base: 0x1FFF_EC00,
            bootrom_size: 0xC00,
        }
    } else if i == 32 {
        ChipParamsView {
            id: STM32ChipID::F0Small.spec_id(),
            description: "F0 small device"@,
            flasht: FlashType::TypeF0,
            flash_size_reg: 0x1FFF_F7CC,
            pagesize: 0x400,
            sram: seq![SRamInfo { base: 0x2000_0000, size: 0x1000 }],
            bootrom_base: 0x1FFF_EC00,
            bootrom_size: 0xC00,
        }
    } else if i == 33 {
        ChipParamsView {
            id: STM32ChipID::F3Small.spec_id(),
            description: "F3 small device"@,
            flasht: FlashType::TypeF0,
            flash_size_reg: 0x1FFF_F7CC,
            pagesize: 0x800,
            sram: seq![SRamInfo { base: 0x2000_0000, size: 0xA000 }],
            bootrom_base: 0x1FFF_D800,
            bootrom_size: 0x2000,
        }
    } else if i == 34 {
        ChipParamsView {
            id: STM32ChipID::L0.spec_id(),
            description: "L0x3 device"@,
            flasht: FlashType::TypeL0,
            flash_size_reg: 0x1FF8_007C,
            pagesize: 0x80,
            sram: seq![SRamInfo { base: 0x2000_0000, size: 0x2000 }],
            bootrom_base: 0x01FF_0000,
            bootrom_size: 0x1000,
        }
    } else if i == 35 {
        ChipParamsView {
            id: STM32ChipID::L0Cat5.spec_id(),
            description: "L0x Category 5 device"@,
            flasht: FlashType::TypeL0,
            flash_size_reg: 0x1FF8_007C,
            pagesize: 0x80,
            sram: seq![SRamInfo { base: 0x2000_0000, size: 0x5000 }],
            bootrom_base: 0x01FF_0000,
            bootrom_size: 0x2000,
        }
    } else if i == 36 {
        ChipParamsView {
            id: STM32ChipID::L0Cat2.spec_id(),
            description: "L0x Category 2 device"@,
            flasht: FlashType::TypeL0,
            flash_size_reg: 0x1FF8_007C,
            pagesize: 0x80,
            sram: seq![SRamInfo { base: 0x2000_0000, size: 0x2000 }],
            bootrom_base: 0x01FF_0000,
            bootrom_size: 0x1000,
        }
    } else if i == 37 {
        ChipParamsView {
            id: STM32ChipID::F334.spec_id(),
            description: "F3xx medium density device"@,
            flasht: FlashType::TypeF0,
            flash_size_reg: 0x1FFF_F7CC,
            pagesize: 0x800,
            sram: seq![SRamInfo { base: 0x2000_0000, size: 0x3000 }],
            bootrom_base: 0x1FFF_D800,
            bootrom_size: 0x2000,
        }
    } else if i == 38 {
        ChipParamsView {
            id: STM32ChipID::F303High.spec_id(),
            description: "L303 high density device"@,
            flasht: FlashType::TypeF0,
            flash_size_reg: 0x1FFF_F7CC,
            pagesize: 0x800,
            sram: seq![SRamInfo { base: 0x2000_0000, size: 0x0001_0000 }],
            bootrom_base: 0x1FFF_D800,
            bootrom_size: 0x2000,
        }
    } else if i == 39 {
        ChipParamsView {
            id: STM32ChipID::L4.spec_id(),
            description: "L4 device"@,
            flasht: FlashType::TypeL4,
            flash_size_reg: 0x1FFF_75E0,
            pagesize: 0x800,
            sram: seq![SRamInfo { base: 0x2000_0000, size: 0x0001_8000 }, SRamInfo { base: 0x1000_0000, size: 0x8000 }],
            bootrom_base: 0x1FFF_0000,
            bootrom_size: 0x7000,
        }
    } else if i == 40 {
        ChipParamsView {
            id: STM32ChipID::L4RX.spec_id(),
            description: "L4Rx device"@,
            flasht: FlashType::TypeL4,
            flash_size_reg: 0x1FFF_75E0,
            pagesize: 0x1000,
            sram: seq![SRamInfo { base: 0x2000_0000, size: 0x000A_0000 }],
            bootrom_base: 0x1FFF_0000,
            bootrom_size: 0x7000,
        }
    } else if i == 41 {
        ChipParamsView {
            id: STM32ChipID::L43X.spec_id(),
            description: "L43x/L44x device"@,
            flasht: FlashType::TypeL4,
            flash_size_reg: 0x1FFF_75E0,
            pagesize: 0x800,
            sram: seq![SRamInfo { base: 0x2000_0000, size: 0xC000 }, SRamInfo { base: 0x1000_0000, size: 0x4000 }],
            bootrom_base: 0x1FFF_0000,
            bootrom_size: 0x7000,
        }
    } else if i == 42 {
        ChipParamsView {
            id: STM32ChipID::L496X.spec_id(),
            description: "L496x/L4A6x device"@,
            flasht: FlashType::TypeL4,
            flash_size_reg: 0x1FFF_75E0,
            pagesize: 0x800,
            sram: seq![SRamInfo { base: 0x2000_0000, size: 0x0004_0000 }, SRamInfo { base: 0x1000_0000, size: 0x0001_0000 }],
            bootrom_base: 0x1FFF_0000,
            bootrom_size: 0x7000,
        }
    } else if i == 43 {
        ChipParamsView {
            id: STM32ChipID::L46X.spec_id(),
            description: "L45x/L46x device"@,
            flasht: FlashType::TypeL4,
            flash_size_reg: 0x1FFF_75E0,
            pagesize: 0x800,
            sram: seq![SRamInfo { base: 0x2000_0000, size: 0x0002_0000 }, SRamInfo { base: 0x1000_0000, size: 0x8000 }],
            bootrom_base: 0x1FFF_0000,
            bootrom_size: 0x7000,
        }
    } else if i == 44 {
        ChipParamsView {
            id: STM32ChipID::L011.spec_id(),
            description: "L011 device"@,
            flasht: FlashType::TypeL0,
            flash_size_reg: 0x1FF8_007C,
            pagesize: 0x80,
            sram: seq![SRamInfo { base: 0x2000_0000, size: 0x2000 }],
            bootrom_base: 0x1FF0_0000,
            bootrom_size: 0x2000,
        }
    } else if i == 45 {
        ChipParamsView {
            id: STM32ChipID::G0X1.spec_id(),
            description: "G071/G081 device"@,
            flasht: FlashType::TypeG0,
            flash_size_reg: 0x1FFF_75E0,
            pagesize: 0x800,
            sram: seq![SRamInfo { base: 0x2000_0000, size: 0x9000 }],
            bootrom_base: 0x1FFF_0000,
            bootrom_size: 0x7800,
        }
    } else if i == 46 {
        ChipParamsView {
            id: STM32ChipID::WB55.spec_id(),
            description: "WB55 device"@,
            flasht: FlashType::TypeWB,
            flash_size_reg: 0x1FFF_75E0,
            pagesize: 0x1000,
            sram: seq![SRamInfo { base: 0x2000_0000, size: 0x0004_0000 }],
            bootrom_base: 0x1FFF_0000,
            bootrom_size: 0x7000,
        }
    } else {
        ChipParamsView {
            id: STM32ChipID::Unknown.spec_id(),
            description: "Unknown device"@,
            flasht: FlashType::Unknown,
            flash_size_reg: 0x0,
            pagesize: 0x0,
            sram: seq![SRamInfo { base: 0x0, size: 0x0 }],
            bootrom_base: 0x0,
            bootrom_size: 0x0,
        }
    }
}

/// The whole table, in the order in which it is searched.
pub open spec fn chip_table() -> Seq<ChipParamsView> {
    Seq::new(CHIP_COUNT as nat, |i: int| chip_row(i))
}

fn regions(first: SRamInfo, second: Option<SRamInfo>) -> (list: Vec<SRamInfo>)
    ensures
        list@ == match second {
            Some(s) => seq![first, s],
            None => seq![first],
        },
{
    let mut list: Vec<SRamInfo> = Vec::new();
    list.push(first);
    if let Some(s) = second {
        list.push(s);
    }
    assert(list@ =~= match second {
        Some(s) => seq![first, s],
        None => seq![first],
    });
    list
}

/// Builds row `i` of the table.
pub fn chip(i: usize) -> (row: ChipParams)
    requires
        i < CHIP_COUNT,
    ensures
        row@ == chip_row(i as int),
{
    match i {
        0 => ChipParams {
            id: STM32ChipID::F7XXXX.id(),
            description: "F76xxx device".to_owned(),
            flasht: FlashType::TypeF4,
            flash_size_reg: 0x1FF0_F442,
            pagesize: 0x800,
            sram: regions(SRamInfo::new(0x0008_0000, 0x2000_0000), None),
            bootrom_base: 0x0020_0000,
            bootrom_size: 0xEDC0,
        },
        1 => ChipParams {
            id: STM32ChipID::F7.id(),
            description: "F7 device".to_owned(),
            flasht: FlashType::TypeF4,
            flash_size_reg: 0x1FF0_F442,
            pagesize: 0x800,
            sram: regions(SRamInfo::new(0x0005_0000, 0x2000_0000), None),
            bootrom_base: 0x0010_0000,
            bootrom_size: 0xEDC0,
        },
        2 => ChipParams {
            id: STM32ChipID::F72XXX.id(),
            description: "F72 device".to_owned(),
            flasht: FlashType::TypeF4,
            flash_size_reg: 0x1FF0_F442,
            pagesize: 0x800,
            sram: regions(SRamInfo::new(0x0004_0000, 0x2000_0000), None),
            bootrom_base: 0x0010_0000,
            bootrom_size: 0xEDC0,
        },
        3 => ChipParams {
            id: STM32ChipID::F1Medium.id(),
            description: "F1 medium-density device".to_owned(),
            flasht: FlashType::TypeF0,
            flash_size_reg: 0x1FFF_F7E0,
            pagesize: 0x400,
            sram: regions(SRamInfo::new(0x5000, 0x2000_0000), None),
            bootrom_base: 0x1FFF_F000,
            bootrom_size: 0x800,
        },
        4 => ChipParams {
            id: STM32ChipID::F2.id(),
            description: "F2 device".to_owned(),
            flasht: FlashType::TypeF4,
            flash_size_reg: 0x1FFF_7A22,
            pagesize: 0x0002_0000,
            sram: regions(SRamInfo::new(0x0002_0000, 0x2000_0000), None),
            bootrom_base: 0x1FFF_0000,
            bootrom_size: 0x7800,
        },
        5 => ChipParams {
            id: STM32ChipID::F1Low.id(),
            description: "F1 low-density device".to_owned(),
            flasht: FlashType::TypeF0,
            flash_size_reg: 0x1FFF_F7E0,
            pagesize: 0x400,
            sram: regions(SRamInfo::new(0x2800, 0x2000_0000), None),
            bootrom_base: 0x1FFF_F000,
            bootrom_size: 0x800,
        },
        6 => ChipParams {
            id: STM32ChipID::F4.id(),
            description: "F4 device".to_owned(),
            flasht: FlashType::TypeF4,
            flash_size_reg: 0x1FFF_7A22,
            pagesize: 0x4000,
            sram: regions(SRamInfo::new(0x0003_0000, 0x2000_0000), None),
            bootrom_base: 0x1FFF_0000,
            bootrom_size: 0x7800,
        },
        7 => ChipParams {
            id: STM32ChipID::F4DSI.id(),
            description: "F46x and F47x device".to_owned(),
            flasht: FlashType::TypeF4,
            flash_size_reg: 0x1FFF_7A22,
            pagesize: 0x4000,
            sram: regions(SRamInfo::new(0x0004_0000, 0x2000_0000), None),
            bootrom_base: 0x1FFF_0000,
            bootrom_size: 0x7800,
        },
        8 => ChipParams {
            id: STM32ChipID::F4HD.id(),
            description: "F46x and F47x device".to_owned(),
            flasht: FlashType::TypeF4,
            flash_size_reg: 0x1FFF_7A22,
            pagesize: 0x4000,
            sram: regions(SRamInfo::new(0x0004_0000, 0x2000_0000), None),
            bootrom_base: 0x1FFF_0000,
            bootrom_size: 0x7800,
        },
        9 => ChipParams {
            id: STM32ChipID::F4LP.id(),
            description: "F4 device (low power)".to_owned(),
            flasht: FlashType::TypeF4,
            flash_size_reg: 0x1FFF_7A22,
            pagesize: 0x4000,
            sram: regions(SRamInfo::new(0x0001_0000, 0x2000_0000), None),
            bootrom_base: 0x1FFF_0000,
            bootrom_size: 0x7800,
        },
        10 => ChipParams {
            id: STM32ChipID::F411RE.id(),
            description: "F4 device (low power) - stm32f411re".to_owned(),
            flasht: FlashType::TypeF4,
            flash_size_reg: 0x1FFF_7A22,
            pagesize: 0x4000,
            sram: regions(SRamInfo::new(0x0002_0000, 0x2000_0000), None),
            bootrom_base: 0x1FFF_0000,
            bootrom_size: 0x7800,
        },
        11 => ChipParams {
            id: STM32ChipID::F4DE.id(),
            description: "F4 device (dynamic efficiency)".to_owned(),
            flasht: FlashType::TypeF4,
            flash_size_reg: 0x1FFF_7A22,
            pagesize: 0x4000,
            sram: regions(SRamInfo::new(0x0001_8000, 0x2000_0000), None),
            bootrom_base: 0x1FFF_0000,
            bootrom_size: 0x7800,
        },
        12 => ChipParams {
            id: STM32ChipID::F1High.id(),
            description: "F1 high-density device".to_owned(),
            flasht: FlashType::TypeF0,
            flash_size_reg: 0x1FFF_F7E0,
            pagesize: 0x800,
            sram: regions(SRamInfo::new(0x0001_0000, 0x2000_0000), None),
            bootrom_base: 0x1FFF_0000,
            bootrom_size: 0x800,
        },
        13 => ChipParams {
            id: STM32ChipID::L1Medium.id(),
            description: "L1 medium-density device".to_owned(),
            flasht: FlashType::TypeL0,
            flash_size_reg: 0x1FF8_004C,
            pagesize: 0x100,
            sram: regions(SRamInfo::new(0x4000, 0x2000_0000), None),
            bootrom_base: 0x1FF0_0000,
            bootrom_size: 0x1000,
        },
        14 => ChipParams {
            id: STM32ChipID::L1Cat2.id(),
            description: "L1 Cat.2 device".to_owned(),
            flasht: FlashType::TypeL0,
            flash_size_reg: 0x1FF8_004C,
            pagesize: 0x100,
            sram: regions(SRamInfo::new(0x8000, 0x2000_0000), None),
            bootrom_base: 0x1FF0_0000,
            bootrom_size: 0x1000,
        },
        15 => ChipParams {
            id: STM32ChipID::L1MediumPlus.id(),
            description: "L1 medium-plus-density device".to_owned(),
            flasht: FlashType::TypeL0,
            flash_size_reg: 0x1FF8_00CC,
            pagesize: 0x100,
            sram: regions(SRamInfo::new(0x8000, 0x2000_0000), None),
            bootrom_base: 0x1FF0_0000,
            bootrom_size: 0x1000,
        },
        16 => ChipParams {
            id: STM32ChipID::L1High.id(),
            description: "L1 high-density device".to_owned(),
            flasht: FlashType::TypeL0,
            flash_size_reg: 0x1FF8_00CC,
            pagesize: 0x100,
            sram: regions(SRamInfo::new(0xC000, 0x2000_0000), None),
            bootrom_base: 0x1FF0_0000,
            bootrom_size: 0x1000,
        },
        17 => ChipParams {
            id: STM32ChipID::L152RE.id(),
            description: "L152RE device".to_owned(),
            flasht: FlashType::TypeL0,
            flash_size_reg: 0x1FF8_00CC,
            pagesize: 0x100,
            sram: regions(SRamInfo::new(0x0001_4000, 0x2000_0000), None),
            bootrom_base: 0x1FF0_0000,
            bootrom_size: 0x1000,
        },
        18 => ChipParams {
            id: STM32ChipID::F1Conn.id(),
            description: "F1 Connectivity line device".to_owned(),
            flasht: FlashType::TypeF0,
            flash_size_reg: 0x1FFF_F7E0,
            pagesize: 0x800,
            sram: regions(SRamInfo::new(0x0001_0000, 0x2000_0000), None),
            bootrom_base: 0x1FFF_B000,
            bootrom_size: 0x4800,
        },
        19 => ChipParams {
            id: STM32ChipID::F1VLMediumLow.id(),
            description: "F1 medium/low-density Value Line device".to_owned(),
            flasht: FlashType::TypeF0,
            flash_size_reg: 0x1FFF_F7E0,
            pagesize: 0x400,
            sram: regions(SRamInfo::new(0x2000, 0x2000_0000), None),
            bootrom_base: 0x1FFF_F000,
            bootrom_size: 0x800,
        },
        20 => ChipParams {
            id: STM32ChipID::F446.id(),
            description: "F446 device".to_owned(),
            flasht: FlashType::TypeF4,
            flash_size_reg: 0x1FFF_7A22,
            pagesize: 0x0002_0000,
            sram: regions(SRamInfo::new(0x0002_0000, 0x2000_0000), None),
            bootrom_base: 0x1FFF_0000,
            bootrom_size: 0x7800,
        },
        21 => ChipParams {
            id: STM32ChipID::F410.id(),
            description: "F410 device".to_owned(),
            flasht: FlashType::TypeF4,
            flash_size_reg: 0x1FFF_7A22,
            pagesize: 0x4000,
            sram: regions(SRamInfo::new(0x8000, 0x2000_0000), None),
            bootrom_base: 0x1FFF_0000,
            bootrom_size: 0x7800,
        },
        22 => ChipParams {
            id: STM32ChipID::F3.id(),
            description: "F3 device".to_owned(),
            flasht: FlashType::TypeF0,
            flash_size_reg: 0x1FFF_F7CC,
            pagesize: 0x800,
            sram: regions(SRamInfo::new(0xA000, 0x2000_0000), None),
            bootrom_base: 0x1FFF_F000,
            bootrom_size: 0x800,
        },
        23 => ChipParams {
            id: STM32ChipID::F37x.id(),
            description: "F37x device".to_owned(),
            flasht: FlashType::TypeF0,
            flash_size_reg: 0x1FFF_F7CC,
            pagesize: 0x800,
            sram: regions(SRamInfo::new(0xA000, 0x2000_0000), None),
            bootrom_base: 0x1FFF_F000,
            bootrom_size: 0x800,
        },
        24 => ChipParams {
            id: STM32ChipID::F1VLHigh.id(),
            description: "F1 high-density value line device".to_owned(),
            flasht: FlashType::TypeF0,
            flash_size_reg: 0x1FFF_F7E0,
            pagesize: 0x800,
            sram: regions(SRamInfo::new(0x8000, 0x2000_0000), None),
            bootrom_base: 0x1FFF_F000,
            bootrom_size: 0x800,
        },
        25 => ChipParams {
            id: STM32ChipID::F1XL.id(),
            description: "F1 XL-density device".to_owned(),
            flasht: FlashType::TypeF1XL,
            flash_size_reg: 0x1FFF_F7E0,
            pagesize: 0x800,
            sram: regions(SRamInfo::new(0x0001_8000, 0x2000_0000), None),
            bootrom_base: 0x1FFF_E000,
            bootrom_size: 0x1800,
        },
        26 => ChipParams {
            id: STM32ChipID::F0Can.id(),
            description: "F07x device".to_owned(),
            flasht: FlashType::TypeF0,
            flash_size_reg: 0x1FFF_F7CC,
            pagesize: 0x800,
            sram: regions(SRamInfo::new(0x4000, 0x2000_0000), None),
            bootrom_base: 0x1FFF_C800,
            bootrom_size: 0x3000,
        },
        27 => ChipParams {
            id: STM32ChipID::F0.id(),
            description: "F0 device".to_owned(),
            flasht: FlashType::TypeF0,
            flash_size_reg: 0x1FFF_F7CC,
            pagesize: 0x400,
            sram: regions(SRamInfo::new(0x2000, 0x2000_0000), None),
            bootrom_base: 0x1FFF_EC00,
            bootrom_size: 0xC00,
        },
        28 => ChipParams {
            id: STM32ChipID::F412.id(),
            description: "F412 device".to_owned(),
            flasht: FlashType::TypeF4,
            flash_size_reg: 0x1FFF_7A22,
            pagesize: 0x4000,
            sram: regions(SRamInfo::new(0x0004_0000, 0x2000_0000), None),
            bootrom_base: 0x1FFF_0000,
            bootrom_size: 0x7800,
        },
        29 => ChipParams {
            id: STM32ChipID::F413.id(),
            description: "F413 device".to_owned(),
            flasht: FlashType::TypeF4,
            flash_size_reg: 0x1FFF_7A22,
            pagesize: 0x4000,
            sram: regions(SRamInfo::new(0x0005_0000, 0x2000_0000), None),
            bootrom_base: 0x1FFF_0000,
            bootrom_size: 0x7800,
        },
        30 => ChipParams {
            id: STM32ChipID::F09X.id(),
            description: "F09x device".to_owned(),
            flasht: FlashType::TypeF0,
            flash_size_reg: 0x1FFF_F7CC,
            pagesize: 0x800,
            sram: regions(SRamInfo::new(0x8000, 0x2000_0000), None),
            bootrom_base: 0x1FFF_D800,
            bootrom_size: 0x2000,
        },
        31 => ChipParams {
            id: STM32ChipID::F04.id(),
            description: "F04x device".to_owned(),
            flasht: FlashType::TypeF0,
            flash_size_reg: 0x1FFF_F7CC,
            pagesize: 0x400,
            sram: regions(SRamInfo::new(0x1800, 0x2000_0000), None),
            bootrom_base: 0x1FFF_EC00,
            bootrom_size: 0xC00,
        },
        32 => ChipParams {
            id: STM32ChipID::F0Small.id(),
            description: "F0 small device".to_owned(),
            flasht: FlashType::TypeF0,
            flash_size_reg: 0x1FFF_F7CC,
            pagesize: 0x400,
            sram: regions(SRamInfo::new(0x1000, 0x2000_0000), None),
            bootrom_base: 0x1FFF_EC00,
            bootrom_size: 0xC00,
        },
        33 => ChipParams {
            id: STM32ChipID::F3Small.id(),
            description: "F3 small device".to_owned(),
            flasht: FlashType::TypeF0,
            flash_size_reg: 0x1FFF_F7CC,
            pagesize: 0x800,
            sram: regions(SRamInfo::new(0xA000, 0x2000_0000), None),
            bootrom_base: 0x1FFF_D800,
            bootrom_size: 0x2000,
        },
        34 => ChipParams {
            id: STM32ChipID::L0.id(),
            description: "L0x3 device".to_owned(),
            flasht: FlashType::TypeL0,
            flash_size_reg: 0x1FF8_007C,
            pagesize: 0x80,
            sram: regions(SRamInfo::new(0x2000, 0x2000_0000), None),
            bootrom_base: 0x01FF_0000,
            bootrom_size: 0x1000,
        },
        35 => ChipParams {
            id: STM32ChipID::L0Cat5.id(),
            description: "L0x Category 5 device".to_owned(),
            flasht: FlashType::TypeL0,
            flash_size_reg: 0x1FF8_007C,
            pagesize: 0x80,
            sram: regions(SRamInfo::new(0x5000, 0x2000_0000), None),
            bootrom_base: 0x01FF_0000,
            bootrom_size: 0x2000,
        },
        36 => ChipParams {
            id: STM32ChipID::L0Cat2.id(),
            description: "L0x Category 2 device".to_owned(),
            flasht: FlashType::TypeL0,
            flash_size_reg: 0x1FF8_007C,
            pagesize: 0x80,
            sram: regions(SRamInfo::new(0x2000, 0x2000_0000), None),
            bootrom_base: 0x01FF_0000,
            bootrom_size: 0x1000,
        },
        37 => ChipParams {
            id: STM32ChipID::F334.id(),
            description: "F3xx medium density device".to_owned(),
            flasht: FlashType::TypeF0,
            flash_size_reg: 0x1FFF_F7CC,
            pagesize: 0x800,
            sram: regions(SRamInfo::new(0x3000, 0x2000_0000), None),
            bootrom_base: 0x1FFF_D800,
            bootrom_size: 0x2000,
        },
        38 => ChipParams {
            id: STM32ChipID::F303High.id(),
            description: "L303 high density device".to_owned(),
            flasht: FlashType::TypeF0,
            flash_size_reg: 0x1FFF_F7CC,
            pagesize: 0x800,
            sram: regions(SRamInfo::new(0x0001_0000, 0x2000_0000), None),
            bootrom_base: 0x1FFF_D800,
            bootrom_size: 0x2000,
        },
        39 => ChipParams {
            id: STM32ChipID::L4.id(),
            description: "L4 device".to_owned(),
            flasht: FlashType::TypeL4,
            flash_size_reg: 0x1FFF_75E0,
            pagesize: 0x800,
            sram: regions(SRamInfo::new(0x0001_8000, 0x2000_0000), Some(SRamInfo::new(0x8000, 0x1000_0000))),
            bootrom_base: 0x1FFF_0000,
            bootrom_size: 0x7000,
        },
        40 => ChipParams {
            id: STM32ChipID::L4RX.id(),
            description: "L4Rx device".to_owned(),
            flasht: FlashType::TypeL4,
            flash_size_reg: 0x1FFF_75E0,
            pagesize: 0x1000,
            sram: regions(SRamInfo::new(0x000A_0000, 0x2000_0000), None),
            bootrom_base: 0x1FFF_0000,
            bootrom_size: 0x7000,
        },
        41 => ChipParams {
            id: STM32ChipID::L43X.id(),
            description: "L43x/L44x device".to_owned(),
            flasht: FlashType::TypeL4,
            flash_size_reg: 0x1FFF_75E0,
            pagesize: 0x800,
            sram: regions(SRamInfo::new(0xC000, 0x2000_0000), Some(SRamInfo::new(0x4000, 0x1000_0000))),
            bootrom_base: 0x1FFF_0000,
            bootrom_size: 0x7000,
        },
        42 => ChipParams {
            id: STM32ChipID::L496X.id(),
            description: "L496x/L4A6x device".to_owned(),
            flasht: FlashType::TypeL4,
            flash_size_reg: 0x1FFF_75E0,
            pagesize: 0x800,
            sram: regions(SRamInfo::new(0x0004_0000, 0x2000_0000), Some(SRamInfo::new(0x0001_0000, 0x1000_0000))),
            bootrom_base: 0x1FFF_0000,
            bootrom_size: 0x7000,
        },
        43 => ChipParams {
            id: STM32ChipID::L46X.id(),
            description: "L45x/L46x device".to_owned(),
            flasht: FlashType::TypeL4,
            flash_size_reg: 0x1FFF_75E0,
            pagesize: 0x800,
            sram: regions(SRamInfo::new(0x0002_0000, 0x2000_0000), Some(SRamInfo::new(0x8000, 0x1000_0000))),
            bootrom_base: 0x1FFF_0000,
            bootrom_size: 0x7000,
        },
        44 => ChipParams {
            id: STM32ChipID::L011.id(),
            description: "L011 device".to_owned(),
            flasht: FlashType::TypeL0,
            flash_size_reg: 0x1FF8_007C,
            pagesize: 0x80,
            sram: regions(SRamInfo::new(0x2000, 0x2000_0000), None),
            bootrom_base: 0x1FF0_0000,
            bootrom_size: 0x2000,
        },
        45 => ChipParams {
            id: STM32ChipID::G0X1.id(),
            description: "G071/G081 device".to_owned(),
            flasht: FlashType::TypeG0,
            flash_size_reg: 0x1FFF_75E0,
            pagesize: 0x800,
            sram: regions(SRamInfo::new(0x9000, 0x2000_0000), None),
            bootrom_base: 0x1FFF_0000,
            bootrom_size: 0x7800,
        },
        46 => ChipParams {
            id: STM32ChipID::WB55.id(),
            description: "WB55 device".to_owned(),
            flasht: FlashType::TypeWB,
            flash_size_reg: 0x1FFF_75E0,
            pagesize: 0x1000,
            sram: regions(SRamInfo::new(0x0004_0000, 0x2000_0000), None),
            bootrom_base: 0x1FFF_0000,
            bootrom_size: 0x7000,
        },
        _ => ChipParams {
            id: STM32ChipID::Unknown.id(),
            description: "Unknown device".to_owned(),
            flasht: FlashType::Unknown,
            flash_size_reg: 0x0,
            pagesize: 0x0,
            sram: regions(SRamInfo::new(0x0, 0x0), None),
            bootrom_base: 0x0,
            bootrom_size: 0x0,
        },
    }
}

/// Builds the whole table.
pub fn stm_chips() -> (table: Vec<ChipParams>)
    ensures
        table@.len() == CHIP_COUNT,
        forall|i: int| 0 <= i < CHIP_COUNT ==> (#[trigger] table@[i])@ == chip_row(i),
{
    let mut table: Vec<ChipParams> = Vec::new();
    let mut i: usize = 0;
    while i < CHIP_COUNT
        invariant
            i <= CHIP_COUNT,
            table@.len() == i,
            forall|j: int| 0 <= j < i ==> (#[trigger] table@[j])@ == chip_row(j),
        decreases CHIP_COUNT - i,
    {
        table.push(chip(i));
        i += 1;
    }
    table
}

/// Whether row `k` is the one that a search for `id` ends at: the first row
/// with that identifier, or the last row of the table where no row has it.
pub open spec fn found_at(id: u32, k: int) -> bool {
    &&& 0 <= k < CHIP_COUNT
    &&& forall|j: int| 0 <= j < k ==> (#[trigger] chip_row(j)).id != id
    &&& (chip_row(k).id == id || k == CHIP_COUNT - 1)
}

/// The parameters of the device whose identifier is `id`: the first row of
/// the table with that identifier. An identifier that no row has gives the
/// last row, which stands for an unknown device and holds zeros.
pub open spec fn chip_for(id: u32) -> ChipParamsView {
    chip_row(choose|k: int| found_at(id, k))
}

/// Looks up the parameters of the device whose identifier is `id`.
pub fn get_chip_from_id_u32(id: u32) -> (chip: ChipParams)
    ensures
        chip@ == chip_for(id),
        exists|k: int| found_at(id, k) && chip@ == chip_row(k),
{
    let mut i: usize = 0;
    while i < CHIP_COUNT - 1
        invariant
            i <= CHIP_COUNT - 1,
            forall|j: int| 0 <= j < i ==> (#[trigger] chip_row(j)).id != id,
        decreases CHIP_COUNT - i,
    {
        let row = self::chip(i);
        if row.id == id {
            assert(found_at(id, i as int));
            proof {
                lemma_found_at_unique(id, i as int, choose|k: int| found_at(id, k));
            }
            return row;
        }
        i += 1;
    }
    assert(found_at(id, CHIP_COUNT - 1));
    proof {
        lemma_found_at_unique(id, CHIP_COUNT - 1, choose|k: int| found_at(id, k));
    }
    self::chip(CHIP_COUNT - 1)
}

/// The row that a search for `id` ends at is unique.
pub proof fn lemma_found_at_unique(id: u32, k1: int, k2: int)
    requires
        found_at(id, k1),
        found_at(id, k2),
    ensures
        k1 == k2,
{
    if k1 < k2 {
        assert(chip_row(k1).id != id);
    } else if k2 < k1 {
        assert(chip_row(k2).id != id);
    }
}

/// Every identifier of the table fits the 11-bit mask of the device-ID
/// register and lies in the range 0x400 to 0x7FF; the one exception is the
/// last row, whose identifier is zero.
pub proof fn lemma_chip_ids_in_range(i: int)
    requires
        0 <= i < CHIP_COUNT,
    ensures
        0x400 <= chip_row(i).id <= 0x7FF || (i == CHIP_COUNT - 1 && chip_row(i).id == 0),
{
}

} // verus!
