use stlink::link::enums::{Cmd, DebugMode, Direction, FlashType, STLinkJTAGVersion, STLinkMode};
use stlink::link::structs::{
    CoreRegisters, Endpoint, FlashInfo, MemInfo, SRamInfo, STLinkUSBVersion, SpeedMap, SysMemInfo,
};

#[test]
fn jtag_versions_have_codes_and_names() {
    assert_eq!(STLinkJTAGVersion::V1.code(), 0b0001_0000);
    assert_eq!(STLinkJTAGVersion::V2.code(), 0b0010_0000);
    assert_eq!(STLinkJTAGVersion::V3.code(), 0b0011_0000);
    assert_eq!(STLinkJTAGVersion::V1.to_string(), "V1");
    assert_eq!(STLinkJTAGVersion::V2.to_string(), "V2");
    assert_eq!(STLinkJTAGVersion::V3.to_string(), "V3");
}

#[test]
fn modes_have_indices() {
    let cases = [
        (STLinkMode::Unknown, 0usize),
        (STLinkMode::DFU, 1),
        (STLinkMode::Mass, 2),
        (STLinkMode::Debug(DebugMode::JTAG), 3),
        (STLinkMode::Debug(DebugMode::SWD), 4),
        (STLinkMode::Debug(DebugMode::SWIM), 5),
        (STLinkMode::Debug(DebugMode::Unknown), 0),
    ];
    for (mode, index) in cases {
        let got: usize = mode.into();
        assert_eq!(got, index);
        assert_eq!(usize::from(mode), index);
    }
}

#[test]
fn tokens_have_widths() {
    assert_eq!(Cmd::Int8(7).width(), 1);
    assert_eq!(Cmd::Int16(7).width(), 2);
    assert_eq!(Cmd::Int32(7).width(), 4);
    assert_ne!(Cmd::Int8(7), Cmd::Int16(7));
    assert_ne!(Direction::In, Direction::Out);
    assert_ne!(FlashType::TypeF4, FlashType::TypeF0);
}

#[test]
fn new_core_registers_are_zero() {
    let regs = CoreRegisters::new();
    for i in 0..22 {
        assert_eq!(regs.get(i), 0);
    }
}

#[test]
fn core_registers_are_set_one_by_one() {
    let mut regs = CoreRegisters::new();
    for i in 0..16 {
        regs.set_r(i, 100 + i as u32);
    }
    regs.set_xpsr(0x0100_0000);
    regs.set_msp(0x2000_1000);
    regs.set_psp(0x2000_2000);
    regs.set_rw(0xAAAA);
    regs.set_rw2(0xBBBB);
    for i in 0..16 {
        assert_eq!(regs.get(i), 100 + i as u32);
    }
    assert_eq!(regs.get(16), 0x0100_0000);
    assert_eq!(regs.get(17), 0x2000_1000);
    assert_eq!(regs.get(18), 0x2000_2000);
    assert_eq!(regs.get(19), 0xAAAA);
    assert_eq!(regs.get(20), 0xBBBB);
    assert_eq!(regs.get(21), 0);
    let copy = regs;
    assert_eq!(copy, regs);
    regs.set_r(21, 5);
    assert_eq!(regs.get(21), 5);
    assert_ne!(copy, regs);
}

#[test]
fn a_new_memory_map_is_empty() {
    let map = MemInfo::new();
    assert_eq!(map.flash, FlashInfo { base: 0, size: 0, pagesize: None });
    assert!(map.ram.is_empty());
    assert_eq!(map.sys, SysMemInfo { base: 0, size: 0 });
}

#[test]
fn sram_regions_take_the_size_first() {
    let region = SRamInfo::new(0x5000, 0x2000_0000);
    assert_eq!(region.size, 0x5000);
    assert_eq!(region.base, 0x2000_0000);
}

#[test]
fn plain_records() {
    assert_eq!(SpeedMap::new(950, 3), SpeedMap { speed: 950, divisor: 3 });
    let version = STLinkUSBVersion { stlink: 2, jtag: 27, swim: 0, jtag_api: 2, flags: 0x1F };
    assert_eq!(version.clone(), version);
    let endpoint = Endpoint { config: 1, iface: 2, setting: 3, address: 0x81 };
    assert_eq!(endpoint.address, 0x81);
}
