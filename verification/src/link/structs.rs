//! Plain records of the probe protocol.

use vstd::prelude::*;

verus! {

/// The three bulk endpoints of a probe.
#[derive(Debug, Copy, Clone, PartialEq, Eq, Structural)]
pub struct Endpoints {
    rx: u8,
    tx: u8,
    trace: u8,
}

/// State of the trace channel.
#[derive(Debug, Copy, Clone, PartialEq, Eq, Structural)]
pub struct STLinkTrace {
    enabled: bool,
    source_hz: u32,
}

/// One entry of an interface-speed table: a speed in kHz and the divisor
/// that selects it.
#[derive(Debug, Copy, Clone, PartialEq, Eq, Structural)]
pub struct SpeedMap {
    pub speed: usize,
    pub divisor: usize,
}

impl SpeedMap {
    pub fn new(speed: usize, divisor: usize) -> (entry: Self)
        ensures
            entry == (SpeedMap { speed, divisor }),
    {
        Self { speed, divisor }
    }
}

/// What a probe reports of its firmware, and what follows from it.
#[derive(Debug, Copy, Clone, PartialEq, Eq, Structural)]
pub struct STLinkUSBVersion {
    /// Generation of the probe: 1, 2 or 3.
    pub stlink: usize,
    /// Revision of the JTAG firmware.
    pub jtag: usize,
    /// Revision of the SWIM firmware.
    pub swim: usize,
    /// Level of the JTAG command set that the probe understands.
    pub jtag_api: usize,
    /// One bit for each optional feature that the probe has.
    pub flags: u32,
}

/// Place of one endpoint in a device's active configuration.
#[derive(Debug, Copy, Clone, PartialEq, Eq, Structural)]
pub struct Endpoint {
    pub config: u8,
    pub iface: u8,
    pub setting: u8,
    pub address: u8,
}

/// Snapshot of the core registers of a Cortex-M: r0 to r15, xPSR, MSP, PSP
/// and the two reserved words that the probe sends after them.
#[derive(Debug, Copy, Clone, PartialEq, Eq)]
pub struct CoreRegisters {
    inner: [u32; 22],
}

impl View for CoreRegisters {
    type V = Seq<u32>;

    /// The 22 words of the snapshot: r0 to r15 at 0 to 15, xPSR at 16, MSP
    /// at 17, PSP at 18, the reserved words at 19 and 20, and a spare word.
    closed spec fn view(&self) -> Seq<u32> {
        self.inner@
    }
}

impl CoreRegisters {
    /// Every word of the snapshot is zero.
    pub fn new() -> (regs: Self)
        ensures
            regs@ == Seq::new(22, |i: int| 0u32),
    {
        let regs = Self { inner: [0u32;22] };
        assert(regs.inner@ =~= Seq::new(22, |i: int| 0u32));
        regs
    }

    /// Sets word `i` of the snapshot; for `i` up to 15 that is register r`i`.
    pub fn set_r(&mut self, i: usize, value: u32)
        requires
            i < 22,
        ensures
            final(self)@ == old(self)@.update(i as int, value),
    {
        self.inner[i] = value;
        assert(self.inner@ =~= old(self).inner@.update(i as int, value));
    }

    /// Sets the xPSR register.
    pub fn set_xpsr(&mut self, value: u32)
        ensures
            final(self)@ == old(self)@.update(16, value),
    {
        self.set_r(16, value);
    }

    /// Sets the main stack pointer.
    pub fn set_msp(&mut self, value: u32)
        ensures
            final(self)@ == old(self)@.update(17, value),
    {
        self.set_r(17, value);
    }

    /// Sets the process stack pointer.
    pub fn set_psp(&mut self, value: u32)
        ensures
            final(self)@ == old(self)@.update(18, value),
    {
        self.set_r(18, value);
    }

    /// Sets the first reserved word.
    pub fn set_rw(&mut self, value: u32)
        ensures
            final(self)@ == old(self)@.update(19, value),
    {
        self.set_r(19, value);
    }

    /// Sets the second reserved word.
    pub fn set_rw2(&mut self, value: u32)
        ensures
            final(self)@ == old(self)@.update(20, value),
    {
        self.set_r(20, value);
    }

    /// Word `i` of the snapshot.
    pub fn get(&self, i: usize) -> (value: u32)
        requires
            i < 22,
        ensures
            value == self@[i as int],
    {
        self.inner[i]
    }
}

/// Flash region of the target.
#[derive(Debug, Copy, Clone, PartialEq, Eq, Structural)]
pub struct FlashInfo {
    pub base: u32,
    pub size: u32,
    pub pagesize: Option<u32>,
}

/// One SRAM region of the target.
#[derive(Debug, Copy, Clone, PartialEq, Eq, Structural)]
pub struct SRamInfo {
    pub base: u32,
    pub size: u32,
}

impl SRamInfo {
    /// A region of `size` bytes at `base`.
    pub fn new(size: u32, base: u32) -> (region: Self)
        ensures
            region == (SRamInfo { base, size }),
    {
        Self { base, size }
    }
}

/// System memory (boot ROM) of the target.
#[derive(Debug, Copy, Clone, PartialEq, Eq, Structural)]
pub struct SysMemInfo {
    pub base: u32,
    pub size: u32,
}

/// Memory map of the target.
#[derive(Debug, Clone, PartialEq, Eq)]
pub struct MemInfo {
    pub flash: FlashInfo,
    pub ram: Vec<SRamInfo>,
    pub sys: SysMemInfo,
}

/// Mathematical model of a memory map.
pub struct MemInfoView {
    pub flash: FlashInfo,
    pub ram: Seq<SRamInfo>,
    pub sys: SysMemInfo,
}

impl View for MemInfo {
    type V = MemInfoView;

    open spec fn view(&self) -> MemInfoView {
        MemInfoView { flash: self.flash, ram: self.ram@, sys: self.sys }
    }
}

impl MemInfo {
    /// The memory map of a target of which nothing is known yet: no flash,
    /// no SRAM region, no system memory.
    pub open spec fn spec_new() -> MemInfoView {
        MemInfoView {
            flash: FlashInfo { base: 0, size: 0, pagesize: None },
            ram: Seq::empty(),
            sys: SysMemInfo { base: 0, size: 0 },
        }
    }

    pub fn new() -> (map: Self)
        ensures
            map@ == Self::spec_new(),
    {
        Self {
            flash: FlashInfo { base: 0, size: 0, pagesize: None },
            ram: Vec::new(),
            sys: SysMemInfo { base: 0, size: 0 },
        }
    }
}

} // verus!
