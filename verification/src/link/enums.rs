//! Enumerations of the probe protocol.

use vstd::prelude::*;

verus! {

/// Generation of the probe's JTAG firmware interface.
#[derive(Debug, Copy, Clone, PartialEq, Eq, Structural)]
pub enum STLinkJTAGVersion {
    V1,
    V2,
    V3,
}

impl STLinkJTAGVersion {
    /// The code of the generation: its number in the high nibble of a byte.
    pub open spec fn spec_code(self) -> u8 {
        match self {
            STLinkJTAGVersion::V1 => 0x10,
            STLinkJTAGVersion::V2 => 0x20,
            STLinkJTAGVersion::V3 => 0x30,
        }
    }

    /// The code of the generation: its number in the high nibble of a byte.
    pub fn code(self) -> (code: u8)
        ensures
            code == self.spec_code(),
    {
        match self {
            STLinkJTAGVersion::V1 => 0x10,
            STLinkJTAGVersion::V2 => 0x20,
            STLinkJTAGVersion::V3 => 0x30,
        }
    }

    /// The short name of the generation: `V1`, `V2` or `V3`.
    pub open spec fn spec_name(self) -> Seq<char> {
        match self {
            STLinkJTAGVersion::V1 => "V1"@,
            STLinkJTAGVersion::V2 => "V2"@,
            STLinkJTAGVersion::V3 => "V3"@,
        }
    }

    /// The short name of the generation, as it is shown to the operator.
    pub fn to_string(&self) -> (name: String)
        ensures
            name@ == self.spec_name(),
    {
        match self {
            STLinkJTAGVersion::V1 => "V1".to_owned(),
            STLinkJTAGVersion::V2 => "V2".to_owned(),
            STLinkJTAGVersion::V3 => "V3".to_owned(),
        }
    }
}

/// Direction of the data phase of a command, seen from the host.
#[derive(Debug, Copy, Clone, PartialEq, Eq, Structural)]
pub enum Direction {
    /// The probe sends data to the host.
    In,
    /// The host sends data to the probe.
    Out,
}

/// Transport that the probe uses towards the target.
#[derive(Debug, Copy, Clone, PartialEq, Eq, Structural)]
pub enum DebugMode {
    SWD,
    JTAG,
    SWIM,
    Unknown,
}

/// The mode that the probe is in.
#[derive(Debug, Copy, Clone, PartialEq, Eq, Structural)]
pub enum STLinkMode {
    Unknown,
    DFU,
    Mass,
    Debug(DebugMode),
}

impl STLinkMode {
    /// The index of the mode: 0 for an unknown mode, 1 for DFU, 2 for mass
    /// storage, 3 for JTAG, 4 for SWD and 5 for SWIM.
    pub open spec fn spec_index(self) -> usize {
        match self {
            STLinkMode::Unknown => 0,
            STLinkMode::DFU => 1,
            STLinkMode::Mass => 2,
            STLinkMode::Debug(DebugMode::JTAG) => 3,
            STLinkMode::Debug(DebugMode::SWD) => 4,
            STLinkMode::Debug(DebugMode::SWIM) => 5,
            STLinkMode::Debug(DebugMode::Unknown) => 0,
        }
    }
}

impl From<STLinkMode> for usize {
    fn from(mode: STLinkMode) -> (index: usize) {
        match mode {
            STLinkMode::Unknown => 0,
            STLinkMode::DFU => 1,
            STLinkMode::Mass => 2,
            STLinkMode::Debug(d) => match d {
                DebugMode::JTAG => 3,
                DebugMode::SWD => 4,
                DebugMode::SWIM => 5,
                DebugMode::Unknown => 0,
            },
        }
    }
}

impl vstd::std_specs::convert::FromSpecImpl<STLinkMode> for usize {
    open spec fn obeys_from_spec() -> bool {
        true
    }

    open spec fn from_spec(mode: STLinkMode) -> usize {
        mode.spec_index()
    }
}

/// Family of the target's flash controller.
#[derive(Debug, Copy, Clone, PartialEq, Eq, Structural)]
pub enum FlashType {
    TypeF4,
    TypeF0,
    TypeL0,
    TypeF1XL,
    TypeG0,
    TypeL4,
    TypeWB,
    Unknown,
}

/// One token of a command: a byte, or a 16- or 32-bit word.
#[derive(Debug, Copy, Clone, PartialEq, Eq, Structural)]
pub enum Cmd {
    Int8(u8),
    Int16(u16),
    Int32(u32),
}

impl Cmd {
    /// The number of bytes that the token takes in a command.
    pub open spec fn spec_width(self) -> nat {
        match self {
            Cmd::Int8(_) => 1,
            Cmd::Int16(_) => 2,
            Cmd::Int32(_) => 4,
        }
    }

    /// The number of bytes that the token takes in a command.
    pub fn width(self) -> (w: usize)
        ensures
            w == self.spec_width(),
    {
        match self {
            Cmd::Int8(_) => 1,
            Cmd::Int16(_) => 2,
            Cmd::Int32(_) => 4,
        }
    }
}

} // verus!
