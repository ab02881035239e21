//! NVMe-MI protocol vocabulary: message types, response status codes, port
//! descriptors and the flag encodings used by health reporting.
use vstd::prelude::*;

verus! {

/// NVMe-MI message type (NMIMT) carried in the outer message header.
#[derive(Clone, Copy, Debug, PartialEq, Eq, Structural)]
pub enum MessageType {
    ControlPrimitive,
    NvmeMiCommand,
    NvmeAdminCommand,
    PcieCommand,
    AsynchronousEvent,
}

pub open spec fn message_type_of(v: u8) -> Option<MessageType> {
    if v == 0 {
        Some(MessageType::ControlPrimitive)
    } else if v == 1 {
        Some(MessageType::NvmeMiCommand)
    } else if v == 2 {
        Some(MessageType::NvmeAdminCommand)
    } else if v == 4 {
        Some(MessageType::PcieCommand)
    } else if v == 5 {
        Some(MessageType::AsynchronousEvent)
    } else {
        None
    }
}

impl MessageType {
    pub open spec fn spec_id(self) -> u8 {
        match self {
            MessageType::ControlPrimitive => 0,
            MessageType::NvmeMiCommand => 1,
            MessageType::NvmeAdminCommand => 2,
            MessageType::PcieCommand => 4,
            MessageType::AsynchronousEvent => 5,
        }
    }

    pub fn id(&self) -> (r: u8)
        ensures
            r == self.spec_id(),
    {
        match self {
            MessageType::ControlPrimitive => 0,
            MessageType::NvmeMiCommand => 1,
            MessageType::NvmeAdminCommand => 2,
            MessageType::PcieCommand => 4,
            MessageType::AsynchronousEvent => 5,
        }
    }

    pub fn try_from_u8(v: u8) -> (r: Option<MessageType>)
        ensures
            r == message_type_of(v),
    {
        if v == 0 {
            Some(MessageType::ControlPrimitive)
        } else if v == 1 {
            Some(MessageType::NvmeMiCommand)
        } else if v == 2 {
            Some(MessageType::NvmeAdminCommand)
        } else if v == 4 {
            Some(MessageType::PcieCommand)
        } else if v == 5 {
            Some(MessageType::AsynchronousEvent)
        } else {
            None
        }
    }
}

/// Status carried in the first byte of every NVMe-MI response.
#[derive(Clone, Copy, Debug, PartialEq, Eq, Structural)]
pub enum ResponseStatus {
    Success,
    InternalError,
    InvalidCommandOpcode,
    InvalidParameter,
    InvalidCommandSize,
    InvalidCommandInputDataSize,
}

impl ResponseStatus {
    pub open spec fn spec_id(self) -> u8 {
        match self {
            ResponseStatus::Success => 0x00,
            ResponseStatus::InternalError => 0x02,
            ResponseStatus::InvalidCommandOpcode => 0x03,
            ResponseStatus::InvalidParameter => 0x04,
            ResponseStatus::InvalidCommandSize => 0x05,
            ResponseStatus::InvalidCommandInputDataSize => 0x06,
        }
    }

    pub fn id(&self) -> (r: u8)
        ensures
            r == self.spec_id(),
    {
        match self {
            ResponseStatus::Success => 0x00,
            ResponseStatus::InternalError => 0x02,
            ResponseStatus::InvalidCommandOpcode => 0x03,
            ResponseStatus::InvalidParameter => 0x04,
            ResponseStatus::InvalidCommandSize => 0x05,
            ResponseStatus::InvalidCommandInputDataSize => 0x06,
        }
    }
}

/// Port type (PRTTYP) as reported on the wire.
#[derive(Clone, Copy, Debug, PartialEq, Eq, Structural)]
pub enum PortType {
    Inactive,
    Pcie,
    TwoWire,
}

impl PortType {
    pub open spec fn spec_id(self) -> u8 {
        match self {
            PortType::Inactive => 0,
            PortType::Pcie => 1,
            PortType::TwoWire => 2,
        }
    }

    pub fn id(&self) -> (r: u8)
        ensures
            r == self.spec_id(),
    {
        match self {
            PortType::Inactive => 0,
            PortType::Pcie => 1,
            PortType::TwoWire => 2,
        }
    }
}

/// PCIe maximum payload size (PCIEMPS).
#[derive(Clone, Copy, Debug, PartialEq, Eq, Structural)]
pub enum PciePayloadSize {
    Payload128B,
    Payload256B,
    Payload512B,
    Payload1Kb,
    Payload2Kb,
    Payload4Kb,
}

impl PciePayloadSize {
    pub open spec fn spec_id(self) -> u8 {
        match self {
            PciePayloadSize::Payload128B => 0,
            PciePayloadSize::Payload256B => 1,
            PciePayloadSize::Payload512B => 2,
            PciePayloadSize::Payload1Kb => 3,
            PciePayloadSize::Payload2Kb => 4,
            PciePayloadSize::Payload4Kb => 5,
        }
    }

    pub fn id(&self) -> (r: u8)
        ensures
            r == self.spec_id(),
    {
        match self {
            PciePayloadSize::Payload128B => 0,
            PciePayloadSize::Payload256B => 1,
            PciePayloadSize::Payload512B => 2,
            PciePayloadSize::Payload1Kb => 3,
            PciePayloadSize::Payload2Kb => 4,
            PciePayloadSize::Payload4Kb => 5,
        }
    }
}

/// PCIe current link speed (PCIECLS).
#[derive(Clone, Copy, Debug, PartialEq, Eq, Structural)]
pub enum PcieLinkSpeed {
    Inactive,
    Gts2p5,
    Gts5,
    Gts8,
    Gts16,
    Gts32,
    Gts64,
}

impl PcieLinkSpeed {
    pub open spec fn spec_id(self) -> u8 {
        match self {
            PcieLinkSpeed::Inactive => 0,
            PcieLinkSpeed::Gts2p5 => 1,
            PcieLinkSpeed::Gts5 => 2,
            PcieLinkSpeed::Gts8 => 3,
            PcieLinkSpeed::Gts16 => 4,
            PcieLinkSpeed::Gts32 => 5,
            PcieLinkSpeed::Gts64 => 6,
        }
    }

    pub fn id(&self) -> (r: u8)
        ensures
            r == self.spec_id(),
    {
        match self {
            PcieLinkSpeed::Inactive => 0,
            PcieLinkSpeed::Gts2p5 => 1,
            PcieLinkSpeed::Gts5 => 2,
            PcieLinkSpeed::Gts8 => 3,
            PcieLinkSpeed::Gts16 => 4,
            PcieLinkSpeed::Gts32 => 5,
            PcieLinkSpeed::Gts64 => 6,
        }
    }
}

/// PCIe link width (PCIEMLW / PCIENLW).
#[derive(Clone, Copy, Debug, PartialEq, Eq, Structural)]
pub enum PcieLinkWidth {
    X1,
    X2,
    X4,
    X8,
    X12,
    X16,
    X32,
}

impl PcieLinkWidth {
    pub open spec fn spec_id(self) -> u8 {
        match self {
            PcieLinkWidth::X1 => 1,
            PcieLinkWidth::X2 => 2,
            PcieLinkWidth::X4 => 4,
            PcieLinkWidth::X8 => 8,
            PcieLinkWidth::X12 => 12,
            PcieLinkWidth::X16 => 16,
            PcieLinkWidth::X32 => 32,
        }
    }

    pub fn id(&self) -> (r: u8)
        ensures
            r == self.spec_id(),
    {
        match self {
            PcieLinkWidth::X1 => 1,
            PcieLinkWidth::X2 => 2,
            PcieLinkWidth::X4 => 4,
            PcieLinkWidth::X8 => 8,
            PcieLinkWidth::X12 => 12,
            PcieLinkWidth::X16 => 16,
            PcieLinkWidth::X32 => 32,
        }
    }
}

/// SMBus / I2C frequency, ordered by its wire value.
#[derive(Clone, Copy, Debug, PartialEq, Eq, Structural)]
pub enum SmbusFrequency {
    FreqNotSupported,
    Freq100Khz,
    Freq400Khz,
    Freq1Mhz,
}

pub open spec fn smbus_frequency_of(v: u8) -> Option<SmbusFrequency> {
    if v == 0 {
        Some(SmbusFrequency::FreqNotSupported)
    } else if v == 1 {
        Some(SmbusFrequency::Freq100Khz)
    } else if v == 2 {
        Some(SmbusFrequency::Freq400Khz)
    } else if v == 3 {
        Some(SmbusFrequency::Freq1Mhz)
    } else {
        None
    }
}

impl SmbusFrequency {
    pub open spec fn spec_id(self) -> u8 {
        match self {
            SmbusFrequency::FreqNotSupported => 0,
            SmbusFrequency::Freq100Khz => 1,
            SmbusFrequency::Freq400Khz => 2,
            SmbusFrequency::Freq1Mhz => 3,
        }
    }

    pub fn id(&self) -> (r: u8)
        ensures
            r == self.spec_id(),
    {
        match self {
            SmbusFrequency::FreqNotSupported => 0,
            SmbusFrequency::Freq100Khz => 1,
            SmbusFrequency::Freq400Khz => 2,
            SmbusFrequency::Freq1Mhz => 3,
        }
    }

    pub fn try_from_u8(v: u8) -> (r: Option<SmbusFrequency>)
        ensures
            r == smbus_frequency_of(v),
            r matches Some(f) ==> f.spec_id() == v,
    {
        if v == 0 {
            Some(SmbusFrequency::FreqNotSupported)
        } else if v == 1 {
            Some(SmbusFrequency::Freq100Khz)
        } else if v == 2 {
            Some(SmbusFrequency::Freq400Khz)
        } else if v == 3 {
            Some(SmbusFrequency::Freq1Mhz)
        } else {
            None
        }
    }
}

/// NVM subsystem status bits (NSS) kept by the subsystem.
#[derive(Debug)]
pub struct NvmSubsystemStatus {
    pub atf: bool,
    pub sfm: bool,
    pub df: bool,
    pub rnr: bool,
    pub rd: bool,
}

impl NvmSubsystemStatus {
    pub fn new() -> (r: Self)
        ensures
            !r.atf && !r.sfm && r.df && r.rnr && !r.rd,
    {
        NvmSubsystemStatus { atf: false, sfm: false, df: true, rnr: true, rd: false }
    }
}

/// NVM subsystem capabilities (NNSC).
#[derive(Debug)]
pub struct SubsystemCapabilities {
    pub sre: bool,
}

impl SubsystemCapabilities {
    pub fn new() -> (r: Self)
        ensures
            !r.sre,
    {
        SubsystemCapabilities { sre: false }
    }
}

/// Bits of the composite controller status flags (CCSF), which share their
/// positions with the per-controller health status changed flags (CHSC).
pub const CCS_RDY: u16 = 0x0001;
pub const CCS_CECO: u16 = 0x0020;

/// The defined composite controller status flags: RDY, CFS, SHST, NSSRO,
/// CECO, NAC, FA, CSTS, CTEMP, PDLU, SPARE, CWARN and TCIDA (bit 3 is
/// reserved). A Health Status Change mask names flags in these positions.
pub const CCS_DEFINED: u32 = 0x3ff7;

/// The composite controller status flag set held by a management endpoint.
#[derive(Clone, Copy, Debug)]
pub struct CompositeControllerStatusFlagSet {
    pub bits: u16,
}

impl CompositeControllerStatusFlagSet {
    pub fn empty() -> (r: Self)
        ensures
            r.bits == 0,
    {
        CompositeControllerStatusFlagSet { bits: 0 }
    }
}

} // verus!
