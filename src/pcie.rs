//! The PCI configuration space header that a PCIe function presents, with
//! its power management and PCI Express capabilities.
use vstd::prelude::*;

verus! {

/// Power management capabilities (PMC) as separate fields.
#[derive(Clone, Copy, Debug)]
pub struct PowerManagementCapabilities {
    pub version: u8,
    pub pme_clock: bool,
    pub ready_d0: bool,
    pub dsi: bool,
    pub aux_current: u8,
    pub d1: bool,
    pub d2: bool,
    pub pme: u8,
}

pub open spec fn flag16(b: bool, v: u16) -> u16 {
    if b {
        v
    } else {
        0
    }
}

impl PowerManagementCapabilities {
    /// The PMC register: PME support in bits 15:11, D2 and D1 support in
    /// bits 10 and 9, aux current in 8:6, DSI in 5, Immediate_Readiness_on
    /// _Return_to_D0 in 4, PME clock in 3, version in 2:0.
    pub open spec fn spec_bits(self) -> u16 {
        ((((self.pme & 0xf) as u16) << 11) | flag16(self.d2, 0x400) | flag16(self.d1, 0x200) | (((
        self.aux_current & 0x7) as u16) << 6) | flag16(self.dsi, 0x20) | flag16(self.ready_d0, 0x10)
            | flag16(self.pme_clock, 0x08) | ((self.version & 0x7) as u16))
    }

    pub fn bits(&self) -> (r: u16)
        ensures
            r == self.spec_bits(),
    {
        let d2: u16 = if self.d2 { 0x400 } else { 0 };
        let d1: u16 = if self.d1 { 0x200 } else { 0 };
        let dsi: u16 = if self.dsi { 0x20 } else { 0 };
        let rd0: u16 = if self.ready_d0 { 0x10 } else { 0 };
        let clk: u16 = if self.pme_clock { 0x08 } else { 0 };
        ((((self.pme & 0xf) as u16) << 11) | d2 | d1 | (((self.aux_current & 0x7) as u16) << 6) | dsi
            | rd0 | clk | ((self.version & 0x7) as u16))
    }
}

#[derive(Clone, Copy, Debug)]
pub struct PciPowerManagementCapability {
    pub next: u8,
    pub pmc: u16,
    pub pmcsr: u16,
    pub data: u8,
}

#[derive(Clone, Copy, Debug)]
pub struct PcieCapability {
    pub next: u8,
    pub pciec: u16,
    pub devcap: u32,
    pub devctl: u16,
    pub devsts: u16,
    pub linkcap: u32,
    pub linkctl: u16,
    pub linksts: u16,
    pub slotctl: u16,
    pub slotsts: u16,
    pub rootctl: u16,
    pub rootsts: u16,
    pub devcap2: u32,
    pub devctl2: u16,
    pub devsts2: u16,
    pub linkcap2: u32,
    pub linkctl2: u16,
    pub linksts2: u16,
    pub slotcap2: u32,
    pub slotctl2: u16,
    pub slotsts2: u16,
}

/// A PCI Express capability with every register zero.
pub open spec fn pcie_capability_zero(c: PcieCapability) -> bool {
    &&& c.next == 0
    &&& c.pciec == 0
    &&& c.devcap == 0
    &&& c.devctl == 0
    &&& c.devsts == 0
    &&& c.linkcap == 0
    &&& c.linkctl == 0
    &&& c.linksts == 0
    &&& c.slotctl == 0
    &&& c.slotsts == 0
    &&& c.rootctl == 0
    &&& c.rootsts == 0
    &&& c.devcap2 == 0
    &&& c.devctl2 == 0
    &&& c.devsts2 == 0
    &&& c.linkcap2 == 0
    &&& c.linkctl2 == 0
    &&& c.linksts2 == 0
    &&& c.slotcap2 == 0
    &&& c.slotctl2 == 0
    &&& c.slotsts2 == 0
}

impl PcieCapability {
    /// A capability with every register zero.
    pub fn new() -> (r: Self)
        ensures
            pcie_capability_zero(r),
    {
        PcieCapability {
            next: 0,
            pciec: 0,
            devcap: 0,
            devctl: 0,
            devsts: 0,
            linkcap: 0,
            linkctl: 0,
            linksts: 0,
            slotctl: 0,
            slotsts: 0,
            rootctl: 0,
            rootsts: 0,
            devcap2: 0,
            devctl2: 0,
            devsts2: 0,
            linkcap2: 0,
            linkctl2: 0,
            linksts2: 0,
            slotcap2: 0,
            slotctl2: 0,
            slotsts2: 0,
        }
    }
}

#[derive(Clone, Copy, Debug)]
pub enum PciCapabilityType {
    PciPowerManagement(PciPowerManagementCapability),
    Pcie(PcieCapability),
}

impl PciCapabilityType {
    /// The capability identifier.
    pub open spec fn spec_id(self) -> u8 {
        match self {
            PciCapabilityType::PciPowerManagement(_) => 0x01,
            PciCapabilityType::Pcie(_) => 0x10,
        }
    }

    pub fn id(&self) -> (r: u8)
        ensures
            r == self.spec_id(),
    {
        match self {
            PciCapabilityType::PciPowerManagement(_) => 0x01,
            PciCapabilityType::Pcie(_) => 0x10,
        }
    }
}

#[derive(Clone, Copy, Debug)]
pub struct PciDeviceFunctionConfigurationSpace {
    pub vid: u16,
    pub did: u16,
    pub cmd: u16,
    pub sts: u16,
    pub rid: u8,
    /// Class code, 24 bits.
    pub cc: u32,
    pub cls: u8,
    pub lt: u8,
    pub ht: u8,
    pub bist: u8,
    pub bars: [u32; 6],
    pub cis: u32,
    pub svid: u16,
    pub sdid: u16,
    pub rom: u32,
    pub cap: u8,
    pub il: u8,
    pub ip: u8,
    pub min_gnt: u8,
    pub max_lat: u8,
    pub caps: [PciCapabilityType; 2],
}

/// The power management capability this function presents: version 3,
/// ready on return to D0, no PME support, followed by the PCIe capability.
pub open spec fn default_power_management() -> PowerManagementCapabilities {
    PowerManagementCapabilities {
        version: 3,
        pme_clock: false,
        ready_d0: true,
        dsi: false,
        aux_current: 0,
        d1: false,
        d2: false,
        pme: 0,
    }
}

/// Every field of the default configuration space but the four PCI
/// identifiers: status 0x0010 (capabilities list), class code 01_08_03,
/// capabilities at 0x40 (power management, then PCI Express at 0x48), and
/// zeros elsewhere.
pub open spec fn default_space_except_ids(r: PciDeviceFunctionConfigurationSpace) -> bool {
    &&& r.cmd == 0
    &&& r.sts == 0x0010
    &&& r.rid == 0
    &&& r.cc == 0x010803
    &&& r.cls == 0
    &&& r.lt == 0
    &&& r.ht == 0
    &&& r.bist == 0
    &&& r.bars@ == Seq::new(6, |i: int| 0u32)
    &&& r.cis == 0
    &&& r.rom == 0
    &&& r.cap == 0x40
    &&& r.il == 0
    &&& r.ip == 0
    &&& r.min_gnt == 0
    &&& r.max_lat == 0
    &&& r.caps[0] is PciPowerManagement
    &&& r.caps[0]->PciPowerManagement_0.next == 0x48
    &&& r.caps[0]->PciPowerManagement_0.pmc == default_power_management().spec_bits()
    &&& r.caps[0]->PciPowerManagement_0.pmcsr == 0
    &&& r.caps[0]->PciPowerManagement_0.data == 0
    &&& r.caps[1] is Pcie
    &&& pcie_capability_zero(r.caps[1]->Pcie_0)
}

impl PciDeviceFunctionConfigurationSpace {
    /// A non-volatile memory controller (class code 01_08_03) with the
    /// identifiers of an aborted access, capabilities at 0x40.
    pub fn new() -> (r: Self)
        ensures
            r.vid == 0xffff && r.did == 0xffff && r.svid == 0xffff && r.sdid == 0xffff,
            default_space_except_ids(r),
    {
        let pmc = PowerManagementCapabilities {
            version: 3,
            pme_clock: false,
            ready_d0: true,
            dsi: false,
            aux_current: 0,
            d1: false,
            d2: false,
            pme: 0,
        };
        let r = PciDeviceFunctionConfigurationSpace {
            vid: 0xffff,
            did: 0xffff,
            cmd: 0,
            sts: 0x0010,
            rid: 0,
            cc: 0x010803,
            cls: 0,
            lt: 0,
            ht: 0,
            bist: 0,
            bars: [0; 6],
            cis: 0,
            svid: 0xffff,
            sdid: 0xffff,
            rom: 0,
            cap: 0x40,
            il: 0,
            ip: 0,
            min_gnt: 0,
            max_lat: 0,
            caps: [
                PciCapabilityType::PciPowerManagement(
                    PciPowerManagementCapability { next: 0x48, pmc: pmc.bits(), pmcsr: 0, data: 0 },
                ),
                PciCapabilityType::Pcie(PcieCapability::new()),
            ],
        };
        assert(r.bars@ =~= Seq::new(6, |i: int| 0u32));
        assert(pmc == default_power_management());
        r
    }

    pub fn builder() -> (r: PciDeviceFunctionConfigurationSpaceBuilder)
        ensures
            r.vid == 0xffff && r.did == 0xffff && r.svid == 0xffff && r.sdid == 0xffff,
    {
        PciDeviceFunctionConfigurationSpaceBuilder { vid: 0xffff, did: 0xffff, svid: 0xffff, sdid: 0xffff }
    }
}

/// Builds a configuration space with chosen PCI identifiers.
pub struct PciDeviceFunctionConfigurationSpaceBuilder {
    pub vid: u16,
    pub did: u16,
    pub svid: u16,
    pub sdid: u16,
}

impl PciDeviceFunctionConfigurationSpaceBuilder {
    pub fn vid(&mut self, vid: u16) -> (r: &mut Self)
        ensures
            *r == (PciDeviceFunctionConfigurationSpaceBuilder { vid, ..*old(self) }),
            *final(self) == *final(r),
    {
        self.vid = vid;
        self
    }

    pub fn did(&mut self, did: u16) -> (r: &mut Self)
        ensures
            *r == (PciDeviceFunctionConfigurationSpaceBuilder { did, ..*old(self) }),
            *final(self) == *final(r),
    {
        self.did = did;
        self
    }

    pub fn svid(&mut self, svid: u16) -> (r: &mut Self)
        ensures
            *r == (PciDeviceFunctionConfigurationSpaceBuilder { svid, ..*old(self) }),
            *final(self) == *final(r),
    {
        self.svid = svid;
        self
    }

    pub fn sdid(&mut self, sdid: u16) -> (r: &mut Self)
        ensures
            *r == (PciDeviceFunctionConfigurationSpaceBuilder { sdid, ..*old(self) }),
            *final(self) == *final(r),
    {
        self.sdid = sdid;
        self
    }

    /// The default configuration space with the builder's identifiers.
    pub fn build(&self) -> (r: PciDeviceFunctionConfigurationSpace)
        ensures
            r.vid == self.vid && r.did == self.did && r.svid == self.svid && r.sdid == self.sdid,
            default_space_except_ids(r),
    {
        let mut r = PciDeviceFunctionConfigurationSpace::new();
        r.vid = self.vid;
        r.did = self.did;
        r.svid = self.svid;
        r.sdid = self.sdid;
        r
    }
}

} // verus!
