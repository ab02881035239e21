//! The NVM subsystem model: ports, controllers, namespaces and the
//! management endpoint's cached view of the controllers.
use vstd::prelude::*;
use crate::mi::{
    CompositeControllerStatusFlagSet, NvmSubsystemStatus, PcieLinkSpeed, PcieLinkWidth,
    PciePayloadSize, SmbusFrequency, SubsystemCapabilities,
};
use crate::nvme::{
    CommandSetIdentifier, ControllerConfiguration, ControllerProperties, CSTS_RDY, LSAE_LSUPP,
};

verus! {

pub const MAX_CONTROLLERS: usize = 2;
pub const MAX_NAMESPACES: usize = 4;
pub const MAX_PORTS: usize = 2;

/// Number of log page identifiers with a supported-and-effects entry.
pub const NUM_LSAES: usize = 19;

/// The broadcast namespace identifier.
pub const NSID_BROADCAST: u32 = 0xffff_ffff;

/// A request the core makes of the application while handling a command.
#[derive(Debug)]
pub enum CommandEffect {
    SetMtu { port_id: PortId, mtus: usize },
    SetSmbusFreq { port_id: PortId, freq: SmbusFrequency },
}

/// Why the application could not apply an effect.
#[derive(Debug)]
pub enum CommandEffectError {
    Unsupported,
    InternalError,
}

#[derive(Clone, Copy, Debug, PartialEq, Eq, Structural)]
pub struct PciePort {
    pub b: u16,
    pub d: u16,
    pub f: u16,
    pub seg: u8,
    pub mps: PciePayloadSize,
    pub cls: PcieLinkSpeed,
    pub mlw: PcieLinkWidth,
    pub nlw: PcieLinkWidth,
}

impl PciePort {
    pub fn new() -> (r: Self)
        ensures
            r.b == 0 && r.d == 0 && r.f == 0 && r.seg == 0,
            r.mps == PciePayloadSize::Payload128B,
            r.cls == PcieLinkSpeed::Gts2p5,
            r.mlw == PcieLinkWidth::X2,
            r.nlw == PcieLinkWidth::X1,
    {
        PciePort {
            b: 0,
            d: 0,
            f: 0,
            seg: 0,
            mps: PciePayloadSize::Payload128B,
            cls: PcieLinkSpeed::Gts2p5,
            mlw: PcieLinkWidth::X2,
            nlw: PcieLinkWidth::X1,
        }
    }
}

#[derive(Clone, Copy, Debug, PartialEq, Eq, Structural)]
pub struct TwoWirePort {
    pub cvpdaddr: u8,
    pub mvpdfreq: SmbusFrequency,
    pub cmeaddr: u8,
    pub i3csprt: bool,
    pub msmbfreq: SmbusFrequency,
    pub nvmebms: bool,
    /// The currently negotiated frequency.
    pub smbfreq: SmbusFrequency,
}

impl TwoWirePort {
    pub fn new() -> (r: Self)
        ensures
            r.cvpdaddr == 0,
            r.mvpdfreq == SmbusFrequency::FreqNotSupported,
            r.cmeaddr == 0x1d,
            !r.i3csprt,
            r.msmbfreq == SmbusFrequency::Freq400Khz,
            !r.nvmebms,
            r.smbfreq == SmbusFrequency::Freq100Khz,
    {
        TwoWirePort {
            cvpdaddr: 0,
            mvpdfreq: SmbusFrequency::FreqNotSupported,
            cmeaddr: 0x1d,
            i3csprt: false,
            msmbfreq: SmbusFrequency::Freq400Khz,
            nvmebms: false,
            smbfreq: SmbusFrequency::Freq100Khz,
        }
    }
}

#[derive(Debug, PartialEq, Eq, Structural)]
pub enum PortType {
    Inactive,
    Pcie(PciePort),
    TwoWire(TwoWirePort),
}

/// Port capabilities (PRTCAP).
#[derive(Clone, Copy, Debug)]
pub struct PortCapabilities {
    pub ciaps: bool,
    pub aems: bool,
}

impl PortCapabilities {
    pub fn new() -> (r: Self)
        ensures
            !r.ciaps && !r.aems,
    {
        PortCapabilities { ciaps: false, aems: false }
    }
}

#[derive(Clone, Copy, Debug, PartialEq, Eq, Structural)]
pub struct PortId(pub u8);

#[derive(Debug)]
pub struct Port {
    pub id: PortId,
    pub typ: PortType,
    pub caps: PortCapabilities,
    pub mmtus: u16,
    pub mebs: u32,
    /// The current MCTP transmission unit size.
    pub mtus: u16,
}

impl Port {
    pub fn new(id: PortId, typ: PortType) -> (r: Self)
        ensures
            r.id == id,
            r.typ == typ,
            !r.caps.ciaps && !r.caps.aems,
            r.mmtus == 64,
            r.mebs == 0,
            r.mtus == 64,
    {
        Port { id, typ, caps: PortCapabilities::new(), mmtus: 64, mebs: 0, mtus: 64 }
    }
}

#[derive(Debug, PartialEq, Eq, Structural)]
pub enum UnitKind {
    Kelvin,
    Percent,
}

#[derive(Debug)]
pub enum Temperature<T> {
    Kelvin(T),
    Celcius(T),
}

#[derive(Debug)]
pub struct OperatingRange<T> {
    pub kind: UnitKind,
    pub lower: T,
    pub upper: T,
}

impl<T> OperatingRange<T> {
    pub fn new(kind: UnitKind, lower: T, upper: T) -> (r: Self)
        ensures
            r.kind == kind,
            r.lower == lower,
            r.upper == upper,
    {
        OperatingRange { kind, lower, upper }
    }
}

#[derive(Clone, Copy, Debug, PartialEq, Eq, Structural)]
pub struct ControllerId(pub u16);

#[derive(Debug)]
pub struct SecondaryController {
    pub id: ControllerId,
}

#[derive(Clone, Copy, Debug, PartialEq, Eq, Structural)]
pub enum ControllerType {
    Io,
    Discovery,
    Administrative,
}

impl ControllerType {
    /// The CNTRLTYPE value of Identify Controller.
    pub open spec fn spec_id(self) -> u8 {
        match self {
            ControllerType::Io => 1,
            ControllerType::Discovery => 2,
            ControllerType::Administrative => 3,
        }
    }

    pub fn id(&self) -> (r: u8)
        ensures
            r == self.spec_id(),
    {
        match self {
            ControllerType::Io => 1,
            ControllerType::Discovery => 2,
            ControllerType::Administrative => 3,
        }
    }
}

#[derive(Clone, Copy, Debug, PartialEq, Eq, Structural)]
pub struct NamespaceId(pub u32);

#[derive(Debug)]
pub struct Controller {
    pub id: ControllerId,
    pub cntrltype: ControllerType,
    pub port: PortId,
    pub secondaries: Vec<SecondaryController>,
    pub active_ns: Vec<NamespaceId>,
    /// Composite temperature in Kelvin.
    pub temp: u16,
    pub temp_range: OperatingRange<u16>,
    pub capacity: u64,
    pub spare: u64,
    pub spare_range: OperatingRange<u64>,
    pub write_age: u64,
    pub write_lifespan: u64,
    pub ro: bool,
    pub cc: ControllerConfiguration,
    pub csts: u32,
    pub lpa: u8,
    pub lsaes: Vec<u8>,
}

#[derive(Debug, PartialEq, Eq, Structural)]
pub enum ControllerError {
    NamespaceAlreadyAttached,
    NamespaceNotAttached,
    NamespaceAttachmentLimitExceeded,
}

/// No identifier occurs twice.
pub open spec fn no_duplicates(ns: Seq<NamespaceId>) -> bool {
    forall|i: int, j: int|
        0 <= i < ns.len() && 0 <= j < ns.len() && i != j ==> #[trigger] ns[i] != #[trigger] ns[j]
}

/// The position of the first attachment of `nsid`.
pub open spec fn first_match(ns: Seq<NamespaceId>, nsid: u32) -> int {
    choose|i: int|
        0 <= i < ns.len() && ns[i].0 == nsid && forall|k: int| 0 <= k < i ==> ns[k].0 != nsid
}

/// The attachments after detaching `nsid`: the last attachment takes the
/// place of the first one of `nsid`.
pub open spec fn detached(ns: Seq<NamespaceId>, nsid: u32) -> Seq<NamespaceId> {
    ns.update(first_match(ns, nsid), ns.last()).drop_last()
}

/// A controller as `Controller::new` makes it: an I/O controller at 293 K
/// within [213, 400] K, full spare of 100 with a 5 percent threshold, wear
/// 38 of 100, not read-only, disabled, no attachments, and the Supported Log
/// Pages, SMART / Health and Feature Identifiers logs supported.
pub open spec fn fresh_controller(c: Controller, id: ControllerId, port: PortId) -> bool {
    &&& c.wf()
    &&& c.id == id
    &&& c.port == port
    &&& c.cntrltype == ControllerType::Io
    &&& c.active_ns@.len() == 0
    &&& c.temp == 293
    &&& c.temp_range.lower == 213 && c.temp_range.upper == 400
    &&& c.capacity == 100 && c.spare == 100
    &&& c.spare_range.lower == 5 && c.spare_range.upper == 100
    &&& c.write_age == 38 && c.write_lifespan == 100
    &&& !c.ro
    &&& !c.cc.en
    &&& c.csts == 0
    &&& c.lpa == 0
    &&& forall|i: int| 0 <= i < NUM_LSAES ==> #[trigger] c.lsaes@[i] == if i == 0x00 || i == 0x02 || i == 0x12 { LSAE_LSUPP } else { 0u8 }
}

/// Two controllers agree on everything but the attachments, the temperature
/// and the CC and CSTS registers.
pub open spec fn same_settings(a: Controller, b: Controller) -> bool {
    &&& a.id == b.id
    &&& a.cntrltype == b.cntrltype
    &&& a.port == b.port
    &&& a.secondaries@ == b.secondaries@
    &&& a.temp_range == b.temp_range
    &&& a.capacity == b.capacity
    &&& a.spare == b.spare
    &&& a.spare_range == b.spare_range
    &&& a.write_age == b.write_age
    &&& a.write_lifespan == b.write_lifespan
    &&& a.ro == b.ro
    &&& a.lpa == b.lpa
    &&& a.lsaes@ == b.lsaes@
}

/// Two controllers agree on everything but the attachments.
pub open spec fn same_but_attachments(a: Controller, b: Controller) -> bool {
    same_settings(a, b) && a.temp == b.temp && a.cc == b.cc && a.csts == b.csts
}

impl Controller {
    pub open spec fn wf(&self) -> bool {
        &&& self.active_ns@.len() <= MAX_NAMESPACES
        &&& no_duplicates(self.active_ns@)
        &&& self.spare <= self.capacity
        &&& 0 < self.capacity <= 0x0100_0000_0000_0000
        &&& self.spare_range.lower <= self.capacity
        &&& self.spare_range.kind == UnitKind::Percent
        &&& 0 < self.write_lifespan
        &&& self.write_age <= 0x0100_0000_0000_0000
        &&& self.temp_range.kind == UnitKind::Kelvin
        &&& self.temp_range.lower <= self.temp_range.upper
        &&& self.lsaes@.len() == NUM_LSAES
        &&& self.secondaries@.len() == 0
    }

    pub open spec fn is_attached(&self, nsid: u32) -> bool {
        exists|i: int| 0 <= i < self.active_ns@.len() && self.active_ns@[i].0 == nsid
    }

    pub fn new(id: ControllerId, port: PortId) -> (r: Self)
        ensures
            fresh_controller(r, id, port),
    {
        let mut lsaes: Vec<u8> = Vec::new();
        let mut i: usize = 0;
        while i < NUM_LSAES
            invariant
                i <= NUM_LSAES,
                lsaes@.len() == i,
                forall|k: int|
                    0 <= k < i ==> #[trigger] lsaes@[k] == if k == 0x00 || k == 0x02 || k
                        == 0x12 {
                        LSAE_LSUPP
                    } else {
                        0u8
                    },
            decreases NUM_LSAES - i,
        {
            if i == 0x00 || i == 0x02 || i == 0x12 {
                lsaes.push(LSAE_LSUPP);
            } else {
                lsaes.push(0);
            }
            i = i + 1;
        }
        Controller {
            id,
            cntrltype: ControllerType::Io,
            port,
            secondaries: Vec::new(),
            active_ns: Vec::new(),
            temp: 293,
            temp_range: OperatingRange::new(UnitKind::Kelvin, 213, 400),
            capacity: 100,
            spare: 100,
            spare_range: OperatingRange::new(UnitKind::Percent, 5, 100),
            write_age: 38,
            write_lifespan: 100,
            ro: false,
            cc: ControllerConfiguration { en: false },
            csts: 0,
            lpa: 0,
            lsaes,
        }
    }

    /// Writes a controller property. Writing CC sets CSTS.RDY when CC.EN is
    /// set and clears it otherwise; the other status bits are kept.
    pub fn set_property(&mut self, prop: ControllerProperties)
        requires
            old(self).wf(),
        ensures
            final(self).wf(),
            match prop {
                ControllerProperties::Cc(cc) => {
                    &&& final(self).cc == cc
                    &&& final(self).csts == if cc.en {
                        old(self).csts | CSTS_RDY
                    } else {
                        old(self).csts & !CSTS_RDY
                    }
                },
            },
            same_settings(*final(self), *old(self)),
            final(self).active_ns@ == old(self).active_ns@,
            final(self).temp == old(self).temp,
    {
        match prop {
            ControllerProperties::Cc(cc) => {
                self.cc = cc;
                if cc.en {
                    self.csts = self.csts | CSTS_RDY;
                } else {
                    self.csts = self.csts & !CSTS_RDY;
                }
            },
        }
    }

    /// Sets the composite temperature, given in Kelvin.
    pub fn set_temperature(&mut self, temp: Temperature<u16>)
        requires
            old(self).wf(),
            temp is Kelvin,
        ensures
            final(self).wf(),
            final(self).temp == temp->Kelvin_0,
            same_settings(*final(self), *old(self)),
            final(self).active_ns@ == old(self).active_ns@,
            final(self).cc == old(self).cc,
            final(self).csts == old(self).csts,
    {
        match temp {
            Temperature::Kelvin(k) => {
                self.temp = k;
            },
            Temperature::Celcius(_) => {},
        }
    }

    /// Attaches a namespace: refused when it is already attached, or when the
    /// controller already holds as many namespaces as it can.
    pub fn attach_namespace(&mut self, nsid: NamespaceId) -> (r: Result<(), ControllerError>)
        requires
            old(self).wf(),
        ensures
            final(self).wf(),
            same_but_attachments(*final(self), *old(self)),
            old(self).is_attached(nsid.0) ==> r == Err::<(), ControllerError>(
                ControllerError::NamespaceAlreadyAttached,
            ) && final(self).active_ns@ == old(self).active_ns@,
            !old(self).is_attached(nsid.0) && old(self).active_ns@.len() >= MAX_NAMESPACES ==> r
                == Err::<(), ControllerError>(ControllerError::NamespaceAttachmentLimitExceeded)
                && final(self).active_ns@ == old(self).active_ns@,
            !old(self).is_attached(nsid.0) && old(self).active_ns@.len() < MAX_NAMESPACES ==> r
                is Ok && final(self).active_ns@ == old(self).active_ns@.push(nsid),
    {
        let mut i: usize = 0;
        while i < self.active_ns.len()
            invariant
                *self == *old(self),
                self.wf(),
                i <= self.active_ns@.len(),
                forall|k: int| 0 <= k < i ==> self.active_ns@[k].0 != nsid.0,
            decreases self.active_ns@.len() - i,
        {
            if self.active_ns[i].0 == nsid.0 {
                return Err(ControllerError::NamespaceAlreadyAttached);
            }
            i = i + 1;
        }
        if self.active_ns.len() >= MAX_NAMESPACES {
            return Err(ControllerError::NamespaceAttachmentLimitExceeded);
        }
        self.active_ns.push(nsid);
        assert forall|a: int, b: int|
            0 <= a < self.active_ns@.len() && 0 <= b < self.active_ns@.len() && a
                != b implies #[trigger] self.active_ns@[a] != #[trigger] self.active_ns@[b] by {
            if a < old(self).active_ns@.len() && b < old(self).active_ns@.len() {
                assert(old(self).active_ns@[a] != old(self).active_ns@[b]);
            }
        }
        Ok(())
    }

    /// Detaches a namespace: the last attachment takes its place.
    pub fn detach_namespace(&mut self, nsid: NamespaceId) -> (r: Result<(), ControllerError>)
        requires
            old(self).wf(),
        ensures
            final(self).wf(),
            same_but_attachments(*final(self), *old(self)),
            !old(self).is_attached(nsid.0) ==> r == Err::<(), ControllerError>(
                ControllerError::NamespaceNotAttached,
            ) && final(self).active_ns@ == old(self).active_ns@,
            old(self).is_attached(nsid.0) ==> r is Ok && final(self).active_ns@ == detached(
                old(self).active_ns@,
                nsid.0,
            ) && !final(self).is_attached(nsid.0)
                && final(self).active_ns@.len() + 1 == old(self).active_ns@.len() && forall|
                m: u32,
            | m != nsid.0 ==> (final(self).is_attached(m) <==> old(self).is_attached(m)),
    {
        let mut i: usize = 0;
        while i < self.active_ns.len()
            invariant
                *self == *old(self),
                self.wf(),
                i <= self.active_ns@.len(),
                forall|k: int| 0 <= k < i ==> self.active_ns@[k].0 != nsid.0,
            decreases self.active_ns@.len() - i,
        {
            if self.active_ns[i].0 == nsid.0 {
                let ghost before = self.active_ns@;
                let _ = self.active_ns.swap_remove(i);
                let ghost after = self.active_ns@;
                assert(before[i as int].0 == nsid.0);
                assert(after =~= before.update(i as int, before.last()).drop_last());
                assert(no_duplicates(before));
                assert(first_match(before, nsid.0) == i) by {
                    let j = first_match(before, nsid.0);
                    assert(0 <= i < before.len() && before[i as int].0 == nsid.0 && forall|k: int|
                        0 <= k < i ==> before[k].0 != nsid.0);
                    if j < i {
                        assert(before[j].0 != nsid.0);
                    } else if j > i {
                        assert(before[i as int].0 != nsid.0);
                    }
                }
                assert forall|a: int, b: int|
                    0 <= a < after.len() && 0 <= b < after.len() && a
                        != b implies #[trigger] after[a] != #[trigger] after[b] by {
                    let ia = if a == i { before.len() - 1 } else { a };
                    let ib = if b == i { before.len() - 1 } else { b };
                    assert(before[ia] != before[ib]);
                }
                assert forall|m: u32| m != nsid.0 implies (#[trigger] self.is_attached(m)
                    <==> old(self).is_attached(m)) by {
                    if old(self).is_attached(m) {
                        let k = choose|k: int| 0 <= k < before.len() && before[k].0 == m;
                        if k == before.len() - 1 {
                            assert(after[i as int].0 == m);
                        } else {
                            assert(after[k].0 == m);
                        }
                    }
                    if self.is_attached(m) {
                        let k = choose|k: int| 0 <= k < after.len() && after[k].0 == m;
                        if k == i {
                            assert(before[before.len() - 1].0 == m);
                        } else {
                            assert(before[k].0 == m);
                        }
                    }
                }
                assert(!self.is_attached(nsid.0)) by {
                    if self.is_attached(nsid.0) {
                        let k = choose|k: int| 0 <= k < after.len() && after[k].0 == nsid.0;
                        if k == i {
                            assert(before[before.len() - 1] != before[i as int]);
                        } else {
                            assert(before[k] != before[i as int]);
                        }
                    }
                }
                return Ok(());
            }
            i = i + 1;
        }
        Err(ControllerError::NamespaceNotAttached)
    }
}

#[derive(Debug)]
pub struct SubsystemHealth {
    pub nss: NvmSubsystemStatus,
}

impl SubsystemHealth {
    pub fn new() -> (r: Self)
        ensures
            !r.nss.atf && !r.nss.sfm && r.nss.df && r.nss.rnr && !r.nss.rd,
    {
        SubsystemHealth { nss: NvmSubsystemStatus::new() }
    }
}

/// A namespace identification descriptor; a UUID is held as its 16 bytes.
#[derive(Clone, Copy, Debug)]
pub enum NamespaceIdentifierType {
    Ieuid([u8; 8]),
    Nguid([u8; 16]),
    Nuuid([u8; 16]),
    Csi(CommandSetIdentifier),
}

#[derive(Debug)]
pub struct Namespace {
    pub id: NamespaceId,
    pub size: u64,
    pub capacity: u64,
    pub used: u64,
    /// log2 of the block size.
    pub block_order: u8,
    pub nids: [NamespaceIdentifierType; 2],
}

/// The HMAC-SHA256 tag of `msg` under `key`.
pub uninterp spec fn hmac_sha256(key: Seq<u8>, msg: Seq<u8>) -> Seq<u8>;

/// Relies on `hmac::Hmac<sha2::Sha256>` (`new_from_slice`, which accepts a
/// key of any length, `update`, `finalize`): the tag of `msg` under `key`,
/// 32 bytes long.
#[verifier::external_body]
fn hmac_sha256_tag(key: &[u8], msg: &[u8]) -> (r: Vec<u8>)
    ensures
        r@ == hmac_sha256(key@, msg@),
        r@.len() == 32,
{
    let mut mac = <hmac::Hmac<sha2::Sha256> as hmac::Mac>::new_from_slice(key).unwrap();
    hmac::Mac::update(&mut mac, msg);
    hmac::Mac::finalize(mac).into_bytes().to_vec()
}

/// Four big-endian bytes of `x`.
pub open spec fn be32(x: u32) -> Seq<u8> {
    seq![(x >> 24) as u8, ((x >> 16) & 0xff) as u8, ((x >> 8) & 0xff) as u8, (x & 0xff) as u8]
}

/// A random-bytes (version 4, RFC 4122 variant) UUID formed from 16 bytes.
pub open spec fn random_uuid(b: Seq<u8>) -> Seq<u8> {
    b.update(6, (b[6] & 0x0f) | 0x40).update(8, (b[8] & 0x3f) | 0x80)
}

/// The UUID of a namespace: HMAC-SHA256 of its big-endian identifier under
/// the subsystem's instance seed, truncated to 16 bytes.
pub open spec fn namespace_uuid(seed: Seq<u8>, nsid: u32) -> Seq<u8> {
    random_uuid(hmac_sha256(seed, be32(nsid)).subrange(0, 16))
}

impl Namespace {
    pub fn generate_uuid(seed: &[u8], nsid: NamespaceId) -> (r: [u8; 16])
        ensures
            r@ == namespace_uuid(seed@, nsid.0),
    {
        let x = nsid.0;
        let msg: [u8; 4] = [(x >> 24) as u8, ((x >> 16) & 0xff) as u8, ((x >> 8) & 0xff) as u8, (x
            & 0xff) as u8];
        assert(msg@ =~= be32(x));
        let tag = hmac_sha256_tag(seed, &msg);
        let mut out: [u8; 16] = [0u8; 16];
        let mut i: usize = 0;
        while i < 16
            invariant
                i <= 16,
                tag@.len() == 32,
                out@.len() == 16,
                forall|k: int| 0 <= k < i ==> out@[k] == tag@[k],
            decreases 16 - i,
        {
            out[i] = tag[i];
            i = i + 1;
        }
        let b6 = (out[6] & 0x0f) | 0x40;
        let b8 = (out[8] & 0x3f) | 0x80;
        out[6] = b6;
        out[8] = b8;
        assert(out@ =~= random_uuid(tag@.subrange(0, 16)));
        out
    }

    pub fn new(nsid: NamespaceId, uuid: [u8; 16], capacity: u64) -> (r: Self)
        ensures
            r.id == nsid,
            r.size == capacity,
            r.capacity == capacity,
            r.used == 0,
            r.block_order == 9,
            r.nids[0] == NamespaceIdentifierType::Nuuid(uuid),
            r.nids[1] == NamespaceIdentifierType::Csi(CommandSetIdentifier::Nvm),
    {
        Namespace {
            id: nsid,
            size: capacity,
            capacity,
            used: 0,
            block_order: 9,
            nids: [
                NamespaceIdentifierType::Nuuid(uuid),
                NamespaceIdentifierType::Csi(CommandSetIdentifier::Nvm),
            ],
        }
    }
}

#[derive(Debug, PartialEq, Eq, Structural)]
pub enum SubsystemError {
    ControllerLimitExceeded,
    NamespaceIdentifierUnavailable,
}

#[derive(Clone, Copy, Debug)]
pub struct SubsystemInfo {
    pub pci_vid: u16,
    pub pci_did: u16,
    pub pci_svid: u16,
    pub pci_sdid: u16,
    pub ieee_oui: [u8; 3],
    pub instance: [u8; 16],
}

impl SubsystemInfo {
    /// Placeholder identity: the PCI IDs of an aborted access and the IEEE
    /// private example OUI.
    pub fn invalid() -> (r: Self)
        ensures
            r.pci_vid == 0xffff && r.pci_did == 0xffff,
            r.pci_svid == 0xffff && r.pci_sdid == 0xffff,
            r.ieee_oui@ == seq![0xacu8, 0xdeu8, 0x48u8],
            r.instance@ == Seq::new(16, |i: int| 0u8),
    {
        let r = SubsystemInfo {
            pci_vid: 0xffff,
            pci_did: 0xffff,
            pci_svid: 0xffff,
            pci_sdid: 0xffff,
            ieee_oui: [0xac, 0xde, 0x48],
            instance: [0u8; 16],
        };
        assert(r.ieee_oui@ =~= seq![0xacu8, 0xdeu8, 0x48u8]);
        assert(r.instance@ =~= Seq::new(16, |i: int| 0u8));
        r
    }
}

/// The management interface version this device reports.
#[derive(Debug)]
pub struct MiCapability {
    pub mjr: u8,
    pub mnr: u8,
}

impl MiCapability {
    pub fn new() -> (r: Self)
        ensures
            r.mjr == 1 && r.mnr == 2,
    {
        MiCapability { mjr: 1, mnr: 2 }
    }
}

#[derive(Debug)]
pub struct Subsystem {
    pub info: SubsystemInfo,
    pub caps: SubsystemCapabilities,
    pub ports: Vec<Port>,
    pub ctlrs: Vec<Controller>,
    /// The highest namespace identifier issued so far.
    pub nsids: u32,
    pub nss: Vec<Namespace>,
    pub health: SubsystemHealth,
    pub mi: MiCapability,
    pub sn: &'static str,
    pub mn: &'static str,
    pub fr: &'static str,
}

/// Whether some namespace in `nss` carries the identifier `nsid`.
pub open spec fn namespace_listed(nss: Seq<Namespace>, nsid: u32) -> bool {
    exists|i: int| 0 <= i < nss.len() && nss[i].id.0 == nsid
}

/// Every namespace attached to one of `ctlrs` is listed in `nss`.
pub open spec fn attachments_within(ctlrs: Seq<Controller>, nss: Seq<Namespace>) -> bool {
    forall|c: int, k: int|
        0 <= c < ctlrs.len() && 0 <= k < ctlrs[c].active_ns@.len() ==> namespace_listed(
            nss,
            #[trigger] ctlrs[c].active_ns@[k].0,
        )
}

/// A namespace as `add_namespace` creates it: identifier `nsid`, `capacity`
/// blocks of 512 bytes, none used, described by its derived UUID and the NVM
/// command set.
pub open spec fn created_namespace(ns: Namespace, nsid: u32, capacity: u64, seed: Seq<u8>) -> bool {
    &&& ns.id.0 == nsid
    &&& ns.size == capacity
    &&& ns.capacity == capacity
    &&& ns.used == 0
    &&& ns.block_order == 9
    &&& ns.nids[0] is Nuuid
    &&& ns.nids[0]->Nuuid_0@ == namespace_uuid(seed, nsid)
    &&& ns.nids[1] == NamespaceIdentifierType::Csi(CommandSetIdentifier::Nvm)
}

/// The position of the namespace with identifier `nsid`.
pub open spec fn namespace_position(nss: Seq<Namespace>, nsid: u32) -> int {
    choose|i: int| 0 <= i < nss.len() && nss[i].id.0 == nsid
}

/// `nss` without its entry at `i`, the last entry taking its place.
pub open spec fn swap_removed(nss: Seq<Namespace>, i: int) -> Seq<Namespace> {
    nss.update(i, nss.last()).drop_last()
}

impl Subsystem {
    /// Port and controller identifiers are their positions, every controller
    /// sits on an existing port, and every live namespace carries a distinct
    /// identifier in `1..=nsids` that is neither 0 nor the broadcast value.
    pub open spec fn wf(&self) -> bool {
        &&& self.ports@.len() <= MAX_PORTS
        &&& forall|i: int| 0 <= i < self.ports@.len() ==> (#[trigger] self.ports@[i]).id.0 == i
        &&& self.ctlrs@.len() <= MAX_CONTROLLERS
        &&& forall|i: int|
            0 <= i < self.ctlrs@.len() ==> {
                &&& (#[trigger] self.ctlrs@[i]).id.0 == i
                &&& self.ctlrs@[i].wf()
                &&& (self.ctlrs@[i].port.0 as int) < self.ports@.len()
            }
        &&& self.nss@.len() <= MAX_NAMESPACES
        &&& self.nsids < NSID_BROADCAST
        &&& forall|i: int|
            0 <= i < self.nss@.len() ==> 0 < (#[trigger] self.nss@[i]).id.0 <= self.nsids
                && self.nss@[i].block_order <= 63
        &&& forall|i: int, j: int|
            0 <= i < self.nss@.len() && 0 <= j < self.nss@.len() && i != j ==> (
            #[trigger] self.nss@[i]).id != (#[trigger] self.nss@[j]).id
    }

    pub open spec fn has_namespace(&self, nsid: u32) -> bool {
        namespace_listed(self.nss@, nsid)
    }

    /// Every namespace attached to a controller exists in the subsystem.
    pub open spec fn attachments_exist(&self) -> bool {
        attachments_within(self.ctlrs@, self.nss@)
    }

    pub fn new(info: SubsystemInfo) -> (r: Self)
        ensures
            r.wf(),
            r.attachments_exist(),
            r.info == info,
            r.ports@.len() == 0,
            r.ctlrs@.len() == 0,
            r.nss@.len() == 0,
            r.nsids == 0,
            !r.caps.sre,
            r.mi.mjr == 1 && r.mi.mnr == 2,
            !r.health.nss.atf && !r.health.nss.sfm && r.health.nss.df && r.health.nss.rnr
                && !r.health.nss.rd,
    {
        Subsystem {
            info,
            caps: SubsystemCapabilities::new(),
            ports: Vec::new(),
            ctlrs: Vec::new(),
            nsids: 0,
            nss: Vec::new(),
            health: SubsystemHealth::new(),
            mi: MiCapability::new(),
            sn: "1000",
            mn: "MIDEV",
            fr: "00.00.01",
        }
    }

    /// Adds a port with the next identifier; a full port table hands the
    /// port back.
    pub fn add_port(&mut self, typ: PortType) -> (r: Result<PortId, Port>)
        requires
            old(self).wf(),
        ensures
            final(self).wf(),
            final(self).nsids == old(self).nsids,
            final(self).nss@ == old(self).nss@,
            final(self).ctlrs@ == old(self).ctlrs@,
            final(self).info == old(self).info,
            old(self).ports@.len() < MAX_PORTS ==> r == Ok::<PortId, Port>(
                PortId(old(self).ports@.len() as u8),
            ) && final(self).ports@.len() == old(self).ports@.len() + 1 && final(self).ports@.last().typ == typ && final(self).ports@.last().mtus == 64 && final(self).ports@.drop_last() == old(self).ports@,
            old(self).ports@.len() >= MAX_PORTS ==> r is Err && final(self).ports@ == old(self).ports@,
    {
        let p = Port::new(PortId(self.ports.len() as u8), typ);
        if self.ports.len() >= MAX_PORTS {
            return Err(p);
        }
        let id = p.id;
        self.ports.push(p);
        assert(self.ports@.drop_last() =~= old(self).ports@);
        Ok(id)
    }

    /// Adds a controller on an existing port, with the next identifier.
    pub fn add_controller(&mut self, port: PortId) -> (r: Result<ControllerId, SubsystemError>)
        requires
            old(self).wf(),
            (port.0 as int) < old(self).ports@.len(),
        ensures
            final(self).wf(),
            final(self).nsids == old(self).nsids,
            final(self).nss@ == old(self).nss@,
            final(self).ports@ == old(self).ports@,
            final(self).info == old(self).info,
            old(self).attachments_exist() ==> final(self).attachments_exist(),
            old(self).ctlrs@.len() < MAX_CONTROLLERS ==> r == Ok::<ControllerId, SubsystemError>(
                ControllerId(old(self).ctlrs@.len() as u16),
            ) && final(self).ctlrs@.len() == old(self).ctlrs@.len() + 1 && final(self).ctlrs@.drop_last() == old(self).ctlrs@ && fresh_controller(
                final(self).ctlrs@.last(),
                ControllerId(old(self).ctlrs@.len() as u16),
                port,
            ),
            old(self).ctlrs@.len() >= MAX_CONTROLLERS ==> r == Err::<ControllerId, SubsystemError>(
                SubsystemError::ControllerLimitExceeded,
            ) && final(self).ctlrs@ == old(self).ctlrs@,
    {
        if self.ctlrs.len() >= MAX_CONTROLLERS {
            return Err(SubsystemError::ControllerLimitExceeded);
        }
        let cid = ControllerId(self.ctlrs.len() as u16);
        let c = Controller::new(cid, port);
        self.ctlrs.push(c);
        assert(self.ctlrs@.drop_last() =~= old(self).ctlrs@);
        proof {
            if old(self).attachments_exist() {
                assert forall|c: int, k: int|
                    0 <= c < self.ctlrs@.len() && 0 <= k < self.ctlrs@[c].active_ns@.len() implies self.has_namespace(
                    #[trigger] self.ctlrs@[c].active_ns@[k].0) by {
                    assert(c < old(self).ctlrs@.len());
                    assert(old(self).has_namespace(old(self).ctlrs@[c].active_ns@[k].0));
                }
            }
        }
        Ok(cid)
    }

    /// A mutable handle on a controller that `add_controller` returned.
    pub fn controller_mut(&mut self, id: ControllerId) -> (r: &mut Controller)
        requires
            (id.0 as int) < old(self).ctlrs@.len(),
        ensures
            *r == old(self).ctlrs@[id.0 as int],
            final(self).ctlrs@ == old(self).ctlrs@.update(id.0 as int, *final(r)),
            final(self).ports@ == old(self).ports@,
            final(self).nss@ == old(self).nss@,
            final(self).nsids == old(self).nsids,
            final(self).info == old(self).info,
    {
        &mut self.ctlrs[id.0 as usize]
    }

    /// Allocates the next namespace identifier and adds a namespace of the
    /// given capacity. Fails when the identifier space is exhausted or the
    /// namespace table is full; in the latter case the identifier is spent.
    pub fn add_namespace(&mut self, capacity: u64) -> (r: Result<NamespaceId, SubsystemError>)
        requires
            old(self).wf(),
        ensures
            final(self).wf(),
            final(self).nsids >= old(self).nsids,
            final(self).ports@ == old(self).ports@,
            final(self).ctlrs@ == old(self).ctlrs@,
            final(self).info == old(self).info,
            old(self).attachments_exist() ==> final(self).attachments_exist(),
            old(self).nsids + 1 >= NSID_BROADCAST ==> r == Err::<NamespaceId, SubsystemError>(
                SubsystemError::NamespaceIdentifierUnavailable,
            ) && final(self).nss@ == old(self).nss@ && final(self).nsids == old(self).nsids,
            old(self).nsids + 1 < NSID_BROADCAST ==> final(self).nsids == old(self).nsids + 1,
            old(self).nsids + 1 < NSID_BROADCAST && old(self).nss@.len() >= MAX_NAMESPACES ==> r
                == Err::<NamespaceId, SubsystemError>(
                SubsystemError::NamespaceIdentifierUnavailable,
            ) && final(self).nss@ == old(self).nss@,
            old(self).nsids + 1 < NSID_BROADCAST && old(self).nss@.len() < MAX_NAMESPACES ==> {
                &&& r == Ok::<NamespaceId, SubsystemError>(NamespaceId(final(self).nsids))
                &&& final(self).nss@.len() == old(self).nss@.len() + 1
                &&& final(self).nss@.drop_last() == old(self).nss@
                &&& created_namespace(
                    final(self).nss@.last(),
                    final(self).nsids,
                    capacity,
                    old(self).info.instance@,
                )
            },
    {
        if self.nsids >= NSID_BROADCAST - 1 {
            return Err(SubsystemError::NamespaceIdentifierUnavailable);
        }
        self.nsids = self.nsids + 1;
        let nsid = NamespaceId(self.nsids);
        if self.nss.len() >= MAX_NAMESPACES {
            return Err(SubsystemError::NamespaceIdentifierUnavailable);
        }
        let uuid = Namespace::generate_uuid(&self.info.instance, nsid);
        let ns = Namespace::new(nsid, uuid, capacity);
        self.nss.push(ns);
        assert(self.nss@.drop_last() =~= old(self).nss@);
        assert(self.has_namespace(nsid.0)) by {
            assert(self.nss@[self.nss@.len() - 1].id.0 == nsid.0);
        }
        proof {
            if old(self).attachments_exist() {
                assert forall|c: int, k: int|
                    0 <= c < self.ctlrs@.len() && 0 <= k < self.ctlrs@[c].active_ns@.len() implies self.has_namespace(
                    #[trigger] self.ctlrs@[c].active_ns@[k].0) by {
                    let m = self.ctlrs@[c].active_ns@[k].0;
                    assert(old(self).has_namespace(m));
                    let j = choose|j: int| 0 <= j < old(self).nss@.len() && old(self).nss@[j].id.0 == m;
                    assert(self.nss@[j].id.0 == m);
                }
            }
        }
        Ok(nsid)
    }

    /// Removes one namespace by identifier, or every namespace for the
    /// broadcast identifier.
    pub fn remove_namespace(&mut self, nsid: NamespaceId) -> (r: Result<(), SubsystemError>)
        requires
            old(self).wf(),
        ensures
            final(self).wf(),
            final(self).nsids == old(self).nsids,
            final(self).ports@ == old(self).ports@,
            final(self).ctlrs@ == old(self).ctlrs@,
            final(self).info == old(self).info,
            nsid.0 == NSID_BROADCAST ==> r is Ok && final(self).nss@.len() == 0,
            nsid.0 != NSID_BROADCAST && !old(self).has_namespace(nsid.0) ==> {
                &&& r == Err::<(), SubsystemError>(SubsystemError::NamespaceIdentifierUnavailable)
                &&& final(self).nss@ == old(self).nss@
            },
            nsid.0 != NSID_BROADCAST && old(self).has_namespace(nsid.0) ==> {
                &&& r is Ok
                &&& final(self).nss@ == swap_removed(
                    old(self).nss@,
                    namespace_position(old(self).nss@, nsid.0),
                )
                &&& !final(self).has_namespace(nsid.0)
                &&& final(self).nss@.len() + 1 == old(self).nss@.len()
                &&& forall|m: u32|
                    m != nsid.0 ==> (final(self).has_namespace(m) <==> old(self).has_namespace(m))
            },
    {
        if nsid.0 == NSID_BROADCAST {
            self.nss.clear();
            return Ok(());
        }
        let mut i: usize = 0;
        while i < self.nss.len()
            invariant
                self.wf(),
                *self == *old(self),
                i <= self.nss@.len(),
                forall|k: int| 0 <= k < i ==> self.nss@[k].id.0 != nsid.0,
            decreases self.nss@.len() - i,
        {
            if self.nss[i].id.0 == nsid.0 {
                let ghost before = self.nss@;
                let _ = self.nss.swap_remove(i);
                let ghost after = self.nss@;
                assert(after =~= before.update(i as int, before.last()).drop_last());
                assert(namespace_position(before, nsid.0) == i) by {
                    assert(before[i as int].id.0 == nsid.0);
                    let j = namespace_position(before, nsid.0);
                    if j != i {
                        assert(before[j].id != before[i as int].id);
                    }
                }
                assert forall|a: int, b: int|
                    0 <= a < after.len() && 0 <= b < after.len() && a != b implies (
                    #[trigger] after[a]).id != (#[trigger] after[b]).id by {
                    let ia = if a == i { before.len() - 1 } else { a };
                    let ib = if b == i { before.len() - 1 } else { b };
                    assert(before[ia].id != before[ib].id);
                }
                assert forall|a: int| 0 <= a < after.len() implies 0 < (
                #[trigger] after[a]).id.0 <= self.nsids && after[a].block_order <= 63 by {
                    let ia = if a == i { before.len() - 1 } else { a };
                    assert(before[ia] == after[a]);
                }
                assert forall|m: u32| m != nsid.0 implies (#[trigger] self.has_namespace(m)
                    <==> old(self).has_namespace(m)) by {
                    if old(self).has_namespace(m) {
                        let k = choose|k: int| 0 <= k < before.len() && before[k].id.0 == m;
                        if k == before.len() - 1 {
                            assert(after[i as int].id.0 == m);
                        } else {
                            assert(after[k].id.0 == m);
                        }
                    }
                    if self.has_namespace(m) {
                        let k = choose|k: int| 0 <= k < after.len() && after[k].id.0 == m;
                        if k == i {
                            assert(before[before.len() - 1].id.0 == m);
                        } else {
                            assert(before[k].id.0 == m);
                        }
                    }
                }
                assert(!self.has_namespace(nsid.0)) by {
                    if self.has_namespace(nsid.0) {
                        let k = choose|k: int| 0 <= k < after.len() && after[k].id.0 == nsid.0;
                        if k == i {
                            assert(before[before.len() - 1].id != before[i as int].id);
                        } else {
                            assert(before[k].id != before[i as int].id);
                        }
                    }
                }
                return Ok(());
            }
            i = i + 1;
        }
        Err(SubsystemError::NamespaceIdentifierUnavailable)
    }
}

/// What a management endpoint last saw of one controller.
#[derive(Clone, Copy, Debug)]
pub struct ManagementEndpointControllerState {
    pub cc: ControllerConfiguration,
    pub csts: u32,
    /// Pending controller health status changed flags.
    pub chscf: u16,
}

#[derive(Debug)]
pub struct ManagementEndpoint {
    pub port: PortId,
    pub mecss: Vec<ManagementEndpointControllerState>,
    pub ccsf: CompositeControllerStatusFlagSet,
}

impl ManagementEndpoint {
    pub open spec fn wf(&self) -> bool {
        self.mecss@.len() == MAX_CONTROLLERS
    }

    pub fn new(port: PortId) -> (r: Self)
        ensures
            r.wf(),
            r.port == port,
            r.ccsf.bits == 0,
            forall|i: int|
                0 <= i < MAX_CONTROLLERS ==> {
                    &&& !(#[trigger] r.mecss@[i]).cc.en
                    &&& r.mecss@[i].csts == 0
                    &&& r.mecss@[i].chscf == 0
                },
    {
        let mut mecss: Vec<ManagementEndpointControllerState> = Vec::new();
        let mut i: usize = 0;
        while i < MAX_CONTROLLERS
            invariant
                i <= MAX_CONTROLLERS,
                mecss@.len() == i,
                forall|k: int|
                    0 <= k < i ==> {
                        &&& !(#[trigger] mecss@[k]).cc.en
                        &&& mecss@[k].csts == 0
                        &&& mecss@[k].chscf == 0
                    },
            decreases MAX_CONTROLLERS - i,
        {
            mecss.push(
                ManagementEndpointControllerState {
                    cc: ControllerConfiguration { en: false },
                    csts: 0,
                    chscf: 0,
                },
            );
            i = i + 1;
        }
        ManagementEndpoint { port, mecss, ccsf: CompositeControllerStatusFlagSet::empty() }
    }
}

} // verus!
