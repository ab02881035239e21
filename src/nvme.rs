//! NVMe base vocabulary: controller registers, completion queue entry
//! status, log page identifiers and the layouts of admin response structures.
use vstd::prelude::*;
use crate::wire::{le16, le32, le64, le128, zeros, u16_at, u64_at, push_le16, push_le32, push_le64, push_le128, push_zeros, lemma_le16_round_trip, lemma_le64_round_trip};

verus! {

/// Controller configuration register (CC); only the enable bit is modelled.
#[derive(Clone, Copy, Debug, PartialEq, Eq, Structural)]
pub struct ControllerConfiguration {
    pub en: bool,
}

/// A controller property that a host may write.
#[derive(Clone, Copy, Debug)]
pub enum ControllerProperties {
    Cc(ControllerConfiguration),
}

/// Controller status register (CSTS) bits.
pub const CSTS_RDY: u32 = 1;
pub const CSTS_CFS: u32 = 2;
pub const CSTS_SHST_IN_PROGRESS: u32 = 4;
pub const CSTS_SHST_COMPLETE: u32 = 8;
pub const CSTS_NSSRO: u32 = 16;
pub const CSTS_PP: u32 = 32;
pub const CSTS_ST: u32 = 64;

/// LID supported and effects flags.
pub const LSAE_LSUPP: u8 = 1;
pub const LSAE_IOS: u8 = 2;

/// Log page attributes (LPA) flags.
pub const LPA_SMARTS: u8 = 1;
pub const LPA_LPEDS: u8 = 4;

/// Status code types (SCT) of a completion queue entry.
pub const SCT_GENERIC: u8 = 0;
pub const SCT_COMMAND_SPECIFIC: u8 = 1;

/// Generic status codes (SC).
pub const SC_SUCCESSFUL_COMPLETION: u8 = 0x00;
pub const SC_INVALID_FIELD_IN_COMMAND: u8 = 0x02;

/// Command specific status codes (SC) of namespace management and attachment.
pub const SC_NAMESPACE_IDENTIFIER_UNAVAILABLE: u8 = 0x16;
pub const SC_NAMESPACE_ALREADY_ATTACHED: u8 = 0x18;
pub const SC_NAMESPACE_NOT_ATTACHED: u8 = 0x1a;
pub const SC_CONTROLLER_LIST_INVALID: u8 = 0x1c;
pub const SC_NAMESPACE_ATTACHMENT_LIMIT_EXCEEDED: u8 = 0x27;

/// Dword 3 of a completion queue entry with command identifier 0, the phase
/// tag set, no retry delay and the More bit clear: `[CID:16][P:1][SC:8]
/// [SCT:3][CRD:2][M:1][DNR:1]` from the least significant bit.
pub open spec fn cqe_dw3(sct: u8, sc: u8, dnr: bool) -> u32 {
    ((if dnr { 0x8000_0000int } else { 0int }) + (sct as int) * 0x200_0000 + (sc as int)
        * 0x2_0000 + 0x1_0000) as u32
}

pub fn cqe_dw3_exec(sct: u8, sc: u8, dnr: bool) -> (r: u32)
    requires
        sct < 8,
    ensures
        r == cqe_dw3(sct, sc, dnr),
{
    let d: u32 = if dnr { 0x8000_0000 } else { 0 };
    d + (sct as u32) * 0x200_0000 + (sc as u32) * 0x2_0000 + 0x1_0000
}

/// The 16-byte admin command response header: status, then completion queue
/// entry dwords 0, 1 and 3.
pub open spec fn admin_response_header(dw0: u32, dw3: u32) -> Seq<u8> {
    seq![0u8, 0u8, 0u8, 0u8] + le32(dw0) + le32(0) + le32(dw3)
}

pub fn push_admin_response_header(v: &mut Vec<u8>, dw0: u32, dw3: u32)
    ensures
        final(v)@ == old(v)@ + admin_response_header(dw0, dw3),
{
    push_zeros(v, 4);
    push_le32(v, dw0);
    push_le32(v, 0);
    push_le32(v, dw3);
    assert(final(v)@ =~= old(v)@ + admin_response_header(dw0, dw3));
}

/// Log page identifiers that this device knows.
#[derive(Clone, Copy, Debug, PartialEq, Eq, Structural)]
pub enum AdminGetLogPageLidRequestType {
    SupportedLogPages,
    ErrorInformation,
    SmartHealthInformation,
    FeatureIdentifiersSupportedAndEffects,
}

pub open spec fn lid_of(v: u8) -> Option<AdminGetLogPageLidRequestType> {
    if v == 0x00 {
        Some(AdminGetLogPageLidRequestType::SupportedLogPages)
    } else if v == 0x01 {
        Some(AdminGetLogPageLidRequestType::ErrorInformation)
    } else if v == 0x02 {
        Some(AdminGetLogPageLidRequestType::SmartHealthInformation)
    } else if v == 0x12 {
        Some(AdminGetLogPageLidRequestType::FeatureIdentifiersSupportedAndEffects)
    } else {
        None
    }
}

impl AdminGetLogPageLidRequestType {
    pub open spec fn spec_id(self) -> u8 {
        match self {
            AdminGetLogPageLidRequestType::SupportedLogPages => 0x00,
            AdminGetLogPageLidRequestType::ErrorInformation => 0x01,
            AdminGetLogPageLidRequestType::SmartHealthInformation => 0x02,
            AdminGetLogPageLidRequestType::FeatureIdentifiersSupportedAndEffects => 0x12,
        }
    }

    pub fn id(&self) -> (r: u8)
        ensures
            r == self.spec_id(),
    {
        match self {
            AdminGetLogPageLidRequestType::SupportedLogPages => 0x00,
            AdminGetLogPageLidRequestType::ErrorInformation => 0x01,
            AdminGetLogPageLidRequestType::SmartHealthInformation => 0x02,
            AdminGetLogPageLidRequestType::FeatureIdentifiersSupportedAndEffects => 0x12,
        }
    }

    pub fn try_from_u8(v: u8) -> (r: Option<AdminGetLogPageLidRequestType>)
        ensures
            r == lid_of(v),
    {
        if v == 0x00 {
            Some(AdminGetLogPageLidRequestType::SupportedLogPages)
        } else if v == 0x01 {
            Some(AdminGetLogPageLidRequestType::ErrorInformation)
        } else if v == 0x02 {
            Some(AdminGetLogPageLidRequestType::SmartHealthInformation)
        } else if v == 0x12 {
            Some(AdminGetLogPageLidRequestType::FeatureIdentifiersSupportedAndEffects)
        } else {
            None
        }
    }
}

/// Command set identifier (CSI).
#[derive(Clone, Copy, Debug, PartialEq, Eq, Structural)]
pub enum CommandSetIdentifier {
    Nvm,
    KeyValue,
    ZonedNamespace,
    SubsystemLocalMemory,
    ComputationalPrograms,
}

impl CommandSetIdentifier {
    pub open spec fn spec_id(self) -> u8 {
        match self {
            CommandSetIdentifier::Nvm => 0,
            CommandSetIdentifier::KeyValue => 1,
            CommandSetIdentifier::ZonedNamespace => 2,
            CommandSetIdentifier::SubsystemLocalMemory => 3,
            CommandSetIdentifier::ComputationalPrograms => 4,
        }
    }

    pub fn id(&self) -> (r: u8)
        ensures
            r == self.spec_id(),
    {
        match self {
            CommandSetIdentifier::Nvm => 0,
            CommandSetIdentifier::KeyValue => 1,
            CommandSetIdentifier::ZonedNamespace => 2,
            CommandSetIdentifier::SubsystemLocalMemory => 3,
            CommandSetIdentifier::ComputationalPrograms => 4,
        }
    }
}

/// The Identify Namespace data structure of the NVM command set, as far as
/// this device fills it.
#[derive(Clone, Copy, Debug)]
pub struct AdminIdentifyNvmIdentifyNamespaceResponse {
    pub nsze: u64,
    pub ncap: u64,
    pub nuse: u64,
    pub nsfeat: u8,
    pub nlbaf: u8,
    pub flbas: u8,
    pub mc: u8,
    pub dpc: u8,
    pub dps: u8,
    pub nvmcap: u128,
    pub lbaf0: u16,
    pub lbaf0_lbads: u8,
    pub lbaf0_rp: u8,
}

/// An Identify Namespace structure with every field zero but `lbaf0_lbads`.
pub open spec fn identify_namespace_skeleton(lbads: u8) -> AdminIdentifyNvmIdentifyNamespaceResponse {
    AdminIdentifyNvmIdentifyNamespaceResponse {
        nsze: 0,
        ncap: 0,
        nuse: 0,
        nsfeat: 0,
        nlbaf: 0,
        flbas: 0,
        mc: 0,
        dpc: 0,
        dps: 0,
        nvmcap: 0,
        lbaf0: 0,
        lbaf0_lbads: lbads,
        lbaf0_rp: 0,
    }
}

impl AdminIdentifyNvmIdentifyNamespaceResponse {
    pub fn skeleton(lbads: u8) -> (r: Self)
        ensures
            r == identify_namespace_skeleton(lbads),
    {
        AdminIdentifyNvmIdentifyNamespaceResponse {
            nsze: 0,
            ncap: 0,
            nuse: 0,
            nsfeat: 0,
            nlbaf: 0,
            flbas: 0,
            mc: 0,
            dpc: 0,
            dps: 0,
            nvmcap: 0,
            lbaf0: 0,
            lbaf0_lbads: lbads,
            lbaf0_rp: 0,
        }
    }

    /// The 4096 bytes of the structure: fields at bytes 0 to 29, NVMCAP at
    /// 48, LBA format 0 at 128, zeros elsewhere.
    pub open spec fn spec_encode(self) -> Seq<u8> {
        le64(self.nsze) + le64(self.ncap) + le64(self.nuse) + seq![
            self.nsfeat,
            self.nlbaf,
            self.flbas,
            self.mc,
            self.dpc,
            self.dps,
        ] + zeros(18) + le128(self.nvmcap) + zeros(64) + le16(self.lbaf0) + seq![
            self.lbaf0_lbads,
            self.lbaf0_rp,
        ] + zeros(3964)
    }

    /// Reads the structure back from its bytes.
    pub open spec fn spec_decode(b: Seq<u8>) -> Self {
        AdminIdentifyNvmIdentifyNamespaceResponse {
            nsze: u64_at(b, 0),
            ncap: u64_at(b, 8),
            nuse: u64_at(b, 16),
            nsfeat: b[24],
            nlbaf: b[25],
            flbas: b[26],
            mc: b[27],
            dpc: b[28],
            dps: b[29],
            nvmcap: ((u64_at(b, 48) as u128) | ((u64_at(b, 56) as u128) << 64)),
            lbaf0: u16_at(b, 128),
            lbaf0_lbads: b[130],
            lbaf0_rp: b[131],
        }
    }

    pub fn encode(&self) -> (r: Vec<u8>)
        ensures
            r@ == self.spec_encode(),
            r@.len() == 4096,
    {
        let mut v: Vec<u8> = Vec::new();
        push_le64(&mut v, self.nsze);
        push_le64(&mut v, self.ncap);
        push_le64(&mut v, self.nuse);
        v.push(self.nsfeat);
        v.push(self.nlbaf);
        v.push(self.flbas);
        v.push(self.mc);
        v.push(self.dpc);
        v.push(self.dps);
        push_zeros(&mut v, 18);
        push_le128(&mut v, self.nvmcap);
        push_zeros(&mut v, 64);
        push_le16(&mut v, self.lbaf0);
        v.push(self.lbaf0_lbads);
        v.push(self.lbaf0_rp);
        push_zeros(&mut v, 3964);
        assert(v@ =~= self.spec_encode());
        v
    }
}

/// Decoding an encoded Identify Namespace structure gives back the structure.
pub proof fn lemma_identify_namespace_round_trip(r: AdminIdentifyNvmIdentifyNamespaceResponse)
    ensures
        AdminIdentifyNvmIdentifyNamespaceResponse::spec_decode(r.spec_encode()) == r,
{
    let b = r.spec_encode();
    let lo = (r.nvmcap & 0xffff_ffff_ffff_ffff) as u64;
    let hi = (r.nvmcap >> 64) as u64;
    lemma_le64_round_trip(r.nsze);
    lemma_le64_round_trip(r.ncap);
    lemma_le64_round_trip(r.nuse);
    lemma_le64_round_trip(lo);
    lemma_le64_round_trip(hi);
    lemma_le16_round_trip(r.lbaf0);
    assert(b.subrange(0, 8) =~= le64(r.nsze));
    assert(b.subrange(8, 16) =~= le64(r.ncap));
    assert(b.subrange(16, 24) =~= le64(r.nuse));
    assert(b.subrange(48, 56) =~= le64(lo));
    assert(b.subrange(56, 64) =~= le64(hi));
    assert(b.subrange(128, 130) =~= le16(r.lbaf0));
    lemma_u64_at_subrange(b, 0);
    lemma_u64_at_subrange(b, 8);
    lemma_u64_at_subrange(b, 16);
    lemma_u64_at_subrange(b, 48);
    lemma_u64_at_subrange(b, 56);
    assert(u16_at(b, 128) == u16_at(b.subrange(128, 130), 0));
    let cap = r.nvmcap;
    assert(((lo as u128) | ((hi as u128) << 64)) == cap) by (bit_vector)
        requires
            lo == (cap & 0xffff_ffff_ffff_ffff) as u64,
            hi == (cap >> 64) as u64,
    ;
    assert(AdminIdentifyNvmIdentifyNamespaceResponse::spec_decode(b) =~= r);
}

/// A 64-bit field read in place equals the field read from its own eight bytes.
pub proof fn lemma_u64_at_subrange(b: Seq<u8>, off: int)
    requires
        0 <= off,
        off + 8 <= b.len(),
    ensures
        u64_at(b, off) == u64_at(b.subrange(off, off + 8), 0),
{
}

/// One entry of the Supported Log Pages log page.
#[derive(Clone, Copy, Debug)]
pub struct LidSupportedAndEffectsDataStructure {
    pub flags: u8,
    pub lidsp: u16,
}

impl LidSupportedAndEffectsDataStructure {
    pub open spec fn spec_encode(self) -> Seq<u8> {
        seq![self.flags, 0u8] + le16(self.lidsp)
    }

    pub open spec fn spec_decode(b: Seq<u8>) -> Self {
        LidSupportedAndEffectsDataStructure { flags: b[0], lidsp: u16_at(b, 2) }
    }
}

/// Decoding an encoded LID entry gives back the entry.
pub proof fn lemma_lsae_round_trip(e: LidSupportedAndEffectsDataStructure)
    ensures
        LidSupportedAndEffectsDataStructure::spec_decode(e.spec_encode()) == e,
{
    lemma_le16_round_trip(e.lidsp);
    let b = e.spec_encode();
    assert(u16_at(b, 2) == u16_at(le16(e.lidsp), 0));
}

} // verus!
