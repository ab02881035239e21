//! NVMe-MI management commands: Read NVMe-MI Data Structure, NVM Subsystem
//! Health Status Poll, Controller Health Status Poll, Configuration Get and
//! Configuration Set.
use vstd::prelude::*;
use crate::health::{
    bit, bit_exec, ctemp_byte, ctemp_of, percentage_used, percentage_used_of, spare_percent,
    spare_percent_of, temp_in_range,
};
use crate::mi::{
    smbus_frequency_of, PcieLinkSpeed, ResponseStatus, SmbusFrequency, CCS_DEFINED,
};
use crate::model::{
    CommandEffect, Controller, ManagementEndpoint, ManagementEndpointControllerState, Port,
    PortId, PortType, PciePort, Subsystem, TwoWirePort,
};
use crate::reply::{Handled, Reply};
use crate::wire::{
    le16, le32, push_le16, push_le32, push_zeros, read_u16, read_u32, u16_at, u32_at, zeros,
    WireFlagSet,
};

verus! {

/// Every NVMe-MI data structure response: status, response data length,
/// then the data.
pub open spec fn ds_response(payload: Seq<u8>) -> Seq<u8> {
    seq![0u8] + le16(payload.len() as u16) + seq![0u8] + payload
}

/// NVM Subsystem Information.
pub open spec fn subsystem_information(s: &Subsystem) -> Seq<u8> {
    seq![(s.ports@.len() - 1) as u8, s.mi.mjr, s.mi.mnr, bit(s.caps.sre, 1)] + zeros(28)
}

pub open spec fn port_type_id(t: PortType) -> u8 {
    match t {
        PortType::Inactive => 0,
        PortType::Pcie(_) => 1,
        PortType::TwoWire(_) => 2,
    }
}

/// The eight bytes of Port Information that every port type shares.
pub open spec fn port_common(p: Port) -> Seq<u8> {
    seq![port_type_id(p.typ), (bit(p.caps.aems, 2) + bit(p.caps.ciaps, 1)) as u8] + le16(p.mmtus) + le32(
        p.mebs,
    )
}

/// PCIe port specific data.
pub open spec fn pcie_port_data(pp: PciePort, id: u8) -> Seq<u8> {
    seq![pp.mps.spec_id(), 0x3fu8, pp.cls.spec_id(), pp.mlw.spec_id(), pp.nlw.spec_id(), id]
        + zeros(18)
}

/// Two-wire port specific data.
pub open spec fn twowire_port_data(tw: TwoWirePort) -> Seq<u8> {
    seq![
        tw.cvpdaddr,
        tw.mvpdfreq.spec_id(),
        tw.cmeaddr,
        bit(tw.i3csprt, 0x80) | (tw.msmbfreq.spec_id() & 3),
        bit(tw.nvmebms, 1),
    ] + zeros(19)
}

/// Identifiers of the first `n` controllers that are at least `lo`.
pub open spec fn controller_ids_from(ctlrs: Seq<Controller>, n: int, lo: u16) -> Seq<u16>
    decreases n,
{
    if n <= 0 {
        seq![]
    } else {
        let prev = controller_ids_from(ctlrs, n - 1, lo);
        if ctlrs[n - 1].id.0 >= lo {
            prev.push(ctlrs[n - 1].id.0)
        } else {
            prev
        }
    }
}

/// Identifiers as consecutive little-endian 16-bit fields.
pub open spec fn le16_list(ids: Seq<u16>) -> Seq<u8>
    decreases ids.len(),
{
    if ids.len() == 0 {
        seq![]
    } else {
        le16_list(ids.drop_last()) + le16(ids.last())
    }
}

/// A controller list: the number of identifiers, then the identifiers.
pub open spec fn controller_list(ids: Seq<u16>) -> Seq<u8> {
    le16(ids.len() as u16) + le16_list(ids)
}

/// PCI routing identifier of a PCIe port: bus, device, function.
pub open spec fn routing_id(pp: PciePort) -> u16 {
    (pp.b << 8) | (pp.d << 4) | pp.f
}

/// Controller Information.
pub open spec fn controller_information(s: &Subsystem, c: &Controller, pp: PciePort) -> Seq<
    u8,
> {
    seq![c.port.0, 0u8, 0u8, 0u8, 0u8, 1u8] + le16(routing_id(pp)) + le16(s.info.pci_vid) + le16(
        s.info.pci_did,
    ) + le16(s.info.pci_svid) + le16(s.info.pci_sdid) + seq![pp.seg] + zeros(15)
}

/// Port Information of the port with identifier `portid`.
pub open spec fn port_information_reply(s: &Subsystem, portid: u8) -> Reply {
    if portid as int >= s.ports@.len() {
        Reply::Status(ResponseStatus::InvalidParameter)
    } else {
        let p = s.ports@[portid as int];
        match p.typ {
            PortType::Pcie(pp) => Reply::Body(
                ds_response(port_common(p) + pcie_port_data(pp, p.id.0)),
            ),
            PortType::TwoWire(tw) => Reply::Body(ds_response(port_common(p) + twowire_port_data(tw))),
            PortType::Inactive => Reply::Status(ResponseStatus::InternalError),
        }
    }
}

/// Controller Information of the controller with identifier `ctrlid`; its
/// port must be a PCIe port.
pub open spec fn controller_information_reply(s: &Subsystem, ctrlid: u16) -> Reply {
    if ctrlid as int >= s.ctlrs@.len() {
        Reply::Status(ResponseStatus::InvalidParameter)
    } else {
        let c = s.ctlrs@[ctrlid as int];
        match s.ports@[c.port.0 as int].typ {
            PortType::Pcie(pp) => Reply::Body(ds_response(controller_information(s, &c, pp))),
            _ => Reply::Refuse,
        }
    }
}

/// Read NVMe-MI Data Structure: `body` is `[ctrlid:16][portid][dtyp][iocsi]
/// [reserved:24]`.
pub open spec fn read_data_structure_reply(s: &Subsystem, body: Seq<u8>) -> Reply {
    if body.len() < 8 || body[3] > 5 {
        Reply::Status(ResponseStatus::InvalidCommandSize)
    } else if body.len() > 8 {
        Reply::Status(ResponseStatus::InvalidCommandInputDataSize)
    } else {
        let ctrlid = u16_at(body, 0);
        let portid = body[2];
        let dtyp = body[3];
        if dtyp == 0 {
            if s.ports@.len() == 0 {
                Reply::Refuse
            } else {
                Reply::Body(ds_response(subsystem_information(s)))
            }
        } else if dtyp == 1 {
            port_information_reply(s, portid)
        } else if dtyp == 2 {
            Reply::Body(
                ds_response(
                    controller_list(
                        controller_ids_from(s.ctlrs@, s.ctlrs@.len() as int, ctrlid),
                    ),
                ),
            )
        } else if dtyp == 3 {
            controller_information_reply(s, ctrlid)
        } else {
            Reply::Status(ResponseStatus::InternalError)
        }
    }
}

fn push_ds_header(v: &mut Vec<u8>, rdl: u16)
    ensures
        final(v)@ == old(v)@ + seq![0u8] + le16(rdl) + seq![0u8],
{
    v.push(0);
    push_le16(v, rdl);
    v.push(0);
}

fn port_common_bytes(p: &Port) -> (r: Vec<u8>)
    ensures
        r@ == port_common(*p),
{
    let mut v: Vec<u8> = Vec::new();
    let typ: u8 = match &p.typ {
        PortType::Inactive => 0,
        PortType::Pcie(_) => 1,
        PortType::TwoWire(_) => 2,
    };
    v.push(typ);
    v.push(bit_exec(p.caps.aems, 2) + bit_exec(p.caps.ciaps, 1));
    push_le16(&mut v, p.mmtus);
    push_le32(&mut v, p.mebs);
    assert(v@ =~= port_common(*p));
    v
}

pub fn controller_list_bytes(s: &Subsystem, lo: u16) -> (r: Vec<u8>)
    requires
        s.wf(),
    ensures
        r@ == controller_list(controller_ids_from(s.ctlrs@, s.ctlrs@.len() as int, lo)),
        r@.len() <= 6,
{
    let mut list: Vec<u8> = Vec::new();
    let mut count: u16 = 0;
    let mut i: usize = 0;
    while i < s.ctlrs.len()
        invariant
            s.wf(),
            i <= s.ctlrs@.len(),
            count as int == controller_ids_from(s.ctlrs@, i as int, lo).len(),
            count <= i,
            list@ == le16_list(controller_ids_from(s.ctlrs@, i as int, lo)),
            list@.len() == 2 * count,
        decreases s.ctlrs@.len() - i,
    {
        let id = s.ctlrs[i].id.0;
        if id >= lo {
            let ghost prev = controller_ids_from(s.ctlrs@, i as int, lo);
            push_le16(&mut list, id);
            count = count + 1;
            assert(prev.push(id).drop_last() =~= prev);
        }
        i = i + 1;
    }
    let mut v: Vec<u8> = Vec::new();
    push_le16(&mut v, count);
    crate::wire::push_bytes(&mut v, list.as_slice());
    v
}

fn pcie_port_bytes(pp: &PciePort, id: u8) -> (r: Vec<u8>)
    ensures
        r@ == pcie_port_data(*pp, id),
{
    let mut v: Vec<u8> = Vec::new();
    v.push(pp.mps.id());
    v.push(0x3f);
    v.push(pp.cls.id());
    v.push(pp.mlw.id());
    v.push(pp.nlw.id());
    v.push(id);
    push_zeros(&mut v, 18);
    assert(v@ =~= pcie_port_data(*pp, id));
    v
}

fn twowire_port_bytes(tw: &TwoWirePort) -> (r: Vec<u8>)
    ensures
        r@ == twowire_port_data(*tw),
{
    let mut v: Vec<u8> = Vec::new();
    v.push(tw.cvpdaddr);
    v.push(tw.mvpdfreq.id());
    v.push(tw.cmeaddr);
    v.push(bit_exec(tw.i3csprt, 0x80) | (tw.msmbfreq.id() & 3));
    v.push(bit_exec(tw.nvmebms, 1));
    push_zeros(&mut v, 19);
    assert(v@ =~= twowire_port_data(*tw));
    v
}

fn port_information(s: &Subsystem, portid: u8) -> (r: Handled)
    requires
        s.wf(),
    ensures
        r@ == port_information_reply(s, portid),
{
    if portid as usize >= s.ports.len() {
        return Handled::Status(ResponseStatus::InvalidParameter);
    }
    let p = &s.ports[portid as usize];
    let common = port_common_bytes(p);
    let data = match &p.typ {
        PortType::Pcie(pp) => pcie_port_bytes(pp, p.id.0),
        PortType::TwoWire(tw) => twowire_port_bytes(tw),
        PortType::Inactive => {
            return Handled::Status(ResponseStatus::InternalError);
        },
    };
    let mut v: Vec<u8> = Vec::new();
    push_ds_header(&mut v, 32);
    crate::wire::push_bytes(&mut v, common.as_slice());
    crate::wire::push_bytes(&mut v, data.as_slice());
    assert(v@ =~= ds_response(common@ + data@));
    Handled::Body(v)
}

fn controller_information_handler(s: &Subsystem, ctrlid: u16) -> (r: Handled)
    requires
        s.wf(),
    ensures
        r@ == controller_information_reply(s, ctrlid),
{
    let mut v: Vec<u8> = Vec::new();
    if ctrlid as usize >= s.ctlrs.len() {
        return Handled::Status(ResponseStatus::InvalidParameter);
    }
    let c = &s.ctlrs[ctrlid as usize];
    match &s.ports[c.port.0 as usize].typ {
        PortType::Pcie(pp) => {
            push_ds_header(&mut v, 32);
            v.push(c.port.0);
            push_zeros(&mut v, 4);
            v.push(1);
            push_le16(&mut v, (pp.b << 8) | (pp.d << 4) | pp.f);
            push_le16(&mut v, s.info.pci_vid);
            push_le16(&mut v, s.info.pci_did);
            push_le16(&mut v, s.info.pci_svid);
            push_le16(&mut v, s.info.pci_sdid);
            v.push(pp.seg);
            push_zeros(&mut v, 15);
            assert(v@ =~= ds_response(controller_information(s, c, *pp)));
            Handled::Body(v)
        },
        _ => Handled::Refuse,
    }
}

pub fn read_data_structure(s: &Subsystem, body: &[u8]) -> (r: Handled)
    requires
        s.wf(),
    ensures
        r@ == read_data_structure_reply(s, body@),
{
    if body.len() < 8 || body[3] > 5 {
        return Handled::Status(ResponseStatus::InvalidCommandSize);
    }
    if body.len() > 8 {
        return Handled::Status(ResponseStatus::InvalidCommandInputDataSize);
    }
    let ctrlid = read_u16(body, 0);
    let portid = body[2];
    let dtyp = body[3];
    let mut v: Vec<u8> = Vec::new();
    if dtyp == 0 {
        if s.ports.len() == 0 {
            return Handled::Refuse;
        }
        push_ds_header(&mut v, 32);
        v.push((s.ports.len() - 1) as u8);
        v.push(s.mi.mjr);
        v.push(s.mi.mnr);
        v.push(bit_exec(s.caps.sre, 1));
        push_zeros(&mut v, 28);
        assert(v@ =~= ds_response(subsystem_information(s)));
        Handled::Body(v)
    } else if dtyp == 1 {
        port_information(s, portid)
    } else if dtyp == 2 {
        let cl = controller_list_bytes(s, ctrlid);
        push_ds_header(&mut v, cl.len() as u16);
        crate::wire::push_bytes(&mut v, cl.as_slice());
        Handled::Body(v)
    } else if dtyp == 3 {
        controller_information_handler(s, ctrlid)
    } else {
        Handled::Status(ResponseStatus::InternalError)
    }
}

/// NVM subsystem status (NSS) of the health data structure.
pub open spec fn nss_byte(s: &Subsystem, pp: PciePort) -> u8 {
    (bit(s.health.nss.atf, 0x80) + bit(s.health.nss.sfm, 0x40) + bit(s.health.nss.df, 0x20) + bit(
        s.health.nss.rnr,
        0x10,
    ) + bit(pp.cls != PcieLinkSpeed::Inactive, 0x08)) as u8
}

/// SMART warnings (SW): each bit is set while its condition is nominal.
pub open spec fn sw_byte(s: &Subsystem, c: &Controller) -> u8 {
    (0x20 + 0x10 + bit(!c.ro, 0x08) + bit(!s.health.nss.rd, 0x04) + bit(!temp_in_range(c), 0x02)
        + bit(!(spare_percent(c) < c.spare_range.lower), 0x01)) as u8
}

/// NVM Subsystem Health Status Poll: `body` is `[dword0:32][dword1:32]`.
/// Health is derived from the first controller and its PCIe port.
pub open spec fn health_status_poll_reply(s: &Subsystem, ccsf: u16, body: Seq<u8>) -> Reply {
    if body.len() != 8 {
        Reply::Status(ResponseStatus::InvalidCommandSize)
    } else if s.ctlrs@.len() == 0 {
        Reply::Refuse
    } else {
        let c = s.ctlrs@[0];
        match s.ports@[c.port.0 as int].typ {
            PortType::Pcie(pp) => Reply::Body(
                seq![0u8, 0u8, 0u8, 0u8] + seq![
                    nss_byte(s, pp),
                    sw_byte(s, &c),
                    ctemp_byte(&c),
                    percentage_used(&c),
                ] + le16(ccsf) + seq![0u8, 0u8],
            ),
            _ => Reply::Refuse,
        }
    }
}

/// Whether a health status poll asks for the composite flags to be cleared.
pub open spec fn clear_status_requested(body: Seq<u8>) -> bool {
    u32_at(body, 4) & 0x8000_0000 != 0
}

pub fn health_status_poll(mep: &mut ManagementEndpoint, s: &Subsystem, body: &[u8]) -> (r: Handled)
    requires
        s.wf(),
        old(mep).wf(),
    ensures
        r@ == health_status_poll_reply(s, old(mep).ccsf.bits, body@),
        final(mep).wf(),
        final(mep).mecss@ == old(mep).mecss@,
        final(mep).port == old(mep).port,
        final(mep).ccsf.bits == if r@ is Body && clear_status_requested(body@) {
            0
        } else {
            old(mep).ccsf.bits
        },
{
    if body.len() != 8 {
        return Handled::Status(ResponseStatus::InvalidCommandSize);
    }
    if s.ctlrs.len() == 0 {
        return Handled::Refuse;
    }
    let c = &s.ctlrs[0];
    match &s.ports[c.port.0 as usize].typ {
        PortType::Pcie(pp) => {
            let mut v: Vec<u8> = Vec::new();
            push_zeros(&mut v, 4);
            v.push(
                bit_exec(s.health.nss.atf, 0x80) + bit_exec(s.health.nss.sfm, 0x40) + bit_exec(
                    s.health.nss.df,
                    0x20,
                ) + bit_exec(s.health.nss.rnr, 0x10) + bit_exec(
                    pp.cls != PcieLinkSpeed::Inactive,
                    0x08,
                ),
            );
            let in_range = c.temp_range.lower <= c.temp && c.temp <= c.temp_range.upper;
            v.push(
                0x20 + 0x10 + bit_exec(!c.ro, 0x08) + bit_exec(!s.health.nss.rd, 0x04) + bit_exec(
                    !in_range,
                    0x02,
                ) + bit_exec(!(spare_percent_of(c) < c.spare_range.lower), 0x01),
            );
            v.push(ctemp_of(c));
            v.push(percentage_used_of(c));
            push_le16(&mut v, mep.ccsf.bits);
            push_zeros(&mut v, 2);
            assert(v@ =~= seq![0u8, 0u8, 0u8, 0u8] + seq![
                nss_byte(s, *pp),
                sw_byte(s, c),
                ctemp_byte(c),
                percentage_used(c),
            ] + le16(old(mep).ccsf.bits) + seq![0u8, 0u8]);
            let dword1 = read_u32(body, 4);
            if dword1 & 0x8000_0000 != 0 {
                mep.ccsf.bits = 0;
            }
            Handled::Body(v)
        },
        _ => Handled::Refuse,
    }
}

/// Critical warning (CWARN) of a controller health data structure.
pub open spec fn cwarn_byte(c: &Controller) -> u8 {
    (bit(c.spare < c.spare_range.lower, 0x01) + bit(!temp_in_range(c), 0x02) + bit(c.ro, 0x08))
        as u8
}

/// CSTS as reported by NVMe-MI; the bits without a counterpart there (PP,
/// ST) are left out.
pub open spec fn mi_csts(csts: u32) -> u16 {
    (csts & 0x1f) as u16
}

/// One controller health data structure.
pub open spec fn health_entry(c: &Controller, chsc: u16) -> Seq<u8> {
    le16(c.id.0) + le16(mi_csts(c.csts)) + le16(c.temp) + seq![
        percentage_used(c),
        spare_percent(c) as u8,
        cwarn_byte(c),
    ] + le16(chsc) + zeros(5)
}

/// The health data structures of the first `n` controllers.
pub open spec fn health_entries(
    ctlrs: Seq<Controller>,
    mecss: Seq<ManagementEndpointControllerState>,
    n: int,
) -> Seq<u8>
    decreases n,
{
    if n <= 0 {
        seq![]
    } else {
        health_entries(ctlrs, mecss, n - 1) + health_entry(&ctlrs[n - 1], mecss[n - 1].chscf)
    }
}

/// Controller function and reporting flags: INCF, INCPF, INCVF and ALL.
pub const FUNCTION_FLAGS: u32 = 0x87;
pub const FUNCTION_ALL: u32 = 0x80;
pub const FUNCTION_SELECTORS: u32 = 0x07;

/// Controller property flags: CSTS, CTEMP, PLDU, SPARE, CWARN and CCF.
pub const PROPERTY_FLAGS: u32 = 0x8000_001f;
pub const PROPERTY_CCF: u32 = 0x8000_0000;

/// Controller Health Status Poll: `body` is `[sctlid:16][maxrent][functions]
/// [properties:32]`. Only a poll of all controllers from the first one is
/// supported.
pub open spec fn controller_health_poll_reply(
    s: &Subsystem,
    mecss: Seq<ManagementEndpointControllerState>,
    body: Seq<u8>,
) -> Reply {
    if body.len() < 8 || (body[3] as u32) & !FUNCTION_FLAGS != 0 || u32_at(body, 4)
        & !PROPERTY_FLAGS != 0 || body.len() > 8 {
        Reply::Status(ResponseStatus::InvalidCommandSize)
    } else if (body[3] as u32) & FUNCTION_ALL != FUNCTION_ALL || (body[3] as u32)
        & FUNCTION_SELECTORS == FUNCTION_SELECTORS || body[2] < 2 || u16_at(body, 0) > 0 {
        Reply::Status(ResponseStatus::InternalError)
    } else {
        Reply::Body(
            seq![0u8, 0u8, 0u8, s.ctlrs@.len() as u8] + health_entries(
                s.ctlrs@,
                mecss,
                s.ctlrs@.len() as int,
            ),
        )
    }
}

/// Whether a controller health status poll asks for the per-controller
/// change flags to be cleared.
pub open spec fn clear_changed_requested(body: Seq<u8>) -> bool {
    u32_at(body, 4) & PROPERTY_CCF == PROPERTY_CCF
}

pub fn controller_health_poll(mep: &mut ManagementEndpoint, s: &Subsystem, body: &[u8]) -> (r:
    Handled)
    requires
        s.wf(),
        old(mep).wf(),
    ensures
        r@ == controller_health_poll_reply(s, old(mep).mecss@, body@),
        final(mep).wf(),
        final(mep).ccsf == old(mep).ccsf,
        final(mep).port == old(mep).port,
        forall|i: int|
            0 <= i < final(mep).mecss@.len() ==> {
                &&& (#[trigger] final(mep).mecss@[i]).cc == old(mep).mecss@[i].cc
                &&& final(mep).mecss@[i].csts == old(mep).mecss@[i].csts
                &&& final(mep).mecss@[i].chscf == if r@ is Body && clear_changed_requested(body@)
                    && i < s.ctlrs@.len() {
                    0
                } else {
                    old(mep).mecss@[i].chscf
                }
            },
{
    if body.len() < 8 {
        return Handled::Status(ResponseStatus::InvalidCommandSize);
    }
    let functions = match WireFlagSet::from_bits(body[3] as u32, FUNCTION_FLAGS) {
        Some(f) => f,
        None => {
            return Handled::Status(ResponseStatus::InvalidCommandSize);
        },
    };
    let properties = match WireFlagSet::from_bits(read_u32(body, 4), PROPERTY_FLAGS) {
        Some(p) => p,
        None => {
            return Handled::Status(ResponseStatus::InvalidCommandSize);
        },
    };
    if body.len() > 8 {
        return Handled::Status(ResponseStatus::InvalidCommandSize);
    }
    let sctlid = read_u16(body, 0);
    if !functions.contains(FUNCTION_ALL) || functions.contains(FUNCTION_SELECTORS) || body[2] < 2
        || sctlid > 0 {
        return Handled::Status(ResponseStatus::InternalError);
    }
    let clear = properties.contains(PROPERTY_CCF);
    let mut v: Vec<u8> = Vec::new();
    push_zeros(&mut v, 3);
    v.push(s.ctlrs.len() as u8);
    let ghost head = v@;
    let mut i: usize = 0;
    while i < s.ctlrs.len()
        invariant
            s.wf(),
            mep.wf(),
            mep.ccsf == old(mep).ccsf,
            mep.port == old(mep).port,
            i <= s.ctlrs@.len(),
            v@ == head + health_entries(s.ctlrs@, old(mep).mecss@, i as int),
            forall|k: int|
                0 <= k < mep.mecss@.len() ==> {
                    &&& (#[trigger] mep.mecss@[k]).cc == old(mep).mecss@[k].cc
                    &&& mep.mecss@[k].csts == old(mep).mecss@[k].csts
                    &&& mep.mecss@[k].chscf == if clear && k < i {
                        0
                    } else {
                        old(mep).mecss@[k].chscf
                    }
                },
        decreases s.ctlrs@.len() - i,
    {
        let c = &s.ctlrs[i];
        let m = mep.mecss[i];
        push_le16(&mut v, c.id.0);
        push_le16(&mut v, (c.csts & 0x1f) as u16);
        push_le16(&mut v, c.temp);
        v.push(percentage_used_of(c));
        v.push(spare_percent_of(c) as u8);
        let in_range = c.temp_range.lower <= c.temp && c.temp <= c.temp_range.upper;
        v.push(
            bit_exec(c.spare < c.spare_range.lower, 0x01) + bit_exec(!in_range, 0x02) + bit_exec(
                c.ro,
                0x08,
            ),
        );
        push_le16(&mut v, m.chscf);
        push_zeros(&mut v, 5);
        assert(v@ =~= head + health_entries(s.ctlrs@, old(mep).mecss@, i as int + 1));
        if clear {
            mep.mecss[i] = ManagementEndpointControllerState { cc: m.cc, csts: m.csts, chscf: 0 };
        }
        i = i + 1;
    }
    assert(head =~= seq![0u8, 0u8, 0u8, s.ctlrs@.len() as u8]);
    Handled::Body(v)
}

/// The common parse of Configuration Get and Set: the identifier must be
/// known, and the identifiers that carry data need exactly seven bytes of
/// it. `None` when the parse succeeds.
pub open spec fn configuration_parse_error(body: Seq<u8>) -> Option<ResponseStatus> {
    if body.len() < 1 || body[0] > 4 {
        Some(ResponseStatus::InvalidCommandSize)
    } else if body[0] == 0 {
        Some(ResponseStatus::InvalidParameter)
    } else if body[0] == 4 {
        Some(ResponseStatus::InternalError)
    } else if body.len() < 8 || (body[0] == 1 && body[1] > 3) || body.len() > 8 {
        Some(ResponseStatus::InvalidCommandSize)
    } else {
        None
    }
}

fn configuration_parse(body: &[u8]) -> (r: Option<ResponseStatus>)
    ensures
        r == configuration_parse_error(body@),
{
    if body.len() < 1 || body[0] > 4 {
        Some(ResponseStatus::InvalidCommandSize)
    } else if body[0] == 0 {
        Some(ResponseStatus::InvalidParameter)
    } else if body[0] == 4 {
        Some(ResponseStatus::InternalError)
    } else if body.len() < 8 || (body[0] == 1 && body[1] > 3) || body.len() > 8 {
        Some(ResponseStatus::InvalidCommandSize)
    } else {
        None
    }
}

/// Configuration Get: `body` is the configuration identifier followed by
/// its DWORD 0 tail and DWORD 1.
pub open spec fn configuration_get_reply(ports: Seq<Port>, body: Seq<u8>) -> Reply {
    match configuration_parse_error(body) {
        Some(e) => Reply::Status(e),
        None => {
            let portid = body[3];
            if body[0] == 2 {
                Reply::Body(zeros(4))
            } else if portid as int >= ports.len() {
                Reply::Status(ResponseStatus::InvalidParameter)
            } else if body[0] == 1 {
                match ports[portid as int].typ {
                    PortType::TwoWire(tw) => Reply::Body(
                        seq![0u8, tw.smbfreq.spec_id(), 0u8, 0u8],
                    ),
                    _ => Reply::Status(ResponseStatus::InvalidParameter),
                }
            } else {
                Reply::Body(seq![0u8] + le16(ports[portid as int].mtus) + seq![0u8])
            }
        },
    }
}

pub fn configuration_get(s: &Subsystem, body: &[u8]) -> (r: Handled)
    requires
        s.wf(),
    ensures
        r@ == configuration_get_reply(s.ports@, body@),
{
    match configuration_parse(body) {
        Some(e) => Handled::Status(e),
        None => {
            let portid = body[3];
            let mut v: Vec<u8> = Vec::new();
            if body[0] == 2 {
                push_zeros(&mut v, 4);
                return Handled::Body(v);
            }
            if portid as usize >= s.ports.len() {
                return Handled::Status(ResponseStatus::InvalidParameter);
            }
            let p = &s.ports[portid as usize];
            if body[0] == 1 {
                match &p.typ {
                    PortType::TwoWire(tw) => {
                        v.push(0);
                        v.push(tw.smbfreq.id());
                        v.push(0);
                        v.push(0);
                        assert(v@ =~= seq![0u8, tw.smbfreq.spec_id(), 0u8, 0u8]);
                        Handled::Body(v)
                    },
                    _ => Handled::Status(ResponseStatus::InvalidParameter),
                }
            } else {
                v.push(0);
                push_le16(&mut v, p.mtus);
                v.push(0);
                assert(v@ =~= seq![0u8] + le16(p.mtus) + seq![0u8]);
                Handled::Body(v)
            }
        },
    }
}

/// Configuration Set: the port settings are changed only once the
/// application has applied the effect (see `apply_effect`).
pub open spec fn configuration_set_reply(ports: Seq<Port>, body: Seq<u8>) -> Reply {
    match configuration_parse_error(body) {
        Some(e) => Reply::Status(e),
        None => {
            let portid = body[3];
            if body[0] == 2 {
                if u32_at(body, 4) & !CCS_DEFINED != 0 {
                    Reply::Status(ResponseStatus::InvalidParameter)
                } else {
                    Reply::Body(zeros(4))
                }
            } else if portid as int >= ports.len() {
                Reply::Status(ResponseStatus::InvalidParameter)
            } else if body[0] == 1 {
                match ports[portid as int].typ {
                    PortType::TwoWire(tw) => if body[1] > tw.msmbfreq.spec_id() {
                        Reply::Status(ResponseStatus::InvalidParameter)
                    } else {
                        Reply::Effect(
                            CommandEffect::SetSmbusFreq {
                                port_id: PortId(portid),
                                freq: smbus_frequency_of(body[1])->Some_0,
                            },
                        )
                    },
                    _ => Reply::Status(ResponseStatus::InvalidParameter),
                }
            } else {
                Reply::Effect(
                    CommandEffect::SetMtu {
                        port_id: PortId(portid),
                        mtus: u16_at(body, 4) as usize,
                    },
                )
            }
        },
    }
}

/// The composite controller status flags after a Configuration Set: a
/// Health Status Change clears the flags its mask names.
pub open spec fn configuration_set_ccsf(ccsf: u16, body: Seq<u8>) -> u16 {
    if configuration_parse_error(body) is None && body[0] == 2 && u32_at(body, 4)
        & !CCS_DEFINED == 0 {
        ccsf & !(u32_at(body, 4) as u16)
    } else {
        ccsf
    }
}

pub fn configuration_set(mep: &mut ManagementEndpoint, s: &Subsystem, body: &[u8]) -> (r: Handled)
    requires
        s.wf(),
        old(mep).wf(),
    ensures
        r@ == configuration_set_reply(s.ports@, body@),
        final(mep).wf(),
        final(mep).mecss@ == old(mep).mecss@,
        final(mep).port == old(mep).port,
        final(mep).ccsf.bits == configuration_set_ccsf(old(mep).ccsf.bits, body@),
{
    match configuration_parse(body) {
        Some(e) => Handled::Status(e),
        None => {
            let portid = body[3];
            if body[0] == 2 {
                let mask = match WireFlagSet::from_bits(read_u32(body, 4), CCS_DEFINED) {
                    Some(m) => m,
                    None => {
                        return Handled::Status(ResponseStatus::InvalidParameter);
                    },
                };
                mep.ccsf.bits = mep.ccsf.bits & !(mask.bits as u16);
                let mut v: Vec<u8> = Vec::new();
                push_zeros(&mut v, 4);
                return Handled::Body(v);
            }
            if portid as usize >= s.ports.len() {
                return Handled::Status(ResponseStatus::InvalidParameter);
            }
            let p = &s.ports[portid as usize];
            if body[0] == 1 {
                match &p.typ {
                    PortType::TwoWire(tw) => {
                        if body[1] > tw.msmbfreq.id() {
                            return Handled::Status(ResponseStatus::InvalidParameter);
                        }
                        match SmbusFrequency::try_from_u8(body[1]) {
                            Some(freq) => Handled::Effect(
                                CommandEffect::SetSmbusFreq { port_id: PortId(portid), freq },
                            ),
                            None => Handled::Status(ResponseStatus::InvalidCommandSize),
                        }
                    },
                    _ => Handled::Status(ResponseStatus::InvalidParameter),
                }
            } else {
                let mtus = read_u16(body, 4);
                Handled::Effect(
                    CommandEffect::SetMtu { port_id: PortId(portid), mtus: mtus as usize },
                )
            }
        },
    }
}

/// Whether an effect names a port that can take it.
pub open spec fn effect_applicable(ports: Seq<Port>, e: CommandEffect) -> bool {
    match e {
        CommandEffect::SetSmbusFreq { port_id, freq } => (port_id.0 as int) < ports.len()
            && ports[port_id.0 as int].typ is TwoWire,
        CommandEffect::SetMtu { port_id, mtus } => (port_id.0 as int) < ports.len() && mtus
            <= 0xffff,
    }
}

/// The ports after the application applied an effect.
pub open spec fn apply_effect(ports: Seq<Port>, e: CommandEffect) -> Seq<Port> {
    match e {
        CommandEffect::SetSmbusFreq { port_id, freq } => {
            let p = ports[port_id.0 as int];
            ports.update(
                port_id.0 as int,
                Port {
                    typ: PortType::TwoWire(
                        TwoWirePort { smbfreq: freq, ..p.typ->TwoWire_0 },
                    ),
                    ..p
                },
            )
        },
        CommandEffect::SetMtu { port_id, mtus } => {
            let p = ports[port_id.0 as int];
            ports.update(port_id.0 as int, Port { mtus: mtus as u16, ..p })
        },
    }
}

/// Records an effect that the application applied.
pub fn commit_effect(s: &mut Subsystem, e: &CommandEffect) -> (ok: bool)
    requires
        old(s).wf(),
    ensures
        final(s).wf(),
        ok == effect_applicable(old(s).ports@, *e),
        ok ==> final(s).ports@ == apply_effect(old(s).ports@, *e),
        !ok ==> final(s).ports@ == old(s).ports@,
        final(s).ctlrs@ == old(s).ctlrs@,
        final(s).nss@ == old(s).nss@,
        final(s).nsids == old(s).nsids,
        final(s).info == old(s).info,
{
    match e {
        CommandEffect::SetSmbusFreq { port_id, freq } => {
            let i = port_id.0 as usize;
            if i >= s.ports.len() {
                return false;
            }
            let p = &mut s.ports[i];
            match p.typ {
                PortType::TwoWire(tw) => {
                    let mut t = tw;
                    t.smbfreq = *freq;
                    p.typ = PortType::TwoWire(t);
                    true
                },
                _ => false,
            }
        },
        CommandEffect::SetMtu { port_id, mtus } => {
            let i = port_id.0 as usize;
            if i >= s.ports.len() || *mtus > 0xffff {
                return false;
            }
            let p = &mut s.ports[i];
            p.mtus = *mtus as u16;
            true
        },
    }
}

} // verus!
