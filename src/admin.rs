//! NVMe admin commands tunnelled through NVMe-MI: the constrained-response
//! window, Identify, Get Log Page, Namespace Management and Namespace
//! Attachment, and the admin command dispatcher with its prohibited set.
use vstd::prelude::*;
use vstd::string::StringSliceAdditionalSpecFns;
use vstd::arithmetic::power2::{pow2, lemma_pow2_unfold, lemma_pow2_strictly_increases, lemma2_to64};
use crate::health::{
    bit, bit_exec, percentage_used, percentage_used_of, spare_percent, spare_percent_of,
    temp_in_range,
};
use crate::management::{controller_ids_from, controller_list};
use crate::mi::ResponseStatus;
use crate::model::{
    created_namespace, detached, namespace_position, same_but_attachments, swap_removed,
    Controller, ControllerError, ControllerId, ControllerType, Namespace, NamespaceId,
    NamespaceIdentifierType, PortType, Subsystem, MAX_NAMESPACES, NSID_BROADCAST,
};
use crate::nvme::{
    admin_response_header, cqe_dw3, cqe_dw3_exec, identify_namespace_skeleton, lid_of,
    push_admin_response_header, AdminGetLogPageLidRequestType,
    AdminIdentifyNvmIdentifyNamespaceResponse, LPA_LPEDS, LPA_SMARTS, LSAE_IOS, SCT_COMMAND_SPECIFIC,
    SCT_GENERIC, SC_CONTROLLER_LIST_INVALID, SC_INVALID_FIELD_IN_COMMAND,
    SC_NAMESPACE_ALREADY_ATTACHED, SC_NAMESPACE_ATTACHMENT_LIMIT_EXCEEDED,
    SC_NAMESPACE_IDENTIFIER_UNAVAILABLE, SC_NAMESPACE_NOT_ATTACHED, SC_SUCCESSFUL_COMPLETION,
};
use crate::reply::{Handled, Reply};
use crate::wire::{
    fixed_str, le16, le32, push_bytes, push_le16, push_le32, push_zeros, read_u16, read_u32,
    read_u64, u16_at, u32_at, u64_at, zeros, WireString,
};

verus! {

/// The largest response data length an admin command may ask for.
pub const MAX_DLEN: u32 = 4096;

/// Length of the admin command body that follows the admin header: the
/// submission queue entry from NSID on.
pub const SQE_LEN: usize = 60;

/// Whether `[dofst, dofst + dlen)` is a window that an admin response of `n`
/// bytes may be constrained to: dword aligned, non-empty, at most 4096
/// bytes, and inside the response.
pub open spec fn window_valid(dofst: u32, dlen: u32, n: int) -> bool {
    &&& dofst % 4 == 0
    &&& (dofst as int) < n
    &&& dlen % 4 == 0
    &&& dlen <= MAX_DLEN
    &&& (dlen as int) <= n
    &&& (dofst as int) <= n - dlen
    &&& dlen != 0
}

/// Constrains an admin response body to the window the request names.
pub fn admin_constrain_body(dofst: u32, dlen: u32, body: &[u8]) -> (r: Result<
    Vec<u8>,
    ResponseStatus,
>)
    ensures
        window_valid(dofst, dlen, body@.len() as int) ==> r is Ok && r->Ok_0@ == body@.subrange(
            dofst as int,
            dofst + dlen,
        ),
        !window_valid(dofst, dlen, body@.len() as int) ==> r == Err::<Vec<u8>, ResponseStatus>(
            ResponseStatus::InvalidParameter,
        ),
        r is Ok ==> r->Ok_0@.len() == dlen,
{
    if dofst % 4 != 0 {
        return Err(ResponseStatus::InvalidParameter);
    }
    let off = dofst as usize;
    let len = dlen as usize;
    if off >= body.len() {
        return Err(ResponseStatus::InvalidParameter);
    }
    if len % 4 != 0 {
        return Err(ResponseStatus::InvalidParameter);
    }
    if dlen > MAX_DLEN {
        return Err(ResponseStatus::InvalidParameter);
    }
    if len > body.len() || body.len() - len < off {
        return Err(ResponseStatus::InvalidParameter);
    }
    if len == 0 {
        return Err(ResponseStatus::InvalidParameter);
    }
    let mut out: Vec<u8> = Vec::new();
    push_bytes(&mut out, vstd::slice::slice_subrange(body, off, off + len));
    Ok(out)
}

/// A successful admin response: header with a successful completion, then
/// the constrained data.
pub open spec fn admin_success(data: Seq<u8>) -> Seq<u8> {
    admin_response_header(0, cqe_dw3(SCT_GENERIC, SC_SUCCESSFUL_COMPLETION, false)) + data
}

/// An admin response that completes with Invalid Field in Command.
pub open spec fn admin_invalid_field() -> Seq<u8> {
    admin_response_header(0, cqe_dw3(SCT_GENERIC, SC_INVALID_FIELD_IN_COMMAND, true))
}

/// The reply to an admin command whose full response data is `data`.
pub open spec fn constrained_reply(dofst: u32, dlen: u32, data: Seq<u8>) -> Reply {
    if window_valid(dofst, dlen, data.len() as int) {
        Reply::Body(admin_success(data.subrange(dofst as int, dofst + dlen)))
    } else {
        Reply::Status(ResponseStatus::InvalidParameter)
    }
}

fn send_constrained(dofst: u32, dlen: u32, data: &Vec<u8>) -> (r: Handled)
    ensures
        r@ == constrained_reply(dofst, dlen, data@),
{
    match admin_constrain_body(dofst, dlen, data.as_slice()) {
        Ok(w) => {
            let mut v: Vec<u8> = Vec::new();
            push_admin_response_header(
                &mut v,
                0,
                cqe_dw3_exec(SCT_GENERIC, SC_SUCCESSFUL_COMPLETION, false),
            );
            push_bytes(&mut v, w.as_slice());
            Handled::Body(v)
        },
        Err(e) => Handled::Status(e),
    }
}

fn invalid_field() -> (r: Handled)
    ensures
        r@ == Reply::Body(admin_invalid_field()),
{
    let mut v: Vec<u8> = Vec::new();
    push_admin_response_header(&mut v, 0, cqe_dw3_exec(SCT_GENERIC, SC_INVALID_FIELD_IN_COMMAND, true));
    Handled::Body(v)
}

/// `data` padded with zeros to 4096 bytes.
pub open spec fn pad4k(data: Seq<u8>) -> Seq<u8> {
    data + zeros((4096 - data.len()) as nat)
}

/// Whether any controller has the namespace attached.
pub open spec fn attached_anywhere(s: &Subsystem, nsid: u32) -> bool {
    exists|c: int| 0 <= c < s.ctlrs@.len() && s.ctlrs@[c].is_attached(nsid)
}

/// The Identify Namespace structure of an attached namespace.
pub open spec fn namespace_identify(ns: &Namespace) -> AdminIdentifyNvmIdentifyNamespaceResponse {
    AdminIdentifyNvmIdentifyNamespaceResponse {
        nsze: ns.size,
        ncap: ns.capacity,
        nuse: ns.used,
        nsfeat: if ns.size == ns.capacity {
            1
        } else {
            0
        },
        nlbaf: 0,
        flbas: 0,
        mc: 0,
        dpc: 0,
        dps: 0,
        nvmcap: (pow2(ns.block_order as nat) * ns.size) as u128,
        lbaf0: 0,
        lbaf0_lbads: ns.block_order,
        lbaf0_rp: 0,
    }
}

/// Identify with CNS 0: the namespace is looked up by position `nsid - 1`.
pub open spec fn identify_namespace_data(s: &Subsystem, nsid: u32) -> Result<
    Seq<u8>,
    ResponseStatus,
> {
    if nsid == NSID_BROADCAST {
        Ok(identify_namespace_skeleton(9).spec_encode())
    } else if nsid == 0 || nsid as int > MAX_NAMESPACES || nsid as int - 1 >= s.nss@.len() {
        Err(ResponseStatus::InvalidParameter)
    } else if attached_anywhere(s, nsid) {
        Ok(namespace_identify(&s.nss@[nsid - 1]).spec_encode())
    } else {
        Ok(identify_namespace_skeleton(0).spec_encode())
    }
}

fn attached_anywhere_exec(s: &Subsystem, nsid: u32) -> (r: bool)
    requires
        s.wf(),
    ensures
        r == attached_anywhere(s, nsid),
{
    let mut c: usize = 0;
    while c < s.ctlrs.len()
        invariant
            s.wf(),
            c <= s.ctlrs@.len(),
            forall|k: int| 0 <= k < c ==> !s.ctlrs@[k].is_attached(nsid),
        decreases s.ctlrs@.len() - c,
    {
        let ctlr = &s.ctlrs[c];
        let mut i: usize = 0;
        while i < ctlr.active_ns.len()
            invariant
                c < s.ctlrs@.len(),
                *ctlr == s.ctlrs@[c as int],
                i <= ctlr.active_ns@.len(),
                forall|k: int| 0 <= k < i ==> ctlr.active_ns@[k].0 != nsid,
            decreases ctlr.active_ns@.len() - i,
        {
            if ctlr.active_ns[i].0 == nsid {
                assert(ctlr.active_ns@[i as int].0 == nsid);
                assert(s.ctlrs@[c as int].is_attached(nsid));
                return true;
            }
            i = i + 1;
        }
        assert(!s.ctlrs@[c as int].is_attached(nsid));
        c = c + 1;
    }
    false
}

fn nvmcap_of(ns: &Namespace) -> (r: u128)
    requires
        ns.block_order <= 63,
    ensures
        r == pow2(ns.block_order as nat) * ns.size,
{
    let mut p: u128 = 1;
    let mut i: u8 = 0;
    proof {
        lemma2_to64();
    }
    while i < ns.block_order
        invariant
            i <= ns.block_order <= 63,
            p == pow2(i as nat),
            p <= 0x8000_0000_0000_0000,
        decreases ns.block_order - i,
    {
        proof {
            lemma_pow2_unfold((i + 1) as nat);
            lemma_pow2_unfold(64);
            lemma2_to64();
            if i + 1 < 63 {
                lemma_pow2_strictly_increases((i + 1) as nat, 63);
            }
            assert(pow2((i + 1) as nat) <= 0x8000_0000_0000_0000);
        }
        p = p * 2;
        i = i + 1;
    }
    proof {
        assert(p * ns.size <= 0x8000_0000_0000_0000 * 0xffff_ffff_ffff_ffff) by (nonlinear_arith)
            requires
                p <= 0x8000_0000_0000_0000,
                ns.size <= 0xffff_ffff_ffff_ffff,
        ;
    }
    p * (ns.size as u128)
}

fn identify_namespace(s: &Subsystem, nsid: u32) -> (r: Result<Vec<u8>, ResponseStatus>)
    requires
        s.wf(),
    ensures
        match identify_namespace_data(s, nsid) {
            Ok(d) => r is Ok && r->Ok_0@ == d,
            Err(e) => r == Err::<Vec<u8>, ResponseStatus>(e),
        },
{
    if nsid == NSID_BROADCAST {
        return Ok(AdminIdentifyNvmIdentifyNamespaceResponse::skeleton(9).encode());
    }
    if nsid == 0 || nsid as usize > MAX_NAMESPACES || nsid as usize - 1 >= s.nss.len() {
        return Err(ResponseStatus::InvalidParameter);
    }
    let ns = &s.nss[nsid as usize - 1];
    if attached_anywhere_exec(s, nsid) {
        let r = AdminIdentifyNvmIdentifyNamespaceResponse {
            nsze: ns.size,
            ncap: ns.capacity,
            nuse: ns.used,
            nsfeat: if ns.size == ns.capacity {
                1
            } else {
                0
            },
            nlbaf: 0,
            flbas: 0,
            mc: 0,
            dpc: 0,
            dps: 0,
            nvmcap: nvmcap_of(ns),
            lbaf0: 0,
            lbaf0_lbads: ns.block_order,
            lbaf0_rp: 0,
        };
        Ok(r.encode())
    } else {
        Ok(AdminIdentifyNvmIdentifyNamespaceResponse::skeleton(0).encode())
    }
}

/// Whether a port list holds a port of the given kind.
pub open spec fn has_pcie_port(s: &Subsystem) -> bool {
    exists|i: int| 0 <= i < s.ports@.len() && s.ports@[i].typ is Pcie
}

pub open spec fn has_twowire_port(s: &Subsystem) -> bool {
    exists|i: int| 0 <= i < s.ports@.len() && s.ports@[i].typ is TwoWire
}

/// Identify Controller, bytes 0 to 79: PCI IDs, serial number, model
/// number, firmware revision, IEEE OUI (least significant byte first),
/// CMIC, controller ID.
pub open spec fn identify_controller_head(s: &Subsystem, c: &Controller) -> Seq<u8> {
    let oui = s.info.ieee_oui@;
    le16(s.info.pci_vid) + le16(s.info.pci_svid) + fixed_str(s.sn.spec_bytes(), 20) + fixed_str(
        s.mn.spec_bytes(),
        40,
    ) + fixed_str(s.fr.spec_bytes(), 8) + seq![
        0u8,
        oui[2],
        oui[1],
        oui[0],
        (bit(s.ctlrs@.len() > 1, 2) + bit(s.ports@.len() > 1, 1)) as u8,
        0u8,
    ] + le16(c.id.0)
}

/// Identify Controller, bytes 80 to 269: CNTRLTYPE, NVMSR, MEC, LPA, WCTEMP
/// and CCTEMP.
pub open spec fn identify_controller_mid(s: &Subsystem, c: &Controller) -> Seq<u8> {
    zeros(31) + seq![c.cntrltype.spec_id()] + zeros(141) + seq![
        1u8,
        0u8,
        (bit(has_pcie_port(s), 2) + bit(has_twowire_port(s), 1)) as u8,
    ] + zeros(5) + seq![c.lpa] + zeros(4) + le16(0x157) + le16(0x157)
}

/// Identify Controller, bytes 270 to 4095: NN, the number of namespaces.
pub open spec fn identify_controller_tail() -> Seq<u8> {
    zeros(246) + le32(MAX_NAMESPACES as u32) + zeros(3580)
}

/// The Identify Controller data structure.
pub open spec fn identify_controller_data(s: &Subsystem, c: &Controller) -> Seq<u8> {
    identify_controller_head(s, c) + identify_controller_mid(s, c) + identify_controller_tail()
}

fn port_kinds(s: &Subsystem) -> (r: (bool, bool))
    ensures
        r.0 == has_pcie_port(s),
        r.1 == has_twowire_port(s),
{
    let mut pcie = false;
    let mut twowire = false;
    let mut i: usize = 0;
    while i < s.ports.len()
        invariant
            i <= s.ports@.len(),
            pcie == exists|k: int| 0 <= k < i && s.ports@[k].typ is Pcie,
            twowire == exists|k: int| 0 <= k < i && s.ports@[k].typ is TwoWire,
        decreases s.ports@.len() - i,
    {
        match &s.ports[i].typ {
            PortType::Pcie(_) => {
                pcie = true;
            },
            PortType::TwoWire(_) => {
                twowire = true;
            },
            PortType::Inactive => {},
        }
        proof {
            if s.ports@[i as int].typ is Pcie {
                assert(exists|k: int| 0 <= k < i + 1 && s.ports@[k].typ is Pcie);
            }
            if s.ports@[i as int].typ is TwoWire {
                assert(exists|k: int| 0 <= k < i + 1 && s.ports@[k].typ is TwoWire);
            }
        }
        i = i + 1;
    }
    (pcie, twowire)
}

fn identify_controller_head_bytes(
    s: &Subsystem,
    c: &Controller,
    sn: &WireString<20>,
    mn: &WireString<40>,
    fr: &WireString<8>,
) -> (r: Vec<u8>)
    requires
        s.info.ieee_oui@.len() == 3,
        sn.wf() && sn.bytes@ == s.sn.spec_bytes(),
        mn.wf() && mn.bytes@ == s.mn.spec_bytes(),
        fr.wf() && fr.bytes@ == s.fr.spec_bytes(),
    ensures
        r@ == identify_controller_head(s, c),
{
    let mut v: Vec<u8> = Vec::new();
    push_le16(&mut v, s.info.pci_vid);
    push_le16(&mut v, s.info.pci_svid);
    sn.encode(&mut v);
    mn.encode(&mut v);
    fr.encode(&mut v);
    v.push(0);
    v.push(s.info.ieee_oui[2]);
    v.push(s.info.ieee_oui[1]);
    v.push(s.info.ieee_oui[0]);
    v.push(bit_exec(s.ctlrs.len() > 1, 2) + bit_exec(s.ports.len() > 1, 1));
    v.push(0);
    push_le16(&mut v, c.id.0);
    assert(v@ =~= identify_controller_head(s, c));
    v
}

fn identify_controller_mid_bytes(s: &Subsystem, c: &Controller) -> (r: Vec<u8>)
    ensures
        r@ == identify_controller_mid(s, c),
{
    let (pcie, twowire) = port_kinds(s);
    let mut v: Vec<u8> = Vec::new();
    push_zeros(&mut v, 31);
    v.push(c.cntrltype.id());
    push_zeros(&mut v, 141);
    v.push(1);
    v.push(0);
    v.push(bit_exec(pcie, 2) + bit_exec(twowire, 1));
    push_zeros(&mut v, 5);
    v.push(c.lpa);
    push_zeros(&mut v, 4);
    push_le16(&mut v, 0x157);
    push_le16(&mut v, 0x157);
    assert(v@ =~= identify_controller_mid(s, c));
    v
}

fn identify_controller(
    s: &Subsystem,
    c: &Controller,
    sn: &WireString<20>,
    mn: &WireString<40>,
    fr: &WireString<8>,
) -> (r: Vec<u8>)
    requires
        s.info.ieee_oui@.len() == 3,
        sn.wf() && sn.bytes@ == s.sn.spec_bytes(),
        mn.wf() && mn.bytes@ == s.mn.spec_bytes(),
        fr.wf() && fr.bytes@ == s.fr.spec_bytes(),
    ensures
        r@ == identify_controller_data(s, c),
{
    let mut v = identify_controller_head_bytes(s, c, sn, mn, fr);
    let mid = identify_controller_mid_bytes(s, c);
    push_bytes(&mut v, mid.as_slice());
    push_zeros(&mut v, 246);
    push_le32(&mut v, MAX_NAMESPACES as u32);
    push_zeros(&mut v, 3580);
    assert(v@ =~= identify_controller_data(s, c));
    v
}

/// The smallest element of `c` above `lo`.
pub open spec fn min_above(c: Seq<u32>, lo: int) -> Option<u32>
    decreases c.len(),
{
    if c.len() == 0 {
        None
    } else {
        let rest = min_above(c.drop_last(), lo);
        let x = c.last();
        if x as int <= lo {
            rest
        } else {
            match rest {
                None => Some(x),
                Some(y) => Some(
                    if x < y {
                        x
                    } else {
                        y
                    },
                ),
            }
        }
    }
}

/// The distinct elements of `c` above `lo`, in ascending order, taking at
/// most `steps` of them.
pub open spec fn ascending_above(c: Seq<u32>, lo: int, steps: nat) -> Seq<u32>
    decreases steps,
{
    if steps == 0 {
        seq![]
    } else {
        match min_above(c, lo) {
            None => seq![],
            Some(m) => seq![m] + ascending_above(c, m as int, (steps - 1) as nat),
        }
    }
}

/// The namespaces attached to the first `n` controllers, in controller order.
pub open spec fn attached_list(ctlrs: Seq<Controller>, n: int) -> Seq<u32>
    decreases n,
{
    if n <= 0 {
        seq![]
    } else {
        attached_list(ctlrs, n - 1) + ctlrs[n - 1].active_ns@.map_values(|x: NamespaceId| x.0)
    }
}

/// Identifiers as consecutive little-endian 32-bit fields.
pub open spec fn le32_list(ids: Seq<u32>) -> Seq<u8>
    decreases ids.len(),
{
    if ids.len() == 0 {
        seq![]
    } else {
        le32_list(ids.drop_last()) + le32(ids.last())
    }
}

/// The Active Namespace ID list: each attached namespace above `nsid` once,
/// ascending.
pub open spec fn active_namespace_list(s: &Subsystem, nsid: u32) -> Seq<u32> {
    let c = attached_list(s.ctlrs@, s.ctlrs@.len() as int);
    ascending_above(c, nsid as int, c.len())
}

fn attached_list_exec(s: &Subsystem) -> (r: Vec<u32>)
    requires
        s.wf(),
    ensures
        r@ == attached_list(s.ctlrs@, s.ctlrs@.len() as int),
        r@.len() <= 8,
{
    let mut v: Vec<u32> = Vec::new();
    let mut c: usize = 0;
    while c < s.ctlrs.len()
        invariant
            s.wf(),
            c <= s.ctlrs@.len(),
            v@ == attached_list(s.ctlrs@, c as int),
            v@.len() <= 4 * c,
        decreases s.ctlrs@.len() - c,
    {
        let ctlr = &s.ctlrs[c];
        let ghost start = v@;
        let mut i: usize = 0;
        while i < ctlr.active_ns.len()
            invariant
                i <= ctlr.active_ns@.len() <= 4,
                v@ == start + ctlr.active_ns@.subrange(0, i as int).map_values(
                    |x: NamespaceId| x.0,
                ),
            decreases ctlr.active_ns@.len() - i,
        {
            v.push(ctlr.active_ns[i].0);
            i = i + 1;
            assert(v@ =~= start + ctlr.active_ns@.subrange(0, i as int).map_values(
                |x: NamespaceId| x.0,
            ));
        }
        assert(ctlr.active_ns@.subrange(0, i as int) =~= ctlr.active_ns@);
        c = c + 1;
    }
    v
}

fn min_above_exec(c: &Vec<u32>, lo: u32) -> (r: Option<u32>)
    ensures
        r == min_above(c@, lo as int),
{
    let mut best: Option<u32> = None;
    let mut i: usize = 0;
    while i < c.len()
        invariant
            i <= c@.len(),
            best == min_above(c@.subrange(0, i as int), lo as int),
        decreases c@.len() - i,
    {
        let x = c[i];
        assert(c@.subrange(0, i + 1).drop_last() =~= c@.subrange(0, i as int));
        if x > lo {
            best = match best {
                None => Some(x),
                Some(y) => Some(
                    if x < y {
                        x
                    } else {
                        y
                    },
                ),
            };
        }
        i = i + 1;
    }
    assert(c@.subrange(0, c@.len() as int) =~= c@);
    best
}

fn active_namespace_list_exec(s: &Subsystem, nsid: u32) -> (r: Vec<u32>)
    requires
        s.wf(),
    ensures
        r@ == active_namespace_list(s, nsid),
        r@.len() <= 8,
{
    let c = attached_list_exec(s);
    let mut out: Vec<u32> = Vec::new();
    let mut lo = nsid;
    let mut steps: usize = c.len();
    while steps > 0
        invariant
            steps <= c@.len() <= 8,
            out@.len() + steps <= c@.len(),
            out@ + ascending_above(c@, lo as int, steps as nat) == ascending_above(
                c@,
                nsid as int,
                c@.len(),
            ),
        decreases steps,
    {
        match min_above_exec(&c, lo) {
            None => {
                assert(ascending_above(c@, lo as int, steps as nat) =~= seq![]);
                steps = 0;
            },
            Some(m) => {
                assert(out@.push(m) + ascending_above(c@, m as int, (steps - 1) as nat) =~= out@
                    + ascending_above(c@, lo as int, steps as nat));
                out.push(m);
                lo = m;
                steps = steps - 1;
            },
        }
    }
    assert(out@ + ascending_above(c@, lo as int, steps as nat) =~= out@);
    out
}

fn push_le32_list(v: &mut Vec<u32>, out: &mut Vec<u8>)
    ensures
        final(out)@ == old(out)@ + le32_list(old(v)@),
        final(v)@ == old(v)@,
{
    let ghost start = out@;
    let mut i: usize = 0;
    while i < v.len()
        invariant
            i <= v@.len(),
            *v == *old(v),
            out@ == start + le32_list(v@.subrange(0, i as int)),
        decreases v@.len() - i,
    {
        push_le32(out, v[i]);
        assert(v@.subrange(0, i + 1).drop_last() =~= v@.subrange(0, i as int));
        i = i + 1;
    }
    assert(v@.subrange(0, v@.len() as int) =~= v@);
}

/// A namespace identification descriptor: type, length, two reserved
/// bytes, then the identifier.
pub open spec fn descriptor(n: NamespaceIdentifierType) -> Seq<u8> {
    match n {
        NamespaceIdentifierType::Ieuid(v) => seq![1u8, 8u8, 0u8, 0u8] + v@,
        NamespaceIdentifierType::Nguid(v) => seq![2u8, 16u8, 0u8, 0u8] + v@,
        NamespaceIdentifierType::Nuuid(v) => seq![3u8, 16u8, 0u8, 0u8] + v@,
        NamespaceIdentifierType::Csi(c) => seq![4u8, 1u8, 0u8, 0u8, c.spec_id()],
    }
}

fn push_descriptor(v: &mut Vec<u8>, n: &NamespaceIdentifierType)
    ensures
        final(v)@ == old(v)@ + descriptor(*n),
{
    match n {
        NamespaceIdentifierType::Ieuid(b) => {
            v.push(1);
            v.push(8);
            push_zeros(v, 2);
            push_bytes(v, b);
        },
        NamespaceIdentifierType::Nguid(b) => {
            v.push(2);
            v.push(16);
            push_zeros(v, 2);
            push_bytes(v, b);
        },
        NamespaceIdentifierType::Nuuid(b) => {
            v.push(3);
            v.push(16);
            push_zeros(v, 2);
            push_bytes(v, b);
        },
        NamespaceIdentifierType::Csi(c) => {
            v.push(4);
            v.push(1);
            push_zeros(v, 2);
            v.push(c.id());
        },
    }
    assert(final(v)@ =~= old(v)@ + descriptor(*n));
}

/// The namespace identifiers `start..=end`.
pub open spec fn id_range(start: int, end: int) -> Seq<u32>
    decreases end - start + 1,
{
    if end < start {
        seq![]
    } else {
        id_range(start, end - 1).push(end as u32)
    }
}

/// The response data of Identify, before the window is applied.
pub open spec fn identify_data(s: &Subsystem, ctlid: u16, cns: u8, nsid: u32, cntid: u16) -> Result<
    Seq<u8>,
    ResponseStatus,
> {
    if cns == 0x00 {
        identify_namespace_data(s, nsid)
    } else if cns == 0x01 {
        if ctlid as int >= s.ctlrs@.len() {
            Err(ResponseStatus::InvalidParameter)
        } else if s.sn.spec_bytes().len() > 20 || s.mn.spec_bytes().len() > 40
            || s.fr.spec_bytes().len() > 8 {
            Err(ResponseStatus::InternalError)
        } else {
            Ok(identify_controller_data(s, &s.ctlrs@[ctlid as int]))
        }
    } else if cns == 0x02 {
        Ok(pad4k(le32_list(active_namespace_list(s, nsid))))
    } else if cns == 0x03 {
        if nsid >= NSID_BROADCAST - 1 || nsid == 0 || nsid as int > MAX_NAMESPACES || nsid as int
            - 1 >= s.nss@.len() {
            Err(ResponseStatus::InvalidParameter)
        } else {
            let ns = s.nss@[nsid - 1];
            Ok(pad4k(descriptor(ns.nids[0]) + descriptor(ns.nids[1])))
        }
    } else if cns == 0x10 {
        if nsid >= NSID_BROADCAST - 1 {
            Err(ResponseStatus::InvalidParameter)
        } else {
            Ok(pad4k(le32_list(id_range(nsid + 1, s.nss@.len() as int))))
        }
    } else if cns == 0x13 {
        Ok(
            pad4k(
                controller_list(controller_ids_from(s.ctlrs@, s.ctlrs@.len() as int, cntid)),
            ),
        )
    } else if cns == 0x15 {
        if ctlid as int >= s.ctlrs@.len() {
            Err(ResponseStatus::InvalidParameter)
        } else {
            Ok(zeros(4096))
        }
    } else {
        Err(ResponseStatus::InternalError)
    }
}

fn pad_to_4k(v: &mut Vec<u8>)
    requires
        old(v)@.len() <= 4096,
    ensures
        final(v)@ == pad4k(old(v)@),
{
    let n = 4096 - v.len();
    push_zeros(v, n);
}

fn identify_data_exec(s: &Subsystem, ctlid: u16, cns: u8, nsid: u32, cntid: u16) -> (r: Result<
    Vec<u8>,
    ResponseStatus,
>)
    requires
        s.wf(),
        s.info.ieee_oui@.len() == 3,
    ensures
        match identify_data(s, ctlid, cns, nsid, cntid) {
            Ok(d) => r is Ok && r->Ok_0@ == d,
            Err(e) => r == Err::<Vec<u8>, ResponseStatus>(e),
        },
{
    if cns == 0x00 {
        identify_namespace(s, nsid)
    } else if cns == 0x01 {
        if ctlid as usize >= s.ctlrs.len() {
            return Err(ResponseStatus::InvalidParameter);
        }
        let sn = WireString::<20>::from(s.sn);
        let mn = WireString::<40>::from(s.mn);
        let fr = WireString::<8>::from(s.fr);
        match (sn, mn, fr) {
            (Ok(sn), Ok(mn), Ok(fr)) => Ok(
                identify_controller(s, &s.ctlrs[ctlid as usize], &sn, &mn, &fr),
            ),
            _ => Err(ResponseStatus::InternalError),
        }
    } else if cns == 0x02 {
        let mut ids = active_namespace_list_exec(s, nsid);
        let mut v: Vec<u8> = Vec::new();
        push_le32_list(&mut ids, &mut v);
        proof {
            lemma_le32_list_len(ids@);
        }
        pad_to_4k(&mut v);
        Ok(v)
    } else if cns == 0x03 {
        if nsid >= NSID_BROADCAST - 1 || nsid == 0 || nsid as usize > MAX_NAMESPACES || nsid as usize
            - 1 >= s.nss.len() {
            return Err(ResponseStatus::InvalidParameter);
        }
        let ns = &s.nss[nsid as usize - 1];
        let mut v: Vec<u8> = Vec::new();
        push_descriptor(&mut v, &ns.nids[0]);
        push_descriptor(&mut v, &ns.nids[1]);
        pad_to_4k(&mut v);
        Ok(v)
    } else if cns == 0x10 {
        if nsid >= NSID_BROADCAST - 1 {
            return Err(ResponseStatus::InvalidParameter);
        }
        let mut ids: Vec<u32> = Vec::new();
        let end = s.nss.len() as u32;
        let mut k: u32 = nsid + 1;
        assert(ids@ =~= id_range(nsid + 1, k - 1));
        if k > end {
            assert(id_range(nsid + 1, end as int) =~= seq![]);
        }
        while k <= end
            invariant
                nsid + 1 <= k,
                end <= 4,
                k <= end + 1 || ids@.len() == 0,
                ids@ == id_range(nsid + 1, k - 1),
                ids@.len() == k - nsid - 1,
            decreases end + 1 - k,
        {
            ids.push(k);
            k = k + 1;
        }
        let mut v: Vec<u8> = Vec::new();
        push_le32_list(&mut ids, &mut v);
        proof {
            lemma_le32_list_len(ids@);
        }
        pad_to_4k(&mut v);
        Ok(v)
    } else if cns == 0x13 {
        let mut v = crate::management::controller_list_bytes(s, cntid);
        pad_to_4k(&mut v);
        Ok(v)
    } else if cns == 0x15 {
        if ctlid as usize >= s.ctlrs.len() {
            return Err(ResponseStatus::InvalidParameter);
        }
        let mut v: Vec<u8> = Vec::new();
        push_zeros(&mut v, 4096);
        Ok(v)
    } else {
        Err(ResponseStatus::InternalError)
    }
}

pub proof fn lemma_le32_list_len(ids: Seq<u32>)
    ensures
        le32_list(ids).len() == 4 * ids.len(),
    decreases ids.len(),
{
    if ids.len() > 0 {
        lemma_le32_list_len(ids.drop_last());
    }
}

/// The CNS values that the request parser knows.
pub open spec fn cns_known(cns: u8) -> bool {
    cns == 0x00 || cns == 0x01 || cns == 0x02 || cns == 0x03 || cns == 0x05 || cns == 0x06 || cns
        == 0x07 || cns == 0x08 || cns == 0x10 || cns == 0x13 || cns == 0x15
}

/// Identify: `b` is the submission queue entry from NSID on (NSID at 0,
/// DOFST at 20, DLEN at 24, CNS at 36, CNTID at 38).
pub open spec fn identify_reply(s: &Subsystem, ctlid: u16, b: Seq<u8>) -> Reply {
    if b.len() > SQE_LEN {
        Reply::Status(ResponseStatus::InvalidCommandSize)
    } else {
        match identify_data(s, ctlid, b[36], u32_at(b, 0), u16_at(b, 38)) {
            Err(e) => Reply::Status(e),
            Ok(d) => constrained_reply(u32_at(b, 20), u32_at(b, 24), d),
        }
    }
}

pub fn identify(s: &Subsystem, ctlid: u16, b: &[u8]) -> (r: Handled)
    requires
        s.wf(),
        s.info.ieee_oui@.len() == 3,
        b@.len() >= SQE_LEN,
    ensures
        r@ == identify_reply(s, ctlid, b@),
        r@ is Body ==> r@->Body_0.len() == 16 + u32_at(b@, 24),
{
    if b.len() > SQE_LEN {
        return Handled::Status(ResponseStatus::InvalidCommandSize);
    }
    let nsid = read_u32(b, 0);
    let dofst = read_u32(b, 20);
    let dlen = read_u32(b, 24);
    let cntid = read_u16(b, 38);
    match identify_data_exec(s, ctlid, b[36], nsid, cntid) {
        Err(e) => Handled::Status(e),
        Ok(d) => send_constrained(dofst, dlen, &d),
    }
}

/// The Supported Log Pages entries of a controller: its flags for each LID.
pub open spec fn lsae_list(lsaes: Seq<u8>) -> Seq<u8>
    decreases lsaes.len(),
{
    if lsaes.len() == 0 {
        seq![]
    } else {
        lsae_list(lsaes.drop_last()) + seq![lsaes.last(), 0u8, 0u8, 0u8]
    }
}

/// Critical warning (CW) of the SMART / Health Information log page.
pub open spec fn smart_cw(c: &Controller) -> u8 {
    (bit(c.spare < c.spare_range.lower, 0x01) + bit(!temp_in_range(c), 0x02) + bit(c.ro, 0x08))
        as u8
}

/// The available spare threshold as a percentage of capacity.
pub open spec fn spare_threshold_percent(c: &Controller) -> u8 {
    (100 * c.spare_range.lower / (c.capacity as int)) as u8
}

/// `t` repeated as the eight temperature sensors.
pub open spec fn sensors(t: u16) -> Seq<u8> {
    le16(t) + le16(t) + le16(t) + le16(t) + le16(t) + le16(t) + le16(t) + le16(t)
}

/// The SMART / Health Information log page; every counter is zero.
pub open spec fn smart_log(c: &Controller) -> Seq<u8> {
    seq![smart_cw(c)] + le16(c.temp) + seq![
        spare_percent(c) as u8,
        spare_threshold_percent(c),
        percentage_used(c),
        0u8,
    ] + zeros(193) + sensors(c.temp) + zeros(296)
}

/// The size of a log page.
pub open spec fn log_size(lid: AdminGetLogPageLidRequestType) -> int {
    match lid {
        AdminGetLogPageLidRequestType::SupportedLogPages => 1024,
        AdminGetLogPageLidRequestType::ErrorInformation => 64,
        AdminGetLogPageLidRequestType::SmartHealthInformation => 512,
        AdminGetLogPageLidRequestType::FeatureIdentifiersSupportedAndEffects => 1024,
    }
}

/// The full data of a log page.
pub open spec fn log_data(c: &Controller, lid: AdminGetLogPageLidRequestType) -> Seq<u8> {
    match lid {
        AdminGetLogPageLidRequestType::SupportedLogPages => lsae_list(c.lsaes@) + zeros(948),
        AdminGetLogPageLidRequestType::ErrorInformation => zeros(64),
        AdminGetLogPageLidRequestType::SmartHealthInformation => smart_log(c),
        AdminGetLogPageLidRequestType::FeatureIdentifiersSupportedAndEffects => zeros(1024),
    }
}

/// Get Log Page: `b` is the submission queue entry from NSID on (NSID at 0,
/// DOFST at 20, DLEN at 24, LID at 36, NUMD at 38, LPO at 44, OT at 54, CSI
/// at 55). Only whole log pages can be read.
pub open spec fn get_log_page_reply(s: &Subsystem, ctlid: u16, b: Seq<u8>) -> Reply {
    let lid = lid_of(b[36])->Some_0;
    if b.len() > SQE_LEN {
        Reply::Status(ResponseStatus::InvalidCommandSize)
    } else if (lid == AdminGetLogPageLidRequestType::SupportedLogPages || lid
        == AdminGetLogPageLidRequestType::FeatureIdentifiersSupportedAndEffects) && b[55] != 0 {
        Reply::Status(ResponseStatus::InternalError)
    } else if ctlid as int >= s.ctlrs@.len() {
        Reply::Status(ResponseStatus::InvalidParameter)
    } else {
        let c = s.ctlrs@[ctlid as int];
        let flags = c.lsaes@[lid.spec_id() as int];
        if b[54] != 0 && flags & LSAE_IOS != 0 {
            Reply::Status(ResponseStatus::InternalError)
        } else if b[54] != 0 {
            Reply::Body(admin_invalid_field())
        } else if c.lpa & LPA_LPEDS != 0 || (u32_at(b, 38) as int + 1) * 4 != log_size(lid) {
            Reply::Status(ResponseStatus::InternalError)
        } else if lid == AdminGetLogPageLidRequestType::SmartHealthInformation && (u64_at(b, 44)
            & !3u64 > 512 || (u32_at(b, 0) != 0 && u32_at(b, 0) != NSID_BROADCAST && c.lpa
            & LPA_SMARTS == 0)) {
            Reply::Body(admin_invalid_field())
        } else if lid == AdminGetLogPageLidRequestType::SmartHealthInformation && u32_at(b, 0)
            != 0 && u32_at(b, 0) != NSID_BROADCAST {
            Reply::Status(ResponseStatus::InternalError)
        } else {
            constrained_reply(u32_at(b, 20), u32_at(b, 24), log_data(&c, lid))
        }
    }
}

fn smart_log_bytes(c: &Controller) -> (r: Vec<u8>)
    requires
        c.wf(),
    ensures
        r@ == smart_log(c),
{
    let mut v: Vec<u8> = Vec::new();
    let in_range = c.temp_range.lower <= c.temp && c.temp <= c.temp_range.upper;
    v.push(
        bit_exec(c.spare < c.spare_range.lower, 0x01) + bit_exec(!in_range, 0x02) + bit_exec(
            c.ro,
            0x08,
        ),
    );
    push_le16(&mut v, c.temp);
    v.push(spare_percent_of(c) as u8);
    assert(100 * c.spare_range.lower <= 100 * c.capacity) by (nonlinear_arith)
        requires
            c.spare_range.lower <= c.capacity,
    ;
    v.push((100 * c.spare_range.lower / c.capacity) as u8);
    v.push(percentage_used_of(c));
    v.push(0);
    push_zeros(&mut v, 193);
    let mut k: usize = 0;
    let ghost head = v@;
    while k < 8
        invariant
            k <= 8,
            v@ == head + sensors_prefix(c.temp, k as nat),
        decreases 8 - k,
    {
        push_le16(&mut v, c.temp);
        k = k + 1;
        assert(v@ =~= head + sensors_prefix(c.temp, k as nat));
    }
    push_zeros(&mut v, 296);
    assert(sensors_prefix(c.temp, 8) =~= sensors(c.temp)) by {
        reveal_with_fuel(sensors_prefix, 9);
    }
    assert(v@ =~= smart_log(c));
    v
}

/// The first `k` temperature sensors.
pub open spec fn sensors_prefix(t: u16, k: nat) -> Seq<u8>
    decreases k,
{
    if k == 0 {
        seq![]
    } else {
        sensors_prefix(t, (k - 1) as nat) + le16(t)
    }
}

fn log_data_bytes(c: &Controller, lid: AdminGetLogPageLidRequestType) -> (r: Vec<u8>)
    requires
        c.wf(),
    ensures
        r@ == log_data(c, lid),
{
    let mut v: Vec<u8> = Vec::new();
    match lid {
        AdminGetLogPageLidRequestType::SupportedLogPages => {
            let mut i: usize = 0;
            while i < c.lsaes.len()
                invariant
                    i <= c.lsaes@.len(),
                    v@ == lsae_list(c.lsaes@.subrange(0, i as int)),
                decreases c.lsaes@.len() - i,
            {
                v.push(c.lsaes[i]);
                push_zeros(&mut v, 3);
                assert(c.lsaes@.subrange(0, i + 1).drop_last() =~= c.lsaes@.subrange(0, i as int));
                i = i + 1;
                assert(v@ =~= lsae_list(c.lsaes@.subrange(0, i as int)));
            }
            assert(c.lsaes@.subrange(0, c.lsaes@.len() as int) =~= c.lsaes@);
            push_zeros(&mut v, 948);
            v
        },
        AdminGetLogPageLidRequestType::ErrorInformation => {
            push_zeros(&mut v, 64);
            v
        },
        AdminGetLogPageLidRequestType::SmartHealthInformation => smart_log_bytes(c),
        AdminGetLogPageLidRequestType::FeatureIdentifiersSupportedAndEffects => {
            push_zeros(&mut v, 1024);
            v
        },
    }
}

pub fn get_log_page(s: &Subsystem, ctlid: u16, b: &[u8]) -> (r: Handled)
    requires
        s.wf(),
        b@.len() >= SQE_LEN,
        lid_of(b@[36]) is Some,
    ensures
        r@ == get_log_page_reply(s, ctlid, b@),
{
    let lid = match AdminGetLogPageLidRequestType::try_from_u8(b[36]) {
        Some(l) => l,
        None => {
            return Handled::Status(ResponseStatus::InvalidCommandSize);
        },
    };
    if b.len() > SQE_LEN {
        return Handled::Status(ResponseStatus::InvalidCommandSize);
    }
    let global = match lid {
        AdminGetLogPageLidRequestType::SupportedLogPages => true,
        AdminGetLogPageLidRequestType::FeatureIdentifiersSupportedAndEffects => true,
        _ => false,
    };
    if global && b[55] != 0 {
        return Handled::Status(ResponseStatus::InternalError);
    }
    if ctlid as usize >= s.ctlrs.len() {
        return Handled::Status(ResponseStatus::InvalidParameter);
    }
    let c = &s.ctlrs[ctlid as usize];
    let flags = c.lsaes[lid.id() as usize];
    if b[54] != 0 {
        if flags & LSAE_IOS != 0 {
            return Handled::Status(ResponseStatus::InternalError);
        }
        return invalid_field();
    }
    let numdw = read_u32(b, 38);
    let size: u64 = match lid {
        AdminGetLogPageLidRequestType::SupportedLogPages => 1024,
        AdminGetLogPageLidRequestType::ErrorInformation => 64,
        AdminGetLogPageLidRequestType::SmartHealthInformation => 512,
        AdminGetLogPageLidRequestType::FeatureIdentifiersSupportedAndEffects => 1024,
    };
    if c.lpa & LPA_LPEDS != 0 || (numdw as u64 + 1) * 4 != size {
        return Handled::Status(ResponseStatus::InternalError);
    }
    let nsid = read_u32(b, 0);
    if lid == AdminGetLogPageLidRequestType::SmartHealthInformation {
        let lpo = read_u64(b, 44);
        if lpo & !3u64 > 512 {
            return invalid_field();
        }
        if nsid != 0 && nsid != NSID_BROADCAST {
            if c.lpa & LPA_SMARTS == 0 {
                return invalid_field();
            }
            return Handled::Status(ResponseStatus::InternalError);
        }
    }
    let data = log_data_bytes(c, lid);
    send_constrained(read_u32(b, 20), read_u32(b, 24), &data)
}

/// Namespace Management: `b` is the submission queue entry from NSID on
/// (SEL in the low nibble of byte 36, CSI at 43); a create is followed by
/// a 4096-byte namespace structure with NCAP at its byte 8.
pub open spec fn namespace_management_parses(b: Seq<u8>) -> bool {
    (b[36] & 0xf == 0 && b.len() >= SQE_LEN + 4096) || b[36] & 0xf == 1
}

/// Namespace Management's reply: a create answers with the new identifier
/// in completion dword 0, a delete with the identifier it was given.
pub open spec fn namespace_management_reply(s: &Subsystem, b: Seq<u8>) -> Reply {
    if b[36] & 0xf == 0 {
        if b.len() > SQE_LEN + 4096 {
            Reply::Status(ResponseStatus::InvalidCommandSize)
        } else if b[43] != 0 || s.nsids + 1 >= NSID_BROADCAST || s.nss@.len() >= MAX_NAMESPACES {
            Reply::Status(ResponseStatus::InternalError)
        } else {
            Reply::Body(
                admin_response_header(
                    (s.nsids + 1) as u32,
                    cqe_dw3(SCT_GENERIC, SC_SUCCESSFUL_COMPLETION, false),
                ),
            )
        }
    } else if b.len() > SQE_LEN {
        Reply::Status(ResponseStatus::InvalidCommandSize)
    } else {
        let nsid = u32_at(b, 0);
        Reply::Body(
            admin_response_header(
                nsid,
                if nsid == NSID_BROADCAST || s.has_namespace(nsid) {
                    cqe_dw3(SCT_GENERIC, SC_SUCCESSFUL_COMPLETION, false)
                } else {
                    cqe_dw3(SCT_COMMAND_SPECIFIC, SC_NAMESPACE_IDENTIFIER_UNAVAILABLE, true)
                },
            ),
        )
    }
}

/// The allocation mark and namespaces after Namespace Management. A create
/// spends the next identifier even when the namespace table is full.
pub open spec fn namespace_management_state(
    s: &Subsystem,
    b: Seq<u8>,
    nsids: u32,
    nss: Seq<Namespace>,
) -> bool {
    if b[36] & 0xf == 0 {
        if b.len() > SQE_LEN + 4096 || b[43] != 0 || s.nsids + 1 >= NSID_BROADCAST {
            nsids == s.nsids && nss == s.nss@
        } else if s.nss@.len() >= MAX_NAMESPACES {
            nsids == s.nsids + 1 && nss == s.nss@
        } else {
            &&& nsids == s.nsids + 1
            &&& nss.len() == s.nss@.len() + 1
            &&& nss.drop_last() == s.nss@
            &&& created_namespace(nss.last(), nsids, u64_at(b, SQE_LEN + 8), s.info.instance@)
        }
    } else if b.len() > SQE_LEN {
        nsids == s.nsids && nss == s.nss@
    } else {
        let nsid = u32_at(b, 0);
        &&& nsids == s.nsids
        &&& nsid == NSID_BROADCAST ==> nss.len() == 0
        &&& nsid != NSID_BROADCAST && s.has_namespace(nsid) ==> nss == swap_removed(
            s.nss@,
            namespace_position(s.nss@, nsid),
        )
        &&& nsid != NSID_BROADCAST && !s.has_namespace(nsid) ==> nss == s.nss@
    }
}

pub fn namespace_management(s: &mut Subsystem, b: &[u8]) -> (r: Handled)
    requires
        old(s).wf(),
        b@.len() >= SQE_LEN,
        namespace_management_parses(b@),
    ensures
        final(s).wf(),
        final(s).ports@ == old(s).ports@,
        final(s).ctlrs@ == old(s).ctlrs@,
        final(s).info == old(s).info,
        b@[36] & 0xf == 0 && old(s).attachments_exist() ==> final(s).attachments_exist(),
        r@ == namespace_management_reply(old(s), b@),
        namespace_management_state(old(s), b@, final(s).nsids, final(s).nss@),
{
    let sel = b[36] & 0xf;
    let mut v: Vec<u8> = Vec::new();
    if sel == 0 {
        if b.len() > SQE_LEN + 4096 {
            return Handled::Status(ResponseStatus::InvalidCommandSize);
        }
        if b[43] != 0 {
            return Handled::Status(ResponseStatus::InternalError);
        }
        let ncap = read_u64(b, SQE_LEN + 8);
        match s.add_namespace(ncap) {
            Ok(nsid) => {
                push_admin_response_header(
                    &mut v,
                    nsid.0,
                    cqe_dw3_exec(SCT_GENERIC, SC_SUCCESSFUL_COMPLETION, false),
                );
                Handled::Body(v)
            },
            Err(_) => Handled::Status(ResponseStatus::InternalError),
        }
    } else {
        if b.len() > SQE_LEN {
            return Handled::Status(ResponseStatus::InvalidCommandSize);
        }
        let nsid = read_u32(b, 0);
        let dw3 = match s.remove_namespace(NamespaceId(nsid)) {
            Ok(()) => cqe_dw3_exec(SCT_GENERIC, SC_SUCCESSFUL_COMPLETION, false),
            Err(_) => cqe_dw3_exec(SCT_COMMAND_SPECIFIC, SC_NAMESPACE_IDENTIFIER_UNAVAILABLE, true),
        };
        push_admin_response_header(&mut v, nsid, dw3);
        Handled::Body(v)
    }
}

/// Whether a Namespace Attachment request parses: SEL (low nibble of byte
/// 36) is attach or detach, and the controller list at byte 60 holds at
/// most 2047 identifiers, all present.
pub open spec fn namespace_attachment_parses(b: Seq<u8>) -> bool {
    &&& b.len() >= SQE_LEN + 2
    &&& (b[36] & 0xf == 0 || b[36] & 0xf == 1)
    &&& u16_at(b, SQE_LEN as int) <= 2047
    &&& b.len() >= SQE_LEN + 2 + 2 * u16_at(b, SQE_LEN as int)
}

/// Completion dword 3 of Namespace Attachment: Do Not Retry is set exactly
/// when the status is not a successful completion.
pub open spec fn attachment_dw3(sct: u8, sc: u8) -> u32 {
    cqe_dw3(sct, sc, !(sct == SCT_GENERIC && sc == SC_SUCCESSFUL_COMPLETION))
}

/// The length of a Namespace Attachment body: the controller list takes its
/// full 2047 slots.
pub const ATTACH_BODY_LEN: usize = 4156;

/// The controller identifiers listed in a Namespace Attachment request.
pub open spec fn attachment_ids(b: Seq<u8>) -> Seq<u16> {
    Seq::new(u16_at(b, SQE_LEN as int) as nat, |k: int| u16_at(b, SQE_LEN + 2 + 2 * k))
}

/// Attaching or detaching `nsid` on one controller's attachments: the new
/// attachments, or the command specific status of the failure.
pub open spec fn attachment_step(ns: Seq<NamespaceId>, nsid: u32, attach: bool) -> Result<
    Seq<NamespaceId>,
    u8,
> {
    let present = exists|i: int| 0 <= i < ns.len() && ns[i].0 == nsid;
    if attach {
        if present {
            Err(SC_NAMESPACE_ALREADY_ATTACHED)
        } else if ns.len() >= MAX_NAMESPACES {
            Err(SC_NAMESPACE_ATTACHMENT_LIMIT_EXCEEDED)
        } else {
            Ok(ns.push(NamespaceId(nsid)))
        }
    } else if !present {
        Err(SC_NAMESPACE_NOT_ATTACHED)
    } else {
        Ok(detached(ns, nsid))
    }
}

/// Applies a Namespace Attachment to the listed controllers in order,
/// stopping at the first failure: the attachments of every controller
/// afterwards, and the completion status.
pub open spec fn attachment_run(
    acts: Seq<Seq<NamespaceId>>,
    types: Seq<ControllerType>,
    ids: Seq<u16>,
    nsid: u32,
    attach: bool,
) -> (Seq<Seq<NamespaceId>>, u8, u8)
    decreases ids.len(),
{
    if ids.len() == 0 {
        (acts, SCT_GENERIC, SC_SUCCESSFUL_COMPLETION)
    } else {
        let cid = ids[0] as int;
        if cid >= acts.len() || types[cid] != ControllerType::Io {
            (acts, SCT_COMMAND_SPECIFIC, SC_CONTROLLER_LIST_INVALID)
        } else {
            match attachment_step(acts[cid], nsid, attach) {
                Ok(next) => attachment_run(acts.update(cid, next), types, ids.drop_first(), nsid, attach),
                Err(sc) => (acts, SCT_COMMAND_SPECIFIC, sc),
            }
        }
    }
}

/// The attachments of each controller.
pub open spec fn attachments_of(ctlrs: Seq<Controller>) -> Seq<Seq<NamespaceId>> {
    ctlrs.map_values(|c: Controller| c.active_ns@)
}

/// The type of each controller.
pub open spec fn types_of(ctlrs: Seq<Controller>) -> Seq<ControllerType> {
    ctlrs.map_values(|c: Controller| c.cntrltype)
}

/// The run of a Namespace Attachment request over the given controllers.
pub open spec fn attachment_request_run(ctlrs: Seq<Controller>, b: Seq<u8>) -> (
    Seq<Seq<NamespaceId>>,
    u8,
    u8,
) {
    attachment_run(
        attachments_of(ctlrs),
        types_of(ctlrs),
        attachment_ids(b),
        u32_at(b, 0),
        b[36] & 0xf == 0,
    )
}

/// Namespace Attachment: `b` is the submission queue entry from NSID on
/// (SEL in the low nibble of byte 36), then the controller list.
pub open spec fn attachment_reply(ctlrs: Seq<Controller>, b: Seq<u8>) -> Reply {
    if b.len() != ATTACH_BODY_LEN {
        Reply::Status(ResponseStatus::InvalidCommandSize)
    } else if u32_at(b, 0) == NSID_BROADCAST {
        Reply::Status(ResponseStatus::InvalidParameter)
    } else {
        let run = attachment_request_run(ctlrs, b);
        Reply::Body(admin_response_header(u32_at(b, 0), attachment_dw3(run.1, run.2)))
    }
}

/// The controllers' attachments after a Namespace Attachment request.
pub open spec fn attachments_after(ctlrs: Seq<Controller>, b: Seq<u8>) -> Seq<Seq<NamespaceId>> {
    if b.len() != ATTACH_BODY_LEN || u32_at(b, 0) == NSID_BROADCAST {
        attachments_of(ctlrs)
    } else {
        attachment_request_run(ctlrs, b).0
    }
}

pub fn namespace_attachment(s: &mut Subsystem, b: &[u8]) -> (r: Handled)
    requires
        old(s).wf(),
        namespace_attachment_parses(b@),
    ensures
        final(s).wf(),
        final(s).nsids == old(s).nsids,
        final(s).ports@ == old(s).ports@,
        final(s).nss@ == old(s).nss@,
        final(s).info == old(s).info,
        final(s).ctlrs@.len() == old(s).ctlrs@.len(),
        r@ == attachment_reply(old(s).ctlrs@, b@),
        attachments_of(final(s).ctlrs@) == attachments_after(old(s).ctlrs@, b@),
        types_of(final(s).ctlrs@) == types_of(old(s).ctlrs@),
        forall|i: int|
            0 <= i < final(s).ctlrs@.len() ==> same_but_attachments(
                #[trigger] final(s).ctlrs@[i],
                old(s).ctlrs@[i],
            ),
{
    let numids = read_u16(b, SQE_LEN) as usize;
    if b.len() != ATTACH_BODY_LEN {
        return Handled::Status(ResponseStatus::InvalidCommandSize);
    }
    let nsid = read_u32(b, 0);
    if nsid == NSID_BROADCAST {
        return Handled::Status(ResponseStatus::InvalidParameter);
    }
    let attach = b[36] & 0xf == 0;
    let ghost ids = attachment_ids(b@);
    let ghost types = types_of(old(s).ctlrs@);
    let ghost goal = attachment_run(attachments_of(old(s).ctlrs@), types, ids, nsid, attach);
    let mut sct: u8 = SCT_GENERIC;
    let mut sc: u8 = SC_SUCCESSFUL_COMPLETION;
    let mut done = false;
    let mut k: usize = 0;
    assert(ids.subrange(0, numids as int) =~= ids);
    while k < numids && !done
        invariant
            s.wf(),
            s.nsids == old(s).nsids,
            s.ports@ == old(s).ports@,
            s.nss@ == old(s).nss@,
            s.info == old(s).info,
            s.ctlrs@.len() == old(s).ctlrs@.len(),
            types_of(s.ctlrs@) == types,
            forall|i: int|
                0 <= i < s.ctlrs@.len() ==> same_but_attachments(
                    #[trigger] s.ctlrs@[i],
                    old(s).ctlrs@[i],
                ),
            ids == attachment_ids(b@),
            goal == attachment_run(attachments_of(old(s).ctlrs@), types, ids, nsid, attach),
            numids == u16_at(b@, SQE_LEN as int),
            numids == ids.len(),
            numids <= 2047,
            b@.len() == ATTACH_BODY_LEN,
            k <= numids,
            sct < 8,
            !done ==> attachment_run(
                attachments_of(s.ctlrs@),
                types,
                ids.subrange(k as int, numids as int),
                nsid,
                attach,
            ) == goal,
            !done ==> sct == SCT_GENERIC && sc == SC_SUCCESSFUL_COMPLETION,
            done ==> goal == (attachments_of(s.ctlrs@), sct, sc),
        decreases numids - k + (if done { 0int } else { 1int }),
    {
        let cid = read_u16(b, SQE_LEN + 2 + 2 * k) as usize;
        let ghost rest = ids.subrange(k as int, numids as int);
        let ghost acts = attachments_of(s.ctlrs@);
        assert(ids[k as int] == u16_at(b@, SQE_LEN + 2 + 2 * k));
        assert(rest[0] == ids[k as int]);
        assert(rest[0] as int == cid as int);
        assert(rest.drop_first() =~= ids.subrange(k + 1, numids as int));
        if cid >= s.ctlrs.len() || s.ctlrs[cid].cntrltype != ControllerType::Io {
            sct = SCT_COMMAND_SPECIFIC;
            sc = SC_CONTROLLER_LIST_INVALID;
            done = true;
        } else {
            let ghost before = s.ctlrs@;
            let c = s.controller_mut(ControllerId(cid as u16));
            let res = if attach {
                c.attach_namespace(NamespaceId(nsid))
            } else {
                c.detach_namespace(NamespaceId(nsid))
            };
            proof {
                assert forall|i: int| 0 <= i < s.ctlrs@.len() implies (#[trigger] s.ctlrs@[i]).id.0
                    == i && s.ctlrs@[i].wf() && (s.ctlrs@[i].port.0 as int) < s.ports@.len() by {
                    if i != cid {
                        assert(s.ctlrs@[i] == before[i]);
                    }
                }
                assert forall|i: int| 0 <= i < s.ctlrs@.len() implies same_but_attachments(
                    #[trigger] s.ctlrs@[i],
                    old(s).ctlrs@[i],
                ) by {
                    if i != cid {
                        assert(s.ctlrs@[i] == before[i]);
                    } else {
                        assert(same_but_attachments(before[i], old(s).ctlrs@[i]));
                    }
                }
                assert(acts[cid as int] == before[cid as int].active_ns@);
                assert(types_of(s.ctlrs@) =~= types_of(before));
            }
            match res {
                Ok(()) => {
                    assert(attachments_of(s.ctlrs@) =~= acts.update(
                        cid as int,
                        s.ctlrs@[cid as int].active_ns@,
                    ));
                    k = k + 1;
                },
                Err(e) => {
                    assert(attachments_of(s.ctlrs@) =~= acts);
                    sct = SCT_COMMAND_SPECIFIC;
                    sc = match e {
                        ControllerError::NamespaceAlreadyAttached => SC_NAMESPACE_ALREADY_ATTACHED,
                        ControllerError::NamespaceNotAttached => SC_NAMESPACE_NOT_ATTACHED,
                        ControllerError::NamespaceAttachmentLimitExceeded => {
                            SC_NAMESPACE_ATTACHMENT_LIMIT_EXCEEDED
                        },
                    };
                    done = true;
                },
            }
        }
    }
    proof {
        if !done {
            assert(ids.subrange(k as int, numids as int) =~= Seq::<u16>::empty());
        }
    }
    let failed = !(sct == SCT_GENERIC && sc == SC_SUCCESSFUL_COMPLETION);
    let mut v: Vec<u8> = Vec::new();
    push_admin_response_header(&mut v, nsid, cqe_dw3_exec(sct, sc, failed));
    Handled::Body(v)
}

/// The admin opcodes that NVMe-MI prohibits.
pub open spec fn admin_opcode_prohibited(op: u8) -> bool {
    op == 0x00 || op == 0x01 || op == 0x04 || op == 0x05 || op == 0x08 || op == 0x0c || op == 0x18
        || op == 0x19 || op == 0x1a || op == 0x1d || op == 0x1e || op == 0x21 || op == 0x22 || op
        == 0x25 || op == 0x29 || op == 0x39 || op == 0x3d || op == 0x3e || op == 0x41 || op == 0x42
        || op == 0x45 || op == 0x7c || op == 0x7f || op == 0x85 || op == 0x88 || op == 0x89
}

fn admin_opcode_prohibited_exec(op: u8) -> (r: bool)
    ensures
        r == admin_opcode_prohibited(op),
{
    op == 0x00 || op == 0x01 || op == 0x04 || op == 0x05 || op == 0x08 || op == 0x0c || op == 0x18
        || op == 0x19 || op == 0x1a || op == 0x1d || op == 0x1e || op == 0x21 || op == 0x22 || op
        == 0x25 || op == 0x29 || op == 0x39 || op == 0x3d || op == 0x3e || op == 0x41 || op == 0x42
        || op == 0x45 || op == 0x7c || op == 0x7f || op == 0x85 || op == 0x88 || op == 0x89
}

/// Whether the admin command body parses for its opcode: the opcode is
/// known, and the commands that carry a request are complete.
pub open spec fn admin_request_parses(op: u8, b: Seq<u8>) -> bool {
    if op == 0x02 {
        b.len() >= SQE_LEN && lid_of(b[36]) is Some
    } else if op == 0x06 {
        b.len() >= SQE_LEN && cns_known(b[36])
    } else if op == 0x0d {
        b.len() >= SQE_LEN && namespace_management_parses(b)
    } else if op == 0x15 {
        namespace_attachment_parses(b)
    } else {
        op == 0x0a || admin_opcode_prohibited(op)
    }
}

fn admin_request_parses_exec(op: u8, b: &[u8]) -> (r: bool)
    ensures
        r == admin_request_parses(op, b@),
{
    if op == 0x02 {
        b.len() >= SQE_LEN && AdminGetLogPageLidRequestType::try_from_u8(b[36]).is_some()
    } else if op == 0x06 {
        if b.len() < SQE_LEN {
            return false;
        }
        let cns = b[36];
        cns == 0x00 || cns == 0x01 || cns == 0x02 || cns == 0x03 || cns == 0x05 || cns == 0x06
            || cns == 0x07 || cns == 0x08 || cns == 0x10 || cns == 0x13 || cns == 0x15
    } else if op == 0x0d {
        b.len() >= SQE_LEN && ((b[36] & 0xf == 0 && b.len() >= SQE_LEN + 4096) || b[36] & 0xf == 1)
    } else if op == 0x15 {
        if b.len() < SQE_LEN + 2 {
            return false;
        }
        let n = read_u16(b, SQE_LEN);
        (b[36] & 0xf == 0 || b[36] & 0xf == 1) && n <= 2047 && b.len() >= SQE_LEN + 2 + 2
            * n as usize
    } else {
        op == 0x0a || admin_opcode_prohibited_exec(op)
    }
}

/// What the admin dispatcher decides before any command runs: `rest` is
/// `[opcode][cflgs][ctlid:16]` followed by the command body. `None` when a
/// command handler runs.
pub open spec fn admin_precheck(rest: Seq<u8>) -> Option<ResponseStatus> {
    if rest.len() < 4 || !admin_request_parses(rest[0], rest.subrange(4, rest.len() as int)) {
        Some(ResponseStatus::InvalidCommandSize)
    } else if rest[1] & 4 != 0 {
        Some(ResponseStatus::InternalError)
    } else if admin_opcode_prohibited(rest[0]) {
        Some(ResponseStatus::InvalidCommandOpcode)
    } else if rest[0] == 0x0a {
        Some(ResponseStatus::InternalError)
    } else {
        None
    }
}

/// Runs one admin command.
pub fn admin_command(s: &mut Subsystem, rest: &[u8]) -> (r: Handled)
    requires
        old(s).wf(),
        old(s).info.ieee_oui@.len() == 3,
    ensures
        final(s).wf(),
        final(s).nsids >= old(s).nsids,
        final(s).info == old(s).info,
        final(s).ports@ == old(s).ports@,
        final(s).ctlrs@.len() == old(s).ctlrs@.len(),
        forall|i: int|
            0 <= i < final(s).ctlrs@.len() ==> same_but_attachments(
                #[trigger] final(s).ctlrs@[i],
                old(s).ctlrs@[i],
            ),
        !(r@ is Refuse),
        !(admin_precheck(rest@) is None && rest@[0] == 0x0d) ==> final(s).nsids == old(s).nsids
            && final(s).nss@ == old(s).nss@,
        !(admin_precheck(rest@) is None && rest@[0] == 0x15) ==> final(s).ctlrs@ == old(s).ctlrs@,
        admin_precheck(rest@) matches Some(e) ==> r@ == Reply::Status(e),
        admin_precheck(rest@) is None && rest@[0] == 0x0d ==> {
            &&& r@ == namespace_management_reply(old(s), rest@.subrange(4, rest@.len() as int))
            &&& namespace_management_state(
                old(s),
                rest@.subrange(4, rest@.len() as int),
                final(s).nsids,
                final(s).nss@,
            )
        },
        admin_precheck(rest@) is None && rest@[0] == 0x06 ==> r@ == identify_reply(
            old(s),
            u16_at(rest@, 2),
            rest@.subrange(4, rest@.len() as int),
        ),
        admin_precheck(rest@) is None && rest@[0] == 0x02 ==> r@ == get_log_page_reply(
            old(s),
            u16_at(rest@, 2),
            rest@.subrange(4, rest@.len() as int),
        ),
        admin_precheck(rest@) is None && rest@[0] == 0x15 ==> {
            &&& r@ == attachment_reply(old(s).ctlrs@, rest@.subrange(4, rest@.len() as int))
            &&& attachments_of(final(s).ctlrs@) == attachments_after(
                old(s).ctlrs@,
                rest@.subrange(4, rest@.len() as int),
            )
            &&& final(s).nss@ == old(s).nss@
        },
        r@ is Body ==> r@->Body_0.len() >= 16,
{
    if rest.len() < 4 {
        return Handled::Status(ResponseStatus::InvalidCommandSize);
    }
    let op = rest[0];
    let cflgs = rest[1];
    let ctlid = read_u16(rest, 2);
    let b = vstd::slice::slice_subrange(rest, 4, rest.len());
    if !admin_request_parses_exec(op, b) {
        return Handled::Status(ResponseStatus::InvalidCommandSize);
    }
    if cflgs & 4 != 0 {
        return Handled::Status(ResponseStatus::InternalError);
    }
    if admin_opcode_prohibited_exec(op) {
        return Handled::Status(ResponseStatus::InvalidCommandOpcode);
    }
    if op == 0x02 {
        get_log_page(s, ctlid, b)
    } else if op == 0x06 {
        identify(s, ctlid, b)
    } else if op == 0x0d {
        namespace_management(s, b)
    } else if op == 0x15 {
        namespace_attachment(s, b)
    } else {
        Handled::Status(ResponseStatus::InternalError)
    }
}

} // verus!
