//! Properties that hold across operations of the library, stated over the
//! same spec functions that the operations' contracts use.
use vstd::prelude::*;
use crate::admin::{identify_reply, SQE_LEN};
use crate::health::{percentage_used, spare_percent};
use crate::management::{
    apply_effect, configuration_get_reply, configuration_set_ccsf, configuration_set_reply,
    controller_list, cwarn_byte, health_entry, health_status_poll_reply, le16_list, mi_csts,
};
use crate::mi::{smbus_frequency_of, CCS_DEFINED};
use crate::model::{
    attachments_within, namespace_listed, CommandEffect, Controller, Namespace, NamespaceId, Port,
    PortId, Subsystem, NSID_BROADCAST,
};
use crate::reply::Reply;
use crate::wire::{le16, lemma_le16_round_trip, u16_at, u32_at};

verus! {

/// No live namespace of a well-formed subsystem carries identifier 0 or the
/// broadcast identifier, and none carries one above the allocation mark.
pub proof fn lemma_live_namespace_ids(s: &Subsystem, i: int)
    requires
        s.wf(),
        0 <= i < s.nss@.len(),
    ensures
        s.nss@[i].id.0 != 0,
        s.nss@[i].id.0 != NSID_BROADCAST,
        s.nss@[i].id.0 <= s.nsids,
{
}

/// Every controller of a well-formed subsystem has no more spare than
/// capacity.
pub proof fn lemma_spare_within_capacity(s: &Subsystem, i: int)
    requires
        s.wf(),
        0 <= i < s.ctlrs@.len(),
    ensures
        s.ctlrs@[i].spare <= s.ctlrs@[i].capacity,
{
}

/// No controller of a well-formed subsystem has a namespace attached twice.
pub proof fn lemma_attachments_unique(s: &Subsystem, c: int, j: int, k: int)
    requires
        s.wf(),
        0 <= c < s.ctlrs@.len(),
        0 <= j < s.ctlrs@[c].active_ns@.len(),
        0 <= k < s.ctlrs@[c].active_ns@.len(),
        j != k,
    ensures
        s.ctlrs@[c].active_ns@[j] != s.ctlrs@[c].active_ns@[k],
{
    assert(s.ctlrs@[c].wf());
}

/// Attaching a namespace that exists keeps every attachment pointing at an
/// existing namespace.
pub proof fn lemma_attach_existing_keeps_attachments(
    ctlrs: Seq<Controller>,
    nss: Seq<Namespace>,
    c: int,
    updated: Controller,
    nsid: NamespaceId,
)
    requires
        attachments_within(ctlrs, nss),
        0 <= c < ctlrs.len(),
        namespace_listed(nss, nsid.0),
        updated.active_ns@ == ctlrs[c].active_ns@.push(nsid) || updated.active_ns@
            == ctlrs[c].active_ns@,
    ensures
        attachments_within(ctlrs.update(c, updated), nss),
{
    let after = ctlrs.update(c, updated);
    assert forall|a: int, k: int|
        0 <= a < after.len() && 0 <= k < after[a].active_ns@.len() implies namespace_listed(
        nss,
        #[trigger] after[a].active_ns@[k].0,
    ) by {
        if a == c && k == ctlrs[c].active_ns@.len() {
            assert(after[a].active_ns@[k] == nsid);
        } else if a == c {
            assert(after[a].active_ns@[k] == ctlrs[c].active_ns@[k]);
            assert(namespace_listed(nss, ctlrs[c].active_ns@[k].0));
        } else {
            assert(namespace_listed(nss, ctlrs[a].active_ns@[k].0));
        }
    }
}

/// A successful Identify response carries the 16-byte admin response header
/// and exactly DLEN bytes of data.
pub proof fn lemma_identify_payload_length(s: &Subsystem, ctlid: u16, b: Seq<u8>)
    requires
        s.wf(),
        b.len() >= SQE_LEN,
        identify_reply(s, ctlid, b) is Body,
    ensures
        identify_reply(s, ctlid, b)->Body_0.len() == 16 + u32_at(b, 24),
{
}

/// A Configuration Set of the SMBus frequency of a two-wire port, to a
/// frequency the port supports, asks the application for that frequency;
/// once applied, a Configuration Get of the same port returns it.
pub proof fn lemma_smbus_set_then_get(ports: Seq<Port>, set_body: Seq<u8>, get_body: Seq<u8>)
    requires
        set_body.len() == 8,
        set_body[0] == 1,
        get_body.len() == 8,
        get_body[0] == 1,
        get_body[1] <= 3,
        get_body[3] == set_body[3],
        (set_body[3] as int) < ports.len(),
        ports[set_body[3] as int].typ is TwoWire,
        set_body[1] <= ports[set_body[3] as int].typ->TwoWire_0.msmbfreq.spec_id(),
    ensures
        ({
            let e = CommandEffect::SetSmbusFreq {
                port_id: PortId(set_body[3]),
                freq: smbus_frequency_of(set_body[1])->Some_0,
            };
            &&& configuration_set_reply(ports, set_body) == Reply::Effect(e)
            &&& configuration_get_reply(apply_effect(ports, e), get_body) == Reply::Body(
                seq![0u8, set_body[1], 0u8, 0u8],
            )
        }),
{
}

/// A Configuration Set of Health Status Change with a valid mask clears the
/// composite controller status bits the mask names; an NVM Subsystem
/// Health Status Poll then reports what is left, and repeating the same
/// Set changes nothing more.
pub proof fn lemma_health_status_change_then_poll(
    s: &Subsystem,
    ccsf: u16,
    set_body: Seq<u8>,
    poll_body: Seq<u8>,
)
    requires
        s.wf(),
        set_body.len() == 8,
        set_body[0] == 2,
        u32_at(set_body, 4) & !CCS_DEFINED == 0,
        poll_body.len() == 8,
        s.ctlrs@.len() > 0,
        s.ports@[s.ctlrs@[0].port.0 as int].typ is Pcie,
    ensures
        ({
            let cleared = ccsf & !(u32_at(set_body, 4) as u16);
            &&& configuration_set_ccsf(ccsf, set_body) == cleared
            &&& configuration_set_ccsf(cleared, set_body) == cleared
            &&& health_status_poll_reply(s, cleared, poll_body) is Body
            &&& u16_at(health_status_poll_reply(s, cleared, poll_body)->Body_0, 8) == cleared
        }),
{
    let m = u32_at(set_body, 4) as u16;
    let cleared = ccsf & !m;
    assert((ccsf & !m) & !m == ccsf & !m) by (bit_vector);
    let b = health_status_poll_reply(s, cleared, poll_body)->Body_0;
    lemma_le16_round_trip(cleared);
    assert(b.subrange(8, 10) =~= le16(cleared));
    assert(u16_at(b, 8) == u16_at(b.subrange(8, 10), 0));
}

/// Reads a controller health data structure back: identifier, status,
/// temperature, percentage used, spare, warnings and changed flags.
pub open spec fn decode_health_entry(b: Seq<u8>) -> (u16, u16, u16, u8, u8, u8, u16) {
    (u16_at(b, 0), u16_at(b, 2), u16_at(b, 4), b[6], b[7], b[8], u16_at(b, 9))
}

/// Decoding an encoded controller health data structure gives back its
/// fields.
pub proof fn lemma_health_entry_round_trip(c: &Controller, chsc: u16)
    ensures
        health_entry(c, chsc).len() == 16,
        decode_health_entry(health_entry(c, chsc)) == (
            c.id.0,
            mi_csts(c.csts),
            c.temp,
            percentage_used(c),
            spare_percent(c) as u8,
            cwarn_byte(c),
            chsc,
        ),
{
    let b = health_entry(c, chsc);
    lemma_le16_round_trip(c.id.0);
    lemma_le16_round_trip(mi_csts(c.csts));
    lemma_le16_round_trip(c.temp);
    lemma_le16_round_trip(chsc);
    assert(u16_at(b, 0) == u16_at(le16(c.id.0), 0));
    assert(u16_at(b, 2) == u16_at(le16(mi_csts(c.csts)), 0));
    assert(u16_at(b, 4) == u16_at(le16(c.temp), 0));
    assert(u16_at(b, 9) == u16_at(le16(chsc), 0));
}

/// Reads a controller list back: the count, then that many identifiers.
pub open spec fn decode_controller_list(b: Seq<u8>) -> Seq<u16> {
    Seq::new(u16_at(b, 0) as nat, |k: int| u16_at(b, 2 + 2 * k))
}

pub proof fn lemma_le16_list_len(ids: Seq<u16>)
    ensures
        le16_list(ids).len() == 2 * ids.len(),
    decreases ids.len(),
{
    if ids.len() > 0 {
        lemma_le16_list_len(ids.drop_last());
    }
}

pub proof fn lemma_le16_list_at(ids: Seq<u16>, k: int)
    requires
        0 <= k < ids.len(),
    ensures
        u16_at(le16_list(ids), 2 * k) == ids[k],
    decreases ids.len(),
{
    let prefix = le16_list(ids.drop_last());
    lemma_le16_list_len(ids.drop_last());
    lemma_le16_round_trip(ids.last());
    if k == ids.len() - 1 {
        assert(u16_at(prefix + le16(ids.last()), 2 * k) == u16_at(le16(ids.last()), 0));
    } else {
        lemma_le16_list_at(ids.drop_last(), k);
        assert(u16_at(prefix + le16(ids.last()), 2 * k) == u16_at(prefix, 2 * k));
    }
}

/// Decoding an encoded controller list gives back the identifiers.
pub proof fn lemma_controller_list_round_trip(ids: Seq<u16>)
    requires
        ids.len() <= 0xffff,
    ensures
        decode_controller_list(controller_list(ids)) == ids,
{
    let b = controller_list(ids);
    lemma_le16_round_trip(ids.len() as u16);
    lemma_le16_list_len(ids);
    assert(u16_at(b, 0) == u16_at(le16(ids.len() as u16), 0));
    assert forall|k: int| 0 <= k < ids.len() implies #[trigger] decode_controller_list(b)[k]
        == ids[k] by {
        lemma_le16_list_at(ids, k);
        assert(u16_at(b, 2 + 2 * k) == u16_at(le16_list(ids), 2 * k));
    }
    assert(decode_controller_list(b) =~= ids);
}

} // verus!
