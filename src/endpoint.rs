//! The request dispatcher: integrity check, outer message header, routing
//! by message type and opcode, and completion of commands whose effects the
//! application applies.
use vstd::prelude::*;
use crate::admin::{
    admin_command, admin_precheck, attachment_reply, attachments_after, attachments_of,
    get_log_page_reply, identify_reply, namespace_management_reply, namespace_management_state,
};
use crate::health::{all_changes, refreshed};
use crate::icv::{check_icv, icv_body, icv_valid};
use crate::management::{
    apply_effect, commit_effect, configuration_get, configuration_get_reply, configuration_set,
    configuration_set_ccsf, configuration_set_reply, controller_health_poll,
    controller_health_poll_reply, clear_changed_requested, clear_status_requested,
    effect_applicable, health_status_poll,
    health_status_poll_reply, read_data_structure, read_data_structure_reply,
};
use crate::mi::{message_type_of, MessageType, ResponseStatus};
use crate::model::{
    same_but_attachments, CommandEffect, CommandEffectError, ManagementEndpoint,
    ManagementEndpointControllerState, Subsystem,
};
use crate::reply::{
    action_for, build_frame, build_status_frame, finish, reply_frame, status_frame, Action,
    ActionView, Handled, Reply,
};
use crate::wire::{u16_at, zeros};

verus! {

/// Whether a message (without its integrity check value) is dropped at the
/// outer header: too short, for the second command slot, a response rather
/// than a request, or of an unknown message type.
pub open spec fn header_drops(body: Seq<u8>) -> bool {
    body.len() < 3 || body[0] & 0x01 != 0 || body[0] & 0x80 != 0 || message_type_of(
        (body[0] >> 3) & 0xf,
    ) is None
}

/// The message type named by the outer header.
pub open spec fn message_type(body: Seq<u8>) -> MessageType {
    message_type_of((body[0] >> 3) & 0xf)->Some_0
}

/// What follows the outer header.
pub open spec fn after_header(body: Seq<u8>) -> Seq<u8> {
    body.subrange(3, body.len() as int)
}

/// What follows the NVMe-MI command header of an NVMe-MI command.
pub open spec fn mi_body(rest: Seq<u8>) -> Seq<u8> {
    rest.subrange(4, rest.len() as int)
}

/// Whether an NVMe-MI command header parses: four bytes, and an opcode up
/// to Shutdown.
pub open spec fn mi_header_parses(rest: Seq<u8>) -> bool {
    rest.len() >= 4 && rest[0] <= 0x0c
}

/// The endpoint's per-controller cache after a Controller Health Status
/// Poll: registers kept, pending changed flags of the first `n` controllers
/// cleared when the poll asked for it, kept otherwise.
pub open spec fn changed_flags_after_poll(
    before: Seq<ManagementEndpointControllerState>,
    after: Seq<ManagementEndpointControllerState>,
    n: int,
    cleared: bool,
) -> bool {
    &&& after.len() == before.len()
    &&& forall|i: int|
        0 <= i < after.len() ==> {
            &&& (#[trigger] after[i]).cc == before[i].cc
            &&& after[i].csts == before[i].csts
            &&& after[i].chscf == if cleared && i < n {
                0
            } else {
                before[i].chscf
            }
        }
}

/// The NVMe-MI opcode of a message that reaches an NVMe-MI command handler.
pub open spec fn routed_mi_opcode(msg: Seq<u8>, ic: bool) -> Option<u8> {
    let body = icv_body(msg);
    let rest = after_header(body);
    if ic && icv_valid(msg) && !header_drops(body) && message_type(body)
        == MessageType::NvmeMiCommand && mi_header_parses(rest) {
        Some(rest[0])
    } else {
        None
    }
}

fn nvme_mi_command(mep: &mut ManagementEndpoint, s: &mut Subsystem, rest: &[u8]) -> (r: Handled)
    requires
        old(mep).wf(),
        old(s).wf(),
    ensures
        final(mep).wf(),
        final(s).wf(),
        final(s).nsids == old(s).nsids,
        final(s).info == old(s).info,
        final(s).ports@ == old(s).ports@,
        final(s).ctlrs@ == old(s).ctlrs@,
        final(s).nss@ == old(s).nss@,
        !mi_header_parses(rest@) ==> r@ == Reply::Status(ResponseStatus::InvalidCommandSize),
        mi_header_parses(rest@) && rest@[0] >= 0x05 ==> r@ == Reply::Status(
            ResponseStatus::InternalError,
        ),
        mi_header_parses(rest@) && rest@[0] == 0x00 ==> r@ == read_data_structure_reply(
            old(s),
            mi_body(rest@),
        ),
        mi_header_parses(rest@) && rest@[0] == 0x01 ==> r@ == health_status_poll_reply(
            old(s),
            old(mep).ccsf.bits,
            mi_body(rest@),
        ) && final(mep).ccsf.bits == if r@ is Body && clear_status_requested(mi_body(rest@)) {
            0
        } else {
            old(mep).ccsf.bits
        },
        mi_header_parses(rest@) && rest@[0] == 0x03 ==> final(mep).ccsf.bits
            == configuration_set_ccsf(old(mep).ccsf.bits, mi_body(rest@)),
        !(mi_header_parses(rest@) && (rest@[0] == 0x01 || rest@[0] == 0x03)) ==> final(mep).ccsf == old(mep).ccsf,
        !(mi_header_parses(rest@) && rest@[0] == 0x02) ==> final(mep).mecss@ == old(mep).mecss@,
        mi_header_parses(rest@) && rest@[0] == 0x02 ==> changed_flags_after_poll(
            old(mep).mecss@,
            final(mep).mecss@,
            old(s).ctlrs@.len() as int,
            r@ is Body && clear_changed_requested(mi_body(rest@)),
        ),
        mi_header_parses(rest@) && rest@[0] == 0x02 ==> r@ == controller_health_poll_reply(
            old(s),
            old(mep).mecss@,
            mi_body(rest@),
        ),
        mi_header_parses(rest@) && rest@[0] == 0x03 ==> r@ == configuration_set_reply(
            old(s).ports@,
            mi_body(rest@),
        ),
        mi_header_parses(rest@) && rest@[0] == 0x04 ==> r@ == configuration_get_reply(
            old(s).ports@,
            mi_body(rest@),
        ),
{
    if rest.len() < 4 || rest[0] > 0x0c {
        return Handled::Status(ResponseStatus::InvalidCommandSize);
    }
    let body = vstd::slice::slice_subrange(rest, 4, rest.len());
    let op = rest[0];
    if op == 0x00 {
        read_data_structure(s, body)
    } else if op == 0x01 {
        health_status_poll(mep, s, body)
    } else if op == 0x02 {
        controller_health_poll(mep, s, body)
    } else if op == 0x03 {
        configuration_set(mep, s, body)
    } else if op == 0x04 {
        configuration_get(s, body)
    } else {
        Handled::Status(ResponseStatus::InternalError)
    }
}

impl ManagementEndpoint {
    /// Handles one inbound message. The composite controller status is
    /// brought up to date first; then a message without a valid integrity
    /// check, or whose outer header is not a request of a known type, is
    /// dropped; otherwise the command runs and its outcome decides the
    /// action.
    pub fn handle(&mut self, subsys: &mut Subsystem, msg: &[u8], ic: bool) -> (r: Action)
        requires
            old(self).wf(),
            old(subsys).wf(),
        ensures
            final(self).wf(),
            final(subsys).wf(),
            final(subsys).nsids >= old(subsys).nsids,
            final(subsys).info == old(subsys).info,
            final(subsys).ports@ == old(subsys).ports@,
            final(subsys).ctlrs@.len() == old(subsys).ctlrs@.len(),
            forall|i: int|
                0 <= i < final(subsys).ctlrs@.len() ==> same_but_attachments(
                    #[trigger] final(subsys).ctlrs@[i],
                    old(subsys).ctlrs@[i],
                ),
            r@ is Drop ==> final(subsys).ctlrs@ == old(subsys).ctlrs@ && final(subsys).nss@ == old(
                subsys).nss@ && final(subsys).nsids == old(subsys).nsids,
            routed_mi_opcode(msg@, ic) != Some(0x02u8) ==> final(self).mecss@ == refreshed(
                old(self).mecss@,
                old(subsys).ctlrs@,
            ),
            routed_mi_opcode(msg@, ic) == Some(0x02u8) ==> changed_flags_after_poll(
                refreshed(old(self).mecss@, old(subsys).ctlrs@),
                final(self).mecss@,
                old(subsys).ctlrs@.len() as int,
                controller_health_poll_reply(
                    old(subsys),
                    refreshed(old(self).mecss@, old(subsys).ctlrs@),
                    mi_body(after_header(icv_body(msg@))),
                ) is Body && clear_changed_requested(mi_body(after_header(icv_body(msg@)))),
            ),
            routed_mi_opcode(msg@, ic) != Some(0x01u8) && routed_mi_opcode(msg@, ic) != Some(
                0x03u8,
            ) ==> final(self).ccsf.bits == old(self).ccsf.bits | all_changes(
                old(self).mecss@,
                old(subsys).ctlrs@,
                old(subsys).ctlrs@.len() as int,
            ),
            r@ matches ActionView::Respond(f) ==> icv_valid(f),
            !ic || !icv_valid(msg@) ==> r@ is Drop,
            ic && icv_valid(msg@) && header_drops(icv_body(msg@)) ==> r@ is Drop,
            ic && icv_valid(msg@) && !header_drops(icv_body(msg@)) ==> {
                let body = icv_body(msg@);
                let t = message_type(body);
                let rest = after_header(body);
                let ccsf = old(self).ccsf.bits | all_changes(
                    old(self).mecss@,
                    old(subsys).ctlrs@,
                    old(subsys).ctlrs@.len() as int,
                );
                &&& t != MessageType::NvmeMiCommand && t != MessageType::NvmeAdminCommand ==> r@
                    == ActionView::Respond(status_frame(t, ResponseStatus::InternalError))
                &&& t == MessageType::NvmeMiCommand && !mi_header_parses(rest) ==> r@
                    == ActionView::Respond(status_frame(t, ResponseStatus::InvalidCommandSize))
                &&& t == MessageType::NvmeMiCommand && mi_header_parses(rest) && rest[0] >= 0x05
                    ==> r@ == ActionView::Respond(status_frame(t, ResponseStatus::InternalError))
                &&& t == MessageType::NvmeMiCommand && mi_header_parses(rest) && rest[0] == 0x00
                    ==> r@ == action_for(t, read_data_structure_reply(old(subsys), mi_body(rest)))
                &&& t == MessageType::NvmeMiCommand ==> final(subsys).ports@ == old(subsys).ports@
                    && final(subsys).ctlrs@ == old(subsys).ctlrs@ && final(subsys).nss@ == old(subsys).nss@
                &&& t == MessageType::NvmeMiCommand && mi_header_parses(rest) && rest[0] == 0x01
                    ==> r@ == action_for(
                    t,
                    health_status_poll_reply(old(subsys), ccsf, mi_body(rest)),
                ) && final(self).ccsf.bits == if health_status_poll_reply(
                    old(subsys),
                    ccsf,
                    mi_body(rest),
                ) is Body && clear_status_requested(mi_body(rest)) {
                    0
                } else {
                    ccsf
                }
                &&& t == MessageType::NvmeMiCommand && mi_header_parses(rest) && rest[0] == 0x03
                    ==> final(self).ccsf.bits == configuration_set_ccsf(ccsf, mi_body(rest))
                &&& t == MessageType::NvmeMiCommand && mi_header_parses(rest) && rest[0] == 0x02
                    ==> r@ == action_for(
                    t,
                    controller_health_poll_reply(
                        old(subsys),
                        refreshed(old(self).mecss@, old(subsys).ctlrs@),
                        mi_body(rest),
                    ),
                )
                &&& t == MessageType::NvmeMiCommand && mi_header_parses(rest) && rest[0] == 0x03
                    ==> r@ == action_for(
                    t,
                    configuration_set_reply(old(subsys).ports@, mi_body(rest)),
                )
                &&& t == MessageType::NvmeMiCommand && mi_header_parses(rest) && rest[0] == 0x04
                    ==> r@ == action_for(
                    t,
                    configuration_get_reply(old(subsys).ports@, mi_body(rest)),
                )
                &&& t == MessageType::NvmeAdminCommand && admin_precheck(rest) is Some ==> r@
                    == ActionView::Respond(status_frame(t, admin_precheck(rest)->Some_0))
                &&& t == MessageType::NvmeAdminCommand && admin_precheck(rest) is None && rest[0]
                    == 0x06 ==> r@ == action_for(
                    t,
                    identify_reply(old(subsys), u16_at(rest, 2), rest.subrange(4, rest.len() as int)),
                )
                &&& t == MessageType::NvmeAdminCommand && admin_precheck(rest) is None && rest[0]
                    == 0x15 ==> {
                    &&& r@ == action_for(
                        t,
                        attachment_reply(old(subsys).ctlrs@, rest.subrange(4, rest.len() as int)),
                    )
                    &&& attachments_of(final(subsys).ctlrs@) == attachments_after(
                        old(subsys).ctlrs@,
                        rest.subrange(4, rest.len() as int),
                    )
                    &&& final(subsys).nss@ == old(subsys).nss@
                }
                &&& t == MessageType::NvmeAdminCommand && admin_precheck(rest) is None && rest[0]
                    == 0x0d ==> {
                    &&& r@ == action_for(
                        t,
                        namespace_management_reply(old(subsys), rest.subrange(4, rest.len() as int)),
                    )
                    &&& namespace_management_state(
                        old(subsys),
                        rest.subrange(4, rest.len() as int),
                        final(subsys).nsids,
                        final(subsys).nss@,
                    )
                }
                &&& t == MessageType::NvmeAdminCommand && admin_precheck(rest) is None && rest[0]
                    == 0x02 ==> r@ == action_for(
                    t,
                    get_log_page_reply(
                        old(subsys),
                        u16_at(rest, 2),
                        rest.subrange(4, rest.len() as int),
                    ),
                )
            },
    {
        self.update(subsys);
        if !ic {
            return Action::Drop;
        }
        if !check_icv(msg) {
            return Action::Drop;
        }
        let n = msg.len() - 4;
        let body = vstd::slice::slice_subrange(msg, 0, n);
        assert(body@ == icv_body(msg@));
        if n < 3 {
            return Action::Drop;
        }
        let b0 = body[0];
        if b0 & 0x01 != 0 || b0 & 0x80 != 0 {
            return Action::Drop;
        }
        let t = match MessageType::try_from_u8((b0 >> 3) & 0xf) {
            Some(t) => t,
            None => {
                return Action::Drop;
            },
        };
        let rest = vstd::slice::slice_subrange(body, 3, n);
        let h = match t {
            MessageType::NvmeMiCommand => nvme_mi_command(self, subsys, rest),
            MessageType::NvmeAdminCommand => admin_command(subsys, rest),
            _ => Handled::Status(ResponseStatus::InternalError),
        };
        finish(t, h)
    }

    /// Completes a Configuration Set whose effect the application tried to
    /// apply: on success the port takes the new setting, on failure the
    /// command reports an internal error.
    pub fn complete(
        &self,
        subsys: &mut Subsystem,
        effect: CommandEffect,
        outcome: Result<(), CommandEffectError>,
    ) -> (r: Vec<u8>)
        requires
            old(subsys).wf(),
        ensures
            final(subsys).wf(),
            final(subsys).nsids == old(subsys).nsids,
            final(subsys).info == old(subsys).info,
            final(subsys).ctlrs@ == old(subsys).ctlrs@,
            final(subsys).nss@ == old(subsys).nss@,
            icv_valid(r@),
            outcome is Err ==> r@ == status_frame(
                MessageType::NvmeMiCommand,
                ResponseStatus::InternalError,
            ) && final(subsys).ports@ == old(subsys).ports@,
            outcome is Ok && effect_applicable(old(subsys).ports@, effect) ==> r@ == reply_frame(
                MessageType::NvmeMiCommand,
                zeros(4),
            ) && final(subsys).ports@ == apply_effect(old(subsys).ports@, effect),
            outcome is Ok && !effect_applicable(old(subsys).ports@, effect) ==> r@ == status_frame(
                MessageType::NvmeMiCommand,
                ResponseStatus::InvalidParameter,
            ) && final(subsys).ports@ == old(subsys).ports@,
    {
        match outcome {
            Err(_) => build_status_frame(MessageType::NvmeMiCommand, ResponseStatus::InternalError),
            Ok(()) => {
                if commit_effect(subsys, &effect) {
                    let mut v: Vec<u8> = Vec::new();
                    crate::wire::push_zeros(&mut v, 4);
                    build_frame(MessageType::NvmeMiCommand, &v)
                } else {
                    build_status_frame(MessageType::NvmeMiCommand, ResponseStatus::InvalidParameter)
                }
            },
        }
    }
}

} // verus!
