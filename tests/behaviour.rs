use nvme_mi_dev::admin::admin_constrain_body;
use nvme_mi_dev::mi::ResponseStatus;
use nvme_mi_dev::pcie::PciDeviceFunctionConfigurationSpace;
use nvme_mi_dev::wire::{WireFlagSet, WireString, WireVec};
use nvme_mi_dev::{
    Action, ControllerConfiguration, ControllerError, ControllerId, ControllerProperties,
    ManagementEndpoint, NamespaceId, PciePort, PortType, Subsystem,
    SubsystemError, SubsystemInfo, TwoWirePort,
};

fn device(namespaces: usize, attach: bool) -> (ManagementEndpoint, Subsystem) {
    let mut subsys = Subsystem::new(SubsystemInfo::invalid());
    let ppid = subsys.add_port(PortType::Pcie(PciePort::new())).unwrap();
    let twpid = subsys.add_port(PortType::TwoWire(TwoWirePort::new())).unwrap();
    let mep = ManagementEndpoint::new(twpid);
    let ctlrid = subsys.add_controller(ppid).unwrap();
    for _ in 0..namespaces {
        let nsid = subsys.add_namespace(1024).unwrap();
        if attach {
            subsys.controller_mut(ctlrid).attach_namespace(nsid).unwrap();
        }
    }
    (mep, subsys)
}

fn exchange(mep: &mut ManagementEndpoint, subsys: &mut Subsystem, req: &[u8]) -> Option<Vec<u8>> {
    match mep.handle(subsys, req, true) {
        Action::Drop => None,
        Action::Respond(frame) => Some(frame),
        Action::Apply(effect) => Some(mep.complete(subsys, effect, Ok(()))),
    }
}

fn identify_request(nsid: u32, dofst: u32, dlen: u32, cns: u8) -> Vec<u8> {
    let mut body = vec![0x10, 0x00, 0x00, 0x06, 0x00, 0x00, 0x00];
    let mut sqe = vec![0u8; 60];
    sqe[0..4].copy_from_slice(&nsid.to_le_bytes());
    sqe[20..24].copy_from_slice(&dofst.to_le_bytes());
    sqe[24..28].copy_from_slice(&dlen.to_le_bytes());
    sqe[36] = cns;
    body.extend_from_slice(&sqe);
    body
}

#[test]
fn icv_mismatch_seven_bytes_is_dropped() {
    let (mut mep, mut subsys) = device(0, false);
    let req = [0x08, 0x00, 0x00, 0xc9, 0x00, 0xee, 0xe8];
    assert_eq!(exchange(&mut mep, &mut subsys, &req), None);
}

#[test]
fn prohibited_admin_opcode() {
    let (mut mep, mut subsys) = device(0, false);
    let req = [0x10, 0x00, 0x00, 0x00, 0x00, 0x00, 0x00, 0x25, 0x5c, 0x6f, 0x05];
    let resp = [0x90, 0x00, 0x00, 0x03, 0x00, 0x00, 0x00, 0xe8, 0xdb, 0x23, 0x92];
    assert_eq!(exchange(&mut mep, &mut subsys, &req), Some(resp.to_vec()));
}

#[test]
fn ignore_shutdown_state_is_internal_error() {
    let (mut mep, mut subsys) = device(1, true);
    let mut req = identify_request(1, 0, 4096, 0x00);
    req[4] = 0x04;
    req.extend_from_slice(&[0xbf, 0xd4, 0xe5, 0x3a]);
    let resp = [0x90, 0x00, 0x00, 0x02, 0x00, 0x00, 0x00, 0x50, 0x71, 0x66, 0x4f];
    assert_eq!(exchange(&mut mep, &mut subsys, &req), Some(resp.to_vec()));
}

#[test]
fn identify_namespace_attached() {
    let (mut mep, mut subsys) = device(1, true);
    let mut req = identify_request(1, 0, 4096, 0x00);
    req.extend_from_slice(&[0x49, 0xb0, 0xa7, 0x22]);
    let frame = exchange(&mut mep, &mut subsys, &req).unwrap();
    assert_eq!(frame.len(), 3 + 16 + 4096 + 4);
    assert_eq!(&frame[0..3], &[0x90, 0x00, 0x00]);
    assert_eq!(&frame[3..19], &[0, 0, 0, 0, 0, 0, 0, 0, 0, 0, 0, 0, 0x00, 0x00, 0x01, 0x00]);
    let data = &frame[19..19 + 4096];
    assert_eq!(u64::from_le_bytes(data[0..8].try_into().unwrap()), 1024);
    assert_eq!(u64::from_le_bytes(data[8..16].try_into().unwrap()), 1024);
    assert_eq!(u64::from_le_bytes(data[16..24].try_into().unwrap()), 0);
    assert_eq!(data[24], 1);
    assert_eq!(u128::from_le_bytes(data[48..64].try_into().unwrap()), 524288);
    assert_eq!(data[130], 9);
}

#[test]
fn identify_namespace_not_attached_is_zero() {
    let (mut mep, mut subsys) = device(1, false);
    let mut req = identify_request(1, 0, 4096, 0x00);
    req.extend_from_slice(&[0x49, 0xb0, 0xa7, 0x22]);
    let frame = exchange(&mut mep, &mut subsys, &req).unwrap();
    assert_eq!(frame.len(), 3 + 16 + 4096 + 4);
    assert!(frame[19..19 + 4096].iter().all(|b| *b == 0));
}

#[test]
fn identify_window_has_dlen_bytes() {
    let (mut mep, mut subsys) = device(1, true);
    let mut req = identify_request(1, 0, 8, 0x00);
    req.extend_from_slice(&[0x8a, 0x94, 0x9f, 0xae]);
    let resp = [
        0x90, 0x00, 0x00, 0x00, 0x00, 0x00, 0x00, 0x00, 0x00, 0x00, 0x00, 0x00, 0x00, 0x00, 0x00,
        0x00, 0x00, 0x01, 0x00, 0x00, 0x04, 0x00, 0x00, 0x00, 0x00, 0x00, 0x00, 0x35, 0x0f, 0x7b,
        0x50,
    ];
    assert_eq!(exchange(&mut mep, &mut subsys, &req), Some(resp.to_vec()));
}

#[test]
fn identify_unaligned_window_is_invalid_parameter() {
    let (mut mep, mut subsys) = device(1, true);
    let mut req = identify_request(1, 2, 8, 0x00);
    req.extend_from_slice(&[0x2d, 0xc8, 0xf3, 0x10]);
    let resp = [0x90, 0x00, 0x00, 0x04, 0x00, 0x00, 0x00, 0x22, 0x63, 0x23, 0x8b];
    assert_eq!(exchange(&mut mep, &mut subsys, &req), Some(resp.to_vec()));
}

#[test]
fn namespace_descriptor_list_carries_derived_uuid() {
    let (mut mep, mut subsys) = device(1, true);
    let mut req = identify_request(1, 0, 40, 0x03);
    req.extend_from_slice(&[0x4f, 0xe4, 0x5d, 0x00]);
    let frame = exchange(&mut mep, &mut subsys, &req).unwrap();
    let uuid = [
        0xf7, 0xce, 0x0b, 0x65, 0x3d, 0x2d, 0x42, 0xa4, 0x90, 0x8c, 0xf5, 0xab, 0xe9, 0x12, 0xff,
        0xdd,
    ];
    assert_eq!(&frame[19..23], &[3, 16, 0, 0]);
    assert_eq!(&frame[23..39], &uuid);
    assert_eq!(&frame[39..44], &[4, 1, 0, 0, 0]);
    assert_eq!(&frame[frame.len() - 4..], &[0xae, 0x1d, 0xc8, 0xa0]);
}

#[test]
fn smbus_frequency_set_then_get() {
    let (mut mep, mut subsys) = device(0, false);
    let set = [
        0x08, 0x00, 0x00, 0x03, 0x00, 0x00, 0x00, 0x01, 0x02, 0x00, 0x01, 0x00, 0x00, 0x00, 0x00,
        0xa9, 0x37, 0xbf, 0xf5,
    ];
    let success = [0x88, 0x00, 0x00, 0x00, 0x00, 0x00, 0x00, 0x24, 0x55, 0x77, 0x22];
    assert_eq!(exchange(&mut mep, &mut subsys, &set), Some(success.to_vec()));
    let get = [
        0x08, 0x00, 0x00, 0x04, 0x00, 0x00, 0x00, 0x01, 0x00, 0x00, 0x01, 0x00, 0x00, 0x00, 0x00,
        0xa9, 0x42, 0xec, 0xb3,
    ];
    let resp = [0x88, 0x00, 0x00, 0x00, 0x02, 0x00, 0x00, 0x29, 0x07, 0x18, 0x6d];
    assert_eq!(exchange(&mut mep, &mut subsys, &get), Some(resp.to_vec()));
}

#[test]
fn smbus_frequency_effect_failure_keeps_setting() {
    let (mut mep, mut subsys) = device(0, false);
    let set = [
        0x08, 0x00, 0x00, 0x03, 0x00, 0x00, 0x00, 0x01, 0x02, 0x00, 0x01, 0x00, 0x00, 0x00, 0x00,
        0xa9, 0x37, 0xbf, 0xf5,
    ];
    let effect = match mep.handle(&mut subsys, &set, true) {
        Action::Apply(e) => e,
        _ => panic!("expected an effect"),
    };
    let frame = mep.complete(&mut subsys, effect, Err(nvme_mi_dev::CommandEffectError::Unsupported));
    assert_eq!(&frame[0..7], &[0x88, 0x00, 0x00, 0x02, 0x00, 0x00, 0x00]);
    let get = [
        0x08, 0x00, 0x00, 0x04, 0x00, 0x00, 0x00, 0x01, 0x00, 0x00, 0x01, 0x00, 0x00, 0x00, 0x00,
        0xa9, 0x42, 0xec, 0xb3,
    ];
    let resp = [0x88, 0x00, 0x00, 0x00, 0x01, 0x00, 0x00, 0x5a, 0xc7, 0x36, 0x87];
    assert_eq!(exchange(&mut mep, &mut subsys, &get), Some(resp.to_vec()));
}

#[test]
fn namespace_delete_unknown() {
    let (mut mep, mut subsys) = device(1, false);
    let mut req = vec![0x10, 0x00, 0x00, 0x0d, 0x00, 0x00, 0x00];
    let mut sqe = vec![0u8; 60];
    sqe[0] = 5;
    sqe[36] = 1;
    req.extend_from_slice(&sqe);
    req.extend_from_slice(&[0x8d, 0xc8, 0x0b, 0x6e]);
    let resp = [
        0x90, 0x00, 0x00, 0x00, 0x00, 0x00, 0x00, 0x05, 0x00, 0x00, 0x00, 0x00, 0x00, 0x00, 0x00,
        0x00, 0x00, 0x2d, 0x82, 0x29, 0x5b, 0xcc, 0xa0,
    ];
    assert_eq!(exchange(&mut mep, &mut subsys, &req), Some(resp.to_vec()));
}

#[test]
fn smart_log_page_window() {
    let (mut mep, mut subsys) = device(0, false);
    let mut req = vec![0x10, 0x00, 0x00, 0x02, 0x00, 0x00, 0x00];
    let mut sqe = vec![0u8; 60];
    sqe[24] = 8;
    sqe[36] = 0x02;
    sqe[38] = 0x7f;
    req.extend_from_slice(&sqe);
    req.extend_from_slice(&[0xd3, 0x50, 0xa2, 0x37]);
    let resp = [
        0x90, 0x00, 0x00, 0x00, 0x00, 0x00, 0x00, 0x00, 0x00, 0x00, 0x00, 0x00, 0x00, 0x00, 0x00,
        0x00, 0x00, 0x01, 0x00, 0x00, 0x25, 0x01, 0x64, 0x05, 0x26, 0x00, 0x00, 0x58, 0x3c, 0x3d,
        0xb0,
    ];
    assert_eq!(exchange(&mut mep, &mut subsys, &req), Some(resp.to_vec()));
}

#[test]
fn constrain_body_window() {
    let body: Vec<u8> = (0u8..16).collect();
    assert_eq!(admin_constrain_body(4, 8, &body).unwrap(), vec![4, 5, 6, 7, 8, 9, 10, 11]);
    assert_eq!(admin_constrain_body(1, 4, &body).unwrap_err(), ResponseStatus::InvalidParameter);
    assert_eq!(admin_constrain_body(16, 4, &body).unwrap_err(), ResponseStatus::InvalidParameter);
    assert_eq!(admin_constrain_body(0, 6, &body).unwrap_err(), ResponseStatus::InvalidParameter);
    assert_eq!(admin_constrain_body(0, 0, &body).unwrap_err(), ResponseStatus::InvalidParameter);
    assert_eq!(admin_constrain_body(12, 8, &body).unwrap_err(), ResponseStatus::InvalidParameter);
    let big = vec![0u8; 8192];
    assert_eq!(admin_constrain_body(0, 4100, &big).unwrap_err(), ResponseStatus::InvalidParameter);
    assert_eq!(admin_constrain_body(0, 4096, &big).unwrap().len(), 4096);
}

#[test]
fn namespace_ids_are_not_reused() {
    let (_mep, mut subsys) = device(0, false);
    let a = subsys.add_namespace(10).unwrap();
    let b = subsys.add_namespace(10).unwrap();
    assert_eq!((a, b), (NamespaceId(1), NamespaceId(2)));
    subsys.remove_namespace(b).unwrap();
    assert_eq!(subsys.remove_namespace(b), Err(SubsystemError::NamespaceIdentifierUnavailable));
    let c = subsys.add_namespace(10).unwrap();
    assert_eq!(c, NamespaceId(3));
    subsys.remove_namespace(NamespaceId(u32::MAX)).unwrap();
    assert_eq!(subsys.nss.len(), 0);
    assert_eq!(subsys.add_namespace(10).unwrap(), NamespaceId(4));
}

#[test]
fn namespace_table_full() {
    let (_mep, mut subsys) = device(4, false);
    assert_eq!(subsys.add_namespace(10), Err(SubsystemError::NamespaceIdentifierUnavailable));
    assert_eq!(subsys.nsids, 5);
}

#[test]
fn controller_limit() {
    let (_mep, mut subsys) = device(0, false);
    subsys.add_controller(nvme_mi_dev::PortId(0)).unwrap();
    assert_eq!(
        subsys.add_controller(nvme_mi_dev::PortId(0)),
        Err(SubsystemError::ControllerLimitExceeded)
    );
    let c = &subsys.ctlrs[0];
    assert!(c.spare <= c.capacity);
}

#[test]
fn attach_and_detach_errors() {
    let (_mep, mut subsys) = device(0, false);
    let c = subsys.controller_mut(ControllerId(0));
    c.attach_namespace(NamespaceId(1)).unwrap();
    assert_eq!(c.attach_namespace(NamespaceId(1)), Err(ControllerError::NamespaceAlreadyAttached));
    c.attach_namespace(NamespaceId(2)).unwrap();
    c.attach_namespace(NamespaceId(3)).unwrap();
    c.attach_namespace(NamespaceId(4)).unwrap();
    assert_eq!(
        c.attach_namespace(NamespaceId(5)),
        Err(ControllerError::NamespaceAttachmentLimitExceeded)
    );
    c.detach_namespace(NamespaceId(1)).unwrap();
    assert_eq!(c.detach_namespace(NamespaceId(1)), Err(ControllerError::NamespaceNotAttached));
    assert_eq!(c.active_ns.len(), 3);
}

#[test]
fn subsystem_info_placeholder() {
    let info = SubsystemInfo::invalid();
    assert_eq!((info.pci_vid, info.pci_did, info.pci_svid, info.pci_sdid), (0xffff, 0xffff, 0xffff, 0xffff));
    assert_eq!(info.ieee_oui, [0xac, 0xde, 0x48]);
}

#[test]
fn pcie_builder_sets_identifiers() {
    let cs = PciDeviceFunctionConfigurationSpace::builder()
        .vid(0x1234)
        .did(0x5678)
        .svid(0x9abc)
        .sdid(0xdef0)
        .build();
    assert_eq!((cs.vid, cs.did, cs.svid, cs.sdid), (0x1234, 0x5678, 0x9abc, 0xdef0));
    assert_eq!(cs.cc, 0x010803);
    let d = PciDeviceFunctionConfigurationSpace::new();
    assert_eq!(d.vid, 0xffff);
    match d.caps[0] {
        nvme_mi_dev::pcie::PciCapabilityType::PciPowerManagement(pm) => assert_eq!(pm.pmc, 0x0013),
        _ => panic!("power management capability expected first"),
    }
}

fn attachment_request(nsid: u8, cid: u8, icv: [u8; 4]) -> Vec<u8> {
    let mut req = vec![0x10, 0x00, 0x00, 0x15, 0x00, 0x00, 0x00];
    let mut sqe = vec![0u8; 60];
    sqe[0] = nsid;
    req.extend_from_slice(&sqe);
    req.extend_from_slice(&[1, 0, cid, 0]);
    req.extend_from_slice(&vec![0u8; 2046 * 2]);
    req.extend_from_slice(&icv);
    req
}

#[test]
fn namespace_attachment_attach_then_again() {
    let (mut mep, mut subsys) = device(1, false);
    let req = attachment_request(1, 0, [0x3a, 0xf9, 0xa5, 0x9f]);
    let ok = [
        0x90, 0x00, 0x00, 0x00, 0x00, 0x00, 0x00, 0x01, 0x00, 0x00, 0x00, 0x00, 0x00, 0x00, 0x00,
        0x00, 0x00, 0x01, 0x00, 0x00, 0x01, 0xd3, 0xaa,
    ];
    assert_eq!(exchange(&mut mep, &mut subsys, &req), Some(ok.to_vec()));
    assert_eq!(subsys.ctlrs[0].active_ns, vec![NamespaceId(1)]);
    let dup = [
        0x90, 0x00, 0x00, 0x00, 0x00, 0x00, 0x00, 0x01, 0x00, 0x00, 0x00, 0x00, 0x00, 0x00, 0x00,
        0x00, 0x00, 0x31, 0x82, 0x0c, 0x58, 0x50, 0x89,
    ];
    assert_eq!(exchange(&mut mep, &mut subsys, &req), Some(dup.to_vec()));
    assert_eq!(subsys.ctlrs[0].active_ns.len(), 1);
}

#[test]
fn namespace_attachment_unknown_controller() {
    let (mut mep, mut subsys) = device(1, false);
    let req = attachment_request(1, 5, [0xc0, 0x41, 0xbe, 0x9c]);
    let resp = [
        0x90, 0x00, 0x00, 0x00, 0x00, 0x00, 0x00, 0x01, 0x00, 0x00, 0x00, 0x00, 0x00, 0x00, 0x00,
        0x00, 0x00, 0x39, 0x82, 0xb4, 0x9b, 0x44, 0x14,
    ];
    assert_eq!(exchange(&mut mep, &mut subsys, &req), Some(resp.to_vec()));
    assert!(subsys.ctlrs[0].active_ns.is_empty());
}

#[test]
fn namespace_management_create() {
    let (mut mep, mut subsys) = device(0, false);
    let mut req = vec![0x10, 0x00, 0x00, 0x0d, 0x00, 0x00, 0x00];
    req.extend_from_slice(&vec![0u8; 60]);
    let mut data = vec![0u8; 4096];
    data[8..16].copy_from_slice(&2048u64.to_le_bytes());
    req.extend_from_slice(&data);
    req.extend_from_slice(&[0xa5, 0x10, 0x55, 0xb8]);
    let resp = [
        0x90, 0x00, 0x00, 0x00, 0x00, 0x00, 0x00, 0x01, 0x00, 0x00, 0x00, 0x00, 0x00, 0x00, 0x00,
        0x00, 0x00, 0x01, 0x00, 0x00, 0x01, 0xd3, 0xaa,
    ];
    assert_eq!(exchange(&mut mep, &mut subsys, &req), Some(resp.to_vec()));
    assert_eq!(subsys.nss.len(), 1);
    assert_eq!(subsys.nss[0].capacity, 2048);
    assert_eq!(subsys.nsids, 1);
}

#[test]
fn wire_flag_set_rejects_undefined_bits() {
    assert_eq!(WireFlagSet::from_bits(0, 3).map(|f| f.bits), Some(0));
    assert_eq!(WireFlagSet::from_bits(1, 3).map(|f| f.bits), Some(1));
    assert_eq!(WireFlagSet::from_bits(2, 3).map(|f| f.bits), Some(2));
    let both = WireFlagSet::from_bits(3, 3).unwrap();
    assert!(both.contains(1) && both.contains(2) && both.contains(3));
    assert!(WireFlagSet::from_bits(4, 3).is_none());
    assert!(!WireFlagSet::from_bits(1, 3).unwrap().contains(3));
}

#[test]
fn wire_string_pads_and_bounds() {
    let s = WireString::<8>::from("MIDEV").unwrap();
    let mut out = Vec::new();
    s.encode(&mut out);
    assert_eq!(out, b"MIDEV\0\0\0".to_vec());
    assert!(WireString::<4>::from("MIDEV").is_err());
    let mut t = WireString::<2>::new();
    assert_eq!(t.push(b'a'), Ok(()));
    assert_eq!(t.push(b'b'), Ok(()));
    assert_eq!(t.push(b'c'), Err(()));
    assert_eq!(t.bytes, b"ab".to_vec());
}

#[test]
fn wire_vec_is_bounded() {
    let mut v = WireVec::<u16, 2>::new();
    assert_eq!(v.last(), None);
    assert_eq!(v.push(7), Ok(()));
    assert_eq!(v.push(9), Ok(()));
    assert_eq!(v.push(11), Err(11));
    assert_eq!(v.len(), 2);
    assert_eq!(v.last(), Some(&9));
}

#[test]
fn controller_health_poll_reports_and_clears_changes() {
    let (mut mep, mut subsys) = device(0, false);
    subsys
        .controller_mut(ControllerId(0))
        .set_property(ControllerProperties::Cc(ControllerConfiguration { en: true }));
    // functions = All, maxrent = 2, properties = CCF
    let body = [0x08, 0x00, 0x00, 0x02, 0x00, 0x00, 0x00, 0x00, 0x00, 0x02, 0x80, 0x00, 0x00, 0x00, 0x80];
    let mut req = body.to_vec();
    req.extend_from_slice(&icv(&body));
    let frame = exchange(&mut mep, &mut subsys, &req).unwrap();
    assert_eq!(frame.len(), 3 + 4 + 16 + 4);
    assert_eq!(&frame[3..7], &[0x00, 0x00, 0x00, 0x01]);
    let entry = &frame[7..23];
    assert_eq!(&entry[0..2], &[0x00, 0x00]);
    assert_eq!(&entry[2..4], &[0x01, 0x00]);
    assert_eq!(u16::from_le_bytes([entry[4], entry[5]]), 293);
    assert_eq!(entry[6], 38);
    assert_eq!(entry[7], 100);
    assert_eq!(entry[8], 0);
    assert_eq!(&entry[9..11], &[0x21, 0x00]);
    let frame = exchange(&mut mep, &mut subsys, &req).unwrap();
    assert_eq!(&frame[7 + 9..7 + 11], &[0x00, 0x00]);
}

/// CRC-32C (Castagnoli) over the lead byte and the message, little-endian.
fn icv(msg: &[u8]) -> [u8; 4] {
    let mut crc: u32 = 0xffff_ffff;
    for b in [0x84u8].iter().chain(msg.iter()) {
        crc ^= *b as u32;
        for _ in 0..8 {
            crc = if crc & 1 != 0 { (crc >> 1) ^ 0x82f6_3b78 } else { crc >> 1 };
        }
    }
    (crc ^ 0xffff_ffff).to_le_bytes()
}

#[test]
fn settings_defaults() {
    let info = SubsystemInfo::from_settings(None, None, None, None, None, None).unwrap();
    assert_eq!((info.pci_vid, info.pci_did, info.pci_svid, info.pci_sdid), (0xffff, 0xffff, 0xffff, 0xffff));
    assert_eq!(info.ieee_oui, [0xac, 0xde, 0x48]);
    assert_eq!(info.instance, [0u8; 16]);
}

#[test]
fn settings_values() {
    let info = SubsystemInfo::from_settings(
        Some("1b96"),
        Some("+2600"),
        Some("ABCD"),
        Some("0"),
        Some("00-11-22-33"),
        Some("1700000000"),
    )
    .unwrap();
    assert_eq!((info.pci_vid, info.pci_did, info.pci_svid, info.pci_sdid), (0x1b96, 0x2600, 0xabcd, 0));
    assert_eq!(info.ieee_oui, [0x00, 0x11, 0x22]);
    let mut seed = [0u8; 16];
    seed[..8].copy_from_slice(&1700000000u64.to_le_bytes());
    assert_eq!(info.instance, seed);
    let short = SubsystemInfo::from_settings(None, None, None, None, Some("ac-de"), Some("soon")).unwrap();
    assert_eq!(short.ieee_oui, [0xac, 0xde, 0x00]);
    assert_eq!(short.instance, [0u8; 16]);
}

#[test]
fn settings_rejected() {
    assert!(SubsystemInfo::from_settings(Some("10000"), None, None, None, None, None).is_none());
    assert!(SubsystemInfo::from_settings(Some("xyz"), None, None, None, None, None).is_none());
    assert!(SubsystemInfo::from_settings(Some(""), None, None, None, None, None).is_none());
    assert!(SubsystemInfo::from_settings(None, None, None, None, Some("ac--48"), None).is_none());
    assert!(SubsystemInfo::from_settings(None, None, None, None, Some("100-00-00"), None).is_none());
}

const TEST_ONE: u32 = 1;
const TEST_TWO: u32 = 2;
const TEST_BOTH: u32 = TEST_ONE | TEST_TWO;

fn flag_round_trip(data: u8) -> (WireFlagSet, u8) {
    let set = WireFlagSet::from_bits(data as u32, TEST_BOTH).unwrap();
    (set, set.to_byte())
}

#[test]
fn empty() {
    let (set, out) = flag_round_trip(0);
    assert_eq!(set, WireFlagSet { bits: 0 });
    assert_eq!(out, 0);
}

#[test]
fn one() {
    let (set, out) = flag_round_trip(1);
    assert_eq!(set, WireFlagSet { bits: TEST_ONE });
    assert_eq!(out, 1);
}

#[test]
fn two() {
    let (set, out) = flag_round_trip(2);
    assert_eq!(set, WireFlagSet { bits: TEST_TWO });
    assert_eq!(out, 2);
}

#[test]
fn one_two() {
    let (set, out) = flag_round_trip(3);
    assert_eq!(set, WireFlagSet { bits: TEST_ONE | TEST_TWO });
    assert_eq!(set, WireFlagSet { bits: TEST_BOTH });
    assert_eq!(out, 3);
}

#[test]
fn smbus_frequency_above_maximum_is_rejected() {
    let (mut mep, mut subsys) = device(0, false);
    let req = [0x08, 0x00, 0x00, 0x03, 0x00, 0x00, 0x00, 0x01, 0x03, 0x00, 0x01, 0x00, 0x00, 0x00, 0x00, 0x61, 0x1b, 0xbc, 0x9d];
    let resp = [0x88, 0x00, 0x00, 0x04, 0x00, 0x00, 0x00, 0xd7, 0x64, 0x55, 0x59];
    assert_eq!(exchange(&mut mep, &mut subsys, &req), Some(resp.to_vec()));
}
