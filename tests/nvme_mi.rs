use nvme_mi_dev::{
    Action, ControllerConfiguration, ControllerProperties, ManagementEndpoint, PciePort, PortType,
    Subsystem, SubsystemInfo, Temperature, TwoWirePort,
};

#[allow(dead_code)]
enum DeviceType {
    P1p1tC1aN0a0a,
    P1p1tC1aN1a0a,
    P1p1tC1aN1a1a,
}

fn new_device(typ: DeviceType) -> (ManagementEndpoint, Subsystem) {
    let mut subsys = Subsystem::new(SubsystemInfo::invalid());
    let ppid = subsys.add_port(PortType::Pcie(PciePort::new())).unwrap();
    let twpid = subsys.add_port(PortType::TwoWire(TwoWirePort::new())).unwrap();
    let mep = ManagementEndpoint::new(twpid);
    let ctlrid = subsys.add_controller(ppid).unwrap();
    match typ {
        DeviceType::P1p1tC1aN0a0a => {}
        DeviceType::P1p1tC1aN1a0a => {
            subsys.add_namespace(1024).unwrap();
        }
        DeviceType::P1p1tC1aN1a1a => {
            let nsid = subsys.add_namespace(1024).unwrap();
            subsys.controller_mut(ctlrid).attach_namespace(nsid).unwrap();
        }
    };
    (mep, subsys)
}

/// Runs one request; an effect is applied successfully before completion.
fn exchange(mep: &mut ManagementEndpoint, subsys: &mut Subsystem, req: &[u8], ic: bool) -> Option<Vec<u8>> {
    match mep.handle(subsys, req, ic) {
        Action::Drop => None,
        Action::Respond(frame) => Some(frame),
        Action::Apply(effect) => Some(mep.complete(subsys, effect, Ok(()))),
    }
}

const RESP_INVALID_PARAMETER: [u8; 11] = [
    0x88, 0x00, 0x00,
    0x04, 0x00, 0x00, 0x00,
    0xd7, 0x64, 0x55, 0x59
];

const RESP_INVALID_COMMAND_SIZE: [u8; 11] = [
    0x88, 0x00, 0x00,
    0x05, 0x00, 0x00, 0x00,
    0x6f, 0xce, 0x10, 0x84
];

const RESP_INVALID_COMMAND_INPUT_DATA_SIZE: [u8; 11] = [
    0x88, 0x00, 0x00,
    0x06, 0x00, 0x00, 0x00,
    0x56, 0x47, 0x32, 0xe6
];

const RESP_SUCCESS: [u8; 11] = [
    0x88, 0x00, 0x00,
    0x00, 0x00, 0x00, 0x00,
    0x24, 0x55, 0x77, 0x22
];

#[test]
fn short_header_object() {
    let (mut mep, mut subsys) = new_device(DeviceType::P1p1tC1aN0a0a);
    let req: [u8; 10] = [
        0x08, 0x00, 0x00,
        0x00, 0x00, 0x00, // Shortened header
        0x57, 0xb9, 0xb6, 0x8b
    ];
    let expected: &[u8] = &RESP_INVALID_COMMAND_SIZE;
    assert_eq!(exchange(&mut mep, &mut subsys, &req, true), Some(expected.to_vec()));
}

#[test]
fn nvme_mi_short_request() {
        let (mut mep, mut subsys) = new_device(DeviceType::P1p1tC1aN0a0a);
        let req: [u8; 15] = [
            0x08, 0x00, 0x00,
            0x00, 0x00, 0x00, 0x00,
            0x00, 0x00, 0x00, 0x00,
            // Missing DWORD1
            0xc9, 0x40, 0xd7, 0x8b
        ];
        let expected: &[u8] = &RESP_INVALID_COMMAND_SIZE;
        assert_eq!(exchange(&mut mep, &mut subsys, &req, true), Some(expected.to_vec()));
}

#[test]
fn nvme_mi_long_request() {
        let (mut mep, mut subsys) = new_device(DeviceType::P1p1tC1aN0a0a);
        let req: [u8; 23] = [
            0x08, 0x00, 0x00,
            0x00, 0x00, 0x00, 0x00,
            0x00, 0x00, 0x00, 0x00,
            0x00, 0x00, 0x00, 0x00,
            0x00, 0x00, 0x00, 0x00, // Unnecessary request data
            0xcc, 0xdf, 0x26, 0x64
        ];
        let expected: &[u8] = &RESP_INVALID_COMMAND_INPUT_DATA_SIZE;
        assert_eq!(exchange(&mut mep, &mut subsys, &req, true), Some(expected.to_vec()));
}

#[test]
fn nvm_subsystem_information() {
        let (mut mep, mut subsys) = new_device(DeviceType::P1p1tC1aN0a0a);
        let req: [u8; 19] = [
            0x08, 0x00, 0x00,
            0x00, 0x00, 0x00, 0x00,
            0x00, 0x00, 0x00, 0x00,
            0x00, 0x00, 0x00, 0x00,
            0xe2, 0x00, 0x06, 0x07
        ];
        let resp: [u8; 43] = [
            0x88, 0x00, 0x00,
            0x00, 0x20, 0x00, 0x00,
            0x01, 0x01, 0x02, 0x00,
            0x00, 0x00, 0x00, 0x00,
            0x00, 0x00, 0x00, 0x00,
            0x00, 0x00, 0x00, 0x00,
            0x00, 0x00, 0x00, 0x00,
            0x00, 0x00, 0x00, 0x00,
            0x00, 0x00, 0x00, 0x00,
            0x00, 0x00, 0x00, 0x00,
            0x3c, 0xf8, 0xdb, 0x52
        ];
        let expected: &[u8] = &resp;
        assert_eq!(exchange(&mut mep, &mut subsys, &req, true), Some(expected.to_vec()));
}

#[test]
fn port_information_invalid() {
        let (mut mep, mut subsys) = new_device(DeviceType::P1p1tC1aN0a0a);
        let req: [u8; 19] = [
            0x08, 0x00, 0x00,
            0x00, 0x00, 0x00, 0x00,
            0x00, 0x00, 0x02, 0x01,
            0x00, 0x00, 0x00, 0x00,
            0x8d, 0xcf, 0x9b, 0xe4
        ];
        let expected: &[u8] = &RESP_INVALID_PARAMETER;
        assert_eq!(exchange(&mut mep, &mut subsys, &req, true), Some(expected.to_vec()));
}

#[test]
fn port_information_twowire() {
    let (mut mep, mut subsys) = new_device(DeviceType::P1p1tC1aN0a0a);
    let req: [u8; 19] = [
        0x08, 0x00, 0x00,
        0x00, 0x00, 0x00, 0x00,
        0x00, 0x00, 0x01, 0x01,
        0x00, 0x00, 0x00, 0x00,
        0x57, 0x04, 0x27, 0xd0
    ];
    // TWPRT carries the maximum SMBus frequency, 400 kHz (0x02).
    let resp: [u8; 43] = [
        0x88, 0x00, 0x00,
        0x00, 0x20, 0x00, 0x00,
        0x02, 0x00, 0x40, 0x00,
        0x00, 0x00, 0x00, 0x00,
        0x00, 0x00, 0x1d, 0x02,
        0x00, 0x00, 0x00, 0x00,
        0x00, 0x00, 0x00, 0x00,
        0x00, 0x00, 0x00, 0x00,
        0x00, 0x00, 0x00, 0x00,
        0x00, 0x00, 0x00, 0x00,
        0xf3, 0x83, 0xa2, 0x30
    ];
    assert_eq!(exchange(&mut mep, &mut subsys, &req, true), Some(resp.to_vec()));
}

#[test]
fn port_information_pcie() {
        let (mut mep, mut subsys) = new_device(DeviceType::P1p1tC1aN0a0a);
        let req: [u8; 19] = [
            0x08, 0x00, 0x00,
            0x00, 0x00, 0x00, 0x00,
            0x00, 0x00, 0x00, 0x01,
            0x00, 0x00, 0x00, 0x00,
            0x4e, 0x6f, 0x17, 0x3f
        ];
        let resp: [u8; 43] = [
            0x88, 0x00, 0x00,
            0x00, 0x20, 0x00, 0x00,
            0x01, 0x00, 0x40, 0x00,
            0x00, 0x00, 0x00, 0x00,
            0x00, 0x3f, 0x01, 0x02,
            0x01, 0x00, 0x00, 0x00,
            0x00, 0x00, 0x00, 0x00,
            0x00, 0x00, 0x00, 0x00,
            0x00, 0x00, 0x00, 0x00,
            0x00, 0x00, 0x00, 0x00,
            0x76, 0x6e, 0x77, 0x2d
        ];
        let expected: &[u8] = &resp;
        assert_eq!(exchange(&mut mep, &mut subsys, &req, true), Some(expected.to_vec()));
}

#[test]
fn controller_list_all() {
        let (mut mep, mut subsys) = new_device(DeviceType::P1p1tC1aN0a0a);
        let req: [u8; 19] = [
            0x08, 0x00, 0x00,
            0x00, 0x00, 0x00, 0x00,
            0x00, 0x00, 0x00, 0x02,
            0x00, 0x00, 0x00, 0x00,
            0xba, 0xdf, 0x24, 0x77
        ];
        let resp: [u8; 15] = [
            0x88, 0x00, 0x00,
            0x00, 0x04, 0x00, 0x00,
            0x01, 0x00, 0x00, 0x00,
            0x0a, 0x29, 0x2f, 0x14
        ];
        let expected: &[u8] = &resp;
        assert_eq!(exchange(&mut mep, &mut subsys, &req, true), Some(expected.to_vec()));
}

#[test]
fn controller_list_single_partial_empty() {
        let (mut mep, mut subsys) = new_device(DeviceType::P1p1tC1aN0a0a);
        let req: [u8; 19] = [
            0x08, 0x00, 0x00,
            0x00, 0x00, 0x00, 0x00,
            0x01, 0x00, 0x00, 0x02,
            0x00, 0x00, 0x00, 0x00,
            0x9d, 0xa2, 0x18, 0x3e
        ];
        let resp: [u8; 13] = [
            0x88, 0x00, 0x00,
            0x00, 0x02, 0x00, 0x00,
            0x00, 0x00,
            0xec, 0xc6, 0x96, 0xd4
        ];
        let expected: &[u8] = &resp;
        assert_eq!(exchange(&mut mep, &mut subsys, &req, true), Some(expected.to_vec()));
}

#[test]
fn controller_list_multiple() {
        let mut subsys = Subsystem::new(SubsystemInfo::invalid());
        let ppid = subsys.add_port(PortType::Pcie(PciePort::new())).unwrap();
        subsys.add_controller(ppid).unwrap();
        subsys.add_controller(ppid).unwrap();
        let twpid = subsys
            .add_port(PortType::TwoWire(TwoWirePort::new()))
            .unwrap();
        let mut mep = ManagementEndpoint::new(twpid);
        let req: [u8; 19] = [
            0x08, 0x00, 0x00,
            0x00, 0x00, 0x00, 0x00,
            0x00, 0x00, 0x00, 0x02,
            0x00, 0x00, 0x00, 0x00,
            0xba, 0xdf, 0x24, 0x77
        ];
        let resp: [u8; 17] = [
            0x88, 0x00, 0x00,
            0x00, 0x06, 0x00, 0x00,
            0x02, 0x00, 0x00, 0x00,
            0x01, 0x00,
            0x75, 0x4c, 0xb0, 0xd9
        ];
        let expected: &[u8] = &resp;
        assert_eq!(exchange(&mut mep, &mut subsys, &req, true), Some(expected.to_vec()));
}

#[test]
fn controller_list_multiple_partial_populated() {
        let mut subsys = Subsystem::new(SubsystemInfo::invalid());
        let ppid = subsys.add_port(PortType::Pcie(PciePort::new())).unwrap();
        subsys.add_controller(ppid).unwrap();
        subsys.add_controller(ppid).unwrap();
        let twpid = subsys
            .add_port(PortType::TwoWire(TwoWirePort::new()))
            .unwrap();
        let mut mep = ManagementEndpoint::new(twpid);
        let req: [u8; 19] = [
            0x08, 0x00, 0x00,
            0x00, 0x00, 0x00, 0x00,
            0x01, 0x00, 0x00, 0x02,
            0x00, 0x00, 0x00, 0x00,
            0x9d, 0xa2, 0x18, 0x3e
        ];
        let resp: [u8; 15] = [
            0x88, 0x00, 0x00,
            0x00, 0x04, 0x00, 0x00,
            0x01, 0x00, 0x01, 0x00,
            0x7d, 0xb1, 0x8d, 0x07
        ];
        let expected: &[u8] = &resp;
        assert_eq!(exchange(&mut mep, &mut subsys, &req, true), Some(expected.to_vec()));
}

#[test]
fn controller_information_single_valid() {
        let (mut mep, mut subsys) = new_device(DeviceType::P1p1tC1aN0a0a);
        let req: [u8; 19] = [
            0x08, 0x00, 0x00,
            0x00, 0x00, 0x00, 0x00,
            0x00, 0x00, 0x00, 0x03,
            0x00, 0x00, 0x00, 0x00,
            0x16, 0xb0, 0x35, 0x4f
        ];
        // Make sure we get a valid response of size 0x20. PCI data will be
        // vendor-specific
        let resp_data: Vec<(usize, &[u8])> = vec![(0, &[0x88, 0x00, 0x00, 0x00, 0x20, 0x00, 0x00])];
        let fields = resp_data;
        let found = exchange(&mut mep, &mut subsys, &req, true).unwrap();
        for (offset, data) in fields.iter() {
            assert_eq!(&found[*offset..*offset + data.len()], *data);
        }
}

#[test]
fn controller_information_single_invalid() {
        let (mut mep, mut subsys) = new_device(DeviceType::P1p1tC1aN0a0a);
        let req: [u8; 19] = [
            0x08, 0x00, 0x00,
            0x00, 0x00, 0x00, 0x00,
            0x01, 0x00, 0x00, 0x03,
            0x00, 0x00, 0x00, 0x00,
            0x31, 0xcd, 0x09, 0x06
        ];
        let expected: &[u8] = &RESP_INVALID_PARAMETER;
        assert_eq!(exchange(&mut mep, &mut subsys, &req, true), Some(expected.to_vec()));
}

#[test]
fn nvm_subsystem_status_health_poll_short_request() {
        let (mut mep, mut subsys) = new_device(DeviceType::P1p1tC1aN0a0a);
        let req: [u8; 15] = [
            0x08, 0x00, 0x00,
            0x01, 0x00, 0x00, 0x00,
            0x00, 0x00, 0x00, 0x00,
            0xee, 0x3d, 0xeb, 0xc2
        ];
        let expected: &[u8] = &RESP_INVALID_COMMAND_SIZE;
        assert_eq!(exchange(&mut mep, &mut subsys, &req, true), Some(expected.to_vec()));
}

#[test]
fn nvm_subsystem_status_health_poll_long_request() {
        let (mut mep, mut subsys) = new_device(DeviceType::P1p1tC1aN0a0a);
        let req: [u8; 23] = [
            0x08, 0x00, 0x00,
            0x01, 0x00, 0x00, 0x00,
            0x00, 0x00, 0x00, 0x00,
            0x00, 0x00, 0x00, 0x00,
            0x00, 0x00, 0x00, 0x00,
            0x32, 0xd2, 0x2a, 0x96
        ];
        let expected: &[u8] = &RESP_INVALID_COMMAND_SIZE;
        assert_eq!(exchange(&mut mep, &mut subsys, &req, true), Some(expected.to_vec()));
}

#[test]
fn clear_status() {
        let (mut mep, mut subsys) = new_device(DeviceType::P1p1tC1aN0a0a);
        let req: [u8; 19] = [
            0x08, 0x00, 0x00,
            0x01, 0x00, 0x00, 0x00,
            0x00, 0x00, 0x00, 0x00,
            0x00, 0x00, 0x00, 0x80,
            0xaa, 0xef, 0x81, 0xb4
        ];
        let resp: [u8; 19] = [
            0x88, 0x00, 0x00,
            0x00, 0x00, 0x00, 0x00,
            0x38, 0x3d, 0x14, 0x26,
            0x00, 0x00, 0x00, 0x00,
            0x11, 0x7c, 0xb0, 0x3d
        ];
        let expected: &[u8] = &resp;
        assert_eq!(exchange(&mut mep, &mut subsys, &req, true), Some(expected.to_vec()));
}

#[test]
fn ctemp_excursion_saturate_low() {
        let mut subsys = Subsystem::new(SubsystemInfo::invalid());
        let ppid = subsys.add_port(PortType::Pcie(PciePort::new())).unwrap();
        let ctlrid = subsys.add_controller(ppid).unwrap();
        let twpid = subsys
            .add_port(PortType::TwoWire(TwoWirePort::new()))
            .unwrap();
        let mut mep = ManagementEndpoint::new(twpid);
        let ctlr = subsys.controller_mut(ctlrid);
        ctlr.set_temperature(Temperature::Kelvin(212));
        let req: [u8; 19] = [
            0x08, 0x00, 0x00,
            0x01, 0x00, 0x00, 0x00,
            0x00, 0x00, 0x00, 0x00,
            0x00, 0x00, 0x00, 0x00,
            0xd2, 0xd4, 0x77, 0x36
        ];
        let resp: [u8; 19] = [
            0x88, 0x00, 0x00,
            0x00, 0x00, 0x00, 0x00,
            0x38, 0x3f, 0xc4, 0x26,
            0x00, 0x00, 0x00, 0x00,
            0x82, 0xf9, 0xb6, 0x3f
        ];
        let expected: &[u8] = &resp;
        assert_eq!(exchange(&mut mep, &mut subsys, &req, true), Some(expected.to_vec()));
}

#[test]
fn ctemp_saturate_low() {
        let mut subsys = Subsystem::new(SubsystemInfo::invalid());
        let ppid = subsys.add_port(PortType::Pcie(PciePort::new())).unwrap();
        let ctlrid = subsys.add_controller(ppid).unwrap();
        let twpid = subsys
            .add_port(PortType::TwoWire(TwoWirePort::new()))
            .unwrap();
        let mut mep = ManagementEndpoint::new(twpid);
        let ctlr = subsys.controller_mut(ctlrid);
        ctlr.set_temperature(Temperature::Kelvin(213));
        let req: [u8; 19] = [
            0x08, 0x00, 0x00,
            0x01, 0x00, 0x00, 0x00,
            0x00, 0x00, 0x00, 0x00,
            0x00, 0x00, 0x00, 0x00,
            0xd2, 0xd4, 0x77, 0x36
        ];
        let resp: [u8; 19] = [
            0x88, 0x00, 0x00,
            0x00, 0x00, 0x00, 0x00,
            0x38, 0x3d, 0xc4, 0x26,
            0x00, 0x00, 0x00, 0x00,
            0x12, 0xa0, 0xb0, 0xef
        ];
        let expected: &[u8] = &resp;
        assert_eq!(exchange(&mut mep, &mut subsys, &req, true), Some(expected.to_vec()));
}

#[test]
fn ctemp_low() {
        let mut subsys = Subsystem::new(SubsystemInfo::invalid());
        let ppid = subsys.add_port(PortType::Pcie(PciePort::new())).unwrap();
        let ctlrid = subsys.add_controller(ppid).unwrap();
        let twpid = subsys
            .add_port(PortType::TwoWire(TwoWirePort::new()))
            .unwrap();
        let mut mep = ManagementEndpoint::new(twpid);
        let ctlr = subsys.controller_mut(ctlrid);
        ctlr.set_temperature(Temperature::Kelvin(214));
        let req: [u8; 19] = [
            0x08, 0x00, 0x00,
            0x01, 0x00, 0x00, 0x00,
            0x00, 0x00, 0x00, 0x00,
            0x00, 0x00, 0x00, 0x00,
            0xd2, 0xd4, 0x77, 0x36
        ];
        let resp: [u8; 19] = [
            0x88, 0x00, 0x00,
            0x00, 0x00, 0x00, 0x00,
            0x38, 0x3d, 0xc5, 0x26,
            0x00, 0x00, 0x00, 0x00,
            0x0b, 0xcb, 0x80, 0x00
        ];
        let expected: &[u8] = &resp;
        assert_eq!(exchange(&mut mep, &mut subsys, &req, true), Some(expected.to_vec()));
}

#[test]
fn ctemp_zero() {
        let mut subsys = Subsystem::new(SubsystemInfo::invalid());
        let ppid = subsys.add_port(PortType::Pcie(PciePort::new())).unwrap();
        let ctlrid = subsys.add_controller(ppid).unwrap();
        let twpid = subsys
            .add_port(PortType::TwoWire(TwoWirePort::new()))
            .unwrap();
        let mut mep = ManagementEndpoint::new(twpid);
        let ctlr = subsys.controller_mut(ctlrid);
        ctlr.set_temperature(Temperature::Kelvin(273));
        let req: [u8; 19] = [
            0x08, 0x00, 0x00,
            0x01, 0x00, 0x00, 0x00,
            0x00, 0x00, 0x00, 0x00,
            0x00, 0x00, 0x00, 0x00,
            0xd2, 0xd4, 0x77, 0x36
        ];
        let resp: [u8; 19] = [
            0x88, 0x00, 0x00,
            0x00, 0x00, 0x00, 0x00,
            0x38, 0x3d, 0x00, 0x26,
            0x00, 0x00, 0x00, 0x00,
            0x58, 0x7b, 0x49, 0x4f
        ];
        let expected: &[u8] = &resp;
        assert_eq!(exchange(&mut mep, &mut subsys, &req, true), Some(expected.to_vec()));
}

#[test]
fn ctemp_high() {
        let mut subsys = Subsystem::new(SubsystemInfo::invalid());
        let ppid = subsys.add_port(PortType::Pcie(PciePort::new())).unwrap();
        let ctlrid = subsys.add_controller(ppid).unwrap();
        let twpid = subsys
            .add_port(PortType::TwoWire(TwoWirePort::new()))
            .unwrap();
        let mut mep = ManagementEndpoint::new(twpid);
        let ctlr = subsys.controller_mut(ctlrid);
        ctlr.set_temperature(Temperature::Kelvin(399));
        let req: [u8; 19] = [
            0x08, 0x00, 0x00,
            0x01, 0x00, 0x00, 0x00,
            0x00, 0x00, 0x00, 0x00,
            0x00, 0x00, 0x00, 0x00,
            0xd2, 0xd4, 0x77, 0x36
        ];
        let resp: [u8; 19] = [
            0x88, 0x00, 0x00,
            0x00, 0x00, 0x00, 0x00,
            0x38, 0x3d, 0x7e, 0x26,
            0x00, 0x00, 0x00, 0x00,
            0xab, 0x89, 0xca, 0x0d
        ];
        let expected: &[u8] = &resp;
        assert_eq!(exchange(&mut mep, &mut subsys, &req, true), Some(expected.to_vec()));
}

#[test]
fn ctemp_saturate_high() {
        let mut subsys = Subsystem::new(SubsystemInfo::invalid());
        let ppid = subsys.add_port(PortType::Pcie(PciePort::new())).unwrap();
        let ctlrid = subsys.add_controller(ppid).unwrap();
        let twpid = subsys
            .add_port(PortType::TwoWire(TwoWirePort::new()))
            .unwrap();
        let mut mep = ManagementEndpoint::new(twpid);
        let ctlr = subsys.controller_mut(ctlrid);
        ctlr.set_temperature(Temperature::Kelvin(400));
        let req: [u8; 19] = [
            0x08, 0x00, 0x00,
            0x01, 0x00, 0x00, 0x00,
            0x00, 0x00, 0x00, 0x00,
            0x00, 0x00, 0x00, 0x00,
            0xd2, 0xd4, 0x77, 0x36
        ];
        let resp: [u8; 19] = [
            0x88, 0x00, 0x00,
            0x00, 0x00, 0x00, 0x00,
            0x38, 0x3d, 0x7f, 0x26,
            0x00, 0x00, 0x00, 0x00,
            0xb2, 0xe2, 0xfa, 0xe2
        ];
        let expected: &[u8] = &resp;
        assert_eq!(exchange(&mut mep, &mut subsys, &req, true), Some(expected.to_vec()));
}

#[test]
fn ctemp_excursion_saturate_high() {
        let mut subsys = Subsystem::new(SubsystemInfo::invalid());
        let ppid = subsys.add_port(PortType::Pcie(PciePort::new())).unwrap();
        let ctlrid = subsys.add_controller(ppid).unwrap();
        let twpid = subsys
            .add_port(PortType::TwoWire(TwoWirePort::new()))
            .unwrap();
        let mut mep = ManagementEndpoint::new(twpid);
        let ctlr = subsys.controller_mut(ctlrid);
        ctlr.set_temperature(Temperature::Kelvin(401));
        let req: [u8; 19] = [
            0x08, 0x00, 0x00,
            0x01, 0x00, 0x00, 0x00,
            0x00, 0x00, 0x00, 0x00,
            0x00, 0x00, 0x00, 0x00,
            0xd2, 0xd4, 0x77, 0x36
        ];
        let resp: [u8; 19] = [
            0x88, 0x00, 0x00,
            0x00, 0x00, 0x00, 0x00,
            0x38, 0x3f, 0x7f, 0x26,
            0x00, 0x00, 0x00, 0x00,
            0x22, 0xbb, 0xfc, 0x32
        ];
        let expected: &[u8] = &resp;
        assert_eq!(exchange(&mut mep, &mut subsys, &req, true), Some(expected.to_vec()));
}

#[test]
fn configuration_get_short_request() {
        let (mut mep, mut subsys) = new_device(DeviceType::P1p1tC1aN0a0a);
        let req: [u8; 15] = [
            0x08, 0x00, 0x00,
            0x04, 0x00, 0x00, 0x00,
            0x01, 0x00, 0x00, 0x00,
            // Missing DWORD 1
            0x1c, 0x68, 0x8f, 0x77
        ];
        let expected: &[u8] = &RESP_INVALID_COMMAND_SIZE;
        assert_eq!(exchange(&mut mep, &mut subsys, &req, true), Some(expected.to_vec()));
}

#[test]
fn configuration_get_long_request() {
        let (mut mep, mut subsys) = new_device(DeviceType::P1p1tC1aN0a0a);
        let req: [u8; 23] = [
            0x08, 0x00, 0x00,
            0x04, 0x00, 0x00, 0x00,
            0x01, 0x00, 0x00, 0x00,
            0x00, 0x00, 0x00, 0x00,
            // Unexpected data
            0x00, 0x00, 0x00, 0x00,
            0x17, 0xa7, 0x53, 0x93
        ];
        let expected: &[u8] = &RESP_INVALID_COMMAND_SIZE;
        assert_eq!(exchange(&mut mep, &mut subsys, &req, true), Some(expected.to_vec()));
}

#[test]
fn nvme_mi_reserved() {
        let (mut mep, mut subsys) = new_device(DeviceType::P1p1tC1aN0a0a);
        let req: [u8; 19] = [
            0x08, 0x00, 0x00,
            0x04, 0x00, 0x00, 0x00,
            0x00, 0x00, 0x00, 0x00,
            0x00, 0x00, 0x00, 0x00,
            0x22, 0x50, 0xc1, 0xc2
        ];
        let expected: &[u8] = &RESP_INVALID_PARAMETER;
        assert_eq!(exchange(&mut mep, &mut subsys, &req, true), Some(expected.to_vec()));
}

#[test]
fn smbus_i2c_frequency() {
        let (mut mep, mut subsys) = new_device(DeviceType::P1p1tC1aN0a0a);
        let req: [u8; 19] = [
            0x08, 0x00, 0x00,
            0x04, 0x00, 0x00, 0x00,
            0x01, 0x00, 0x00, 0x01,
            0x00, 0x00, 0x00, 0x00,
            0xa9, 0x42, 0xec, 0xb3
        ];
        let resp: [u8; 11] = [
            0x88, 0x00, 0x00,
            0x00, 0x01, 0x00, 0x00,
            0x5a, 0xc7, 0x36, 0x87
        ];
        let expected: &[u8] = &resp;
        assert_eq!(exchange(&mut mep, &mut subsys, &req, true), Some(expected.to_vec()));
}

#[test]
fn nvme_mi_smbus_i2c_frequency_bad_port_type_for_index() {
        let (mut mep, mut subsys) = new_device(DeviceType::P1p1tC1aN0a0a);
        let req: [u8; 19] = [
            0x08, 0x00, 0x00,
            0x04, 0x00, 0x00, 0x00,
            0x01, 0x00, 0x00, 0x00,
            0x00, 0x00, 0x00, 0x00,
            0x05, 0x2d, 0xfd, 0x8b
        ];
        let expected: &[u8] = &RESP_INVALID_PARAMETER;
        assert_eq!(exchange(&mut mep, &mut subsys, &req, true), Some(expected.to_vec()));
}

#[test]
fn nvme_mi_smbus_i2c_frequency_bad_port_index() {
        let (mut mep, mut subsys) = new_device(DeviceType::P1p1tC1aN0a0a);
        let req: [u8; 19] = [
            0x08, 0x00, 0x00,
            0x04, 0x00, 0x00, 0x00,
            0x01, 0x00, 0x00, 0xff,
            0x00, 0x00, 0x00, 0x00,
            0xa6, 0x43, 0x95, 0x2b
        ];
        let expected: &[u8] = &RESP_INVALID_PARAMETER;
        assert_eq!(exchange(&mut mep, &mut subsys, &req, true), Some(expected.to_vec()));
}

#[test]
fn mctp_transmission_unit_size() {
        let (mut mep, mut subsys) = new_device(DeviceType::P1p1tC1aN0a0a);
        let req: [u8; 19] = [
            0x08, 0x00, 0x00,
            0x04, 0x00, 0x00, 0x00,
            0x03, 0x00, 0x00, 0x01,
            0x00, 0x00, 0x00, 0x00,
            0xe7, 0xb8, 0x94, 0x21
        ];
        let resp: [u8; 11] = [
            0x88, 0x00, 0x00,
            0x00, 0x40, 0x00, 0x00,
            0xfd, 0xd5, 0x12, 0xe5
        ];
        let expected: &[u8] = &resp;
        assert_eq!(exchange(&mut mep, &mut subsys, &req, true), Some(expected.to_vec()));
}

#[test]
fn mctp_transmission_unit_size_long() {
        let (mut mep, mut subsys) = new_device(DeviceType::P1p1tC1aN0a0a);
        let req: [u8; 23] = [
            0x08, 0x00, 0x00,
            0x04, 0x00, 0x00, 0x00,
            0x03, 0x00, 0x00, 0x00,
            0x00, 0x00, 0x00, 0x00,
            0x00, 0x00, 0x00, 0x00,
            0x77, 0x0f, 0xb0, 0xf1
        ];
        let expected: &[u8] = &RESP_INVALID_COMMAND_SIZE;
        assert_eq!(exchange(&mut mep, &mut subsys, &req, true), Some(expected.to_vec()));
}

#[test]
fn mctp_transmission_unit_size_bad_port_index() {
        let (mut mep, mut subsys) = new_device(DeviceType::P1p1tC1aN0a0a);
        let req: [u8; 19] = [
            0x08, 0x00, 0x00,
            0x04, 0x00, 0x00, 0x00,
            0x03, 0x00, 0x00, 0xff,
            0x00, 0x00, 0x00, 0x00,
            0xe8, 0xb9, 0xed, 0xb9
        ];
        let expected: &[u8] = &RESP_INVALID_PARAMETER;
        assert_eq!(exchange(&mut mep, &mut subsys, &req, true), Some(expected.to_vec()));
}

#[test]
fn nvme_mi_health_status_change_short() {
        let (mut mep, mut subsys) = new_device(DeviceType::P1p1tC1aN0a0a);
        let req: [u8; 15] = [
            0x08, 0x00, 0x00,
            0x04, 0x00, 0x00, 0x00,
            0x02, 0x00, 0x00, 0x00,
            // Missing DWORD1
            0x25, 0xe1, 0xad, 0x15
        ];
        let expected: &[u8] = &RESP_INVALID_COMMAND_SIZE;
        assert_eq!(exchange(&mut mep, &mut subsys, &req, true), Some(expected.to_vec()));
}

#[test]
fn nvme_mi_health_status_change_long() {
        let (mut mep, mut subsys) = new_device(DeviceType::P1p1tC1aN0a0a);
        let req: [u8; 23] = [
            0x08, 0x00, 0x00,
            0x04, 0x00, 0x00, 0x00,
            0x02, 0x00, 0x00, 0x00,
            0x00, 0x00, 0x00, 0x00,
            0x00, 0x00, 0x00, 0x00,
            0x47, 0xdb, 0xc1, 0xc0
        ];
        let expected: &[u8] = &RESP_INVALID_COMMAND_SIZE;
        assert_eq!(exchange(&mut mep, &mut subsys, &req, true), Some(expected.to_vec()));
}

#[test]
fn health_status_change() {
        let (mut mep, mut subsys) = new_device(DeviceType::P1p1tC1aN0a0a);
        let req: [u8; 19] = [
            0x08, 0x00, 0x00,
            0x04, 0x00, 0x00, 0x00,
            0x02, 0x00, 0x00, 0x00,
            0x00, 0x00, 0x00, 0x00,
            0x6c, 0xaa, 0xb9, 0x50
        ];
        let resp: [u8; 11] = [
            0x88, 0x00, 0x00,
            0x00, 0x00, 0x00, 0x00,
            0x24, 0x55, 0x77, 0x22
        ];
        let expected: &[u8] = &resp;
        assert_eq!(exchange(&mut mep, &mut subsys, &req, true), Some(expected.to_vec()));
}

#[test]
fn configuration_set_reserved() {
        let (mut mep, mut subsys) = new_device(DeviceType::P1p1tC1aN0a0a);
        let req: [u8; 19] = [
            0x08, 0x00, 0x00,
            0x03, 0x00, 0x00, 0x00,
            0x00, 0x00, 0x00, 0x00,
            0x00, 0x00, 0x00, 0x00,
            0xb2, 0x7c, 0x94, 0x54
        ];
        let expected: &[u8] = &RESP_INVALID_PARAMETER;
        assert_eq!(exchange(&mut mep, &mut subsys, &req, true), Some(expected.to_vec()));
}

#[test]
fn smbus_i2c_frequency_short() {
        let (mut mep, mut subsys) = new_device(DeviceType::P1p1tC1aN0a0a);
        let req: [u8; 15] = [
            0x08, 0x00, 0x00,
            0x03, 0x00, 0x00, 0x00,
            0x01, 0x00, 0x00, 0x00,
            // Missing DWORD 1
            0x18, 0x6d, 0xd6, 0x8d
        ];
        let expected: &[u8] = &RESP_INVALID_COMMAND_SIZE;
        assert_eq!(exchange(&mut mep, &mut subsys, &req, true), Some(expected.to_vec()));
}

#[test]
fn smbus_i2c_frequency_long() {
        let (mut mep, mut subsys) = new_device(DeviceType::P1p1tC1aN0a0a);
        let req: [u8; 23] = [
            0x08, 0x00, 0x00,
            0x03, 0x00, 0x00, 0x00,
            0x01, 0x00, 0x00, 0x00,
            0x00, 0x00, 0x00, 0x00,
            0x00, 0x00, 0x00, 0x00,
            0x0f, 0x6b, 0xaf, 0x46
        ];
        let expected: &[u8] = &RESP_INVALID_COMMAND_SIZE;
        assert_eq!(exchange(&mut mep, &mut subsys, &req, true), Some(expected.to_vec()));
}

#[test]
fn configuration_set_smbus_i2c_frequency_bad_port_index() {
        let (mut mep, mut subsys) = new_device(DeviceType::P1p1tC1aN0a0a);
        let req: [u8; 19] = [
            0x08, 0x00, 0x00,
            0x03, 0x00, 0x00, 0x00,
            0x01, 0x01, 0x00, 0xff,
            0x00, 0x00, 0x00, 0x00,
            0xfe, 0x43, 0xc3, 0xd5
        ];
        let expected: &[u8] = &RESP_INVALID_PARAMETER;
        assert_eq!(exchange(&mut mep, &mut subsys, &req, true), Some(expected.to_vec()));
}

#[test]
fn configuration_set_smbus_i2c_frequency_bad_port_type_for_index() {
        let (mut mep, mut subsys) = new_device(DeviceType::P1p1tC1aN0a0a);
        let req: [u8; 19] = [
            0x08, 0x00, 0x00,
            0x03, 0x00, 0x00, 0x00,
            0x01, 0x01, 0x00, 0x00,
            0x00, 0x00, 0x00, 0x00,
            0x5d, 0x2d, 0xab, 0x75
        ];
        let expected: &[u8] = &RESP_INVALID_PARAMETER;
        assert_eq!(exchange(&mut mep, &mut subsys, &req, true), Some(expected.to_vec()));
}

#[test]
fn smbus_i2c_frequency_supported() {
        let (mut mep, mut subsys) = new_device(DeviceType::P1p1tC1aN0a0a);
        let req: [u8; 19] = [
            0x08, 0x00, 0x00,
            0x03, 0x00, 0x00, 0x00,
            0x01, 0x01, 0x00, 0x01,
            0x00, 0x00, 0x00, 0x00,
            0xf1, 0x42, 0xba, 0x4d
        ];
        let expected: &[u8] = &RESP_SUCCESS;
        assert_eq!(exchange(&mut mep, &mut subsys, &req, true), Some(expected.to_vec()));
}

#[test]
fn configuration_set_health_status_change_short() {
        let (mut mep, mut subsys) = new_device(DeviceType::P1p1tC1aN0a0a);
        let req: [u8; 15] = [
            0x08, 0x00, 0x00,
            0x03, 0x00, 0x00, 0x00,
            0x02, 0x00, 0x00, 0x00,
            // Missing DWORD 1
            0x21, 0xe4, 0xf4, 0xef
        ];
        let expected: &[u8] = &RESP_INVALID_COMMAND_SIZE;
        assert_eq!(exchange(&mut mep, &mut subsys, &req, true), Some(expected.to_vec()));
}

#[test]
fn configuration_set_health_status_change_long() {
        let (mut mep, mut subsys) = new_device(DeviceType::P1p1tC1aN0a0a);
        let req: [u8; 23] = [
            0x08, 0x00, 0x00,
            0x03, 0x00, 0x00, 0x00,
            0x02, 0x00, 0x00, 0x00,
            0x00, 0x00, 0x00, 0x00,
            0x00, 0x00, 0x00, 0x00,
            0x5f, 0x17, 0x3d, 0x15
        ];
        let expected: &[u8] = &RESP_INVALID_COMMAND_SIZE;
        assert_eq!(exchange(&mut mep, &mut subsys, &req, true), Some(expected.to_vec()));
}

#[test]
fn health_status_change_identity() {
        let (mut mep, mut subsys) = new_device(DeviceType::P1p1tC1aN0a0a);
        let req: [u8; 19] = [
            0x08, 0x00, 0x00,
            0x03, 0x00, 0x00, 0x00,
            0x02, 0x00, 0x00, 0x00,
            0x00, 0x00, 0x00, 0x00,
            0xfc, 0x86, 0xec, 0xc6
        ];
        let expected: &[u8] = &RESP_SUCCESS;
        assert_eq!(exchange(&mut mep, &mut subsys, &req, true), Some(expected.to_vec()));
}

#[test]
fn health_status_change_rdy_ceco() {
        let mut subsys = Subsystem::new(SubsystemInfo::invalid());
        let ppid = subsys.add_port(PortType::Pcie(PciePort::new())).unwrap();
        let ctlrid = subsys.add_controller(ppid).unwrap();
        let twpid = subsys
            .add_port(PortType::TwoWire(TwoWirePort::new()))
            .unwrap();
        let mut mep = ManagementEndpoint::new(twpid);
        let ctlr = subsys.controller_mut(ctlrid);
        ctlr.set_temperature(Temperature::Kelvin(273));
        ctlr.set_property(ControllerProperties::Cc(ControllerConfiguration {
            en: true,
        }));
        let req_nvmshsp_set: [u8; 19] = [
            0x08, 0x00, 0x00,
            0x01, 0x00, 0x00, 0x00,
            0x00, 0x00, 0x00, 0x00,
            0x00, 0x00, 0x00, 0x00,
            0xd2, 0xd4, 0x77, 0x36
        ];
        let resp_nvmshsp_set: [u8; 19] = [
            0x88, 0x00, 0x00,
            0x00, 0x00, 0x00, 0x00,
            0x38, 0x3d, 0x00, 0x26,
            0x21, 0x00, 0x00, 0x00,
            0x6b, 0xc5, 0x29, 0x45
        ];
        let expected: &[u8] = &resp_nvmshsp_set;
        assert_eq!(exchange(&mut mep, &mut subsys, &req_nvmshsp_set, true), Some(expected.to_vec()));
        let req_cset_hsc: [u8; 19] = [
            0x08, 0x00, 0x00,
            0x03, 0x00, 0x00, 0x00,
            0x02, 0x00, 0x00, 0x00,
            0x21, 0x00, 0x00, 0x00,
            0xcf, 0x38, 0x8c, 0xcc
        ];
        let expected: &[u8] = &RESP_SUCCESS;
        assert_eq!(exchange(&mut mep, &mut subsys, &req_cset_hsc, true), Some(expected.to_vec()));
        let req_nvmshsp_clear: [u8; 19] = [
            0x08, 0x00, 0x00,
            0x01, 0x00, 0x00, 0x00,
            0x00, 0x00, 0x00, 0x00,
            0x00, 0x00, 0x00, 0x00,
            0xd2, 0xd4, 0x77, 0x36
        ];
        let resp_nvmshsp_clear: [u8; 19] = [
            0x88, 0x00, 0x00,
            0x00, 0x00, 0x00, 0x00,
            0x38, 0x3d, 0x00, 0x26,
            0x00, 0x00, 0x00, 0x00,
            0x58, 0x7b, 0x49, 0x4f
        ];
        let expected: &[u8] = &resp_nvmshsp_clear;
        assert_eq!(exchange(&mut mep, &mut subsys, &req_nvmshsp_clear, true), Some(expected.to_vec()));
}

#[test]
fn smbus_i2c_frequency_unsupported() {
    let (mut mep, mut subsys) = new_device(DeviceType::P1p1tC1aN0a0a);
    // 400 kHz does not exceed the port's 400 kHz maximum, so it is accepted.
    let req: [u8; 19] = [
        0x08, 0x00, 0x00,
        0x03, 0x00, 0x00, 0x00,
        0x01, 0x02, 0x00, 0x01,
        0x00, 0x00, 0x00, 0x00,
        0xa9, 0x37, 0xbf, 0xf5
    ];
    assert_eq!(exchange(&mut mep, &mut subsys, &req, true), Some(RESP_SUCCESS.to_vec()));
}
