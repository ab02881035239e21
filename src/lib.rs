//! A device-side NVMe Management Interface responder: a model of an NVM
//! subsystem, the NVMe-MI request dispatcher and its command handlers, each
//! specified over the bytes it reads and writes.
pub mod wire;
pub mod icv;
pub mod mi;
pub mod nvme;
pub mod model;
pub mod health;
pub mod reply;
pub mod management;
pub mod admin;
pub mod endpoint;
pub mod laws;
pub mod pcie;
pub mod settings;

pub use model::{
    CommandEffect, CommandEffectError, Controller, ControllerError, ControllerId,
    ManagementEndpoint, Namespace, NamespaceId, NamespaceIdentifierType, PciePort, Port, PortId,
    PortType, SecondaryController, Subsystem, SubsystemError, SubsystemInfo, Temperature,
    TwoWirePort, UnitKind,
};
pub use nvme::{ControllerConfiguration, ControllerProperties};
pub use reply::Action;
