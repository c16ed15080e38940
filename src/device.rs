use vstd::prelude::*;

use crate::endpoint::{Endpoint, IpAddress};

verus! {

/// A colour as the protocol reports it: hue, saturation, brightness and
/// temperature in kelvin, each a 16-bit value.
#[derive(Clone, Copy, Debug, PartialEq, Eq, Structural)]
pub struct Hsbk {
    pub hue: u16,
    pub saturation: u16,
    pub brightness: u16,
    pub kelvin: u16,
}

/// The colour of a device, known once it has sent a state report.
#[derive(Clone, Copy, Debug, PartialEq, Eq, Structural)]
pub enum BulbColor {
    Unknown,
    Known(Hsbk),
}

/// The protocol's code for the UDP service, the only one it documents.
pub const SERVICE_UDP: u8 = 1;

/// The part of a decoded message that device handling reads.
#[derive(Clone, Debug)]
pub enum Payload {
    /// A service announcement: the service code and the port it is offered on.
    StateService { service: u8, port: u32 },
    /// A state report: colour, power level and label.
    LightState { color: Hsbk, power: u16, label: String },
    /// Any other message kind the codec recognises.
    Other,
}

/// What handling one message has to report.
#[derive(Clone, Copy, Debug, PartialEq, Eq, Structural)]
pub enum Notice {
    /// Nothing worth reporting.
    Quiet,
    /// The device announced a service other than UDP, or a port other than
    /// the one it was heard from: the endpoint it announced.
    UnknownService { ip: IpAddress, port: u32 },
    /// A state report was stored in the device record.
    StateRecorded,
    /// The message kind is not handled by this library.
    Unhandled,
}

/// What is known of one device: where it was last heard from and what it last
/// reported of its state.
#[derive(Clone, Debug)]
pub struct BulbInfo {
    pub address: Endpoint,
    pub color: BulbColor,
    pub power: Option<u16>,
    pub label: Option<String>,
}

/// Whether an announcement of `service` on `port` differs from what a device
/// heard from `address` is expected to offer.
pub open spec fn announces_elsewhere(address: Endpoint, service: u8, port: u32) -> bool {
    service != SERVICE_UDP || port != address.port as u32
}

impl BulbInfo {
    /// The record of a device first heard from `address`.
    pub open spec fn fresh(address: Endpoint) -> BulbInfo {
        BulbInfo { address, color: BulbColor::Unknown, power: None, label: None }
    }

    /// The record once `payload` has been handled.
    pub open spec fn after(self, payload: Payload) -> BulbInfo {
        match payload {
            Payload::LightState { color, power, label } => BulbInfo {
                color: BulbColor::Known(color),
                power: Some(power),
                label: Some(label),
                ..self
            },
            _ => self,
        }
    }

    /// What handling `payload` reports.
    pub open spec fn notice_for(self, payload: Payload) -> Notice {
        match payload {
            Payload::StateService { service, port } => if announces_elsewhere(
                self.address,
                service,
                port,
            ) {
                Notice::UnknownService { ip: self.address.ip, port }
            } else {
                Notice::Quiet
            },
            Payload::LightState { .. } => Notice::StateRecorded,
            Payload::Other => Notice::Unhandled,
        }
    }

    /// A record for a device first heard from `address`, with nothing known
    /// of its state.
    pub fn new(address: Endpoint) -> (r: BulbInfo)
        ensures
            r == BulbInfo::fresh(address),
    {
        BulbInfo { address, color: BulbColor::Unknown, power: None, label: None }
    }

    /// Handles one decoded message addressed to this device. A state report
    /// is stored; a service announcement is checked against the address the
    /// device was heard from; other messages leave the record as it is.
    pub fn handle_message(&mut self, payload: Payload) -> (r: Notice)
        ensures
            *final(self) == old(self).after(payload),
            r == old(self).notice_for(payload),
    {
        match payload {
            Payload::StateService { service, port } => {
                if service != SERVICE_UDP || port != self.address.port as u32 {
                    Notice::UnknownService { ip: self.address.ip, port }
                } else {
                    Notice::Quiet
                }
            },
            Payload::LightState { color, power, label } => {
                self.color = BulbColor::Known(color);
                self.power = Some(power);
                self.label = Some(label);
                Notice::StateRecorded
            },
            Payload::Other => Notice::Unhandled,
        }
    }
}

} // verus!
