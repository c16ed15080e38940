//! Discovery and tracking of LIFX lighting devices on a local network.
//!
//! The library holds the protocol logic: the discovery request, the framing
//! checks on inbound datagrams, the session and target filtering, the device
//! registry and the per-device handling of decoded messages. Sockets, threads
//! and locking belong to the program that drives it.

mod codec;
mod device;
mod endpoint;
mod laws;
mod registry;

pub use codec::{discovery_request, frame_is_well_formed, CodecError};
pub use device::{BulbColor, BulbInfo, Hsbk, Notice, Payload, SERVICE_UDP};
pub use endpoint::{broadcast_endpoint, Endpoint, IpAddress, PORT};
pub use registry::{Delivery, DeviceRegistry, Header, LoopStep, ReadEvent};
pub use laws::{
    lemma_broadcast_ignored, lemma_foreign_session_ignored, lemma_handling_keeps_address,
    lemma_no_lost_updates, lemma_request_tagged, lemma_sender_recorded, Arrival,
};
