//! The compact model that travels between nodes: packets, the envelopes they
//! embed, and the states and identifiers that are carried as single bytes.

pub mod envelope;
pub mod network_status;
pub mod packet;
pub mod peer;
pub mod service_status;

pub use crate::node::{Action, DID};
pub use crate::slip::Slip;
pub use envelope::{Consumer, Envelope, Producer, Route, Service};
pub use network_status::NetworkStatus;
pub use packet::{Packet, PacketType};
pub use peer::{NetworkId, Node, Peer};
pub use service_status::ServiceStatus;
