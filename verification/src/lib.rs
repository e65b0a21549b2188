//! Routing and delivery core of a multi-transport messaging overlay.
//!
//! A message travels as an [`Envelope`] that carries its own routing plan, the
//! routing slip: a stack of hops that any relay may extend while the message is
//! in flight. This crate holds the envelope and packet data model, the slip,
//! the per-hop delay schedule, the lifecycle state machines of services and
//! network adapters, and the decision a router takes for one hop.

pub mod delay;
pub mod envelope;
pub mod lifecycle;
pub mod models;
pub mod node;
pub mod route;
pub mod router;
pub mod service;
pub mod slip;

pub use envelope::Envelope;
pub use lifecycle::LifeCycle;
pub use node::{Action, Context, Network, Node, Peer, DID};
pub use route::Route;
pub use service::{Consumer, Producer, Router, Service};
pub use slip::Slip;
