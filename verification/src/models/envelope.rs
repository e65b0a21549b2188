//! The compact envelope that a packet embeds, with routes that name service
//! and operation by their codes.

use crate::slip::Slip;
use vstd::prelude::*;

verus! {

/// A service that takes an envelope for one of its operations.
pub trait Service {
    fn operate(&mut self, operation: u8, env: Envelope);
}

/// Where envelopes enter: `send` hands one over for routing.
pub trait Producer {
    fn send(&mut self, env: Envelope);
}

/// Where envelopes leave: `receive` yields one that has completed its slip.
pub trait Consumer {
    fn receive(&mut self) -> Envelope;
}

/// One hop: the code of a service, and of the operation to invoke on it.
#[derive(Debug, Copy, Clone, PartialEq, Eq, Structural)]
pub struct Route {
    pub service: u8,
    pub op: u8,
}

impl Route {
    pub fn new(service: u8, op: u8) -> (r: Route)
        ensures
            r.service == service,
            r.op == op,
    {
        Route { service, op }
    }
}

/// A message with the codes of its sender and its receiver, and the slip of
/// hops it still has to traverse.
#[derive(Debug, Clone)]
pub struct Envelope {
    pub from: u8,
    pub to: u8,
    pub msg: Vec<u8>,
    /// A stack-based routing slip that can be added to at any time before
    /// routing completes.
    pub slip: Slip<Route>,
}

impl Envelope {
    /// An envelope from `from` to `to` whose slip holds no route yet.
    pub fn new(from: u8, to: u8, msg: Vec<u8>) -> (env: Envelope)
        ensures
            env.from == from,
            env.to == to,
            env.msg == msg,
            env.slip@ == Seq::<Route>::empty(),
            !env.slip.started(),
    {
        Envelope { from, to, msg, slip: Slip::new() }
    }

    /// An envelope that names neither sender nor receiver.
    pub fn new_msg_only(msg: Vec<u8>) -> (env: Envelope)
        ensures
            env.from == 0,
            env.to == 0,
            env.msg == msg,
            env.slip@ == Seq::<Route>::empty(),
            !env.slip.started(),
    {
        Envelope { from: 0, to: 0, msg, slip: Slip::new() }
    }
}

} // verus!
