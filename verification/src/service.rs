//! The interfaces between the routing core and what it routes for.

use crate::envelope::Envelope;
use crate::route::Route;
use vstd::prelude::*;

verus! {

/// A service hosted on this node. The router calls it when the current route
/// of an envelope names it.
pub trait Service {
    fn handle(&mut self, op: &String, env: &Envelope);
}

/// Where envelopes enter: `send` hands one over for routing.
pub trait Producer {
    fn send(&mut self, env: Box<Envelope>);
}

/// Where envelopes leave: `receive` yields one that has completed its slip.
pub trait Consumer {
    fn receive(&mut self) -> Box<Envelope>;
}

/// Routes an envelope by one hop. The result is the route that was completed,
/// or `None` once no hop is left.
pub trait Router {
    fn route(&self, env: Box<Envelope>) -> Option<Route>;
}

} // verus!
