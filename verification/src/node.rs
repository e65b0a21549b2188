//! Who takes part in the overlay: nodes, their peers on each network, and the
//! identities of those peers.

use std::collections::HashMap;
use vstd::prelude::*;

verus! {

/// What a request asks a service to do with its subject.
#[derive(Debug, Copy, Clone, PartialEq, Eq, Hash, Structural)]
pub enum Action {
    POST,
    PUT,
    DELETE,
    GET,
}

/// The setting in which a service runs.
#[derive(Debug)]
pub struct Context {}

/// The networks that an envelope may travel over.
#[derive(Debug, Copy, Clone, PartialEq, Eq, Hash, Structural)]
pub enum Network {
    IMS,
    LiFi,
    Bluetooth,
    WiFiDirect,
    HTTPS,
    TOR,
    I2P,
    Satellite,
    FSRadio,
}

/// This node: the peer it is on each network it has joined.
#[derive(Debug)]
pub struct Node {
    pub local_peers: HashMap<Network, Peer>,
}

/// A participant as one network knows it.
#[derive(Debug)]
pub struct Peer {
    pub id: String,
    pub network: Network,
    pub did: DID,
    pub port: u32,
}

/// The identity that a peer signs under. The routing core carries it and
/// never looks inside.
#[derive(Debug)]
pub struct DID {
    pub username: String,
    pub passphrase: String,
    pub passphrase2: String,
    pub address: String,
    pub algorithm: String,
}

} // verus!
