//! Networks and the peers on them, as a packet names them.

use crate::node::DID;
use std::collections::HashMap;
use vstd::prelude::*;

verus! {

/// The network that a packet was sent over.
#[derive(Debug, Copy, Clone, PartialEq, Eq, Hash, Structural)]
pub enum NetworkId {
    IMS,
    LiFi,
    Bluetooth,
    WiFiDirect,
    HTTPS,
    VPN,
    TOR,
    I2P,
    Satellite,
    FSRadio,
}

impl NetworkId {
    /// The number that stands for this network on the wire.
    pub open spec fn code_of(self) -> u8 {
        match self {
            NetworkId::IMS => 0,
            NetworkId::LiFi => 1,
            NetworkId::Bluetooth => 2,
            NetworkId::WiFiDirect => 3,
            NetworkId::HTTPS => 4,
            NetworkId::VPN => 5,
            NetworkId::TOR => 6,
            NetworkId::I2P => 7,
            NetworkId::Satellite => 8,
            NetworkId::FSRadio => 9,
        }
    }

    /// The network that `code` stands for, if it stands for one.
    pub open spec fn with_code(code: u8) -> Option<NetworkId> {
        if code == 0 {
            Some(NetworkId::IMS)
        } else if code == 1 {
            Some(NetworkId::LiFi)
        } else if code == 2 {
            Some(NetworkId::Bluetooth)
        } else if code == 3 {
            Some(NetworkId::WiFiDirect)
        } else if code == 4 {
            Some(NetworkId::HTTPS)
        } else if code == 5 {
            Some(NetworkId::VPN)
        } else if code == 6 {
            Some(NetworkId::TOR)
        } else if code == 7 {
            Some(NetworkId::I2P)
        } else if code == 8 {
            Some(NetworkId::Satellite)
        } else if code == 9 {
            Some(NetworkId::FSRadio)
        } else {
            None
        }
    }

    /// The number that stands for this network on the wire.
    pub fn code(self) -> (c: u8)
        ensures
            c == self.code_of(),
    {
        match self {
            NetworkId::IMS => 0,
            NetworkId::LiFi => 1,
            NetworkId::Bluetooth => 2,
            NetworkId::WiFiDirect => 3,
            NetworkId::HTTPS => 4,
            NetworkId::VPN => 5,
            NetworkId::TOR => 6,
            NetworkId::I2P => 7,
            NetworkId::Satellite => 8,
            NetworkId::FSRadio => 9,
        }
    }
}

impl TryFrom<u8> for NetworkId {
    type Error = ();

    fn try_from(code: u8) -> (r: Result<Self, ()>) {
        match code {
            0 => Ok(NetworkId::IMS),
            1 => Ok(NetworkId::LiFi),
            2 => Ok(NetworkId::Bluetooth),
            3 => Ok(NetworkId::WiFiDirect),
            4 => Ok(NetworkId::HTTPS),
            5 => Ok(NetworkId::VPN),
            6 => Ok(NetworkId::TOR),
            7 => Ok(NetworkId::I2P),
            8 => Ok(NetworkId::Satellite),
            9 => Ok(NetworkId::FSRadio),
            _ => Err(()),
        }
    }
}

impl vstd::std_specs::convert::TryFromSpecImpl<u8> for NetworkId {
    open spec fn obeys_try_from_spec() -> bool {
        true
    }

    open spec fn try_from_spec(v: u8) -> Result<Self, ()> {
        match NetworkId::with_code(v) {
            Some(network) => Ok(network),
            None => Err(()),
        }
    }
}

/// The code of a network stands for that network and for no other, and the
/// codes are the numbers from 0 to 9.
pub proof fn lemma_network_id_code_round_trip(network: NetworkId, code: u8)
    ensures
        NetworkId::with_code(network.code_of()) == Some(network),
        NetworkId::with_code(code) == Some(network) ==> network.code_of() == code,
        NetworkId::with_code(code) is Some <==> code <= 9,
{
}

/// This node: the peer it is on each network it has joined.
#[derive(Debug)]
pub struct Node {
    pub local_peers: HashMap<NetworkId, Peer>,
}

/// A participant as one network knows it.
#[derive(Debug)]
pub struct Peer {
    pub network_id: NetworkId,
    pub did: DID,
}

} // verus!
