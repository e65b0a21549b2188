//! The packet: what a transport carries between two nodes for one hop.

use crate::models::envelope::Envelope;
use crate::models::peer::NetworkId;
use vstd::prelude::*;

verus! {

/// What a packet is for.
#[derive(Debug, Copy, Clone, PartialEq, Eq, Hash, Structural)]
pub enum PacketType {
    /// Carries a data payload.
    Data,
    /// Signals the end of a connection.
    Fin,
    /// Acknowledges a packet.
    Ack,
    /// Terminates a connection forcibly.
    Reset,
    /// Initiates a connection with a peer.
    Syn,
}

impl PacketType {
    /// The number that stands for this type on the wire.
    pub open spec fn code_of(self) -> u8 {
        match self {
            PacketType::Data => 0,
            PacketType::Fin => 1,
            PacketType::Ack => 2,
            PacketType::Reset => 3,
            PacketType::Syn => 4,
        }
    }

    /// The type that `code` stands for, if it stands for one.
    pub open spec fn with_code(code: u8) -> Option<PacketType> {
        if code == 0 {
            Some(PacketType::Data)
        } else if code == 1 {
            Some(PacketType::Fin)
        } else if code == 2 {
            Some(PacketType::Ack)
        } else if code == 3 {
            Some(PacketType::Reset)
        } else if code == 4 {
            Some(PacketType::Syn)
        } else {
            None
        }
    }

    /// The number that stands for this type on the wire.
    pub fn code(self) -> (c: u8)
        ensures
            c == self.code_of(),
    {
        match self {
            PacketType::Data => 0,
            PacketType::Fin => 1,
            PacketType::Ack => 2,
            PacketType::Reset => 3,
            PacketType::Syn => 4,
        }
    }
}

impl TryFrom<u8> for PacketType {
    type Error = ();

    fn try_from(code: u8) -> (r: Result<Self, ()>) {
        match code {
            0 => Ok(PacketType::Data),
            1 => Ok(PacketType::Fin),
            2 => Ok(PacketType::Ack),
            3 => Ok(PacketType::Reset),
            4 => Ok(PacketType::Syn),
            _ => Err(()),
        }
    }
}

impl vstd::std_specs::convert::TryFromSpecImpl<u8> for PacketType {
    open spec fn obeys_try_from_spec() -> bool {
        true
    }

    open spec fn try_from_spec(v: u8) -> Result<Self, ()> {
        match PacketType::with_code(v) {
            Some(kind) => Ok(kind),
            None => Err(()),
        }
    }
}

/// The code of a packet type stands for that type and for no other, and the
/// codes are the numbers from 0 to 4.
pub proof fn lemma_packet_type_code_round_trip(kind: PacketType, code: u8)
    ensures
        PacketType::with_code(kind.code_of()) == Some(kind),
        PacketType::with_code(code) == Some(kind) ==> kind.code_of() == code,
        PacketType::with_code(code) is Some <==> code <= 4,
{
}

/// The frame that a transport carries for one hop.
#[derive(Debug, Clone)]
pub struct Packet {
    /// The code of a [`PacketType`].
    pub packet_type: u8,
    /// Identifies this packet between its two addresses for as long as the
    /// hop lasts.
    pub id: u8,
    /// The code of the [`NetworkId`] that the packet was sent over.
    pub network_id: u8,
    /// The address of the sending node.
    pub from_addr: String,
    /// The address of the destination node.
    pub to_addr: String,
    /// The least delay, in seconds.
    pub min_delay: u16,
    /// The greatest delay, in seconds.
    pub max_delay: u16,
    /// The data being sent.
    pub envelope: Option<Envelope>,
}

impl Packet {
    /// A packet that asks for no delay.
    pub fn new(
        id: u8,
        packet_type: u8,
        network_id: u8,
        from_addr: String,
        to_addr: String,
        envelope: Option<Envelope>,
    ) -> (p: Packet)
        ensures
            p.id == id,
            p.packet_type == packet_type,
            p.network_id == network_id,
            p.from_addr == from_addr,
            p.to_addr == to_addr,
            p.min_delay == 0,
            p.max_delay == 0,
            p.envelope == envelope,
    {
        Packet { id, packet_type, network_id, from_addr, to_addr, min_delay: 0, max_delay: 0, envelope }
    }

    /// What the packet is for, where its type code stands for a type.
    pub fn kind(&self) -> (k: Option<PacketType>)
        ensures
            k == PacketType::with_code(self.packet_type),
    {
        match PacketType::try_from(self.packet_type) {
            Ok(kind) => Some(kind),
            Err(_) => None,
        }
    }

    /// The network the packet was sent over, where its network code stands
    /// for one.
    pub fn network(&self) -> (n: Option<NetworkId>)
        ensures
            n == NetworkId::with_code(self.network_id),
    {
        match NetworkId::try_from(self.network_id) {
            Ok(network) => Some(network),
            Err(_) => None,
        }
    }
}

} // verus!
