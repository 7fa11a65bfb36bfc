//! Packet framing for the wire.
//!
//! The wire format is deliberately bare: one datagram carries exactly the
//! quantized payload bytes, with no header, sequence number or timestamp.
//! Serialization is therefore the identity on the payload, and packets are
//! indistinguishable except by arrival order and content.

use vstd::prelude::*;

verus! {

/// One datagram's worth of payload, as it crosses the wire.
pub struct RtpPacket {
    /// The raw quantized sample bytes; the whole datagram.
    pub payload: Vec<u8>,
}

/// Flatten a packet into the byte sequence sent as one datagram.  The wire
/// carries no framing, so the bytes are exactly the payload.
pub fn serialize_rtp_packet(packet: &RtpPacket) -> (data: Vec<u8>)
    ensures
        data@ == packet.payload@,
{
    let mut data: Vec<u8> = Vec::new();
    let mut i: usize = 0;
    while i < packet.payload.len()
        invariant
            i <= packet.payload.len(),
            data@ == packet.payload@.take(i as int),
        decreases packet.payload.len() - i,
    {
        data.push(packet.payload[i]);
        proof {
            assert(data@ =~= packet.payload@.take(i + 1));
        }
        i = i + 1;
    }
    proof {
        assert(data@ =~= packet.payload@);
    }
    data
}

/// Rebuild a packet from the bytes of one received datagram.  The inverse
/// of `serialize_rtp_packet`: every received byte is payload.
pub fn deserialize_rtp_packet(data: &[u8]) -> (packet: RtpPacket)
    ensures
        packet.payload@ == data@,
{
    let mut payload: Vec<u8> = Vec::new();
    let mut i: usize = 0;
    while i < data.len()
        invariant
            i <= data@.len(),
            payload@ == data@.take(i as int),
        decreases data@.len() - i,
    {
        payload.push(data[i]);
        proof {
            assert(payload@ =~= data@.take(i + 1));
        }
        i = i + 1;
    }
    proof {
        assert(payload@ =~= data@);
    }
    RtpPacket { payload }
}

} // verus!
