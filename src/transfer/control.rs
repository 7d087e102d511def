//! Control transfers and the 8-byte setup packet that starts them.

use vstd::prelude::*;

verus! {

/// Size of a control setup packet on the wire.
pub const SETUP_PACKET_SIZE: usize = 8;

/// Direction of the data phase of a control transfer.
#[derive(Debug, Copy, Clone, PartialEq, Eq, Structural)]
pub enum Direction {
    /// Host to device.
    Out,
    /// Device to host.
    In,
}

/// Specification defining the request.
#[derive(Debug, Copy, Clone, PartialEq, Eq, Structural)]
pub enum ControlType {
    /// Request defined by the USB standard.
    Standard,
    /// Request defined by the standard USB class specification.
    Class,
    /// Non-standard request.
    Vendor,
}

/// Entity targeted by the request.
#[derive(Debug, Copy, Clone, PartialEq, Eq, Structural)]
pub enum Recipient {
    /// Request made to the device as a whole.
    Device,
    /// Request made to a specific interface.
    Interface,
    /// Request made to a specific endpoint.
    Endpoint,
    /// Other request.
    Other,
}

/// The fields of a control setup packet.
#[derive(Debug, Copy, Clone, PartialEq, Eq, Structural)]
pub struct SetupPacket {
    pub direction: Direction,
    pub control_type: ControlType,
    pub recipient: Recipient,
    pub request: u8,
    pub value: u16,
    pub index: u16,
    pub length: u16,
}

pub open spec fn direction_bits(d: Direction) -> u8 {
    match d {
        Direction::Out => 0,
        Direction::In => 128,
    }
}

pub open spec fn type_bits(t: ControlType) -> u8 {
    match t {
        ControlType::Standard => 0,
        ControlType::Class => 32,
        ControlType::Vendor => 64,
    }
}

pub open spec fn recipient_bits(r: Recipient) -> u8 {
    match r {
        Recipient::Device => 0,
        Recipient::Interface => 1,
        Recipient::Endpoint => 2,
        Recipient::Other => 3,
    }
}

/// `bmRequestType`: direction in bit 7, type in bits 6..5, recipient in bits 4..0.
pub open spec fn request_type_byte(p: SetupPacket) -> u8 {
    (direction_bits(p.direction) + type_bits(p.control_type) + recipient_bits(p.recipient)) as u8
}

pub open spec fn low_byte(v: u16) -> u8 {
    (v % 256) as u8
}

pub open spec fn high_byte(v: u16) -> u8 {
    (v / 256) as u8
}

pub open spec fn le_u16(lo: u8, hi: u8) -> u16 {
    (hi as int * 256 + lo as int) as u16
}

/// The wire layout of a setup packet.
pub open spec fn setup_bytes(p: SetupPacket) -> Seq<u8> {
    seq![
        request_type_byte(p),
        p.request,
        low_byte(p.value),
        high_byte(p.value),
        low_byte(p.index),
        high_byte(p.index),
        low_byte(p.length),
        high_byte(p.length),
    ]
}

/// The setup packet that `b` encodes, if `b` is eight bytes whose request
/// type names a defined type and recipient.
pub open spec fn parse_setup(b: Seq<u8>) -> Option<SetupPacket> {
    if b.len() != 8 {
        None
    } else {
        let rt = b[0];
        let ty = (rt / 32) % 4;
        let rc = rt % 32;
        if ty == 3 || rc > 3 {
            None
        } else {
            Some(
                SetupPacket {
                    direction: if rt >= 128 {
                        Direction::In
                    } else {
                        Direction::Out
                    },
                    control_type: if ty == 0 {
                        ControlType::Standard
                    } else if ty == 1 {
                        ControlType::Class
                    } else {
                        ControlType::Vendor
                    },
                    recipient: if rc == 0 {
                        Recipient::Device
                    } else if rc == 1 {
                        Recipient::Interface
                    } else if rc == 2 {
                        Recipient::Endpoint
                    } else {
                        Recipient::Other
                    },
                    request: b[1],
                    value: le_u16(b[2], b[3]),
                    index: le_u16(b[4], b[5]),
                    length: le_u16(b[6], b[7]),
                },
            )
        }
    }
}

proof fn lemma_u16_bytes(v: u16)
    ensures
        le_u16(low_byte(v), high_byte(v)) == v,
{
}

/// Decoding the bytes of an encoded setup packet gives back every field.
pub proof fn lemma_setup_round_trip(p: SetupPacket)
    ensures
        parse_setup(setup_bytes(p)) == Some(p),
{
    lemma_u16_bytes(p.value);
    lemma_u16_bytes(p.index);
    lemma_u16_bytes(p.length);
    let rt = request_type_byte(p);
    assert(rt >= 128 <==> p.direction == Direction::In);
    assert((rt / 32) % 4 == type_bits(p.control_type) / 32);
    assert(rt % 32 == recipient_bits(p.recipient));
}

fn split_u16(v: u16) -> (r: (u8, u8))
    ensures
        r.0 == low_byte(v),
        r.1 == high_byte(v),
{
    ((v % 256) as u8, (v / 256) as u8)
}

impl SetupPacket {
    /// Encode the packet in its 8-byte wire layout.
    pub fn encode(&self) -> (r: [u8; 8])
        ensures
            r@ == setup_bytes(*self),
    {
        let d: u8 = match self.direction {
            Direction::Out => 0,
            Direction::In => 128,
        };
        let t: u8 = match self.control_type {
            ControlType::Standard => 0,
            ControlType::Class => 32,
            ControlType::Vendor => 64,
        };
        let c: u8 = match self.recipient {
            Recipient::Device => 0,
            Recipient::Interface => 1,
            Recipient::Endpoint => 2,
            Recipient::Other => 3,
        };
        let (v0, v1) = split_u16(self.value);
        let (i0, i1) = split_u16(self.index);
        let (l0, l1) = split_u16(self.length);
        let r = [d + t + c, self.request, v0, v1, i0, i1, l0, l1];
        assert(r@ =~= setup_bytes(*self));
        r
    }

    /// Decode a setup packet; `None` when `bytes` is not eight bytes long or
    /// its request type uses the reserved type or an undefined recipient.
    pub fn decode(bytes: &[u8]) -> (r: Option<SetupPacket>)
        ensures
            r == parse_setup(bytes@),
    {
        if bytes.len() != SETUP_PACKET_SIZE {
            return None;
        }
        let rt = bytes[0];
        let ty: u8 = (rt / 32) % 4;
        let rc: u8 = rt % 32;
        if ty == 3 || rc > 3 {
            return None;
        }
        let direction = if rt >= 128 {
            Direction::In
        } else {
            Direction::Out
        };
        let control_type = if ty == 0 {
            ControlType::Standard
        } else if ty == 1 {
            ControlType::Class
        } else {
            ControlType::Vendor
        };
        let recipient = if rc == 0 {
            Recipient::Device
        } else if rc == 1 {
            Recipient::Interface
        } else if rc == 2 {
            Recipient::Endpoint
        } else {
            Recipient::Other
        };
        Some(
            SetupPacket {
                direction,
                control_type,
                recipient,
                request: bytes[1],
                value: bytes[3] as u16 * 256 + bytes[2] as u16,
                index: bytes[5] as u16 * 256 + bytes[4] as u16,
                length: bytes[7] as u16 * 256 + bytes[6] as u16,
            },
        )
    }

    /// Whether a data phase in `phase` direction agrees with this packet; a
    /// transfer whose data phase disagrees must not be submitted.
    pub fn accepts_data_phase(&self, phase: Direction) -> (r: bool)
        ensures
            r == (self.direction == phase),
    {
        match (self.direction, phase) {
            (Direction::In, Direction::In) => true,
            (Direction::Out, Direction::Out) => true,
            _ => false,
        }
    }
}

/// A control request whose direction and length are given at submission.
#[derive(Debug, Copy, Clone, PartialEq, Eq, Structural)]
pub struct Control {
    pub control_type: ControlType,
    pub recipient: Recipient,
    pub request: u8,
    pub value: u16,
    pub index: u16,
}

impl Control {
    /// The setup packet of this request with the given data-phase direction
    /// and length.
    pub fn setup_packet(&self, direction: Direction, length: u16) -> (r: SetupPacket)
        ensures
            r == (SetupPacket {
                direction,
                control_type: self.control_type,
                recipient: self.recipient,
                request: self.request,
                value: self.value,
                index: self.index,
                length,
            }),
    {
        SetupPacket {
            direction,
            control_type: self.control_type,
            recipient: self.recipient,
            request: self.request,
            value: self.value,
            index: self.index,
            length,
        }
    }
}

/// A device-to-host control request.
#[derive(Debug, Copy, Clone, PartialEq, Eq, Structural)]
pub struct ControlIn {
    pub control_type: ControlType,
    pub recipient: Recipient,
    pub request: u8,
    pub value: u16,
    pub index: u16,
    /// Number of bytes to read.
    pub length: u16,
}

impl ControlIn {
    /// The setup packet of this request: direction in, with its length.
    pub fn setup_packet(&self) -> (r: SetupPacket)
        ensures
            r == (SetupPacket {
                direction: Direction::In,
                control_type: self.control_type,
                recipient: self.recipient,
                request: self.request,
                value: self.value,
                index: self.index,
                length: self.length,
            }),
    {
        SetupPacket {
            direction: Direction::In,
            control_type: self.control_type,
            recipient: self.recipient,
            request: self.request,
            value: self.value,
            index: self.index,
            length: self.length,
        }
    }
}

/// A host-to-device control request with its data.
#[derive(Debug)]
pub struct ControlOut {
    pub control_type: ControlType,
    pub recipient: Recipient,
    pub request: u8,
    pub value: u16,
    pub index: u16,
    /// Data sent in the data phase.
    pub data: Vec<u8>,
}

impl ControlOut {
    /// The setup packet of this request: direction out, with the data's
    /// length; `None` when the data is longer than a setup packet can say.
    pub fn setup_packet(&self) -> (r: Option<SetupPacket>)
        ensures
            r is Some <==> self.data@.len() <= u16::MAX,
            r is Some ==> r->Some_0 == (SetupPacket {
                direction: Direction::Out,
                control_type: self.control_type,
                recipient: self.recipient,
                request: self.request,
                value: self.value,
                index: self.index,
                length: self.data@.len() as u16,
            }),
    {
        if self.data.len() > 65535 {
            return None;
        }
        Some(
            SetupPacket {
                direction: Direction::Out,
                control_type: self.control_type,
                recipient: self.recipient,
                request: self.request,
                value: self.value,
                index: self.index,
                length: self.data.len() as u16,
            },
        )
    }
}

} // verus!
