//! ARP and RARP messages and their encoding in an Ethernet frame.

use crate::error::ArpError;
use crate::interfaces::{Ipv4Addr, MacAddr};
use vstd::prelude::*;

verus! {

/// Length of the Ethernet header: two link addresses and the type tag.
pub const ETHERNET_HEADER_LEN: usize = 14;

/// Length of an ARP payload for Ethernet and IPv4.
pub const ARP_PAYLOAD_LEN: usize = 28;

/// Length of a whole frame: header and payload, no padding.
pub const FRAME_LEN: usize = 42;

/// Hardware type of Ethernet in an ARP payload.
pub const HARDWARE_TYPE_ETHERNET: u16 = 1;

/// Protocol type of IPv4 in an ARP payload.
pub const PROTOCOL_TYPE_IPV4: u16 = 0x0800;

/// Length of a link address, as the payload announces it.
pub const HARDWARE_ADDRESS_LEN: u8 = 6;

/// Length of a network address, as the payload announces it.
pub const PROTOCOL_ADDRESS_LEN: u8 = 4;

/// The two octets of `value`, most significant first.
pub open spec fn be16(value: u16) -> Seq<u8> {
    seq![(value / 256) as u8, (value % 256) as u8]
}

/// The number whose octets, most significant first, are `high` and `low`.
pub open spec fn be16_value(high: u8, low: u8) -> u16 {
    (high * 256 + low) as u16
}

/// What a message asks or answers.
#[derive(Copy, Clone, Debug, PartialEq, Eq, Structural)]
pub enum Operation {
    ArpRequest,
    ArpResponse,
    RarpRequest,
    RarpResponse,
}

impl Operation {
    /// The operation code on the wire.
    pub open spec fn code(self) -> u16 {
        match self {
            Operation::ArpRequest => 1,
            Operation::ArpResponse => 2,
            Operation::RarpRequest => 3,
            Operation::RarpResponse => 4,
        }
    }

    /// The operation that a code stands for, if any.
    pub open spec fn from_code(raw: u16) -> Option<Operation> {
        if raw == 1 {
            Some(Operation::ArpRequest)
        } else if raw == 2 {
            Some(Operation::ArpResponse)
        } else if raw == 3 {
            Some(Operation::RarpRequest)
        } else if raw == 4 {
            Some(Operation::RarpResponse)
        } else {
            None
        }
    }

    /// Whether the operation asks rather than answers.
    pub open spec fn is_request(self) -> bool {
        self == Operation::ArpRequest || self == Operation::RarpRequest
    }

    /// The tag of the frames that carry this operation.
    pub open spec fn family(self) -> EtherType {
        match self {
            Operation::ArpRequest | Operation::ArpResponse => EtherType::Arp,
            Operation::RarpRequest | Operation::RarpResponse => EtherType::Rarp,
        }
    }

    pub fn to_u16(self) -> (raw: u16)
        ensures
            raw == self.code(),
            Self::from_code(raw) == Some(self),
    {
        match self {
            Operation::ArpRequest => 1,
            Operation::ArpResponse => 2,
            Operation::RarpRequest => 3,
            Operation::RarpResponse => 4,
        }
    }

    pub fn from_u16(raw: u16) -> (operation: Option<Self>)
        ensures
            operation == Self::from_code(raw),
            operation is Some <==> 1 <= raw <= 4,
            operation matches Some(op) ==> op.code() == raw,
    {
        if raw == 1 {
            Some(Operation::ArpRequest)
        } else if raw == 2 {
            Some(Operation::ArpResponse)
        } else if raw == 3 {
            Some(Operation::RarpRequest)
        } else if raw == 4 {
            Some(Operation::RarpResponse)
        } else {
            None
        }
    }
}

/// The type tag of the Ethernet frame that carries a message.
#[derive(Copy, Clone, Debug, PartialEq, Eq, Structural)]
pub enum EtherType {
    Arp,
    Rarp,
}

impl EtherType {
    /// The tag on the wire.
    pub open spec fn code(self) -> u16 {
        match self {
            EtherType::Arp => 0x0806,
            EtherType::Rarp => 0x8035,
        }
    }

    /// The frame type that a tag stands for, if it is one of the two.
    pub open spec fn from_code(raw: u16) -> Option<EtherType> {
        if raw == 0x0806 {
            Some(EtherType::Arp)
        } else if raw == 0x8035 {
            Some(EtherType::Rarp)
        } else {
            None
        }
    }

    pub fn to_u16(self) -> (raw: u16)
        ensures
            raw == self.code(),
            Self::from_code(raw) == Some(self),
    {
        match self {
            EtherType::Arp => 0x0806,
            EtherType::Rarp => 0x8035,
        }
    }

    pub fn from_u16(raw: u16) -> (ethertype: Option<Self>)
        ensures
            ethertype == Self::from_code(raw),
            ethertype matches Some(t) ==> t.code() == raw,
    {
        if raw == 0x0806 {
            Some(EtherType::Arp)
        } else if raw == 0x8035 {
            Some(EtherType::Rarp)
        } else {
            None
        }
    }
}

/// One ARP or RARP message.
#[derive(Copy, Clone, Debug, PartialEq, Eq, Structural)]
pub struct ArpMessage {
    pub source_hardware_address: MacAddr,
    pub source_protocol_address: Ipv4Addr,
    pub target_hardware_address: MacAddr,
    pub target_protocol_address: Ipv4Addr,
    pub ethertype: EtherType,
    pub operation: Operation,
}

impl ArpMessage {
    /// Whether the frame type is the one that goes with the operation.
    pub open spec fn consistent(self) -> bool {
        self.ethertype == self.operation.family()
    }

    /// Where the frame goes: to every station while the target's link address
    /// is the zero placeholder, to the target otherwise.
    pub open spec fn destination(self) -> MacAddr {
        if self.target_hardware_address == MacAddr::spec_zero() {
            MacAddr::spec_broadcast()
        } else {
            self.target_hardware_address
        }
    }

    /// The 14 octets in front of the payload, for a frame that leaves `source`.
    pub open spec fn header(self, source: MacAddr) -> Seq<u8> {
        self.destination()@ + source@ + be16(self.ethertype.code())
    }

    /// The 28 octets of the message itself.
    pub open spec fn payload(self) -> Seq<u8> {
        be16(HARDWARE_TYPE_ETHERNET) + be16(PROTOCOL_TYPE_IPV4) + seq![
            HARDWARE_ADDRESS_LEN,
            PROTOCOL_ADDRESS_LEN,
        ] + be16(self.operation.code()) + self.source_hardware_address@
            + self.source_protocol_address@ + self.target_hardware_address@
            + self.target_protocol_address@
    }

    /// The frame that carries the message from the interface whose link
    /// address is `source`.
    pub open spec fn frame(self, source: MacAddr) -> Seq<u8> {
        self.header(source) + self.payload()
    }

    /// What a received frame says.
    ///
    /// A frame is a message when it holds at least header and payload, its
    /// type tag is ARP or RARP and its operation code is known; the addresses
    /// are then read from their places in the payload. The hardware and
    /// protocol descriptors of the payload are not looked at.
    pub open spec fn parse(frame: Seq<u8>) -> Result<ArpMessage, ArpError> {
        if frame.len() < FRAME_LEN {
            Err(ArpError::InvalidData)
        } else {
            match (
                EtherType::from_code(be16_value(frame[12], frame[13])),
                Operation::from_code(be16_value(frame[20], frame[21])),
            ) {
                (Some(ethertype), Some(operation)) => Ok(
                    ArpMessage {
                        source_hardware_address: MacAddr::from_seq(frame.subrange(22, 28)),
                        source_protocol_address: Ipv4Addr::from_seq(frame.subrange(28, 32)),
                        target_hardware_address: MacAddr::from_seq(frame.subrange(32, 38)),
                        target_protocol_address: Ipv4Addr::from_seq(frame.subrange(38, 42)),
                        ethertype,
                        operation,
                    },
                ),
                _ => Err(ArpError::InvalidData),
            }
        }
    }

    /// Writes the frame that carries the message from the interface whose
    /// link address is `source`: destination, `source`, type tag, then the
    /// payload, every number most significant octet first.
    pub fn encode(&self, source: MacAddr) -> (bytes: Vec<u8>)
        ensures
            bytes@ == self.frame(source),
            bytes@.len() == FRAME_LEN,
            Self::parse(bytes@) == Ok::<ArpMessage, ArpError>(*self),
    {
        let destination = if self.target_hardware_address.is_zero() {
            MacAddr::broadcast()
        } else {
            self.target_hardware_address
        };
        let mut bytes: Vec<u8> = Vec::with_capacity(FRAME_LEN);
        push_mac(&mut bytes, destination);
        push_mac(&mut bytes, source);
        push_be16(&mut bytes, self.ethertype.to_u16());
        push_be16(&mut bytes, HARDWARE_TYPE_ETHERNET);
        push_be16(&mut bytes, PROTOCOL_TYPE_IPV4);
        bytes.push(HARDWARE_ADDRESS_LEN);
        bytes.push(PROTOCOL_ADDRESS_LEN);
        push_be16(&mut bytes, self.operation.to_u16());
        push_mac(&mut bytes, self.source_hardware_address);
        push_ipv4(&mut bytes, self.source_protocol_address);
        push_mac(&mut bytes, self.target_hardware_address);
        push_ipv4(&mut bytes, self.target_protocol_address);
        proof {
            assert(bytes@ =~= self.frame(source));
            lemma_parse_frame(*self, source);
        }
        bytes
    }

    /// Reads a received frame.
    ///
    /// Fails with `InvalidData` when the frame is shorter than header and
    /// payload together, when its type tag is neither ARP nor RARP, and when
    /// its operation code is not one of 1 to 4.
    pub fn decode(frame: &[u8]) -> (decoded: Result<Self, ArpError>)
        ensures
            decoded == Self::parse(frame@),
            decoded matches Err(error) ==> error == ArpError::InvalidData,
            decoded is Ok <==> frame@.len() >= FRAME_LEN && (be16_value(frame@[12], frame@[13])
                == 0x0806 || be16_value(frame@[12], frame@[13]) == 0x8035) && 1 <= be16_value(
                frame@[20],
                frame@[21],
            ) <= 4,
    {
        if frame.len() < FRAME_LEN {
            return Err(ArpError::InvalidData);
        }
        let ethertype = match EtherType::from_u16(read_be16(frame, 12)) {
            Some(ethertype) => ethertype,
            None => {
                return Err(ArpError::InvalidData);
            },
        };
        let operation = match Operation::from_u16(read_be16(frame, 20)) {
            Some(operation) => operation,
            None => {
                return Err(ArpError::InvalidData);
            },
        };
        Ok(
            ArpMessage {
                source_hardware_address: read_mac(frame, 22),
                source_protocol_address: read_ipv4(frame, 28),
                target_hardware_address: read_mac(frame, 32),
                target_protocol_address: read_ipv4(frame, 38),
                ethertype,
                operation,
            },
        )
    }

    /// Constructs a message with arbitrary field contents.
    pub fn new(
        ethertype: EtherType,
        source_hardware_address: MacAddr,
        source_protocol_address: Ipv4Addr,
        target_hardware_address: MacAddr,
        target_protocol_address: Ipv4Addr,
        operation: Operation,
    ) -> (message: Self)
        ensures
            message == (ArpMessage {
                source_hardware_address,
                source_protocol_address,
                target_hardware_address,
                target_protocol_address,
                ethertype,
                operation,
            }),
    {
        ArpMessage {
            source_hardware_address,
            source_protocol_address,
            target_hardware_address,
            target_protocol_address,
            ethertype,
            operation,
        }
    }

    /// Constructs an ARP request. The target's link address is what is asked
    /// for, so the zero placeholder stands in its place.
    pub fn new_arp_request(
        source_hardware_address: MacAddr,
        source_protocol_address: Ipv4Addr,
        target_protocol_address: Ipv4Addr,
    ) -> (message: Self)
        ensures
            message == (ArpMessage {
                source_hardware_address,
                source_protocol_address,
                target_hardware_address: MacAddr::spec_zero(),
                target_protocol_address,
                ethertype: EtherType::Arp,
                operation: Operation::ArpRequest,
            }),
            message.consistent(),
    {
        Self::new(
            EtherType::Arp,
            source_hardware_address,
            source_protocol_address,
            MacAddr::zero(),
            target_protocol_address,
            Operation::ArpRequest,
        )
    }

    /// Constructs an ARP response.
    pub fn new_arp_response(
        source_hardware_address: MacAddr,
        source_protocol_address: Ipv4Addr,
        target_hardware_address: MacAddr,
        target_protocol_address: Ipv4Addr,
    ) -> (message: Self)
        ensures
            message == (ArpMessage {
                source_hardware_address,
                source_protocol_address,
                target_hardware_address,
                target_protocol_address,
                ethertype: EtherType::Arp,
                operation: Operation::ArpResponse,
            }),
            message.consistent(),
    {
        Self::new(
            EtherType::Arp,
            source_hardware_address,
            source_protocol_address,
            target_hardware_address,
            target_protocol_address,
            Operation::ArpResponse,
        )
    }

    /// Constructs a RARP request. A RARP request carries no network address
    /// that could be used, so both are `0.0.0.0`.
    pub fn new_rarp_request(
        source_hardware_address: MacAddr,
        target_hardware_address: MacAddr,
    ) -> (message: Self)
        ensures
            message == (ArpMessage {
                source_hardware_address,
                source_protocol_address: Ipv4Addr::spec_unspecified(),
                target_hardware_address,
                target_protocol_address: Ipv4Addr::spec_unspecified(),
                ethertype: EtherType::Rarp,
                operation: Operation::RarpRequest,
            }),
            message.consistent(),
    {
        Self::new(
            EtherType::Rarp,
            source_hardware_address,
            Ipv4Addr::unspecified(),
            target_hardware_address,
            Ipv4Addr::unspecified(),
            Operation::RarpRequest,
        )
    }

    /// Constructs a RARP response.
    pub fn new_rarp_response(
        source_hardware_address: MacAddr,
        source_protocol_address: Ipv4Addr,
        target_hardware_address: MacAddr,
        target_protocol_address: Ipv4Addr,
    ) -> (message: Self)
        ensures
            message == (ArpMessage {
                source_hardware_address,
                source_protocol_address,
                target_hardware_address,
                target_protocol_address,
                ethertype: EtherType::Rarp,
                operation: Operation::RarpResponse,
            }),
            message.consistent(),
    {
        Self::new(
            EtherType::Rarp,
            source_hardware_address,
            source_protocol_address,
            target_hardware_address,
            target_protocol_address,
            Operation::RarpResponse,
        )
    }
}

fn push_be16(bytes: &mut Vec<u8>, value: u16)
    ensures
        final(bytes)@ == old(bytes)@ + be16(value),
{
    bytes.push((value / 256) as u8);
    bytes.push((value % 256) as u8);
    assert(bytes@ =~= old(bytes)@ + be16(value));
}

fn push_mac(bytes: &mut Vec<u8>, mac: MacAddr)
    ensures
        final(bytes)@ == old(bytes)@ + mac@,
{
    bytes.push(mac.0);
    bytes.push(mac.1);
    bytes.push(mac.2);
    bytes.push(mac.3);
    bytes.push(mac.4);
    bytes.push(mac.5);
    assert(bytes@ =~= old(bytes)@ + mac@);
}

fn push_ipv4(bytes: &mut Vec<u8>, ip: Ipv4Addr)
    ensures
        final(bytes)@ == old(bytes)@ + ip@,
{
    bytes.push(ip.0);
    bytes.push(ip.1);
    bytes.push(ip.2);
    bytes.push(ip.3);
    assert(bytes@ =~= old(bytes)@ + ip@);
}

fn read_be16(bytes: &[u8], at: usize) -> (value: u16)
    requires
        at + 2 <= bytes@.len(),
    ensures
        value == be16_value(bytes@[at as int], bytes@[at + 1]),
{
    let high: u16 = bytes[at] as u16;
    let low: u16 = bytes[at + 1] as u16;
    high * 256 + low
}

fn read_mac(bytes: &[u8], at: usize) -> (mac: MacAddr)
    requires
        at + 6 <= bytes@.len(),
    ensures
        mac == MacAddr::from_seq(bytes@.subrange(at as int, at + 6)),
{
    MacAddr(
        bytes[at],
        bytes[at + 1],
        bytes[at + 2],
        bytes[at + 3],
        bytes[at + 4],
        bytes[at + 5],
    )
}

fn read_ipv4(bytes: &[u8], at: usize) -> (ip: Ipv4Addr)
    requires
        at + 4 <= bytes@.len(),
    ensures
        ip == Ipv4Addr::from_seq(bytes@.subrange(at as int, at + 4)),
{
    Ipv4Addr(bytes[at], bytes[at + 1], bytes[at + 2], bytes[at + 3])
}

/// Reading the two octets of a number gives the number back.
pub proof fn lemma_be16_round_trip(value: u16)
    ensures
        be16(value).len() == 2,
        be16_value(be16(value)[0], be16(value)[1]) == value,
{
}

/// A message is read back, field for field, from the frame that carries it,
/// whatever the link address of the interface it left.
pub proof fn lemma_parse_frame(message: ArpMessage, source: MacAddr)
    ensures
        message.frame(source).len() == FRAME_LEN,
        ArpMessage::parse(message.frame(source)) == Ok::<ArpMessage, ArpError>(message),
{
    let frame = message.frame(source);
    let written = message.destination()@ + source@ + be16(message.ethertype.code()) + be16(
        HARDWARE_TYPE_ETHERNET,
    ) + be16(PROTOCOL_TYPE_IPV4) + seq![HARDWARE_ADDRESS_LEN, PROTOCOL_ADDRESS_LEN] + be16(
        message.operation.code(),
    ) + message.source_hardware_address@ + message.source_protocol_address@
        + message.target_hardware_address@ + message.target_protocol_address@;
    assert(frame =~= written);
    lemma_be16_round_trip(message.ethertype.code());
    lemma_be16_round_trip(message.operation.code());
    assert(frame[12] == be16(message.ethertype.code())[0]);
    assert(frame[13] == be16(message.ethertype.code())[1]);
    assert(frame[20] == be16(message.operation.code())[0]);
    assert(frame[21] == be16(message.operation.code())[1]);
    assert(frame.subrange(22, 28) =~= message.source_hardware_address@);
    assert(frame.subrange(28, 32) =~= message.source_protocol_address@);
    assert(frame.subrange(32, 38) =~= message.target_hardware_address@);
    assert(frame.subrange(38, 42) =~= message.target_protocol_address@);
}

/// A frame that is cut short, even by one octet, is not read as a message.
pub proof fn lemma_parse_rejects_truncated(frame: Seq<u8>)
    requires
        frame.len() < FRAME_LEN,
    ensures
        ArpMessage::parse(frame) == Err::<ArpMessage, ArpError>(ArpError::InvalidData),
{
}

/// A frame whose operation code is 0, or 5 and above, is not read as a
/// message, whatever else it holds.
pub proof fn lemma_parse_rejects_unknown_operation(frame: Seq<u8>)
    requires
        frame.len() >= FRAME_LEN,
        be16_value(frame[20], frame[21]) == 0 || be16_value(frame[20], frame[21]) >= 5,
    ensures
        ArpMessage::parse(frame) == Err::<ArpMessage, ArpError>(ArpError::InvalidData),
{
}

/// Reading fails in one way only, and succeeds exactly on the frames that
/// are long enough, are tagged ARP or RARP, and carry a known operation code.
pub proof fn lemma_parse_outcomes(frame: Seq<u8>)
    ensures
        ArpMessage::parse(frame) is Ok || ArpMessage::parse(frame) == Err::<ArpMessage, ArpError>(
            ArpError::InvalidData,
        ),
        ArpMessage::parse(frame) is Ok <==> frame.len() >= FRAME_LEN && EtherType::from_code(
            be16_value(frame[12], frame[13]),
        ) is Some && 1 <= be16_value(frame[20], frame[21]) <= 4,
{
}

} // verus!
