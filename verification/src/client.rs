//! The decisions of a resolving client.
//!
//! A client sends one request and then looks at every frame that the segment
//! delivers until one of them is the reply, or until the time is up. The
//! caller owns the channel and the clock: it tells the client what happened
//! (an [`Event`]) and does what the client answers (an [`Action`]).

use crate::arp::{ArpMessage, EtherType, Operation};
use crate::error::ArpError;
use crate::interfaces::{
    first_named, first_usable, none_named, none_usable, Interface, InterfaceView, Ipv4Addr,
    MacAddr,
};
use vstd::prelude::*;

verus! {

/// The wait that stands for "no timeout": `u64::MAX` seconds, in nanoseconds.
pub const UNBOUNDED_WAIT_NANOS: u128 = 18_446_744_073_709_551_615_000_000_000;

/// What the caller reports to the client.
pub enum Event {
    /// The exchange begins; nothing has been sent yet.
    Start,
    /// The channel was polled once after the request went out.
    Polled {
        /// Nanoseconds since the request was sent.
        elapsed_nanos: u128,
        /// The frame that the poll delivered, if it delivered one.
        frame: Option<Vec<u8>>,
    },
}

/// What the client asks the caller to do next.
pub enum Action<T> {
    /// Put these bytes on the wire, note the time, then poll.
    Transmit(Vec<u8>),
    /// Poll the channel again.
    Poll,
    /// The exchange is over, with this result.
    Finish(Result<T, ArpError>),
}

impl Event {
    /// The message that the event delivers: the reading of the polled frame,
    /// where there is a frame and it reads as a message.
    pub open spec fn message(self) -> Option<ArpMessage> {
        match self {
            Event::Polled { frame: Some(bytes), .. } => match ArpMessage::parse(bytes@) {
                Ok(message) => Some(message),
                Err(_) => None,
            },
            _ => None,
        }
    }
}

/// How long an exchange waits, in nanoseconds.
pub open spec fn wait_limit(timeout_nanos: Option<u128>) -> u128 {
    match timeout_nanos {
        Some(limit) => limit,
        None => UNBOUNDED_WAIT_NANOS,
    }
}

/// The decision after one poll: an answer ends the exchange at once; without
/// one the exchange goes on until the time since the request exceeds the
/// limit.
pub open spec fn after_poll<T>(
    answer: Option<T>,
    elapsed_nanos: u128,
    timeout_nanos: Option<u128>,
) -> Action<T> {
    match answer {
        Some(value) => Action::Finish(Ok(value)),
        None => if elapsed_nanos > wait_limit(timeout_nanos) {
            Action::Finish(Err(ArpError::TimedOut))
        } else {
            Action::Poll
        },
    }
}

/// What `message` tells someone who asked for the link address of `ip_addr`:
/// the sender's link address, if the message is an ARP response from that
/// very network address.
pub open spec fn link_address_in(message: ArpMessage, ip_addr: Ipv4Addr) -> Option<MacAddr> {
    if message.operation == Operation::ArpResponse && message.source_protocol_address == ip_addr {
        Some(message.source_hardware_address)
    } else {
        None
    }
}

/// What `message` tells someone who asked for the network address of
/// `mac_addr`: the target's network address, if the message is a RARP
/// response from that very link address.
pub open spec fn network_address_in(message: ArpMessage, mac_addr: MacAddr) -> Option<Ipv4Addr> {
    if message.operation == Operation::RarpResponse && message.source_hardware_address
        == mac_addr {
        Some(message.target_protocol_address)
    } else {
        None
    }
}

/// The ARP request by which `interface` asks for the link address of
/// `ip_addr`. It names the interface's own link and network address as its
/// source, so the interface must have both.
pub open spec fn link_address_request(interface: InterfaceView, ip_addr: Ipv4Addr) -> Result<
    ArpMessage,
    ArpError,
> {
    if interface.mac is Some && interface.ipv4_addresses.len() > 0 {
        Ok(
            ArpMessage {
                source_hardware_address: interface.mac->0,
                source_protocol_address: interface.ipv4_addresses[0],
                target_hardware_address: MacAddr::spec_zero(),
                target_protocol_address: ip_addr,
                ethertype: EtherType::Arp,
                operation: Operation::ArpRequest,
            },
        )
    } else {
        Err(ArpError::AddrNotAvailable)
    }
}

/// The RARP request by which `interface` asks for the network address of
/// `mac_addr`. It names the interface's own link address as its source, so
/// the interface must have one.
pub open spec fn network_address_request(interface: InterfaceView, mac_addr: MacAddr) -> Result<
    ArpMessage,
    ArpError,
> {
    if interface.mac is Some {
        Ok(
            ArpMessage {
                source_hardware_address: interface.mac->0,
                source_protocol_address: Ipv4Addr::spec_unspecified(),
                target_hardware_address: mac_addr,
                target_protocol_address: Ipv4Addr::spec_unspecified(),
                ethertype: EtherType::Rarp,
                operation: Operation::RarpRequest,
            },
        )
    } else {
        Err(ArpError::AddrNotAvailable)
    }
}

/// Looks in `message` for the link address of `ip_addr`.
pub fn check_link_address(message: ArpMessage, ip_addr: Ipv4Addr) -> (answer: Option<MacAddr>)
    ensures
        answer == link_address_in(message, ip_addr),
{
    if message.source_protocol_address == ip_addr && message.operation == Operation::ArpResponse {
        Some(message.source_hardware_address)
    } else {
        None
    }
}

/// Looks in `message` for the network address of `mac_addr`.
pub fn check_network_address(message: ArpMessage, mac_addr: MacAddr) -> (answer: Option<Ipv4Addr>)
    ensures
        answer == network_address_in(message, mac_addr),
{
    if message.source_hardware_address == mac_addr && message.operation
        == Operation::RarpResponse {
        Some(message.target_protocol_address)
    } else {
        None
    }
}

/// The protocol side of a client bound to one interface.
pub struct ArpClient {
    interface: Interface,
}

impl View for ArpClient {
    type V = InterfaceView;

    /// The interface that the client works on.
    closed spec fn view(&self) -> InterfaceView {
        self.interface@
    }
}

impl ArpClient {
    /// Create a client on the first usable interface of `interfaces`.
    pub fn new(interfaces: Vec<Interface>) -> (created: Result<Self, ArpError>)
        ensures
            match created {
                Ok(client) => exists|at: int|
                    first_usable(interfaces@, at) && client@ == interfaces@[at]@,
                Err(error) => error == ArpError::NotConnected && none_usable(interfaces@),
            },
    {
        match Interface::new(interfaces) {
            Ok(interface) => Ok(Self::new_with_iface(&interface)),
            Err(error) => Err(error),
        }
    }

    /// Create a client on the first interface of `interfaces` with the name
    /// `iface_name`.
    pub fn new_with_iface_name(interfaces: Vec<Interface>, iface_name: &str) -> (created: Result<
        Self,
        ArpError,
    >)
        ensures
            match created {
                Ok(client) => exists|at: int|
                    first_named(interfaces@, iface_name@, at) && client@ == interfaces@[at]@,
                Err(error) => error == ArpError::NotFound && none_named(interfaces@, iface_name@),
            },
    {
        match Interface::new_by_name(interfaces, iface_name) {
            Some(interface) => Ok(Self::new_with_iface(&interface)),
            None => Err(ArpError::NotFound),
        }
    }

    /// Create a client on the given `interface`.
    pub fn new_with_iface(interface: &Interface) -> (client: Self)
        ensures
            client@ == interface@,
    {
        ArpClient { interface: interface.clone() }
    }

    /// The interface that the client works on.
    pub fn interface(&self) -> (interface: &Interface)
        ensures
            interface@ == self@,
    {
        &self.interface
    }

    /// The frame that carries `arp_message` from this client's interface.
    /// There is none while the interface has no link address.
    pub fn send(&self, arp_message: &ArpMessage) -> (frame: Result<Vec<u8>, ArpError>)
        ensures
            match frame {
                Ok(bytes) => self@.mac matches Some(source) && bytes@ == arp_message.frame(source),
                Err(error) => error == ArpError::AddrNotAvailable && self@.mac is None,
            },
    {
        match self.interface.get_mac() {
            Ok(source) => Ok(arp_message.encode(source)),
            Err(error) => Err(error),
        }
    }

    /// Reads a frame that the channel delivered. A frame that is not a
    /// well-formed ARP or RARP frame is nothing.
    pub fn receive_next(&self, frame: &[u8]) -> (received: Option<ArpMessage>)
        ensures
            received == match ArpMessage::parse(frame@) {
                Ok(message) => Some(message),
                Err(_) => None,
            },
    {
        match ArpMessage::decode(frame) {
            Ok(message) => Some(message),
            Err(_) => None,
        }
    }

    /// Sends `message` and waits for the first received message for which
    /// `check_answer` yields a value.
    pub fn send_message_with_check<T, F: Fn(ArpMessage) -> Option<T>>(
        &self,
        timeout_nanos: Option<u128>,
        message: &ArpMessage,
        check_answer: F,
        event: Event,
    ) -> (action: Action<T>)
        requires
            event.message() matches Some(received) ==> call_requires(check_answer, (received,)),
        ensures
            match event {
                Event::Start => match self@.mac {
                    Some(source) => action matches Action::Transmit(bytes) && bytes@
                        == message.frame(source),
                    None => action == Action::<T>::Finish(Err(ArpError::AddrNotAvailable)),
                },
                Event::Polled { elapsed_nanos, .. } => match event.message() {
                    Some(received) => exists|answer: Option<T>|
                        call_ensures(check_answer, (received,), answer) && action == after_poll(
                            answer,
                            elapsed_nanos,
                            timeout_nanos,
                        ),
                    None => action == after_poll(None::<T>, elapsed_nanos, timeout_nanos),
                },
            },
    {
        match event {
            Event::Start => match self.send(message) {
                Ok(bytes) => Action::Transmit(bytes),
                Err(error) => Action::Finish(Err(error)),
            },
            Event::Polled { elapsed_nanos, frame } => {
                let received = match frame {
                    Some(bytes) => self.receive_next(bytes.as_slice()),
                    None => None,
                };
                let answer = match received {
                    Some(message) => check_answer(message),
                    None => None,
                };
                let ghost answered = answer;
                let action = match answer {
                    Some(value) => Action::Finish(Ok(value)),
                    None => {
                        let limit = match timeout_nanos {
                            Some(limit) => limit,
                            None => UNBOUNDED_WAIT_NANOS,
                        };
                        if elapsed_nanos > limit {
                            Action::Finish(Err(ArpError::TimedOut))
                        } else {
                            Action::Poll
                        }
                    },
                };
                assert(action == after_poll(answered, elapsed_nanos, timeout_nanos));
                action
            },
        }
    }

    /// Sends `message` and waits for the next message received, whatever it
    /// says.
    pub fn send_message(
        &self,
        timeout_nanos: Option<u128>,
        message: &ArpMessage,
        event: Event,
    ) -> (action: Action<ArpMessage>)
        ensures
            match event {
                Event::Start => match self@.mac {
                    Some(source) => action matches Action::Transmit(bytes) && bytes@
                        == message.frame(source),
                    None => action == Action::<ArpMessage>::Finish(
                        Err(ArpError::AddrNotAvailable),
                    ),
                },
                Event::Polled { elapsed_nanos, .. } => action == after_poll(
                    event.message(),
                    elapsed_nanos,
                    timeout_nanos,
                ),
            },
    {
        let check_answer = |received: ArpMessage| -> (answer: Option<ArpMessage>)
            ensures
                answer == Some(received),
            { Some(received) };
        self.send_message_with_check(timeout_nanos, message, check_answer, event)
    }

    /// Resolves `ip_addr` to a link address: sends an ARP request and waits
    /// for an ARP response that comes from `ip_addr`.
    pub fn ip_to_mac(&self, ip_addr: Ipv4Addr, timeout_nanos: Option<u128>, event: Event) -> (action:
        Action<MacAddr>)
        ensures
            match link_address_request(self@, ip_addr) {
                Ok(request) => match event {
                    Event::Start => action matches Action::Transmit(bytes) && bytes@
                        == request.frame(self@.mac->0),
                    Event::Polled { elapsed_nanos, .. } => action == after_poll(
                        match event.message() {
                            Some(received) => link_address_in(received, ip_addr),
                            None => None,
                        },
                        elapsed_nanos,
                        timeout_nanos,
                    ),
                },
                Err(error) => action == Action::<MacAddr>::Finish(Err(error)),
            },
    {
        let source_hardware_address = match self.interface.get_mac() {
            Ok(address) => address,
            Err(error) => {
                return Action::Finish(Err(error));
            },
        };
        let source_protocol_address = match self.interface.get_ip() {
            Ok(address) => address,
            Err(error) => {
                return Action::Finish(Err(error));
            },
        };
        let message = ArpMessage::new_arp_request(
            source_hardware_address,
            source_protocol_address,
            ip_addr,
        );
        let check_answer = |received: ArpMessage| -> (answer: Option<MacAddr>)
            ensures
                answer == link_address_in(received, ip_addr),
            { check_link_address(received, ip_addr) };
        self.send_message_with_check(timeout_nanos, &message, check_answer, event)
    }

    /// Resolves `mac_addr` to a network address: sends a RARP request and
    /// waits for a RARP response that comes from `mac_addr`.
    pub fn mac_to_ip(&self, mac_addr: MacAddr, timeout_nanos: Option<u128>, event: Event) -> (action:
        Action<Ipv4Addr>)
        ensures
            match network_address_request(self@, mac_addr) {
                Ok(request) => match event {
                    Event::Start => action matches Action::Transmit(bytes) && bytes@
                        == request.frame(self@.mac->0),
                    Event::Polled { elapsed_nanos, .. } => action == after_poll(
                        match event.message() {
                            Some(received) => network_address_in(received, mac_addr),
                            None => None,
                        },
                        elapsed_nanos,
                        timeout_nanos,
                    ),
                },
                Err(error) => action == Action::<Ipv4Addr>::Finish(Err(error)),
            },
    {
        let source_hardware_address = match self.interface.get_mac() {
            Ok(address) => address,
            Err(error) => {
                return Action::Finish(Err(error));
            },
        };
        let message = ArpMessage::new_rarp_request(source_hardware_address, mac_addr);
        let check_answer = |received: ArpMessage| -> (answer: Option<Ipv4Addr>)
            ensures
                answer == network_address_in(received, mac_addr),
            { check_network_address(received, mac_addr) };
        self.send_message_with_check(timeout_nanos, &message, check_answer, event)
    }
}

/// Only an ARP response from the address asked about answers a request for
/// a link address: a response from another address does not, and neither
/// does any other operation, a RARP response from the right address
/// included.
pub proof fn lemma_link_address_needs_operation_and_source(message: ArpMessage, ip_addr: Ipv4Addr)
    ensures
        link_address_in(message, ip_addr) is Some <==> message.operation == Operation::ArpResponse
            && message.source_protocol_address == ip_addr,
        link_address_in(message, ip_addr) matches Some(found) ==> found
            == message.source_hardware_address,
        message.source_protocol_address != ip_addr ==> link_address_in(message, ip_addr) is None,
        message.operation == Operation::RarpResponse ==> link_address_in(message, ip_addr) is None,
{
}

/// Only a RARP response from the link address asked about answers a request
/// for a network address: the right operation from another source does not,
/// and neither does the right source with another operation.
pub proof fn lemma_network_address_needs_operation_and_source(
    message: ArpMessage,
    mac_addr: MacAddr,
)
    ensures
        network_address_in(message, mac_addr) is Some <==> message.operation
            == Operation::RarpResponse && message.source_hardware_address == mac_addr,
        network_address_in(message, mac_addr) matches Some(found) ==> found
            == message.target_protocol_address,
        message.source_hardware_address != mac_addr ==> network_address_in(message, mac_addr)
            is None,
        message.operation != Operation::RarpResponse ==> network_address_in(message, mac_addr)
            is None,
{
}

/// A poll that brings no answer never ends an exchange with success. It
/// ends it with `TimedOut` exactly when the time since the request exceeds
/// the limit; up to the limit the exchange goes on.
pub proof fn lemma_wait_ends_with_the_limit<T>(elapsed_nanos: u128, timeout_nanos: Option<u128>)
    ensures
        elapsed_nanos <= wait_limit(timeout_nanos) ==> after_poll::<T>(
            None,
            elapsed_nanos,
            timeout_nanos,
        ) == Action::<T>::Poll,
        elapsed_nanos > wait_limit(timeout_nanos) ==> after_poll::<T>(
            None,
            elapsed_nanos,
            timeout_nanos,
        ) == Action::<T>::Finish(Err(ArpError::TimedOut)),
        timeout_nanos matches Some(limit) ==> wait_limit(timeout_nanos) == limit,
        timeout_nanos is None ==> wait_limit(timeout_nanos) == u64::MAX * 1_000_000_000,
{
}

/// An answer ends an exchange at once, however much time has passed.
pub proof fn lemma_answer_ends_the_wait<T>(
    value: T,
    elapsed_nanos: u128,
    timeout_nanos: Option<u128>,
)
    ensures
        after_poll(Some(value), elapsed_nanos, timeout_nanos) == Action::Finish(
            Ok::<T, ArpError>(value),
        ),
{
}

} // verus!
