//! Link and network addresses, and the interface a client works on.

use crate::error::ArpError;
use vstd::prelude::*;
use vstd::string::StringExecFns;

verus! {

/// A 6-byte link (MAC) address.
#[derive(PartialEq, Eq, Clone, Copy, Debug, Hash, Structural)]
pub struct MacAddr(pub u8, pub u8, pub u8, pub u8, pub u8, pub u8);

impl View for MacAddr {
    type V = Seq<u8>;

    /// The six octets in transmission order.
    open spec fn view(&self) -> Seq<u8> {
        seq![self.0, self.1, self.2, self.3, self.4, self.5]
    }
}

impl MacAddr {
    pub fn new(a: u8, b: u8, c: u8, d: u8, e: u8, f: u8) -> (mac: Self)
        ensures
            mac == MacAddr(a, b, c, d, e, f),
    {
        MacAddr(a, b, c, d, e, f)
    }

    /// The address whose octets are the first six of `octets`.
    pub open spec fn from_seq(octets: Seq<u8>) -> MacAddr
        recommends
            octets.len() >= 6,
    {
        MacAddr(octets[0], octets[1], octets[2], octets[3], octets[4], octets[5])
    }

    /// The all-zero address, which stands for a target that is not yet known.
    pub open spec fn spec_zero() -> MacAddr {
        MacAddr(0, 0, 0, 0, 0, 0)
    }

    /// The address that every station on the segment listens to.
    pub open spec fn spec_broadcast() -> MacAddr {
        MacAddr(0xff, 0xff, 0xff, 0xff, 0xff, 0xff)
    }

    #[verifier::when_used_as_spec(spec_zero)]
    pub fn zero() -> (mac: Self)
        ensures
            mac == Self::spec_zero(),
    {
        MacAddr(0, 0, 0, 0, 0, 0)
    }

    #[verifier::when_used_as_spec(spec_broadcast)]
    pub fn broadcast() -> (mac: Self)
        ensures
            mac == Self::spec_broadcast(),
    {
        MacAddr(0xff, 0xff, 0xff, 0xff, 0xff, 0xff)
    }

    /// The six octets in transmission order.
    pub fn octets(&self) -> (octets: [u8; 6])
        ensures
            octets@ == self@,
    {
        let octets = [self.0, self.1, self.2, self.3, self.4, self.5];
        assert(octets@ =~= self@);
        octets
    }

    pub fn is_zero(&self) -> (zero: bool)
        ensures
            zero == (*self == Self::spec_zero()),
    {
        self.0 == 0 && self.1 == 0 && self.2 == 0 && self.3 == 0 && self.4 == 0 && self.5 == 0
    }

    /// The canonical text of the address: six octets in lowercase
    /// hexadecimal, two digits each, with colons between them.
    pub open spec fn text(self) -> Seq<char> {
        hex_octet(self.0) + seq![':'] + hex_octet(self.1) + seq![':'] + hex_octet(self.2) + seq![
            ':',
        ] + hex_octet(self.3) + seq![':'] + hex_octet(self.4) + seq![':'] + hex_octet(self.5)
    }

    /// Writes the address in its canonical text form.
    pub fn to_string(&self) -> (text: String)
        ensures
            text@ == self.text(),
            text@.len() == 17,
    {
        let mut text = String::new();
        append_octet(&mut text, self.0);
        text.append(":");
        append_octet(&mut text, self.1);
        text.append(":");
        append_octet(&mut text, self.2);
        text.append(":");
        append_octet(&mut text, self.3);
        text.append(":");
        append_octet(&mut text, self.4);
        text.append(":");
        append_octet(&mut text, self.5);
        proof {
            reveal_strlit(":");
            assert(":"@ =~= seq![':']);
            assert(text@ =~= self.text());
        }
        text
    }
}

/// The lowercase hexadecimal digit for a number below 16.
pub open spec fn hex_digit(nibble: u8) -> char
    recommends
        nibble < 16,
{
    seq!['0', '1', '2', '3', '4', '5', '6', '7', '8', '9', 'a', 'b', 'c', 'd', 'e', 'f'][nibble as int]
}

/// The two lowercase hexadecimal digits of an octet, high digit first.
pub open spec fn hex_octet(octet: u8) -> Seq<char> {
    seq![hex_digit(octet / 16), hex_digit(octet % 16)]
}

fn hex_digit_text(nibble: u8) -> (digit: &'static str)
    requires
        nibble < 16,
    ensures
        digit@ == seq![hex_digit(nibble)],
{
    proof {
        reveal_strlit("0");
        reveal_strlit("1");
        reveal_strlit("2");
        reveal_strlit("3");
        reveal_strlit("4");
        reveal_strlit("5");
        reveal_strlit("6");
        reveal_strlit("7");
        reveal_strlit("8");
        reveal_strlit("9");
        reveal_strlit("a");
        reveal_strlit("b");
        reveal_strlit("c");
        reveal_strlit("d");
        reveal_strlit("e");
        reveal_strlit("f");
    }
    let digit = if nibble == 0 {
        "0"
    } else if nibble == 1 {
        "1"
    } else if nibble == 2 {
        "2"
    } else if nibble == 3 {
        "3"
    } else if nibble == 4 {
        "4"
    } else if nibble == 5 {
        "5"
    } else if nibble == 6 {
        "6"
    } else if nibble == 7 {
        "7"
    } else if nibble == 8 {
        "8"
    } else if nibble == 9 {
        "9"
    } else if nibble == 10 {
        "a"
    } else if nibble == 11 {
        "b"
    } else if nibble == 12 {
        "c"
    } else if nibble == 13 {
        "d"
    } else if nibble == 14 {
        "e"
    } else {
        "f"
    };
    assert(digit@ =~= seq![hex_digit(nibble)]);
    digit
}

fn append_octet(text: &mut String, octet: u8)
    ensures
        final(text)@ == old(text)@ + hex_octet(octet),
{
    text.append(hex_digit_text(octet / 16));
    text.append(hex_digit_text(octet % 16));
    assert(text@ =~= old(text)@ + hex_octet(octet));
}

/// A 4-byte network (IPv4) address.
#[derive(PartialEq, Eq, Clone, Copy, Debug, Hash, Structural)]
pub struct Ipv4Addr(pub u8, pub u8, pub u8, pub u8);

impl View for Ipv4Addr {
    type V = Seq<u8>;

    /// The four octets in transmission order.
    open spec fn view(&self) -> Seq<u8> {
        seq![self.0, self.1, self.2, self.3]
    }
}

impl Ipv4Addr {
    pub fn new(a: u8, b: u8, c: u8, d: u8) -> (ip: Self)
        ensures
            ip == Ipv4Addr(a, b, c, d),
    {
        Ipv4Addr(a, b, c, d)
    }

    /// The address whose octets are the first four of `octets`.
    pub open spec fn from_seq(octets: Seq<u8>) -> Ipv4Addr
        recommends
            octets.len() >= 4,
    {
        Ipv4Addr(octets[0], octets[1], octets[2], octets[3])
    }

    /// The four octets in transmission order.
    pub fn octets(&self) -> (octets: [u8; 4])
        ensures
            octets@ == self@,
    {
        let octets = [self.0, self.1, self.2, self.3];
        assert(octets@ =~= self@);
        octets
    }

    /// `0.0.0.0`, the address that says nothing.
    pub open spec fn spec_unspecified() -> Ipv4Addr {
        Ipv4Addr(0, 0, 0, 0)
    }

    #[verifier::when_used_as_spec(spec_unspecified)]
    pub fn unspecified() -> (ip: Self)
        ensures
            ip == Self::spec_unspecified(),
    {
        Ipv4Addr(0, 0, 0, 0)
    }
}

/// A network interface as the system reports it: its name, the addresses
/// assigned to it, and the two flags that selection looks at.
#[derive(Debug, PartialEq, Eq)]
pub struct Interface {
    pub name: String,
    pub mac: Option<MacAddr>,
    pub ipv4_addresses: Vec<Ipv4Addr>,
    pub is_up: bool,
    pub is_loopback: bool,
}

/// What an [`Interface`] says, as plain mathematics.
pub struct InterfaceView {
    pub name: Seq<char>,
    pub mac: Option<MacAddr>,
    pub ipv4_addresses: Seq<Ipv4Addr>,
    pub is_up: bool,
    pub is_loopback: bool,
}

impl InterfaceView {
    /// An interface is usable when it is up, is not a loopback, and has at
    /// least one address.
    pub open spec fn is_usable(self) -> bool {
        !self.is_loopback && self.is_up && self.ipv4_addresses.len() > 0
    }
}

impl View for Interface {
    type V = InterfaceView;

    open spec fn view(&self) -> InterfaceView {
        InterfaceView {
            name: self.name@,
            mac: self.mac,
            ipv4_addresses: self.ipv4_addresses@,
            is_up: self.is_up,
            is_loopback: self.is_loopback,
        }
    }
}

impl Clone for Interface {
    fn clone(&self) -> (copy: Self)
        ensures
            copy@ == self@,
    {
        let ipv4_addresses = self.ipv4_addresses.clone();
        assert(ipv4_addresses@ =~= self.ipv4_addresses@);
        Interface {
            name: self.name.clone(),
            mac: self.mac,
            ipv4_addresses,
            is_up: self.is_up,
            is_loopback: self.is_loopback,
        }
    }
}

/// `at` is the place of the first usable interface in `interfaces`.
pub open spec fn first_usable(interfaces: Seq<Interface>, at: int) -> bool {
    &&& 0 <= at < interfaces.len()
    &&& interfaces[at]@.is_usable()
    &&& forall|before: int| 0 <= before < at ==> !(#[trigger] interfaces[before])@.is_usable()
}

/// No interface in `interfaces` is usable.
pub open spec fn none_usable(interfaces: Seq<Interface>) -> bool {
    forall|at: int| 0 <= at < interfaces.len() ==> !(#[trigger] interfaces[at])@.is_usable()
}

/// `at` is the place of the first interface in `interfaces` called `name`.
pub open spec fn first_named(interfaces: Seq<Interface>, name: Seq<char>, at: int) -> bool {
    &&& 0 <= at < interfaces.len()
    &&& interfaces[at].name@ == name
    &&& forall|before: int| 0 <= before < at ==> (#[trigger] interfaces[before]).name@ != name
}

/// No interface in `interfaces` is called `name`.
pub open spec fn none_named(interfaces: Seq<Interface>, name: Seq<char>) -> bool {
    forall|at: int| 0 <= at < interfaces.len() ==> (#[trigger] interfaces[at]).name@ != name
}

impl Interface {
    /// Selects the first usable interface of `interfaces`, in the order given.
    pub fn new(interfaces: Vec<Interface>) -> (selected: Result<Self, ArpError>)
        ensures
            match selected {
                Ok(interface) => exists|at: int|
                    first_usable(interfaces@, at) && interface == interfaces@[at],
                Err(error) => error == ArpError::NotConnected && none_usable(interfaces@),
            },
    {
        let mut interfaces = interfaces;
        match Self::get_interface_by_guess(&interfaces) {
            Some(at) => Ok(interfaces.remove(at)),
            None => Err(ArpError::NotConnected),
        }
    }

    /// Selects the first interface of `interfaces` whose name is
    /// `interface_name`, in the order given.
    pub fn new_by_name(interfaces: Vec<Interface>, interface_name: &str) -> (selected: Option<Self>)
        ensures
            match selected {
                Some(interface) => exists|at: int|
                    first_named(interfaces@, interface_name@, at) && interface == interfaces@[at],
                None => none_named(interfaces@, interface_name@),
            },
    {
        let mut interfaces = interfaces;
        match Self::get_interface_by_name(&interfaces, interface_name) {
            Some(at) => Some(interfaces.remove(at)),
            None => None,
        }
    }

    /// Returns the first IPv4 address of the interface.
    pub fn get_ip(&self) -> (ip: Result<Ipv4Addr, ArpError>)
        ensures
            match ip {
                Ok(address) => self.ipv4_addresses@.len() > 0 && address == self.ipv4_addresses@[0],
                Err(error) => error == ArpError::AddrNotAvailable && self.ipv4_addresses@.len()
                    == 0,
            },
    {
        if self.ipv4_addresses.len() > 0 {
            Ok(self.ipv4_addresses[0])
        } else {
            Err(ArpError::AddrNotAvailable)
        }
    }

    /// Returns the link address assigned to the interface.
    pub fn get_mac(&self) -> (mac: Result<MacAddr, ArpError>)
        ensures
            match mac {
                Ok(address) => self.mac == Some(address),
                Err(error) => error == ArpError::AddrNotAvailable && self.mac is None,
            },
    {
        match self.mac {
            Some(address) => Ok(address),
            None => Err(ArpError::AddrNotAvailable),
        }
    }

    /// The place of the first usable interface in `interfaces`.
    pub fn get_interface_by_guess(interfaces: &Vec<Interface>) -> (found: Option<usize>)
        ensures
            match found {
                Some(at) => first_usable(interfaces@, at as int),
                None => none_usable(interfaces@),
            },
    {
        let mut at: usize = 0;
        while at < interfaces.len()
            invariant
                at <= interfaces@.len(),
                forall|before: int|
                    0 <= before < at ==> !(#[trigger] interfaces@[before])@.is_usable(),
            decreases interfaces@.len() - at,
        {
            let candidate = &interfaces[at];
            if !candidate.is_loopback && candidate.is_up && candidate.ipv4_addresses.len() > 0 {
                return Some(at);
            }
            at += 1;
        }
        None
    }

    /// The place of the first interface in `interfaces` called `name`.
    pub fn get_interface_by_name(interfaces: &Vec<Interface>, name: &str) -> (found: Option<usize>)
        ensures
            match found {
                Some(at) => first_named(interfaces@, name@, at as int),
                None => none_named(interfaces@, name@),
            },
    {
        let wanted: String = name.to_owned();
        let mut at: usize = 0;
        while at < interfaces.len()
            invariant
                at <= interfaces@.len(),
                wanted@ == name@,
                forall|before: int|
                    0 <= before < at ==> (#[trigger] interfaces@[before]).name@ != name@,
            decreases interfaces@.len() - at,
        {
            if interfaces[at].name == wanted {
                return Some(at);
            }
            at += 1;
        }
        None
    }
}

/// Selection by guess has one answer: a list has at most one first usable
/// interface, and it has one unless none is usable.
pub proof fn lemma_first_usable_is_unique(interfaces: Seq<Interface>, one: int, other: int)
    ensures
        first_usable(interfaces, one) && first_usable(interfaces, other) ==> one == other,
        first_usable(interfaces, one) ==> !none_usable(interfaces),
        none_usable(interfaces) || exists|at: int| first_usable(interfaces, at),
{
    if first_usable(interfaces, one) && first_usable(interfaces, other) {
        if one < other {
            assert(!interfaces[one]@.is_usable());
        } else if other < one {
            assert(!interfaces[other]@.is_usable());
        }
    }
    if first_usable(interfaces, one) {
        assert(interfaces[one]@.is_usable());
    }
    if !none_usable(interfaces) {
        lemma_some_usable_has_first(interfaces, interfaces.len() as int);
    }
}

/// Among the first `upto` interfaces, either none is usable or one is the
/// first that is.
proof fn lemma_some_usable_has_first(interfaces: Seq<Interface>, upto: int)
    requires
        0 <= upto <= interfaces.len(),
    ensures
        (forall|at: int| 0 <= at < upto ==> !(#[trigger] interfaces[at])@.is_usable()) || exists|
            at: int,
        |
            first_usable(interfaces, at),
    decreases upto,
{
    if upto > 0 {
        lemma_some_usable_has_first(interfaces, upto - 1);
        if forall|at: int| 0 <= at < upto - 1 ==> !(#[trigger] interfaces[at])@.is_usable() {
            if interfaces[upto - 1]@.is_usable() {
                assert(first_usable(interfaces, upto - 1));
            }
        }
    }
}

/// Selection by name has one answer: a list has at most one first interface
/// of a given name.
pub proof fn lemma_first_named_is_unique(
    interfaces: Seq<Interface>,
    name: Seq<char>,
    one: int,
    other: int,
)
    ensures
        first_named(interfaces, name, one) && first_named(interfaces, name, other) ==> one
            == other,
        first_named(interfaces, name, one) ==> !none_named(interfaces, name),
{
    if first_named(interfaces, name, one) && first_named(interfaces, name, other) {
        if one < other {
            assert(interfaces[one].name@ != name);
        } else if other < one {
            assert(interfaces[other].name@ != name);
        }
    }
    if first_named(interfaces, name, one) {
        assert(interfaces[one].name@ == name);
    }
}

} // verus!
