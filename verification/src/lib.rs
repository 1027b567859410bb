//! Address resolution on a local Ethernet segment: the ARP and RARP wire
//! format, the choice of a network interface, and the decisions of a
//! resolving client. Nothing here touches a socket or a clock; the caller
//! moves the bytes and measures the time.

pub mod error;
pub mod arp;
pub mod client;
pub mod interfaces;
