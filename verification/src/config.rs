//! What the bridge is configured with.

use crate::text::{decimal, decimal_string};
use vstd::prelude::*;

verus! {

/// The configuration of the bridge: the TCP ports on which it listens.
#[derive(Debug)]
pub struct Config {
    pub tcp_ports: Vec<u16>,
}

/// The address on which the listener of a port binds: every interface, and
/// the port in decimal.
pub open spec fn bind_address_text(port: u16) -> Seq<char> {
    "0.0.0.0:"@ + decimal(port as nat)
}

/// The address on which the listener of `port` binds.
pub fn bind_address(port: u16) -> (address: String)
    ensures
        address@ == bind_address_text(port),
{
    let mut address: String = String::from_str("0.0.0.0:");
    address.append(decimal_string(port as u64).as_str());
    address
}

impl Config {
    /// The addresses to bind, one for each configured port and in the order
    /// of the ports.
    pub fn bind_addresses(&self) -> (addresses: Vec<String>)
        ensures
            addresses.len() == self.tcp_ports.len(),
            forall|i: int|
                0 <= i < addresses.len() ==> (#[trigger] addresses[i])@ == bind_address_text(
                    self.tcp_ports[i],
                ),
    {
        let mut addresses: Vec<String> = Vec::new();
        let mut i: usize = 0;
        while i < self.tcp_ports.len()
            invariant
                i <= self.tcp_ports.len(),
                addresses.len() == i,
                forall|j: int|
                    0 <= j < i ==> (#[trigger] addresses[j])@ == bind_address_text(
                        self.tcp_ports[j],
                    ),
            decreases self.tcp_ports.len() - i,
        {
            addresses.push(bind_address(self.tcp_ports[i]));
            i = i + 1;
        }
        addresses
    }
}

} // verus!
