//! IP assignment settings: a static address triple, or DHCP.

use vstd::prelude::*;

verus! {

/// A static IPv4 assignment: address, gateway and network mask, each as four
/// octets.
#[derive(Debug, Clone, Copy, PartialEq, Eq)]
pub struct EspIp {
    pub ip: [u8; 4],
    pub gw: [u8; 4],
    pub mask: [u8; 4],
}

/// How an interface obtains its address: assigned by the network, or fixed.
#[derive(Debug, Clone, Copy, PartialEq, Eq)]
pub enum EspIpConfig {
    Dhcp,
    Static { ip: EspIp },
}

impl EspIpConfig {
    pub open spec fn is_static(&self) -> bool {
        matches!(*self, EspIpConfig::Static { .. })
    }
}

} // verus!
