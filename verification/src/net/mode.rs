//! IP modes for resolving names and for establishing connections.

use vstd::prelude::*;

verus! {

/// The IP families a DNS resolver may ask for.
#[derive(Debug, Clone, Copy, PartialEq, Eq, Structural)]
pub enum DnsResolveIpMode {
    /// Both families, without preference.
    Dual,
    /// IPv4 only.
    SingleIpV4,
    /// IPv6 only.
    SingleIpV6,
    /// IPv4 only, although the resolver could reach both.
    DualPreferIpV4,
}

impl DnsResolveIpMode {
    /// Whether the mode lets the resolver ask for IPv4 addresses.
    pub open spec fn allows_ipv4(self) -> bool {
        self != DnsResolveIpMode::SingleIpV6
    }

    /// Whether the mode lets the resolver ask for IPv6 addresses.
    pub open spec fn allows_ipv6(self) -> bool {
        self == DnsResolveIpMode::Dual || self == DnsResolveIpMode::SingleIpV6
    }

    /// Checks if IPv4 is supported in the current mode.
    pub fn ipv4_supported(&self) -> (supported: bool)
        ensures
            supported == self.allows_ipv4(),
    {
        match self {
            DnsResolveIpMode::Dual => true,
            DnsResolveIpMode::SingleIpV4 => true,
            DnsResolveIpMode::DualPreferIpV4 => true,
            DnsResolveIpMode::SingleIpV6 => false,
        }
    }

    /// Checks if IPv6 is supported in the current mode.
    pub fn ipv6_supported(&self) -> (supported: bool)
        ensures
            supported == self.allows_ipv6(),
    {
        match self {
            DnsResolveIpMode::Dual => true,
            DnsResolveIpMode::SingleIpV6 => true,
            DnsResolveIpMode::SingleIpV4 => false,
            DnsResolveIpMode::DualPreferIpV4 => false,
        }
    }
}

impl Default for DnsResolveIpMode {
    fn default() -> (mode: Self)
        ensures
            mode == DnsResolveIpMode::Dual,
    {
        DnsResolveIpMode::Dual
    }
}

/// The IP families a connector may use to establish a connection.
#[derive(Debug, Clone, Copy, PartialEq, Eq, Structural)]
pub enum ConnectIpMode {
    /// Both families.
    Dual,
    /// IPv4 only.
    Ipv4,
    /// IPv6 only.
    Ipv6,
}

impl Default for ConnectIpMode {
    fn default() -> (mode: Self)
        ensures
            mode == ConnectIpMode::Dual,
    {
        ConnectIpMode::Dual
    }
}

} // verus!
