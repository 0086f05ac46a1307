use vstd::prelude::*;

verus! {

/// One capturable network interface, an immutable snapshot of what the
/// platform exposes at enumeration time.
#[derive(Clone, Debug)]
pub struct InterfaceInfo {
    /// System name of the interface; the key a capture is opened by.
    pub name: String,
    /// Interface index given by the platform.
    pub index: u32,
    /// Human-readable description; empty on platforms without one.
    pub description: String,
}

/// Lists the host's capturable network interfaces, in the platform's order.
/// Idempotent and side-effect free; safe to call repeatedly to refresh a
/// selection list. What comes back depends on the machine, so nothing is
/// stated of the contents; the call itself never fails — a host without
/// visible interfaces simply yields an empty list.
///
/// Relies on pnet::datalink::interfaces for the enumeration itself.
#[verifier::external_body]
pub fn list_interfaces() -> Vec<InterfaceInfo> {
    pnet::datalink::interfaces()
        .into_iter()
        .map(|i| InterfaceInfo { name: i.name, index: i.index, description: i.description })
        .collect()
}

} // verus!
