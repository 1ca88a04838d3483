//! The value records delivered to the caller.

use vstd::prelude::*;

verus! {

/// A fully resolved service, produced only at the end of a successful
/// three-stage discovery chain.
#[derive(Clone, Debug)]
pub struct ServiceDiscovery {
    /// The instance name reported by the browse stage.
    pub name: String,
    /// The service type reported by the browse stage.
    pub kind: String,
    /// The normalized domain reported by the browse stage.
    pub domain: String,
    /// The host target reported by the resolve stage.
    pub host_name: String,
    /// The dotted-decimal IPv4 address from the address stage.
    pub address: String,
    /// The port reported by the resolve stage.
    pub port: u16,
}

/// The mathematical value of a [`ServiceDiscovery`].
#[verifier::ext_equal]
pub struct ServiceDiscoveryV {
    pub name: Seq<char>,
    pub kind: Seq<char>,
    pub domain: Seq<char>,
    pub host_name: Seq<char>,
    pub address: Seq<char>,
    pub port: u16,
}

impl View for ServiceDiscovery {
    type V = ServiceDiscoveryV;

    open spec fn view(&self) -> ServiceDiscoveryV {
        ServiceDiscoveryV {
            name: self.name@,
            kind: self.kind@,
            domain: self.domain@,
            host_name: self.host_name@,
            address: self.address@,
            port: self.port,
        }
    }
}

/// A completed registration, built from the name, type and domain the
/// backend echoed back (registration may rename on conflict).
#[derive(Clone, Debug)]
pub struct ServiceRegistration {
    /// The instance name the backend actually assigned.
    pub name: String,
    /// The service type the backend echoed.
    pub kind: String,
    /// The normalized domain the backend echoed.
    pub domain: String,
}

/// The mathematical value of a [`ServiceRegistration`].
#[verifier::ext_equal]
pub struct ServiceRegistrationV {
    pub name: Seq<char>,
    pub kind: Seq<char>,
    pub domain: Seq<char>,
}

impl View for ServiceRegistration {
    type V = ServiceRegistrationV;

    open spec fn view(&self) -> ServiceRegistrationV {
        ServiceRegistrationV { name: self.name@, kind: self.kind@, domain: self.domain@ }
    }
}

} // verus!
