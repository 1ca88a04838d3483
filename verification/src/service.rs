//! Service registration: a single request, a single completion callback.
//!
//! A publisher registers one named service; the backend may rename it on
//! conflict, so the delivered [`ServiceRegistration`] is built from the
//! name, type and domain the backend echoes back, never from the request.

use vstd::prelude::*;
use crate::domain::normalized;
use crate::domain::normalize_domain;
use crate::error::DiscoveryError;
use crate::error::Stage;
use crate::error::has_nul;
use crate::error::contains_nul;
use crate::records::ServiceRegistration;
use crate::records::ServiceRegistrationV;

verus! {

/// The completion callback's payload: the echoed registration, or an error.
#[derive(Debug)]
pub struct RegisterEvent {
    /// The backend's error code; zero means success.
    pub error: i32,
    /// The instance name the backend actually assigned.
    pub name: String,
    /// The service type the backend echoed.
    pub regtype: String,
    /// The domain the backend echoed.
    pub domain: String,
}

/// The parameters of the registration request that `start` issues.
#[derive(Debug)]
pub struct RegisterRequest {
    /// The interface to register on; zero means all interfaces.
    pub interface_index: u32,
    /// The requested instance name; `None` lets the backend pick one.
    pub name: Option<String>,
    /// The service type to register.
    pub regtype: String,
    /// The port the service listens on.
    pub port: u16,
}

/// The result of a registration, as handed to the caller's callback,
/// together with the user-context snapshot taken at delivery time.
#[derive(Debug)]
pub struct RegisterDelivery {
    /// The completed registration, or the failure that ended it.
    pub result: Result<ServiceRegistration, DiscoveryError>,
    /// A copy of the user context attached to the publisher, if any.
    pub user_context: Option<u64>,
}

/// The mathematical value of a [`RegisterDelivery`].
#[verifier::ext_equal]
pub struct RegisterDeliveryV {
    pub result: Result<ServiceRegistrationV, DiscoveryError>,
    pub user_context: Option<u64>,
}

/// The mathematical value of a registration result.
pub open spec fn registration_view(r: Result<ServiceRegistration, DiscoveryError>) -> Result<
    ServiceRegistrationV,
    DiscoveryError,
> {
    match r {
        Ok(reg) => Ok(reg@),
        Err(e) => Err(e),
    }
}

impl View for RegisterDelivery {
    type V = RegisterDeliveryV;

    open spec fn view(&self) -> RegisterDeliveryV {
        RegisterDeliveryV { result: registration_view(self.result), user_context: self.user_context }
    }
}

/// The state a publisher threads through its one completion callback.
#[derive(Debug)]
pub struct BonjourServiceContext {
    callback_set: bool,
    user_context: Option<u64>,
    deliveries: Vec<RegisterDelivery>,
}

/// The mathematical value of a [`BonjourServiceContext`].
#[verifier::ext_equal]
pub struct ServiceContextV {
    pub callback_set: bool,
    pub user_context: Option<u64>,
    pub deliveries: Seq<RegisterDeliveryV>,
}

impl View for BonjourServiceContext {
    type V = ServiceContextV;

    closed spec fn view(&self) -> ServiceContextV {
        ServiceContextV {
            callback_set: self.callback_set,
            user_context: self.user_context,
            deliveries: self.deliveries@.map_values(|d: RegisterDelivery| d@),
        }
    }
}

/// The state of a freshly constructed publisher context.
pub open spec fn initial_service_context() -> ServiceContextV {
    ServiceContextV { callback_set: false, user_context: None, deliveries: Seq::empty() }
}

/// Appends one delivery if a callback is attached; results are dropped
/// otherwise, since the caller never registered interest.
pub open spec fn deliver_registration(
    c: ServiceContextV,
    r: Result<ServiceRegistrationV, DiscoveryError>,
) -> ServiceContextV {
    if c.callback_set {
        ServiceContextV {
            deliveries: c.deliveries.push(
                RegisterDeliveryV { result: r, user_context: c.user_context },
            ),
            ..c
        }
    } else {
        c
    }
}

/// The context after the completion callback: an error delivers one
/// failure with the reported code; a success delivers the registration the
/// backend echoed, with its domain normalized.
pub open spec fn register_step(
    c: ServiceContextV,
    error: i32,
    name: Seq<char>,
    regtype: Seq<char>,
    domain: Seq<char>,
) -> ServiceContextV {
    if error != 0 {
        deliver_registration(
            c,
            Err(DiscoveryError::StageError { stage: Stage::Register, code: error }),
        )
    } else {
        deliver_registration(
            c,
            Ok(ServiceRegistrationV { name, kind: regtype, domain: normalized(domain) }),
        )
    }
}

impl Default for BonjourServiceContext {
    /// A context with no callback, no user context and no pending
    /// deliveries.
    fn default() -> (r: Self)
        ensures
            r@ == initial_service_context(),
    {
        let r = BonjourServiceContext {
            callback_set: false,
            user_context: None,
            deliveries: Vec::new(),
        };
        proof {
            assert(r@ =~= initial_service_context());
        }
        r
    }
}

impl BonjourServiceContext {
    /// Records one result for the caller, together with a copy of the user
    /// context; if no callback was ever attached the result is dropped.
    pub fn invoke_callback(&mut self, result: Result<ServiceRegistration, DiscoveryError>)
        ensures
            final(self)@ == deliver_registration(old(self)@, registration_view(result)),
    {
        if self.callback_set {
            let user_context = self.user_context;
            let ghost previous = self.deliveries@;
            self.deliveries.push(RegisterDelivery { result, user_context });
            proof {
                previous.lemma_push_map_commute(
                    |d: RegisterDelivery| d@,
                    RegisterDelivery { result, user_context },
                );
                assert(self@ =~= deliver_registration(old(self)@, registration_view(result)));
            }
        }
    }

    /// Hands out the deliveries recorded so far, leaving none pending.
    pub fn take_deliveries(&mut self) -> (r: Vec<RegisterDelivery>)
        ensures
            r@.map_values(|d: RegisterDelivery| d@) == old(self)@.deliveries,
            final(self)@ == (ServiceContextV { deliveries: Seq::empty(), ..old(self)@ }),
    {
        let mut taken: Vec<RegisterDelivery> = Vec::new();
        core::mem::swap(&mut taken, &mut self.deliveries);
        proof {
            assert(self@ =~= (ServiceContextV { deliveries: Seq::empty(), ..old(self)@ }));
        }
        taken
    }
}

/// Delivers the outcome of the one registration request: a failure with
/// the reported code, or the registration the backend echoed — name, type
/// and domain as reported, the domain normalized.
pub fn handle_register(ctx: &mut BonjourServiceContext, event: RegisterEvent)
    ensures
        final(ctx)@ == register_step(
            old(ctx)@,
            event.error,
            event.name@,
            event.regtype@,
            event.domain@,
        ),
{
    if event.error != 0 {
        ctx.invoke_callback(
            Err(DiscoveryError::StageError { stage: Stage::Register, code: event.error }),
        );
    } else {
        let registration = ServiceRegistration {
            name: event.name,
            kind: event.regtype,
            domain: normalize_domain(event.domain.as_str()),
        };
        ctx.invoke_callback(Ok(registration));
    }
}

/// The network interface a publisher binds to.
#[derive(Debug)]
pub enum NetworkInterface {
    /// All available interfaces.
    Unspec,
    /// The interface with the given index.
    AtIndex(u32),
}

/// The interface index handed to the backend: zero stands for all
/// interfaces.
pub open spec fn interface_index_of(interface: NetworkInterface) -> u32 {
    match interface {
        NetworkInterface::Unspec => 0,
        NetworkInterface::AtIndex(i) => i,
    }
}

/// A publisher for one service.  It owns the context its completion
/// callback threads through; the context lives and dies with the
/// publisher.
#[derive(Debug)]
pub struct BonjourMdnsService {
    kind: String,
    port: u16,
    name: Option<String>,
    interface_index: u32,
    context: BonjourServiceContext,
}

/// The mathematical value of a [`BonjourMdnsService`].
#[verifier::ext_equal]
pub struct MdnsServiceV {
    pub kind: Seq<char>,
    pub port: u16,
    pub name: Option<Seq<char>>,
    pub interface_index: u32,
    pub context: ServiceContextV,
}

impl View for BonjourMdnsService {
    type V = MdnsServiceV;

    closed spec fn view(&self) -> MdnsServiceV {
        MdnsServiceV {
            kind: self.kind@,
            port: self.port,
            name: match self.name {
                Some(ref n) => Some(n@),
                None => None,
            },
            interface_index: self.interface_index,
            context: self.context@,
        }
    }
}

impl BonjourMdnsService {
    /// A publisher for the given service type (for example `_http._tcp`)
    /// and port, with no explicit name, bound to all interfaces, with a
    /// fresh context.
    pub fn new(kind: &str, port: u16) -> (r: Self)
        ensures
            r@.kind == kind@,
            r@.port == port,
            r@.name is None,
            r@.interface_index == 0,
            r@.context == initial_service_context(),
    {
        BonjourMdnsService {
            kind: kind.to_owned(),
            port,
            name: None,
            interface_index: 0,
            context: BonjourServiceContext::default(),
        }
    }

    /// Sets the name to register under; with none set, the backend assigns
    /// one (usually the machine's name).
    pub fn set_name(&mut self, name: &str)
        ensures
            final(self)@ == (MdnsServiceV { name: Some(name@), ..old(self)@ }),
    {
        self.name = Some(name.to_owned());
        proof {
            assert(self@ =~= (MdnsServiceV { name: Some(name@), ..old(self)@ }));
        }
    }

    /// Binds the service to one interface, or to all of them.
    pub fn set_network_interface(&mut self, interface: NetworkInterface)
        ensures
            final(self)@ == (MdnsServiceV {
                interface_index: interface_index_of(interface),
                ..old(self)@
            }),
    {
        self.interface_index = match interface {
            NetworkInterface::Unspec => 0,
            NetworkInterface::AtIndex(i) => i,
        };
        proof {
            assert(self@ =~= (MdnsServiceV {
                interface_index: interface_index_of(interface),
                ..old(self)@
            }));
        }
    }

    /// Marks that the caller attached a registered callback; from now on
    /// results are recorded for delivery instead of being dropped.
    pub fn set_registered_callback(&mut self)
        ensures
            final(self)@ == (MdnsServiceV {
                context: ServiceContextV { callback_set: true, ..old(self)@.context },
                ..old(self)@
            }),
    {
        self.context.callback_set = true;
        proof {
            assert(self@ =~= (MdnsServiceV {
                context: ServiceContextV { callback_set: true, ..old(self)@.context },
                ..old(self)@
            }));
        }
    }

    /// Attaches the user context whose copy accompanies every delivery.
    pub fn set_context(&mut self, user_context: u64)
        ensures
            final(self)@ == (MdnsServiceV {
                context: ServiceContextV {
                    user_context: Some(user_context),
                    ..old(self)@.context
                },
                ..old(self)@
            }),
    {
        self.context.user_context = Some(user_context);
        proof {
            assert(self@ =~= (MdnsServiceV {
                context: ServiceContextV {
                    user_context: Some(user_context),
                    ..old(self)@.context
                },
                ..old(self)@
            }));
        }
    }

    /// Validates the strings that cross the C boundary and gives the
    /// registration request the event loop must issue; the only failure is
    /// a type or name string that cannot be represented.
    pub fn start(&self) -> (r: Result<RegisterRequest, DiscoveryError>)
        ensures
            r is Err <==> (has_nul(self@.kind) || (self@.name matches Some(n) && has_nul(n))),
            r matches Err(e) ==> e == DiscoveryError::InvalidServiceType,
            r matches Ok(req) ==> req.interface_index == self@.interface_index && req.regtype@
                == self@.kind && req.port == self@.port && (match (req.name, self@.name) {
                (Some(rn), Some(sn)) => rn@ == sn,
                (None, None) => true,
                _ => false,
            }),
    {
        if contains_nul(self.kind.as_str()) {
            return Err(DiscoveryError::InvalidServiceType);
        }
        let name: Option<String> = match &self.name {
            Some(n) => {
                if contains_nul(n.as_str()) {
                    return Err(DiscoveryError::InvalidServiceType);
                }
                Some(n.clone())
            },
            None => None,
        };
        Ok(
            RegisterRequest {
                interface_index: self.interface_index,
                name,
                regtype: self.kind.clone(),
                port: self.port,
            },
        )
    }

    /// The context, for the event loop to thread through the completion
    /// handler.
    pub fn context_mut(&mut self) -> (r: &mut BonjourServiceContext)
        ensures
            (*r)@ == old(self)@.context,
            final(self)@ == (MdnsServiceV { context: (*final(r))@, ..old(self)@ }),
    {
        &mut self.context
    }
}

/// A successful backend response delivers exactly one registration whose
/// name is the name the backend echoed — in particular, when the caller
/// requested no explicit name, the delivered name is still exactly the
/// echoed one.
pub proof fn lemma_register_echoes_backend_name(
    c: ServiceContextV,
    name: Seq<char>,
    regtype: Seq<char>,
    domain: Seq<char>,
)
    requires
        c.callback_set,
    ensures
        register_step(c, 0, name, regtype, domain).deliveries == c.deliveries.push(
            RegisterDeliveryV {
                result: Ok(
                    ServiceRegistrationV { name, kind: regtype, domain: normalized(domain) },
                ),
                user_context: c.user_context,
            },
        ),
{
}

/// A failing backend response delivers exactly one failure carrying the
/// reported code.
pub proof fn lemma_register_error_single_failure(
    c: ServiceContextV,
    error: i32,
    name: Seq<char>,
    regtype: Seq<char>,
    domain: Seq<char>,
)
    requires
        c.callback_set,
        error != 0,
    ensures
        register_step(c, error, name, regtype, domain).deliveries == c.deliveries.push(
            RegisterDeliveryV {
                result: Err(DiscoveryError::StageError { stage: Stage::Register, code: error }),
                user_context: c.user_context,
            },
        ),
{
}

} // verus!
