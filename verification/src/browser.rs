//! Service browsing: the three-stage resolution chain.
//!
//! A discovered service goes through browse, host/port resolution and
//! address resolution before one [`ServiceDiscovery`] is delivered.  The
//! stages are driven by backend callbacks; each handler here takes the
//! owning context and the callback's payload as plain values, advances the
//! chain state, and returns the request the next stage must issue, if any.
//! The chain state is an explicit tagged value: moving it back to `Idle` on
//! completion is the guard that makes a second firing of the address
//! callback a silent no-op.

use vstd::prelude::*;
use crate::domain::normalized;
use crate::domain::normalize_domain;
use crate::error::DiscoveryError;
use crate::error::Stage;
use crate::error::has_nul;
use crate::error::contains_nul;
use crate::records::ServiceDiscovery;
use crate::records::ServiceDiscoveryV;
use crate::render::ipv4_of;
use crate::render::format_ipv4;

verus! {

/// One browse-stage callback payload: a service-found event, or an error.
#[derive(Debug)]
pub struct BrowseEvent {
    /// The backend's error code; zero means success.
    pub error: i32,
    /// The discovered instance name.
    pub name: String,
    /// The discovered service type.
    pub regtype: String,
    /// The domain the service was discovered in.
    pub domain: String,
    /// The interface the event arrived on.
    pub interface_index: u32,
}

/// One resolve-stage callback payload.
#[derive(Debug)]
pub struct ResolveEvent {
    /// The backend's error code; zero means success.
    pub error: i32,
    /// The host target the service resolves to.
    pub host_target: String,
    /// The port the service listens on.
    pub port: u16,
    /// The interface the event arrived on.
    pub interface_index: u32,
}

/// One address-stage callback payload.
#[derive(Debug)]
pub struct AddressEvent {
    /// The backend's error code; zero means success.
    pub error: i32,
    /// The four octets of the resolved IPv4 address.
    pub address: [u8; 4],
}

/// The parameters of the standing browse request that `start` issues.
#[derive(Debug)]
pub struct BrowseRequest {
    /// The interface to browse on; zero means all interfaces.
    pub interface_index: u32,
    /// The service type to watch for.
    pub regtype: String,
    /// The domain to browse; `None` leaves the backend's default.
    pub domain: Option<String>,
}

/// The parameters of the host/port resolution a browse event triggers.
#[derive(Debug)]
pub struct ResolveRequest {
    /// Resolution is forced onto multicast.
    pub force_multicast: bool,
    /// The interface the service was discovered on.
    pub interface_index: u32,
    /// The instance name to resolve.
    pub name: String,
    /// The service type to resolve.
    pub regtype: String,
    /// The domain to resolve in.
    pub domain: String,
}

/// The parameters of the address lookup a resolve event triggers.
#[derive(Debug)]
pub struct GetAddressInfoRequest {
    /// Resolution is forced onto multicast.
    pub force_multicast: bool,
    /// The interface the service resolved on.
    pub interface_index: u32,
    /// The host target to look up.
    pub hostname: String,
}

/// The progress of the one in-flight resolution chain of a browser.
#[derive(Debug)]
pub enum ChainState {
    /// No chain is in flight; address-stage events are ignored.
    Idle,
    /// A browse event was accepted and host/port resolution is pending.
    Resolving { name: String, kind: String, domain: String },
    /// Host and port are known and address resolution is pending.
    ResolvingAddress {
        name: String,
        kind: String,
        domain: String,
        host_name: String,
        port: u16,
    },
}

/// The mathematical value of a [`ChainState`].
#[verifier::ext_equal]
pub enum ChainStateV {
    Idle,
    Resolving { name: Seq<char>, kind: Seq<char>, domain: Seq<char> },
    ResolvingAddress {
        name: Seq<char>,
        kind: Seq<char>,
        domain: Seq<char>,
        host_name: Seq<char>,
        port: u16,
    },
}

impl View for ChainState {
    type V = ChainStateV;

    open spec fn view(&self) -> ChainStateV {
        match self {
            ChainState::Idle => ChainStateV::Idle,
            ChainState::Resolving { name, kind, domain } => ChainStateV::Resolving {
                name: name@,
                kind: kind@,
                domain: domain@,
            },
            ChainState::ResolvingAddress { name, kind, domain, host_name, port } => {
                ChainStateV::ResolvingAddress {
                    name: name@,
                    kind: kind@,
                    domain: domain@,
                    host_name: host_name@,
                    port: *port,
                }
            },
        }
    }
}

/// The result of one chain, as handed to the caller's callback, together
/// with the user-context snapshot taken at delivery time.
#[derive(Debug)]
pub struct BrowseDelivery {
    /// The resolved record, or the stage failure that ended the chain.
    pub result: Result<ServiceDiscovery, DiscoveryError>,
    /// A copy of the user context attached to the browser, if any.
    pub user_context: Option<u64>,
}

/// The mathematical value of a [`BrowseDelivery`].
#[verifier::ext_equal]
pub struct BrowseDeliveryV {
    pub result: Result<ServiceDiscoveryV, DiscoveryError>,
    pub user_context: Option<u64>,
}

/// The mathematical value of a discovery result.
pub open spec fn result_view(r: Result<ServiceDiscovery, DiscoveryError>) -> Result<
    ServiceDiscoveryV,
    DiscoveryError,
> {
    match r {
        Ok(d) => Ok(d@),
        Err(e) => Err(e),
    }
}

impl View for BrowseDelivery {
    type V = BrowseDeliveryV;

    open spec fn view(&self) -> BrowseDeliveryV {
        BrowseDeliveryV { result: result_view(self.result), user_context: self.user_context }
    }
}

/// The state a browser threads through the callback-driven stages: whether
/// a caller callback is attached, the attached user context, the one
/// in-flight chain, and the results delivered but not yet handed out.
#[derive(Debug)]
pub struct BonjourBrowserContext {
    callback_set: bool,
    user_context: Option<u64>,
    chain: ChainState,
    deliveries: Vec<BrowseDelivery>,
}

/// The mathematical value of a [`BonjourBrowserContext`].
#[verifier::ext_equal]
pub struct BrowserContextV {
    pub callback_set: bool,
    pub user_context: Option<u64>,
    pub chain: ChainStateV,
    pub deliveries: Seq<BrowseDeliveryV>,
}

impl View for BonjourBrowserContext {
    type V = BrowserContextV;

    closed spec fn view(&self) -> BrowserContextV {
        BrowserContextV {
            callback_set: self.callback_set,
            user_context: self.user_context,
            chain: self.chain@,
            deliveries: self.deliveries@.map_values(|d: BrowseDelivery| d@),
        }
    }
}

/// The state of a freshly constructed browser context.
pub open spec fn initial_browser_context() -> BrowserContextV {
    BrowserContextV {
        callback_set: false,
        user_context: None,
        chain: ChainStateV::Idle,
        deliveries: Seq::empty(),
    }
}

/// Appends one delivery if a callback is attached; results are dropped
/// otherwise, since the caller never registered interest.
pub open spec fn deliver_browse(
    c: BrowserContextV,
    r: Result<ServiceDiscoveryV, DiscoveryError>,
) -> BrowserContextV {
    if c.callback_set {
        BrowserContextV {
            deliveries: c.deliveries.push(
                BrowseDeliveryV { result: r, user_context: c.user_context },
            ),
            ..c
        }
    } else {
        c
    }
}

/// The context after one browse-stage event: an error ends the chain with
/// one failure delivery; a discovery starts a fresh chain, overwriting any
/// stale fields of a previous one.
pub open spec fn browse_step(
    c: BrowserContextV,
    error: i32,
    name: Seq<char>,
    regtype: Seq<char>,
    domain: Seq<char>,
) -> BrowserContextV {
    if error != 0 {
        deliver_browse(
            BrowserContextV { chain: ChainStateV::Idle, ..c },
            Err(DiscoveryError::StageError { stage: Stage::Browse, code: error }),
        )
    } else {
        BrowserContextV { chain: ChainStateV::Resolving { name, kind: regtype, domain }, ..c }
    }
}

/// The context after one resolve-stage event.  Outside the `Resolving`
/// state the event belongs to no in-flight chain and changes nothing.
pub open spec fn resolve_step(
    c: BrowserContextV,
    error: i32,
    host_target: Seq<char>,
    port: u16,
) -> BrowserContextV {
    match c.chain {
        ChainStateV::Resolving { name, kind, domain } => {
            if error != 0 {
                deliver_browse(
                    BrowserContextV { chain: ChainStateV::Idle, ..c },
                    Err(DiscoveryError::StageError { stage: Stage::Resolve, code: error }),
                )
            } else {
                BrowserContextV {
                    chain: ChainStateV::ResolvingAddress {
                        name,
                        kind,
                        domain,
                        host_name: host_target,
                        port,
                    },
                    ..c
                }
            }
        },
        _ => c,
    }
}

/// The context after one address-stage event.  Outside the
/// `ResolvingAddress` state the chain was already completed (the backend
/// fires this callback more than once) and the event changes nothing.
pub open spec fn address_step(c: BrowserContextV, error: i32, octets: Seq<u8>) -> BrowserContextV {
    match c.chain {
        ChainStateV::ResolvingAddress { name, kind, domain, host_name, port } => {
            let idled = BrowserContextV { chain: ChainStateV::Idle, ..c };
            if error != 0 {
                deliver_browse(
                    idled,
                    Err(DiscoveryError::StageError { stage: Stage::GetAddressInfo, code: error }),
                )
            } else {
                deliver_browse(
                    idled,
                    Ok(
                        ServiceDiscoveryV {
                            name,
                            kind,
                            domain: normalized(domain),
                            host_name,
                            address: ipv4_of(octets),
                            port,
                        },
                    ),
                )
            }
        },
        _ => c,
    }
}

impl Default for BonjourBrowserContext {
    /// A context with no callback, no user context, an idle chain and no
    /// pending deliveries.
    fn default() -> (r: Self)
        ensures
            r@ == initial_browser_context(),
    {
        let r = BonjourBrowserContext {
            callback_set: false,
            user_context: None,
            chain: ChainState::Idle,
            deliveries: Vec::new(),
        };
        proof {
            assert(r@ =~= initial_browser_context());
        }
        r
    }
}

impl BonjourBrowserContext {
    /// Records one result for the caller, together with a copy of the user
    /// context; if no callback was ever attached the result is dropped.
    pub fn invoke_callback(&mut self, result: Result<ServiceDiscovery, DiscoveryError>)
        ensures
            final(self)@ == deliver_browse(old(self)@, result_view(result)),
    {
        if self.callback_set {
            let user_context = self.user_context;
            let ghost previous = self.deliveries@;
            self.deliveries.push(BrowseDelivery { result, user_context });
            proof {
                previous.lemma_push_map_commute(
                    |d: BrowseDelivery| d@,
                    BrowseDelivery { result, user_context },
                );
                assert(self@ =~= deliver_browse(old(self)@, result_view(result)));
            }
        }
    }

    /// Hands out the deliveries recorded so far, leaving none pending.
    pub fn take_deliveries(&mut self) -> (r: Vec<BrowseDelivery>)
        ensures
            r@.map_values(|d: BrowseDelivery| d@) == old(self)@.deliveries,
            final(self)@ == (BrowserContextV { deliveries: Seq::empty(), ..old(self)@ }),
    {
        let mut taken: Vec<BrowseDelivery> = Vec::new();
        core::mem::swap(&mut taken, &mut self.deliveries);
        proof {
            assert(self@ =~= (BrowserContextV { deliveries: Seq::empty(), ..old(self)@ }));
        }
        taken
    }
}

/// Advances the chain on a browse-stage callback: an error delivers one
/// failure and ends the chain; a discovery resets the chain to the reported
/// name, type and domain and asks for the host/port resolution that must be
/// issued next.
pub fn handle_browse(ctx: &mut BonjourBrowserContext, event: BrowseEvent) -> (r: Option<
    ResolveRequest,
>)
    ensures
        final(ctx)@ == browse_step(old(ctx)@, event.error, event.name@, event.regtype@, event.domain@),
        r is Some <==> event.error == 0,
        r matches Some(req) ==> req.force_multicast && req.interface_index == event.interface_index
            && req.name@ == event.name@ && req.regtype@ == event.regtype@ && req.domain@
            == event.domain@,
{
    if event.error != 0 {
        ctx.chain = ChainState::Idle;
        proof {
            assert(ctx@ =~= (BrowserContextV { chain: ChainStateV::Idle, ..old(ctx)@ }));
        }
        ctx.invoke_callback(Err(DiscoveryError::StageError { stage: Stage::Browse, code: event.error }));
        None
    } else {
        let req = ResolveRequest {
            force_multicast: true,
            interface_index: event.interface_index,
            name: event.name.clone(),
            regtype: event.regtype.clone(),
            domain: event.domain.clone(),
        };
        ctx.chain = ChainState::Resolving {
            name: event.name,
            kind: event.regtype,
            domain: event.domain,
        };
        proof {
            assert(ctx@ =~= browse_step(
                old(ctx)@,
                event.error,
                event.name@,
                event.regtype@,
                event.domain@,
            ));
        }
        Some(req)
    }
}

/// Advances the chain on a resolve-stage callback: an error delivers one
/// failure and ends the chain; a resolution stores the host target and
/// port and asks for the address lookup that must be issued next.  An
/// event with no pending resolution changes nothing.
pub fn handle_resolve(ctx: &mut BonjourBrowserContext, event: ResolveEvent) -> (r: Option<
    GetAddressInfoRequest,
>)
    ensures
        final(ctx)@ == resolve_step(old(ctx)@, event.error, event.host_target@, event.port),
        r is Some <==> (old(ctx)@.chain matches ChainStateV::Resolving { .. } && event.error == 0),
        r matches Some(req) ==> req.force_multicast && req.interface_index == event.interface_index
            && req.hostname@ == event.host_target@,
{
    let mut chain = ChainState::Idle;
    core::mem::swap(&mut chain, &mut ctx.chain);
    match chain {
        ChainState::Resolving { name, kind, domain } => {
            if event.error != 0 {
                proof {
                    assert(ctx@ =~= (BrowserContextV { chain: ChainStateV::Idle, ..old(ctx)@ }));
                }
                ctx.invoke_callback(
                    Err(DiscoveryError::StageError { stage: Stage::Resolve, code: event.error }),
                );
                None
            } else {
                let req = GetAddressInfoRequest {
                    force_multicast: true,
                    interface_index: event.interface_index,
                    hostname: event.host_target.clone(),
                };
                ctx.chain = ChainState::ResolvingAddress {
                    name,
                    kind,
                    domain,
                    host_name: event.host_target,
                    port: event.port,
                };
                proof {
                    assert(ctx@ =~= resolve_step(
                        old(ctx)@,
                        event.error,
                        event.host_target@,
                        event.port,
                    ));
                }
                Some(req)
            }
        },
        other => {
            ctx.chain = other;
            proof {
                assert(ctx@ =~= old(ctx)@);
            }
            None
        },
    }
}

/// Completes the chain on an address-stage callback: an error delivers one
/// failure; a resolved address is combined with the accumulated name, type,
/// normalized domain, host target and port into the one success delivery.
/// Moving the chain back to `Idle` first makes a repeated firing of this
/// callback find nothing to complete and change nothing.
pub fn handle_get_address_info(ctx: &mut BonjourBrowserContext, event: AddressEvent)
    ensures
        final(ctx)@ == address_step(old(ctx)@, event.error, event.address@),
{
    let mut chain = ChainState::Idle;
    core::mem::swap(&mut chain, &mut ctx.chain);
    match chain {
        ChainState::ResolvingAddress { name, kind, domain, host_name, port } => {
            proof {
                assert(ctx@ =~= (BrowserContextV { chain: ChainStateV::Idle, ..old(ctx)@ }));
            }
            if event.error != 0 {
                ctx.invoke_callback(
                    Err(
                        DiscoveryError::StageError {
                            stage: Stage::GetAddressInfo,
                            code: event.error,
                        },
                    ),
                );
            } else {
                let discovery = ServiceDiscovery {
                    name,
                    kind,
                    domain: normalize_domain(domain.as_str()),
                    host_name,
                    address: format_ipv4(&event.address),
                    port,
                };
                ctx.invoke_callback(Ok(discovery));
            }
        },
        other => {
            ctx.chain = other;
            proof {
                assert(ctx@ =~= old(ctx)@);
            }
        },
    }
}

/// A browser for services of one type.  It owns the context the stages
/// thread through; the context lives and dies with the browser.
#[derive(Debug)]
pub struct BonjourMdnsBrowser {
    kind: String,
    context: BonjourBrowserContext,
}

/// The mathematical value of a [`BonjourMdnsBrowser`].
#[verifier::ext_equal]
pub struct MdnsBrowserV {
    pub kind: Seq<char>,
    pub context: BrowserContextV,
}

impl View for BonjourMdnsBrowser {
    type V = MdnsBrowserV;

    closed spec fn view(&self) -> MdnsBrowserV {
        MdnsBrowserV { kind: self.kind@, context: self.context@ }
    }
}

impl BonjourMdnsBrowser {
    /// A browser for the given service type (for example `_http._tcp`),
    /// with a fresh context.
    pub fn new(kind: &str) -> (r: Self)
        ensures
            r@.kind == kind@,
            r@.context == initial_browser_context(),
    {
        BonjourMdnsBrowser { kind: kind.to_owned(), context: BonjourBrowserContext::default() }
    }

    /// Marks that the caller attached a discovered-service callback; from
    /// now on results are recorded for delivery instead of being dropped.
    pub fn set_service_discovered_callback(&mut self)
        ensures
            final(self)@ == (MdnsBrowserV {
                context: BrowserContextV { callback_set: true, ..old(self)@.context },
                ..old(self)@
            }),
    {
        self.context.callback_set = true;
        proof {
            assert(self@ =~= (MdnsBrowserV {
                context: BrowserContextV { callback_set: true, ..old(self)@.context },
                ..old(self)@
            }));
        }
    }

    /// Attaches the user context whose copy accompanies every delivery.
    pub fn set_context(&mut self, user_context: u64)
        ensures
            final(self)@ == (MdnsBrowserV {
                context: BrowserContextV {
                    user_context: Some(user_context),
                    ..old(self)@.context
                },
                ..old(self)@
            }),
    {
        self.context.user_context = Some(user_context);
        proof {
            assert(self@ =~= (MdnsBrowserV {
                context: BrowserContextV {
                    user_context: Some(user_context),
                    ..old(self)@.context
                },
                ..old(self)@
            }));
        }
    }

    /// Validates the service type and gives the standing browse request the
    /// event loop must issue; the only failure is a type string that cannot
    /// cross the C boundary.
    pub fn start(&self) -> (r: Result<BrowseRequest, DiscoveryError>)
        ensures
            r is Err <==> has_nul(self@.kind),
            r matches Err(e) ==> e == DiscoveryError::InvalidServiceType,
            r matches Ok(req) ==> req.interface_index == 0 && req.regtype@ == self@.kind
                && req.domain is None,
    {
        if contains_nul(self.kind.as_str()) {
            Err(DiscoveryError::InvalidServiceType)
        } else {
            Ok(BrowseRequest { interface_index: 0, regtype: self.kind.clone(), domain: None })
        }
    }

    /// The context, for the event loop to thread through the stage handlers.
    pub fn context_mut(&mut self) -> (r: &mut BonjourBrowserContext)
        ensures
            (*r)@ == old(self)@.context,
            final(self)@ == (MdnsBrowserV { context: (*final(r))@, ..old(self)@ }),
    {
        &mut self.context
    }
}

/// Each fully successful chain delivers exactly one record: the name, type
/// and domain come from the browse stage (the domain normalized), the host
/// target and port from the resolve stage, and the address from the address
/// stage.  No stage before the last delivers anything, and the chain ends
/// idle.
pub proof fn lemma_successful_chain_delivers_once(
    c0: BrowserContextV,
    name: Seq<char>,
    regtype: Seq<char>,
    domain: Seq<char>,
    host_target: Seq<char>,
    port: u16,
    octets: Seq<u8>,
)
    requires
        c0.callback_set,
    ensures
        ({
            let c1 = browse_step(c0, 0, name, regtype, domain);
            let c2 = resolve_step(c1, 0, host_target, port);
            let c3 = address_step(c2, 0, octets);
            &&& c1.deliveries == c0.deliveries
            &&& c2.deliveries == c0.deliveries
            &&& c3.deliveries == c0.deliveries.push(
                BrowseDeliveryV {
                    result: Ok(
                        ServiceDiscoveryV {
                            name,
                            kind: regtype,
                            domain: normalized(domain),
                            host_name: host_target,
                            address: ipv4_of(octets),
                            port,
                        },
                    ),
                    user_context: c0.user_context,
                },
            )
            &&& c3.chain == ChainStateV::Idle
        }),
{
}

/// A second firing of the address callback for an already completed chain
/// delivers nothing and changes nothing.
pub proof fn lemma_completed_chain_refire_is_noop(c: BrowserContextV, error: i32, octets: Seq<u8>)
    requires
        c.chain == ChainStateV::Idle,
    ensures
        address_step(c, error, octets) == c,
{
}

/// A resolve event with no pending resolution delivers nothing and changes
/// nothing.
pub proof fn lemma_idle_chain_ignores_resolve(
    c: BrowserContextV,
    error: i32,
    host_target: Seq<char>,
    port: u16,
)
    requires
        c.chain == ChainStateV::Idle,
    ensures
        resolve_step(c, error, host_target, port) == c,
{
}

/// A browse-stage error produces exactly one failure delivery, carrying the
/// reported code, and leaves the chain idle, so no later event of that
/// chain delivers anything.
pub proof fn lemma_browse_error_single_failure(
    c: BrowserContextV,
    error: i32,
    name: Seq<char>,
    regtype: Seq<char>,
    domain: Seq<char>,
)
    requires
        c.callback_set,
        error != 0,
    ensures
        browse_step(c, error, name, regtype, domain).deliveries == c.deliveries.push(
            BrowseDeliveryV {
                result: Err(DiscoveryError::StageError { stage: Stage::Browse, code: error }),
                user_context: c.user_context,
            },
        ),
        browse_step(c, error, name, regtype, domain).chain == ChainStateV::Idle,
{
}

/// A resolve-stage error on a pending chain produces exactly one failure
/// delivery, carrying the reported code, and leaves the chain idle.
pub proof fn lemma_resolve_error_single_failure(
    c: BrowserContextV,
    error: i32,
    host_target: Seq<char>,
    port: u16,
)
    requires
        c.callback_set,
        c.chain matches ChainStateV::Resolving { .. },
        error != 0,
    ensures
        resolve_step(c, error, host_target, port).deliveries == c.deliveries.push(
            BrowseDeliveryV {
                result: Err(DiscoveryError::StageError { stage: Stage::Resolve, code: error }),
                user_context: c.user_context,
            },
        ),
        resolve_step(c, error, host_target, port).chain == ChainStateV::Idle,
{
}

/// An address-stage error on a pending chain produces exactly one failure
/// delivery, carrying the reported code, and leaves the chain idle.
pub proof fn lemma_address_error_single_failure(c: BrowserContextV, error: i32, octets: Seq<u8>)
    requires
        c.callback_set,
        c.chain matches ChainStateV::ResolvingAddress { .. },
        error != 0,
    ensures
        address_step(c, error, octets).deliveries == c.deliveries.push(
            BrowseDeliveryV {
                result: Err(
                    DiscoveryError::StageError { stage: Stage::GetAddressInfo, code: error },
                ),
                user_context: c.user_context,
            },
        ),
        address_step(c, error, octets).chain == ChainStateV::Idle,
{
}

} // verus!
