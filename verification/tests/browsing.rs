//! The three-stage discovery chain, driven with concrete events.

use zeroconf::browser::AddressEvent;
use zeroconf::browser::BonjourMdnsBrowser;
use zeroconf::browser::BrowseEvent;
use zeroconf::browser::ResolveEvent;
use zeroconf::error::DiscoveryError;
use zeroconf::error::Stage;

fn browse_event(name: &str, regtype: &str, domain: &str) -> BrowseEvent {
    BrowseEvent {
        error: 0,
        name: name.to_string(),
        regtype: regtype.to_string(),
        domain: domain.to_string(),
        interface_index: 2,
    }
}

#[test]
fn successful_chain_delivers_one_record() {
    let mut browser = BonjourMdnsBrowser::new("_http._tcp");
    browser.set_service_discovered_callback();

    let resolve_req =
        zeroconf::browser::handle_browse(browser.context_mut(), browse_event("Printer", "_http._tcp", "local."))
            .expect("a browse event must trigger a resolve request");
    assert!(resolve_req.force_multicast);
    assert_eq!(resolve_req.interface_index, 2);
    assert_eq!(resolve_req.name, "Printer");
    assert_eq!(resolve_req.regtype, "_http._tcp");
    assert_eq!(resolve_req.domain, "local.");

    let address_req = zeroconf::browser::handle_resolve(
        browser.context_mut(),
        ResolveEvent {
            error: 0,
            host_target: "printer.local.".to_string(),
            port: 631,
            interface_index: 2,
        },
    )
    .expect("a resolution must trigger an address request");
    assert!(address_req.force_multicast);
    assert_eq!(address_req.hostname, "printer.local.");

    zeroconf::browser::handle_get_address_info(
        browser.context_mut(),
        AddressEvent { error: 0, address: [192, 168, 1, 50] },
    );

    let deliveries = browser.context_mut().take_deliveries();
    assert_eq!(deliveries.len(), 1);
    let discovery = deliveries[0].result.as_ref().expect("the chain succeeded");
    assert_eq!(discovery.name, "Printer");
    assert_eq!(discovery.kind, "_http._tcp");
    assert_eq!(discovery.domain, "local");
    assert_eq!(discovery.host_name, "printer.local.");
    assert_eq!(discovery.address, "192.168.1.50");
    assert_eq!(discovery.port, 631);
}

#[test]
fn address_callback_refire_delivers_nothing() {
    let mut browser = BonjourMdnsBrowser::new("_http._tcp");
    browser.set_service_discovered_callback();

    zeroconf::browser::handle_browse(browser.context_mut(), browse_event("A", "_http._tcp", "local."));
    zeroconf::browser::handle_resolve(
        browser.context_mut(),
        ResolveEvent {
            error: 0,
            host_target: "a.local.".to_string(),
            port: 80,
            interface_index: 0,
        },
    );
    zeroconf::browser::handle_get_address_info(
        browser.context_mut(),
        AddressEvent { error: 0, address: [10, 0, 0, 1] },
    );
    assert_eq!(browser.context_mut().take_deliveries().len(), 1);

    // The backend fires this callback more than once for the same chain.
    zeroconf::browser::handle_get_address_info(
        browser.context_mut(),
        AddressEvent { error: 0, address: [10, 0, 0, 1] },
    );
    assert_eq!(browser.context_mut().take_deliveries().len(), 0);
}

#[test]
fn resolve_error_delivers_failure_and_no_address_request() {
    let mut browser = BonjourMdnsBrowser::new("_http._tcp");
    browser.set_service_discovered_callback();

    zeroconf::browser::handle_browse(browser.context_mut(), browse_event("P", "_http._tcp", "local."));
    let address_req = zeroconf::browser::handle_resolve(
        browser.context_mut(),
        ResolveEvent {
            error: 5,
            host_target: String::new(),
            port: 0,
            interface_index: 0,
        },
    );
    assert!(address_req.is_none());

    let deliveries = browser.context_mut().take_deliveries();
    assert_eq!(deliveries.len(), 1);
    let err = deliveries[0].result.as_ref().expect_err("the stage failed");
    assert_eq!(
        *err,
        DiscoveryError::StageError { stage: Stage::Resolve, code: 5 }
    );
    assert!(err.message().contains("5"));
}

#[test]
fn browse_error_delivers_failure_and_no_resolve_request() {
    let mut browser = BonjourMdnsBrowser::new("_http._tcp");
    browser.set_service_discovered_callback();

    let req = zeroconf::browser::handle_browse(
        browser.context_mut(),
        BrowseEvent {
            error: -65537,
            name: String::new(),
            regtype: String::new(),
            domain: String::new(),
            interface_index: 0,
        },
    );
    assert!(req.is_none());

    let deliveries = browser.context_mut().take_deliveries();
    assert_eq!(deliveries.len(), 1);
    assert_eq!(
        *deliveries[0].result.as_ref().expect_err("the stage failed"),
        DiscoveryError::StageError { stage: Stage::Browse, code: -65537 }
    );
}

#[test]
fn address_error_delivers_failure() {
    let mut browser = BonjourMdnsBrowser::new("_http._tcp");
    browser.set_service_discovered_callback();

    zeroconf::browser::handle_browse(browser.context_mut(), browse_event("P", "_http._tcp", "local."));
    zeroconf::browser::handle_resolve(
        browser.context_mut(),
        ResolveEvent {
            error: 0,
            host_target: "p.local.".to_string(),
            port: 80,
            interface_index: 0,
        },
    );
    zeroconf::browser::handle_get_address_info(
        browser.context_mut(),
        AddressEvent { error: 3, address: [0, 0, 0, 0] },
    );

    let deliveries = browser.context_mut().take_deliveries();
    assert_eq!(deliveries.len(), 1);
    assert_eq!(
        *deliveries[0].result.as_ref().expect_err("the stage failed"),
        DiscoveryError::StageError { stage: Stage::GetAddressInfo, code: 3 }
    );

    // The failed chain is over: a late address event delivers nothing more.
    zeroconf::browser::handle_get_address_info(
        browser.context_mut(),
        AddressEvent { error: 3, address: [0, 0, 0, 0] },
    );
    assert_eq!(browser.context_mut().take_deliveries().len(), 0);
}

#[test]
fn results_are_dropped_without_a_callback() {
    let mut browser = BonjourMdnsBrowser::new("_http._tcp");

    zeroconf::browser::handle_browse(browser.context_mut(), browse_event("P", "_http._tcp", "local."));
    zeroconf::browser::handle_resolve(
        browser.context_mut(),
        ResolveEvent {
            error: 0,
            host_target: "p.local.".to_string(),
            port: 80,
            interface_index: 0,
        },
    );
    zeroconf::browser::handle_get_address_info(
        browser.context_mut(),
        AddressEvent { error: 0, address: [10, 0, 0, 2] },
    );

    assert_eq!(browser.context_mut().take_deliveries().len(), 0);
}

#[test]
fn deliveries_carry_the_user_context() {
    let mut browser = BonjourMdnsBrowser::new("_http._tcp");
    browser.set_service_discovered_callback();
    browser.set_context(42);

    zeroconf::browser::handle_browse(
        browser.context_mut(),
        BrowseEvent {
            error: 9,
            name: String::new(),
            regtype: String::new(),
            domain: String::new(),
            interface_index: 0,
        },
    );

    let deliveries = browser.context_mut().take_deliveries();
    assert_eq!(deliveries.len(), 1);
    assert_eq!(deliveries[0].user_context, Some(42));
}

#[test]
fn consecutive_chains_each_deliver() {
    let mut browser = BonjourMdnsBrowser::new("_http._tcp");
    browser.set_service_discovered_callback();

    for (name, octet) in [("First", 1u8), ("Second", 2u8)] {
        zeroconf::browser::handle_browse(browser.context_mut(), browse_event(name, "_http._tcp", "local."));
        zeroconf::browser::handle_resolve(
            browser.context_mut(),
            ResolveEvent {
                error: 0,
                host_target: format!("{}.local.", name.to_lowercase()),
                port: 80,
                interface_index: 0,
            },
        );
        zeroconf::browser::handle_get_address_info(
            browser.context_mut(),
            AddressEvent { error: 0, address: [10, 0, 0, octet] },
        );
    }

    let deliveries = browser.context_mut().take_deliveries();
    assert_eq!(deliveries.len(), 2);
    assert_eq!(deliveries[0].result.as_ref().unwrap().name, "First");
    assert_eq!(deliveries[1].result.as_ref().unwrap().name, "Second");
    assert_eq!(deliveries[1].result.as_ref().unwrap().address, "10.0.0.2");
}

#[test]
fn start_gives_the_browse_request() {
    let browser = BonjourMdnsBrowser::new("_printer._tcp");
    let req = browser.start().expect("a representable type must start");
    assert_eq!(req.interface_index, 0);
    assert_eq!(req.regtype, "_printer._tcp");
    assert!(req.domain.is_none());
}

#[test]
fn start_rejects_a_nul_in_the_type() {
    let browser = BonjourMdnsBrowser::new("_http\0._tcp");
    assert_eq!(browser.start().unwrap_err(), DiscoveryError::InvalidServiceType);
}
