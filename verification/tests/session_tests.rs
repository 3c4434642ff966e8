//! Lifecycle tests for the browse and advertise sessions: idempotent
//! teardown, restart semantics, shared-handle lifetime, and the error
//! notifications for rejected inputs.
//!
//! The engine's command channel runs over the loopback interface.  Where the
//! test environment has no usable network, the scenarios that need a
//! responsive engine report that and end early; the state-machine assertions
//! that need no network always run.

use mdns_sessions::EngineRegistry;
use mdns_sessions::MdnsAdvertiser;
use mdns_sessions::MdnsBrowser;
use mdns_sessions::Notification;

fn pairs(raw: &[(&str, &str)]) -> Vec<(String, String)> {
    raw.iter().map(|(k, v)| (k.to_string(), v.to_string())).collect()
}

fn errors_of(notes: &[Notification]) -> Vec<String> {
    notes
        .iter()
        .map(|n| match n {
            Notification::Error { message } => message.clone(),
            Notification::Discovered { .. } => "Discovered".to_string(),
            Notification::Removed { .. } => "Removed".to_string(),
        })
        .collect()
}

/// Whether a responsive engine is available: its command channel answers a
/// browse request.
fn engine_available() -> bool {
    let mut reg = EngineRegistry::new();
    let mut browser = MdnsBrowser::new();
    let notes = browser.browse(&mut reg, "_avail._tcp.local.".to_string());
    let up = notes.is_empty();
    browser.stop_browsing(&mut reg);
    up
}

#[test]
fn stop_on_idle_browser_is_noop() {
    let mut reg = EngineRegistry::new();
    let mut browser = MdnsBrowser::new();
    browser.stop_browsing(&mut reg);
    browser.stop_browsing(&mut reg);
    assert!(!browser.is_browsing());
    assert!(!reg.is_initialized());
    assert_eq!(reg.active_handles(), 0);
}

#[test]
fn unregister_on_idle_advertiser_is_noop() {
    let mut reg = EngineRegistry::new();
    let mut adv = MdnsAdvertiser::new();
    adv.stop_advertising(&mut reg);
    adv.stop_advertising(&mut reg);
    assert!(!adv.is_advertising());
    assert_eq!(adv.get_registered_name(), "");
    assert!(!reg.is_initialized());
    assert_eq!(reg.active_handles(), 0);
}

#[test]
fn restart_keeps_exactly_one_subscription() {
    if !engine_available() {
        println!("[restart] SKIP — no responsive engine in this environment");
        return;
    }
    let mut reg = EngineRegistry::new();
    let mut browser = MdnsBrowser::new();

    let notes_a = browser.browse(&mut reg, "_typea._tcp.local.".to_string());
    assert!(notes_a.is_empty(), "first browse should succeed: {:?}", errors_of(&notes_a));
    assert!(browser.is_browsing());
    assert_eq!(reg.active_handles(), 1);

    let notes_b = browser.browse(&mut reg, "_typeb._tcp.local.".to_string());
    assert!(notes_b.is_empty(), "second browse should succeed: {:?}", errors_of(&notes_b));
    assert!(browser.is_browsing());
    assert_eq!(browser.browsed_type(), Some("_typeb._tcp.local.".to_string()));
    assert_eq!(reg.active_handles(), 1, "restart must not leak a handle");

    browser.stop_browsing(&mut reg);
    assert!(!browser.is_browsing());
    assert_eq!(browser.browsed_type(), None);
    assert_eq!(reg.active_handles(), 0);
}

#[test]
fn registry_survives_handle_release() {
    let mut reg = EngineRegistry::new();
    // Two consumers acquire the shared engine.
    let first = reg.acquire();
    if first.is_err() {
        println!("[share] SKIP — the engine cannot be created in this environment");
        return;
    }
    let second = reg.acquire();
    assert!(second.is_ok(), "acquiring from an initialized registry cannot fail");
    assert!(reg.is_initialized());
    assert_eq!(reg.active_handles(), 2);

    // One gives its handle back; the engine must survive.
    reg.release();
    assert_eq!(reg.active_handles(), 1);
    assert!(reg.is_initialized(), "releasing one handle must not tear the engine down");

    // The other consumer can still acquire and work.
    let third = reg.acquire();
    assert!(third.is_ok());
    assert_eq!(reg.active_handles(), 2);
}

#[test]
fn shared_handle_release_keeps_engine() {
    if !engine_available() {
        println!("[share] SKIP — no responsive engine in this environment");
        return;
    }
    let mut reg = EngineRegistry::new();
    let mut browser = MdnsBrowser::new();
    let mut adv = MdnsAdvertiser::new();

    let notes = browser.browse(&mut reg, "_share._tcp.local.".to_string());
    assert!(notes.is_empty(), "browse should succeed: {:?}", errors_of(&notes));
    let (ok, adv_notes) = adv.advertise(
        &mut reg,
        "share-test".to_string(),
        "_share._tcp.local.".to_string(),
        4321,
        Vec::new(),
    );
    assert!(ok, "advertise should succeed: {:?}", errors_of(&adv_notes));
    assert_eq!(reg.active_handles(), 2);

    // One session gives its shared handle back; the engine must survive.
    browser.stop_browsing(&mut reg);
    assert_eq!(reg.active_handles(), 1);
    assert!(reg.is_initialized(), "releasing one handle must not tear the engine down");

    // A subsequent operation on the other session still succeeds.
    let (ok2, notes2) = adv.advertise(
        &mut reg,
        "share-test-2".to_string(),
        "_share._tcp.local.".to_string(),
        4322,
        Vec::new(),
    );
    assert!(ok2, "advertise after the release should succeed: {:?}", errors_of(&notes2));
    assert_eq!(reg.active_handles(), 1);
    adv.stop_advertising(&mut reg);
    assert_eq!(reg.active_handles(), 0);
    assert!(reg.is_initialized());
}

#[test]
fn advertise_clamps_ports() {
    if !engine_available() {
        println!("[clamp] SKIP — no responsive engine in this environment");
        return;
    }
    let mut reg = EngineRegistry::new();
    let mut adv = MdnsAdvertiser::new();

    let (ok_low, notes_low) = adv.advertise(
        &mut reg,
        "clamp-low".to_string(),
        "_clamp._tcp.local.".to_string(),
        0,
        Vec::new(),
    );
    assert!(ok_low, "advertise with port 0 should clamp and succeed: {:?}", errors_of(&notes_low));
    adv.stop_advertising(&mut reg);

    let (ok_high, notes_high) = adv.advertise(
        &mut reg,
        "clamp-high".to_string(),
        "_clamp._tcp.local.".to_string(),
        100000,
        Vec::new(),
    );
    assert!(
        ok_high,
        "advertise with port 100000 should clamp and succeed: {:?}",
        errors_of(&notes_high)
    );
    adv.stop_advertising(&mut reg);
}

#[test]
fn invalid_interface_hint_reports_config_error() {
    let mut reg = EngineRegistry::new();
    let mut browser = MdnsBrowser::new();
    browser.set_interface("not-an-ip".to_string());
    let notes = browser.browse(&mut reg, "_hint._tcp.local.".to_string());
    assert_eq!(notes.len(), 1);
    assert!(notes[0].is_error());
    match &notes[0] {
        Notification::Error { message } => {
            assert!(message.contains("invalid IP"), "unexpected message: {message}");
        },
        _ => unreachable!(),
    }
    assert!(!browser.is_browsing());
    assert!(!reg.is_initialized(), "a rejected hint must not touch the registry");
}

#[test]
fn clearing_interface_hint_restores_shared_engine() {
    if !engine_available() {
        println!("[hint] SKIP — no responsive engine in this environment");
        return;
    }
    let mut reg = EngineRegistry::new();
    let mut browser = MdnsBrowser::new();
    browser.set_interface("not-an-ip".to_string());
    browser.set_interface("".to_string());
    let notes = browser.browse(&mut reg, "_clear._tcp.local.".to_string());
    assert!(notes.is_empty(), "browse should succeed: {:?}", errors_of(&notes));
    assert!(reg.is_initialized());
    browser.stop_browsing(&mut reg);
}

#[test]
fn pinned_interface_uses_private_engine() {
    let mut reg = EngineRegistry::new();
    let mut browser = MdnsBrowser::new();
    browser.set_interface("127.0.0.1".to_string());
    let notes = browser.browse(&mut reg, "_pin._tcp.local.".to_string());
    for n in &notes {
        assert!(n.is_error());
    }
    assert!(!reg.is_initialized(), "a pinned browse must not create the shared engine");
    assert_eq!(reg.active_handles(), 0);
    browser.stop_browsing(&mut reg);
    assert!(!browser.is_browsing());
}

#[test]
fn bad_service_type_reports_subscription_error() {
    let mut reg = EngineRegistry::new();
    let mut browser = MdnsBrowser::new();
    let notes = browser.browse(&mut reg, "no-domain-suffix".to_string());
    assert_eq!(notes.len(), 1);
    assert!(notes[0].is_error());
    assert!(!browser.is_browsing());
    assert_eq!(reg.active_handles(), 0, "a failed browse must give its handle back");
}

#[test]
fn malformed_service_type_is_rejected_not_fatal() {
    // A service type whose label before the domain suffix is empty would
    // make the engine's own validation panic; the session must refuse it
    // with an error notification instead.
    let mut reg = EngineRegistry::new();
    let mut adv = MdnsAdvertiser::new();
    let (ok, notes) = adv.advertise(
        &mut reg,
        "inst".to_string(),
        "._tcp.local.".to_string(),
        80,
        Vec::new(),
    );
    assert!(!ok);
    assert_eq!(notes.len(), 1);
    assert!(notes[0].is_error());
    assert!(!adv.is_advertising());
    assert_eq!(adv.get_registered_name(), "");
    assert_eq!(reg.active_handles(), 0);
}

#[test]
fn multibyte_service_label_is_rejected_not_fatal() {
    // A label opening with a multi-byte character would make the engine's
    // one-byte slice panic; the session must refuse it with an error.
    let mut reg = EngineRegistry::new();
    let mut adv = MdnsAdvertiser::new();
    let (ok, notes) = adv.advertise(
        &mut reg,
        "inst".to_string(),
        "é._tcp.local.".to_string(),
        80,
        Vec::new(),
    );
    assert!(!ok);
    assert_eq!(notes.len(), 1);
    assert!(notes[0].is_error());
    assert!(!adv.is_advertising());
    assert_eq!(reg.active_handles(), 0);
}

#[test]
fn bad_txt_key_reports_registration_error() {
    let mut reg = EngineRegistry::new();
    let mut adv = MdnsAdvertiser::new();
    let (ok, notes) = adv.advertise(
        &mut reg,
        "bad-txt".to_string(),
        "_badtxt._tcp.local.".to_string(),
        1234,
        pairs(&[("bad=key", "value")]),
    );
    assert!(!ok, "a TXT key holding '=' must be rejected");
    assert_eq!(notes.len(), 1);
    assert!(notes[0].is_error());
    assert!(!adv.is_advertising());
    assert_eq!(adv.get_registered_name(), "");
    assert_eq!(reg.active_handles(), 0, "a failed advertise must give its handle back");
}

#[test]
fn poll_on_idle_session_is_noop() {
    let mut browser = MdnsBrowser::new();
    let notes = browser.poll();
    assert!(notes.is_empty());
    assert!(!browser.is_browsing());
}

#[test]
fn registered_name_carries_instance_and_type() {
    if !engine_available() {
        println!("[name] SKIP — no responsive engine in this environment");
        return;
    }
    let mut reg = EngineRegistry::new();
    let mut adv = MdnsAdvertiser::new();
    let (ok, notes) = adv.advertise(
        &mut reg,
        "name-check".to_string(),
        "_namechk._tcp.local.".to_string(),
        2468,
        Vec::new(),
    );
    assert!(ok, "advertise should succeed: {:?}", errors_of(&notes));
    let name = adv.get_registered_name();
    assert!(name.contains("name-check"), "got: {name}");
    assert!(name.contains("_namechk._tcp.local."), "got: {name}");
    adv.stop_advertising(&mut reg);
    assert_eq!(adv.get_registered_name(), "");
}
