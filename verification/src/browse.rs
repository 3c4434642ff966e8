//! The Browse Session: one per discovery consumer.
//!
//! A session moves between `Idle` and `Browsing`.  Starting a browse chooses
//! an engine — the shared default engine from the registry, or a private
//! instance pinned to one interface when a hint was set — and subscribes to
//! one service type.  An external scheduler then calls `poll` on a regular
//! tick; the session drains every queued event without blocking, normalizes
//! addresses and metadata, and hands back discovery and removal
//! notifications.  Stopping cancels the subscription and gives the engine
//! handle back; a shared handle's release never shuts the engine down, a
//! private engine is shut down outright.

use vstd::prelude::*;
use vstd::string::StringExecFns;
use crate::addr::sort_v4_first;
use crate::addr::v4_first;
use crate::engine::RawEvent;
use crate::engine::RawPoll;
use crate::engine::ResolvedParts;
use crate::engine::daemon_browse;
use crate::engine::daemon_disable_all;
use crate::engine::daemon_enable_addr;
use crate::engine::daemon_new;
use crate::engine::daemon_shutdown;
use crate::engine::daemon_stop_browse;
use crate::engine::has_service_suffix;
use crate::engine::is_ip_literal;
use crate::engine::is_ip_text;
use crate::engine::resolved_parts;
use crate::engine::try_recv_raw;
use crate::notify::Notification;
use crate::notify::addresses_ordered;
use crate::notify::error_note;
use crate::registry::EngineRegistry;
use crate::registry::dec_if;

verus! {

/// How many events one poll drains at most.  The engine's browse channel
/// buffers at most 10 events, so this budget always reaches the channel's
/// end.
pub const DRAIN_BUDGET: usize = 64;

/// Builds the discovery notification for one resolved service: the five
/// fields the consumer gets, with the addresses brought into family order.
pub fn discovery_from_parts(parts: ResolvedParts) -> (n: Notification)
    ensures
        n matches Notification::Discovered { name, host, addresses, port, metadata }
            && name@ == parts.fullname@
            && host@ == parts.hostname@
            && port == parts.port
            && addresses@ == v4_first(parts.addresses@)
            && metadata@ == parts.metadata@,
{
    Notification::Discovered {
        name: parts.fullname,
        host: parts.hostname,
        addresses: sort_v4_first(parts.addresses),
        port: parts.port,
        metadata: parts.metadata,
    }
}

/// Maps one drained engine event to the notification it is reported as: a
/// resolution becomes a discovery, a removal keeps its fullname, and the
/// informational lifecycle events are discarded silently.
fn note_of_event(ev: RawEvent) -> (r: Option<Notification>)
    ensures
        match r {
            Some(n) => addresses_ordered(n) && !(n is Error),
            None => true,
        },
        ev matches RawEvent::Removed(name) ==> r == Some(Notification::Removed { name }),
        ev is Other ==> r is None,
        ev is Resolved ==> (r matches Some(n) && n is Discovered),
{
    match ev {
        RawEvent::Resolved(info) => Some(discovery_from_parts(resolved_parts(info))),
        RawEvent::Removed(name) => Some(Notification::Removed { name }),
        RawEvent::Other => None,
    }
}

/// A Browse Session: an engine handle, an event-channel subscription for one
/// service type, and an optional interface pin hint for the next start.
pub struct MdnsBrowser {
    daemon: Option<mdns_sd::ServiceDaemon>,
    receiver: Option<flume::Receiver<mdns_sd::ServiceEvent>>,
    service_type: Option<String>,
    iface_hint: Option<String>,
    private_engine: bool,
    channel_down: bool,
}

impl MdnsBrowser {
    /// Whether the session is `Browsing`: it holds a live subscription.
    pub closed spec fn browsing(self) -> bool {
        self.receiver is Some
    }

    /// Whether the session holds an engine handle.
    pub closed spec fn engine_held(self) -> bool {
        self.daemon is Some
    }

    /// Whether the subscription's event channel was found disconnected, and
    /// the one error notification for it has been emitted.
    pub closed spec fn subscription_broken(self) -> bool {
        self.channel_down
    }

    /// Whether the session is `Idle`: no subscription, no engine handle, no
    /// broken channel left behind.
    pub closed spec fn idle(self) -> bool {
        &&& self.receiver is None
        &&& self.daemon is None
        &&& self.service_type is None
        &&& !self.private_engine
        &&& !self.channel_down
    }

    /// Whether the session holds a handle to the shared default engine (as
    /// opposed to holding none, or owning a private pinned engine).
    pub closed spec fn holds_shared(self) -> bool {
        self.daemon is Some && !self.private_engine
    }

    /// The interface pin hint that the next start will use.
    pub closed spec fn spec_hint(self) -> Option<Seq<char>> {
        match self.iface_hint {
            Some(h) => Some(h@),
            None => None,
        }
    }

    /// The service type of the live subscription, when there is one.
    pub closed spec fn subscribed(self) -> Option<Seq<char>> {
        match self.service_type {
            Some(t) => Some(t@),
            None => None,
        }
    }

    /// A fresh session: `Idle`, with no interface hint.
    pub fn new() -> (r: MdnsBrowser)
        ensures
            r.idle(),
            !r.browsing(),
            !r.engine_held(),
            !r.subscription_broken(),
            r.spec_hint() is None,
            r.subscribed() is None,
            !r.holds_shared(),
    {
        MdnsBrowser {
            daemon: None,
            receiver: None,
            service_type: None,
            iface_hint: None,
            private_engine: false,
            channel_down: false,
        }
    }

    /// Stores an interface address to pin the engine to on the next start, or
    /// clears a stored one when given the empty string.  An already-active
    /// browse is unaffected.
    pub fn set_interface(&mut self, iface_ip: String)
        ensures
            final(self).spec_hint() == if iface_ip@.len() == 0 {
                Option::<Seq<char>>::None
            } else {
                Some(iface_ip@)
            },
            final(self).browsing() == old(self).browsing(),
            final(self).subscribed() == old(self).subscribed(),
            final(self).engine_held() == old(self).engine_held(),
            final(self).holds_shared() == old(self).holds_shared(),
            final(self).subscription_broken() == old(self).subscription_broken(),
    {
        if iface_ip.as_str().is_empty() {
            self.iface_hint = None;
        } else {
            self.iface_hint = Some(iface_ip);
        }
    }

    /// Whether a browse is currently active.
    pub fn is_browsing(&self) -> (r: bool)
        ensures
            r == self.browsing(),
    {
        self.receiver.is_some()
    }

    /// The service type currently browsed, when the session is `Browsing`.
    pub fn browsed_type(&self) -> (r: Option<String>)
        ensures
            match r {
                Some(t) => self.subscribed() == Some(t@),
                None => self.subscribed() is None,
            },
    {
        match &self.service_type {
            Some(t) => Some(t.clone()),
            None => None,
        }
    }

    /// Stops an active browse: cancels the subscription on the engine, then
    /// gives the engine handle back — the shared engine survives its release,
    /// a private pinned engine is shut down.  On an `Idle` session this is a
    /// no-op: stopping is idempotent.  Teardown is best-effort; failures on
    /// this path are swallowed, since the session leaves `Browsing` either
    /// way.
    pub fn stop_browsing(&mut self, reg: &mut EngineRegistry)
        ensures
            final(self).idle(),
            !final(self).browsing(),
            !final(self).engine_held(),
            !final(self).subscription_broken(),
            final(self).subscribed() is None,
            final(self).spec_hint() == old(self).spec_hint(),
            final(reg).initialized() == old(reg).initialized(),
            final(reg).handle_count() == dec_if(
                old(reg).handle_count(),
                old(self).holds_shared(),
            ),
            old(self).idle() ==> *final(self) == *old(self) && *final(reg) == *old(reg),
    {
        match (&self.daemon, &self.service_type) {
            (Some(d), Some(t)) => {
                let _ = daemon_stop_browse(d, t.as_str());
            },
            _ => {},
        }
        self.receiver = None;
        self.service_type = None;
        match &self.daemon {
            Some(d) => {
                if self.private_engine {
                    let _ = daemon_shutdown(d);
                } else {
                    reg.release();
                }
            },
            None => {},
        }
        self.daemon = None;
        self.private_engine = false;
        self.channel_down = false;
    }

    /// Starts browsing for `service_type`, stopping any previous browse first
    /// (so one session never holds two subscriptions).  With no hint set, the
    /// engine is the shared default one out of `reg`; with a hint set, a
    /// private engine is created and pinned to the hinted interface, and
    /// trouble while pinning is reported but does not abort the start.  Every
    /// failure is reported as an error notification and leaves the session
    /// `Idle`.
    pub fn browse(&mut self, reg: &mut EngineRegistry, service_type: String) -> (notes: Vec<
        Notification,
    >)
        requires
            old(reg).handle_count() < u64::MAX,
        ensures
            final(self).spec_hint() == old(self).spec_hint(),
            final(self).browsing() ==> final(self).subscribed() == Some(service_type@),
            final(self).browsing() ==> has_service_suffix(service_type@),
            final(self).browsing() ==> final(self).engine_held(),
            !final(self).browsing() ==> final(self).idle(),
            !final(self).subscription_broken(),
            old(self).spec_hint() is None && final(self).browsing()
                ==> final(self).holds_shared(),
            old(self).spec_hint() is Some ==> final(reg).initialized() == old(reg).initialized(),
            old(reg).initialized() ==> final(reg).initialized(),
            final(self).holds_shared() ==> final(reg).initialized(),
            final(reg).handle_count() == dec_if(old(reg).handle_count(), old(self).holds_shared())
                + if final(self).holds_shared() {
                1int
            } else {
                0int
            },
            forall|i: int| 0 <= i < notes@.len() ==> notes@[i] is Error,
            old(self).spec_hint() is None ==> (final(self).browsing() <==> notes@.len() == 0),
            !final(self).browsing() ==> notes@.len() >= 1,
            old(self).spec_hint() matches Some(h) && !is_ip_text(h) ==> final(self).idle()
                && notes@.len() == 1,
            old(self).spec_hint() is Some ==> !final(self).holds_shared(),
    {
        let mut notes: Vec<Notification> = Vec::new();
        self.stop_browsing(reg);

        let hint = match &self.iface_hint {
            Some(h) => Some(h.clone()),
            None => None,
        };
        match hint {
            Some(h) => {
                // A pinned interface demands a private engine: disabling and
                // re-enabling interfaces on the shared one would corrupt any
                // concurrently running advertiser.
                if !is_ip_literal(h.as_str()) {
                    notes.push(
                        error_note("set_interface: invalid IP '", h.clone().concat("'").as_str()),
                    );
                    return notes;
                }
                match daemon_new() {
                    Err(e) => {
                        notes.push(error_note("Failed to create mDNS daemon: ", e.as_str()));
                        return notes;
                    },
                    Ok(d) => {
                        match daemon_disable_all(&d) {
                            Err(e) => {
                                notes.push(
                                    error_note("disable_interface(All) failed: ", e.as_str()),
                                );
                            },
                            Ok(_) => {},
                        }
                        match daemon_enable_addr(&d, h.as_str()) {
                            Err(e) => {
                                notes.push(error_note("enable_interface failed: ", e.as_str()));
                            },
                            Ok(_) => {},
                        }
                        match daemon_browse(&d, service_type.as_str()) {
                            Err(e) => {
                                let _ = daemon_shutdown(&d);
                                notes.push(
                                    error_note("Failed to start mDNS browse: ", e.as_str()),
                                );
                                return notes;
                            },
                            Ok(rx) => {
                                self.daemon = Some(d);
                                self.receiver = Some(rx);
                                self.service_type = Some(service_type);
                                self.private_engine = true;
                            },
                        }
                    },
                }
            },
            None => {
                match reg.acquire() {
                    Err(e) => {
                        notes.push(
                            error_note("Failed to create shared mDNS daemon: ", e.as_str()),
                        );
                        return notes;
                    },
                    Ok(d) => {
                        match daemon_browse(&d, service_type.as_str()) {
                            Err(e) => {
                                reg.release();
                                notes.push(
                                    error_note("Failed to start mDNS browse: ", e.as_str()),
                                );
                                return notes;
                            },
                            Ok(rx) => {
                                self.daemon = Some(d);
                                self.receiver = Some(rx);
                                self.service_type = Some(service_type);
                                self.private_engine = false;
                            },
                        }
                    },
                }
            },
        }
        notes
    }

    /// Drains every currently queued event of the subscription without
    /// blocking, and hands back the discovery and removal notifications they
    /// map to.  Safe to call at any rate; on an `Idle` session it is a
    /// no-op.  A subscription whose event channel turns out disconnected is
    /// surfaced as one error notification, on the poll that finds it; later
    /// polls of the broken subscription stay silent until it is stopped or
    /// restarted.
    pub fn poll(&mut self) -> (notes: Vec<Notification>)
        ensures
            final(self).browsing() == old(self).browsing(),
            final(self).subscribed() == old(self).subscribed(),
            final(self).spec_hint() == old(self).spec_hint(),
            final(self).engine_held() == old(self).engine_held(),
            final(self).holds_shared() == old(self).holds_shared(),
            !old(self).browsing() ==> *final(self) == *old(self) && notes@.len() == 0,
            old(self).subscription_broken() ==> *final(self) == *old(self) && notes@.len() == 0,
            !final(self).subscription_broken() ==> *final(self) == *old(self),
            forall|i: int|
                #![trigger notes@[i]]
                0 <= i < notes@.len() ==> addresses_ordered(notes@[i]),
            forall|i: int|
                #![trigger notes@[i]]
                0 <= i < notes@.len() && notes@[i] is Error ==> !old(self).subscription_broken()
                    && final(self).subscription_broken() && i + 1 == notes@.len(),
    {
        let mut notes: Vec<Notification> = Vec::new();
        if self.channel_down {
            return notes;
        }
        let mut lost = false;
        match &self.receiver {
            None => {},
            Some(rx) => {
                // The engine buffers at most 10 events per subscription (its
                // browse channel is bounded), so this drain budget always
                // empties the channel; an event arriving mid-drain waits for
                // the next tick.
                let mut budget: usize = DRAIN_BUDGET;
                while budget > 0
                    invariant
                        forall|i: int|
                            #![trigger notes@[i]]
                            0 <= i < notes@.len() ==> addresses_ordered(notes@[i]) && !(notes@[i]
                                is Error),
                    decreases budget,
                {
                    budget = budget - 1;
                    match try_recv_raw(rx) {
                        RawPoll::Empty => { break; },
                        RawPoll::Disconnected => {
                            lost = true;
                            break;
                        },
                        RawPoll::Event(ev) => {
                            match note_of_event(ev) {
                                Some(n) => {
                                    notes.push(n);
                                },
                                None => {},
                            }
                        },
                    }
                }
            },
        }
        if lost {
            self.channel_down = true;
            notes.push(
                error_note("mDNS browse subscription lost: ", "the event channel is disconnected"),
            );
        }
        notes
    }
}

/// An `Idle` session is inactive in every respect: no subscription, no
/// engine handle of either kind, no broken channel left behind.
pub proof fn lemma_idle_state(s: MdnsBrowser)
    requires
        s.idle(),
    ensures
        !s.browsing(),
        !s.engine_held(),
        !s.holds_shared(),
        s.subscribed() is None,
        !s.subscription_broken(),
{
}

/// A session holding the shared engine holds an engine handle.
pub proof fn lemma_holds_shared_is_held(s: MdnsBrowser)
    requires
        s.holds_shared(),
    ensures
        s.engine_held(),
{
}

} // verus!
