//! Trusted boundary to the underlying mDNS engine (the `mdns_sd` daemon) and
//! to the host-name collaborator.
//!
//! Every `#[verifier::external_body]` item here is believed, not proved: its
//! doc comment names the outside function relied on and for what.  Each
//! wrapper only makes the call and converts between outside values and the
//! plain values the verified sessions work on.

use vstd::prelude::*;
use crate::addr::AddrEntry;

verus! {

// ---------------------------------------------------------------------------
// Outside types
// ---------------------------------------------------------------------------

#[verifier::external_type_specification]
#[verifier::external_body]
pub struct ExServiceDaemon(mdns_sd::ServiceDaemon);

#[verifier::external_type_specification]
#[verifier::external_body]
pub struct ExServiceEvent(mdns_sd::ServiceEvent);

#[verifier::external_type_specification]
#[verifier::external_body]
pub struct ExResolvedService(mdns_sd::ResolvedService);

#[verifier::external_type_specification]
#[verifier::external_body]
pub struct ExServiceInfo(mdns_sd::ServiceInfo);

#[verifier::external_type_specification]
#[verifier::external_body]
#[verifier::reject_recursive_types(T)]
pub struct ExReceiver<T>(flume::Receiver<T>);

// ---------------------------------------------------------------------------
// Plain views of engine data
// ---------------------------------------------------------------------------

/// One event drained from a browse subscription, reduced to the variants the
/// session logic reads.
pub enum RawEvent {
    /// A service instance was fully resolved.
    Resolved(Box<mdns_sd::ResolvedService>),
    /// The service instance with this fullname disappeared from the network.
    Removed(String),
    /// Any other lifecycle event; the session logic discards these.
    Other,
}

/// What one non-blocking look at the subscription channel yields.
pub enum RawPoll {
    /// One queued event.
    Event(RawEvent),
    /// Nothing queued right now.
    Empty,
    /// The channel's sending side is gone: the subscription is broken and no
    /// further event will ever arrive on it.
    Disconnected,
}

/// A record built for the engine, paired with the full name the engine
/// derived for it and will validate at registration time.  The fields stay
/// private and only `build_service_info` constructs a value, so the name a
/// caller tests is always the name the engine will see.
pub struct PreparedInfo {
    info: mdns_sd::ServiceInfo,
    fullname: String,
}

impl PreparedInfo {
    /// The full record name the engine derived for this record.
    pub closed spec fn name(self) -> Seq<char> {
        self.fullname@
    }

    /// The full record name, for the registration guard and the session's
    /// bookkeeping.
    pub fn fullname(&self) -> (r: &String)
        ensures
            r@ == self.name(),
    {
        &self.fullname
    }
}

/// The plain values that the discovery logic reads out of a resolved service.
pub struct ResolvedParts {
    /// Full record name, e.g. "my-instance._mygame._tcp.local.".
    pub fullname: String,
    /// Host name of the machine carrying the service, e.g. "my-server.local.".
    pub hostname: String,
    /// The service's TCP or UDP port.
    pub port: u16,
    /// The resolved addresses, in the arbitrary order the engine hands them out.
    pub addresses: Vec<AddrEntry>,
    /// The TXT metadata pairs, in their insertion order.
    pub metadata: Vec<(String, String)>,
}

// ---------------------------------------------------------------------------
// Spec-level statements about the engine
// ---------------------------------------------------------------------------

/// Whether a service-type string carries the domain suffix that the engine
/// demands of every subscription: "._tcp.local." or "._udp.local.".
pub open spec fn has_service_suffix(s: Seq<char>) -> bool {
    s.len() >= 12 && {
        let tail = s.subrange(s.len() - 12, s.len() as int);
        tail == "._tcp.local."@ || tail == "._udp.local."@
    }
}

/// The full record name the engine derives from an instance name and a
/// service type (instance-name escaping included); a function of the two
/// strings alone.
pub uninterp spec fn engine_fullname(instance: Seq<char>, service_type: Seq<char>) -> Seq<char>;

/// An instance name that the engine's escaping leaves unchanged: it holds
/// neither '.' nor '\' (the two characters the engine escapes).
pub open spec fn plain_instance_text(s: Seq<char>) -> bool {
    forall|i: int| 0 <= i < s.len() ==> s[i] != '.' && s[i] != '\\'
}

/// Whether a service type carries a subtype separator ("._sub."), which the
/// engine splits off when it derives the full record name.
pub open spec fn contains_sub_label(s: Seq<char>) -> bool {
    exists|i: int| 0 <= i && i + 6 <= s.len() && #[trigger] s.subrange(i, i + 6) == "._sub."@
}

/// The part of a string after its last '.': the whole string when it holds
/// no '.', the empty sequence when it ends in one.
pub open spec fn tail_after_last_dot(p: Seq<char>) -> Seq<char>
    decreases p.len(),
{
    if p.len() == 0 {
        p
    } else if p.last() == '.' {
        Seq::<char>::empty()
    } else {
        tail_after_last_dot(p.drop_last()).push(p.last())
    }
}

/// A full record name on which the engine's registration-time validation is
/// total.  The engine slices one byte off the label standing before the
/// domain suffix, which panics when that label is empty or opens with a
/// multi-byte character; a name without the domain suffix is refused before
/// that point and is therefore safe too.
pub open spec fn safe_register_fullname(s: Seq<char>) -> bool {
    has_service_suffix(s) ==> {
        let label = tail_after_last_dot(s.subrange(0, s.len() - 12));
        label.len() > 0 && (label[0] as u32) < 128
    }
}

/// Whether a string is a textual IPv4 or IPv6 address; a function of the
/// characters alone.
pub uninterp spec fn is_ip_text(s: Seq<char>) -> bool;

// ---------------------------------------------------------------------------
// Trusted wrappers
// ---------------------------------------------------------------------------

/// Relies on mdns_sd::ServiceDaemon::new: creates a fresh engine instance —
/// socket and background worker — bound to the well-known mDNS port across
/// all interfaces; on failure hands back the engine's description of it.
#[verifier::external_body]
pub(crate) fn daemon_new() -> Result<mdns_sd::ServiceDaemon, String> {
    mdns_sd::ServiceDaemon::new().map_err(|e| e.to_string())
}

/// Relies on the derived Clone of mdns_sd::ServiceDaemon: a new cheap handle
/// to the same engine instance (the daemon is internally reference-counted;
/// cloning duplicates neither socket nor worker).
#[verifier::external_body]
pub(crate) fn daemon_clone(d: &mdns_sd::ServiceDaemon) -> mdns_sd::ServiceDaemon {
    d.clone()
}

/// Relies on mdns_sd::ServiceDaemon::browse: subscribes to a service type and
/// returns the subscription's event channel.  The engine refuses a service
/// type without the demanded domain suffix.
#[verifier::external_body]
pub(crate) fn daemon_browse(d: &mdns_sd::ServiceDaemon, service_type: &str) -> (r: Result<
    flume::Receiver<mdns_sd::ServiceEvent>,
    String,
>)
    ensures
        !has_service_suffix(service_type@) ==> r is Err,
{
    d.browse(service_type).map_err(|e| e.to_string())
}

/// Relies on mdns_sd::ServiceDaemon::stop_browse: asks the engine to stop
/// sending queries and queueing events for the service type.
#[verifier::external_body]
pub(crate) fn daemon_stop_browse(d: &mdns_sd::ServiceDaemon, service_type: &str) -> Result<
    (),
    String,
> {
    d.stop_browse(service_type).map_err(|e| e.to_string())
}

/// Relies on mdns_sd::ServiceDaemon::register: asks the engine to announce
/// the record; the engine refuses a malformed fullname or hostname.  Its
/// validation slices one byte off the label before the record's own full
/// name's domain suffix and panics when that label is empty or opens with a
/// multi-byte character; the requires keeps those records out, and it
/// constrains the name the engine will actually validate, since a
/// `PreparedInfo` pairs the record with its own name.
#[verifier::external_body]
pub(crate) fn daemon_register(d: &mdns_sd::ServiceDaemon, rec: PreparedInfo) -> Result<
    (),
    String,
>
    requires
        safe_register_fullname(rec.name()),
{
    d.register(rec.info).map_err(|e| e.to_string())
}

/// Relies on mdns_sd::ServiceDaemon::unregister: asks the engine to withdraw
/// the record with the given fullname.  The confirmation channel is dropped:
/// teardown is best-effort.
#[verifier::external_body]
pub(crate) fn daemon_unregister(d: &mdns_sd::ServiceDaemon, fullname: &str) -> Result<(), String> {
    d.unregister(fullname).map(|_| ()).map_err(|e| e.to_string())
}

/// Relies on mdns_sd::ServiceDaemon::shutdown: asks the engine to stop its
/// background worker and close its sockets.  The status channel is dropped:
/// teardown is best-effort.
#[verifier::external_body]
pub(crate) fn daemon_shutdown(d: &mdns_sd::ServiceDaemon) -> Result<(), String> {
    d.shutdown().map(|_| ()).map_err(|e| e.to_string())
}

/// Relies on mdns_sd::ServiceDaemon::disable_interface with IfKind::All: asks
/// the engine to stop using every interface.
#[verifier::external_body]
pub(crate) fn daemon_disable_all(d: &mdns_sd::ServiceDaemon) -> Result<(), String> {
    d.disable_interface(mdns_sd::IfKind::All).map_err(|e| e.to_string())
}

/// Relies on mdns_sd::ServiceDaemon::enable_interface with IfKind::Addr: asks
/// the engine to use only the interface carrying the given address.  The text
/// is converted through core::net::IpAddr's FromStr; a text that is no
/// address literal is refused here without reaching the engine.
#[verifier::external_body]
pub(crate) fn daemon_enable_addr(d: &mdns_sd::ServiceDaemon, addr_text: &str) -> (r: Result<
    (),
    String,
>)
    ensures
        !is_ip_text(addr_text@) ==> r is Err,
{
    match addr_text.parse::<core::net::IpAddr>() {
        Ok(ip) => d.enable_interface(mdns_sd::IfKind::Addr(ip)).map_err(|e| e.to_string()),
        Err(e) => Err(e.to_string()),
    }
}

/// Relies on flume::Receiver::try_recv (the subscription's event channel):
/// hands back one queued event without blocking, and tells an empty channel
/// apart from a disconnected one.  The event's variants are told apart,
/// fields moved; the three informational lifecycle variants all map to
/// Other.
#[verifier::external_body]
pub(crate) fn try_recv_raw(rx: &flume::Receiver<mdns_sd::ServiceEvent>) -> RawPoll {
    match rx.try_recv() {
        Ok(mdns_sd::ServiceEvent::ServiceResolved(info)) => RawPoll::Event(RawEvent::Resolved(info)),
        Ok(mdns_sd::ServiceEvent::ServiceRemoved(_, fullname)) => RawPoll::Event(
            RawEvent::Removed(fullname),
        ),
        Ok(_) => RawPoll::Event(RawEvent::Other),
        Err(flume::TryRecvError::Empty) => RawPoll::Empty,
        Err(flume::TryRecvError::Disconnected) => RawPoll::Disconnected,
    }
}

/// Relies on the public fields of mdns_sd::ResolvedService; each is moved or
/// converted to a plain value.  The addresses come out of a HashSet, so their
/// order is arbitrary; the TXT properties keep their insertion order.
#[verifier::external_body]
pub(crate) fn resolved_parts(info: Box<mdns_sd::ResolvedService>) -> ResolvedParts {
    ResolvedParts {
        fullname: info.fullname.clone(),
        hostname: info.host.clone(),
        port: info.port,
        addresses: info.addresses.iter().map(
            |a| AddrEntry::new(a.is_ipv4(), a.to_ip_addr().to_string()),
        ).collect(),
        metadata: info.txt_properties.iter().map(
            |p| (p.key().to_string(), p.val_str().to_string()),
        ).collect(),
    }
}

/// Relies on mdns_sd::ServiceInfo::new and its enable_addr_auto builder:
/// builds the record the engine will announce, with address auto-fill
/// switched on so the engine fills and updates the record's addresses from
/// the host's interfaces, and reads back the full record name the engine
/// derived.  That name is the escaped instance name, a dot, and the service
/// type with any subtype prefix split off — so it always holds the dot, and
/// it is the plain concatenation whenever the escaping and the split change
/// nothing.
#[verifier::external_body]
pub(crate) fn build_service_info(
    service_type: &str,
    instance_name: &str,
    host_name: &str,
    port: u16,
    metadata: &Vec<(String, String)>,
) -> (r: Result<PreparedInfo, String>)
    ensures
        r matches Ok(rec) ==> rec.name() == engine_fullname(instance_name@, service_type@),
        r matches Ok(rec) ==> rec.name().len() > 0,
        r matches Ok(rec) ==> ((plain_instance_text(instance_name@) && !contains_sub_label(
            service_type@,
        )) ==> rec.name() == instance_name@ + "."@ + service_type@),
{
    let props: Vec<(&str, &str)> = metadata.iter().map(|(k, v)| (k.as_str(), v.as_str())).collect();
    match mdns_sd::ServiceInfo::new(service_type, instance_name, host_name, "", port, &props[..]) {
        Ok(info) => {
            let info = info.enable_addr_auto();
            let fullname = info.get_fullname().to_string();
            Ok(PreparedInfo { info, fullname })
        },
        Err(e) => Err(e.to_string()),
    }
}

/// Relies on hostname::get: the machine's hostname, when the OS gives one
/// that is valid Unicode.  The result depends on the machine, so nothing is
/// promised of it.
#[verifier::external_body]
pub(crate) fn os_hostname() -> Option<String> {
    hostname::get().ok().and_then(|h| h.into_string().ok())
}

/// Relies on core::net::IpAddr's FromStr implementation: accepts exactly the
/// textual IPv4 and IPv6 address literals.  The result depends on the
/// characters alone.
#[verifier::external_body]
pub(crate) fn is_ip_literal(s: &str) -> (r: bool)
    ensures
        r == is_ip_text(s@),
{
    s.parse::<core::net::IpAddr>().is_ok()
}

} // verus!
