//! The Advertise Session: one per advertised service.
//!
//! A session moves between `Unregistered` and `Registered`.  Advertising
//! obtains a handle to the shared default engine, builds a fresh service
//! record — the caller's port clamped into the valid range, the machine's
//! hostname suffixed with ".local.", the caller's metadata in its given
//! order — registers it, and keeps the engine-derived full record name.
//! Unregistering withdraws the record best-effort and gives the handle back;
//! the shared engine survives the release.

use vstd::prelude::*;
use crate::engine::build_service_info;
use crate::engine::contains_sub_label;
use crate::engine::daemon_register;
use crate::engine::daemon_unregister;
use crate::engine::engine_fullname;
use crate::engine::plain_instance_text;
use crate::engine::safe_register_fullname;
use crate::notify::Notification;
use crate::notify::error_note;
use crate::record::ServiceRecord;
use crate::record::local_host_name;
use crate::record::registrable_fullname;
use crate::registry::EngineRegistry;
use crate::registry::dec_if;

verus! {

/// An Advertise Session: an engine handle and the full record name of the
/// live registration, both present exactly while `Registered`.
pub struct MdnsAdvertiser {
    daemon: Option<mdns_sd::ServiceDaemon>,
    fullname: Option<String>,
}

impl MdnsAdvertiser {
    /// Whether the session is `Registered`: it holds an engine handle for a
    /// live registration.
    pub closed spec fn advertising(self) -> bool {
        self.daemon is Some
    }

    /// Whether the session is `Unregistered`: no registration, no handle.
    pub closed spec fn unregistered(self) -> bool {
        self.daemon is None && self.fullname is None
    }

    /// The full record name of the live registration; the empty sequence
    /// while `Unregistered`.
    pub closed spec fn registered_name(self) -> Seq<char> {
        match self.fullname {
            Some(n) => n@,
            None => Seq::<char>::empty(),
        }
    }

    /// A fresh session: `Unregistered`.
    pub fn new() -> (r: MdnsAdvertiser)
        ensures
            r.unregistered(),
            !r.advertising(),
            r.registered_name() == Seq::<char>::empty(),
    {
        MdnsAdvertiser { daemon: None, fullname: None }
    }

    /// Whether the service is currently being advertised.
    pub fn is_advertising(&self) -> (r: bool)
        ensures
            r == self.advertising(),
    {
        self.daemon.is_some()
    }

    /// The full record name that was registered, or an empty string.
    pub fn get_registered_name(&self) -> (r: String)
        ensures
            r@ == self.registered_name(),
    {
        match &self.fullname {
            Some(n) => n.clone(),
            None => String::new(),
        }
    }

    /// Withdraws the live registration by its full record name and gives the
    /// engine handle back; the shared engine survives the release.  On an
    /// `Unregistered` session this is a no-op: unregistering is idempotent.
    /// Teardown is best-effort; failures on this path are swallowed, since
    /// the handle may already be torn down and the session leaves
    /// `Registered` either way.
    pub fn stop_advertising(&mut self, reg: &mut EngineRegistry)
        ensures
            final(self).unregistered(),
            !final(self).advertising(),
            final(self).registered_name() == Seq::<char>::empty(),
            final(reg).initialized() == old(reg).initialized(),
            final(reg).handle_count() == dec_if(old(reg).handle_count(), old(self).advertising()),
            old(self).unregistered() ==> *final(self) == *old(self) && *final(reg) == *old(reg),
    {
        match (&self.daemon, &self.fullname) {
            (Some(d), Some(name)) => {
                let _ = daemon_unregister(d, name.as_str());
            },
            _ => {},
        }
        self.fullname = None;
        match &self.daemon {
            Some(_) => {
                reg.release();
            },
            None => {},
        }
        self.daemon = None;
    }

    /// Registers a service, stopping any previous registration first (so one
    /// session never holds two).  The port is clamped into [1, 65535]; the
    /// record is built under the machine's ".local." hostname with the given
    /// metadata pairs in their given order.  On success the session is
    /// `Registered` under the engine-derived full record name and the call
    /// returns true; every failure is reported as an error notification, and
    /// leaves the session `Unregistered` with the call returning false.
    pub fn advertise(
        &mut self,
        reg: &mut EngineRegistry,
        instance_name: String,
        service_type: String,
        port: i64,
        txt_records: Vec<(String, String)>,
    ) -> (r: (bool, Vec<Notification>))
        requires
            old(reg).handle_count() < u64::MAX,
        ensures
            r.0 == final(self).advertising(),
            r.0 ==> final(self).registered_name() == engine_fullname(
                instance_name@,
                service_type@,
            ),
            r.0 ==> final(self).registered_name().len() > 0,
            r.0 && plain_instance_text(instance_name@) && !contains_sub_label(service_type@)
                ==> final(self).registered_name() == instance_name@ + "."@ + service_type@,
            !r.0 ==> final(self).unregistered(),
            !r.0 ==> final(self).registered_name() == Seq::<char>::empty(),
            !safe_register_fullname(engine_fullname(instance_name@, service_type@)) ==> !r.0,
            old(reg).initialized() ==> final(reg).initialized(),
            final(self).advertising() ==> final(reg).initialized(),
            final(reg).handle_count() == dec_if(old(reg).handle_count(), old(self).advertising())
                + if final(self).advertising() {
                1int
            } else {
                0int
            },
            forall|i: int| 0 <= i < r.1@.len() ==> r.1@[i] is Error,
            r.0 <==> r.1@.len() == 0,
    {
        let mut notes: Vec<Notification> = Vec::new();
        self.stop_advertising(reg);

        match reg.acquire() {
            Err(e) => {
                notes.push(error_note("Failed to create shared mDNS daemon: ", e.as_str()));
                return (false, notes);
            },
            Ok(d) => {
                let record = ServiceRecord::new(
                    instance_name,
                    service_type,
                    local_host_name(),
                    port,
                    txt_records,
                );
                match build_service_info(
                    record.get_service_type().as_str(),
                    record.get_instance_name().as_str(),
                    record.get_hostname().as_str(),
                    record.get_port(),
                    record.get_metadata(),
                ) {
                    Err(e) => {
                        reg.release();
                        notes.push(error_note("Failed to build ServiceInfo: ", e.as_str()));
                        return (false, notes);
                    },
                    Ok(rec) => {
                        if !registrable_fullname(rec.fullname().as_str()) {
                            reg.release();
                            notes.push(
                                error_note(
                                    "Failed to register mDNS service: ",
                                    "the name label before the domain suffix is empty or does not start with an ASCII character",
                                ),
                            );
                            return (false, notes);
                        }
                        let fullname = rec.fullname().clone();
                        match daemon_register(&d, rec) {
                            Err(e) => {
                                reg.release();
                                notes.push(
                                    error_note("Failed to register mDNS service: ", e.as_str()),
                                );
                                return (false, notes);
                            },
                            Ok(_) => {
                                self.fullname = Some(fullname);
                                self.daemon = Some(d);
                                (true, notes)
                            },
                        }
                    },
                }
            },
        }
    }
}

/// An `Unregistered` session advertises nothing and carries no record name.
pub proof fn lemma_unregistered_state(s: MdnsAdvertiser)
    requires
        s.unregistered(),
    ensures
        !s.advertising(),
        s.registered_name() == Seq::<char>::empty(),
{
}

} // verus!
