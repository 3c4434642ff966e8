//! Session-lifecycle layer for multicast DNS (mDNS) service discovery and
//! advertisement on a local network.
//!
//! The underlying protocol engine (the `mdns-sd` daemon) owns the multicast
//! socket and a background worker.  This crate supplies the ownership, sharing
//! and session-lifecycle layer built on top of it:
//!
//! - [`registry::EngineRegistry`] — holder of at most one default engine
//!   instance, handing out counted shared handles;
//! - [`browse::MdnsBrowser`] — one per discovery consumer; subscribes to a
//!   service type and drains discovery events on an external polling tick;
//! - [`advertise::MdnsAdvertiser`] — one per advertised service; builds a
//!   service record, registers it and unregisters it on teardown.
//!
//! A second engine bound to the same multicast port would make the OS deliver
//! inbound packets to only one of the two, so discovery would turn silently
//! one-directional; the registry's single shared instance removes that race.
//! A session that must pin one network interface (a mobile Wi-Fi stack whose
//! all-interface binding silently drops multicast) instead owns a private
//! engine outright, since interface enablement is a global mutation on an
//! engine instance.

pub mod addr;
pub mod advertise;
pub mod browse;
pub mod engine;
pub mod notify;
pub mod record;
pub mod registry;

pub use addr::AddrEntry;
pub use addr::sort_v4_first;
pub use advertise::MdnsAdvertiser;
pub use browse::MdnsBrowser;
pub use notify::Notification;
pub use record::ServiceRecord;
pub use record::clamp_port;
pub use registry::EngineRegistry;
