//! Holder of the default engine instance.
//!
//! A second engine bound to the same multicast port makes the OS deliver
//! inbound packets to only one of the two, so discovery turns silently
//! one-directional.  The registry therefore owns the creation of at most one
//! default engine and hands out cheap cloned handles to every session that
//! does not need a pinned interface.  The process-wide plumbing (one registry
//! behind a mutual-exclusion lock) stands outside this crate; exclusive
//! access here is expressed by `&mut`.

use vstd::prelude::*;
use crate::engine::daemon_clone;
use crate::engine::daemon_new;

verus! {

/// Counts one handle released: the count drops by one, never below zero.
pub open spec fn dec_if(count: u64, held: bool) -> u64 {
    if held && count > 0 {
        (count - 1) as u64
    } else {
        count
    }
}

/// The holder of the default engine: at most one engine instance, and the
/// number of handles to it handed out and not yet given back.
pub struct EngineRegistry {
    engine: Option<mdns_sd::ServiceDaemon>,
    handles: u64,
}

impl EngineRegistry {
    /// Whether the default engine instance exists.
    pub closed spec fn initialized(self) -> bool {
        self.engine is Some
    }

    /// How many handles to the default engine are outstanding.
    pub closed spec fn handle_count(self) -> u64 {
        self.handles
    }

    /// An empty registry: no engine yet, none created until first asked for.
    pub fn new() -> (r: EngineRegistry)
        ensures
            !r.initialized(),
            r.handle_count() == 0,
    {
        EngineRegistry { engine: None, handles: 0 }
    }

    /// Hands out a handle to the default engine, creating the engine on first
    /// call.  Once the engine exists, acquiring never fails: the handle is a
    /// cheap clone.  When creation fails, the registry stays empty, so the
    /// next call tries again.
    pub fn acquire(&mut self) -> (r: Result<mdns_sd::ServiceDaemon, String>)
        requires
            old(self).handle_count() < u64::MAX,
        ensures
            old(self).initialized() ==> r is Ok,
            r is Ok ==> final(self).initialized() && final(self).handle_count() == old(
                self,
            ).handle_count() + 1,
            r is Err ==> *final(self) == *old(self) && !old(self).initialized(),
    {
        match &self.engine {
            Some(d) => {
                let handle = daemon_clone(d);
                self.handles = self.handles + 1;
                Ok(handle)
            },
            None => {
                match daemon_new() {
                    Ok(d) => {
                        let handle = daemon_clone(&d);
                        self.engine = Some(d);
                        self.handles = self.handles + 1;
                        Ok(handle)
                    },
                    Err(e) => Err(e),
                }
            },
        }
    }

    /// Takes back one handle.  The engine itself survives: releasing a shared
    /// handle never shuts the default engine down, however many handles
    /// remain.
    pub fn release(&mut self)
        ensures
            final(self).initialized() == old(self).initialized(),
            final(self).handle_count() == dec_if(old(self).handle_count(), true),
    {
        if self.handles > 0 {
            self.handles = self.handles - 1;
        }
    }

    /// Whether the default engine instance exists yet.
    pub fn is_initialized(&self) -> (r: bool)
        ensures
            r == self.initialized(),
    {
        self.engine.is_some()
    }

    /// How many handles to the default engine are outstanding.
    pub fn active_handles(&self) -> (r: u64)
        ensures
            r == self.handle_count(),
    {
        self.handles
    }
}

} // verus!
