//! Notifications that sessions emit to their external consumer.
//!
//! A session never crashes or silently drops a failure: every outcome that
//! the consumer must learn of becomes one of these values, handed back from
//! the session call that produced it.

use vstd::prelude::*;
use vstd::string::StringExecFns;
use crate::addr::AddrEntry;
use crate::addr::family_ordered;

verus! {

/// One notification to the external consumer of a session.
pub enum Notification {
    /// A service instance was fully resolved: its full record name, its
    /// host's name, its addresses (every IPv4 entry before every IPv6 entry),
    /// its port and its TXT metadata pairs.
    Discovered {
        name: String,
        host: String,
        addresses: Vec<AddrEntry>,
        port: u16,
        metadata: Vec<(String, String)>,
    },
    /// A previously discovered service instance disappeared; carries its full
    /// record name.
    Removed { name: String },
    /// A failure to report: engine creation, configuration, subscription or
    /// registration trouble, described in text.
    Error { message: String },
}

/// Whether a discovery notification's addresses are family-ordered; any
/// other notification carries no address list, so nothing is demanded of it.
pub open spec fn addresses_ordered(n: Notification) -> bool {
    match n {
        Notification::Discovered { addresses, .. } => family_ordered(addresses@),
        _ => true,
    }
}

/// Builds an error notification whose message is the fixed description
/// followed by the detail text.
pub(crate) fn error_note(prefix: &str, detail: &str) -> (n: Notification)
    ensures
        n matches Notification::Error { message } && message@ == prefix@ + detail@,
{
    Notification::Error { message: String::from_str(prefix).concat(detail) }
}

impl Notification {
    /// Whether this notification reports an error.
    pub fn is_error(&self) -> (r: bool)
        ensures
            r == (*self is Error),
    {
        match self {
            Notification::Error { .. } => true,
            _ => false,
        }
    }
}

} // verus!
