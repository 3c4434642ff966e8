//! The service record an Advertise Session announces.
//!
//! The record is built fresh per advertise call and immutable once
//! registered: an instance name, a service type, the advertising machine's
//! hostname, a port clamped into the valid range, and ordered textual
//! metadata.  Its full record name combines instance name and service type.

use vstd::prelude::*;
use vstd::string::StrSliceExecFns;
use vstd::string::StringExecFns;
use crate::engine::has_service_suffix;
use crate::engine::os_hostname;
use crate::engine::safe_register_fullname;
use crate::engine::tail_after_last_dot;

verus! {

/// The port a record may carry: [1, 65535], the requested value pushed to the
/// nearer bound when outside.
pub open spec fn clamped_port(port: i64) -> u16 {
    if port < 1 {
        1u16
    } else if port > 65535 {
        65535u16
    } else {
        port as u16
    }
}

/// Clamps a requested port number into the valid service-port range.
pub fn clamp_port(port: i64) -> (r: u16)
    ensures
        r == clamped_port(port),
        1 <= r <= 65535,
{
    if port < 1 {
        1
    } else if port > 65535 {
        65535
    } else {
        port as u16
    }
}

/// A service record: what one advertise call announces.
pub struct ServiceRecord {
    instance_name: String,
    service_type: String,
    hostname: String,
    port: u16,
    metadata: Vec<(String, String)>,
    fullname: String,
}

impl ServiceRecord {
    /// The instance name supplied by the caller.
    pub closed spec fn spec_instance_name(self) -> Seq<char> {
        self.instance_name@
    }

    /// The service type supplied by the caller, passed through unchanged
    /// (this layer does not validate the trailing-dot convention).
    pub closed spec fn spec_service_type(self) -> Seq<char> {
        self.service_type@
    }

    /// The advertised hostname.
    pub closed spec fn spec_hostname(self) -> Seq<char> {
        self.hostname@
    }

    /// The advertised port.
    pub closed spec fn spec_port(self) -> u16 {
        self.port
    }

    /// The metadata pairs, in the order supplied.
    pub closed spec fn spec_metadata(self) -> Seq<(String, String)> {
        self.metadata@
    }

    /// The full record name.
    pub closed spec fn spec_fullname(self) -> Seq<char> {
        self.fullname@
    }

    /// A well-formed record: the fullname is the instance name, a dot, and
    /// the service type; the port is in the valid range.
    pub open spec fn wf(self) -> bool {
        &&& self.spec_fullname() == self.spec_instance_name() + "."@ + self.spec_service_type()
        &&& 1 <= self.spec_port() <= 65535
    }

    /// Builds a record from the caller's plain values, clamping the port into
    /// the valid range.
    pub fn new(
        instance_name: String,
        service_type: String,
        hostname: String,
        port: i64,
        metadata: Vec<(String, String)>,
    ) -> (r: ServiceRecord)
        ensures
            r.wf(),
            r.spec_instance_name() == instance_name@,
            r.spec_service_type() == service_type@,
            r.spec_hostname() == hostname@,
            r.spec_port() == clamped_port(port),
            r.spec_metadata() == metadata@,
    {
        let fullname = instance_name.clone().concat(".").concat(service_type.as_str());
        ServiceRecord {
            instance_name,
            service_type,
            hostname,
            port: clamp_port(port),
            metadata,
            fullname,
        }
    }

    /// The full record name.
    pub fn get_fullname(&self) -> (r: &String)
        ensures
            r@ == self.spec_fullname(),
    {
        &self.fullname
    }

    /// The instance name.
    pub fn get_instance_name(&self) -> (r: &String)
        ensures
            r@ == self.spec_instance_name(),
    {
        &self.instance_name
    }

    /// The service type.
    pub fn get_service_type(&self) -> (r: &String)
        ensures
            r@ == self.spec_service_type(),
    {
        &self.service_type
    }

    /// The advertised hostname.
    pub fn get_hostname(&self) -> (r: &String)
        ensures
            r@ == self.spec_hostname(),
    {
        &self.hostname
    }

    /// The advertised port.
    pub fn get_port(&self) -> (r: u16)
        ensures
            r == self.spec_port(),
    {
        self.port
    }

    /// The metadata pairs, in the order supplied.
    pub fn get_metadata(&self) -> (r: &Vec<(String, String)>)
        ensures
            r@ == self.spec_metadata(),
    {
        &self.metadata
    }
}

/// The full record name of a well-formed record embeds both parts it was
/// built from: it starts with the instance name and ends with the service
/// type.
pub proof fn lemma_fullname_embeds(r: ServiceRecord)
    requires
        r.wf(),
    ensures
        r.spec_fullname().len() == r.spec_instance_name().len() + 1 + r.spec_service_type().len(),
        r.spec_fullname().subrange(0, r.spec_instance_name().len() as int) == r.spec_instance_name(),
        r.spec_fullname().subrange(
            r.spec_fullname().len() - r.spec_service_type().len(),
            r.spec_fullname().len() as int,
        ) == r.spec_service_type(),
{
    reveal_strlit(".");
    let a = r.spec_instance_name();
    let b = r.spec_service_type();
    assert(r.spec_fullname().subrange(0, a.len() as int) =~= a);
    assert(r.spec_fullname().subrange(
        r.spec_fullname().len() - b.len(),
        r.spec_fullname().len() as int,
    ) =~= b);
}

/// The hostname to advertise under: the given name when there is one,
/// "unknown-host" where retrieval failed or gave no valid Unicode.
pub fn hostname_or_fallback(h: Option<String>) -> (r: String)
    ensures
        r@ == match h {
            Some(name) => name@,
            None => "unknown-host"@,
        },
{
    match h {
        Some(name) => name,
        None => String::from_str("unknown-host"),
    }
}

/// The machine's hostname, or "unknown-host" where the operating system gives
/// none usable.
pub fn get_hostname() -> String {
    hostname_or_fallback(os_hostname())
}

/// Appends the literal domain suffix ".local." to a host's bare name,
/// forming the name under which records are advertised.
pub fn host_with_domain(base: String) -> (r: String)
    ensures
        r@ == base@ + ".local."@,
{
    base.concat(".local.")
}

/// The hostname under which records are advertised: the machine's hostname
/// with the literal domain suffix ".local." appended.
pub fn local_host_name() -> (r: String)
    ensures
        r@.len() >= 7,
        r@.subrange(r@.len() - 7, r@.len() as int) == ".local."@,
{
    let r = host_with_domain(get_hostname());
    proof {
        reveal_strlit(".local.");
        assert(r@.subrange(r@.len() - 7, r@.len() as int) =~= ".local."@);
    }
    r
}

/// Whether the characters of `s` from `off` on match `pat` exactly.
fn chars_match(s: &str, off: usize, pat: &str) -> (r: bool)
    requires
        off + pat@.len() <= s@.len(),
    ensures
        r == (s@.subrange(off as int, off + pat@.len()) == pat@),
{
    let total = s.unicode_len();
    let m = pat.unicode_len();
    let mut j: usize = 0;
    while j < m
        invariant
            total == s@.len(),
            m == pat@.len(),
            off + m <= total,
            j <= m,
            forall|k: int| 0 <= k < j ==> s@[off + k] == pat@[k],
        decreases m - j,
    {
        if s.get_char(off + j) != pat.get_char(j) {
            proof {
                assert(s@.subrange(off as int, off + pat@.len())[j as int] != pat@[j as int]);
            }
            return false;
        }
        j = j + 1;
    }
    proof {
        assert(s@.subrange(off as int, off + pat@.len()) =~= pat@);
    }
    true
}

/// The part of `p` after its last '.' is exactly the dot-free tail that
/// starts at `start`.
proof fn lemma_tail_after_last_dot(p: Seq<char>, start: int)
    requires
        0 <= start <= p.len(),
        forall|k: int| start <= k < p.len() ==> p[k] != '.',
        start > 0 ==> p[start - 1] == '.',
    ensures
        tail_after_last_dot(p) == p.subrange(start, p.len() as int),
    decreases p.len(),
{
    if p.len() == start {
        if p.len() == 0 {
            assert(tail_after_last_dot(p) =~= p.subrange(start, p.len() as int));
        } else {
            assert(p.last() == p[start - 1]);
            assert(tail_after_last_dot(p) =~= p.subrange(start, p.len() as int));
        }
    } else {
        assert(p.last() != '.');
        lemma_tail_after_last_dot(p.drop_last(), start);
        assert(tail_after_last_dot(p) =~= p.subrange(start, p.len() as int));
    }
}

/// Whether the engine's registration-time validation is total on this full
/// record name: the label standing before the domain suffix is non-empty and
/// opens with an ASCII character, or the name carries no domain suffix at
/// all (the engine then refuses it outright, without reaching the label).
pub fn registrable_fullname(s: &str) -> (r: bool)
    ensures
        r == safe_register_fullname(s@),
{
    let n = s.unicode_len();
    proof {
        reveal_strlit("._tcp.local.");
        reveal_strlit("._udp.local.");
    }
    if n < 12 {
        return true;
    }
    let is_tcp = chars_match(s, n - 12, "._tcp.local.");
    let is_udp = chars_match(s, n - 12, "._udp.local.");
    if !is_tcp && !is_udp {
        assert(!has_service_suffix(s@));
        return true;
    }
    let end = n - 12;
    let mut label_start: usize = 0;
    let mut i: usize = 0;
    while i < end
        invariant
            n == s@.len(),
            end == n - 12,
            n >= 12,
            i <= end,
            label_start <= i,
            label_start > 0 ==> s@[label_start - 1] == '.',
            forall|k: int| label_start <= k < i ==> s@[k] != '.',
        decreases end - i,
    {
        if s.get_char(i) == '.' {
            label_start = i + 1;
        }
        i = i + 1;
    }
    proof {
        let prefix = s@.subrange(0, n - 12);
        lemma_tail_after_last_dot(prefix, label_start as int);
        assert(tail_after_last_dot(prefix) =~= s@.subrange(label_start as int, n - 12));
    }
    if label_start == end {
        return false;
    }
    let c = s.get_char(label_start);
    (c as u32) < 128
}

} // verus!
