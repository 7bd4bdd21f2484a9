//! The network capability's egress gate.
//!
//! Each invocation gets a fresh gate configured with the execution context's
//! host allow-list and ceiling on concurrent outbound requests. It is the
//! admission rule of the outbound-HTTP capability: a request is admitted
//! only when its destination host is allowed and the number of requests in
//! flight is below the ceiling; a request over the ceiling is denied
//! explicitly, never dropped. An absent allow-list denies every host
//! (deny-all is the documented default), and the marker entry
//! `insecure:allow-all` allows every host.
//!
//! The rule is carried per invocation in the runtime context, and the
//! engine module registers the experimental outbound-HTTP interface's
//! imports as shims that answer every guest call through the verified
//! functions below. No transport is wired in this host — the crate that
//! carried one no longer builds against current engines — so a request
//! under the ceiling is still answered with the interface's runtime-error
//! code rather than performed; an embedder that performs outbound requests
//! on a guest's behalf consults its gate before each one.

use vstd::prelude::*;

verus! {

/// The outbound-HTTP interface's code for a stale or unknown response
/// handle (`HTTP_ERROR::INVALID_HANDLE` of the interface crate).
pub const HTTP_ERROR_INVALID_HANDLE: u32 = 1;

/// The outbound-HTTP interface's code for a request the runtime cannot
/// perform (`HTTP_ERROR::RUNTIME_ERROR` of the interface crate).
pub const HTTP_ERROR_RUNTIME_ERROR: u32 = 12;

/// The outbound-HTTP interface's code for a request over the concurrency
/// ceiling (`HTTP_ERROR::TOO_MANY_SESSIONS` of the interface crate).
pub const HTTP_ERROR_TOO_MANY_SESSIONS: u32 = 13;

/// The view of an optional allow-list as sequences of characters.
pub open spec fn hosts_view(hosts: Option<Vec<String>>) -> Option<Seq<Seq<char>>> {
    match hosts {
        None => None,
        Some(v) => Some(Seq::new(v@.len(), |i: int| v@[i]@)),
    }
}

/// The allow-list entry that switches admission to allow-all.
pub open spec fn allow_all_marker() -> Seq<char> {
    "insecure:allow-all"@
}

/// Whether one host name is admitted by an allow-list.
pub open spec fn spec_host_allowed(hosts: Option<Seq<Seq<char>>>, host: Seq<char>) -> bool {
    match hosts {
        None => false,
        Some(hs) => exists|i: int|
            0 <= i < hs.len() && (hs[i] == allow_all_marker() || hs[i] == host),
    }
}

/// Per-invocation admission control for outbound HTTP requests.
pub struct HttpGate {
    allowed_hosts: Option<Vec<String>>,
    max_concurrent_requests: Option<u32>,
    active: u32,
}

impl HttpGate {
    /// The configured allow-list, as character sequences.
    pub closed spec fn hosts(self) -> Option<Seq<Seq<char>>> {
        hosts_view(self.allowed_hosts)
    }

    /// The configured ceiling on concurrent outbound requests.
    pub closed spec fn ceiling(self) -> Option<u32> {
        self.max_concurrent_requests
    }

    /// The number of outbound requests currently in flight.
    pub closed spec fn in_flight(self) -> u32 {
        self.active
    }

    /// The effective admission capacity: the configured ceiling, or the
    /// largest representable count when no ceiling was configured.
    pub open spec fn capacity(self) -> u32 {
        match self.ceiling() {
            Some(m) => m,
            None => u32::MAX,
        }
    }

    /// A fresh gate for one invocation: nothing is in flight yet.
    pub fn new(allowed_hosts: Option<Vec<String>>, max_concurrent_requests: Option<u32>) -> (g:
        HttpGate)
        ensures
            g.hosts() == hosts_view(allowed_hosts),
            g.ceiling() == max_concurrent_requests,
            g.in_flight() == 0,
    {
        HttpGate { allowed_hosts, max_concurrent_requests, active: 0 }
    }

    /// Whether an outbound request to `host` is admitted by the allow-list:
    /// admitted exactly when some entry equals the host or is the allow-all
    /// marker; with no allow-list configured, every host is denied.
    pub fn host_allowed(&self, host: &String) -> (admitted: bool)
        ensures
            admitted == spec_host_allowed(self.hosts(), host@),
    {
        match &self.allowed_hosts {
            None => false,
            Some(hs) => {
                let marker: String = "insecure:allow-all".to_owned();
                let n = hs.len();
                let mut i: usize = 0;
                loop
                    invariant
                        0 <= i <= n,
                        n == hs@.len(),
                        marker@ == allow_all_marker(),
                        forall|j: int|
                            0 <= j < i ==> !(hs@[j]@ == allow_all_marker() || hs@[j]@ == host@),
                    ensures
                        i <= n,
                        i < n ==> (hs@[i as int]@ == allow_all_marker() || hs@[i as int]@
                            == host@),
                        i == n ==> forall|j: int|
                            0 <= j < n ==> !(hs@[j]@ == allow_all_marker() || hs@[j]@ == host@),
                    decreases n - i,
                {
                    if i >= n {
                        break ;
                    }
                    let entry = &hs[i];
                    if entry.eq(&marker) || entry.eq(host) {
                        break ;
                    }
                    i = i + 1;
                }
                if i < n {
                    proof {
                        assert(hosts_view(self.allowed_hosts) matches Some(hs2) && 0 <= (
                        i as int) < hs2.len() && (hs2[i as int] == allow_all_marker() || hs2[
                            i as int
                        ] == host@));
                        assert(spec_host_allowed(self.hosts(), host@));
                    }
                    true
                } else {
                    proof {
                        assert(hosts_view(self.allowed_hosts) matches Some(hs2) && forall|j: int|
                            0 <= j < hs2.len() ==> !(#[trigger] hs2[j] == allow_all_marker()
                                || hs2[j] == host@));
                        assert(!spec_host_allowed(self.hosts(), host@));
                    }
                    false
                }
            },
        }
    }

    /// Ask for one more outbound request to be admitted. Admission succeeds
    /// exactly when the count in flight is below the capacity; a denied
    /// request changes nothing, so it is reported, never dropped.
    /// A gate that respected its ceiling before the call still does after it.
    pub fn try_acquire(&mut self) -> (admitted: bool)
        ensures
            admitted == (old(self).in_flight() < old(self).capacity()),
            admitted ==> final(self).in_flight() == old(self).in_flight() + 1,
            !admitted ==> *final(self) == *old(self),
            final(self).hosts() == old(self).hosts(),
            final(self).ceiling() == old(self).ceiling(),
            old(self).in_flight() <= old(self).capacity() ==> final(self).in_flight()
                <= final(self).capacity(),
    {
        let cap: u32 = match self.max_concurrent_requests {
            Some(m) => m,
            None => u32::MAX,
        };
        if self.active < cap {
            self.active = self.active + 1;
            true
        } else {
            false
        }
    }

    /// Answer one `req` call of the outbound-HTTP interface. The admission
    /// rule is consulted in the interface's own order: a request over the
    /// concurrency ceiling is answered with the too-many-sessions code.
    /// Below the ceiling no transport is available in this host to carry the
    /// request, so it is answered with the runtime-error code; either way
    /// nothing stays in flight and the rule is unchanged.
    pub fn outbound_req_code(&mut self) -> (code: u32)
        ensures
            (code == HTTP_ERROR_TOO_MANY_SESSIONS) == (old(self).in_flight() >= old(
                self,
            ).capacity()),
            code == HTTP_ERROR_TOO_MANY_SESSIONS || code == HTTP_ERROR_RUNTIME_ERROR,
            final(self).in_flight() == old(self).in_flight(),
            final(self).hosts() == old(self).hosts(),
            final(self).ceiling() == old(self).ceiling(),
    {
        if self.try_acquire() {
            self.release();
            HTTP_ERROR_RUNTIME_ERROR
        } else {
            HTTP_ERROR_TOO_MANY_SESSIONS
        }
    }

    /// Mark one outbound request as finished.
    pub fn release(&mut self)
        requires
            old(self).in_flight() > 0,
        ensures
            final(self).in_flight() == old(self).in_flight() - 1,
            final(self).hosts() == old(self).hosts(),
            final(self).ceiling() == old(self).ceiling(),
    {
        self.active = self.active - 1;
    }
}

/// The outbound-HTTP interface's answer for any response-handle operation:
/// no request ever succeeds in this host, so no handle is live and every
/// handle is stale.
pub fn outbound_invalid_handle_code() -> (code: u32)
    ensures
        code == HTTP_ERROR_INVALID_HANDLE,
{
    HTTP_ERROR_INVALID_HANDLE
}

} // verus!
