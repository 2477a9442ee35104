//! Readiness probing of the server: GET requests to a fixed list of
//! endpoints, in order, each answered or not by the caller; the first HTTP
//! 200 makes the server healthy.

use vstd::prelude::*;
use crate::text::{decimal, decimal_string};

verus! {

/// The address of `path` on the loopback server listening on `port`.
pub open spec fn local_url(port: u16, path: Seq<char>) -> Seq<char> {
    "http://127.0.0.1:"@ + decimal(port as nat) + path
}

/// Builds the address of `path` on the loopback server at `port`.
pub fn local_url_string(port: u16, path: &str) -> (r: String)
    ensures
        r@ == local_url(port, path@),
{
    let mut url = String::from_str("http://127.0.0.1:");
    let digits = decimal_string(port as u64);
    url.append(digits.as_str());
    url.append(path);
    url
}

/// How many endpoints a probe tries.
pub const HEALTH_ENDPOINT_COUNT: usize = 3;

/// The endpoints a probe tries, in order.
pub open spec fn health_endpoint(i: int) -> Seq<char> {
    if i == 0 {
        "/v1/models"@
    } else if i == 1 {
        "/health"@
    } else {
        "/healthz"@
    }
}

fn health_endpoint_str(i: usize) -> (r: &'static str)
    ensures
        r@ == health_endpoint(i as int),
{
    if i == 0 {
        "/v1/models"
    } else if i == 1 {
        "/health"
    } else {
        "/healthz"
    }
}

/// The outcome of one probe: whether the server answered, and where.
pub struct RuntimeHealthProbeResult {
    pub healthy: bool,
    pub endpoint: Option<String>,
}

/// What a probe asks for next.
pub enum HealthStep {
    /// Send a GET to this address and report its HTTP status, or `None`
    /// when no response came in time.
    Get(String),
    /// The probe is over.
    Done(RuntimeHealthProbeResult),
}

/// A probe of the server listening on one port.
pub struct HealthProbe {
    port: u16,
    index: usize,
}

impl HealthProbe {
    pub closed spec fn port(&self) -> u16 {
        self.port
    }

    /// The endpoint being tried.
    pub closed spec fn index(&self) -> int {
        self.index as int
    }

    /// Starts a probe; its first step is a GET to the first endpoint.
    pub fn start(port: u16) -> (r: (HealthProbe, HealthStep))
        ensures
            r.0.port() == port,
            r.0.index() == 0,
            (r.1 matches HealthStep::Get(url) && url@ == local_url(port, health_endpoint(0))),
    {
        let url = local_url_string(port, health_endpoint_str(0));
        (HealthProbe { port, index: 0 }, HealthStep::Get(url))
    }

    /// Reports the HTTP status that the last GET got, if any.
    pub fn report(&mut self, status: Option<u16>) -> (r: HealthStep)
        requires
            old(self).index() < HEALTH_ENDPOINT_COUNT,
        ensures
            final(self).port() == old(self).port(),
            status == Some(200u16) ==> (r matches HealthStep::Done(d) && d.healthy
                && d.endpoint.deep_view() == Some(health_endpoint(old(self).index()))),
            status != Some(200u16) && old(self).index() + 1 < HEALTH_ENDPOINT_COUNT ==> (
            final(self).index() == old(self).index() + 1 && (r matches HealthStep::Get(url)
                && url@ == local_url(old(self).port(), health_endpoint(old(self).index() + 1)))),
            status != Some(200u16) && old(self).index() + 1 >= HEALTH_ENDPOINT_COUNT ==> (
            r matches HealthStep::Done(d) && !d.healthy && d.endpoint is None),
    {
        if status == Some(200u16) {
            let endpoint = String::from_str(health_endpoint_str(self.index));
            return HealthStep::Done(RuntimeHealthProbeResult { healthy: true, endpoint: Some(endpoint) });
        }
        if self.index + 1 < HEALTH_ENDPOINT_COUNT {
            self.index = self.index + 1;
            HealthStep::Get(local_url_string(self.port, health_endpoint_str(self.index)))
        } else {
            HealthStep::Done(RuntimeHealthProbeResult { healthy: false, endpoint: None })
        }
    }
}

} // verus!
