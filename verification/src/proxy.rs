//! The proxy that runs inside the program: how it is set up and when it is
//! ready.

use crate::config::Config;
use crate::text;
use crate::text::decimal;
use vstd::prelude::*;

verus! {

pub const DEFAULT_BACKEND_URL: &'static str = "https://enclave.trymaple.ai";

/// How often the proxy is asked whether it is up.
pub const HEALTH_TRIES: u32 = 50;

/// Handle to the proxy. All attestation and encryption lives behind it; the rest
/// of the program only ever speaks to the loopback interface.
#[derive(Debug, Clone)]
pub struct ProxyHandle {
    pub port: u16,
}

/// Where the proxy on this port is reached.
pub open spec fn loopback_url(port: u16) -> Seq<char> {
    "http://127.0.0.1:"@ + decimal(port as nat)
}

impl ProxyHandle {
    pub fn base_url(&self) -> (r: String)
        ensures
            r@ == loopback_url(self.port),
    {
        text::cat2("http://127.0.0.1:", text::to_decimal(self.port as u64).as_str())
    }

    /// Where the proxy is asked whether it is up.
    pub fn health_url(&self) -> (r: String)
        ensures
            r@ == loopback_url(self.port) + "/health"@,
    {
        text::cat2(self.base_url().as_str(), "/health")
    }
}

/// Which measurements the enclave is held to.
#[derive(Debug, Clone, Copy, PartialEq, Eq, Structural)]
pub enum Pcr0Environment {
    Production,
    Development,
}

/// What the proxy is started with.
pub struct ProxySettings {
    pub pcr0: Pcr0Environment,
    pub backend_url: String,
    pub port: u16,
}

/// The `Debug` form of a text.
pub uninterp spec fn quoted(s: Seq<char>) -> Seq<char>;

/// `str`'s `Debug`: the text in quotation marks with escapes, named by
/// [`quoted`].
#[verifier::external_body]
fn quote(s: &str) -> (r: String)
    ensures
        r@ == quoted(s@),
{
    format!("{s:?}")
}

/// The measurements that a setting names.
pub open spec fn pcr0_named(name: Seq<char>) -> Option<Pcr0Environment> {
    if name == "production"@ {
        Some(Pcr0Environment::Production)
    } else if name == "development"@ {
        Some(Pcr0Environment::Development)
    } else {
        None
    }
}

/// The measurements that a setting names; otherwise the setting is shown as
/// `shown` in the complaint.
pub fn parse_pcr0(name: &str, shown: &str) -> (r: Result<Pcr0Environment, String>)
    ensures
        match pcr0_named(name@) {
            Some(p) => r is Ok && r->Ok_0 == p,
            None => r is Err && r->Err_0@ == "invalid proxy.pcr0_environment "@ + shown@
                + " (production|development)"@,
        },
{
    if text::same(name, "production") {
        Ok(Pcr0Environment::Production)
    } else if text::same(name, "development") {
        Ok(Pcr0Environment::Development)
    } else {
        Err(text::cat3("invalid proxy.pcr0_environment ", shown, " (production|development)"))
    }
}

/// What the proxy is started with.
pub fn settings(config: &Config) -> (r: Result<ProxySettings, String>)
    ensures
        match pcr0_named(config.proxy.pcr0_environment@) {
            Some(p) => {
                &&& r is Ok
                &&& r->Ok_0.pcr0 == p
                &&& r->Ok_0.port == config.proxy.port
                &&& r->Ok_0.backend_url@ == match config.proxy.backend_url {
                    Some(url) => url@,
                    None => DEFAULT_BACKEND_URL@,
                }
            },
            None => r is Err && r->Err_0@ == "invalid proxy.pcr0_environment "@ + quoted(
                config.proxy.pcr0_environment@,
            ) + " (production|development)"@,
        },
{
    let name = config.proxy.pcr0_environment.as_str();
    let pcr0 = match parse_pcr0(name, quote(name).as_str()) {
        Ok(p) => p,
        Err(e) => {
            return Err(e);
        },
    };
    let backend_url = match &config.proxy.backend_url {
        Some(url) => url.clone(),
        None => DEFAULT_BACKEND_URL.to_string(),
    };
    Ok(ProxySettings { pcr0, backend_url, port: config.proxy.port })
}

/// What follows an answer of the proxy, or the lack of one.
pub enum Health {
    /// The proxy is up.
    Ready,
    /// Wait a little and ask again; so many times are left.
    Again(u32),
    /// It is time to give up.
    Failed(String),
}

/// What follows an answer of the proxy: `left` is how many times it was still to
/// be asked, this time included.
pub fn wait_healthy(handle: &ProxyHandle, left: u32, healthy: bool) -> (h: Health)
    ensures
        healthy ==> h is Ready,
        !healthy && left > 1 ==> h == Health::Again((left - 1) as u32),
        !healthy && left <= 1 ==> h is Failed && h->Failed_0@
            == "embedded maple-proxy did not become healthy on "@ + loopback_url(handle.port)
            + "/health"@,
{
    if healthy {
        return Health::Ready;
    }
    if left > 1 {
        return Health::Again(left - 1);
    }
    let url = handle.health_url();
    let msg = text::cat2("embedded maple-proxy did not become healthy on ", url.as_str());
    proof {
        assert(msg@ =~= "embedded maple-proxy did not become healthy on "@ + loopback_url(
            handle.port,
        ) + "/health"@);
    }
    Health::Failed(msg)
}

} // verus!
