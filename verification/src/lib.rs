//! Query and change the DNS configuration of the currently active network
//! service by driving the platform's network-configuration tool and parsing
//! its human-readable output.
//!
//! The platform itself — the configuration tool, the outbound-route probe and
//! interface enumeration — stands behind the [`System`] trait and is handed
//! in by the caller; everything on this side of that trait, the resolution of
//! the active service and the parsing and serialization of the tool's text,
//! is verified.

pub mod dns;
pub mod laws;
pub mod parse;
pub mod resolve;
pub mod system;
pub mod text;

pub use crate::system::{NetInterface, System, ToolOutput};

use vstd::prelude::*;

verus! {

/// The DNS configuration of a network service.
///
/// When `enable` is false, `server` holds the sentinel value `"Empty"`: the
/// literal token the platform configuration tool uses to clear the DNS
/// servers of a service.
#[derive(Debug, Default, Clone, PartialEq, Eq)]
pub struct SysDNS {
    pub enable: bool,
    pub server: String,
}

impl SysDNS {
    /// A disabled configuration carries the sentinel server value `"Empty"`.
    pub open spec fn wf(self) -> bool {
        !self.enable ==> self.server@ == "Empty"@
    }

    /// Whether this library is available.
    ///
    /// The resolution and parsing logic is independent of the host; the
    /// platform integration behind the [`System`] trait decides what a
    /// deployment can actually reach.
    pub fn is_support() -> (r: bool)
        ensures
            r,
    {
        true
    }

    /// Read the DNS configuration of the currently active network service.
    ///
    /// The active service is re-resolved from scratch on every call: first
    /// from the routing-table ground truth, and when that strategy errors,
    /// from the tool's own services listing. Whatever the platform answers,
    /// a returned configuration is well-formed.
    pub fn get_system_dns<S: System>(sys: &mut S) -> (r: Result<SysDNS, Error>)
        ensures
            r matches Ok(d) ==> d.wf(),
    {
        let service = match crate::resolve::default_network_service(sys) {
            Ok(s) => s,
            Err(_) => match crate::resolve::default_network_service_by_ns(sys) {
                Ok(s) => s,
                Err(e) => return Err(e),
            },
        };
        crate::dns::get_dns(sys, service.as_str())
    }

    /// Apply this DNS configuration to the currently active network service,
    /// resolved as in [`SysDNS::get_system_dns`].
    pub fn set_system_dns<S: System>(&self, sys: &mut S) -> (r: Result<(), Error>) {
        let service = match crate::resolve::default_network_service(sys) {
            Ok(s) => s,
            Err(_) => match crate::resolve::default_network_service_by_ns(sys) {
                Ok(s) => s,
                Err(e) => return Err(e),
            },
        };
        crate::dns::set_dns(sys, self, service.as_str())
    }
}

/// An error of a DNS query or update.
#[derive(Debug, Clone, PartialEq, Eq)]
pub enum Error {
    /// The configuration tool produced output that could not be read as text.
    ParseStr(String),
    /// A system call or process invocation failed.
    Io(String),
    /// No active network service could be identified.
    NetworkInterface,
}

} // verus!
